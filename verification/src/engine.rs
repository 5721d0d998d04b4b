//! The sandbox engine's decision surface: the host-owned state for one
//! execution, the allowlist check behind brokered HTTP, and the exact
//! semantics of the payload and response buffers that the host functions
//! expose to the guest. The virtual machine binding around these decisions
//! lives outside the library.

use vstd::prelude::*;
use vstd::string::*;
use crate::strutil::{str_eq, str_starts_with, str_ends_with};

verus! {

/// Configuration for one execution.
#[derive(Debug, Clone)]
pub struct ExecutionConfig {
    /// Execution timeout in seconds.
    pub timeout_secs: u64,
    /// Whether HTTP host functions are enabled.
    pub enable_http: bool,
    /// Whether payload I/O host functions are enabled.
    pub enable_payload_io: bool,
}

impl Default for ExecutionConfig {
    fn default() -> (r: Self)
        ensures
            r.timeout_secs == 30,
            r.enable_http,
            r.enable_payload_io,
    {
        ExecutionConfig { timeout_secs: 30, enable_http: true, enable_payload_io: true }
    }
}

/// Result of one execution.
#[derive(Debug, Clone)]
pub struct ExecutionResult {
    /// Whether the execution succeeded.
    pub success: bool,
    /// The action that was run, when the execution succeeded.
    pub action: Option<String>,
    /// Error message, when it failed.
    pub error: Option<String>,
    /// Whether the payload was rewritten during execution.
    pub payload_updated: bool,
}

/// The entry points a module may export, in lookup order.
#[derive(Debug, Clone, Copy, PartialEq, Eq, Structural)]
pub enum EntryPoint {
    /// An exported function named `run`.
    Run,
    /// An exported function named `_start`.
    Start,
}

/// Pick the entry point: `run` when exported, else `_start`, else nothing.
pub fn select_entry_point(has_run: bool, has_start: bool) -> (r: Option<EntryPoint>)
    ensures
        has_run ==> r == Some(EntryPoint::Run),
        !has_run && has_start ==> r == Some(EntryPoint::Start),
        !has_run && !has_start ==> r is None,
{
    if has_run {
        Some(EntryPoint::Run)
    } else if has_start {
        Some(EntryPoint::Start)
    } else {
        None
    }
}

/// The failure classes of the brokered HTTP host call.
#[derive(Debug, Clone, Copy, PartialEq, Eq, Structural)]
pub enum HttpFailure {
    /// The guest handed over unreadable pointers or strings.
    BadInput,
    /// The target host is not on the effective allowlist.
    NotAllowed,
    /// The HTTP client could not be constructed.
    ClientBuild,
    /// The response body could not be read.
    BodyRead,
    /// The request itself failed on the network.
    Network,
}

/// The negative sentinel returned to the guest for each failure class.
pub fn http_failure_code(f: HttpFailure) -> (r: i32)
    ensures
        f == HttpFailure::BadInput ==> r == -1,
        f == HttpFailure::NotAllowed ==> r == -2,
        f == HttpFailure::ClientBuild ==> r == -3,
        f == HttpFailure::BodyRead ==> r == -4,
        f == HttpFailure::Network ==> r == -5,
{
    match f {
        HttpFailure::BadInput => -1,
        HttpFailure::NotAllowed => -2,
        HttpFailure::ClientBuild => -3,
        HttpFailure::BodyRead => -4,
        HttpFailure::Network => -5,
    }
}

/// Index of the first `://` in a sequence, or a negative value.
pub open spec fn first_proto_idx(s: Seq<char>) -> int
    decreases s.len(),
{
    if s.len() < 3 {
        -1
    } else if s[0] == ':' && s[1] == '/' && s[2] == '/' {
        0
    } else {
        let r = first_proto_idx(s.skip(1));
        if r < 0 {
            -1
        } else {
            r + 1
        }
    }
}

/// Index of the first occurrence of a character, or a negative value.
pub open spec fn first_char_idx(s: Seq<char>, c: char) -> int
    decreases s.len(),
{
    if s.len() == 0 {
        -1
    } else if s[0] == c {
        0
    } else {
        let r = first_char_idx(s.skip(1), c);
        if r < 0 {
            -1
        } else {
            r + 1
        }
    }
}

/// The host part of a URL: what follows `://` up to the first slash, with
/// any `:port` removed; a string without `://` is taken as a bare host.
pub open spec fn url_host(url: Seq<char>) -> Seq<char> {
    let p = first_proto_idx(url);
    if p < 0 {
        url
    } else {
        let rest = url.skip(p + 3);
        let h0 = if first_char_idx(rest, '/') < 0 {
            rest
        } else {
            rest.take(first_char_idx(rest, '/'))
        };
        if first_char_idx(h0, ':') < 0 {
            h0
        } else {
            h0.take(first_char_idx(h0, ':'))
        }
    }
}

/// Whether one engine allowlist entry admits a host: exact equality, or a
/// `*.suffix` pattern whose suffix ends the host.
pub open spec fn engine_host_match(pat: Seq<char>, host: Seq<char>) -> bool {
    pat == host || ("*."@.is_prefix_of(pat) && pat.skip(2).is_suffix_of(host))
}

/// Whether the engine allowlist admits a host: the list is non-empty and
/// some entry matches.
pub open spec fn engine_host_allowed(allowed: Seq<String>, host: Seq<char>) -> bool {
    allowed.len() > 0 && exists|i: int|
        0 <= i < allowed.len() && engine_host_match(#[trigger] allowed[i]@, host)
}

pub proof fn lemma_first_char_at(s: Seq<char>, c: char, i: int)
    requires
        0 <= i < s.len(),
        s[i] == c,
        forall|j: int| 0 <= j < i ==> s[j] != c,
    ensures
        first_char_idx(s, c) == i,
    decreases i,
{
    if i > 0 {
        lemma_first_char_at(s.skip(1), c, i - 1);
    }
}

pub proof fn lemma_first_char_none(s: Seq<char>, c: char)
    requires
        forall|j: int| 0 <= j < s.len() ==> s[j] != c,
    ensures
        first_char_idx(s, c) < 0,
    decreases s.len(),
{
    if s.len() > 0 {
        lemma_first_char_none(s.skip(1), c);
    }
}

proof fn lemma_first_proto_at(s: Seq<char>, i: int)
    requires
        0 <= i,
        i + 3 <= s.len(),
        s[i] == ':' && s[i + 1] == '/' && s[i + 2] == '/',
        forall|j: int| 0 <= j < i
            ==> !(#[trigger] s[j] == ':' && s[j + 1] == '/' && s[j + 2] == '/'),
    ensures
        first_proto_idx(s) == i,
    decreases i,
{
    if i > 0 {
        lemma_first_proto_at(s.skip(1), i - 1);
    }
}

proof fn lemma_first_proto_none(s: Seq<char>)
    requires
        forall|j: int| 0 <= j && j + 3 <= s.len()
            ==> !(#[trigger] s[j] == ':' && s[j + 1] == '/' && s[j + 2] == '/'),
    ensures
        first_proto_idx(s) < 0,
    decreases s.len(),
{
    if s.len() >= 3 {
        lemma_first_proto_none(s.skip(1));
    }
}

/// Find the first `://` in a string.
fn find_proto(s: &str) -> (r: Option<usize>)
    ensures
        match r {
            Some(i) => first_proto_idx(s@) == i && i + 3 <= s@.len(),
            None => first_proto_idx(s@) < 0,
        },
{
    let len = s.unicode_len();
    if len < 3 {
        proof {
            lemma_first_proto_none(s@);
        }
        return None;
    }
    let mut i: usize = 0;
    while i <= len - 3
        invariant
            len == s@.len(),
            3 <= len,
            i <= len,
            forall|j: int| 0 <= j < i
                ==> !(#[trigger] s@[j] == ':' && s@[j + 1] == '/' && s@[j + 2] == '/'),
        decreases len - i,
    {
        if s.get_char(i) == ':' && s.get_char(i + 1) == '/' && s.get_char(i + 2) == '/' {
            proof {
                lemma_first_proto_at(s@, i as int);
            }
            return Some(i);
        }
        i += 1;
    }
    proof {
        lemma_first_proto_none(s@);
    }
    None
}

/// Find the first occurrence of a character in a string.
fn find_char_exec(s: &str, c: char) -> (r: Option<usize>)
    ensures
        match r {
            Some(i) => first_char_idx(s@, c) == i && i < s@.len(),
            None => first_char_idx(s@, c) < 0,
        },
{
    let len = s.unicode_len();
    let mut i: usize = 0;
    while i < len
        invariant
            len == s@.len(),
            i <= len,
            forall|j: int| 0 <= j < i ==> s@[j] != c,
        decreases len - i,
    {
        if s.get_char(i) == c {
            proof {
                lemma_first_char_at(s@, c, i as int);
            }
            return Some(i);
        }
        i += 1;
    }
    proof {
        lemma_first_char_none(s@, c);
    }
    None
}

/// Extract the host part of a URL.
pub fn extract_url_host(url: &str) -> (r: &str)
    ensures
        r@ == url_host(url@),
{
    let len = url.unicode_len();
    let rest = match find_proto(url) {
        None => {
            return url.substring_char(0, len);
        },
        Some(p) => url.substring_char(p + 3, len),
    };
    let rest_len = rest.unicode_len();
    let h0 = match find_char_exec(rest, '/') {
        None => rest,
        Some(sl) => rest.substring_char(0, sl),
    };
    let h0_len = h0.unicode_len();
    match find_char_exec(h0, ':') {
        None => h0,
        Some(co) => h0.substring_char(0, co),
    }
}

/// State shared between the host and the guest for one execution.
#[derive(Debug)]
pub struct HostState {
    /// Path to the sync archive.
    pub sync_path: String,
    /// Payload data buffer the guest reads from.
    pub payload_buffer: Vec<u8>,
    /// Updated payload to be written back, once the guest writes one.
    pub updated_payload: Option<Vec<u8>>,
    /// Last brokered HTTP response body.
    pub last_response: Vec<u8>,
    /// Effective host allowlist.
    pub allowed_hosts: Vec<String>,
    /// Execution timeout in seconds.
    pub timeout_secs: u64,
}

impl HostState {
    /// Create the state for one execution: empty buffers, no update.
    pub fn new(sync_path: String, allowed_hosts: Vec<String>, timeout_secs: u64) -> (r: Self)
        ensures
            r.sync_path == sync_path,
            r.payload_buffer@.len() == 0,
            r.updated_payload is None,
            r.last_response@.len() == 0,
            r.allowed_hosts == allowed_hosts,
            r.timeout_secs == timeout_secs,
    {
        HostState {
            sync_path,
            payload_buffer: Vec::new(),
            updated_payload: None,
            last_response: Vec::new(),
            allowed_hosts,
            timeout_secs,
        }
    }

    /// Whether a URL may be fetched: its host part must be admitted by the
    /// allowlist, by exact match or by a `*.suffix` pattern; an empty
    /// allowlist admits nothing.
    pub fn is_host_allowed(&self, url: &str) -> (r: bool)
        ensures
            r == engine_host_allowed(self.allowed_hosts@, url_host(url@)),
    {
        let n = self.allowed_hosts.len();
        if n == 0 {
            return false;
        }
        let host = extract_url_host(url);
        let mut i: usize = 0;
        while i < n
            invariant
                n == self.allowed_hosts@.len(),
                i <= n,
                host@ == url_host(url@),
                forall|j: int| 0 <= j < i
                    ==> !engine_host_match(#[trigger] self.allowed_hosts@[j]@, url_host(url@)),
            decreases n - i,
        {
            proof {
                reveal_strlit("*.");
            }
            let pat = &self.allowed_hosts[i];
            if str_eq(pat.as_str(), host) {
                return true;
            }
            if str_starts_with(pat.as_str(), "*.") {
                let plen = pat.as_str().unicode_len();
                let suffix = pat.as_str().substring_char(2, plen);
                assert(suffix@ =~= pat@.skip(2));
                if str_ends_with(host, suffix) {
                    return true;
                }
            }
            i += 1;
        }
        false
    }
}

/// The bytes the `payload_read` host call copies to the guest: the slice of
/// the payload from `offset`, clamped to the buffer's end; an offset at or
/// past the end yields nothing.
pub fn payload_read_slice(payload: &Vec<u8>, offset: usize, len: usize) -> (r: Vec<u8>)
    ensures
        offset >= payload@.len() ==> r@ == Seq::<u8>::empty(),
        offset < payload@.len() ==> r@ == payload@.subrange(
            offset as int,
            if offset + len <= payload@.len() { offset + len } else { payload@.len() as int },
        ),
{
    let plen = payload.len();
    let mut r: Vec<u8> = Vec::new();
    if offset >= plen {
        return r;
    }
    let end = if len <= plen - offset { offset + len } else { plen };
    let mut i: usize = offset;
    while i < end
        invariant
            plen == payload@.len(),
            offset <= i <= end <= plen,
            r@ =~= payload@.subrange(offset as int, i as int),
        decreases end - i,
    {
        r.push(payload[i]);
        proof {
            assert(r@ =~= payload@.subrange(offset as int, i + 1));
        }
        i += 1;
    }
    r
}

/// What the updated-payload buffer holds after a `payload_write`: the new
/// bytes at `offset`, earlier contents kept where not overwritten, and any
/// gap filled with zeroes.
pub open spec fn written_payload(before: Seq<u8>, offset: int, data: Seq<u8>) -> Seq<u8> {
    let end = offset + data.len();
    let newlen = if before.len() >= end { before.len() as int } else { end };
    Seq::new(newlen as nat, |j: int|
        if offset <= j < end {
            data[j - offset]
        } else if j < before.len() {
            before[j]
        } else {
            0u8
        })
}

/// Apply a guest `payload_write` to the updated-payload buffer: a first
/// write starts from an empty buffer.
pub fn payload_write_at(buf: &mut Option<Vec<u8>>, offset: usize, data: &Vec<u8>) -> (r: usize)
    requires
        offset + data@.len() <= usize::MAX,
    ensures
        r == data@.len(),
        (*final(buf)) matches Some(q) && q@ == written_payload(
            match *old(buf) {
                Some(p) => p@,
                None => Seq::<u8>::empty(),
            },
            offset as int,
            data@,
        ),
{
    let before: Vec<u8> = match buf.take() {
        Some(p) => p,
        None => Vec::new(),
    };
    let ghost before_v = before@;
    let dlen = data.len();
    let blen = before.len();
    let end = offset + dlen;
    let newlen = if blen >= end { blen } else { end };
    let mut q: Vec<u8> = Vec::new();
    let mut j: usize = 0;
    while j < newlen
        invariant
            dlen == data@.len(),
            blen == before_v.len(),
            end == offset + dlen,
            newlen == if blen >= end { blen } else { end },
            before_v == before@,
            j <= newlen,
            q@.len() == j,
            forall|t: int| 0 <= t < j ==> q@[t] == written_payload(before_v, offset as int, data@)[t],
        decreases newlen - j,
    {
        let b: u8 = if offset <= j && j < end {
            data[j - offset]
        } else if j < blen {
            before[j]
        } else {
            0u8
        };
        q.push(b);
        j += 1;
    }
    proof {
        assert(q@ =~= written_payload(before_v, offset as int, data@));
    }
    *buf = Some(q);
    dlen
}

/// The bytes the `last_response_read` host call copies to the guest: the
/// response body clamped to the guest's buffer size.
pub fn response_read_slice(resp: &Vec<u8>, max_len: usize) -> (r: Vec<u8>)
    ensures
        r@ == resp@.take(if resp@.len() <= max_len { resp@.len() as int } else { max_len as int }),
{
    payload_read_slice(resp, 0, max_len)
}

/// Whether a vault execution may proceed: a vault archive requires a
/// configured password before the module runs.
pub fn vault_gate(is_vault: bool, has_password: bool) -> (r: bool)
    ensures
        r == (!is_vault || has_password),
{
    !is_vault || has_password
}

} // verus!
