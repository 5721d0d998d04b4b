//! Remote mount configuration and address parsing. The network plumbing
//! itself lives outside the library; here is the part that decides: how a
//! `host:port` address splits, and what the mount defaults are.

use vstd::prelude::*;
use vstd::string::*;
use crate::strutil::{find_last_char, parse_u16, valid_u16_str, u16_str_val};

verus! {

/// Why an address failed to parse.
#[derive(Debug, Clone, Copy, PartialEq, Eq, Structural)]
pub enum AddrError {
    /// No `host:port` separator was present.
    InvalidFormat,
    /// The part after the last colon is not a sixteen-bit port number.
    InvalidPort,
}

/// Remote mount configuration.
#[derive(Debug, Clone)]
pub struct RemoteMountConfig {
    /// Remote address, as `host:port`.
    pub remote_addr: String,
    /// Local SOCKS5 proxy port for the overlay network.
    pub socks_port: u16,
    /// Connection timeout in seconds.
    pub timeout_secs: u64,
    /// Enable local caching.
    pub cache_enabled: bool,
    /// Local cache directory.
    pub cache_dir: Option<String>,
}

impl Default for RemoteMountConfig {
    fn default() -> (r: Self)
        ensures
            r.remote_addr@.len() == 0,
            r.socks_port == 0,
            r.timeout_secs == 30,
            r.cache_enabled,
            r.cache_dir is None,
    {
        RemoteMountConfig {
            remote_addr: String::new(),
            socks_port: 0,
            timeout_secs: 30,
            cache_enabled: true,
            cache_dir: None,
        }
    }
}

/// Cache configuration for remote mounts.
#[derive(Debug, Clone)]
pub struct CacheConfig {
    /// Maximum cache size in bytes.
    pub max_size_bytes: u64,
    /// Time-to-live for cached entries, in seconds.
    pub ttl_secs: u64,
    /// Cache directory, relative to the system's temporary directory.
    pub cache_dir: String,
}

impl Default for CacheConfig {
    fn default() -> (r: Self)
        ensures
            r.max_size_bytes == 104857600,
            r.ttl_secs == 3600,
            r.cache_dir@ == "capsule-cache"@,
    {
        CacheConfig {
            max_size_bytes: 100 * 1024 * 1024,
            ttl_secs: 3600,
            cache_dir: String::from_str("capsule-cache"),
        }
    }
}

/// Index of the last colon in a sequence, or a negative value if none.
pub open spec fn last_colon_idx(s: Seq<char>) -> int
    decreases s.len(),
{
    if s.len() == 0 {
        -1
    } else if s.last() == ':' {
        s.len() - 1
    } else {
        last_colon_idx(s.drop_last())
    }
}

proof fn lemma_last_colon_none(s: Seq<char>)
    requires
        forall|j: int| 0 <= j < s.len() ==> s[j] != ':',
    ensures
        last_colon_idx(s) == -1,
    decreases s.len(),
{
    if s.len() > 0 {
        lemma_last_colon_none(s.drop_last());
    }
}

proof fn lemma_last_colon_at(s: Seq<char>, i: int)
    requires
        0 <= i < s.len(),
        s[i] == ':',
        forall|j: int| i < j < s.len() ==> s[j] != ':',
    ensures
        last_colon_idx(s) == i,
    decreases s.len(),
{
    if i == s.len() - 1 {
    } else {
        lemma_last_colon_at(s.drop_last(), i);
    }
}

/// Split a `host:port` address at its last colon. The host may be empty; the
/// port must be a sixteen-bit decimal number. An address without a colon is
/// rejected as malformed, and one whose tail is not a valid port number is
/// rejected as an invalid port.
pub fn parse_addr(addr: &str) -> (r: Result<(String, u16), AddrError>)
    ensures
        match r {
            Ok((host, port)) => {
                let i = last_colon_idx(addr@);
                &&& i >= 0
                &&& host@ == addr@.take(i)
                &&& valid_u16_str(addr@.skip(i + 1))
                &&& port as nat == u16_str_val(addr@.skip(i + 1))
            },
            Err(AddrError::InvalidFormat) => last_colon_idx(addr@) < 0,
            Err(AddrError::InvalidPort) => last_colon_idx(addr@) >= 0
                && !valid_u16_str(addr@.skip(last_colon_idx(addr@) + 1)),
        },
{
    let len = addr.unicode_len();
    match find_last_char(addr, ':') {
        None => {
            proof {
                lemma_last_colon_none(addr@);
            }
            Err(AddrError::InvalidFormat)
        },
        Some(i) => {
            proof {
                lemma_last_colon_at(addr@, i as int);
            }
            let port_str = addr.substring_char(i + 1, len);
            assert(port_str@ =~= addr@.skip(i + 1));
            match parse_u16(port_str) {
                None => Err(AddrError::InvalidPort),
                Some(port) => {
                    let host_str = addr.substring_char(0, i);
                    assert(host_str@ =~= addr@.take(i as int));
                    Ok((String::from_str(host_str), port))
                },
            }
        },
    }
}

} // verus!
