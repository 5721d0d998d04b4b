//! Guest sessions: the role/mode/permission state machine that gates every
//! action on an archive. A session starts as a read-only consumer in widget
//! mode; its host and environment allowlists are always intersected with the
//! manifest's, so the manifest stays the upper bound on what a session may
//! grant itself.

use vstd::prelude::*;
use vstd::string::*;
use crate::manifest::ManifestPermissions;
use crate::strutil::{str_eq, dec_str, u64_to_string, is_blank, is_blank_exec, is_space};

verus! {

/// Protocol version for guest communication.
pub const GUEST_PROTOCOL_VERSION: &'static str = "guest.v1";

/// Execution mode for guest sessions.
#[derive(Debug, Clone, Copy, PartialEq, Eq, Structural)]
pub enum GuestMode {
    /// Widget mode with UI bounds.
    Widget,
    /// Headless mode without UI.
    Headless,
}

/// Role of the session initiator.
#[derive(Debug, Clone, Copy, PartialEq, Eq, Structural)]
pub enum GuestContextRole {
    /// Consumer with read-only access.
    Consumer,
    /// Owner with full access.
    Owner,
}

/// Available guest actions.
#[derive(Debug, Clone, Copy, PartialEq, Eq, Structural)]
pub enum GuestAction {
    /// Read the payload content.
    ReadPayload,
    /// Read the context data.
    ReadContext,
    /// Write new payload content.
    WritePayload,
    /// Write new context data.
    WriteContext,
    /// Execute the WASM module.
    ExecuteWasm,
    /// Update the payload in place.
    UpdatePayload,
}

/// Error codes for guest operations.
#[derive(Debug, Clone, Copy, PartialEq, Eq, Structural)]
pub enum GuestErrorCode {
    /// Operation not permitted.
    PermissionDenied,
    /// Malformed request.
    InvalidRequest,
    /// Execution failed.
    ExecutionFailed,
    /// Host application unavailable.
    HostUnavailable,
    /// Protocol violation.
    ProtocolError,
    /// Input/output error.
    IoError,
}

/// Error information from guest operations.
#[derive(Debug, Clone)]
pub struct GuestError {
    /// Error code.
    pub code: GuestErrorCode,
    /// Human-readable message.
    pub message: String,
}

impl GuestError {
    /// Create a new guest error.
    pub fn new(code: GuestErrorCode, message: &str) -> (r: Self)
        ensures
            r.code == code,
            r.message@ == message@,
    {
        GuestError { code, message: String::from_str(message) }
    }
}

/// Permission set for guest operations.
#[derive(Debug, Clone)]
pub struct GuestPermission {
    /// Whether payload reading is allowed.
    pub can_read_payload: bool,
    /// Whether context reading is allowed.
    pub can_read_context: bool,
    /// Whether payload writing is allowed.
    pub can_write_payload: bool,
    /// Whether context writing is allowed.
    pub can_write_context: bool,
    /// Whether WASM execution is allowed.
    pub can_execute_wasm: bool,
    /// List of allowed network hosts.
    pub allowed_hosts: Vec<String>,
    /// List of allowed environment variables.
    pub allowed_env: Vec<String>,
}

impl Default for GuestPermission {
    fn default() -> (r: Self)
        ensures
            !r.can_read_payload,
            !r.can_read_context,
            !r.can_write_payload,
            !r.can_write_context,
            !r.can_execute_wasm,
            r.allowed_hosts@.len() == 0,
            r.allowed_env@.len() == 0,
    {
        GuestPermission {
            can_read_payload: false,
            can_read_context: false,
            can_write_payload: false,
            can_write_context: false,
            can_execute_wasm: false,
            allowed_hosts: Vec::new(),
            allowed_env: Vec::new(),
        }
    }
}

/// Context information passed to guest modules.
#[derive(Debug, Clone)]
pub struct GuestContext {
    /// Execution mode.
    pub mode: GuestMode,
    /// Session role.
    pub role: GuestContextRole,
    /// Effective permissions.
    pub permissions: GuestPermission,
    /// Path to the `.sync` archive.
    pub sync_path: String,
    /// Optional host application identifier.
    pub host_app: Option<String>,
}

/// Bounds for widget rendering.
#[derive(Debug, Clone, Copy, PartialEq, Eq, Structural)]
pub struct WidgetBounds {
    /// X coordinate.
    pub x: u32,
    /// Y coordinate.
    pub y: u32,
    /// Width in pixels.
    pub width: u32,
    /// Height in pixels.
    pub height: u32,
}

/// Whether a list holds a string with the given characters.
pub open spec fn list_contains(l: Seq<String>, x: Seq<char>) -> bool {
    exists|i: int| 0 <= i < l.len() && #[trigger] l[i]@ == x
}

/// The intersection of two allowlists: the entries of `a`, in order, that
/// also appear in `b`.
pub open spec fn intersect_spec(a: Seq<String>, b: Seq<String>) -> Seq<String>
    decreases a.len(),
{
    if a.len() == 0 {
        Seq::empty()
    } else {
        let rest = intersect_spec(a.drop_last(), b);
        if list_contains(b, a.last()@) {
            rest.push(a.last())
        } else {
            rest
        }
    }
}

/// A name appears in the intersection of two allowlists exactly when it
/// appears in both.
pub proof fn lemma_intersection_membership(a: Seq<String>, b: Seq<String>, x: Seq<char>)
    ensures
        list_contains(intersect_spec(a, b), x) <==> (list_contains(a, x) && list_contains(b, x)),
    decreases a.len(),
{
    if a.len() == 0 {
        assert(!list_contains(a, x));
    } else {
        lemma_intersection_membership(a.drop_last(), b, x);
        let rest = intersect_spec(a.drop_last(), b);
        if list_contains(b, a.last()@) {
            let r = rest.push(a.last());
            if list_contains(r, x) {
                let i = choose|i: int| 0 <= i < r.len() && #[trigger] r[i]@ == x;
                if i < rest.len() {
                    assert(list_contains(rest, x));
                    let j = choose|j: int| 0 <= j < a.drop_last().len()
                        && #[trigger] a.drop_last()[j]@ == x;
                    assert(a[j]@ == x);
                } else {
                    assert(a.last()@ == x);
                    assert(a[a.len() - 1]@ == x);
                }
            }
            if list_contains(a, x) && list_contains(b, x) {
                assert(list_contains(r, x)) by {
                    let i = choose|i: int| 0 <= i < a.len() && #[trigger] a[i]@ == x;
                    if i < a.len() - 1 {
                        assert(a.drop_last()[i]@ == x);
                        let j = choose|j: int| 0 <= j < rest.len() && #[trigger] rest[j]@ == x;
                        assert(r[j]@ == x);
                    } else {
                        assert(r[r.len() - 1]@ == x);
                    }
                }
            }
        } else {
            if list_contains(rest, x) {
                let j = choose|j: int| 0 <= j < a.drop_last().len()
                    && #[trigger] a.drop_last()[j]@ == x;
                assert(a[j]@ == x);
            }
            if list_contains(a, x) && list_contains(b, x) {
                let i = choose|i: int| 0 <= i < a.len() && #[trigger] a[i]@ == x;
                assert(i < a.len() - 1) by {
                    if i == a.len() - 1 {
                        assert(a.last()@ == x);
                    }
                }
                assert(a.drop_last()[i]@ == x);
            }
        }
    }
}

/// Whether an exec list holds the given string.
pub fn list_contains_exec(v: &Vec<String>, x: &str) -> (r: bool)
    ensures
        r == list_contains(v@, x@),
{
    let n = v.len();
    let mut i: usize = 0;
    while i < n
        invariant
            n == v@.len(),
            i <= n,
            forall|j: int| 0 <= j < i ==> #[trigger] v@[j]@ != x@,
        decreases n - i,
    {
        if str_eq(v[i].as_str(), x) {
            return true;
        }
        i += 1;
    }
    false
}

/// The intersection of two allowlists, preserving the first list's order.
pub fn intersect_allowlist(host: &Vec<String>, manifest: &Vec<String>) -> (r: Vec<String>)
    ensures
        r@ == intersect_spec(host@, manifest@),
{
    let n = host.len();
    let mut r: Vec<String> = Vec::new();
    let mut i: usize = 0;
    while i < n
        invariant
            n == host@.len(),
            i <= n,
            r@ == intersect_spec(host@.take(i as int), manifest@),
        decreases n - i,
    {
        proof {
            assert(host@.take(i + 1).drop_last() =~= host@.take(i as int));
            assert(host@.take(i + 1).last() == host@[i as int]);
        }
        if list_contains_exec(manifest, host[i].as_str()) {
            r.push(host[i].clone());
        }
        i += 1;
    }
    proof {
        assert(host@.take(n as int) =~= host@);
    }
    r
}

/// A guest session for executing operations on a `.sync` archive.
#[derive(Debug, Clone)]
pub struct GuestSession {
    /// Path to the `.sync` archive.
    pub sync_path: String,
    /// Execution mode.
    pub mode: GuestMode,
    /// Session role.
    pub role: GuestContextRole,
    /// Session permissions.
    pub permissions: GuestPermission,
    /// Manifest-defined permissions, snapshotted when the session is made.
    pub manifest_permissions: ManifestPermissions,
    /// Optional host application identifier.
    pub host_app: Option<String>,
    /// CPU time limit in milliseconds.
    pub cpu_limit_ms: Option<u64>,
    /// Memory limit in megabytes.
    pub memory_limit_mb: Option<u64>,
    /// Widget bounds for UI mode.
    pub widget_bounds: Option<WidgetBounds>,
}

/// Whether a session's flags permit an action, before role containment.
pub open spec fn flag_allows(p: GuestPermission, action: GuestAction) -> bool {
    match action {
        GuestAction::ReadPayload => p.can_read_payload,
        GuestAction::ReadContext => p.can_read_context,
        GuestAction::WritePayload => p.can_write_payload,
        GuestAction::UpdatePayload => p.can_write_payload,
        GuestAction::WriteContext => p.can_write_context,
        GuestAction::ExecuteWasm => p.can_execute_wasm,
    }
}

/// Whether a session authorizes an action: a consumer may at most read the
/// payload or the context, whatever flags were granted; beyond that the
/// matching permission flag must be set.
pub open spec fn action_authorized(s: GuestSession, action: GuestAction) -> bool {
    &&& (s.role == GuestContextRole::Consumer
        ==> action == GuestAction::ReadPayload || action == GuestAction::ReadContext)
    &&& flag_allows(s.permissions, action)
}

/// A consumer session denies every action but reading the payload or the
/// context, regardless of which permission flags were granted.
pub proof fn lemma_consumer_containment(s: GuestSession, action: GuestAction)
    requires
        s.role == GuestContextRole::Consumer,
        action != GuestAction::ReadPayload,
        action != GuestAction::ReadContext,
    ensures
        !action_authorized(s, action),
{
}

impl GuestSession {
    /// Create a new session for an archive at the given path, against the
    /// manifest permission snapshot taken from it. The session starts in
    /// widget mode as a consumer allowed only to read payload and context.
    pub fn new(sync_path: String, manifest_permissions: ManifestPermissions) -> (r: Self)
        ensures
            r.sync_path == sync_path,
            r.mode == GuestMode::Widget,
            r.role == GuestContextRole::Consumer,
            r.permissions.can_read_payload,
            r.permissions.can_read_context,
            !r.permissions.can_write_payload,
            !r.permissions.can_write_context,
            !r.permissions.can_execute_wasm,
            r.permissions.allowed_hosts@.len() == 0,
            r.permissions.allowed_env@.len() == 0,
            r.manifest_permissions == manifest_permissions,
            r.host_app is None,
            r.cpu_limit_ms is None,
            r.memory_limit_mb is None,
            r.widget_bounds is None,
    {
        GuestSession {
            sync_path,
            mode: GuestMode::Widget,
            role: GuestContextRole::Consumer,
            permissions: GuestPermission {
                can_read_payload: true,
                can_read_context: true,
                can_write_payload: false,
                can_write_context: false,
                can_execute_wasm: false,
                allowed_hosts: Vec::new(),
                allowed_env: Vec::new(),
            },
            manifest_permissions,
            host_app: None,
            cpu_limit_ms: None,
            memory_limit_mb: None,
            widget_bounds: None,
        }
    }

    /// Create a new session with a host application already set; fails when
    /// the host application name is blank.
    pub fn new_with_host_app(
        sync_path: String,
        manifest_permissions: ManifestPermissions,
        host_app: &str,
    ) -> (r: Result<Self, GuestError>)
        ensures
            r is Err <==> is_blank(host_app@),
            r matches Ok(s) ==> (s.host_app matches Some(h) && h@ == host_app@),
            r matches Ok(s) ==> (s.sync_path == sync_path
                && s.manifest_permissions == manifest_permissions
                && s.mode == GuestMode::Widget && s.role == GuestContextRole::Consumer
                && s.permissions.can_read_payload && s.permissions.can_read_context
                && !s.permissions.can_write_payload && !s.permissions.can_write_context
                && !s.permissions.can_execute_wasm
                && s.permissions.allowed_hosts@.len() == 0
                && s.permissions.allowed_env@.len() == 0
                && s.cpu_limit_ms is None && s.memory_limit_mb is None
                && s.widget_bounds is None),
            r matches Err(e) ==> e.code == GuestErrorCode::InvalidRequest,
    {
        let mut session = Self::new(sync_path, manifest_permissions);
        match session.set_host_app(host_app) {
            Ok(()) => Ok(session),
            Err(e) => Err(e),
        }
    }

    /// Set the host application identifier; a blank name is rejected.
    pub fn set_host_app(&mut self, host_app: &str) -> (r: Result<(), GuestError>)
        ensures
            r is Err <==> is_blank(host_app@),
            r matches Err(e) ==> (e.code == GuestErrorCode::InvalidRequest
                && *final(self) == *old(self)),
            r is Ok ==> (final(self).host_app matches Some(h) && h@ == host_app@),
            r is Ok ==> *final(self) == (GuestSession { host_app: final(self).host_app, ..*old(self) }),
    {
        if is_blank_exec(host_app) {
            return Err(GuestError::new(GuestErrorCode::InvalidRequest, "host_app cannot be empty"));
        }
        self.host_app = Some(String::from_str(host_app));
        Ok(())
    }

    /// Switch the session to widget mode under the given host application.
    pub fn as_widget(&mut self, host_app: &str) -> (r: Result<(), GuestError>)
        ensures
            r is Ok,
            final(self).mode == GuestMode::Widget,
            (final(self).host_app matches Some(h) && h@ == host_app@),
            *final(self) == (GuestSession {
                mode: GuestMode::Widget,
                host_app: final(self).host_app,
                ..*old(self)
            }),
    {
        self.mode = GuestMode::Widget;
        self.host_app = Some(String::from_str(host_app));
        Ok(())
    }

    /// Switch the session to headless mode under the given host application.
    pub fn as_headless(&mut self, host_app: &str) -> (r: Result<(), GuestError>)
        ensures
            r is Ok,
            final(self).mode == GuestMode::Headless,
            (final(self).host_app matches Some(h) && h@ == host_app@),
            *final(self) == (GuestSession {
                mode: GuestMode::Headless,
                host_app: final(self).host_app,
                ..*old(self)
            }),
    {
        self.mode = GuestMode::Headless;
        self.host_app = Some(String::from_str(host_app));
        Ok(())
    }

    /// Set the role to consumer.
    pub fn as_consumer(&mut self) -> (r: Result<(), GuestError>)
        ensures
            r is Ok,
            *final(self) == (GuestSession { role: GuestContextRole::Consumer, ..*old(self) }),
    {
        self.role = GuestContextRole::Consumer;
        Ok(())
    }

    /// Set the role to owner.
    pub fn as_owner(&mut self) -> (r: Result<(), GuestError>)
        ensures
            r is Ok,
            *final(self) == (GuestSession { role: GuestContextRole::Owner, ..*old(self) }),
    {
        self.role = GuestContextRole::Owner;
        Ok(())
    }

    /// Grant permission to read the payload.
    pub fn grant_read_payload(&mut self) -> (r: Result<(), GuestError>)
        ensures
            r is Ok,
            *final(self) == (GuestSession {
                permissions: GuestPermission { can_read_payload: true, ..old(self).permissions },
                ..*old(self)
            }),
    {
        self.permissions.can_read_payload = true;
        Ok(())
    }

    /// Grant permission to read the context.
    pub fn grant_read_context(&mut self) -> (r: Result<(), GuestError>)
        ensures
            r is Ok,
            *final(self) == (GuestSession {
                permissions: GuestPermission { can_read_context: true, ..old(self).permissions },
                ..*old(self)
            }),
    {
        self.permissions.can_read_context = true;
        Ok(())
    }

    /// Grant permission to write the payload.
    pub fn grant_write_payload(&mut self) -> (r: Result<(), GuestError>)
        ensures
            r is Ok,
            *final(self) == (GuestSession {
                permissions: GuestPermission { can_write_payload: true, ..old(self).permissions },
                ..*old(self)
            }),
    {
        self.permissions.can_write_payload = true;
        Ok(())
    }

    /// Grant permission to write the context.
    pub fn grant_context_write(&mut self) -> (r: Result<(), GuestError>)
        ensures
            r is Ok,
            *final(self) == (GuestSession {
                permissions: GuestPermission { can_write_context: true, ..old(self).permissions },
                ..*old(self)
            }),
    {
        self.permissions.can_write_context = true;
        Ok(())
    }

    /// Grant permission to execute the WASM module.
    pub fn grant_wasm_execution(&mut self) -> (r: Result<(), GuestError>)
        ensures
            r is Ok,
            *final(self) == (GuestSession {
                permissions: GuestPermission { can_execute_wasm: true, ..old(self).permissions },
                ..*old(self)
            }),
    {
        self.permissions.can_execute_wasm = true;
        Ok(())
    }

    /// Revoke permission to execute the WASM module.
    pub fn revoke_wasm_execution(&mut self) -> (r: Result<(), GuestError>)
        ensures
            r is Ok,
            *final(self) == (GuestSession {
                permissions: GuestPermission { can_execute_wasm: false, ..old(self).permissions },
                ..*old(self)
            }),
    {
        self.permissions.can_execute_wasm = false;
        Ok(())
    }

    /// Add a host to the session's allowlist; inserting an already-present
    /// host changes nothing.
    pub fn allow_host(&mut self, host: &str) -> (r: Result<(), GuestError>)
        ensures
            r is Ok,
            list_contains(old(self).permissions.allowed_hosts@, host@)
                ==> *final(self) == *old(self),
            !list_contains(old(self).permissions.allowed_hosts@, host@)
                ==> final(self).permissions.allowed_hosts@.len()
                        == old(self).permissions.allowed_hosts@.len() + 1
                    && final(self).permissions.allowed_hosts@.last()@ == host@
                    && final(self).permissions.allowed_hosts@.drop_last()
                        == old(self).permissions.allowed_hosts@
                    && *final(self) == (GuestSession {
                        permissions: GuestPermission {
                            allowed_hosts: final(self).permissions.allowed_hosts,
                            ..old(self).permissions
                        },
                        ..*old(self)
                    }),
    {
        if !list_contains_exec(&self.permissions.allowed_hosts, host) {
            self.permissions.allowed_hosts.push(String::from_str(host));
            proof {
                assert(final(self).permissions.allowed_hosts@.drop_last()
                    =~= old(self).permissions.allowed_hosts@);
            }
        }
        Ok(())
    }

    /// Add an environment variable to the session's allowlist; inserting an
    /// already-present name changes nothing.
    pub fn allow_env_var(&mut self, var: &str) -> (r: Result<(), GuestError>)
        ensures
            r is Ok,
            list_contains(old(self).permissions.allowed_env@, var@)
                ==> *final(self) == *old(self),
            !list_contains(old(self).permissions.allowed_env@, var@)
                ==> final(self).permissions.allowed_env@.len()
                        == old(self).permissions.allowed_env@.len() + 1
                    && final(self).permissions.allowed_env@.last()@ == var@
                    && final(self).permissions.allowed_env@.drop_last()
                        == old(self).permissions.allowed_env@
                    && *final(self) == (GuestSession {
                        permissions: GuestPermission {
                            allowed_env: final(self).permissions.allowed_env,
                            ..old(self).permissions
                        },
                        ..*old(self)
                    }),
    {
        if !list_contains_exec(&self.permissions.allowed_env, var) {
            self.permissions.allowed_env.push(String::from_str(var));
            proof {
                assert(final(self).permissions.allowed_env@.drop_last()
                    =~= old(self).permissions.allowed_env@);
            }
        }
        Ok(())
    }

    /// Set the CPU time limit in milliseconds.
    pub fn set_cpu_limit_ms(&mut self, limit_ms: u64) -> (r: Result<(), GuestError>)
        ensures
            r is Ok,
            *final(self) == (GuestSession { cpu_limit_ms: Some(limit_ms), ..*old(self) }),
    {
        self.cpu_limit_ms = Some(limit_ms);
        Ok(())
    }

    /// Set the memory limit in megabytes.
    pub fn set_memory_limit_mb(&mut self, limit_mb: u64) -> (r: Result<(), GuestError>)
        ensures
            r is Ok,
            *final(self) == (GuestSession { memory_limit_mb: Some(limit_mb), ..*old(self) }),
    {
        self.memory_limit_mb = Some(limit_mb);
        Ok(())
    }

    /// Set widget bounds for UI mode; zero width or zero height is rejected.
    pub fn set_widget_bounds(&mut self, bounds: WidgetBounds) -> (r: Result<(), GuestError>)
        ensures
            r is Err <==> bounds.width == 0 || bounds.height == 0,
            r matches Err(e) ==> (e.code == GuestErrorCode::InvalidRequest
                && *final(self) == *old(self)),
            r is Ok ==> *final(self) == (GuestSession {
                widget_bounds: Some(bounds),
                ..*old(self)
            }),
    {
        if bounds.width == 0 || bounds.height == 0 {
            return Err(GuestError::new(
                GuestErrorCode::InvalidRequest,
                "widget bounds must have positive width and height",
            ));
        }
        self.widget_bounds = Some(bounds);
        Ok(())
    }

    /// Verify that the session authorizes an action: consumers are contained
    /// to reads, and the matching permission flag must be granted.
    pub fn verify_permissions(&self, action: &GuestAction) -> (r: Result<(), GuestError>)
        ensures
            r is Ok <==> action_authorized(*self, *action),
            r matches Err(e) ==> e.code == GuestErrorCode::PermissionDenied,
    {
        if matches!(self.role, GuestContextRole::Consumer) {
            match action {
                GuestAction::ReadPayload | GuestAction::ReadContext => {},
                _ => {
                    return Err(GuestError::new(
                        GuestErrorCode::PermissionDenied,
                        "Owner context required",
                    ));
                },
            }
        }
        match action {
            GuestAction::ReadPayload => {
                if !self.permissions.can_read_payload {
                    return Err(GuestError::new(
                        GuestErrorCode::PermissionDenied,
                        "read payload not allowed",
                    ));
                }
            },
            GuestAction::ReadContext => {
                if !self.permissions.can_read_context {
                    return Err(GuestError::new(
                        GuestErrorCode::PermissionDenied,
                        "read context not allowed",
                    ));
                }
            },
            GuestAction::WritePayload | GuestAction::UpdatePayload => {
                if !self.permissions.can_write_payload {
                    return Err(GuestError::new(
                        GuestErrorCode::PermissionDenied,
                        "write payload not allowed",
                    ));
                }
            },
            GuestAction::WriteContext => {
                if !self.permissions.can_write_context {
                    return Err(GuestError::new(
                        GuestErrorCode::PermissionDenied,
                        "write context not allowed",
                    ));
                }
            },
            GuestAction::ExecuteWasm => {
                if !self.permissions.can_execute_wasm {
                    return Err(GuestError::new(
                        GuestErrorCode::PermissionDenied,
                        "execute wasm not allowed",
                    ));
                }
            },
        }
        Ok(())
    }

    /// The effective permissions: the session's flags, with both allowlists
    /// intersected against the manifest's. The manifest is the upper bound;
    /// a session cannot reach a host or a variable the manifest does not
    /// declare.
    pub fn effective_permissions(&self) -> (r: GuestPermission)
        ensures
            r.can_read_payload == self.permissions.can_read_payload,
            r.can_read_context == self.permissions.can_read_context,
            r.can_write_payload == self.permissions.can_write_payload,
            r.can_write_context == self.permissions.can_write_context,
            r.can_execute_wasm == self.permissions.can_execute_wasm,
            r.allowed_hosts@ == intersect_spec(
                self.permissions.allowed_hosts@,
                self.manifest_permissions.allow_hosts@,
            ),
            r.allowed_env@ == intersect_spec(
                self.permissions.allowed_env@,
                self.manifest_permissions.allow_env@,
            ),
    {
        GuestPermission {
            can_read_payload: self.permissions.can_read_payload,
            can_read_context: self.permissions.can_read_context,
            can_write_payload: self.permissions.can_write_payload,
            can_write_context: self.permissions.can_write_context,
            can_execute_wasm: self.permissions.can_execute_wasm,
            allowed_hosts: intersect_allowlist(
                &self.permissions.allowed_hosts,
                &self.manifest_permissions.allow_hosts,
            ),
            allowed_env: intersect_allowlist(
                &self.permissions.allowed_env,
                &self.manifest_permissions.allow_env,
            ),
        }
    }

    /// The context handed to guest operations: mode, role, effective
    /// permissions, and the archive path.
    pub fn get_context(&self) -> (r: GuestContext)
        ensures
            r.mode == self.mode,
            r.role == self.role,
            r.permissions.allowed_hosts@ == intersect_spec(
                self.permissions.allowed_hosts@,
                self.manifest_permissions.allow_hosts@,
            ),
            r.permissions.allowed_env@ == intersect_spec(
                self.permissions.allowed_env@,
                self.manifest_permissions.allow_env@,
            ),
            r.permissions.can_read_payload == self.permissions.can_read_payload,
            r.permissions.can_read_context == self.permissions.can_read_context,
            r.permissions.can_write_payload == self.permissions.can_write_payload,
            r.permissions.can_write_context == self.permissions.can_write_context,
            r.permissions.can_execute_wasm == self.permissions.can_execute_wasm,
            r.sync_path@ == self.sync_path@,
            (r.host_app matches Some(h)) <==> (self.host_app matches Some(g)),
            self.host_app matches Some(g) ==> (r.host_app matches Some(h) && h@ == g@),
    {
        let host_app = match &self.host_app {
            Some(h) => Some(h.clone()),
            None => None,
        };
        GuestContext {
            mode: self.mode,
            role: self.role,
            permissions: self.effective_permissions(),
            sync_path: self.sync_path.clone(),
            host_app,
        }
    }

    /// The fixed argument vector handed to the host application: the word
    /// `guest` and the archive path.
    pub fn build_guest_command(&self) -> (r: Vec<String>)
        ensures
            r@.len() == 2,
            r@[0]@ == "guest"@,
            r@[1]@ == self.sync_path@,
    {
        let mut v: Vec<String> = Vec::new();
        v.push(String::from_str("guest"));
        v.push(self.sync_path.clone());
        v
    }

    /// Widget mode requires bounds before dispatch, and headless mode
    /// forbids them.
    pub fn check_mode_bounds(&self) -> (r: Result<(), GuestError>)
        ensures
            r is Err <==> (self.mode == GuestMode::Widget && self.widget_bounds is None)
                || (self.mode == GuestMode::Headless && self.widget_bounds is Some),
            r matches Err(e) ==> e.code == GuestErrorCode::InvalidRequest,
    {
        match (self.mode, self.widget_bounds) {
            (GuestMode::Widget, None) => Err(GuestError::new(
                GuestErrorCode::InvalidRequest,
                "widget bounds are required for widget mode",
            )),
            (GuestMode::Headless, Some(_)) => Err(GuestError::new(
                GuestErrorCode::InvalidRequest,
                "widget bounds are not allowed for headless mode",
            )),
            _ => Ok(()),
        }
    }
}

/// The request identifier for a sequence number: `guest-` and the number.
pub fn request_id_string(seq: u64) -> (r: String)
    ensures
        r@ == "guest-"@ + dec_str(seq as nat),
{
    let mut s = String::from_str("guest-");
    let digits = u64_to_string(seq);
    s.append(digits.as_str());
    s
}

/// The textual form of a mode, as handed to the guest environment.
pub fn mode_env_value(mode: GuestMode) -> (r: &'static str)
    ensures
        mode == GuestMode::Widget ==> r@ == "widget"@,
        mode == GuestMode::Headless ==> r@ == "headless"@,
{
    match mode {
        GuestMode::Widget => "widget",
        GuestMode::Headless => "headless",
    }
}

/// The textual form of a role, as handed to the guest environment.
pub fn role_env_value(role: GuestContextRole) -> (r: &'static str)
    ensures
        role == GuestContextRole::Consumer ==> r@ == "consumer"@,
        role == GuestContextRole::Owner ==> r@ == "owner"@,
{
    match role {
        GuestContextRole::Consumer => "consumer",
        GuestContextRole::Owner => "owner",
    }
}

/// The `x,y,w,h` rendering of widget bounds.
pub fn widget_bounds_value(b: WidgetBounds) -> (r: String)
    ensures
        r@ == dec_str(b.x as nat) + ","@ + dec_str(b.y as nat) + ","@
            + dec_str(b.width as nat) + ","@ + dec_str(b.height as nat),
{
    let mut s = u64_to_string(b.x as u64);
    s.append(",");
    let y = u64_to_string(b.y as u64);
    s.append(y.as_str());
    s.append(",");
    let w = u64_to_string(b.width as u64);
    s.append(w.as_str());
    s.append(",");
    let h = u64_to_string(b.height as u64);
    s.append(h.as_str());
    s
}

/// A response is acceptable only when its request identifier and protocol
/// version both match what was sent.
pub fn response_matches(expected_id: &str, resp_id: &str, resp_version: &str) -> (r: bool)
    ensures
        r == (resp_id@ == expected_id@ && resp_version@ == "guest.v1"@),
{
    proof {
        reveal_strlit("guest.v1");
    }
    str_eq(resp_id, expected_id) && str_eq(resp_version, "guest.v1")
}

/// Whether a response that claims success must be downgraded to failure
/// because the guest process exited with a non-zero status.
pub fn downgrade_on_exit(resp_ok: bool, exit_success: bool) -> (r: bool)
    ensures
        r == (resp_ok && !exit_success),
{
    resp_ok && !exit_success
}

/// The views of an environment list: each pair of names and values as
/// character sequences.
pub open spec fn env_views(l: Seq<(String, String)>) -> Seq<(Seq<char>, Seq<char>)> {
    l.map_values(|p: (String, String)| (p.0@, p.1@))
}

/// First-match lookup of a key in an environment list.
pub open spec fn env_lookup_spec(parent: Seq<(String, String)>, key: Seq<char>) -> Option<Seq<char>>
    decreases parent.len(),
{
    if parent.len() == 0 {
        None
    } else if parent[0].0@ == key {
        Some(parent[0].1@)
    } else {
        env_lookup_spec(parent.skip(1), key)
    }
}

proof fn lemma_env_lookup_at(parent: Seq<(String, String)>, i: int)
    requires
        0 <= i < parent.len(),
        forall|j: int| 0 <= j < i ==> #[trigger] parent[j].0@ != parent[i].0@,
    ensures
        env_lookup_spec(parent, parent[i].0@) == Some(parent[i].1@),
    decreases i,
{
    if i > 0 {
        lemma_env_lookup_at(parent.skip(1), i - 1);
    }
}

proof fn lemma_env_lookup_none(parent: Seq<(String, String)>, key: Seq<char>)
    requires
        forall|j: int| 0 <= j < parent.len() ==> #[trigger] parent[j].0@ != key,
    ensures
        env_lookup_spec(parent, key) is None,
    decreases parent.len(),
{
    if parent.len() > 0 {
        lemma_env_lookup_none(parent.skip(1), key);
    }
}

/// First-match lookup of a key in an environment list.
pub fn env_lookup(parent: &Vec<(String, String)>, key: &str) -> (r: Option<String>)
    ensures
        match r {
            Some(v) => env_lookup_spec(parent@, key@) == Some(v@),
            None => env_lookup_spec(parent@, key@) is None,
        },
{
    let n = parent.len();
    let mut i: usize = 0;
    while i < n
        invariant
            n == parent@.len(),
            i <= n,
            forall|j: int| 0 <= j < i ==> #[trigger] parent@[j].0@ != key@,
        decreases n - i,
    {
        if str_eq(parent[i].0.as_str(), key) {
            proof {
                lemma_env_lookup_at(parent@, i as int);
            }
            return Some(parent[i].1.clone());
        }
        i += 1;
    }
    proof {
        lemma_env_lookup_none(parent@, key@);
    }
    None
}

/// The contribution of one baseline key: its entry when the parent holds it.
pub open spec fn opt_env_entry(parent: Seq<(String, String)>, key: Seq<char>)
    -> Seq<(Seq<char>, Seq<char>)> {
    match env_lookup_spec(parent, key) {
        Some(v) => seq![(key, v)],
        None => Seq::empty(),
    }
}

/// The baseline environment handed to every guest: `PATH`, `LANG`, `LC_ALL`,
/// `HOME` and `USER`, each forwarded when the parent has it.
pub open spec fn baseline_part(parent: Seq<(String, String)>) -> Seq<(Seq<char>, Seq<char>)> {
    opt_env_entry(parent, "PATH"@) + opt_env_entry(parent, "LANG"@)
        + opt_env_entry(parent, "LC_ALL"@) + opt_env_entry(parent, "HOME"@)
        + opt_env_entry(parent, "USER"@)
}

/// Whether a variable name carries one of the forwarded prefixes.
pub open spec fn has_forward_prefix(name: Seq<char>) -> bool {
    "CAPSULE_"@.is_prefix_of(name) || "ATO_"@.is_prefix_of(name)
}

/// Every parent variable whose name starts with `CAPSULE_` or `ATO_`, in
/// parent order.
pub open spec fn prefixed_part(parent: Seq<(String, String)>) -> Seq<(Seq<char>, Seq<char>)>
    decreases parent.len(),
{
    if parent.len() == 0 {
        Seq::empty()
    } else {
        prefixed_part(parent.drop_last()) + (if has_forward_prefix(parent.last().0@) {
            seq![(parent.last().0@, parent.last().1@)]
        } else {
            Seq::<(Seq<char>, Seq<char>)>::empty()
        })
    }
}

/// The parent values of each name on the effective env allowlist, in
/// allowlist order, for the names the parent holds.
pub open spec fn allowed_part(parent: Seq<(String, String)>, vars: Seq<String>)
    -> Seq<(Seq<char>, Seq<char>)>
    decreases vars.len(),
{
    if vars.len() == 0 {
        Seq::empty()
    } else {
        allowed_part(parent, vars.drop_last()) + opt_env_entry(parent, vars.last()@)
    }
}

/// The comma-joined rendering of a list of names.
pub open spec fn join_comma(l: Seq<String>) -> Seq<char>
    decreases l.len(),
{
    if l.len() == 0 {
        Seq::empty()
    } else if l.len() == 1 {
        l[0]@
    } else {
        join_comma(l.drop_last()) + ","@ + l.last()@
    }
}

/// Join a list of names with commas.
pub fn join_comma_exec(l: &Vec<String>) -> (r: String)
    ensures
        r@ == join_comma(l@),
{
    let n = l.len();
    let mut s = String::new();
    if n == 0 {
        return s;
    }
    s.append(l[0].as_str());
    let mut i: usize = 1;
    while i < n
        invariant
            n == l@.len(),
            1 <= i <= n,
            s@ == join_comma(l@.take(i as int)),
        decreases n - i,
    {
        s.append(",");
        s.append(l[i].as_str());
        proof {
            assert(l@.take(i + 1).drop_last() =~= l@.take(i as int));
            assert(l@.take(i + 1).last() == l@[i as int]);
        }
        i += 1;
    }
    proof {
        assert(l@.take(n as int) =~= l@);
    }
    s
}

/// The fixed entries appended after the forwarded ones: the allowlists, the
/// protocol version, the archive path, mode and role, the optional limits,
/// and the widget bounds in widget mode.
pub open spec fn fixed_part(
    s: GuestSession,
    eff_hosts: Seq<String>,
    eff_env: Seq<String>,
) -> Seq<(Seq<char>, Seq<char>)> {
    seq![
        ("ALLOW_HOSTS"@, join_comma(eff_hosts)),
        ("ALLOW_ENV"@, join_comma(eff_env)),
        ("CAPSULE_GUEST_PROTOCOL"@, "guest.v1"@),
        ("SYNC_PATH"@, s.sync_path@),
        ("GUEST_MODE"@, if s.mode == GuestMode::Widget { "widget"@ } else { "headless"@ }),
        ("GUEST_ROLE"@, if s.role == GuestContextRole::Consumer { "consumer"@ } else { "owner"@ }),
    ] + (match s.cpu_limit_ms {
        Some(ms) => seq![("GUEST_CPU_LIMIT_MS"@, dec_str(ms as nat))],
        None => Seq::<(Seq<char>, Seq<char>)>::empty(),
    }) + (match s.memory_limit_mb {
        Some(mb) => seq![("GUEST_MEMORY_LIMIT_MB"@, dec_str(mb as nat))],
        None => Seq::<(Seq<char>, Seq<char>)>::empty(),
    }) + (match (s.mode, s.widget_bounds) {
        (GuestMode::Widget, Some(b)) => seq![
            ("GUEST_WIDGET_BOUNDS"@, dec_str(b.x as nat) + ","@ + dec_str(b.y as nat) + ","@
                + dec_str(b.width as nat) + ","@ + dec_str(b.height as nat)),
        ],
        _ => Seq::<(Seq<char>, Seq<char>)>::empty(),
    })
}

/// The whole child environment for a dispatch, in the order it is applied:
/// baseline, prefixed parent variables, effective-allowlist variables, then
/// the fixed entries. A later entry overrides an earlier one of the same
/// name when applied.
pub open spec fn guest_env_spec(
    s: GuestSession,
    parent: Seq<(String, String)>,
) -> Seq<(Seq<char>, Seq<char>)> {
    let eff_hosts = intersect_spec(s.permissions.allowed_hosts@, s.manifest_permissions.allow_hosts@);
    let eff_env = intersect_spec(s.permissions.allowed_env@, s.manifest_permissions.allow_env@);
    baseline_part(parent) + prefixed_part(parent) + allowed_part(parent, eff_env)
        + fixed_part(s, eff_hosts, eff_env)
}

impl GuestSession {
    /// Build the child environment for a dispatch from the parent process
    /// environment. Widget mode without bounds, and headless mode with
    /// bounds, are rejected before anything is built.
    pub fn build_guest_env(&self, parent: &Vec<(String, String)>)
        -> (r: Result<Vec<(String, String)>, GuestError>)
        ensures
            r is Err <==> (self.mode == GuestMode::Widget && self.widget_bounds is None)
                || (self.mode == GuestMode::Headless && self.widget_bounds is Some),
            r matches Err(e) ==> e.code == GuestErrorCode::InvalidRequest,
            r matches Ok(env) ==> env_views(env@) == guest_env_spec(*self, parent@),
    {
        proof {
            reveal_strlit("PATH");
            reveal_strlit("LANG");
            reveal_strlit("LC_ALL");
            reveal_strlit("HOME");
            reveal_strlit("USER");
        }
        if let Err(e) = self.check_mode_bounds() {
            return Err(e);
        }
        let eff = self.effective_permissions();
        let mut env: Vec<(String, String)> = Vec::new();

        push_opt_entry(&mut env, parent, "PATH");
        assert(env_views(env@) =~= opt_env_entry(parent@, "PATH"@));
        push_opt_entry(&mut env, parent, "LANG");
        push_opt_entry(&mut env, parent, "LC_ALL");
        push_opt_entry(&mut env, parent, "HOME");
        push_opt_entry(&mut env, parent, "USER");
        assert(env_views(env@) =~= baseline_part(parent@));

        let n = parent.len();
        let mut i: usize = 0;
        while i < n
            invariant
                n == parent@.len(),
                i <= n,
                env_views(env@) =~= baseline_part(parent@)
                    + prefixed_part(parent@.take(i as int)),
            decreases n - i,
        {
            proof {
                reveal_strlit("CAPSULE_");
                reveal_strlit("ATO_");
                assert(parent@.take(i + 1).drop_last() =~= parent@.take(i as int));
                assert(parent@.take(i + 1).last() == parent@[i as int]);
            }
            let ghost before = env_views(env@);
            let name = &parent[i].0;
            if crate::strutil::str_starts_with(name.as_str(), "CAPSULE_")
                || crate::strutil::str_starts_with(name.as_str(), "ATO_") {
                env.push((name.clone(), parent[i].1.clone()));
                proof {
                    assert(has_forward_prefix(parent@[i as int].0@));
                    assert(env_views(env@) =~= before
                        + seq![(parent@[i as int].0@, parent@[i as int].1@)]);
                }
            } else {
                proof {
                    assert(!has_forward_prefix(parent@[i as int].0@));
                    assert(env_views(env@) =~= before);
                }
            }
            assert(env_views(env@) =~= baseline_part(parent@)
                + prefixed_part(parent@.take(i + 1)));
            i += 1;
        }
        proof {
            assert(parent@.take(n as int) =~= parent@);
        }

        let m = eff.allowed_env.len();
        let mut k: usize = 0;
        while k < m
            invariant
                m == eff.allowed_env@.len(),
                k <= m,
                env_views(env@) =~= baseline_part(parent@) + prefixed_part(parent@)
                    + allowed_part(parent@, eff.allowed_env@.take(k as int)),
            decreases m - k,
        {
            proof {
                assert(eff.allowed_env@.take(k + 1).drop_last() =~= eff.allowed_env@.take(k as int));
                assert(eff.allowed_env@.take(k + 1).last() == eff.allowed_env@[k as int]);
            }
            let ghost before = env_views(env@);
            match env_lookup(parent, eff.allowed_env[k].as_str()) {
                Some(v) => {
                    let ghost vv = v@;
                    env.push((eff.allowed_env[k].clone(), v));
                    proof {
                        assert(opt_env_entry(parent@, eff.allowed_env@[k as int]@)
                            =~= seq![(eff.allowed_env@[k as int]@, vv)]);
                        assert(env_views(env@) =~= before
                            + seq![(eff.allowed_env@[k as int]@, vv)]);
                    }
                },
                None => {
                    proof {
                        assert(opt_env_entry(parent@, eff.allowed_env@[k as int]@)
                            =~= Seq::<(Seq<char>, Seq<char>)>::empty());
                    }
                },
            }
            assert(env_views(env@) =~= baseline_part(parent@) + prefixed_part(parent@)
                + allowed_part(parent@, eff.allowed_env@.take(k + 1)));
            k += 1;
        }
        proof {
            assert(eff.allowed_env@.take(m as int) =~= eff.allowed_env@);
        }

        let ghost before_fixed = env_views(env@);
        env.push((String::from_str("ALLOW_HOSTS"), join_comma_exec(&eff.allowed_hosts)));
        env.push((String::from_str("ALLOW_ENV"), join_comma_exec(&eff.allowed_env)));
        env.push((String::from_str("CAPSULE_GUEST_PROTOCOL"), String::from_str("guest.v1")));
        env.push((String::from_str("SYNC_PATH"), self.sync_path.clone()));
        env.push((String::from_str("GUEST_MODE"), String::from_str(mode_env_value(self.mode))));
        env.push((String::from_str("GUEST_ROLE"), String::from_str(role_env_value(self.role))));
        if let Some(ms) = self.cpu_limit_ms {
            env.push((String::from_str("GUEST_CPU_LIMIT_MS"), u64_to_string(ms)));
        }
        if let Some(mb) = self.memory_limit_mb {
            env.push((String::from_str("GUEST_MEMORY_LIMIT_MB"), u64_to_string(mb)));
        }
        if matches!(self.mode, GuestMode::Widget) {
            if let Some(b) = self.widget_bounds {
                env.push((String::from_str("GUEST_WIDGET_BOUNDS"), widget_bounds_value(b)));
            }
        }
        proof {
            assert(env_views(env@) =~= before_fixed
                + fixed_part(*self, eff.allowed_hosts@, eff.allowed_env@));
        }
        Ok(env)
    }
}

/// Push the parent's entry for one key, when present.
fn push_opt_entry(env: &mut Vec<(String, String)>, parent: &Vec<(String, String)>, key: &str)
    ensures
        env_views(final(env)@) == env_views(old(env)@) + opt_env_entry(parent@, key@),
{
    match env_lookup(parent, key) {
        Some(v) => {
            env.push((String::from_str(key), v));
            proof {
                assert(env_views(final(env)@) =~= env_views(old(env)@)
                    + opt_env_entry(parent@, key@));
            }
        },
        None => {
            proof {
                assert(env_views(final(env)@) =~= env_views(old(env)@)
                    + opt_env_entry(parent@, key@));
            }
        },
    }
}

} // verus!
