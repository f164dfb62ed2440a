//! The local LLDB session and the bookkeeping of the remote session.
use vstd::prelude::*;

use crate::debugger::types::{
    attach_target_label, describe_attach_target, transition_allowed, SessionLifecycle,
    SessionStateMachine,
};
use crate::text::{ascii_lower_seq, concat, eq_ignore_ascii_case};
use crate::types::{
    disconnected_view, AttachRequest, CoreError, RemoteConfig, RemoteErrorKind,
    RemoteSessionState, RemoteSessionStatus, StatusView,
};

verus! {

/// The message of an attach that the platform does not permit.
pub open spec fn permission_denied_message() -> Seq<char> {
    "Permission denied while trying to attach (task_for_pid)"@
}

/// Whether attaching is permitted: never when the override says `deny`
/// (in any case); otherwise as LLDB's presence says, where the platform
/// needs it, and always elsewhere.
pub open spec fn attach_permitted(override_value: Option<String>, lldb_available: Option<bool>) -> bool {
    if override_value matches Some(v) && ascii_lower_seq(v@) == ascii_lower_seq("deny"@) {
        false
    } else {
        match lldb_available {
            Some(found) => found,
            None => true,
        }
    }
}

/// Decides whether attaching is permitted from what the host reports.
pub fn has_attach_permission(override_value: &Option<String>, lldb_available: Option<bool>) -> (b:
    bool)
    ensures
        b == attach_permitted(*override_value, lldb_available),
{
    if let Some(v) = override_value {
        if eq_ignore_ascii_case(v.as_str(), "deny") {
            return false;
        }
    }
    match lldb_available {
        Some(found) => found,
        None => true,
    }
}

/// A local debugging session: the loaded target, the attached process and
/// the attach lifecycle.
#[derive(Debug)]
pub struct LldbSession {
    initialized: bool,
    target_path: Option<String>,
    attached_target: Option<String>,
    lifecycle: SessionStateMachine,
}

impl LldbSession {
    #[verifier::type_invariant]
    spec fn is_initialized(self) -> bool {
        self.initialized
    }

    /// The path of the loaded target.
    pub closed spec fn target(self) -> Option<String> {
        self.target_path
    }

    /// The label of the attached process.
    pub closed spec fn attached(self) -> Option<String> {
        self.attached_target
    }

    /// The attach lifecycle phase.
    pub closed spec fn phase(self) -> SessionLifecycle {
        self.lifecycle@
    }

    /// A session with nothing loaded or attached, in the `Detached` phase.
    pub fn initialize() -> (r: Result<Self, CoreError>)
        ensures
            r matches Ok(s) && s.target() is None && s.attached() is None && s.phase()
                == SessionLifecycle::Detached,
    {
        Ok(
            LldbSession {
                initialized: true,
                target_path: None,
                attached_target: None,
                lifecycle: SessionStateMachine::new(),
            },
        )
    }

    /// Records `binary_path` as the target.
    pub fn load_target(&mut self, binary_path: String) -> (r: Result<(), CoreError>)
        ensures
            r is Ok,
            final(self).target() == Some(binary_path),
            final(self).attached() == old(self).attached(),
            final(self).phase() == old(self).phase(),
    {
        proof {
            use_type_invariant(&*self);
        }
        if !self.initialized {
            return Err(CoreError::from_text("LLDB session is not initialized"));
        }
        self.target_path = Some(binary_path);
        Ok(())
    }

    /// Starts the target; refused when no target is loaded.
    pub fn launch_process(&self) -> (r: Result<(), CoreError>)
        ensures
            self.target() is Some ==> r is Ok,
            self.target() is None ==> (r matches Err(e) && e.message@ == "No target binary loaded"@),
    {
        if self.target_path.is_none() {
            return Err(CoreError::from_text("No target binary loaded"));
        }
        Ok(())
    }

    /// The attach lifecycle phase.
    pub fn lifecycle(&self) -> (l: SessionLifecycle)
        ensures
            l == self.phase(),
    {
        self.lifecycle.lifecycle()
    }

    /// Forgets the attached process and returns to `Detached` where that move
    /// is allowed.
    pub fn detach(&mut self)
        ensures
            final(self).attached() is None,
            final(self).target() == old(self).target(),
            final(self).phase() == (if transition_allowed(
                old(self).phase(),
                SessionLifecycle::Detached,
            ) {
                SessionLifecycle::Detached
            } else {
                old(self).phase()
            }),
    {
        proof {
            use_type_invariant(&*self);
        }
        self.attached_target = None;
        let mut machine = self.lifecycle;
        let _ = machine.mark_detached();
        self.lifecycle = machine;
    }

    /// Attaches to the target of `request` when `has_permission`; otherwise
    /// the attach fails with the permission message and the phase is `Failed`.
    pub fn attach_to_process(&mut self, request: &AttachRequest, has_permission: bool) -> (r:
        Result<String, CoreError>)
        ensures
            final(self).target() == old(self).target(),
            has_permission ==> (r matches Ok(label) && label@ == attach_target_label(
                request.target,
            ) && final(self).attached() == Some(label) && final(self).phase()
                == SessionLifecycle::Attached),
            !has_permission ==> (r matches Err(e) && e.message@ == permission_denied_message()
                && final(self).attached() == old(self).attached() && final(self).phase()
                == SessionLifecycle::Failed),
    {
        proof {
            use_type_invariant(&*self);
        }
        if !self.initialized {
            return Err(CoreError::from_text("LLDB session is not initialized"));
        }
        let mut machine = self.lifecycle;
        let begun = machine.begin_attach();
        self.lifecycle = machine;
        match begun {
            Ok(()) => {},
            Err(error) => {
                return Err(
                    CoreError::new(concat("Attach state transition failed: ", error.as_str())),
                );
            },
        }
        let target_label = describe_attach_target(request);
        if !has_permission {
            let mut machine = self.lifecycle;
            let _ = machine.mark_failed();
            self.lifecycle = machine;
            return Err(
                CoreError::from_text("Permission denied while trying to attach (task_for_pid)"),
            );
        }
        self.attached_target = Some(target_label.clone());
        let mut machine = self.lifecycle;
        let marked = machine.mark_attached();
        self.lifecycle = machine;
        match marked {
            Ok(()) => {},
            Err(error) => {
                return Err(
                    CoreError::new(concat("Attach state transition failed: ", error.as_str())),
                );
            },
        }
        Ok(target_label)
    }
}

/// The status of a session being set up to `endpoint`.
pub open spec fn connecting_view(endpoint: Seq<char>) -> StatusView {
    StatusView {
        state: RemoteSessionState::Connecting,
        endpoint: Some(endpoint),
        session_id: None,
        error: None,
        message: "Connecting to x64dbg remote endpoint"@,
    }
}

/// The status of a session up at `endpoint` under `session_id`.
pub open spec fn connected_view(endpoint: Seq<char>, session_id: Seq<char>) -> StatusView {
    StatusView {
        state: RemoteSessionState::Connected,
        endpoint: Some(endpoint),
        session_id: Some(session_id),
        error: None,
        message: "Remote session connected"@,
    }
}

/// The status of a session to `endpoint` that failed with `error` and `message`.
pub open spec fn degraded_view(endpoint: Seq<char>, error: RemoteErrorKind, message: Seq<char>) -> StatusView {
    StatusView {
        state: RemoteSessionState::Degraded,
        endpoint: Some(endpoint),
        session_id: None,
        error: Some(error),
        message,
    }
}

/// The status of the remote session and its reconnection budget.
#[derive(Debug, Clone)]
pub struct RemoteSessionManager {
    status: RemoteSessionStatus,
    retry_remaining: u8,
    retry_delay_ms: u64,
}

impl RemoteSessionManager {
    /// The current status.
    pub closed spec fn current(self) -> RemoteSessionStatus {
        self.status
    }

    /// How many more reconnection attempts are allowed.
    pub closed spec fn retries_left(self) -> u8 {
        self.retry_remaining
    }

    /// The pause between reconnection attempts, in milliseconds.
    pub closed spec fn delay_ms(self) -> u64 {
        self.retry_delay_ms
    }

    /// No session, no retries, and a 200 ms pause between attempts.
    pub fn new() -> (m: Self)
        ensures
            m.current()@ == disconnected_view(),
            m.retries_left() == 0,
            m.delay_ms() == 200,
    {
        RemoteSessionManager {
            status: RemoteSessionStatus::disconnected(),
            retry_remaining: 0,
            retry_delay_ms: 200,
        }
    }

    /// A copy of the current status.
    pub fn status(&self) -> (s: RemoteSessionStatus)
        ensures
            s == self.current(),
    {
        self.status.clone()
    }

    /// Starts connecting to the endpoint of `config`, with its retry budget.
    pub fn begin_connect(&mut self, config: &RemoteConfig)
        ensures
            final(self).current()@ == connecting_view(config.endpoint@),
            final(self).retries_left() == config.retry_count,
            final(self).delay_ms() == old(self).delay_ms(),
    {
        self.retry_remaining = config.retry_count;
        self.status =
        RemoteSessionStatus {
            state: RemoteSessionState::Connecting,
            endpoint: Some(config.endpoint.clone()),
            session_id: None,
            error: None,
            message: String::from_str("Connecting to x64dbg remote endpoint"),
        };
    }

    /// Records that the session to the endpoint of `config` is up, and
    /// renews the retry budget.
    pub fn mark_connected(&mut self, config: &RemoteConfig, session_id: String)
        ensures
            final(self).current()@ == connected_view(config.endpoint@, session_id@),
            final(self).retries_left() == config.retry_count,
            final(self).delay_ms() == old(self).delay_ms(),
    {
        self.retry_remaining = config.retry_count;
        self.status =
        RemoteSessionStatus {
            state: RemoteSessionState::Connected,
            endpoint: Some(config.endpoint.clone()),
            session_id: Some(session_id),
            error: None,
            message: String::from_str("Remote session connected"),
        };
    }

    /// Records that the session to the endpoint of `config` failed.
    pub fn mark_failed(&mut self, config: &RemoteConfig, error: RemoteErrorKind, message: String)
        ensures
            final(self).current()@ == degraded_view(config.endpoint@, error, message@),
            final(self).retries_left() == old(self).retries_left(),
            final(self).delay_ms() == old(self).delay_ms(),
    {
        self.status =
        RemoteSessionStatus {
            state: RemoteSessionState::Degraded,
            endpoint: Some(config.endpoint.clone()),
            session_id: None,
            error: Some(error),
            message,
        };
    }

    /// Spends one reconnection attempt if any is left.
    pub fn can_retry(&mut self) -> (b: bool)
        ensures
            b == (old(self).retries_left() > 0),
            final(self).retries_left() == (if b {
                (old(self).retries_left() - 1) as u8
            } else {
                0u8
            }),
            final(self).current() == old(self).current(),
            final(self).delay_ms() == old(self).delay_ms(),
    {
        if self.retry_remaining == 0 {
            return false;
        }
        self.retry_remaining = self.retry_remaining - 1;
        true
    }

    /// The pause between reconnection attempts, in milliseconds.
    pub fn retry_delay_ms(&self) -> (d: u64)
        ensures
            d == self.delay_ms(),
    {
        self.retry_delay_ms
    }

    /// Ends the session and its retry budget.
    pub fn disconnect(&mut self)
        ensures
            final(self).current()@ == disconnected_view(),
            final(self).retries_left() == 0,
            final(self).delay_ms() == old(self).delay_ms(),
    {
        self.retry_remaining = 0;
        self.status = RemoteSessionStatus::disconnected();
    }
}

} // verus!
