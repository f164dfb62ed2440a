//! The attach lifecycle and the checks made on attach and remote requests.
use vstd::prelude::*;

use crate::text::{
    ascii_lower_chars, ascii_lower_seq, concat, contains_seq, contains_text, decimal_seq,
    decimal_string, is_blank, is_blank_str, trim_seq,
};
use crate::types::{AttachErrorKind, AttachRequest, AttachTarget, RemoteConfig, RemoteErrorKind};

verus! {

/// The phase of a local attach session.
#[derive(Debug, Clone, Copy, PartialEq, Eq, Structural)]
pub enum SessionLifecycle {
    Detached,
    Attaching,
    Attached,
    Failed,
}

impl Default for SessionLifecycle {
    fn default() -> (r: Self)
        ensures
            r == SessionLifecycle::Detached,
    {
        SessionLifecycle::Detached
    }
}

/// The name of a lifecycle phase, as `{:?}` prints it.
pub open spec fn lifecycle_name(l: SessionLifecycle) -> Seq<char> {
    match l {
        SessionLifecycle::Detached => "Detached"@,
        SessionLifecycle::Attaching => "Attaching"@,
        SessionLifecycle::Attached => "Attached"@,
        SessionLifecycle::Failed => "Failed"@,
    }
}

pub(crate) fn lifecycle_name_string(l: SessionLifecycle) -> (s: String)
    ensures
        s@ == lifecycle_name(l),
{
    match l {
        SessionLifecycle::Detached => String::from_str("Detached"),
        SessionLifecycle::Attaching => String::from_str("Attaching"),
        SessionLifecycle::Attached => String::from_str("Attached"),
        SessionLifecycle::Failed => String::from_str("Failed"),
    }
}

/// The moves between lifecycle phases that a session may make; staying in a
/// phase is always allowed.
pub open spec fn transition_allowed(from: SessionLifecycle, to: SessionLifecycle) -> bool {
    ||| from == to
    ||| (from == SessionLifecycle::Detached && to == SessionLifecycle::Attaching)
    ||| (from == SessionLifecycle::Attaching && to == SessionLifecycle::Attached)
    ||| (from == SessionLifecycle::Attaching && to == SessionLifecycle::Failed)
    ||| (from == SessionLifecycle::Attached && to == SessionLifecycle::Detached)
    ||| (from == SessionLifecycle::Attached && to == SessionLifecycle::Attaching)
    ||| (from == SessionLifecycle::Failed && to == SessionLifecycle::Detached)
    ||| (from == SessionLifecycle::Failed && to == SessionLifecycle::Attaching)
}

/// The message of a refused move.
pub open spec fn invalid_transition_message(from: SessionLifecycle, to: SessionLifecycle) -> Seq<
    char,
> {
    "Invalid lifecycle transition: "@ + lifecycle_name(from) + " -> "@ + lifecycle_name(to)
}

/// A lifecycle phase that only changes by allowed moves.
#[derive(Debug, Clone, Copy)]
pub struct SessionStateMachine {
    lifecycle: SessionLifecycle,
}

impl View for SessionStateMachine {
    type V = SessionLifecycle;

    closed spec fn view(&self) -> SessionLifecycle {
        self.lifecycle
    }
}

/// What a move request does: an allowed move lands on `to`; a refused one
/// leaves the phase and reports why.
pub open spec fn moved(
    before: SessionLifecycle,
    after: SessionLifecycle,
    to: SessionLifecycle,
    r: Result<(), String>,
) -> bool {
    if transition_allowed(before, to) {
        r is Ok && after == to
    } else {
        r matches Err(e) && e@ == invalid_transition_message(before, to) && after == before
    }
}

impl SessionStateMachine {
    /// A machine in the `Detached` phase.
    pub fn new() -> (m: Self)
        ensures
            m@ == SessionLifecycle::Detached,
    {
        SessionStateMachine { lifecycle: SessionLifecycle::Detached }
    }

    /// The current phase.
    pub fn lifecycle(&self) -> (l: SessionLifecycle)
        ensures
            l == self@,
    {
        self.lifecycle
    }

    /// Move to `Attaching`.
    pub fn begin_attach(&mut self) -> (r: Result<(), String>)
        ensures
            moved(old(self)@, final(self)@, SessionLifecycle::Attaching, r),
    {
        self.transition(SessionLifecycle::Attaching)
    }

    /// Move to `Attached`.
    pub fn mark_attached(&mut self) -> (r: Result<(), String>)
        ensures
            moved(old(self)@, final(self)@, SessionLifecycle::Attached, r),
    {
        self.transition(SessionLifecycle::Attached)
    }

    /// Move to `Failed`.
    pub fn mark_failed(&mut self) -> (r: Result<(), String>)
        ensures
            moved(old(self)@, final(self)@, SessionLifecycle::Failed, r),
    {
        self.transition(SessionLifecycle::Failed)
    }

    /// Move to `Detached`.
    pub fn mark_detached(&mut self) -> (r: Result<(), String>)
        ensures
            moved(old(self)@, final(self)@, SessionLifecycle::Detached, r),
    {
        self.transition(SessionLifecycle::Detached)
    }

    /// Moves to `next` when `transition_allowed` permits it (staying put is
    /// always allowed); otherwise refuses with `Invalid lifecycle
    /// transition: <from> -> <to>` and keeps the phase.
    pub fn transition(&mut self, next: SessionLifecycle) -> (r: Result<(), String>)
        ensures
            moved(old(self)@, final(self)@, next, r),
    {
        let current = self.lifecycle;
        let is_valid = match (current, next) {
            (SessionLifecycle::Detached, SessionLifecycle::Attaching)
            | (SessionLifecycle::Attaching, SessionLifecycle::Attached)
            | (SessionLifecycle::Attaching, SessionLifecycle::Failed)
            | (SessionLifecycle::Attached, SessionLifecycle::Detached)
            | (SessionLifecycle::Attached, SessionLifecycle::Attaching)
            | (SessionLifecycle::Failed, SessionLifecycle::Detached)
            | (SessionLifecycle::Failed, SessionLifecycle::Attaching) => true,
            _ => current == next,
        };
        if !is_valid {
            let mut message = concat(
                "Invalid lifecycle transition: ",
                lifecycle_name_string(current).as_str(),
            );
            message.append(" -> ");
            message.append(lifecycle_name_string(next).as_str());
            return Err(message);
        }
        self.lifecycle = next;
        Ok(())
    }
}

/// How an attach request names its target: `pid:<id>` or `name:<name>`.
pub open spec fn attach_target_label(target: AttachTarget) -> Seq<char> {
    match target {
        AttachTarget::Pid(pid) => "pid:"@ + decimal_seq(pid as nat),
        AttachTarget::ProcessName(name) => "name:"@ + name@,
    }
}

/// The label of the target that `request` names.
pub fn describe_attach_target(request: &AttachRequest) -> (s: String)
    ensures
        s@ == attach_target_label(request.target),
{
    match &request.target {
        AttachTarget::Pid(pid) => concat("pid:", decimal_string(*pid as u128).as_str()),
        AttachTarget::ProcessName(name) => concat("name:", name.as_str()),
    }
}

/// Whether a request names a target that could exist: a nonzero pid, or a
/// name that is not all whitespace.
pub open spec fn attach_target_plausible(target: AttachTarget) -> bool {
    match target {
        AttachTarget::Pid(pid) => pid != 0,
        AttachTarget::ProcessName(name) => !is_blank(name@),
    }
}

/// Refuses a request whose target cannot exist, with `TargetNotFound`.
pub fn validate_attach_request(request: &AttachRequest) -> (r: Result<(), AttachErrorKind>)
    ensures
        attach_target_plausible(request.target) ==> r is Ok,
        !attach_target_plausible(request.target) ==> r == Err::<(), AttachErrorKind>(
            AttachErrorKind::TargetNotFound,
        ),
{
    match &request.target {
        AttachTarget::Pid(pid) => {
            if *pid == 0 {
                return Err(AttachErrorKind::TargetNotFound);
            }
            Ok(())
        },
        AttachTarget::ProcessName(name) => {
            if is_blank_str(name.as_str()) {
                return Err(AttachErrorKind::TargetNotFound);
            }
            Ok(())
        },
    }
}

/// The kind of a remote failure, read from its message (case does not matter).
pub open spec fn remote_error_kind_of(message: Seq<char>) -> RemoteErrorKind {
    let m = ascii_lower_seq(message);
    if contains_seq(m, "timeout"@) || contains_seq(m, "timed out"@) {
        RemoteErrorKind::Timeout
    } else if contains_seq(m, "auth"@) {
        RemoteErrorKind::AuthFailed
    } else if contains_seq(m, "protocol"@) || contains_seq(m, "invalid"@) || contains_seq(
        m,
        "must be"@,
    ) {
        RemoteErrorKind::ProtocolError
    } else {
        RemoteErrorKind::ConnectionFailed
    }
}

/// The kind of a remote failure, read from its message.
pub fn classify_remote_error(message: &str) -> (k: RemoteErrorKind)
    ensures
        k == remote_error_kind_of(message@),
{
    let m = ascii_lower_chars(message);
    if contains_text(&m, "timeout") || contains_text(&m, "timed out") {
        RemoteErrorKind::Timeout
    } else if contains_text(&m, "auth") {
        RemoteErrorKind::AuthFailed
    } else if contains_text(&m, "protocol") || contains_text(&m, "invalid") || contains_text(
        &m,
        "must be",
    ) {
        RemoteErrorKind::ProtocolError
    } else {
        RemoteErrorKind::ConnectionFailed
    }
}

/// Why a remote configuration is refused, if it is.
pub open spec fn remote_config_problem(config: RemoteConfig) -> Option<Seq<char>> {
    if trim_seq(config.endpoint@).len() == 0 {
        Some("endpoint must not be empty"@)
    } else if config.timeout_ms == 0 {
        Some("timeout must be greater than zero"@)
    } else {
        None
    }
}

/// Refuses a configuration with a blank endpoint or a zero timeout.
pub fn validate_remote_config(config: &RemoteConfig) -> (r: Result<(), String>)
    ensures
        remote_config_problem(*config) is None ==> r is Ok,
        remote_config_problem(*config) matches Some(p) ==> (r matches Err(e) && e@ == p),
{
    if is_blank_str(config.endpoint.as_str()) {
        return Err(String::from_str("endpoint must not be empty"));
    }
    if config.timeout_ms == 0 {
        return Err(String::from_str("timeout must be greater than zero"));
    }
    Ok(())
}

} // verus!
