//! The status bar: the attach lifecycle badge and the items that follow it.
use vstd::prelude::*;

use crate::debugger::types::{SessionLifecycle, lifecycle_name, lifecycle_name_string};
use crate::text::concat;
use crate::types::{
    AttachErrorKind, RemoteSessionState, RemoteSessionStatus, attach_error_label,
};
use crate::ui::style::{Rgb, rgb};

verus! {

/// The badge that shows the attach lifecycle: its label and colour.
pub fn lifecycle_badge(lifecycle: SessionLifecycle) -> (badge: (String, Rgb))
    ensures
        badge.0@ == "Attach: "@ + lifecycle_name(lifecycle),
        badge.1 == match lifecycle {
            SessionLifecycle::Detached => rgb(200, 200, 200),
            SessionLifecycle::Attaching => rgb(250, 210, 140),
            SessionLifecycle::Attached => rgb(180, 220, 180),
            SessionLifecycle::Failed => rgb(240, 140, 140),
        },
{
    let color = match lifecycle {
        SessionLifecycle::Detached => Rgb { r: 200, g: 200, b: 200 },
        SessionLifecycle::Attaching => Rgb { r: 250, g: 210, b: 140 },
        SessionLifecycle::Attached => Rgb { r: 180, g: 220, b: 180 },
        SessionLifecycle::Failed => Rgb { r: 240, g: 140, b: 140 },
    };
    (concat("Attach: ", lifecycle_name_string(lifecycle).as_str()), color)
}

/// The name of a remote session phase as the status bar shows it.
pub open spec fn remote_state_label(state: RemoteSessionState) -> Seq<char> {
    match state {
        RemoteSessionState::Disconnected => "Disconnected"@,
        RemoteSessionState::Connecting => "Connecting"@,
        RemoteSessionState::Connected => "Connected"@,
        RemoteSessionState::Degraded => "Degraded"@,
    }
}

/// The badge that shows the remote session: `Remote: <phase>`, green when
/// connected, orange while connecting, red when degraded, muted otherwise.
pub fn remote_badge(status: &RemoteSessionStatus) -> (badge: (String, Rgb))
    ensures
        badge.0@ == "Remote: "@ + remote_state_label(status.state),
        badge.1 == match status.state {
            RemoteSessionState::Disconnected => rgb(141, 153, 167),
            RemoteSessionState::Connecting => rgb(242, 183, 95),
            RemoteSessionState::Connected => rgb(121, 201, 139),
            RemoteSessionState::Degraded => rgb(229, 88, 88),
        },
{
    let color = match status.state {
        RemoteSessionState::Disconnected => Rgb { r: 141, g: 153, b: 167 },
        RemoteSessionState::Connecting => Rgb { r: 242, g: 183, b: 95 },
        RemoteSessionState::Connected => Rgb { r: 121, g: 201, b: 139 },
        RemoteSessionState::Degraded => Rgb { r: 229, g: 88, b: 88 },
    };
    (concat("Remote: ", remote_state_name(status.state).as_str()), color)
}

fn remote_state_name(state: RemoteSessionState) -> (s: String)
    ensures
        s@ == remote_state_label(state),
{
    match state {
        RemoteSessionState::Disconnected => String::from_str("Disconnected"),
        RemoteSessionState::Connecting => String::from_str("Connecting"),
        RemoteSessionState::Connected => String::from_str("Connected"),
        RemoteSessionState::Degraded => String::from_str("Degraded"),
    }
}

/// The items shown after the badge, each with its colour: the attached
/// target, the attach error and the status message, those that are present,
/// in that order.
pub open spec fn status_items_of(
    status_message: Option<Seq<char>>,
    attach_error: Option<AttachErrorKind>,
    attached_target: Option<Seq<char>>,
) -> Seq<(Seq<char>, Rgb)> {
    let a: Seq<(Seq<char>, Rgb)> = match attached_target {
        Some(t) => seq![("Target: "@ + t, rgb(220, 225, 230))],
        None => seq![],
    };
    let b: Seq<(Seq<char>, Rgb)> = match attach_error {
        Some(k) => seq![("Attach error: "@ + attach_error_label(k), rgb(229, 88, 88))],
        None => seq![],
    };
    let c: Seq<(Seq<char>, Rgb)> = match status_message {
        Some(m) => seq![(m, rgb(220, 225, 230))],
        None => seq![],
    };
    a + b + c
}

/// The items shown after the badge.
pub fn status_items(
    status_message: Option<&str>,
    attach_error: Option<AttachErrorKind>,
    attached_target: Option<&str>,
) -> (items: Vec<(String, Rgb)>)
    ensures
        items@.map_values(|it: (String, Rgb)| (it.0@, it.1)) == status_items_of(
            match status_message {
                Some(m) => Some(m@),
                None => None,
            },
            attach_error,
            match attached_target {
                Some(t) => Some(t@),
                None => None,
            },
        ),
{
    let mut items: Vec<(String, Rgb)> = Vec::new();
    if let Some(target) = attached_target {
        items.push((concat("Target: ", target), Rgb { r: 220, g: 225, b: 230 }));
    }
    if let Some(kind) = attach_error {
        items.push(
            (concat("Attach error: ", kind.to_string().as_str()), Rgb { r: 229, g: 88, b: 88 }),
        );
    }
    if let Some(message) = status_message {
        items.push((String::from_str(message), Rgb { r: 220, g: 225, b: 230 }));
    }
    assert(items@.map_values(|it: (String, Rgb)| (it.0@, it.1)) =~= status_items_of(
        match status_message {
            Some(m) => Some(m@),
            None => None,
        },
        attach_error,
        match attached_target {
            Some(t) => Some(t@),
            None => None,
        },
    ));
    items
}

} // verus!
