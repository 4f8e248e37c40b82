//! How effects, modes and menu choices become window operations
//! and commands, and the errors of the backend's edges.
use vstd::prelude::*;

use crate::model::{ActivityKind, IslandActivity, IslandMode};
use crate::reducer::{IslandEffect, IslandEffectView};
use crate::text::text_equals;
use crate::demo::kind_name_of;

verus! {

/// An operation on the island's native window.
#[derive(Clone, Copy, Debug, PartialEq, Eq, Structural)]
pub enum WindowOp {
    Hide,
    ShowCompact,
    ShowAttention,
    PrepareExpanded,
    FinalizeCompact,
    FocusExpanded,
    ResignFocus,
}

/// The window operation that presents `mode`.
pub open spec fn mode_window_op_of(mode: IslandMode) -> WindowOp {
    match mode {
        IslandMode::Hidden => WindowOp::Hide,
        IslandMode::Compact => WindowOp::ShowCompact,
        IslandMode::Attention => WindowOp::ShowAttention,
        IslandMode::Expanded => WindowOp::PrepareExpanded,
    }
}

/// The window operation that presents `mode`.
pub fn mode_window_op(mode: IslandMode) -> (r: WindowOp)
    ensures
        r == mode_window_op_of(mode),
{
    match mode {
        IslandMode::Hidden => WindowOp::Hide,
        IslandMode::Compact => WindowOp::ShowCompact,
        IslandMode::Attention => WindowOp::ShowAttention,
        IslandMode::Expanded => WindowOp::PrepareExpanded,
    }
}

/// The window operation that carries out an effect, given the mode of the
/// snapshot published with it; none for publishing and scheduling.
pub open spec fn effect_window_op_of(effect: IslandEffectView, mode: IslandMode) -> Option<WindowOp> {
    match effect {
        IslandEffectView::ShowWindow => Some(mode_window_op_of(mode)),
        IslandEffectView::HideWindow => Some(WindowOp::Hide),
        IslandEffectView::PrepareExpandedWindow => Some(WindowOp::PrepareExpanded),
        IslandEffectView::PrepareCompactWindow => if mode == IslandMode::Attention {
            Some(WindowOp::ShowAttention)
        } else {
            Some(WindowOp::FinalizeCompact)
        },
        IslandEffectView::FocusWindow => Some(WindowOp::FocusExpanded),
        IslandEffectView::ResignWindowFocus => Some(WindowOp::ResignFocus),
        IslandEffectView::PublishSnapshot => None,
        IslandEffectView::ScheduleAutoDismiss { .. } => None,
    }
}

/// The window operation that carries out `effect`.
pub fn effect_window_op(effect: &IslandEffect, mode: IslandMode) -> (r: Option<WindowOp>)
    ensures
        r == effect_window_op_of(effect@, mode),
{
    match effect {
        IslandEffect::ShowWindow => Some(mode_window_op(mode)),
        IslandEffect::HideWindow => Some(WindowOp::Hide),
        IslandEffect::PrepareExpandedWindow => Some(WindowOp::PrepareExpanded),
        IslandEffect::PrepareCompactWindow => if mode == IslandMode::Attention {
            Some(WindowOp::ShowAttention)
        } else {
            Some(WindowOp::FinalizeCompact)
        },
        IslandEffect::FocusWindow => Some(WindowOp::FocusExpanded),
        IslandEffect::ResignWindowFocus => Some(WindowOp::ResignFocus),
        IslandEffect::PublishSnapshot => None,
        IslandEffect::ScheduleAutoDismiss { .. } => None,
    }
}

/// A choice from the menu-bar menu.
#[derive(Clone, Copy, Debug, PartialEq, Eq, Structural)]
pub enum MenuCommand {
    StartDemo { kind: ActivityKind, failed: bool },
    HideAll,
    Quit,
}

/// The command of each menu item.
pub open spec fn menu_command_of(id: Seq<char>) -> Option<MenuCommand> {
    if id == "demo_timer"@ {
        Some(MenuCommand::StartDemo { kind: ActivityKind::Timer, failed: false })
    } else if id == "demo_recording"@ {
        Some(MenuCommand::StartDemo { kind: ActivityKind::Recording, failed: false })
    } else if id == "demo_download"@ {
        Some(MenuCommand::StartDemo { kind: ActivityKind::Download, failed: false })
    } else if id == "demo_notification"@ {
        Some(MenuCommand::StartDemo { kind: ActivityKind::Notification, failed: false })
    } else if id == "demo_failure"@ {
        Some(MenuCommand::StartDemo { kind: ActivityKind::Notification, failed: true })
    } else if id == "hide"@ {
        Some(MenuCommand::HideAll)
    } else if id == "quit"@ {
        Some(MenuCommand::Quit)
    } else {
        None
    }
}

/// The command of the menu item `id`, if it is one of the menu's items.
pub fn menu_command(id: &str) -> (r: Option<MenuCommand>)
    ensures
        r == menu_command_of(id@),
{
    if text_equals(id, "demo_timer") {
        Some(MenuCommand::StartDemo { kind: ActivityKind::Timer, failed: false })
    } else if text_equals(id, "demo_recording") {
        Some(MenuCommand::StartDemo { kind: ActivityKind::Recording, failed: false })
    } else if text_equals(id, "demo_download") {
        Some(MenuCommand::StartDemo { kind: ActivityKind::Download, failed: false })
    } else if text_equals(id, "demo_notification") {
        Some(MenuCommand::StartDemo { kind: ActivityKind::Notification, failed: false })
    } else if text_equals(id, "demo_failure") {
        Some(MenuCommand::StartDemo { kind: ActivityKind::Notification, failed: true })
    } else if text_equals(id, "hide") {
        Some(MenuCommand::HideAll)
    } else if text_equals(id, "quit") {
        Some(MenuCommand::Quit)
    } else {
        None
    }
}

/// Each demo item of the menu, `demo_<kind>`, starts a demo of that kind
/// (there is none for meetings); `demo_failure` starts a failed
/// notification; `hide` hides everything and `quit` quits.
pub proof fn law_menu_items_start_their_demos(kind: ActivityKind)
    ensures
        kind != ActivityKind::Meeting ==> menu_command_of("demo_"@ + kind_name_of(kind)) == Some(
            MenuCommand::StartDemo { kind, failed: false },
        ),
        menu_command_of("demo_failure"@) == Some(
            MenuCommand::StartDemo { kind: ActivityKind::Notification, failed: true },
        ),
        menu_command_of("hide"@) == Some(MenuCommand::HideAll),
        menu_command_of("quit"@) == Some(MenuCommand::Quit),
{
    reveal_strlit("demo_");
    reveal_strlit("timer");
    reveal_strlit("recording");
    reveal_strlit("download");
    reveal_strlit("notification");
    reveal_strlit("demo_timer");
    reveal_strlit("demo_recording");
    reveal_strlit("demo_download");
    reveal_strlit("demo_notification");
    reveal_strlit("demo_failure");
    reveal_strlit("hide");
    reveal_strlit("quit");
    let t = "demo_timer"@;
    let r = "demo_recording"@;
    let d = "demo_download"@;
    let n = "demo_notification"@;
    let f = "demo_failure"@;
    assert("demo_"@ + "timer"@ =~= t);
    assert("demo_"@ + "recording"@ =~= r);
    assert("demo_"@ + "download"@ =~= d);
    assert("demo_"@ + "notification"@ =~= n);
    assert(t[5] != r[5] && t[5] != d[5] && t[5] != n[5] && t[5] != f[5]);
    assert(r[5] != d[5] && r[5] != n[5] && r[5] != f[5]);
    assert(d[5] != n[5] && d[5] != f[5]);
    assert(n[5] != f[5]);
    assert("hide"@.len() == 4 && "quit"@.len() == 4 && "hide"@[0] != "quit"@[0]);
    assert(t.len() != 4 && r.len() != 4 && d.len() != 4 && n.len() != 4 && f.len() != 4);
}

/// A retry of an existing activity restarts a demo of the same kind in its
/// place; any other action goes to the reducer.
pub fn retry_demo_kind(action_id: &str, activity: Option<&IslandActivity>) -> (r: Option<
    ActivityKind,
>)
    ensures
        r == (if action_id@ == "retry"@ {
            match activity {
                Some(a) => Some(a.kind),
                None => None,
            }
        } else {
            None
        }),
{
    if text_equals(action_id, "retry") {
        match activity {
            Some(a) => Some(a.kind),
            None => None,
        }
    } else {
        None
    }
}

/// Why the activity state could not be used.
#[derive(Clone, Copy, Debug, PartialEq, Eq, Structural)]
pub enum ActivityError {
    StateUnavailable,
}

impl ActivityError {
    /// The message that describes this error.
    pub fn message(&self) -> (r: &'static str)
        ensures
            r@ == "activity state is temporarily unavailable"@,
    {
        "activity state is temporarily unavailable"
    }
}

/// Why a platform window operation failed.
#[derive(Debug)]
pub enum PlatformError {
    Unavailable,
    NotMainThread,
    NativeHandle(String),
}

/// The message of each platform error.
pub open spec fn platform_error_message(e: PlatformError) -> Seq<char> {
    match e {
        PlatformError::Unavailable => "platform information is unavailable"@,
        PlatformError::NotMainThread => "operation must run on the main thread"@,
        PlatformError::NativeHandle(detail) => "native window handle is unavailable: "@ + detail@,
    }
}

impl PlatformError {
    /// The message that describes this error.
    pub fn message(&self) -> (r: String)
        ensures
            r@ == platform_error_message(*self),
    {
        match self {
            PlatformError::Unavailable => String::from_str("platform information is unavailable"),
            PlatformError::NotMainThread => String::from_str(
                "operation must run on the main thread",
            ),
            PlatformError::NativeHandle(detail) => {
                let mut text = String::from_str("native window handle is unavailable: ");
                text.append(detail.as_str());
                text
            },
        }
    }
}

} // verus!
