//! What the frontend shows and how it animates, decided from the latest
//! snapshot.
use vstd::prelude::*;

use crate::model::{ActivityKind, ActivityStatus, IslandActivity, IslandActivityView, IslandMode, IslandSnapshot};
use crate::text::{decimal, push_decimal, push_two_digit_decimal, text_equals, two_digit_decimal};

verus! {

/// Whether the frontend is connected to the backend.
#[derive(Clone, Copy, Debug, PartialEq, Eq, Structural)]
pub enum BridgeStatus {
    Connecting,
    Ready,
    Failed,
}

/// The frontend's animation, with the backend transition it reports on.
#[derive(Clone, Copy, Debug, PartialEq, Eq, Structural)]
pub enum AnimationState {
    Hidden,
    Compact,
    Expanding { transition_id: u64 },
    Expanded,
    Collapsing { transition_id: u64 },
    Dismissing { transition_id: u64 },
}

/// The resting animation of a mode.
pub open spec fn stable_animation_of(mode: IslandMode) -> AnimationState {
    match mode {
        IslandMode::Hidden => AnimationState::Hidden,
        IslandMode::Compact | IslandMode::Attention => AnimationState::Compact,
        IslandMode::Expanded => AnimationState::Expanded,
    }
}

/// The resting animation of a mode.
pub fn stable_animation(mode: IslandMode) -> (r: AnimationState)
    ensures
        r == stable_animation_of(mode),
{
    match mode {
        IslandMode::Hidden => AnimationState::Hidden,
        IslandMode::Compact | IslandMode::Attention => AnimationState::Compact,
        IslandMode::Expanded => AnimationState::Expanded,
    }
}

/// The animation that moves from a snapshot in mode `previous` to one in
/// mode `next` carrying transition `transition`: dismissal into hiding,
/// expansion from compact or attention, collapse from expanded to compact,
/// and otherwise the resting animation of the new mode.
pub open spec fn animation_between(
    previous: IslandMode,
    next: IslandMode,
    transition: Option<u64>,
) -> AnimationState {
    match transition {
        Some(t) => if next == IslandMode::Hidden {
            AnimationState::Dismissing { transition_id: t }
        } else if (previous == IslandMode::Compact || previous == IslandMode::Attention) && next
            == IslandMode::Expanded {
            AnimationState::Expanding { transition_id: t }
        } else if previous == IslandMode::Expanded && next == IslandMode::Compact {
            AnimationState::Collapsing { transition_id: t }
        } else {
            stable_animation_of(next)
        },
        None => stable_animation_of(next),
    }
}

/// The animation to run when the snapshot `next` replaces `previous`.
pub fn animation_for(previous: &IslandSnapshot, next: &IslandSnapshot) -> (r: AnimationState)
    ensures
        r == animation_between(previous.mode, next.mode, next.transition_id),
{
    match next.transition_id {
        Some(t) => {
            if next.mode == IslandMode::Hidden {
                AnimationState::Dismissing { transition_id: t }
            } else if (previous.mode == IslandMode::Compact || previous.mode
                == IslandMode::Attention) && next.mode == IslandMode::Expanded {
                AnimationState::Expanding { transition_id: t }
            } else if previous.mode == IslandMode::Expanded && next.mode == IslandMode::Compact {
                AnimationState::Collapsing { transition_id: t }
            } else {
                stable_animation(next.mode)
            }
        },
        None => stable_animation(next.mode),
    }
}

/// The report owed when a CSS transition of `property` ends during
/// `animation`: the transition, the mode it reached, and the resting
/// animation that follows.
pub open spec fn completion_of(animation: AnimationState, property: Seq<char>) -> Option<
    (u64, IslandMode, AnimationState),
> {
    match animation {
        AnimationState::Expanding { transition_id } => if property == "height"@ {
            Some((transition_id, IslandMode::Expanded, AnimationState::Expanded))
        } else {
            None
        },
        AnimationState::Collapsing { transition_id } => if property == "width"@ {
            Some((transition_id, IslandMode::Compact, AnimationState::Compact))
        } else {
            None
        },
        AnimationState::Dismissing { transition_id } => if property == "transform"@ {
            Some((transition_id, IslandMode::Hidden, AnimationState::Hidden))
        } else {
            None
        },
        _ => None,
    }
}

/// The report owed when the CSS transition of `property` ends.
pub fn transition_completion(animation: AnimationState, property: &str) -> (r: Option<
    (u64, IslandMode, AnimationState),
>)
    ensures
        r == completion_of(animation, property@),
{
    match animation {
        AnimationState::Expanding { transition_id } => if text_equals(property, "height") {
            Some((transition_id, IslandMode::Expanded, AnimationState::Expanded))
        } else {
            None
        },
        AnimationState::Collapsing { transition_id } => if text_equals(property, "width") {
            Some((transition_id, IslandMode::Compact, AnimationState::Compact))
        } else {
            None
        },
        AnimationState::Dismissing { transition_id } => if text_equals(property, "transform") {
            Some((transition_id, IslandMode::Hidden, AnimationState::Hidden))
        } else {
            None
        },
        _ => None,
    }
}

/// An animation begun for a transition reports, when its own CSS
/// transition ends, that same transition and the mode the backend reached,
/// and then rests in that mode's animation.
pub proof fn law_animation_reports_its_transition(
    previous: IslandMode,
    next: IslandMode,
    transition: u64,
)
    ensures
        ({
            let animation = animation_between(previous, next, Some(transition));
            let expected = Some((transition, next, stable_animation_of(next)));
            match animation {
                AnimationState::Expanding { .. } => completion_of(animation, "height"@)
                    == expected,
                AnimationState::Collapsing { .. } => completion_of(animation, "width"@)
                    == expected,
                AnimationState::Dismissing { .. } => completion_of(animation, "transform"@)
                    == expected,
                _ => animation == stable_animation_of(next),
            }
        }),
{
}

/// What a key press on the island does.
#[derive(Clone, Copy, Debug, PartialEq, Eq, Structural)]
pub enum KeyResponse {
    Ignore,
    /// Toggle the island.
    Activate,
    /// Toggle the island and suppress the key's default action.
    ActivateWithoutDefault,
}

/// Enter and Space toggle the island; Escape collapses an expanded one.
pub open spec fn key_response_of(key: Seq<char>, mode: IslandMode) -> KeyResponse {
    if key == "Enter"@ || key == " "@ {
        KeyResponse::ActivateWithoutDefault
    } else if key == "Escape"@ && mode == IslandMode::Expanded {
        KeyResponse::Activate
    } else {
        KeyResponse::Ignore
    }
}

/// What pressing `key` does while the island is in `mode`.
pub fn key_response(key: &str, mode: IslandMode) -> (r: KeyResponse)
    ensures
        r == key_response_of(key@, mode),
{
    if text_equals(key, "Enter") || text_equals(key, " ") {
        KeyResponse::ActivateWithoutDefault
    } else if text_equals(key, "Escape") && mode == IslandMode::Expanded {
        KeyResponse::Activate
    } else {
        KeyResponse::Ignore
    }
}

/// The class of the island's state during an animation.
pub open spec fn state_class_of(animation: AnimationState) -> Seq<char> {
    match animation {
        AnimationState::Hidden => "is-hidden"@,
        AnimationState::Compact => "is-compact"@,
        AnimationState::Expanding { .. } => "is-expanded is-transitioning"@,
        AnimationState::Expanded => "is-expanded"@,
        AnimationState::Collapsing { .. } => "is-compact is-transitioning"@,
        AnimationState::Dismissing { .. } => "is-dismissing"@,
    }
}

fn state_class(animation: AnimationState) -> (r: &'static str)
    ensures
        r@ == state_class_of(animation),
{
    match animation {
        AnimationState::Hidden => "is-hidden",
        AnimationState::Compact => "is-compact",
        AnimationState::Expanding { .. } => "is-expanded is-transitioning",
        AnimationState::Expanded => "is-expanded",
        AnimationState::Collapsing { .. } => "is-compact is-transitioning",
        AnimationState::Dismissing { .. } => "is-dismissing",
    }
}

/// The island's class list: its animation state, then attention, then a
/// notch.
pub open spec fn island_class_of(animation: AnimationState, mode: IslandMode, has_notch: bool) -> Seq<char> {
    "island "@ + state_class_of(animation) + (if mode == IslandMode::Attention {
        " is-attention"@
    } else {
        Seq::empty()
    }) + (if has_notch {
        " has-notch"@
    } else {
        Seq::empty()
    })
}

/// The island's class list.
pub fn island_class(animation: AnimationState, mode: IslandMode, has_notch: bool) -> (r: String)
    ensures
        r@ == island_class_of(animation, mode, has_notch),
{
    let mut class = String::from_str("island ");
    class.append(state_class(animation));
    if mode == IslandMode::Attention {
        class.append(" is-attention");
    }
    if has_notch {
        class.append(" has-notch");
    }
    assert(class@ =~= island_class_of(animation, mode, has_notch));
    class
}

/// The island's accessible label.
pub fn island_aria_label(mode: IslandMode) -> (r: &'static str)
    ensures
        r@ == (if mode == IslandMode::Expanded {
            "Collapse Open Island"@
        } else {
            "Expand Open Island"@
        }),
{
    if mode == IslandMode::Expanded {
        "Collapse Open Island"
    } else {
        "Expand Open Island"
    }
}

/// The island's tab index: focusable only when expanded.
pub fn island_tab_index(mode: IslandMode) -> (r: &'static str)
    ensures
        r@ == (if mode == IslandMode::Expanded {
            "0"@
        } else {
            "-1"@
        }),
{
    if mode == IslandMode::Expanded {
        "0"
    } else {
        "-1"
    }
}

/// The glyph that stands for an activity.
pub open spec fn icon_glyph_of(kind: ActivityKind, status: ActivityStatus) -> Seq<char> {
    if status == ActivityStatus::Failed {
        "!"@
    } else {
        match kind {
            ActivityKind::Timer => "\u{25f7}"@,
            ActivityKind::Recording => "\u{25cf}"@,
            ActivityKind::Download => "\u{2193}"@,
            ActivityKind::Meeting => "\u{2301}"@,
            ActivityKind::Notification => "\u{25c6}"@,
        }
    }
}

/// The glyph that stands for an activity.
pub fn icon_glyph(kind: ActivityKind, status: ActivityStatus) -> (r: &'static str)
    ensures
        r@ == icon_glyph_of(kind, status),
{
    if status == ActivityStatus::Failed {
        return "!";
    }
    match kind {
        ActivityKind::Timer => "\u{25f7}",
        ActivityKind::Recording => "\u{25cf}",
        ActivityKind::Download => "\u{2193}",
        ActivityKind::Meeting => "\u{2301}",
        ActivityKind::Notification => "\u{25c6}",
    }
}

/// The class of an activity's icon: failures and running recordings are
/// marked.
pub open spec fn icon_class_of(kind: ActivityKind, status: ActivityStatus) -> Seq<char> {
    if status == ActivityStatus::Failed {
        "activity-icon is-failed"@
    } else if kind == ActivityKind::Recording && status == ActivityStatus::Running {
        "activity-icon is-recording"@
    } else {
        "activity-icon"@
    }
}

/// The class of an activity's icon.
pub fn icon_class(kind: ActivityKind, status: ActivityStatus) -> (r: &'static str)
    ensures
        r@ == icon_class_of(kind, status),
{
    if status == ActivityStatus::Failed {
        "activity-icon is-failed"
    } else if kind == ActivityKind::Recording && status == ActivityStatus::Running {
        "activity-icon is-recording"
    } else {
        "activity-icon"
    }
}

/// The class of an action button.
pub fn action_class(destructive: bool) -> (r: &'static str)
    ensures
        r@ == (if destructive {
            "action action--destructive"@
        } else {
            "action"@
        }),
{
    if destructive {
        "action action--destructive"
    } else {
        "action"
    }
}

/// Whether the compact island shows a progress bar for this kind (rather
/// than a status dot).
pub fn shows_progress(kind: ActivityKind) -> (r: bool)
    ensures
        r == (kind == ActivityKind::Download || kind == ActivityKind::Timer),
{
    match kind {
        ActivityKind::Download | ActivityKind::Timer => true,
        _ => false,
    }
}

/// `milliseconds` as minutes and two-digit seconds, `m:ss`, rounding down.
pub open spec fn duration_text(milliseconds: u64) -> Seq<char> {
    let seconds = milliseconds / 1000;
    decimal((seconds / 60) as nat) + ":"@ + two_digit_decimal((seconds % 60) as nat)
}

/// `milliseconds` as minutes and two-digit seconds, `m:ss`.
pub fn format_duration(milliseconds: u64) -> (r: String)
    ensures
        r@ == duration_text(milliseconds),
{
    let seconds = milliseconds / 1000;
    let mut text = String::new();
    push_decimal(&mut text, seconds / 60);
    text.append(":");
    push_two_digit_decimal(&mut text, seconds % 60);
    assert(text@ =~= duration_text(milliseconds));
    text
}

/// The time shown beside an activity: what remains if known, else what has
/// elapsed, else nothing.
pub open spec fn compact_time_of(a: IslandActivityView) -> Seq<char> {
    match a.remaining_ms {
        Some(r) => duration_text(r),
        None => match a.elapsed_ms {
            Some(e) => duration_text(e),
            None => Seq::empty(),
        },
    }
}

/// The time shown beside an activity.
pub fn compact_time(activity: &IslandActivity) -> (r: String)
    ensures
        r@ == compact_time_of(activity@),
{
    if let Some(remaining) = activity.remaining_ms {
        return format_duration(remaining);
    }
    match activity.elapsed_ms {
        Some(elapsed) => format_duration(elapsed),
        None => String::new(),
    }
}

/// How many further activities wait, as shown when any do: `+<n> queued`.
pub open spec fn queue_label_of(count: usize) -> Seq<char> {
    "+"@ + decimal(count as nat) + " queued"@
}

/// How many further activities wait, as shown when any do.
pub fn queue_label(count: usize) -> (r: Option<String>)
    ensures
        match r {
            Some(text) => count != 0 && text@ == queue_label_of(count),
            None => count == 0,
        },
{
    if count == 0 {
        return None;
    }
    let mut text = String::from_str("+");
    push_decimal(&mut text, count as u64);
    text.append(" queued");
    Some(text)
}

/// The subtitle shown under an expanded activity's title.
pub fn subtitle_text(activity: &IslandActivity) -> (r: String)
    ensures
        r@ == match activity@.subtitle {
            Some(s) => s,
            None => Seq::<char>::empty(),
        },
{
    match &activity.subtitle {
        Some(s) => s.clone(),
        None => String::new(),
    }
}

} // verus!
