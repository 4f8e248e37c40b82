//! The activity, mode, action, display-context and snapshot types that the
//! backend and the frontend exchange.
//!
//! Fractional quantities (an activity's progress and the width of the
//! screen's centre exclusion) are carried as the bit patterns of IEEE-754
//! binary64 values (`f64::to_bits`), so that the rules on them are stated and
//! checked exactly on integers.
use vstd::prelude::*;

use crate::text::{is_blank, text_is_blank};

verus! {

/// What an activity represents.
#[derive(Clone, Copy, Debug, PartialEq, Eq, Structural)]
pub enum ActivityKind {
    Timer,
    Recording,
    Download,
    Meeting,
    Notification,
}

/// Where an activity stands in its life.
#[derive(Clone, Copy, Debug, PartialEq, Eq, Structural)]
pub enum ActivityStatus {
    Pending,
    Running,
    Paused,
    Completed,
    Failed,
}

/// How the island presents itself.
#[derive(Clone, Copy, Debug, PartialEq, Eq, Structural)]
pub enum IslandMode {
    Hidden,
    Compact,
    Expanded,
    Attention,
}

/// Why an activity was refused.
#[derive(Clone, Copy, Debug, PartialEq, Eq, Structural)]
pub enum ModelError {
    /// The activity's identifier is empty once white space is trimmed.
    EmptyActivityId,
    /// The progress is not a finite number between 0 and 1.
    InvalidProgress,
}

impl ModelError {
    /// The message that describes this error.
    pub fn message(&self) -> (r: &'static str)
        ensures
            r@ == model_error_message(*self),
    {
        match self {
            ModelError::EmptyActivityId => "activity ID cannot be empty",
            ModelError::InvalidProgress => "progress must be a finite number between 0 and 1",
        }
    }
}

/// The message of each model error.
pub open spec fn model_error_message(e: ModelError) -> Seq<char> {
    match e {
        ModelError::EmptyActivityId => "activity ID cannot be empty"@,
        ModelError::InvalidProgress => "progress must be a finite number between 0 and 1"@,
    }
}

/// A button offered by an activity.
#[derive(Debug)]
pub struct ActivityAction {
    pub id: String,
    pub label: String,
    pub destructive: bool,
}

pub struct ActivityActionView {
    pub id: Seq<char>,
    pub label: Seq<char>,
    pub destructive: bool,
}

impl View for ActivityAction {
    type V = ActivityActionView;

    open spec fn view(&self) -> ActivityActionView {
        ActivityActionView { id: self.id@, label: self.label@, destructive: self.destructive }
    }
}

impl Clone for ActivityAction {
    fn clone(&self) -> (r: Self)
        ensures
            r@ == self@,
    {
        ActivityAction {
            id: self.id.clone(),
            label: self.label.clone(),
            destructive: self.destructive,
        }
    }
}

/// Bit pattern of `0.0_f64`.
pub const ZERO_PROGRESS_BITS: u64 = 0u64;

/// Bit pattern of `1.0_f64`.
pub const FULL_PROGRESS_BITS: u64 = 0x3ff0_0000_0000_0000u64;

/// Bit pattern of `-0.0_f64`.
pub const NEGATIVE_ZERO_BITS: u64 = 0x8000_0000_0000_0000u64;

/// Whether the binary64 value with bit pattern `bits` is finite and lies in
/// `0.0..=1.0`. Non-negative binary64 values are ordered as their bit
/// patterns, `1.0` has the pattern `0x3ff0_0000_0000_0000`, and the only
/// negative value in the range is `-0.0`; NaN and the infinities lie outside.
pub open spec fn progress_in_range(bits: u64) -> bool {
    bits <= FULL_PROGRESS_BITS || bits == NEGATIVE_ZERO_BITS
}

/// Something the island shows: a timer, a recording, a download, ...
#[derive(Debug)]
pub struct IslandActivity {
    pub id: String,
    pub kind: ActivityKind,
    pub title: String,
    pub subtitle: Option<String>,
    pub status: ActivityStatus,
    /// Bit pattern of the binary64 progress, if the activity has one.
    pub progress: Option<u64>,
    pub elapsed_ms: Option<u64>,
    pub remaining_ms: Option<u64>,
    pub priority: u8,
    pub dismissible: bool,
    pub actions: Vec<ActivityAction>,
}

pub struct IslandActivityView {
    pub id: Seq<char>,
    pub kind: ActivityKind,
    pub title: Seq<char>,
    pub subtitle: Option<Seq<char>>,
    pub status: ActivityStatus,
    pub progress: Option<u64>,
    pub elapsed_ms: Option<u64>,
    pub remaining_ms: Option<u64>,
    pub priority: u8,
    pub dismissible: bool,
    pub actions: Seq<ActivityActionView>,
}

pub open spec fn opt_text_view(s: Option<String>) -> Option<Seq<char>> {
    match s {
        Some(t) => Some(t@),
        None => None,
    }
}

pub open spec fn actions_view(actions: Seq<ActivityAction>) -> Seq<ActivityActionView> {
    actions.map_values(|a: ActivityAction| a@)
}

impl View for IslandActivity {
    type V = IslandActivityView;

    open spec fn view(&self) -> IslandActivityView {
        IslandActivityView {
            id: self.id@,
            kind: self.kind,
            title: self.title@,
            subtitle: opt_text_view(self.subtitle),
            status: self.status,
            progress: self.progress,
            elapsed_ms: self.elapsed_ms,
            remaining_ms: self.remaining_ms,
            priority: self.priority,
            dismissible: self.dismissible,
            actions: actions_view(self.actions@),
        }
    }
}

/// Copies a list of actions.
pub fn clone_actions(actions: &Vec<ActivityAction>) -> (r: Vec<ActivityAction>)
    ensures
        actions_view(r@) == actions_view(actions@),
{
    let mut r: Vec<ActivityAction> = Vec::new();
    let mut i: usize = 0;
    while i < actions.len()
        invariant
            i <= actions.len(),
            r@.len() == i,
            forall|j: int| 0 <= j < i ==> (#[trigger] r@[j])@ == actions@[j]@,
        decreases actions.len() - i,
    {
        let a = actions[i].clone();
        r.push(a);
        i = i + 1;
    }
    assert(actions_view(r@) =~= actions_view(actions@));
    r
}

fn clone_opt_text(s: &Option<String>) -> (r: Option<String>)
    ensures
        opt_text_view(r) == opt_text_view(*s),
{
    match s {
        Some(t) => Some(t.clone()),
        None => None,
    }
}

impl Clone for IslandActivity {
    fn clone(&self) -> (r: Self)
        ensures
            r@ == self@,
    {
        IslandActivity {
            id: self.id.clone(),
            kind: self.kind,
            title: self.title.clone(),
            subtitle: clone_opt_text(&self.subtitle),
            status: self.status,
            progress: self.progress,
            elapsed_ms: self.elapsed_ms,
            remaining_ms: self.remaining_ms,
            priority: self.priority,
            dismissible: self.dismissible,
            actions: clone_actions(&self.actions),
        }
    }
}

/// The verdict of validation on an activity: its identifier must not be
/// blank, and its progress, if any, must be a finite number in `0.0..=1.0`.
pub open spec fn validation(a: IslandActivityView) -> Result<(), ModelError> {
    if is_blank(a.id) {
        Err(ModelError::EmptyActivityId)
    } else if a.progress matches Some(bits) && !progress_in_range(bits) {
        Err(ModelError::InvalidProgress)
    } else {
        Ok(())
    }
}

impl IslandActivity {
    /// Checks the activity's identifier and progress.
    pub fn validate(&self) -> (r: Result<(), ModelError>)
        ensures
            r == validation(self@),
    {
        if text_is_blank(self.id.as_str()) {
            return Err(ModelError::EmptyActivityId);
        }
        match self.progress {
            Some(bits) => {
                if !(bits <= FULL_PROGRESS_BITS || bits == NEGATIVE_ZERO_BITS) {
                    return Err(ModelError::InvalidProgress);
                }
            },
            None => {},
        }
        Ok(())
    }
}

/// What the island knows about the screen it sits on.
#[derive(Clone, Copy, Debug, PartialEq, Eq, Structural)]
pub struct IslandDisplayContext {
    pub has_notch: bool,
    /// Bit pattern of the binary64 width of the screen's centre exclusion.
    pub center_exclusion_width: u64,
}

impl Default for IslandDisplayContext {
    fn default() -> (r: Self)
        ensures
            r.has_notch == false,
            r.center_exclusion_width == ZERO_PROGRESS_BITS,
    {
        IslandDisplayContext { has_notch: false, center_exclusion_width: ZERO_PROGRESS_BITS }
    }
}

/// Everything the frontend renders, published after each change.
#[derive(Debug)]
pub struct IslandSnapshot {
    pub revision: u64,
    pub mode: IslandMode,
    pub primary_activity: Option<IslandActivity>,
    pub queued_activity_count: usize,
    pub transition_id: Option<u64>,
    pub display_context: IslandDisplayContext,
}

pub struct IslandSnapshotView {
    pub revision: u64,
    pub mode: IslandMode,
    pub primary_activity: Option<IslandActivityView>,
    pub queued_activity_count: usize,
    pub transition_id: Option<u64>,
    pub display_context: IslandDisplayContext,
}

pub open spec fn opt_activity_view(a: Option<IslandActivity>) -> Option<IslandActivityView> {
    match a {
        Some(x) => Some(x@),
        None => None,
    }
}

impl View for IslandSnapshot {
    type V = IslandSnapshotView;

    open spec fn view(&self) -> IslandSnapshotView {
        IslandSnapshotView {
            revision: self.revision,
            mode: self.mode,
            primary_activity: opt_activity_view(self.primary_activity),
            queued_activity_count: self.queued_activity_count,
            transition_id: self.transition_id,
            display_context: self.display_context,
        }
    }
}

impl Clone for IslandSnapshot {
    fn clone(&self) -> (r: Self)
        ensures
            r@ == self@,
    {
        let primary_activity = match &self.primary_activity {
            Some(a) => Some(a.clone()),
            None => None,
        };
        IslandSnapshot {
            revision: self.revision,
            mode: self.mode,
            primary_activity,
            queued_activity_count: self.queued_activity_count,
            transition_id: self.transition_id,
            display_context: self.display_context,
        }
    }
}

impl Default for IslandSnapshot {
    fn default() -> (r: Self)
        ensures
            r.revision == 0,
            r.mode == IslandMode::Hidden,
            r.primary_activity.is_none(),
            r.queued_activity_count == 0,
            r.transition_id.is_none(),
            r.display_context == (IslandDisplayContext {
                has_notch: false,
                center_exclusion_width: ZERO_PROGRESS_BITS,
            }),
    {
        IslandSnapshot {
            revision: 0,
            mode: IslandMode::Hidden,
            primary_activity: None,
            queued_activity_count: 0,
            transition_id: None,
            display_context: IslandDisplayContext::default(),
        }
    }
}

} // verus!
