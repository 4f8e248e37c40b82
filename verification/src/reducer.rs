//! The island's state machine: explicit actions in, a new state and the
//! effects to perform out.
use vstd::prelude::*;

use crate::clock::now_ms;
use crate::model::{
    actions_view, ActivityAction, ActivityActionView, ActivityKind, ActivityStatus,
    IslandActivity, IslandActivityView, IslandDisplayContext, IslandMode, IslandSnapshot,
    IslandSnapshotView, validation, ZERO_PROGRESS_BITS,
};
use crate::table::{
    distinct_ids, lemma_records_map, records_view, ActivityRecord,
    ActivityRecordView, ActivityTable,
};
use crate::text::{
    lemma_text_less_asymmetric, lemma_text_less_total,
    lemma_text_less_transitive, text_less, text_precedes,
};

verus! {

/// How long a completed download draws attention before it is dismissed.
pub const AUTO_DISMISS_DELAY_MS: u64 = 4_000u64;

/// `x + 1`, or `x` when that would overflow.
pub open spec fn sat_inc(x: u64) -> u64 {
    if x == u64::MAX {
        x
    } else {
        (x + 1) as u64
    }
}

/// `x + y`, or `u64::MAX` when that would overflow.
pub open spec fn sat_add(x: u64, y: u64) -> u64 {
    if x + y > u64::MAX {
        u64::MAX
    } else {
        (x + y) as u64
    }
}

/// The authoritative state of the island.
#[derive(Debug)]
pub struct ActivityState {
    pub activities: ActivityTable,
    pub mode: IslandMode,
    pub revision: u64,
    pub active_transition_id: Option<u64>,
    pub next_transition_id: u64,
    pub next_creation_order: u64,
    pub auto_dismiss_deadline_ms: Option<u64>,
    pub last_user_interaction_ms: u64,
    pub display_context: IslandDisplayContext,
}

pub struct ActivityStateView {
    pub activities: Map<Seq<char>, ActivityRecordView>,
    pub mode: IslandMode,
    pub revision: u64,
    pub active_transition_id: Option<u64>,
    pub next_transition_id: u64,
    pub next_creation_order: u64,
    pub auto_dismiss_deadline_ms: Option<u64>,
    pub last_user_interaction_ms: u64,
    pub display_context: IslandDisplayContext,
}

impl View for ActivityState {
    type V = ActivityStateView;

    open spec fn view(&self) -> ActivityStateView {
        ActivityStateView {
            activities: self.activities@,
            mode: self.mode,
            revision: self.revision,
            active_transition_id: self.active_transition_id,
            next_transition_id: self.next_transition_id,
            next_creation_order: self.next_creation_order,
            auto_dismiss_deadline_ms: self.auto_dismiss_deadline_ms,
            last_user_interaction_ms: self.last_user_interaction_ms,
            display_context: self.display_context,
        }
    }
}

impl ActivityStateView {
    /// The state with its revision advanced.
    pub open spec fn changed(self) -> Self {
        ActivityStateView { revision: sat_inc(self.revision), ..self }
    }

    /// The state with a new transition begun.
    pub open spec fn with_new_transition(self) -> Self {
        ActivityStateView {
            active_transition_id: Some(self.next_transition_id),
            next_transition_id: sat_inc(self.next_transition_id),
            ..self
        }
    }
}

/// Something the island is asked to do.
#[derive(Debug)]
pub enum IslandAction {
    AddActivity(IslandActivity),
    UpdateActivity(IslandActivity),
    RemoveActivity(String),
    HideAll,
    ToggleExpanded,
    Collapse,
    Dismiss(String),
    InvokeAction { activity_id: String, action_id: String },
    AutoDismissElapsed { activity_id: String },
    AnimationCompleted { transition_id: u64, final_mode: IslandMode },
}

pub enum IslandActionView {
    AddActivity(IslandActivityView),
    UpdateActivity(IslandActivityView),
    RemoveActivity(Seq<char>),
    HideAll,
    ToggleExpanded,
    Collapse,
    Dismiss(Seq<char>),
    InvokeAction { activity_id: Seq<char>, action_id: Seq<char> },
    AutoDismissElapsed { activity_id: Seq<char> },
    AnimationCompleted { transition_id: u64, final_mode: IslandMode },
}

impl View for IslandAction {
    type V = IslandActionView;

    open spec fn view(&self) -> IslandActionView {
        match self {
            IslandAction::AddActivity(a) => IslandActionView::AddActivity(a@),
            IslandAction::UpdateActivity(a) => IslandActionView::UpdateActivity(a@),
            IslandAction::RemoveActivity(id) => IslandActionView::RemoveActivity(id@),
            IslandAction::HideAll => IslandActionView::HideAll,
            IslandAction::ToggleExpanded => IslandActionView::ToggleExpanded,
            IslandAction::Collapse => IslandActionView::Collapse,
            IslandAction::Dismiss(id) => IslandActionView::Dismiss(id@),
            IslandAction::InvokeAction { activity_id, action_id } => IslandActionView::InvokeAction {
                activity_id: activity_id@,
                action_id: action_id@,
            },
            IslandAction::AutoDismissElapsed { activity_id } => IslandActionView::AutoDismissElapsed {
                activity_id: activity_id@,
            },
            IslandAction::AnimationCompleted { transition_id, final_mode } =>
                IslandActionView::AnimationCompleted {
                transition_id: *transition_id,
                final_mode: *final_mode,
            },
        }
    }
}

impl Clone for IslandAction {
    fn clone(&self) -> (r: Self)
        ensures
            r@ == self@,
    {
        match self {
            IslandAction::AddActivity(a) => IslandAction::AddActivity(a.clone()),
            IslandAction::UpdateActivity(a) => IslandAction::UpdateActivity(a.clone()),
            IslandAction::RemoveActivity(id) => IslandAction::RemoveActivity(id.clone()),
            IslandAction::HideAll => IslandAction::HideAll,
            IslandAction::ToggleExpanded => IslandAction::ToggleExpanded,
            IslandAction::Collapse => IslandAction::Collapse,
            IslandAction::Dismiss(id) => IslandAction::Dismiss(id.clone()),
            IslandAction::InvokeAction { activity_id, action_id } => IslandAction::InvokeAction {
                activity_id: activity_id.clone(),
                action_id: action_id.clone(),
            },
            IslandAction::AutoDismissElapsed { activity_id } => IslandAction::AutoDismissElapsed {
                activity_id: activity_id.clone(),
            },
            IslandAction::AnimationCompleted { transition_id, final_mode } =>
                IslandAction::AnimationCompleted {
                transition_id: *transition_id,
                final_mode: *final_mode,
            },
        }
    }
}

/// Something the window and event layer must do after a reduction.
#[derive(Debug)]
pub enum IslandEffect {
    PublishSnapshot,
    ShowWindow,
    HideWindow,
    PrepareExpandedWindow,
    PrepareCompactWindow,
    FocusWindow,
    ResignWindowFocus,
    ScheduleAutoDismiss { activity_id: String, after_ms: u64 },
}

pub enum IslandEffectView {
    PublishSnapshot,
    ShowWindow,
    HideWindow,
    PrepareExpandedWindow,
    PrepareCompactWindow,
    FocusWindow,
    ResignWindowFocus,
    ScheduleAutoDismiss { activity_id: Seq<char>, after_ms: u64 },
}

impl View for IslandEffect {
    type V = IslandEffectView;

    open spec fn view(&self) -> IslandEffectView {
        match self {
            IslandEffect::PublishSnapshot => IslandEffectView::PublishSnapshot,
            IslandEffect::ShowWindow => IslandEffectView::ShowWindow,
            IslandEffect::HideWindow => IslandEffectView::HideWindow,
            IslandEffect::PrepareExpandedWindow => IslandEffectView::PrepareExpandedWindow,
            IslandEffect::PrepareCompactWindow => IslandEffectView::PrepareCompactWindow,
            IslandEffect::FocusWindow => IslandEffectView::FocusWindow,
            IslandEffect::ResignWindowFocus => IslandEffectView::ResignWindowFocus,
            IslandEffect::ScheduleAutoDismiss { activity_id, after_ms } =>
                IslandEffectView::ScheduleAutoDismiss {
                activity_id: activity_id@,
                after_ms: *after_ms,
            },
        }
    }
}

impl PartialEq for IslandEffect {
    fn eq(&self, other: &Self) -> (r: bool) {
        match (self, other) {
            (IslandEffect::PublishSnapshot, IslandEffect::PublishSnapshot) => true,
            (IslandEffect::ShowWindow, IslandEffect::ShowWindow) => true,
            (IslandEffect::HideWindow, IslandEffect::HideWindow) => true,
            (IslandEffect::PrepareExpandedWindow, IslandEffect::PrepareExpandedWindow) => true,
            (IslandEffect::PrepareCompactWindow, IslandEffect::PrepareCompactWindow) => true,
            (IslandEffect::FocusWindow, IslandEffect::FocusWindow) => true,
            (IslandEffect::ResignWindowFocus, IslandEffect::ResignWindowFocus) => true,
            (
                IslandEffect::ScheduleAutoDismiss { activity_id: a, after_ms: x },
                IslandEffect::ScheduleAutoDismiss { activity_id: b, after_ms: y },
            ) => *a == *b && *x == *y,
            _ => false,
        }
    }
}

impl Eq for IslandEffect {

}

impl vstd::std_specs::cmp::PartialEqSpecImpl for IslandEffect {
    open spec fn obeys_eq_spec() -> bool {
        true
    }

    open spec fn eq_spec(&self, other: &IslandEffect) -> bool {
        self@ == other@
    }
}

impl Clone for IslandEffect {
    fn clone(&self) -> (r: Self)
        ensures
            r@ == self@,
    {
        match self {
            IslandEffect::PublishSnapshot => IslandEffect::PublishSnapshot,
            IslandEffect::ShowWindow => IslandEffect::ShowWindow,
            IslandEffect::HideWindow => IslandEffect::HideWindow,
            IslandEffect::PrepareExpandedWindow => IslandEffect::PrepareExpandedWindow,
            IslandEffect::PrepareCompactWindow => IslandEffect::PrepareCompactWindow,
            IslandEffect::FocusWindow => IslandEffect::FocusWindow,
            IslandEffect::ResignWindowFocus => IslandEffect::ResignWindowFocus,
            IslandEffect::ScheduleAutoDismiss { activity_id, after_ms } =>
                IslandEffect::ScheduleAutoDismiss {
                activity_id: activity_id.clone(),
                after_ms: *after_ms,
            },
        }
    }
}

pub open spec fn effects_view(effects: Seq<IslandEffect>) -> Seq<IslandEffectView> {
    effects.map_values(|e: IslandEffect| e@)
}

// ---------------------------------------------------------------------------
// Primary selection
// ---------------------------------------------------------------------------

/// The display category of an activity: failures first, then recordings,
/// meetings, running timers, downloads, notifications, and other timers.
pub open spec fn category_rank_of(a: IslandActivityView) -> u8 {
    if a.status == ActivityStatus::Failed {
        0
    } else {
        match a.kind {
            ActivityKind::Recording => 1,
            ActivityKind::Meeting => 2,
            ActivityKind::Timer => if a.status == ActivityStatus::Running {
                3
            } else {
                6
            },
            ActivityKind::Download => 4,
            ActivityKind::Notification => 5,
        }
    }
}

/// Whether record `a` is shown before record `b`: by category, then by
/// higher priority, then by earlier creation, then by identifier order.
pub open spec fn ranks_before(a: ActivityRecordView, b: ActivityRecordView) -> bool {
    let ra = category_rank_of(a.activity);
    let rb = category_rank_of(b.activity);
    ||| ra < rb
    ||| ra == rb && a.activity.priority > b.activity.priority
    ||| ra == rb && a.activity.priority == b.activity.priority && a.created_order
        < b.created_order
    ||| ra == rb && a.activity.priority == b.activity.priority && a.created_order
        == b.created_order && text_less(a.activity.id, b.activity.id)
}

/// `r` is the record of `m` that is shown first.
pub open spec fn is_primary(m: Map<Seq<char>, ActivityRecordView>, r: ActivityRecordView) -> bool {
    &&& m.contains_key(r.activity.id)
    &&& m[r.activity.id] == r
    &&& forall|k: Seq<char>|
        #[trigger] m.contains_key(k) && k != r.activity.id ==> ranks_before(r, m[k])
}

/// The record shown first, if there is any record.
pub open spec fn primary_record(m: Map<Seq<char>, ActivityRecordView>) -> Option<ActivityRecordView> {
    if exists|r: ActivityRecordView| is_primary(m, r) {
        Some(choose|r: ActivityRecordView| is_primary(m, r))
    } else {
        None
    }
}

pub proof fn lemma_ranks_before_asymmetric(a: ActivityRecordView, b: ActivityRecordView)
    ensures
        !(ranks_before(a, b) && ranks_before(b, a)),
{
    lemma_text_less_asymmetric(a.activity.id, b.activity.id);
}

pub proof fn lemma_ranks_before_total(a: ActivityRecordView, b: ActivityRecordView)
    requires
        a.activity.id != b.activity.id,
    ensures
        ranks_before(a, b) || ranks_before(b, a),
{
    lemma_text_less_total(a.activity.id, b.activity.id);
}

pub proof fn lemma_ranks_before_transitive(
    a: ActivityRecordView,
    b: ActivityRecordView,
    c: ActivityRecordView,
)
    requires
        ranks_before(a, b),
        ranks_before(b, c),
    ensures
        ranks_before(a, c),
{
    if text_less(a.activity.id, b.activity.id) && text_less(b.activity.id, c.activity.id) {
        lemma_text_less_transitive(a.activity.id, b.activity.id, c.activity.id);
    }
}

/// At most one record is shown first.
pub proof fn lemma_primary_unique(
    m: Map<Seq<char>, ActivityRecordView>,
    r1: ActivityRecordView,
    r2: ActivityRecordView,
)
    requires
        is_primary(m, r1),
        is_primary(m, r2),
    ensures
        r1 == r2,
{
    if r1.activity.id != r2.activity.id {
        assert(m.contains_key(r2.activity.id));
        assert(m.contains_key(r1.activity.id));
        lemma_ranks_before_asymmetric(r1, r2);
    }
}

/// The category of an activity, as `category_rank_of` states it.
fn category_rank(activity: &IslandActivity) -> (r: u8)
    ensures
        r == category_rank_of(activity@),
{
    if activity.status == ActivityStatus::Failed {
        return 0;
    }
    match activity.kind {
        ActivityKind::Recording => 1,
        ActivityKind::Meeting => 2,
        ActivityKind::Timer => if activity.status == ActivityStatus::Running {
            3
        } else {
            6
        },
        ActivityKind::Download => 4,
        ActivityKind::Notification => 5,
    }
}

fn record_ranks_before(a: &ActivityRecord, b: &ActivityRecord) -> (r: bool)
    ensures
        r == ranks_before(a@, b@),
{
    let ra = category_rank(&a.activity);
    let rb = category_rank(&b.activity);
    if ra != rb {
        return ra < rb;
    }
    if a.activity.priority != b.activity.priority {
        return a.activity.priority > b.activity.priority;
    }
    if a.created_order != b.created_order {
        return a.created_order < b.created_order;
    }
    text_precedes(a.activity.id.as_str(), b.activity.id.as_str())
}

/// The activity shown first: the one of the best category, then of the
/// highest priority, then created first, then with the least identifier.
pub fn select_primary(activities: &ActivityTable) -> (r: Option<&ActivityRecord>)
    ensures
        forall|k: Seq<char>|
            #[trigger] activities@.contains_key(k) ==> activities@[k].activity.id == k,
        match r {
            Some(rec) => is_primary(activities@, rec@) && primary_record(activities@) == Some(
                rec@,
            ),
            None => activities@.len() == 0 && primary_record(activities@) is None,
        },
{
    let records = activities.records_in_order();
    let ghost s = records_view(records@);
    proof {
        lemma_records_map(s);
    }
    if records.len() == 0 {
        proof {
            assert forall|r: ActivityRecordView| !is_primary(activities@, r) by {
                if is_primary(activities@, r) {
                    assert(activities@.contains_key(r.activity.id));
                    let i = choose|i: int| 0 <= i < s.len() && (#[trigger] s[i]).activity.id == r.activity.id;
                }
            }
        }
        return None;
    }
    let mut best: usize = 0;
    let mut i: usize = 1;
    while i < records.len()
        invariant
            s == records_view(records@),
            distinct_ids(s),
            best < i <= records@.len(),
            forall|j: int| 0 <= j < i && j != best ==> ranks_before(s[best as int], #[trigger] s[j]),
        decreases records.len() - i,
    {
        assert(s[i as int] == records@[i as int]@);
        assert(s[best as int] == records@[best as int]@);
        if record_ranks_before(&records[i], &records[best]) {
            proof {
                assert forall|j: int| 0 <= j < i + 1 && j != i implies ranks_before(
                    s[i as int],
                    #[trigger] s[j],
                ) by {
                    if j != best {
                        lemma_ranks_before_transitive(s[i as int], s[best as int], s[j]);
                    }
                }
            }
            best = i;
        } else {
            proof {
                assert(s[i as int].activity.id != s[best as int].activity.id);
                lemma_ranks_before_total(s[i as int], s[best as int]);
            }
        }
        i = i + 1;
    }
    let rec = &records[best];
    proof {
        let m = activities@;
        assert(s[best as int] == rec@);
        assert(m[rec@.activity.id] == rec@);
        assert forall|k: Seq<char>| #[trigger] m.contains_key(k) && k != rec@.activity.id implies ranks_before(
            rec@,
            m[k],
        ) by {
            let j = choose|j: int| 0 <= j < s.len() && (#[trigger] s[j]).activity.id == k;
            assert(m[s[j].activity.id] == s[j]);
        }
        assert(is_primary(m, rec@));
        let c = choose|r: ActivityRecordView| is_primary(m, r);
        lemma_primary_unique(m, c, rec@);
    }
    Some(rec)
}

// ---------------------------------------------------------------------------
// The reduction, stated
// ---------------------------------------------------------------------------

/// What an action's branch leaves behind: the next state and the effects.
pub struct Step {
    pub state: ActivityStateView,
    pub effects: Seq<IslandEffectView>,
}

pub open spec fn unchanged(s: ActivityStateView) -> Step {
    Step { state: s, effects: seq![] }
}

pub open spec fn add_step(s: ActivityStateView, a: IslandActivityView) -> Step {
    if validation(a) is Err {
        unchanged(s)
    } else {
        let was_hidden = s.mode == IslandMode::Hidden;
        let record = ActivityRecordView { activity: a, created_order: s.next_creation_order };
        let next = ActivityStateView {
            activities: s.activities.insert(a.id, record),
            next_creation_order: sat_inc(s.next_creation_order),
            mode: if was_hidden {
                IslandMode::Compact
            } else {
                s.mode
            },
            ..s
        }.changed();
        Step {
            state: next,
            effects: if was_hidden {
                seq![
                    IslandEffectView::PrepareCompactWindow,
                    IslandEffectView::ShowWindow,
                    IslandEffectView::PublishSnapshot,
                ]
            } else {
                seq![IslandEffectView::PublishSnapshot]
            },
        }
    }
}

/// Whether replacing `before` with `after` completes a download.
pub open spec fn completes_download(before: IslandActivityView, after: IslandActivityView) -> bool {
    before.kind == ActivityKind::Download && before.status != ActivityStatus::Completed
        && after.status == ActivityStatus::Completed
}

pub open spec fn update_step(s: ActivityStateView, a: IslandActivityView, now: u64) -> Step {
    if validation(a) is Err || !s.activities.contains_key(a.id) {
        unchanged(s)
    } else {
        let before = s.activities[a.id];
        let activities = s.activities.insert(
            a.id,
            ActivityRecordView { activity: a, created_order: before.created_order },
        );
        if completes_download(before.activity, a) && s.mode != IslandMode::Expanded {
            Step {
                state: ActivityStateView {
                    activities,
                    mode: IslandMode::Attention,
                    auto_dismiss_deadline_ms: Some(sat_add(now, AUTO_DISMISS_DELAY_MS)),
                    ..s
                }.changed(),
                effects: seq![
                    IslandEffectView::PrepareCompactWindow,
                    IslandEffectView::ScheduleAutoDismiss {
                        activity_id: a.id,
                        after_ms: AUTO_DISMISS_DELAY_MS,
                    },
                    IslandEffectView::PublishSnapshot,
                ],
            }
        } else {
            Step {
                state: ActivityStateView { activities, ..s }.changed(),
                effects: seq![IslandEffectView::PublishSnapshot],
            }
        }
    }
}

pub open spec fn dismiss_step(s: ActivityStateView, id: Seq<char>, now: u64) -> Step {
    if !s.activities.contains_key(id) {
        unchanged(s)
    } else {
        let rest = s.activities.remove(id);
        let s1 = ActivityStateView { activities: rest, last_user_interaction_ms: now, ..s };
        let s2 = if rest.len() == 0 {
            ActivityStateView { mode: IslandMode::Hidden, ..s1 }.with_new_transition()
        } else if s.mode == IslandMode::Attention {
            ActivityStateView { mode: IslandMode::Compact, ..s1 }
        } else {
            s1
        };
        Step { state: s2.changed(), effects: seq![IslandEffectView::PublishSnapshot] }
    }
}

pub open spec fn hide_all_step(s: ActivityStateView) -> Step {
    if s.activities.len() == 0 && s.mode == IslandMode::Hidden {
        unchanged(s)
    } else {
        Step {
            state: ActivityStateView {
                activities: Map::empty(),
                mode: IslandMode::Hidden,
                ..s
            }.with_new_transition().changed(),
            effects: seq![IslandEffectView::PublishSnapshot],
        }
    }
}

pub open spec fn collapse_step(s: ActivityStateView) -> Step {
    if s.mode != IslandMode::Expanded {
        unchanged(s)
    } else {
        Step {
            state: ActivityStateView {
                mode: IslandMode::Compact,
                ..s
            }.with_new_transition().changed(),
            effects: seq![IslandEffectView::PublishSnapshot],
        }
    }
}

pub open spec fn toggle_step(s: ActivityStateView, now: u64) -> Step {
    let s1 = ActivityStateView { last_user_interaction_ms: now, ..s };
    match s.mode {
        IslandMode::Compact | IslandMode::Attention => Step {
            state: ActivityStateView {
                mode: IslandMode::Expanded,
                ..s1
            }.with_new_transition().changed(),
            effects: seq![
                IslandEffectView::PrepareExpandedWindow,
                IslandEffectView::FocusWindow,
                IslandEffectView::PublishSnapshot,
            ],
        },
        IslandMode::Expanded => collapse_step(s1),
        IslandMode::Hidden => unchanged(s1),
    }
}

/// The identifiers of `actions`, in order.
pub open spec fn action_ids(actions: Seq<ActivityActionView>) -> Seq<Seq<char>> {
    actions.map_values(|a: ActivityActionView| a.id)
}

/// `actions` with its first action whose identifier is `from` given the
/// identifier `to_id` and the label `to_label`.
pub open spec fn rename_first_action(
    actions: Seq<ActivityActionView>,
    from: Seq<char>,
    to_id: Seq<char>,
    to_label: Seq<char>,
) -> Seq<ActivityActionView> {
    match action_ids(actions).index_of_first(from) {
        Some(i) => actions.update(
            i,
            ActivityActionView { id: to_id, label: to_label, destructive: actions[i].destructive },
        ),
        None => actions,
    }
}

/// The activity paused: its "pause" action becomes "resume".
pub open spec fn paused(a: IslandActivityView) -> IslandActivityView {
    IslandActivityView {
        status: ActivityStatus::Paused,
        actions: rename_first_action(a.actions, "pause"@, "resume"@, "Resume"@),
        ..a
    }
}

/// The activity running again: its "resume" action becomes "pause", and a
/// retry restarts its progress at zero.
pub open spec fn resumed(a: IslandActivityView, retry: bool) -> IslandActivityView {
    IslandActivityView {
        status: ActivityStatus::Running,
        progress: match a.progress {
            Some(v) => Some(
                if retry {
                    ZERO_PROGRESS_BITS
                } else {
                    v
                },
            ),
            None => None,
        },
        actions: rename_first_action(a.actions, "resume"@, "pause"@, "Pause"@),
        ..a
    }
}

pub open spec fn invoke_step(
    s: ActivityStateView,
    activity_id: Seq<char>,
    action_id: Seq<char>,
    now: u64,
) -> Step {
    if !s.activities.contains_key(activity_id) {
        unchanged(s)
    } else {
        let a = s.activities[activity_id].activity;
        if action_id == "dismiss"@ || action_id == "stop"@ {
            dismiss_step(s, activity_id, now)
        } else if action_id == "pause"@ {
            update_step(s, paused(a), now)
        } else if action_id == "resume"@ || action_id == "retry"@ {
            update_step(s, resumed(a, action_id == "retry"@), now)
        } else {
            unchanged(s)
        }
    }
}

pub open spec fn auto_dismiss_step(s: ActivityStateView, id: Seq<char>, now: u64) -> Step {
    if s.mode == IslandMode::Expanded {
        unchanged(s)
    } else {
        dismiss_step(s, id, now)
    }
}

pub open spec fn animation_completed_step(
    s: ActivityStateView,
    transition_id: u64,
    final_mode: IslandMode,
) -> Step {
    if s.active_transition_id != Some(transition_id) || s.mode != final_mode {
        unchanged(s)
    } else {
        let next = ActivityStateView { active_transition_id: None, ..s }.changed();
        Step {
            state: next,
            effects: match final_mode {
                IslandMode::Hidden => seq![
                    IslandEffectView::ResignWindowFocus,
                    IslandEffectView::HideWindow,
                ],
                IslandMode::Compact | IslandMode::Attention => seq![
                    IslandEffectView::ResignWindowFocus,
                    IslandEffectView::PrepareCompactWindow,
                ],
                IslandMode::Expanded => seq![],
            },
        }
    }
}

/// The reduction of `action` on state `s` at time `now`.
pub open spec fn reduce_step(s: ActivityStateView, action: IslandActionView, now: u64) -> Step {
    match action {
        IslandActionView::AddActivity(a) => add_step(s, a),
        IslandActionView::UpdateActivity(a) => update_step(s, a, now),
        IslandActionView::RemoveActivity(id) => dismiss_step(s, id, now),
        IslandActionView::Dismiss(id) => dismiss_step(s, id, now),
        IslandActionView::HideAll => hide_all_step(s),
        IslandActionView::ToggleExpanded => toggle_step(s, now),
        IslandActionView::Collapse => collapse_step(s),
        IslandActionView::InvokeAction { activity_id, action_id } => invoke_step(
            s,
            activity_id,
            action_id,
            now,
        ),
        IslandActionView::AutoDismissElapsed { activity_id } => auto_dismiss_step(
            s,
            activity_id,
            now,
        ),
        IslandActionView::AnimationCompleted { transition_id, final_mode } =>
            animation_completed_step(s, transition_id, final_mode),
    }
}

/// The snapshot that state `s` publishes.
pub open spec fn snapshot_of(s: ActivityStateView) -> IslandSnapshotView {
    IslandSnapshotView {
        revision: s.revision,
        mode: s.mode,
        primary_activity: match primary_record(s.activities) {
            Some(r) => Some(r.activity),
            None => None,
        },
        queued_activity_count: if s.activities.len() == 0 {
            0
        } else {
            (s.activities.len() - 1) as usize
        },
        transition_id: s.active_transition_id,
        display_context: s.display_context,
    }
}

// ---------------------------------------------------------------------------
// The reduction, executed
// ---------------------------------------------------------------------------

/// The fresh state at clock reading `now`: no activity, hidden, at
/// revision 0, with transition and creation counters at 1, no auto-dismiss
/// deadline, the last interaction at `now`, and the default display context.
pub open spec fn fresh_state(now: u64) -> ActivityStateView {
    ActivityStateView {
        activities: Map::empty(),
        mode: IslandMode::Hidden,
        revision: 0,
        active_transition_id: None,
        next_transition_id: 1,
        next_creation_order: 1,
        auto_dismiss_deadline_ms: None,
        last_user_interaction_ms: now,
        display_context: IslandDisplayContext {
            has_notch: false,
            center_exclusion_width: ZERO_PROGRESS_BITS,
        },
    }
}

impl Default for ActivityState {
    /// The fresh state at the current time.
    fn default() -> (r: Self)
        ensures
            r@ == fresh_state(r.last_user_interaction_ms),
            crate::laws::consistent(r@),
    {
        ActivityState::starting_at(now_ms())
    }
}

impl ActivityState {
    /// The fresh state at clock reading `now`.
    pub fn starting_at(now: u64) -> (r: Self)
        ensures
            r@ == fresh_state(now),
            crate::laws::consistent(r@),
    {
        ActivityState {
            activities: ActivityTable::new(),
            mode: IslandMode::Hidden,
            revision: 0,
            active_transition_id: None,
            next_transition_id: 1,
            next_creation_order: 1,
            auto_dismiss_deadline_ms: None,
            last_user_interaction_ms: now,
            display_context: IslandDisplayContext::default(),
        }
    }
}

impl ActivityState {
    /// The snapshot to publish: the primary activity, how many others wait,
    /// and the mode, revision, transition and display context.
    pub fn snapshot(&self) -> (r: IslandSnapshot)
        ensures
            r@ == snapshot_of(self@),
    {
        let primary = select_primary(&self.activities);
        let n = self.activities.len();
        let primary_activity = match primary {
            Some(record) => Some(record.activity.clone()),
            None => None,
        };
        let queued = if n == 0 {
            0
        } else {
            n - 1
        };
        proof {
            if n > 0 {
                assert(primary.is_some());
            }
        }
        IslandSnapshot {
            revision: self.revision,
            mode: self.mode,
            primary_activity,
            queued_activity_count: queued,
            transition_id: self.active_transition_id,
            display_context: self.display_context,
        }
    }

    fn begin_transition(&mut self) -> (id: u64)
        ensures
            final(self)@ == old(self)@.with_new_transition(),
            id == old(self).next_transition_id,
    {
        let id = self.next_transition_id;
        self.next_transition_id = self.next_transition_id.saturating_add(1);
        self.active_transition_id = Some(id);
        id
    }

    fn changed(&mut self)
        ensures
            final(self)@ == old(self)@.changed(),
    {
        self.revision = self.revision.saturating_add(1);
    }
}

fn add_activity(state: &mut ActivityState, activity: IslandActivity) -> (effects: Vec<IslandEffect>)
    ensures
        final(state)@ == add_step(old(state)@, activity@).state,
        effects_view(effects@) == add_step(old(state)@, activity@).effects,
{
    if activity.validate().is_err() {
        let effects = Vec::new();
        assert(effects_view(effects@) =~= seq![]);
        return effects;
    }
    let was_hidden = state.mode == IslandMode::Hidden;
    let created_order = state.next_creation_order;
    state.next_creation_order = state.next_creation_order.saturating_add(1);
    state.activities.insert(ActivityRecord { activity, created_order });
    if was_hidden {
        state.mode = IslandMode::Compact;
    }
    state.changed();
    let mut effects: Vec<IslandEffect> = Vec::new();
    if was_hidden {
        effects.push(IslandEffect::PrepareCompactWindow);
        effects.push(IslandEffect::ShowWindow);
    }
    effects.push(IslandEffect::PublishSnapshot);
    proof {
        if was_hidden {
            assert(effects_view(effects@) =~= seq![
                IslandEffectView::PrepareCompactWindow,
                IslandEffectView::ShowWindow,
                IslandEffectView::PublishSnapshot,
            ]);
        } else {
            assert(effects_view(effects@) =~= seq![IslandEffectView::PublishSnapshot]);
        }
    }
    effects
}

fn update_activity(state: &mut ActivityState, activity: IslandActivity, now: u64) -> (effects: Vec<
    IslandEffect,
>)
    ensures
        final(state)@ == update_step(old(state)@, activity@, now).state,
        effects_view(effects@) == update_step(old(state)@, activity@, now).effects,
{
    if activity.validate().is_err() {
        let effects = Vec::new();
        assert(effects_view(effects@) =~= seq![]);
        return effects;
    }
    let (before_kind, before_status, created_order) = match state.activities.get_by_id(
        &activity.id,
    ) {
        Some(record) => (record.activity.kind, record.activity.status, record.created_order),
        None => {
            let effects = Vec::new();
            assert(effects_view(effects@) =~= seq![]);
            return effects;
        },
    };
    let completed_download = before_kind == ActivityKind::Download && before_status
        != ActivityStatus::Completed && activity.status == ActivityStatus::Completed;
    let id = activity.id.clone();
    state.activities.insert(ActivityRecord { activity, created_order });
    let mut effects: Vec<IslandEffect> = Vec::new();
    if completed_download && state.mode != IslandMode::Expanded {
        state.mode = IslandMode::Attention;
        state.auto_dismiss_deadline_ms = Some(now.saturating_add(AUTO_DISMISS_DELAY_MS));
        effects.push(IslandEffect::PrepareCompactWindow);
        effects.push(
            IslandEffect::ScheduleAutoDismiss { activity_id: id, after_ms: AUTO_DISMISS_DELAY_MS },
        );
    }
    state.changed();
    effects.push(IslandEffect::PublishSnapshot);
    proof {
        if completed_download && old(state).mode != IslandMode::Expanded {
            assert(effects_view(effects@) =~= update_step(old(state)@, activity@, now).effects);
        } else {
            assert(effects_view(effects@) =~= seq![IslandEffectView::PublishSnapshot]);
        }
    }
    effects
}

fn dismiss_activity(state: &mut ActivityState, id: &String, now: u64) -> (effects: Vec<
    IslandEffect,
>)
    ensures
        final(state)@ == dismiss_step(old(state)@, id@, now).state,
        effects_view(effects@) == dismiss_step(old(state)@, id@, now).effects,
{
    if state.activities.remove_id(id).is_none() {
        let effects = Vec::new();
        assert(effects_view(effects@) =~= seq![]);
        return effects;
    }
    state.last_user_interaction_ms = now;
    if state.activities.is_empty() {
        state.mode = IslandMode::Hidden;
        state.begin_transition();
    } else if state.mode == IslandMode::Attention {
        state.mode = IslandMode::Compact;
    }
    state.changed();
    let mut effects: Vec<IslandEffect> = Vec::new();
    effects.push(IslandEffect::PublishSnapshot);
    assert(effects_view(effects@) =~= seq![IslandEffectView::PublishSnapshot]);
    effects
}

fn hide_all(state: &mut ActivityState) -> (effects: Vec<IslandEffect>)
    ensures
        final(state)@ == hide_all_step(old(state)@).state,
        effects_view(effects@) == hide_all_step(old(state)@).effects,
{
    if state.activities.is_empty() && state.mode == IslandMode::Hidden {
        let effects = Vec::new();
        assert(effects_view(effects@) =~= seq![]);
        return effects;
    }
    state.activities.clear();
    state.mode = IslandMode::Hidden;
    state.begin_transition();
    state.changed();
    let mut effects: Vec<IslandEffect> = Vec::new();
    effects.push(IslandEffect::PublishSnapshot);
    assert(effects_view(effects@) =~= seq![IslandEffectView::PublishSnapshot]);
    effects
}

fn collapse(state: &mut ActivityState) -> (effects: Vec<IslandEffect>)
    ensures
        final(state)@ == collapse_step(old(state)@).state,
        effects_view(effects@) == collapse_step(old(state)@).effects,
{
    if state.mode != IslandMode::Expanded {
        let effects = Vec::new();
        assert(effects_view(effects@) =~= seq![]);
        return effects;
    }
    state.mode = IslandMode::Compact;
    state.begin_transition();
    state.changed();
    let mut effects: Vec<IslandEffect> = Vec::new();
    effects.push(IslandEffect::PublishSnapshot);
    assert(effects_view(effects@) =~= seq![IslandEffectView::PublishSnapshot]);
    effects
}

fn toggle_expanded(state: &mut ActivityState, now: u64) -> (effects: Vec<IslandEffect>)
    ensures
        final(state)@ == toggle_step(old(state)@, now).state,
        effects_view(effects@) == toggle_step(old(state)@, now).effects,
{
    state.last_user_interaction_ms = now;
    match state.mode {
        IslandMode::Compact | IslandMode::Attention => {
            state.mode = IslandMode::Expanded;
            state.begin_transition();
            state.changed();
            let mut effects: Vec<IslandEffect> = Vec::new();
            effects.push(IslandEffect::PrepareExpandedWindow);
            effects.push(IslandEffect::FocusWindow);
            effects.push(IslandEffect::PublishSnapshot);
            assert(effects_view(effects@) =~= seq![
                IslandEffectView::PrepareExpandedWindow,
                IslandEffectView::FocusWindow,
                IslandEffectView::PublishSnapshot,
            ]);
            effects
        },
        IslandMode::Expanded => collapse(state),
        IslandMode::Hidden => {
            let effects = Vec::new();
            assert(effects_view(effects@) =~= seq![]);
            effects
        },
    }
}

/// Renames the first action whose identifier is `from`.
fn rename_first(actions: &mut Vec<ActivityAction>, from: &str, to_id: &str, to_label: &str)
    ensures
        actions_view(final(actions)@) == rename_first_action(
            actions_view(old(actions)@),
            from@,
            to_id@,
            to_label@,
        ),
{
    let ghost acts = actions_view(actions@);
    let ghost ids = action_ids(acts);
    let key = String::from_str(from);
    let mut i: usize = 0;
    while i < actions.len()
        invariant
            acts == actions_view(actions@),
            acts == actions_view(old(actions)@),
            ids == action_ids(acts),
            key@ == from@,
            i <= actions@.len(),
            forall|j: int| 0 <= j < i ==> ids[j] != from@,
        decreases actions.len() - i,
    {
        assert(ids[i as int] == actions@[i as int].id@);
        if actions[i].id == key {
            proof {
                ids.index_of_first_ensures(from@);
                assert(ids[i as int] == from@);
                match ids.index_of_first(from@) {
                    Some(f) => {
                        if f < i {
                        } else if f > i {
                        }
                        assert(f == i);
                    },
                    None => {
                        assert(ids.contains(from@));
                    },
                }
            }
            let destructive = actions[i].destructive;
            let renamed = ActivityAction {
                id: String::from_str(to_id),
                label: String::from_str(to_label),
                destructive,
            };
            actions.set(i, renamed);
            assert(actions_view(actions@) =~= acts.update(
                i as int,
                ActivityActionView { id: to_id@, label: to_label@, destructive: acts[i as int].destructive },
            ));
            return ;
        }
        i = i + 1;
    }
    proof {
        ids.index_of_first_ensures(from@);
        if ids.index_of_first(from@) is Some {
            let f = ids.index_of_first(from@)->0;
            assert(ids[f] == from@);
        }
    }
}

fn invoke_action(state: &mut ActivityState, activity_id: &String, action_id: &String, now: u64) -> (effects: Vec<IslandEffect>)
    ensures
        final(state)@ == invoke_step(old(state)@, activity_id@, action_id@, now).state,
        effects_view(effects@) == invoke_step(old(state)@, activity_id@, action_id@, now).effects,
{
    let record = match state.activities.get_by_id(activity_id) {
        Some(r) => r.clone(),
        None => {
            let effects = Vec::new();
            assert(effects_view(effects@) =~= seq![]);
            return effects;
        },
    };
    let dismiss = String::from_str("dismiss");
    let stop = String::from_str("stop");
    let pause = String::from_str("pause");
    let resume = String::from_str("resume");
    let retry = String::from_str("retry");
    if *action_id == dismiss || *action_id == stop {
        dismiss_activity(state, activity_id, now)
    } else if *action_id == pause {
        let mut activity = record.activity;
        activity.status = ActivityStatus::Paused;
        rename_first(&mut activity.actions, "pause", "resume", "Resume");
        assert(activity@ == paused(old(state)@.activities[activity_id@].activity));
        update_activity(state, activity, now)
    } else if *action_id == resume || *action_id == retry {
        let is_retry = *action_id == retry;
        let mut activity = record.activity;
        activity.status = ActivityStatus::Running;
        activity.progress = match activity.progress {
            Some(v) => Some(
                if is_retry {
                    ZERO_PROGRESS_BITS
                } else {
                    v
                },
            ),
            None => None,
        };
        rename_first(&mut activity.actions, "resume", "pause", "Pause");
        assert(activity@ == resumed(old(state)@.activities[activity_id@].activity, is_retry));
        update_activity(state, activity, now)
    } else {
        let effects = Vec::new();
        assert(effects_view(effects@) =~= seq![]);
        effects
    }
}

fn animation_completed(state: &mut ActivityState, transition_id: u64, final_mode: IslandMode) -> (effects: Vec<IslandEffect>)
    ensures
        final(state)@ == animation_completed_step(old(state)@, transition_id, final_mode).state,
        effects_view(effects@) == animation_completed_step(
            old(state)@,
            transition_id,
            final_mode,
        ).effects,
{
    let current = match state.active_transition_id {
        Some(t) => t == transition_id,
        None => false,
    };
    if !current || state.mode != final_mode {
        let effects = Vec::new();
        assert(effects_view(effects@) =~= seq![]);
        return effects;
    }
    state.active_transition_id = None;
    state.changed();
    let mut effects: Vec<IslandEffect> = Vec::new();
    match final_mode {
        IslandMode::Hidden => {
            effects.push(IslandEffect::ResignWindowFocus);
            effects.push(IslandEffect::HideWindow);
            assert(effects_view(effects@) =~= seq![
                IslandEffectView::ResignWindowFocus,
                IslandEffectView::HideWindow,
            ]);
        },
        IslandMode::Compact | IslandMode::Attention => {
            effects.push(IslandEffect::ResignWindowFocus);
            effects.push(IslandEffect::PrepareCompactWindow);
            assert(effects_view(effects@) =~= seq![
                IslandEffectView::ResignWindowFocus,
                IslandEffectView::PrepareCompactWindow,
            ]);
        },
        IslandMode::Expanded => {
            assert(effects_view(effects@) =~= seq![]);
        },
    }
    effects
}

/// Applies `action` to `state` with the clock reading `now`, and returns the
/// effects that the window and event layer must perform, in order.
pub fn reduce_at(state: &mut ActivityState, action: IslandAction, now: u64) -> (effects: Vec<
    IslandEffect,
>)
    ensures
        final(state)@ == reduce_step(old(state)@, action@, now).state,
        effects_view(effects@) == reduce_step(old(state)@, action@, now).effects,
{
    match action {
        IslandAction::AddActivity(activity) => add_activity(state, activity),
        IslandAction::UpdateActivity(activity) => update_activity(state, activity, now),
        IslandAction::RemoveActivity(id) => dismiss_activity(state, &id, now),
        IslandAction::Dismiss(id) => dismiss_activity(state, &id, now),
        IslandAction::HideAll => hide_all(state),
        IslandAction::ToggleExpanded => toggle_expanded(state, now),
        IslandAction::Collapse => collapse(state),
        IslandAction::InvokeAction { activity_id, action_id } => invoke_action(
            state,
            &activity_id,
            &action_id,
            now,
        ),
        IslandAction::AutoDismissElapsed { activity_id } => {
            if state.mode == IslandMode::Expanded {
                let effects = Vec::new();
                assert(effects_view(effects@) =~= seq![]);
                return effects;
            }
            dismiss_activity(state, &activity_id, now)
        },
        IslandAction::AnimationCompleted { transition_id, final_mode } => animation_completed(
            state,
            transition_id,
            final_mode,
        ),
    }
}

/// Applies `action` to `state` at the current time, and returns the effects
/// that the window and event layer must perform, in order.
pub fn reduce(state: &mut ActivityState, action: IslandAction) -> (effects: Vec<IslandEffect>)
    ensures
        exists|now: u64|
            #![trigger reduce_step(old(state)@, action@, now)]
            final(state)@ == reduce_step(old(state)@, action@, now).state && effects_view(effects@)
                == reduce_step(old(state)@, action@, now).effects,
{
    let now = now_ms();
    reduce_at(state, action, now)
}

} // verus!
