//! Properties that hold of every reduction, or of several in a row.
use vstd::prelude::*;

use crate::model::{
    validation, ActivityActionView, ActivityStatus, IslandActivityView, IslandMode,
};
use crate::reducer::{
    add_step, collapse_step, completes_download,
    dismiss_step, hide_all_step, invoke_step, is_primary, lemma_ranks_before_total,
    lemma_ranks_before_transitive, reduce_step, sat_inc, snapshot_of, toggle_step,
    unchanged, update_step, ActivityStateView, IslandActionView, IslandEffectView,
    AUTO_DISMISS_DELAY_MS, ranks_before, paused, resumed, rename_first_action, action_ids,
};
use crate::table::ActivityRecordView;
use crate::presentation::{animation_between, completion_of, stable_animation_of, AnimationState};
use crate::demo::{demo_tick_of, DemoTickView, DOWNLOAD_TICKS};
use crate::model::{progress_in_range, ActivityKind};

verus! {

/// The state invariant: the island is hidden exactly when there is no
/// activity; each activity is filed under its own identifier and passed
/// validation; and the active transition, if any, was issued before the next
/// one.
pub open spec fn consistent(s: ActivityStateView) -> bool {
    &&& s.activities.dom().finite()
    &&& (s.activities.len() == 0 <==> s.mode == IslandMode::Hidden)
    &&& forall|k: Seq<char>|
        #[trigger] s.activities.contains_key(k) ==> s.activities[k].activity.id == k && validation(
            s.activities[k].activity,
        ) is Ok
    &&& s.next_transition_id >= 1
    &&& (s.active_transition_id matches Some(t) ==> 1 <= t <= s.next_transition_id)
}

proof fn lemma_empty_len(m: Map<Seq<char>, ActivityRecordView>)
    requires
        m.dom().finite(),
    ensures
        m.len() == 0 <==> m.dom() == Set::<Seq<char>>::empty(),
{
    if m.len() == 0 {
        if m.dom() != Set::<Seq<char>>::empty() {
            let k = m.dom().choose();
            assert(m.dom().contains(k)) by {
                assert(!(m.dom() =~= Set::<Seq<char>>::empty()));
            }
        }
    }
}

proof fn lemma_add_consistent(s: ActivityStateView, a: IslandActivityView)
    requires
        consistent(s),
    ensures
        consistent(add_step(s, a).state),
{
    lemma_empty_len(s.activities);
    let n = add_step(s, a).state;
    lemma_empty_len(n.activities);
    if validation(a) is Ok {
        assert(n.activities.contains_key(a.id));
    }
}

proof fn lemma_update_consistent(s: ActivityStateView, a: IslandActivityView, now: u64)
    requires
        consistent(s),
    ensures
        consistent(update_step(s, a, now).state),
{
    lemma_empty_len(s.activities);
    let n = update_step(s, a, now).state;
    lemma_empty_len(n.activities);
    if validation(a) is Ok && s.activities.contains_key(a.id) {
        assert(n.activities.contains_key(a.id));
        assert(n.activities.dom() =~= s.activities.dom());
    }
}

proof fn lemma_dismiss_consistent(s: ActivityStateView, id: Seq<char>, now: u64)
    requires
        consistent(s),
    ensures
        consistent(dismiss_step(s, id, now).state),
{
    lemma_empty_len(s.activities);
    let n = dismiss_step(s, id, now).state;
    lemma_empty_len(n.activities);
    if s.activities.contains_key(id) {
        assert(s.activities.len() > 0);
    }
}

proof fn lemma_hide_all_consistent(s: ActivityStateView)
    requires
        consistent(s),
    ensures
        consistent(hide_all_step(s).state),
{
    lemma_empty_len(s.activities);
    let n = hide_all_step(s).state;
    lemma_empty_len(n.activities);
}

proof fn lemma_toggle_consistent(s: ActivityStateView, now: u64)
    requires
        consistent(s),
    ensures
        consistent(toggle_step(s, now).state),
        consistent(collapse_step(s).state),
{
}

proof fn lemma_invoke_consistent(s: ActivityStateView, activity_id: Seq<char>, action_id: Seq<char>, now: u64)
    requires
        consistent(s),
    ensures
        consistent(invoke_step(s, activity_id, action_id, now).state),
{
    if s.activities.contains_key(activity_id) {
        let a = s.activities[activity_id].activity;
        lemma_dismiss_consistent(s, activity_id, now);
        lemma_update_consistent(s, paused(a), now);
        lemma_update_consistent(s, resumed(a, true), now);
        lemma_update_consistent(s, resumed(a, false), now);
    }
}

/// Every reduction keeps the state invariant: in particular the island is
/// hidden exactly when no activity is left.
pub proof fn law_reduce_keeps_consistency(s: ActivityStateView, action: IslandActionView, now: u64)
    requires
        consistent(s),
    ensures
        consistent(reduce_step(s, action, now).state),
{
    match action {
        IslandActionView::AddActivity(a) => lemma_add_consistent(s, a),
        IslandActionView::UpdateActivity(a) => lemma_update_consistent(s, a, now),
        IslandActionView::RemoveActivity(id) => lemma_dismiss_consistent(s, id, now),
        IslandActionView::Dismiss(id) => lemma_dismiss_consistent(s, id, now),
        IslandActionView::HideAll => lemma_hide_all_consistent(s),
        IslandActionView::ToggleExpanded => lemma_toggle_consistent(s, now),
        IslandActionView::Collapse => lemma_toggle_consistent(s, now),
        IslandActionView::InvokeAction { activity_id, action_id } => lemma_invoke_consistent(
            s,
            activity_id,
            action_id,
            now,
        ),
        IslandActionView::AutoDismissElapsed { activity_id } => lemma_dismiss_consistent(
            s,
            activity_id,
            now,
        ),
        IslandActionView::AnimationCompleted { transition_id, final_mode } => {},
    }
}

/// The island is hidden exactly when no activity exists, and every
/// reduction keeps it so (for any finite set of activities, which every
/// table is).
pub proof fn law_hidden_iff_empty_is_kept(s: ActivityStateView, action: IslandActionView, now: u64)
    requires
        s.activities.dom().finite(),
        s.activities.len() == 0 <==> s.mode == IslandMode::Hidden,
    ensures
        ({
            let n = reduce_step(s, action, now).state;
            &&& n.activities.dom().finite()
            &&& (n.activities.len() == 0 <==> n.mode == IslandMode::Hidden)
        }),
{
    lemma_empty_len(s.activities);
    let n = reduce_step(s, action, now).state;
    lemma_empty_len(n.activities);
    match action {
        IslandActionView::AddActivity(a) => {
            if validation(a) is Ok {
                assert(n.activities.contains_key(a.id));
            }
        },
        IslandActionView::UpdateActivity(a) => {
            if validation(a) is Ok && s.activities.contains_key(a.id) {
                assert(n.activities.dom() =~= s.activities.dom());
            }
        },
        IslandActionView::InvokeAction { activity_id, action_id } => {
            if s.activities.contains_key(activity_id) {
                let a = s.activities[activity_id].activity;
                let p = update_step(s, paused(a), now).state;
                lemma_empty_len(p.activities);
                if validation(paused(a)) is Ok && s.activities.contains_key(paused(a).id) {
                    assert(p.activities.dom() =~= s.activities.dom().insert(paused(a).id));
                }
                let r1 = update_step(s, resumed(a, true), now).state;
                lemma_empty_len(r1.activities);
                if validation(resumed(a, true)) is Ok && s.activities.contains_key(a.id) {
                    assert(r1.activities.dom() =~= s.activities.dom());
                }
                let r2 = update_step(s, resumed(a, false), now).state;
                lemma_empty_len(r2.activities);
                if validation(resumed(a, false)) is Ok && s.activities.contains_key(a.id) {
                    assert(r2.activities.dom() =~= s.activities.dom());
                }
                let d = dismiss_step(s, activity_id, now).state;
                lemma_empty_len(d.activities);
            }
        },
        _ => {},
    }
}

/// Whether `PublishSnapshot` occurs at most once in `effects`.
pub open spec fn publishes_at_most_once(effects: Seq<IslandEffectView>) -> bool {
    forall|i: int, j: int|
        0 <= i < effects.len() && 0 <= j < effects.len() && effects[i]
            == IslandEffectView::PublishSnapshot && effects[j] == IslandEffectView::PublishSnapshot
            ==> i == j
}

/// The revision advances, by one, every time the externally visible snapshot
/// changes: a reduction either leaves the revision as it was, and then its
/// snapshot is unchanged, or advances it by one. Publishing a snapshot
/// always comes with an advance, and happens at most once per reduction.
/// (At `u64::MAX` the revision stays put, so the law is stated below it.)
pub proof fn law_visible_change_advances_revision(
    s: ActivityStateView,
    action: IslandActionView,
    now: u64,
)
    requires
        s.revision < u64::MAX,
    ensures
        ({
            let step = reduce_step(s, action, now);
            &&& step.state.revision == s.revision || step.state.revision == s.revision + 1
            &&& step.state.revision == s.revision ==> {
                &&& snapshot_of(step.state) == snapshot_of(s)
                &&& step.state.mode == s.mode
                &&& step.state.activities == s.activities
                &&& step.state.active_transition_id == s.active_transition_id
                &&& step.state.display_context == s.display_context
            }
            &&& snapshot_of(step.state) != snapshot_of(s) ==> step.state.revision == s.revision
                + 1
            &&& step.effects.contains(IslandEffectView::PublishSnapshot)
                ==> step.state.revision == s.revision + 1
            &&& publishes_at_most_once(step.effects)
        }),
{
    let step = reduce_step(s, action, now);
    reveal_strlit("dismiss");
    if step.effects.len() > 0 {
        assert(step.effects.contains(IslandEffectView::PublishSnapshot) <==> step.effects.last()
            == IslandEffectView::PublishSnapshot || step.effects[0] == IslandEffectView::PublishSnapshot
            || (step.effects.len() > 1 && step.effects[1] == IslandEffectView::PublishSnapshot));
    }
}

/// A completion report for any transition other than the active one, or for
/// another mode than the current one, changes nothing and asks for nothing.
pub proof fn law_stale_completion_ignored(
    s: ActivityStateView,
    transition_id: u64,
    final_mode: IslandMode,
    now: u64,
)
    requires
        s.active_transition_id != Some(transition_id) || s.mode != final_mode,
    ensures
        reduce_step(
            s,
            IslandActionView::AnimationCompleted { transition_id, final_mode },
            now,
        ) == unchanged(s),
{
}

/// A completion report for the active transition in the current mode ends
/// the transition, and asks to hide the window, settle it compact, or
/// nothing for an expanded island; the revision advances and nothing else
/// changes.
pub proof fn law_current_completion_finishes_transition(s: ActivityStateView, now: u64)
    requires
        s.active_transition_id is Some,
    ensures
        ({
            let step = reduce_step(
                s,
                IslandActionView::AnimationCompleted {
                    transition_id: s.active_transition_id->0,
                    final_mode: s.mode,
                },
                now,
            );
            &&& step.state == ActivityStateView { active_transition_id: None, ..s }.changed()
            &&& step.effects == match s.mode {
                IslandMode::Hidden => seq![
                    IslandEffectView::ResignWindowFocus,
                    IslandEffectView::HideWindow,
                ],
                IslandMode::Expanded => seq![],
                _ => seq![
                    IslandEffectView::ResignWindowFocus,
                    IslandEffectView::PrepareCompactWindow,
                ],
            }
        }),
{
}

/// Transition identifiers are issued in order: the counter never goes
/// back, and a transition that becomes active takes the counter's value.
pub proof fn law_transitions_are_issued_in_order(
    s: ActivityStateView,
    action: IslandActionView,
    now: u64,
)
    ensures
        ({
            let n = reduce_step(s, action, now).state;
            &&& n.next_transition_id >= s.next_transition_id
            &&& n.active_transition_id != s.active_transition_id ==> (n.active_transition_id
                is None || n.active_transition_id == Some(s.next_transition_id))
        }),
{
}

/// A valid activity, once added, is the activity filed under its
/// identifier, and the island is no longer hidden.
pub proof fn law_added_activity_is_filed(s: ActivityStateView, a: IslandActivityView, now: u64)
    requires
        validation(a) is Ok,
    ensures
        ({
            let n = reduce_step(s, IslandActionView::AddActivity(a), now).state;
            &&& n.activities.contains_key(a.id)
            &&& n.activities[a.id].activity == a
            &&& n.mode != IslandMode::Hidden
        }),
{
}

/// An activity that fails validation is refused: nothing changes and
/// nothing is asked for, whether it is added or updated.
pub proof fn law_invalid_activity_refused(s: ActivityStateView, a: IslandActivityView, now: u64)
    requires
        validation(a) is Err,
    ensures
        reduce_step(s, IslandActionView::AddActivity(a), now) == unchanged(s),
        reduce_step(s, IslandActionView::UpdateActivity(a), now) == unchanged(s),
{
}

/// A dismissed activity is gone, and dismissing an unknown identifier
/// changes nothing.
pub proof fn law_dismissed_activity_is_gone(s: ActivityStateView, id: Seq<char>, now: u64)
    ensures
        !reduce_step(s, IslandActionView::Dismiss(id), now).state.activities.contains_key(id),
        !s.activities.contains_key(id) ==> reduce_step(s, IslandActionView::Dismiss(id), now)
            == unchanged(s),
{
}

/// Hiding everything leaves no activity and a hidden island, and hiding a
/// second time changes nothing.
pub proof fn law_hide_all_is_idempotent(s: ActivityStateView, now1: u64, now2: u64)
    requires
        s.activities.dom().finite(),
    ensures
        ({
            let once = reduce_step(s, IslandActionView::HideAll, now1).state;
            &&& once.activities.len() == 0
            &&& once.mode == IslandMode::Hidden
            &&& reduce_step(once, IslandActionView::HideAll, now2) == unchanged(once)
        }),
{
    let once = reduce_step(s, IslandActionView::HideAll, now1).state;
    if s.activities.len() == 0 && s.mode == IslandMode::Hidden {
        lemma_empty_len(s.activities);
        assert(s.activities =~= Map::<Seq<char>, ActivityRecordView>::empty());
    }
}

/// Expanding a compact island and toggling again brings it back to compact
/// with the same activities, two revisions and two transitions later.
pub proof fn law_toggle_twice_returns_to_compact(s: ActivityStateView, now1: u64, now2: u64)
    requires
        s.mode == IslandMode::Compact || s.mode == IslandMode::Attention,
    ensures
        ({
            let once = reduce_step(s, IslandActionView::ToggleExpanded, now1).state;
            let twice = reduce_step(once, IslandActionView::ToggleExpanded, now2).state;
            &&& once.mode == IslandMode::Expanded
            &&& twice.mode == IslandMode::Compact
            &&& twice.activities == s.activities
            &&& twice.revision == sat_inc(sat_inc(s.revision))
            &&& twice.active_transition_id == Some(once.next_transition_id)
        }),
{
}

/// While the island is expanded, an elapsed auto-dismissal changes nothing.
pub proof fn law_expanded_activity_is_not_auto_dismissed(
    s: ActivityStateView,
    id: Seq<char>,
    now: u64,
)
    requires
        s.mode == IslandMode::Expanded,
    ensures
        reduce_step(s, IslandActionView::AutoDismissElapsed { activity_id: id }, now) == unchanged(
            s,
        ),
{
}

/// A download that completes while the island is not expanded draws
/// attention and schedules its own dismissal after the delay.
pub proof fn law_completed_download_draws_attention(
    s: ActivityStateView,
    a: IslandActivityView,
    now: u64,
)
    requires
        validation(a) is Ok,
        s.activities.contains_key(a.id),
        completes_download(s.activities[a.id].activity, a),
        s.mode != IslandMode::Expanded,
    ensures
        ({
            let step = reduce_step(s, IslandActionView::UpdateActivity(a), now);
            &&& step.state.mode == IslandMode::Attention
            &&& step.effects.contains(
                IslandEffectView::ScheduleAutoDismiss {
                    activity_id: a.id,
                    after_ms: AUTO_DISMISS_DELAY_MS,
                },
            )
        }),
{
    let step = reduce_step(s, IslandActionView::UpdateActivity(a), now);
    assert(step.effects[1] == IslandEffectView::ScheduleAutoDismiss {
        activity_id: a.id,
        after_ms: AUTO_DISMISS_DELAY_MS,
    });
}


proof fn lemma_primary_exists(m: Map<Seq<char>, ActivityRecordView>)
    requires
        m.dom().finite(),
        m.len() > 0,
        forall|k: Seq<char>| #[trigger] m.contains_key(k) ==> m[k].activity.id == k,
    ensures
        exists|r: ActivityRecordView| is_primary(m, r),
    decreases m.len(),
{
    let k = m.dom().choose();
    assert(m.dom().contains(k)) by {
        lemma_empty_len(m);
        assert(!(m.dom() =~= Set::<Seq<char>>::empty()));
    }
    let m2 = m.remove(k);
    let rk = m[k];
    if m2.len() == 0 {
        lemma_empty_len(m2);
        assert forall|j: Seq<char>| #[trigger] m.contains_key(j) && j != rk.activity.id implies ranks_before(
            rk,
            m[j],
        ) by {
            assert(m2.dom().contains(j));
        }
        assert(is_primary(m, rk));
    } else {
        lemma_primary_exists(m2);
        let r2 = choose|r: ActivityRecordView| is_primary(m2, r);
        assert(r2.activity.id != k);
        if ranks_before(rk, r2) {
            assert forall|j: Seq<char>| #[trigger] m.contains_key(j) && j != rk.activity.id implies ranks_before(
                rk,
                m[j],
            ) by {
                assert(m2.contains_key(j));
                if j != r2.activity.id {
                    assert(m2.contains_key(j));
                    lemma_ranks_before_transitive(rk, r2, m2[j]);
                }
            }
            assert(is_primary(m, rk));
        } else {
            lemma_ranks_before_total(rk, r2);
            assert forall|j: Seq<char>| #[trigger] m.contains_key(j) && j != r2.activity.id implies ranks_before(
                r2,
                m[j],
            ) by {
                if j != k {
                    assert(m2.contains_key(j));
                }
            }
            assert(is_primary(m, r2));
        }
    }
}

/// The published snapshot shows a primary activity exactly when there is
/// an activity; that activity is one of the current ones, and every other
/// activity is counted as queued.
pub proof fn law_snapshot_shows_primary_iff_any_activity(s: ActivityStateView)
    requires
        consistent(s),
        s.activities.len() <= usize::MAX,
    ensures
        ({
            let snap = snapshot_of(s);
            &&& snap.primary_activity is Some <==> s.activities.len() > 0
            &&& snap.primary_activity matches Some(a) ==> s.activities.contains_key(a.id)
                && s.activities[a.id].activity == a
            &&& snap.queued_activity_count + (if snap.primary_activity is Some {
                1int
            } else {
                0int
            }) == s.activities.len()
        }),
{
    let m = s.activities;
    if m.len() > 0 {
        lemma_primary_exists(m);
    }
    if exists|r: ActivityRecordView| is_primary(m, r) {
        let r = choose|r: ActivityRecordView| is_primary(m, r);
        assert(m.dom().contains(r.activity.id));
        assert(m.len() > 0) by {
            if m.len() == 0 {
                lemma_empty_len(m);
            }
        }
    }
}

/// The first "pause" action, if there is one, is labelled "Pause".
pub open spec fn first_pause_labelled(acts: Seq<ActivityActionView>) -> bool {
    match action_ids(acts).index_of_first("pause"@) {
        Some(i) => acts[i].label == "Pause"@,
        None => true,
    }
}

/// The action list after pausing and then resuming is the one before, when
/// it has no "resume" action and each "pause" action is labelled "Pause".
proof fn lemma_rename_round_trip(acts: Seq<ActivityActionView>)
    requires
        !action_ids(acts).contains("resume"@),
        first_pause_labelled(acts),
    ensures
        rename_first_action(
            rename_first_action(acts, "pause"@, "resume"@, "Resume"@),
            "resume"@,
            "pause"@,
            "Pause"@,
        ) == acts,
{
    reveal_strlit("pause");
    reveal_strlit("resume");
    let ids = action_ids(acts);
    ids.index_of_first_ensures("pause"@);
    let acts1 = rename_first_action(acts, "pause"@, "resume"@, "Resume"@);
    let ids1 = action_ids(acts1);
    ids1.index_of_first_ensures("resume"@);
    match ids.index_of_first("pause"@) {
        Some(i) => {
            assert(ids1 =~= ids.update(i, "resume"@));
            assert(ids1[i] == "resume"@);
            match ids1.index_of_first("resume"@) {
                Some(j) => {
                    if j != i {
                        assert(ids1[j] == ids[j]);
                        assert(ids.contains("resume"@));
                    }
                },
                None => {
                    assert(ids1.contains("resume"@));
                },
            }
            assert(acts[i].id == "pause"@);
            let acts2 = rename_first_action(acts1, "resume"@, "pause"@, "Pause"@);
            assert(acts2 =~= acts);
        },
        None => {
            assert(acts1 == acts);
        },
    }
}

/// Pausing a valid running activity and then resuming it restores the
/// activities, and the mode, as they were, when the activity has no
/// "resume" action and its first "pause" action is labelled "Pause".
pub proof fn law_pause_then_resume_restores(
    s: ActivityStateView,
    id: Seq<char>,
    now1: u64,
    now2: u64,
)
    requires
        s.activities.contains_key(id),
        s.activities[id].activity.id == id,
        validation(s.activities[id].activity) is Ok,
        s.activities[id].activity.status == ActivityStatus::Running,
        !action_ids(s.activities[id].activity.actions).contains("resume"@),
        first_pause_labelled(s.activities[id].activity.actions),
    ensures
        ({
            let once = reduce_step(
                s,
                IslandActionView::InvokeAction { activity_id: id, action_id: "pause"@ },
                now1,
            ).state;
            let twice = reduce_step(
                once,
                IslandActionView::InvokeAction { activity_id: id, action_id: "resume"@ },
                now2,
            ).state;
            &&& once.activities[id].activity.status == ActivityStatus::Paused
            &&& twice.activities == s.activities
            &&& twice.mode == s.mode
            &&& twice.revision == sat_inc(sat_inc(s.revision))
        }),
{
    reveal_strlit("pause");
    reveal_strlit("resume");
    reveal_strlit("dismiss");
    reveal_strlit("stop");
    reveal_strlit("retry");
    assert("pause"@.len() == 5 && "dismiss"@.len() == 7 && "stop"@.len() == 4);
    assert("resume"@.len() == 6 && "retry"@.len() == 5);
    assert("pause"@ != "dismiss"@ && "pause"@ != "stop"@);
    assert("resume"@ != "dismiss"@ && "resume"@ != "stop"@ && "resume"@ != "pause"@);
    assert("resume"@ != "retry"@);
    let a = s.activities[id].activity;
    let rec = s.activities[id];
    assert(a.id == id);
    let p = paused(a);
    assert(validation(p) == validation(a));
    assert(reduce_step(
        s,
        IslandActionView::InvokeAction { activity_id: id, action_id: "pause"@ },
        now1,
    ) == update_step(s, p, now1));
    let once = update_step(s, p, now1).state;
    assert(once.activities.contains_key(id));
    assert(once.activities[id].activity == p);
    lemma_rename_round_trip(a.actions);
    let r = resumed(p, false);
    assert(r.actions == a.actions);
    assert(r == a);
    assert(reduce_step(
        once,
        IslandActionView::InvokeAction { activity_id: id, action_id: "resume"@ },
        now2,
    ) == update_step(once, r, now2));
    let twice = update_step(once, r, now2).state;
    assert(twice.activities =~= s.activities);
}


/// The CSS property whose transition ends an animation.
pub open spec fn completing_property(animation: AnimationState) -> Seq<char> {
    match animation {
        AnimationState::Expanding { .. } => "height"@,
        AnimationState::Collapsing { .. } => "width"@,
        AnimationState::Dismissing { .. } => "transform"@,
        _ => Seq::empty(),
    }
}

/// Every transition that a reduction begins is one the frontend animates:
/// from the mode it saw before to the mode published, the animation's own
/// CSS transition reports that transition and that mode, and the reducer
/// accepts the report and ends the transition, if nothing came between.
pub proof fn law_begun_transition_is_completed(
    s: ActivityStateView,
    action: IslandActionView,
    now1: u64,
    now2: u64,
)
    requires
        consistent(s),
        reduce_step(s, action, now1).state.next_transition_id > s.next_transition_id,
    ensures
        ({
            let n = reduce_step(s, action, now1).state;
            let t = s.next_transition_id;
            let animation = animation_between(s.mode, n.mode, n.active_transition_id);
            &&& n.active_transition_id == Some(t)
            &&& completion_of(animation, completing_property(animation)) == Some(
                (t, n.mode, stable_animation_of(n.mode)),
            )
            &&& reduce_step(
                n,
                IslandActionView::AnimationCompleted { transition_id: t, final_mode: n.mode },
                now2,
            ).state.active_transition_id is None
        }),
{
    reveal_strlit("dismiss");
    reveal_strlit("stop");
    reveal_strlit("pause");
    reveal_strlit("resume");
    reveal_strlit("retry");
    lemma_empty_len(s.activities);
    match action {
        IslandActionView::InvokeAction { activity_id, action_id } => {
            if s.activities.contains_key(activity_id) {
                let a = s.activities[activity_id].activity;
                if action_id == "dismiss"@ || action_id == "stop"@ {
                } else if action_id == "pause"@ {
                    assert(update_step(s, paused(a), now1).state.next_transition_id
                        == s.next_transition_id);
                } else if action_id == "resume"@ || action_id == "retry"@ {
                    assert(update_step(s, resumed(a, action_id == "retry"@), now1).state.next_transition_id
                        == s.next_transition_id);
                }
            }
        },
        _ => {},
    }
}

/// A demo download reaches its tenth tick completed and stops there; when
/// the tick's progress is in range and the island is not expanded, the
/// reducer then draws attention and schedules the download's dismissal.
pub proof fn law_demo_download_completes_with_attention(
    s: ActivityStateView,
    id: Seq<char>,
    progress_bits: u64,
    now: u64,
)
    requires
        consistent(s),
        s.activities.contains_key(id),
        s.activities[id].activity.kind == ActivityKind::Download,
        s.activities[id].activity.status == ActivityStatus::Running,
        progress_in_range(progress_bits),
        s.mode != IslandMode::Expanded,
    ensures
        ({
            let tick = demo_tick_of(
                Some(s.activities[id].activity),
                ActivityKind::Download,
                DOWNLOAD_TICKS,
                progress_bits,
            );
            &&& tick matches DemoTickView::Publish { activity, last }
            &&& last
            &&& activity.status == ActivityStatus::Completed
            &&& reduce_step(s, IslandActionView::UpdateActivity(activity), now).state.mode
                == IslandMode::Attention
            &&& reduce_step(s, IslandActionView::UpdateActivity(activity), now).effects.contains(
                IslandEffectView::ScheduleAutoDismiss {
                    activity_id: id,
                    after_ms: AUTO_DISMISS_DELAY_MS,
                },
            )
        }),
{
    let a = s.activities[id].activity;
    let tick = demo_tick_of(Some(a), ActivityKind::Download, DOWNLOAD_TICKS, progress_bits);
    if let DemoTickView::Publish { activity, last } = tick {
        assert(activity.id == id);
        assert(validation(activity) is Ok);
        law_completed_download_draws_attention(s, activity, now);
    }
}


/// Only a completing download draws attention: updating an existing
/// activity of any other kind never changes the mode or the auto-dismiss
/// deadline, never schedules a dismissal, and asks only to publish the
/// snapshot (or nothing, when the update is refused).
pub proof fn law_only_downloads_draw_attention(s: ActivityStateView, a: IslandActivityView, now: u64)
    requires
        s.activities.contains_key(a.id),
        s.activities[a.id].activity.kind != ActivityKind::Download,
    ensures
        ({
            let step = reduce_step(s, IslandActionView::UpdateActivity(a), now);
            &&& step.state.mode == s.mode
            &&& step.state.auto_dismiss_deadline_ms == s.auto_dismiss_deadline_ms
            &&& step.effects == seq![IslandEffectView::PublishSnapshot] || step.effects == Seq::<
                IslandEffectView,
            >::empty()
            &&& forall|i: int|
                0 <= i < step.effects.len() ==> !(#[trigger] step.effects[i] is ScheduleAutoDismiss)
        }),
{
}

/// The "dismiss" and "stop" buttons of an activity do exactly what
/// dismissing it does, whatever the state; afterwards the activity is gone.
pub proof fn law_dismiss_and_stop_buttons_dismiss(s: ActivityStateView, id: Seq<char>, now: u64)
    ensures
        reduce_step(s, IslandActionView::InvokeAction { activity_id: id, action_id: "dismiss"@ }, now)
            == reduce_step(s, IslandActionView::Dismiss(id), now),
        reduce_step(s, IslandActionView::InvokeAction { activity_id: id, action_id: "stop"@ }, now)
            == reduce_step(s, IslandActionView::Dismiss(id), now),
        !reduce_step(
            s,
            IslandActionView::InvokeAction { activity_id: id, action_id: "dismiss"@ },
            now,
        ).state.activities.contains_key(id),
        !reduce_step(
            s,
            IslandActionView::InvokeAction { activity_id: id, action_id: "stop"@ },
            now,
        ).state.activities.contains_key(id),
{
}

/// Whether an activity has failed.
pub open spec fn failed(a: IslandActivityView) -> bool {
    a.status == ActivityStatus::Failed
}

/// `p` may be shown while `o` waits: `o` is not of an earlier category
/// than `p` (failures, then recordings, meetings, running timers, downloads,
/// notifications and other timers), nor of the same category with a
/// higher priority.
pub open spec fn shown_before(p: IslandActivityView, o: IslandActivityView) -> bool {
    &&& failed(o) ==> failed(p)
    &&& (!failed(o) && o.kind == ActivityKind::Recording) ==> failed(p) || p.kind
        == ActivityKind::Recording
    &&& (!failed(o) && o.kind == ActivityKind::Meeting) ==> failed(p) || p.kind
        == ActivityKind::Recording || p.kind == ActivityKind::Meeting
    &&& (!failed(o) && o.kind == ActivityKind::Timer && o.status == ActivityStatus::Running)
        ==> failed(p) || p.kind == ActivityKind::Recording || p.kind == ActivityKind::Meeting || (
    p.kind == ActivityKind::Timer && p.status == ActivityStatus::Running)
    &&& (!failed(o) && o.kind == ActivityKind::Download) ==> failed(p) || (p.kind
        != ActivityKind::Notification && !(p.kind == ActivityKind::Timer && p.status
        != ActivityStatus::Running))
    &&& (!failed(o) && o.kind == ActivityKind::Notification) ==> failed(p) || !(p.kind
        == ActivityKind::Timer && p.status != ActivityStatus::Running)
    &&& (failed(o) == failed(p) && o.kind == p.kind && (o.kind == ActivityKind::Timer ==> (
    o.status == ActivityStatus::Running) == (p.status == ActivityStatus::Running)))
        ==> o.priority <= p.priority
}

/// The primary record is shown before every other record.
pub proof fn law_primary_follows_display_order(
    m: Map<Seq<char>, ActivityRecordView>,
    r: ActivityRecordView,
    k: Seq<char>,
)
    requires
        is_primary(m, r),
        m.contains_key(k),
    ensures
        shown_before(r.activity, m[k].activity),
{
    if k == r.activity.id {
        assert(m[k] == r);
    } else {
        assert(ranks_before(r, m[k]));
    }
}

/// The snapshot's primary activity is shown before every activity of the
/// state: in particular, with no failure present, a recording is chosen
/// over a meeting.
pub proof fn law_snapshot_primary_follows_display_order(s: ActivityStateView, k: Seq<char>)
    requires
        s.activities.contains_key(k),
    ensures
        snapshot_of(s).primary_activity matches Some(p) ==> shown_before(p, s.activities[k].activity),
{
    if let Some(r) = crate::reducer::primary_record(s.activities) {
        law_primary_follows_display_order(s.activities, r, k);
    }
}

} // verus!
