use open_island::model::{
    ActivityAction, ActivityKind, ActivityStatus, IslandActivity, IslandMode,
};
use open_island::reducer::{
    reduce, reduce_at, select_primary, ActivityState, IslandAction, IslandEffect,
};

fn demo(id: &str, kind: ActivityKind, status: ActivityStatus) -> IslandActivity {
    IslandActivity {
        id: id.into(),
        kind,
        title: id.into(),
        subtitle: None,
        status,
        progress: None,
        elapsed_ms: None,
        remaining_ms: None,
        priority: 1,
        dismissible: true,
        actions: vec![ActivityAction {
            id: "dismiss".into(),
            label: "Dismiss".into(),
            destructive: false,
        }],
    }
}

#[test]
fn adding_first_activity_shows_compact() {
    let mut state = ActivityState::default();
    let effects = reduce(
        &mut state,
        IslandAction::AddActivity(demo("timer", ActivityKind::Timer, ActivityStatus::Running)),
    );
    assert_eq!(state.mode, IslandMode::Compact);
    assert!(effects.contains(&IslandEffect::ShowWindow));
}

#[test]
fn higher_category_priority_becomes_primary() {
    let mut state = ActivityState::default();
    reduce(
        &mut state,
        IslandAction::AddActivity(demo(
            "download",
            ActivityKind::Download,
            ActivityStatus::Running,
        )),
    );
    reduce(
        &mut state,
        IslandAction::AddActivity(demo(
            "recording",
            ActivityKind::Recording,
            ActivityStatus::Running,
        )),
    );
    assert_eq!(state.snapshot().primary_activity.unwrap().id, "recording");
}

#[test]
fn stale_animation_completion_is_ignored() {
    let mut state = ActivityState::default();
    reduce(
        &mut state,
        IslandAction::AddActivity(demo("timer", ActivityKind::Timer, ActivityStatus::Running)),
    );
    reduce(&mut state, IslandAction::ToggleExpanded);
    let effects = reduce(
        &mut state,
        IslandAction::AnimationCompleted {
            transition_id: 999,
            final_mode: IslandMode::Expanded,
        },
    );
    assert!(effects.is_empty());
    assert!(state.active_transition_id.is_some());
}

#[test]
fn completed_download_enters_attention() {
    let mut state = ActivityState::default();
    let mut download = demo("download", ActivityKind::Download, ActivityStatus::Running);
    download.progress = Some(0.9f64.to_bits());
    reduce(&mut state, IslandAction::AddActivity(download.clone()));
    download.progress = Some(1.0f64.to_bits());
    download.status = ActivityStatus::Completed;
    reduce(&mut state, IslandAction::UpdateActivity(download));
    assert_eq!(state.mode, IslandMode::Attention);
}

#[test]
fn expanded_activity_does_not_auto_dismiss() {
    let mut state = ActivityState::default();
    reduce(
        &mut state,
        IslandAction::AddActivity(demo(
            "notice",
            ActivityKind::Notification,
            ActivityStatus::Completed,
        )),
    );
    reduce(&mut state, IslandAction::ToggleExpanded);
    reduce(
        &mut state,
        IslandAction::AutoDismissElapsed {
            activity_id: "notice".into(),
        },
    );
    assert!(state.activities.contains_key("notice"));
}

#[test]
fn fresh_state_is_hidden_at_revision_zero() {
    let state = ActivityState::default();
    assert_eq!(state.mode, IslandMode::Hidden);
    assert_eq!(state.revision, 0);
    assert_eq!(state.next_transition_id, 1);
    assert_eq!(state.next_creation_order, 1);
    assert!(state.activities.is_empty());
    assert!(state.last_user_interaction_ms > 0);
    let snapshot = state.snapshot();
    assert!(snapshot.primary_activity.is_none());
    assert_eq!(snapshot.queued_activity_count, 0);
}

#[test]
fn add_effects_and_revision() {
    let mut state = ActivityState::default();
    let effects = reduce_at(
        &mut state,
        IslandAction::AddActivity(demo("a", ActivityKind::Timer, ActivityStatus::Running)),
        5,
    );
    assert_eq!(
        effects,
        vec![
            IslandEffect::PrepareCompactWindow,
            IslandEffect::ShowWindow,
            IslandEffect::PublishSnapshot
        ]
    );
    assert_eq!(state.revision, 1);
    assert_eq!(state.next_creation_order, 2);
    let effects = reduce_at(
        &mut state,
        IslandAction::AddActivity(demo("b", ActivityKind::Meeting, ActivityStatus::Pending)),
        6,
    );
    assert_eq!(effects, vec![IslandEffect::PublishSnapshot]);
    assert_eq!(state.revision, 2);
    assert_eq!(state.activities.len(), 2);
    assert_eq!(state.activities.get("b").unwrap().created_order, 2);
    let snapshot = state.snapshot();
    assert_eq!(snapshot.queued_activity_count, 1);
    assert_eq!(snapshot.primary_activity.unwrap().id, "b");
}

#[test]
fn invalid_activity_is_refused() {
    let mut state = ActivityState::default();
    let mut bad = demo("bad", ActivityKind::Timer, ActivityStatus::Running);
    bad.progress = Some(f64::NAN.to_bits());
    let effects = reduce_at(&mut state, IslandAction::AddActivity(bad), 1);
    assert!(effects.is_empty());
    assert_eq!(state.revision, 0);
    assert_eq!(state.mode, IslandMode::Hidden);
    let blank = demo(" ", ActivityKind::Timer, ActivityStatus::Running);
    assert!(reduce_at(&mut state, IslandAction::AddActivity(blank), 1).is_empty());
    assert!(state.activities.is_empty());
}

#[test]
fn dismissing_last_activity_hides_with_transition() {
    let mut state = ActivityState::default();
    reduce_at(
        &mut state,
        IslandAction::AddActivity(demo("a", ActivityKind::Timer, ActivityStatus::Running)),
        1,
    );
    let effects = reduce_at(&mut state, IslandAction::Dismiss("a".into()), 77);
    assert_eq!(effects, vec![IslandEffect::PublishSnapshot]);
    assert_eq!(state.mode, IslandMode::Hidden);
    assert_eq!(state.active_transition_id, Some(1));
    assert_eq!(state.next_transition_id, 2);
    assert_eq!(state.last_user_interaction_ms, 77);
    assert!(!state.activities.contains_key("a"));
    let before = state.revision;
    assert!(reduce_at(&mut state, IslandAction::Dismiss("a".into()), 78).is_empty());
    assert_eq!(state.revision, before);
    assert_eq!(state.last_user_interaction_ms, 77);
    let effects = reduce_at(
        &mut state,
        IslandAction::AnimationCompleted {
            transition_id: 1,
            final_mode: IslandMode::Hidden,
        },
        79,
    );
    assert_eq!(
        effects,
        vec![IslandEffect::ResignWindowFocus, IslandEffect::HideWindow]
    );
    assert!(state.active_transition_id.is_none());
}

#[test]
fn remove_from_attention_returns_to_compact() {
    let mut state = ActivityState::default();
    let mut download = demo("d", ActivityKind::Download, ActivityStatus::Running);
    reduce_at(&mut state, IslandAction::AddActivity(download.clone()), 1);
    reduce_at(
        &mut state,
        IslandAction::AddActivity(demo("n", ActivityKind::Notification, ActivityStatus::Completed)),
        1,
    );
    download.status = ActivityStatus::Completed;
    let effects = reduce_at(&mut state, IslandAction::UpdateActivity(download), 1000);
    assert_eq!(
        effects,
        vec![
            IslandEffect::PrepareCompactWindow,
            IslandEffect::ScheduleAutoDismiss {
                activity_id: "d".into(),
                after_ms: 4_000
            },
            IslandEffect::PublishSnapshot
        ]
    );
    assert_eq!(state.mode, IslandMode::Attention);
    assert_eq!(state.auto_dismiss_deadline_ms, Some(5_000));
    let effects = reduce_at(&mut state, IslandAction::RemoveActivity("n".into()), 2000);
    assert_eq!(effects, vec![IslandEffect::PublishSnapshot]);
    assert_eq!(state.mode, IslandMode::Compact);
    assert!(state.active_transition_id.is_none());
}

#[test]
fn auto_dismiss_when_compact_removes_activity() {
    let mut state = ActivityState::default();
    reduce_at(
        &mut state,
        IslandAction::AddActivity(demo("n", ActivityKind::Notification, ActivityStatus::Completed)),
        1,
    );
    reduce_at(
        &mut state,
        IslandAction::AutoDismissElapsed {
            activity_id: "n".into(),
        },
        2,
    );
    assert!(state.activities.is_empty());
    assert_eq!(state.mode, IslandMode::Hidden);
}

#[test]
fn update_of_unknown_activity_is_ignored() {
    let mut state = ActivityState::default();
    let effects = reduce_at(
        &mut state,
        IslandAction::UpdateActivity(demo("x", ActivityKind::Timer, ActivityStatus::Running)),
        1,
    );
    assert!(effects.is_empty());
    assert_eq!(state.revision, 0);
}

#[test]
fn hide_all_then_again_changes_nothing() {
    let mut state = ActivityState::default();
    reduce_at(
        &mut state,
        IslandAction::AddActivity(demo("a", ActivityKind::Timer, ActivityStatus::Running)),
        1,
    );
    reduce_at(
        &mut state,
        IslandAction::AddActivity(demo("b", ActivityKind::Timer, ActivityStatus::Running)),
        1,
    );
    let effects = reduce_at(&mut state, IslandAction::HideAll, 2);
    assert_eq!(effects, vec![IslandEffect::PublishSnapshot]);
    assert!(state.activities.is_empty());
    assert_eq!(state.mode, IslandMode::Hidden);
    let revision = state.revision;
    let transition = state.active_transition_id;
    assert!(reduce_at(&mut state, IslandAction::HideAll, 3).is_empty());
    assert_eq!(state.revision, revision);
    assert_eq!(state.active_transition_id, transition);
}

#[test]
fn toggle_twice_returns_to_compact() {
    let mut state = ActivityState::default();
    reduce_at(
        &mut state,
        IslandAction::AddActivity(demo("a", ActivityKind::Timer, ActivityStatus::Running)),
        1,
    );
    let effects = reduce_at(&mut state, IslandAction::ToggleExpanded, 2);
    assert_eq!(
        effects,
        vec![
            IslandEffect::PrepareExpandedWindow,
            IslandEffect::FocusWindow,
            IslandEffect::PublishSnapshot
        ]
    );
    assert_eq!(state.mode, IslandMode::Expanded);
    assert_eq!(state.active_transition_id, Some(1));
    let effects = reduce_at(&mut state, IslandAction::ToggleExpanded, 3);
    assert_eq!(effects, vec![IslandEffect::PublishSnapshot]);
    assert_eq!(state.mode, IslandMode::Compact);
    assert_eq!(state.active_transition_id, Some(2));
    assert_eq!(state.revision, 3);
    assert!(reduce_at(&mut state, IslandAction::Collapse, 4).is_empty());
    let effects = reduce_at(
        &mut state,
        IslandAction::AnimationCompleted {
            transition_id: 2,
            final_mode: IslandMode::Compact,
        },
        5,
    );
    assert_eq!(
        effects,
        vec![IslandEffect::ResignWindowFocus, IslandEffect::PrepareCompactWindow]
    );
}

#[test]
fn toggle_while_hidden_does_nothing_visible() {
    let mut state = ActivityState::default();
    assert!(reduce_at(&mut state, IslandAction::ToggleExpanded, 42).is_empty());
    assert_eq!(state.mode, IslandMode::Hidden);
    assert_eq!(state.revision, 0);
    assert_eq!(state.last_user_interaction_ms, 42);
}

#[test]
fn pause_then_resume_restores_actions() {
    let mut state = ActivityState::default();
    let mut timer = demo("t", ActivityKind::Timer, ActivityStatus::Running);
    timer.progress = Some(0.5f64.to_bits());
    timer.actions.insert(
        0,
        ActivityAction {
            id: "pause".into(),
            label: "Pause".into(),
            destructive: false,
        },
    );
    reduce_at(&mut state, IslandAction::AddActivity(timer), 1);
    reduce_at(
        &mut state,
        IslandAction::InvokeAction {
            activity_id: "t".into(),
            action_id: "pause".into(),
        },
        2,
    );
    {
        let record = state.activities.get("t").unwrap();
        assert_eq!(record.activity.status, ActivityStatus::Paused);
        assert_eq!(record.activity.actions[0].id, "resume");
        assert_eq!(record.activity.actions[0].label, "Resume");
        assert_eq!(record.activity.actions[1].id, "dismiss");
    }
    reduce_at(
        &mut state,
        IslandAction::InvokeAction {
            activity_id: "t".into(),
            action_id: "resume".into(),
        },
        3,
    );
    let record = state.activities.get("t").unwrap();
    assert_eq!(record.activity.status, ActivityStatus::Running);
    assert_eq!(record.activity.actions[0].id, "pause");
    assert_eq!(record.activity.actions[0].label, "Pause");
    assert_eq!(record.activity.progress, Some(0.5f64.to_bits()));
    assert_eq!(record.created_order, 1);
    assert_eq!(state.revision, 3);
}

#[test]
fn retry_restarts_progress_and_stop_dismisses() {
    let mut state = ActivityState::default();
    let mut failed = demo("f", ActivityKind::Download, ActivityStatus::Failed);
    failed.progress = Some(0.7f64.to_bits());
    reduce_at(&mut state, IslandAction::AddActivity(failed), 1);
    reduce_at(
        &mut state,
        IslandAction::InvokeAction {
            activity_id: "f".into(),
            action_id: "retry".into(),
        },
        2,
    );
    let record = state.activities.get("f").unwrap();
    assert_eq!(record.activity.status, ActivityStatus::Running);
    assert_eq!(record.activity.progress, Some(0f64.to_bits()));
    assert!(reduce_at(
        &mut state,
        IslandAction::InvokeAction {
            activity_id: "f".into(),
            action_id: "unknown".into(),
        },
        3,
    )
    .is_empty());
    reduce_at(
        &mut state,
        IslandAction::InvokeAction {
            activity_id: "f".into(),
            action_id: "stop".into(),
        },
        4,
    );
    assert!(state.activities.is_empty());
    assert_eq!(state.mode, IslandMode::Hidden);
}

#[test]
fn primary_order_follows_category_priority_and_age() {
    let mut state = ActivityState::default();
    let mut low = demo("low", ActivityKind::Download, ActivityStatus::Running);
    low.priority = 1;
    let mut high = demo("high", ActivityKind::Download, ActivityStatus::Running);
    high.priority = 9;
    reduce_at(&mut state, IslandAction::AddActivity(low), 1);
    reduce_at(&mut state, IslandAction::AddActivity(high), 1);
    assert_eq!(select_primary(&state.activities).unwrap().activity.id, "high");
    reduce_at(
        &mut state,
        IslandAction::AddActivity(demo("paused-timer", ActivityKind::Timer, ActivityStatus::Paused)),
        1,
    );
    assert_eq!(select_primary(&state.activities).unwrap().activity.id, "high");
    reduce_at(
        &mut state,
        IslandAction::AddActivity(demo("timer", ActivityKind::Timer, ActivityStatus::Running)),
        1,
    );
    assert_eq!(select_primary(&state.activities).unwrap().activity.id, "timer");
    reduce_at(
        &mut state,
        IslandAction::AddActivity(demo("meet", ActivityKind::Meeting, ActivityStatus::Pending)),
        1,
    );
    assert_eq!(select_primary(&state.activities).unwrap().activity.id, "meet");
    reduce_at(
        &mut state,
        IslandAction::AddActivity(demo("fail", ActivityKind::Notification, ActivityStatus::Failed)),
        1,
    );
    assert_eq!(select_primary(&state.activities).unwrap().activity.id, "fail");
    let mut later_fail = demo("a-fail", ActivityKind::Timer, ActivityStatus::Failed);
    later_fail.priority = 1;
    reduce_at(&mut state, IslandAction::AddActivity(later_fail), 1);
    assert_eq!(select_primary(&state.activities).unwrap().activity.id, "fail");
    assert_eq!(state.snapshot().queued_activity_count, 6);
}

#[test]
fn equal_keys_break_ties_by_identifier() {
    let mut state = ActivityState::default();
    state.next_creation_order = u64::MAX;
    reduce_at(
        &mut state,
        IslandAction::AddActivity(demo("zeta", ActivityKind::Download, ActivityStatus::Running)),
        1,
    );
    reduce_at(
        &mut state,
        IslandAction::AddActivity(demo("alpha", ActivityKind::Download, ActivityStatus::Running)),
        1,
    );
    assert_eq!(state.next_creation_order, u64::MAX);
    assert_eq!(select_primary(&state.activities).unwrap().activity.id, "alpha");
}

#[test]
fn re_adding_an_identifier_replaces_it() {
    let mut state = ActivityState::default();
    reduce_at(
        &mut state,
        IslandAction::AddActivity(demo("a", ActivityKind::Timer, ActivityStatus::Running)),
        1,
    );
    reduce_at(
        &mut state,
        IslandAction::AddActivity(demo("a", ActivityKind::Recording, ActivityStatus::Running)),
        1,
    );
    assert_eq!(state.activities.len(), 1);
    let record = state.activities.get("a").unwrap();
    assert_eq!(record.activity.kind, ActivityKind::Recording);
    assert_eq!(record.created_order, 2);
}

#[test]
fn revision_and_transition_counters_saturate() {
    let mut state = ActivityState::default();
    state.revision = u64::MAX;
    state.next_transition_id = u64::MAX;
    reduce_at(
        &mut state,
        IslandAction::AddActivity(demo("a", ActivityKind::Timer, ActivityStatus::Running)),
        1,
    );
    assert_eq!(state.revision, u64::MAX);
    reduce_at(&mut state, IslandAction::ToggleExpanded, 1);
    assert_eq!(state.active_transition_id, Some(u64::MAX));
    assert_eq!(state.next_transition_id, u64::MAX);
}
