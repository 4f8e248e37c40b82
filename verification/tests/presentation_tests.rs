use open_island::control::{
    effect_window_op, menu_command, mode_window_op, retry_demo_kind, ActivityError, MenuCommand,
    PlatformError, WindowOp,
};
use open_island::demo::create;
use open_island::model::{ActivityKind, ActivityStatus, IslandMode, IslandSnapshot};
use open_island::presentation::{
    action_class, animation_for, compact_time, format_duration, icon_class, icon_glyph,
    island_aria_label, island_class, island_tab_index, key_response, queue_label,
    shows_progress, stable_animation, subtitle_text, transition_completion, AnimationState,
    KeyResponse,
};
use open_island::reducer::IslandEffect;
use open_island::clock::{epoch_millis, now_ms};

fn snapshot(mode: IslandMode, transition_id: Option<u64>) -> IslandSnapshot {
    IslandSnapshot {
        mode,
        transition_id,
        ..IslandSnapshot::default()
    }
}

#[test]
fn durations_are_minutes_and_padded_seconds() {
    assert_eq!(format_duration(0), "0:00");
    assert_eq!(format_duration(999), "0:00");
    assert_eq!(format_duration(9_000), "0:09");
    assert_eq!(format_duration(60_000), "1:00");
    assert_eq!(format_duration(61_500), "1:01");
    assert_eq!(format_duration(600_000), "10:00");
    assert_eq!(format_duration(3_599_000), "59:59");
    assert_eq!(format_duration(u64::MAX), "307445734561825:51");
}

#[test]
fn compact_time_prefers_remaining() {
    let mut timer = create(ActivityKind::Timer, false, 1);
    assert_eq!(compact_time(&timer), "1:00");
    timer.remaining_ms = None;
    timer.elapsed_ms = Some(12_000);
    assert_eq!(compact_time(&timer), "0:12");
    timer.elapsed_ms = None;
    assert_eq!(compact_time(&timer), "");
}

#[test]
fn animation_follows_mode_changes() {
    assert_eq!(
        animation_for(&snapshot(IslandMode::Compact, None), &snapshot(IslandMode::Hidden, Some(4))),
        AnimationState::Dismissing { transition_id: 4 }
    );
    assert_eq!(
        animation_for(
            &snapshot(IslandMode::Attention, None),
            &snapshot(IslandMode::Expanded, Some(5))
        ),
        AnimationState::Expanding { transition_id: 5 }
    );
    assert_eq!(
        animation_for(
            &snapshot(IslandMode::Expanded, Some(5)),
            &snapshot(IslandMode::Compact, Some(6))
        ),
        AnimationState::Collapsing { transition_id: 6 }
    );
    assert_eq!(
        animation_for(&snapshot(IslandMode::Hidden, None), &snapshot(IslandMode::Compact, None)),
        AnimationState::Compact
    );
    assert_eq!(
        animation_for(
            &snapshot(IslandMode::Expanded, None),
            &snapshot(IslandMode::Expanded, Some(2))
        ),
        AnimationState::Expanded
    );
    assert_eq!(stable_animation(IslandMode::Attention), AnimationState::Compact);
    assert_eq!(stable_animation(IslandMode::Hidden), AnimationState::Hidden);
}

#[test]
fn transition_end_reports_matching_property() {
    assert_eq!(
        transition_completion(AnimationState::Expanding { transition_id: 3 }, "height"),
        Some((3, IslandMode::Expanded, AnimationState::Expanded))
    );
    assert_eq!(
        transition_completion(AnimationState::Expanding { transition_id: 3 }, "width"),
        None
    );
    assert_eq!(
        transition_completion(AnimationState::Collapsing { transition_id: 8 }, "width"),
        Some((8, IslandMode::Compact, AnimationState::Compact))
    );
    assert_eq!(
        transition_completion(AnimationState::Dismissing { transition_id: 9 }, "transform"),
        Some((9, IslandMode::Hidden, AnimationState::Hidden))
    );
    assert_eq!(transition_completion(AnimationState::Compact, "width"), None);
}

#[test]
fn keys_toggle_the_island() {
    assert_eq!(key_response("Enter", IslandMode::Compact), KeyResponse::ActivateWithoutDefault);
    assert_eq!(key_response(" ", IslandMode::Expanded), KeyResponse::ActivateWithoutDefault);
    assert_eq!(key_response("Escape", IslandMode::Expanded), KeyResponse::Activate);
    assert_eq!(key_response("Escape", IslandMode::Compact), KeyResponse::Ignore);
    assert_eq!(key_response("a", IslandMode::Expanded), KeyResponse::Ignore);
}

#[test]
fn island_classes_and_labels() {
    assert_eq!(
        island_class(AnimationState::Compact, IslandMode::Attention, true),
        "island is-compact is-attention has-notch"
    );
    assert_eq!(
        island_class(AnimationState::Expanding { transition_id: 1 }, IslandMode::Expanded, false),
        "island is-expanded is-transitioning"
    );
    assert_eq!(
        island_class(AnimationState::Dismissing { transition_id: 1 }, IslandMode::Hidden, false),
        "island is-dismissing"
    );
    assert_eq!(island_aria_label(IslandMode::Expanded), "Collapse Open Island");
    assert_eq!(island_aria_label(IslandMode::Compact), "Expand Open Island");
    assert_eq!(island_tab_index(IslandMode::Expanded), "0");
    assert_eq!(island_tab_index(IslandMode::Hidden), "-1");
}

#[test]
fn icons_and_classes() {
    assert_eq!(icon_glyph(ActivityKind::Timer, ActivityStatus::Failed), "!");
    assert_eq!(icon_glyph(ActivityKind::Timer, ActivityStatus::Running), "\u{25f7}");
    assert_eq!(icon_glyph(ActivityKind::Download, ActivityStatus::Running), "\u{2193}");
    assert_eq!(
        icon_class(ActivityKind::Recording, ActivityStatus::Running),
        "activity-icon is-recording"
    );
    assert_eq!(
        icon_class(ActivityKind::Recording, ActivityStatus::Failed),
        "activity-icon is-failed"
    );
    assert_eq!(icon_class(ActivityKind::Recording, ActivityStatus::Paused), "activity-icon");
    assert_eq!(action_class(true), "action action--destructive");
    assert_eq!(action_class(false), "action");
    assert!(shows_progress(ActivityKind::Download));
    assert!(shows_progress(ActivityKind::Timer));
    assert!(!shows_progress(ActivityKind::Meeting));
}

#[test]
fn queue_label_only_when_others_wait() {
    assert_eq!(queue_label(0), None);
    assert_eq!(queue_label(1).as_deref(), Some("+1 queued"));
    assert_eq!(queue_label(23).as_deref(), Some("+23 queued"));
    let mut a = create(ActivityKind::Meeting, false, 1);
    assert_eq!(subtitle_text(&a), "Starts in 5 minutes");
    a.subtitle = None;
    assert_eq!(subtitle_text(&a), "");
}

#[test]
fn effects_map_to_window_operations() {
    assert_eq!(mode_window_op(IslandMode::Hidden), WindowOp::Hide);
    assert_eq!(mode_window_op(IslandMode::Expanded), WindowOp::PrepareExpanded);
    assert_eq!(
        effect_window_op(&IslandEffect::ShowWindow, IslandMode::Compact),
        Some(WindowOp::ShowCompact)
    );
    assert_eq!(
        effect_window_op(&IslandEffect::PrepareCompactWindow, IslandMode::Attention),
        Some(WindowOp::ShowAttention)
    );
    assert_eq!(
        effect_window_op(&IslandEffect::PrepareCompactWindow, IslandMode::Compact),
        Some(WindowOp::FinalizeCompact)
    );
    assert_eq!(
        effect_window_op(&IslandEffect::ResignWindowFocus, IslandMode::Compact),
        Some(WindowOp::ResignFocus)
    );
    assert_eq!(effect_window_op(&IslandEffect::PublishSnapshot, IslandMode::Compact), None);
    assert_eq!(
        effect_window_op(
            &IslandEffect::ScheduleAutoDismiss {
                activity_id: "x".into(),
                after_ms: 1
            },
            IslandMode::Compact
        ),
        None
    );
}

#[test]
fn menu_items_map_to_commands() {
    assert_eq!(
        menu_command("demo_failure"),
        Some(MenuCommand::StartDemo {
            kind: ActivityKind::Notification,
            failed: true
        })
    );
    assert_eq!(
        menu_command("demo_timer"),
        Some(MenuCommand::StartDemo {
            kind: ActivityKind::Timer,
            failed: false
        })
    );
    assert_eq!(menu_command("hide"), Some(MenuCommand::HideAll));
    assert_eq!(menu_command("quit"), Some(MenuCommand::Quit));
    assert_eq!(menu_command("other"), None);
}

#[test]
fn retry_restarts_a_demo_of_the_same_kind() {
    let failure = create(ActivityKind::Download, true, 1);
    assert_eq!(retry_demo_kind("retry", Some(&failure)), Some(ActivityKind::Download));
    assert_eq!(retry_demo_kind("retry", None), None);
    assert_eq!(retry_demo_kind("pause", Some(&failure)), None);
}

#[test]
fn error_messages() {
    assert_eq!(
        ActivityError::StateUnavailable.message(),
        "activity state is temporarily unavailable"
    );
    assert_eq!(
        PlatformError::NativeHandle("gone".into()).message(),
        "native window handle is unavailable: gone"
    );
    assert_eq!(
        PlatformError::NotMainThread.message(),
        "operation must run on the main thread"
    );
}

#[test]
fn clock_reads_after_the_epoch() {
    assert!(now_ms() > 1_600_000_000_000);
}

#[test]
fn expansion_reports_the_transition_it_began() {
    let previous = snapshot(IslandMode::Compact, None);
    let next = snapshot(IslandMode::Expanded, Some(11));
    let animation = animation_for(&previous, &next);
    assert_eq!(
        transition_completion(animation, "height"),
        Some((11, IslandMode::Expanded, stable_animation(IslandMode::Expanded)))
    );
    let hidden = snapshot(IslandMode::Hidden, Some(12));
    let animation = animation_for(&next, &hidden);
    assert_eq!(
        transition_completion(animation, "transform"),
        Some((12, IslandMode::Hidden, AnimationState::Hidden))
    );
}

#[test]
fn epoch_millis_truncates_and_defaults_to_zero() {
    assert_eq!(epoch_millis(None), 0);
    assert_eq!(epoch_millis(Some(1_700_000_000_123)), 1_700_000_000_123);
    assert_eq!(epoch_millis(Some((1u128 << 64) + 5)), 5);
}
