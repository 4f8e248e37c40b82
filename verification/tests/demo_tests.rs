use open_island::demo::{create, demo_tick, has_updater, kind_name, DemoTick};
use open_island::model::{ActivityKind, ActivityStatus};

#[test]
fn demo_identifiers_name_kind_and_sequence() {
    assert_eq!(create(ActivityKind::Timer, false, 1).id, "demo-timer-1");
    assert_eq!(create(ActivityKind::Recording, false, 42).id, "demo-recording-42");
    assert_eq!(create(ActivityKind::Download, false, 1000).id, "demo-download-1000");
    assert_eq!(create(ActivityKind::Meeting, false, 0).id, "demo-meeting-0");
    assert_eq!(
        create(ActivityKind::Notification, true, u64::MAX).id,
        "demo-notification-18446744073709551615"
    );
}

#[test]
fn kind_names() {
    assert_eq!(kind_name(ActivityKind::Timer), "timer");
    assert_eq!(kind_name(ActivityKind::Recording), "recording");
    assert_eq!(kind_name(ActivityKind::Download), "download");
    assert_eq!(kind_name(ActivityKind::Meeting), "meeting");
    assert_eq!(kind_name(ActivityKind::Notification), "notification");
}

#[test]
fn every_demo_is_valid() {
    for kind in [
        ActivityKind::Timer,
        ActivityKind::Recording,
        ActivityKind::Download,
        ActivityKind::Meeting,
        ActivityKind::Notification,
    ] {
        for failed in [false, true] {
            assert!(create(kind, failed, 7).validate().is_ok());
        }
    }
}

#[test]
fn demo_contents() {
    let timer = create(ActivityKind::Timer, false, 1);
    assert_eq!(timer.title, "Focus timer");
    assert_eq!(timer.status, ActivityStatus::Running);
    assert_eq!(timer.progress, Some(0f64.to_bits()));
    assert_eq!(timer.remaining_ms, Some(60_000));
    assert_eq!(timer.priority, 40);
    assert_eq!(timer.actions.len(), 2);
    assert_eq!(timer.actions[0].id, "pause");
    assert_eq!(timer.actions[1].id, "dismiss");

    let recording = create(ActivityKind::Recording, true, 1);
    assert!(!recording.dismissible);
    assert_eq!(
        recording.subtitle.as_deref(),
        Some("Demo only \u{2014} microphone is not used")
    );
    assert_eq!(recording.actions[0].id, "stop");
    assert!(recording.actions[0].destructive);

    let failure = create(ActivityKind::Notification, true, 3);
    assert_eq!(failure.status, ActivityStatus::Failed);
    assert_eq!(failure.priority, 100);
    assert_eq!(failure.actions[0].label, "Retry");

    let notice = create(ActivityKind::Notification, false, 3);
    assert_eq!(notice.title, "Open Island is ready");
    assert_eq!(notice.status, ActivityStatus::Completed);

    let meeting = create(ActivityKind::Meeting, false, 3);
    assert_eq!(meeting.status, ActivityStatus::Pending);
    assert_eq!(meeting.remaining_ms, Some(300_000));
}

#[test]
fn timer_ticks_count_down_and_complete() {
    let timer = create(ActivityKind::Timer, false, 1);
    match demo_tick(Some(timer.clone()), ActivityKind::Timer, 1, (1.0f64 / 60.0).to_bits()) {
        DemoTick::Publish { activity, last } => {
            assert!(!last);
            assert_eq!(activity.elapsed_ms, Some(1_000));
            assert_eq!(activity.remaining_ms, Some(59_000));
            assert_eq!(activity.status, ActivityStatus::Running);
        }
        other => panic!("unexpected {other:?}"),
    }
    match demo_tick(Some(timer), ActivityKind::Timer, 60, 1.0f64.to_bits()) {
        DemoTick::Publish { activity, last } => {
            assert!(!last);
            assert_eq!(activity.remaining_ms, Some(0));
            assert_eq!(activity.status, ActivityStatus::Completed);
            assert_eq!(activity.progress, Some(1.0f64.to_bits()));
        }
        other => panic!("unexpected {other:?}"),
    }
}

#[test]
fn download_completes_at_ten_ticks_and_stops() {
    let download = create(ActivityKind::Download, false, 1);
    match demo_tick(Some(download.clone()), ActivityKind::Download, 10, 1.0f64.to_bits()) {
        DemoTick::Publish { activity, last } => {
            assert!(last);
            assert_eq!(activity.elapsed_ms, Some(10_000));
            assert_eq!(activity.remaining_ms, Some(0));
            assert_eq!(activity.status, ActivityStatus::Completed);
        }
        other => panic!("unexpected {other:?}"),
    }
    match demo_tick(Some(download), ActivityKind::Download, 4, 0.4f64.to_bits()) {
        DemoTick::Publish { activity, last } => {
            assert!(!last);
            assert_eq!(activity.remaining_ms, Some(6_000));
        }
        other => panic!("unexpected {other:?}"),
    }
}

#[test]
fn paused_waits_and_finished_stops() {
    let mut timer = create(ActivityKind::Timer, false, 1);
    timer.status = ActivityStatus::Paused;
    assert!(matches!(
        demo_tick(Some(timer.clone()), ActivityKind::Timer, 3, 0),
        DemoTick::Wait
    ));
    timer.status = ActivityStatus::Completed;
    assert!(matches!(
        demo_tick(Some(timer), ActivityKind::Timer, 3, 0),
        DemoTick::Stop
    ));
    assert!(matches!(
        demo_tick(None, ActivityKind::Recording, 3, 0),
        DemoTick::Stop
    ));
    let recording = create(ActivityKind::Recording, false, 1);
    match demo_tick(Some(recording), ActivityKind::Recording, 5, 0) {
        DemoTick::Publish { activity, last } => {
            assert!(!last);
            assert_eq!(activity.elapsed_ms, Some(5_000));
            assert!(activity.progress.is_none());
        }
        other => panic!("unexpected {other:?}"),
    }
}

#[test]
fn updaters_run_for_timers_recordings_and_downloads() {
    assert!(has_updater(ActivityKind::Timer));
    assert!(has_updater(ActivityKind::Recording));
    assert!(has_updater(ActivityKind::Download));
    assert!(!has_updater(ActivityKind::Meeting));
    assert!(!has_updater(ActivityKind::Notification));
}

#[test]
fn distinct_sequences_give_distinct_ids() {
    assert_ne!(
        create(ActivityKind::Timer, false, 1).id,
        create(ActivityKind::Timer, false, 11).id
    );
    assert_ne!(
        create(ActivityKind::Timer, false, 1).id,
        create(ActivityKind::Meeting, false, 1).id
    );
}
