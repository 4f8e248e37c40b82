use open_island::model::{
    ActivityAction, ActivityKind, ActivityStatus, IslandActivity, IslandDisplayContext,
    IslandMode, IslandSnapshot, ModelError,
};

fn activity(progress: Option<f64>) -> IslandActivity {
    IslandActivity {
        id: "stable-demo-id".into(),
        kind: ActivityKind::Download,
        title: "Download".into(),
        subtitle: None,
        status: ActivityStatus::Running,
        progress: progress.map(f64::to_bits),
        elapsed_ms: None,
        remaining_ms: None,
        priority: 1,
        dismissible: true,
        actions: vec![],
    }
}

#[test]
fn progress_is_validated() {
    assert!(activity(Some(0.0)).validate().is_ok());
    assert!(activity(Some(1.0)).validate().is_ok());
    assert_eq!(
        activity(Some(1.01)).validate(),
        Err(ModelError::InvalidProgress)
    );
    assert_eq!(
        activity(Some(f64::NAN)).validate(),
        Err(ModelError::InvalidProgress)
    );
}

#[test]
fn progress_range_edges() {
    assert!(activity(None).validate().is_ok());
    assert!(activity(Some(-0.0)).validate().is_ok());
    assert!(activity(Some(0.5)).validate().is_ok());
    assert!(activity(Some(f64::MIN_POSITIVE)).validate().is_ok());
    assert!(activity(Some(1e-310)).validate().is_ok());
    assert_eq!(activity(Some(-1e-310)).validate(), Err(ModelError::InvalidProgress));
    assert_eq!(activity(Some(-0.5)).validate(), Err(ModelError::InvalidProgress));
    assert_eq!(activity(Some(f64::INFINITY)).validate(), Err(ModelError::InvalidProgress));
    assert_eq!(activity(Some(f64::NEG_INFINITY)).validate(), Err(ModelError::InvalidProgress));
    assert_eq!(activity(Some(1.0000000000000002)).validate(), Err(ModelError::InvalidProgress));
}

#[test]
fn blank_identifier_is_refused() {
    let mut a = activity(Some(2.0));
    a.id = "  \t\u{3000} ".into();
    assert_eq!(a.validate(), Err(ModelError::EmptyActivityId));
    a.id = String::new();
    assert_eq!(a.validate(), Err(ModelError::EmptyActivityId));
    a.id = " x ".into();
    assert_eq!(a.validate(), Err(ModelError::InvalidProgress));
    a.progress = None;
    assert_eq!(a.validate(), Ok(()));
}

#[test]
fn model_error_messages() {
    assert_eq!(ModelError::EmptyActivityId.message(), "activity ID cannot be empty");
    assert_eq!(
        ModelError::InvalidProgress.message(),
        "progress must be a finite number between 0 and 1"
    );
}

#[test]
fn clone_keeps_every_field() {
    let mut a = activity(Some(0.25));
    a.subtitle = Some("sub".into());
    a.actions = vec![ActivityAction {
        id: "pause".into(),
        label: "Pause".into(),
        destructive: true,
    }];
    let b = a.clone();
    assert_eq!(b.id, "stable-demo-id");
    assert_eq!(b.subtitle.as_deref(), Some("sub"));
    assert_eq!(b.progress, Some(0.25f64.to_bits()));
    assert_eq!(b.actions.len(), 1);
    assert_eq!(b.actions[0].label, "Pause");
    assert!(b.actions[0].destructive);
}

#[test]
fn snapshot_default_is_hidden_and_empty() {
    let snapshot = IslandSnapshot::default();
    assert_eq!(snapshot.revision, 0);
    assert_eq!(snapshot.mode, IslandMode::Hidden);
    assert!(snapshot.primary_activity.is_none());
    assert_eq!(snapshot.queued_activity_count, 0);
    assert!(snapshot.transition_id.is_none());
    assert_eq!(snapshot.display_context, IslandDisplayContext::default());
    assert!(!snapshot.display_context.has_notch);
    assert_eq!(f64::from_bits(snapshot.display_context.center_exclusion_width), 0.0);
}
