//! Demo activities, and how a running demo advances once a second.
use vstd::prelude::*;

use crate::model::{
    actions_view, validation, ActivityAction, ActivityActionView, ActivityKind, ActivityStatus,
    IslandActivity, IslandActivityView, ZERO_PROGRESS_BITS,
};
use crate::text::{decimal, is_white_space, lemma_decimal_injective, push_decimal};

verus! {

/// The name of a kind as it appears in demo identifiers.
pub open spec fn kind_name_of(kind: ActivityKind) -> Seq<char> {
    match kind {
        ActivityKind::Timer => "timer"@,
        ActivityKind::Recording => "recording"@,
        ActivityKind::Download => "download"@,
        ActivityKind::Meeting => "meeting"@,
        ActivityKind::Notification => "notification"@,
    }
}

/// The name of a kind as it appears in demo identifiers.
pub fn kind_name(kind: ActivityKind) -> (r: &'static str)
    ensures
        r@ == kind_name_of(kind),
{
    match kind {
        ActivityKind::Timer => "timer",
        ActivityKind::Recording => "recording",
        ActivityKind::Download => "download",
        ActivityKind::Meeting => "meeting",
        ActivityKind::Notification => "notification",
    }
}

/// The identifier of the demo of `kind` with sequence number `sequence`:
/// `demo-<kind>-<sequence>`.
pub open spec fn demo_id(kind: ActivityKind, sequence: u64) -> Seq<char> {
    "demo-"@ + kind_name_of(kind) + "-"@ + decimal(sequence as nat)
}

pub open spec fn action_view(id: Seq<char>, label: Seq<char>, destructive: bool) -> ActivityActionView {
    ActivityActionView { id, label, destructive }
}

pub open spec fn dismiss_view() -> ActivityActionView {
    action_view("dismiss"@, "Dismiss"@, false)
}

/// The demo activity of `kind` (a failed one for a failed notification)
/// with sequence number `sequence`.
pub open spec fn demo_activity(kind: ActivityKind, failed: bool, sequence: u64) -> IslandActivityView {
    let id = demo_id(kind, sequence);
    match kind {
        ActivityKind::Timer => IslandActivityView {
            id,
            kind,
            title: "Focus timer"@,
            subtitle: Some("One minute demo"@),
            status: ActivityStatus::Running,
            progress: Some(ZERO_PROGRESS_BITS),
            elapsed_ms: Some(0),
            remaining_ms: Some(60_000),
            priority: 40,
            dismissible: true,
            actions: seq![action_view("pause"@, "Pause"@, false), dismiss_view()],
        },
        ActivityKind::Recording => IslandActivityView {
            id,
            kind,
            title: "Recording"@,
            subtitle: Some("Demo only \u{2014} microphone is not used"@),
            status: ActivityStatus::Running,
            progress: None,
            elapsed_ms: Some(0),
            remaining_ms: None,
            priority: 90,
            dismissible: false,
            actions: seq![action_view("stop"@, "Stop"@, true)],
        },
        ActivityKind::Download => IslandActivityView {
            id,
            kind,
            title: "Downloading update"@,
            subtitle: Some("Open Island demo package"@),
            status: ActivityStatus::Running,
            progress: Some(ZERO_PROGRESS_BITS),
            elapsed_ms: Some(0),
            remaining_ms: Some(10_000),
            priority: 30,
            dismissible: true,
            actions: seq![dismiss_view()],
        },
        ActivityKind::Meeting => IslandActivityView {
            id,
            kind,
            title: "Design review"@,
            subtitle: Some("Starts in 5 minutes"@),
            status: ActivityStatus::Pending,
            progress: None,
            elapsed_ms: None,
            remaining_ms: Some(300_000),
            priority: 60,
            dismissible: true,
            actions: seq![dismiss_view()],
        },
        ActivityKind::Notification => if failed {
            IslandActivityView {
                id,
                kind,
                title: "Demo failed"@,
                subtitle: Some("The simulated operation could not finish."@),
                status: ActivityStatus::Failed,
                progress: None,
                elapsed_ms: None,
                remaining_ms: None,
                priority: 100,
                dismissible: true,
                actions: seq![action_view("retry"@, "Retry"@, false), dismiss_view()],
            }
        } else {
            IslandActivityView {
                id,
                kind,
                title: "Open Island is ready"@,
                subtitle: Some("This is a local demo notification."@),
                status: ActivityStatus::Completed,
                progress: None,
                elapsed_ms: None,
                remaining_ms: None,
                priority: 10,
                dismissible: true,
                actions: seq![dismiss_view()],
            }
        },
    }
}

fn action(id: &str, label: &str, destructive: bool) -> (r: ActivityAction)
    ensures
        r@ == action_view(id@, label@, destructive),
{
    ActivityAction { id: String::from_str(id), label: String::from_str(label), destructive }
}

fn one_action(a: ActivityAction) -> (r: Vec<ActivityAction>)
    ensures
        actions_view(r@) == seq![a@],
{
    let mut r = Vec::new();
    r.push(a);
    assert(actions_view(r@) =~= seq![a@]);
    r
}

fn two_actions(a: ActivityAction, b: ActivityAction) -> (r: Vec<ActivityAction>)
    ensures
        actions_view(r@) == seq![a@, b@],
{
    let mut r = Vec::new();
    r.push(a);
    r.push(b);
    assert(actions_view(r@) =~= seq![a@, b@]);
    r
}

/// The identifier of the demo of `kind` with sequence number `sequence`.
fn demo_identifier(kind: ActivityKind, sequence: u64) -> (r: String)
    ensures
        r@ == demo_id(kind, sequence),
{
    let mut id = String::from_str("demo-");
    id.append(kind_name(kind));
    id.append("-");
    push_decimal(&mut id, sequence);
    id
}

/// The demo activity of `kind`, numbered `sequence`; a failed one when a
/// failed notification is asked for.
pub fn create(kind: ActivityKind, failed: bool, sequence: u64) -> (r: IslandActivity)
    ensures
        r@ == demo_activity(kind, failed, sequence),
{
    let id = demo_identifier(kind, sequence);
    let dismiss = action("dismiss", "Dismiss", false);
    match kind {
        ActivityKind::Timer => IslandActivity {
            id,
            kind,
            title: String::from_str("Focus timer"),
            subtitle: Some(String::from_str("One minute demo")),
            status: ActivityStatus::Running,
            progress: Some(ZERO_PROGRESS_BITS),
            elapsed_ms: Some(0),
            remaining_ms: Some(60_000),
            priority: 40,
            dismissible: true,
            actions: two_actions(action("pause", "Pause", false), dismiss),
        },
        ActivityKind::Recording => IslandActivity {
            id,
            kind,
            title: String::from_str("Recording"),
            subtitle: Some(String::from_str("Demo only \u{2014} microphone is not used")),
            status: ActivityStatus::Running,
            progress: None,
            elapsed_ms: Some(0),
            remaining_ms: None,
            priority: 90,
            dismissible: false,
            actions: one_action(action("stop", "Stop", true)),
        },
        ActivityKind::Download => IslandActivity {
            id,
            kind,
            title: String::from_str("Downloading update"),
            subtitle: Some(String::from_str("Open Island demo package")),
            status: ActivityStatus::Running,
            progress: Some(ZERO_PROGRESS_BITS),
            elapsed_ms: Some(0),
            remaining_ms: Some(10_000),
            priority: 30,
            dismissible: true,
            actions: one_action(dismiss),
        },
        ActivityKind::Meeting => IslandActivity {
            id,
            kind,
            title: String::from_str("Design review"),
            subtitle: Some(String::from_str("Starts in 5 minutes")),
            status: ActivityStatus::Pending,
            progress: None,
            elapsed_ms: None,
            remaining_ms: Some(300_000),
            priority: 60,
            dismissible: true,
            actions: one_action(dismiss),
        },
        ActivityKind::Notification => if failed {
            IslandActivity {
                id,
                kind,
                title: String::from_str("Demo failed"),
                subtitle: Some(String::from_str("The simulated operation could not finish.")),
                status: ActivityStatus::Failed,
                progress: None,
                elapsed_ms: None,
                remaining_ms: None,
                priority: 100,
                dismissible: true,
                actions: two_actions(action("retry", "Retry", false), dismiss),
            }
        } else {
            IslandActivity {
                id,
                kind,
                title: String::from_str("Open Island is ready"),
                subtitle: Some(String::from_str("This is a local demo notification.")),
                status: ActivityStatus::Completed,
                progress: None,
                elapsed_ms: None,
                remaining_ms: None,
                priority: 10,
                dismissible: true,
                actions: one_action(dismiss),
            }
        },
    }
}

/// Every demo activity passes validation.
pub proof fn law_demo_activities_are_valid(kind: ActivityKind, failed: bool, sequence: u64)
    ensures
        validation(demo_activity(kind, failed, sequence)) is Ok,
{
    reveal_strlit("demo-");
    let id = demo_id(kind, sequence);
    assert(id[0] == 'd');
    assert(!is_white_space(id[0]));
}

/// Demos of distinct kinds or sequence numbers have distinct identifiers.
pub proof fn law_demo_ids_are_distinct(k1: ActivityKind, s1: u64, k2: ActivityKind, s2: u64)
    requires
        k1 != k2 || s1 != s2,
    ensures
        demo_id(k1, s1) != demo_id(k2, s2),
{
    reveal_strlit("demo-");
    reveal_strlit("-");
    reveal_strlit("timer");
    reveal_strlit("recording");
    reveal_strlit("download");
    reveal_strlit("meeting");
    reveal_strlit("notification");
    let p1 = "demo-"@ + kind_name_of(k1) + "-"@;
    let p2 = "demo-"@ + kind_name_of(k2) + "-"@;
    let d1 = decimal(s1 as nat);
    let d2 = decimal(s2 as nat);
    if k1 != k2 {
        assert(demo_id(k1, s1)[5] == kind_name_of(k1)[0]);
        assert(demo_id(k2, s2)[5] == kind_name_of(k2)[0]);
    } else if demo_id(k1, s1) == demo_id(k2, s2) {
        assert(p1 == p2);
        assert((p1 + d1).skip(p1.len() as int) =~= d1);
        assert((p2 + d2).skip(p2.len() as int) =~= d2);
        lemma_decimal_injective(s1 as nat, s2 as nat);
    }
}

/// Whether demos of `kind` advance with a ticking updater.
pub open spec fn ticks(kind: ActivityKind) -> bool {
    kind == ActivityKind::Timer || kind == ActivityKind::Recording || kind
        == ActivityKind::Download
}

/// Whether demos of `kind` advance with a ticking updater: timers,
/// recordings and downloads do; meetings and notifications stay as created.
pub fn has_updater(kind: ActivityKind) -> (r: bool)
    ensures
        r == ticks(kind),
{
    match kind {
        ActivityKind::Timer | ActivityKind::Recording | ActivityKind::Download => true,
        _ => false,
    }
}

// ---------------------------------------------------------------------------
// A running demo, tick by tick
// ---------------------------------------------------------------------------

/// How many one-second ticks a demo runs for at most.
pub const DEMO_TICKS: u64 = 60u64;

/// How many ticks a demo download takes.
pub const DOWNLOAD_TICKS: u64 = 10u64;

/// What a running demo does at a tick.
#[derive(Debug)]
pub enum DemoTick {
    /// The demo is over.
    Stop,
    /// The activity is paused: wait for the next tick.
    Wait,
    /// Publish the advanced activity; stop afterwards when `last`.
    Publish { activity: IslandActivity, last: bool },
}

pub enum DemoTickView {
    Stop,
    Wait,
    Publish { activity: IslandActivityView, last: bool },
}

impl View for DemoTick {
    type V = DemoTickView;

    open spec fn view(&self) -> DemoTickView {
        match self {
            DemoTick::Stop => DemoTickView::Stop,
            DemoTick::Wait => DemoTickView::Wait,
            DemoTick::Publish { activity, last } => DemoTickView::Publish {
                activity: activity@,
                last: *last,
            },
        }
    }
}

pub open spec fn sat_sub(x: u64, y: u64) -> u64 {
    if x >= y {
        (x - y) as u64
    } else {
        0
    }
}

/// The activity advanced to tick `tick` of its demo: a timer counts a
/// minute down, a recording counts up, a download completes in ten ticks;
/// `progress_bits` is the binary64 progress that the tick reaches.
pub open spec fn advanced(a: IslandActivityView, kind: ActivityKind, tick: u64, progress_bits: u64) -> IslandActivityView {
    match kind {
        ActivityKind::Timer => IslandActivityView {
            elapsed_ms: Some((tick * 1000) as u64),
            remaining_ms: Some(sat_sub(60_000, (tick * 1000) as u64)),
            progress: Some(progress_bits),
            status: if tick == DEMO_TICKS {
                ActivityStatus::Completed
            } else {
                a.status
            },
            ..a
        },
        ActivityKind::Recording => IslandActivityView { elapsed_ms: Some((tick * 1000) as u64), ..a },
        ActivityKind::Download => {
            let dt: u64 = if tick < DOWNLOAD_TICKS {
                tick
            } else {
                DOWNLOAD_TICKS
            };
            IslandActivityView {
                elapsed_ms: Some((dt * 1000) as u64),
                remaining_ms: Some(sat_sub(10_000, (dt * 1000) as u64)),
                progress: Some(progress_bits),
                status: if dt == DOWNLOAD_TICKS {
                    ActivityStatus::Completed
                } else {
                    a.status
                },
                ..a
            }
        },
        _ => a,
    }
}

/// What a demo of `kind` does at tick `tick`, given its current activity.
pub open spec fn demo_tick_of(
    current: Option<IslandActivityView>,
    kind: ActivityKind,
    tick: u64,
    progress_bits: u64,
) -> DemoTickView {
    match current {
        None => DemoTickView::Stop,
        Some(a) => if a.status == ActivityStatus::Paused {
            DemoTickView::Wait
        } else if a.status != ActivityStatus::Running {
            DemoTickView::Stop
        } else {
            DemoTickView::Publish {
                activity: advanced(a, kind, tick, progress_bits),
                last: kind == ActivityKind::Download && tick >= DOWNLOAD_TICKS,
            }
        },
    }
}

/// What a demo of `kind` does at tick `tick` (1 to 60), given its current
/// activity (none once it is gone) and the progress that the tick reaches.
pub fn demo_tick(current: Option<IslandActivity>, kind: ActivityKind, tick: u64, progress_bits: u64) -> (r: DemoTick)
    requires
        1 <= tick <= DEMO_TICKS,
    ensures
        r@ == demo_tick_of(
            match current {
                Some(a) => Some(a@),
                None => None,
            },
            kind,
            tick,
            progress_bits,
        ),
{
    let mut activity = match current {
        Some(a) => a,
        None => return DemoTick::Stop,
    };
    if activity.status == ActivityStatus::Paused {
        return DemoTick::Wait;
    }
    if activity.status != ActivityStatus::Running {
        return DemoTick::Stop;
    }
    match kind {
        ActivityKind::Timer => {
            activity.elapsed_ms = Some(tick * 1000);
            activity.remaining_ms = Some(60_000u64.saturating_sub(tick * 1000));
            activity.progress = Some(progress_bits);
            if tick == DEMO_TICKS {
                activity.status = ActivityStatus::Completed;
            }
        },
        ActivityKind::Recording => {
            activity.elapsed_ms = Some(tick * 1000);
        },
        ActivityKind::Download => {
            let dt = if tick < DOWNLOAD_TICKS {
                tick
            } else {
                DOWNLOAD_TICKS
            };
            activity.elapsed_ms = Some(dt * 1000);
            activity.remaining_ms = Some(10_000u64.saturating_sub(dt * 1000));
            activity.progress = Some(progress_bits);
            if dt == DOWNLOAD_TICKS {
                activity.status = ActivityStatus::Completed;
            }
        },
        _ => {},
    }
    let last = kind == ActivityKind::Download && tick >= DOWNLOAD_TICKS;
    DemoTick::Publish { activity, last }
}


/// What a tick does to a demo: a missing activity or one neither running
/// nor paused ends the demo, a paused one waits, and a running one is
/// published advanced to the tick. The published activity keeps its
/// identity, kind, title and actions; a timer or a download carries exactly
/// the progress given for the tick; a timer has `tick` seconds elapsed and
/// the rest of its minute remaining, completing at the sixtieth tick; a
/// download has `min(tick, 10)` seconds elapsed and the rest of its ten
/// remaining, completing, and ending the demo, at the tenth; a recording
/// counts its elapsed seconds and keeps its progress.
pub proof fn law_demo_tick_advances(
    current: Option<IslandActivityView>,
    kind: ActivityKind,
    tick: u64,
    progress_bits: u64,
)
    requires
        1 <= tick <= DEMO_TICKS,
    ensures
        ({
            let r = demo_tick_of(current, kind, tick, progress_bits);
            &&& current is None ==> r is Stop
            &&& current matches Some(a) ==> {
                &&& a.status == ActivityStatus::Paused ==> r is Wait
                &&& (a.status != ActivityStatus::Paused && a.status != ActivityStatus::Running)
                    ==> r is Stop
                &&& a.status == ActivityStatus::Running ==> (r matches DemoTickView::Publish {
                    activity: b,
                    last,
                } && {
                    &&& b.id == a.id && b.kind == a.kind && b.title == a.title && b.actions
                        == a.actions && b.priority == a.priority
                    &&& last == (kind == ActivityKind::Download && tick >= DOWNLOAD_TICKS)
                    &&& kind == ActivityKind::Timer ==> {
                        &&& b.progress == Some(progress_bits)
                        &&& b.elapsed_ms == Some((tick * 1000) as u64)
                        &&& b.remaining_ms == Some((60_000 - tick * 1000) as u64)
                        &&& (b.status == ActivityStatus::Completed) == (tick == DEMO_TICKS)
                        &&& tick < DEMO_TICKS ==> b.status == ActivityStatus::Running
                    }
                    &&& kind == ActivityKind::Download ==> {
                        &&& b.progress == Some(progress_bits)
                        &&& tick < DOWNLOAD_TICKS ==> {
                            &&& b.elapsed_ms == Some((tick * 1000) as u64)
                            &&& b.remaining_ms == Some((10_000 - tick * 1000) as u64)
                            &&& b.status == ActivityStatus::Running
                        }
                        &&& tick >= DOWNLOAD_TICKS ==> {
                            &&& b.elapsed_ms == Some(10_000u64)
                            &&& b.remaining_ms == Some(0u64)
                            &&& b.status == ActivityStatus::Completed
                        }
                    }
                    &&& kind == ActivityKind::Recording ==> {
                        &&& b.elapsed_ms == Some((tick * 1000) as u64)
                        &&& b.progress == a.progress
                        &&& b.remaining_ms == a.remaining_ms
                        &&& b.status == ActivityStatus::Running
                    }
                    &&& (kind == ActivityKind::Meeting || kind == ActivityKind::Notification)
                        ==> b == a
                })
            }
        }),
{
}

} // verus!
