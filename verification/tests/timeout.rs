use proa::holistic_timeout::{Elapsed, HolisticTimeout, PollInput, StepResult, TimedEvent};

// Items arriving strictly before the deadline never trigger an early
// elapse, however steadily they trickle in; the deadline then elapses
// exactly once at its fixed point, because it is never renewed.
#[test]
fn deadline_is_not_renewed_by_items() {
    let mut t = HolisticTimeout::new(0, 100);
    assert_eq!(t.deadline, 100);

    // A steady trickle of items, each just under the duration apart: a
    // per-item timeout would never fire, the holistic one still does.
    for now in [90u64, 180, 270] {
        let r = t.poll_step(PollInput::Item(now), now);
        assert!(matches!(r, StepResult::Event(TimedEvent::Item(_))));
    }

    // The next quiet poll reports the deadline: it elapsed at 100 and was
    // never pushed back.
    let r = t.poll_step(PollInput::<u64>::Pending, 271);
    assert!(matches!(r, StepResult::Event(TimedEvent::DeadlineElapsed)));
}

// Before the deadline, a quiet poll yields nothing.
#[test]
fn no_elapse_before_deadline() {
    let mut t = HolisticTimeout::new(50, 100);
    let r = t.poll_step(PollInput::<u64>::Pending, 149);
    assert!(matches!(r, StepResult::Pending));
    let r = t.poll_step(PollInput::<u64>::Pending, 150);
    assert!(matches!(r, StepResult::Event(TimedEvent::DeadlineElapsed)));
}

// The deadline is reported at most once per stretch without an item: no
// double elapse, but forwarding an item re-arms the report.
#[test]
fn elapse_reported_once_per_interval() {
    let mut t = HolisticTimeout::new(0, 10);
    let r = t.poll_step(PollInput::<u64>::Pending, 10);
    assert!(matches!(r, StepResult::Event(TimedEvent::DeadlineElapsed)));

    // No second report without an intervening item.
    let r = t.poll_step(PollInput::<u64>::Pending, 1000);
    assert!(matches!(r, StepResult::Pending));

    // An item is forwarded and re-arms the report.
    let r = t.poll_step(PollInput::Item(7u64), 1001);
    assert!(matches!(r, StepResult::Event(TimedEvent::Item(7))));
    let r = t.poll_step(PollInput::<u64>::Pending, 1002);
    assert!(matches!(r, StepResult::Event(TimedEvent::DeadlineElapsed)));
}

// When the source ends, the combined sequence ends; no deadline report is
// made for an ended source.
#[test]
fn source_completion_ends_sequence() {
    let mut t = HolisticTimeout::new(0, 10);
    let r = t.poll_step(PollInput::<u64>::Ended, 500);
    assert!(matches!(r, StepResult::Completed));
    let r = t.poll_step(PollInput::<u64>::Ended, 1000);
    assert!(matches!(r, StepResult::Completed));
}

// The combined sequence may add one deadline report around each item, so
// the upper bound doubles plus one; the lower bound is passed through.
#[test]
fn size_hint_bounds() {
    let t = HolisticTimeout::new(0, 10);
    assert_eq!(t.size_hint((0, Some(3))), (0, Some(7)));
    assert_eq!(t.size_hint((2, None)), (2, None));
    assert_eq!(t.size_hint((5, Some(0))), (5, Some(1)));
    assert_eq!(t.size_hint((0, Some(usize::MAX))), (0, None));
    assert_eq!(t.size_hint((0, Some(usize::MAX / 2))), (0, Some(usize::MAX)));
}

#[test]
fn elapsed_marker() {
    assert_eq!(Elapsed::new(), Elapsed::new());
}
