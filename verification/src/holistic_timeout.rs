//! A holistic timeout over an event sequence: one deadline, fixed at
//! construction time, bounds the whole sequence instead of being renewed per
//! item.
//!
//! The machine is driven by a single polling caller. Each poll reports what
//! the underlying source did (an item, the end of the source, or nothing
//! yet) together with the current time; the machine answers with the event
//! to deliver. Forwarding an item re-arms the "deadline still needs
//! reporting" flag but never moves the deadline itself, so a steady trickle
//! of items cannot postpone it: the deadline elapses once, at the fixed
//! point set at construction, and is reported at most once per stretch of
//! polls without an intervening item. After the source has ended, no
//! further deadline report is made.

use vstd::prelude::*;

verus! {

/// An event produced by the holistic timeout: either a forwarded source
/// item or the report that the deadline has elapsed.
#[derive(Clone, Copy, Debug, PartialEq, Eq)]
pub enum TimedEvent<T> {
    Item(T),
    DeadlineElapsed,
}

/// What the underlying source did during one poll.
#[derive(Clone, Copy, Debug, PartialEq, Eq)]
pub enum PollInput<T> {
    /// The source produced an item.
    Item(T),
    /// The source completed; it will produce nothing further.
    Ended,
    /// The source has nothing yet.
    Pending,
}

/// What the combined sequence yields for one poll.
#[derive(Clone, Copy, Debug, PartialEq, Eq)]
pub enum StepResult<T> {
    /// An event of the combined sequence: an item or a deadline report.
    Event(TimedEvent<T>),
    /// The combined sequence has ended, because the source has.
    Completed,
    /// Nothing yet; poll again.
    Pending,
}

/// The marker reported when the deadline elapses.
#[derive(Debug, PartialEq, Eq)]
pub struct Elapsed(());

impl Elapsed {
    pub fn new() -> Elapsed {
        Elapsed(())
    }
}

/// The holistic timeout state: the fixed deadline and whether an elapse
/// still needs reporting. Times are plain ticks (e.g. milliseconds) on
/// whatever clock the caller polls with.
#[derive(Clone, Copy, Debug, PartialEq, Eq, Structural)]
pub struct HolisticTimeout {
    /// The point in time after which the deadline counts as elapsed;
    /// computed once, at construction, and never renewed.
    pub deadline: u64,
    /// Whether an elapsed deadline still needs reporting. Forwarding an
    /// item sets this again; reporting the elapse clears it.
    pub poll_deadline: bool,
}

/// The state of a machine freshly constructed at `now` with duration `d`.
pub open spec fn initial_state(now: u64, d: u64) -> HolisticTimeout {
    HolisticTimeout { deadline: (now + d) as u64, poll_deadline: true }
}

/// The state after one poll step.
pub open spec fn step_state<T>(pre: HolisticTimeout, input: PollInput<T>, now: u64) -> HolisticTimeout {
    match input {
        PollInput::Item(_) => HolisticTimeout { poll_deadline: true, ..pre },
        PollInput::Ended => pre,
        PollInput::Pending => if pre.poll_deadline && now >= pre.deadline {
            HolisticTimeout { poll_deadline: false, ..pre }
        } else {
            pre
        },
    }
}

/// The event yielded by one poll step.
pub open spec fn step_output<T>(pre: HolisticTimeout, input: PollInput<T>, now: u64) -> StepResult<T> {
    match input {
        PollInput::Item(x) => StepResult::Event(TimedEvent::Item(x)),
        PollInput::Ended => StepResult::Completed,
        PollInput::Pending => if pre.poll_deadline && now >= pre.deadline {
            StepResult::Event(TimedEvent::DeadlineElapsed)
        } else {
            StepResult::Pending
        },
    }
}

impl HolisticTimeout {
    /// Creates the timeout with its single deadline, `now + duration`. The
    /// deadline is never reset or extended afterwards.
    pub fn new(now: u64, duration: u64) -> (s: HolisticTimeout)
        requires
            now + duration <= u64::MAX,
        ensures
            s == initial_state(now, duration),
            s.deadline == now + duration,
            s.poll_deadline,
    {
        HolisticTimeout { deadline: now + duration, poll_deadline: true }
    }

    /// Advances the machine by one poll: `input` is what the source did,
    /// `now` the current time. Returns the event the combined sequence
    /// yields, if any.
    ///
    /// An item is always forwarded and re-arms the deadline report; the end
    /// of the source ends the combined sequence; otherwise the deadline is
    /// reported exactly when it has elapsed and is still armed.
    pub fn poll_step<T>(&mut self, input: PollInput<T>, now: u64) -> (r: StepResult<T>)
        ensures
            *final(self) == step_state(*old(self), input, now),
            r == step_output::<T>(*old(self), input, now),
            final(self).deadline == old(self).deadline,
            r == StepResult::<T>::Event(TimedEvent::DeadlineElapsed) ==> now >= old(self).deadline,
    {
        match input {
            PollInput::Item(x) => {
                self.poll_deadline = true;
                StepResult::Event(TimedEvent::Item(x))
            },
            PollInput::Ended => StepResult::Completed,
            PollInput::Pending => {
                if self.poll_deadline && now >= self.deadline {
                    self.poll_deadline = false;
                    StepResult::Event(TimedEvent::DeadlineElapsed)
                } else {
                    StepResult::Pending
                }
            },
        }
    }

    /// Bounds for the combined sequence, from the source's own bounds: the
    /// timeout may insert one deadline report before and after each source
    /// item, but never two in a row, so the upper bound is `2 * upper + 1`.
    pub fn size_hint(&self, source: (usize, Option<usize>)) -> (r: (usize, Option<usize>))
        ensures
            r.0 == source.0,
            r.1 == spec_twice_plus_one(source.1),
    {
        let upper = match source.1 {
            Some(u) => {
                match u.checked_mul(2) {
                    Some(d) => d.checked_add(1),
                    None => None,
                }
            },
            None => None,
        };
        (source.0, upper)
    }
}

/// `2 * u + 1` when that fits in `usize`.
pub open spec fn spec_twice_plus_one(u: Option<usize>) -> Option<usize> {
    match u {
        Some(v) => if 2 * v + 1 <= usize::MAX {
            Some((2 * v + 1) as usize)
        } else {
            None
        },
        None => None,
    }
}

/// The state after a whole run of poll steps, each a pair of source input
/// and poll time.
pub open spec fn run_state<T>(init: HolisticTimeout, steps: Seq<(PollInput<T>, u64)>) -> HolisticTimeout
    decreases steps.len(),
{
    if steps.len() == 0 {
        init
    } else {
        step_state(run_state(init, steps.drop_last()), steps.last().0, steps.last().1)
    }
}

/// The event yielded by step `i` of a run.
pub open spec fn output_at<T>(init: HolisticTimeout, steps: Seq<(PollInput<T>, u64)>, i: int) -> StepResult<T> {
    step_output(run_state(init, steps.take(i)), steps[i].0, steps[i].1)
}

/// No run of poll steps ever moves the deadline.
pub proof fn lemma_run_keeps_deadline<T>(init: HolisticTimeout, steps: Seq<(PollInput<T>, u64)>)
    ensures
        run_state(init, steps).deadline == init.deadline,
    decreases steps.len(),
{
    if steps.len() > 0 {
        lemma_run_keeps_deadline(init, steps.drop_last());
    }
}

/// A machine constructed at `now` with duration `d` never reports the
/// deadline at a poll made before `now + d`: items arriving earlier, however
/// many, never trigger an early elapse, because the deadline is computed
/// once and never renewed.
pub proof fn lemma_no_early_elapse<T>(now: u64, d: u64, steps: Seq<(PollInput<T>, u64)>, i: int)
    requires
        now + d <= u64::MAX,
        0 <= i < steps.len(),
        output_at(initial_state(now, d), steps, i) == StepResult::<T>::Event(
            TimedEvent::DeadlineElapsed,
        ),
    ensures
        steps[i].1 >= now + d,
{
    lemma_run_keeps_deadline(initial_state(now, d), steps.take(i));
    let pre = run_state(initial_state(now, d), steps.take(i));
    assert(pre.deadline == now + d);
    match steps[i].0 {
        PollInput::Item(_) => assert(false),
        PollInput::Ended => assert(false),
        PollInput::Pending => {},
    }
}

/// From a state whose deadline report is disarmed, a stretch of polls
/// without a source item keeps it disarmed.
proof fn lemma_stays_disarmed<T>(init: HolisticTimeout, steps: Seq<(PollInput<T>, u64)>, i: int, j: int)
    requires
        0 <= i <= j <= steps.len(),
        !run_state(init, steps.take(i)).poll_deadline,
        forall|k: int| i <= k < j ==> !(#[trigger] steps[k].0 is Item),
    ensures
        !run_state(init, steps.take(j)).poll_deadline,
    decreases j - i,
{
    if i < j {
        lemma_stays_disarmed(init, steps, i, j - 1);
        assert(steps.take(j).drop_last() =~= steps.take(j - 1));
        assert(steps.take(j).last() == steps[j - 1]);
    }
}

/// The deadline is reported at most once per stretch of polls without an
/// intervening item: two deadline reports always have a forwarded source
/// item strictly between them.
pub proof fn lemma_no_double_elapse<T>(
    init: HolisticTimeout,
    steps: Seq<(PollInput<T>, u64)>,
    i: int,
    j: int,
)
    requires
        0 <= i < j < steps.len(),
        output_at(init, steps, i) == StepResult::<T>::Event(TimedEvent::DeadlineElapsed),
        output_at(init, steps, j) == StepResult::<T>::Event(TimedEvent::DeadlineElapsed),
    ensures
        exists|k: int| i < k < j && (#[trigger] steps[k].0 is Item),
{
    if !(exists|k: int| i < k < j && (#[trigger] steps[k].0 is Item)) {
        let pre_i = run_state(init, steps.take(i));
        match steps[i].0 {
            PollInput::Item(_) => assert(false),
            PollInput::Ended => assert(false),
            PollInput::Pending => {},
        }
        assert(steps.take(i + 1).drop_last() =~= steps.take(i));
        assert(steps.take(i + 1).last() == steps[i]);
        assert(!run_state(init, steps.take(i + 1)).poll_deadline);
        lemma_stays_disarmed(init, steps, i + 1, j);
        match steps[j].0 {
            PollInput::Item(_) => assert(false),
            PollInput::Ended => assert(false),
            PollInput::Pending => {
                assert(output_at(init, steps, j) == StepResult::<T>::Pending);
            },
        }
    }
}

} // verus!
