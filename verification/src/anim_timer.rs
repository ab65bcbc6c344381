//! The one ticker that drives the animations of all borders.
//!
//! The thread of the ticker asks for its [`TickerStep`] again and again, under the lock that
//! guards the [`TickerState`]; it waits, posts and sleeps outside of it.

use std::collections::HashMap;
use vstd::prelude::*;
use vstd::std_specs::hash::{spec_keys_iter, spec_values_iter};
use vstd::std_specs::iter::IteratorSpec;

verus! {

broadcast use vstd::std_specs::hash::group_hash_axioms;

/// The windows that are animated, each with the time between its frames in milliseconds.
#[derive(Debug)]
pub struct TickerState {
    pub targets: HashMap<isize, u64>,
    /// Whether the ticker is to end.
    pub stop: bool,
}

/// What the thread of the ticker does next.
#[derive(Debug)]
pub enum TickerStep {
    /// Wait until something changes.
    Wait,
    /// End.
    Stop,
    /// Tell each of some windows that it is time for a frame, and sleep for some milliseconds.
    Tick { hwnds: Vec<isize>, interval: u64 },
}

/// A time between frames that can be slept for: at least one millisecond.
pub open spec fn sleepable(interval: u64) -> u64 {
    if interval < 1 {
        1
    } else {
        interval
    }
}

/// Whether `interval` is the shortest time between frames that some window asks for.
pub open spec fn is_shortest(targets: Map<isize, u64>, interval: u64) -> bool {
    &&& exists|hwnd: isize|
        #[trigger] targets.contains_key(hwnd) && interval == sleepable(targets[hwnd])
    &&& forall|hwnd: isize| #[trigger]
        targets.contains_key(hwnd) ==> interval <= sleepable(targets[hwnd])
}

/// The shortest of the values that a walk over the map hands out is the shortest time between
/// frames.
proof fn lemma_shortest(targets: &HashMap<isize, u64>, interval: u64)
    requires
        ({
            let values = spec_values_iter(targets).remaining().unref();
            &&& exists|i: int|
                0 <= i < values.len() && interval == sleepable(#[trigger] values[i])
            &&& forall|i: int|
                0 <= i < values.len() ==> interval <= sleepable(#[trigger] values[i])
        }),
    ensures
        is_shortest(targets@, interval),
{
    let values = spec_values_iter(targets).remaining().unref();
    assert(values.to_set() == targets@.values());
    let i = choose|i: int| 0 <= i < values.len() && interval == sleepable(#[trigger] values[i]);
    assert(values.to_set().contains(values[i]));
    assert(targets@.values().contains(values[i]));
    assert forall|hwnd: isize| #[trigger] targets@.contains_key(hwnd) implies interval
        <= sleepable(targets@[hwnd]) by {
        assert(targets@.values().contains(targets@[hwnd]));
        assert(values.to_set().contains(targets@[hwnd]));
    }
}

impl TickerState {
    /// A ticker that has nothing to animate.
    pub fn new() -> (r: Self)
        ensures
            r.targets@ == Map::<isize, u64>::empty(),
            !r.stop,
    {
        TickerState { targets: HashMap::new(), stop: false }
    }

    /// Animates a window, or gives it another time between frames. A waiting ticker is to be
    /// woken up.
    pub fn register(&mut self, hwnd: isize, interval_ms: u64)
        ensures
            final(self).targets@ == old(self).targets@.insert(hwnd, interval_ms),
            final(self).stop == old(self).stop,
    {
        self.targets.insert(hwnd, interval_ms);
    }

    /// Animates a window no longer.
    pub fn unregister(&mut self, hwnd: isize)
        ensures
            final(self).targets@ == old(self).targets@.remove(hwnd),
            final(self).stop == old(self).stop,
    {
        self.targets.remove(&hwnd);
    }

    /// What the thread of the ticker does next: it ends if it is to; it waits if there is nothing
    /// to animate; otherwise it tells every window once, and sleeps for the shortest time that
    /// any of them asks for.
    pub fn next_step(&self) -> (r: TickerStep)
        ensures
            self.stop <==> r is Stop,
            !self.stop && self.targets@.dom() =~= Set::<isize>::empty() <==> r is Wait,
            r matches TickerStep::Tick { hwnds, interval } ==> {
                &&& hwnds@.no_duplicates()
                &&& forall|hwnd: isize|
                    hwnds@.contains(hwnd) <==> #[trigger] self.targets@.contains_key(hwnd)
                &&& is_shortest(self.targets@, interval)
            },
    {
        if self.stop {
            return TickerStep::Stop;
        }
        let mut hwnds: Vec<isize> = Vec::new();
        for hwnd in keys: self.targets.keys()
            invariant
                hwnds@ =~= keys.seq().take(keys.index() as int).unref(),
        {
            hwnds.push(*hwnd);
        }
        proof {
            let keys = spec_keys_iter(&self.targets).remaining();
            assert(keys.take(keys.len() as int) =~= keys);
            assert(keys.unref().to_set() == self.targets@.dom());
            assert(hwnds@ == keys.unref());
        }
        if hwnds.len() == 0 {
            return TickerStep::Wait;
        }
        let mut interval: Option<u64> = None;
        for value in values: self.targets.values()
            invariant
                interval is None <==> values.index() == 0,
                interval matches Some(least) ==> {
                    &&& exists|i: int|
                        0 <= i < values.index() && least == sleepable(
                            #[trigger] values.seq().unref()[i],
                        )
                    &&& forall|i: int|
                        0 <= i < values.index() ==> least <= sleepable(
                            #[trigger] values.seq().unref()[i],
                        )
                },
        {
            let value: u64 = if *value < 1 {
                1
            } else {
                *value
            };
            interval = match interval {
                Some(least) if least <= value => Some(least),
                _ => Some(value),
            };
        }
        let interval: u64 = interval.unwrap_or(16);
        proof {
            lemma_shortest(&self.targets, interval);
        }
        TickerStep::Tick { hwnds, interval }
    }
}

/// The animation of one window, which lasts from `new` to `close`.
#[derive(Debug, PartialEq, Eq)]
pub struct AnimationTimer {
    pub hwnd: isize,
}

impl AnimationTimer {
    /// Has a window animated.
    pub fn new(ticker: &mut TickerState, hwnd: isize, interval_ms: u64) -> (r: Self)
        ensures
            r.hwnd == hwnd,
            final(ticker).targets@ == old(ticker).targets@.insert(hwnd, interval_ms),
            final(ticker).stop == old(ticker).stop,
    {
        ticker.register(hwnd, interval_ms);
        AnimationTimer { hwnd }
    }

    /// Has the window animated no longer.
    pub fn close(self, ticker: &mut TickerState)
        ensures
            final(ticker).targets@ == old(ticker).targets@.remove(self.hwnd),
            final(ticker).stop == old(ticker).stop,
    {
        ticker.unregister(self.hwnd);
    }
}

/// A timer that is closed leaves the other windows as they were, and its own window is not
/// animated any more, whatever it was before.
pub proof fn a_closed_timer_leaves_no_trace(
    targets: Map<isize, u64>,
    hwnd: isize,
    interval_ms: u64,
)
    ensures
        targets.insert(hwnd, interval_ms).remove(hwnd) == targets.remove(hwnd),
        !targets.contains_key(hwnd) ==> targets.insert(hwnd, interval_ms).remove(hwnd) == targets,
{
    assert(targets.insert(hwnd, interval_ms).remove(hwnd) =~= targets.remove(hwnd));
    if !targets.contains_key(hwnd) {
        assert(targets.remove(hwnd) =~= targets);
    }
}

/// Another animated window never makes the ticker sleep longer.
pub proof fn another_window_shortens_the_interval(
    targets: Map<isize, u64>,
    interval: u64,
    hwnd: isize,
    interval_ms: u64,
    shorter: u64,
)
    requires
        !targets.contains_key(hwnd),
        is_shortest(targets, interval),
        is_shortest(targets.insert(hwnd, interval_ms), shorter),
    ensures
        shorter <= interval,
        shorter == interval || shorter == sleepable(interval_ms),
{
    let more = targets.insert(hwnd, interval_ms);
    let least = choose|h: isize| #[trigger]
        targets.contains_key(h) && interval == sleepable(targets[h]);
    assert(more.contains_key(least) && more[least] == targets[least]);
    let fewer = choose|h: isize| #[trigger]
        more.contains_key(h) && shorter == sleepable(more[h]);
    if fewer != hwnd {
        assert(targets.contains_key(fewer));
    }
}

} // verus!
