//! Network traffic between two looks at the interfaces of the host.

use vstd::prelude::*;
use crate::text_map::TextMap;

verus! {

/// The bytes that one interface has received and transmitted so far.
#[derive(Clone, Debug, PartialEq, Eq)]
pub struct InterfaceReading {
    pub name: String,
    pub received: u64,
    pub transmitted: u64,
}

/// An [`InterfaceReading`] with its name taken by its characters.
pub struct ReadingView {
    pub name: Seq<char>,
    pub received: u64,
    pub transmitted: u64,
}

impl View for InterfaceReading {
    type V = ReadingView;

    open spec fn view(&self) -> ReadingView {
        ReadingView { name: self.name@, received: self.received, transmitted: self.transmitted }
    }
}

impl DeepView for InterfaceReading {
    type V = ReadingView;

    open spec fn deep_view(&self) -> ReadingView {
        self@
    }
}

/// The last reading of each interface: bytes received and transmitted.
pub type Counters = Map<Seq<char>, (u64, u64)>;

/// `now - before`, or zero where the counter has gone back.
pub open spec fn grown_by(now: u64, before: u64) -> nat {
    if now >= before {
        (now - before) as nat
    } else {
        0
    }
}

/// Where a measurement stands: the last reading of each interface, and
/// the bytes received and transmitted since the readings before.
pub struct MeterState {
    pub previous: Counters,
    pub down: nat,
    pub up: nat,
}

/// Takes one more reading into account. An interface read before adds
/// what it has grown by; one read for the first time adds nothing. Either
/// way the reading becomes the last of its interface.
pub open spec fn meter_step(state: MeterState, reading: ReadingView) -> MeterState {
    let known = state.previous.dom().contains(reading.name);
    MeterState {
        previous: state.previous.insert(reading.name, (reading.received, reading.transmitted)),
        down: state.down + if known {
            grown_by(reading.received, state.previous[reading.name].0)
        } else {
            0
        },
        up: state.up + if known {
            grown_by(reading.transmitted, state.previous[reading.name].1)
        } else {
            0
        },
    }
}

/// Where a measurement over `readings` ends that starts from `previous`.
pub open spec fn measured(previous: Counters, readings: Seq<ReadingView>) -> MeterState {
    readings.fold_left(
        MeterState { previous, down: 0, up: 0 },
        |state: MeterState, reading: ReadingView| meter_step(state, reading),
    )
}

/// Remembers the last reading of each interface.
#[derive(Clone, Debug)]
pub struct NetworkMeter {
    pub previous: TextMap<(u64, u64)>,
}

impl NetworkMeter {
    /// A meter that has read nothing yet.
    pub fn new() -> (meter: Self)
        ensures
            meter.previous@ == Map::<Seq<char>, (u64, u64)>::empty(),
    {
        NetworkMeter { previous: TextMap::new() }
    }

    /// Takes the readings of all interfaces and returns the bytes received
    /// and transmitted since the readings before, summed over the
    /// interfaces; nothing is returned where a sum is beyond what a `u64`
    /// holds. The readings are remembered in either case.
    pub fn measure(&mut self, readings: &Vec<InterfaceReading>) -> (r: Option<(u64, u64)>)
        ensures
            final(self).previous@ == measured(old(self).previous@, readings.deep_view()).previous,
            r == {
                let end = measured(old(self).previous@, readings.deep_view());
                if end.down <= u64::MAX && end.up <= u64::MAX {
                    Some((end.down as u64, end.up as u64))
                } else {
                    None
                }
            },
    {
        let ghost all = readings.deep_view();
        let ghost step = |state: MeterState, reading: ReadingView| meter_step(state, reading);
        let ghost start = MeterState { previous: self.previous@, down: 0, up: 0 };
        let mut down: Option<u64> = Some(0);
        let mut up: Option<u64> = Some(0);
        let mut i: usize = 0;
        while i < readings.len()
            invariant
                i <= readings.len(),
                all == readings.deep_view(),
                step == |state: MeterState, reading: ReadingView| meter_step(state, reading),
                start == (MeterState { previous: old(self).previous@, down: 0, up: 0 }),
                self.previous@ == all.take(i as int).fold_left(start, step).previous,
                match down {
                    Some(n) => n == all.take(i as int).fold_left(start, step).down,
                    None => all.take(i as int).fold_left(start, step).down > u64::MAX,
                },
                match up {
                    Some(n) => n == all.take(i as int).fold_left(start, step).up,
                    None => all.take(i as int).fold_left(start, step).up > u64::MAX,
                },
            decreases readings.len() - i,
        {
            proof {
                assert(all.take(i + 1).drop_last() =~= all.take(i as int));
            }
            let reading = &readings[i];
            let (more_down, more_up) = match self.previous.get(reading.name.as_str()) {
                Some(before) => (
                    reading.received.saturating_sub(before.0),
                    reading.transmitted.saturating_sub(before.1),
                ),
                None => (0, 0),
            };
            down = match down {
                Some(n) => n.checked_add(more_down),
                None => None,
            };
            up = match up {
                Some(n) => n.checked_add(more_up),
                None => None,
            };
            self.previous.insert(reading.name.clone(), (reading.received, reading.transmitted));
            i += 1;
        }
        match (down, up) {
            (Some(d), Some(u)) => Some((d, u)),
            _ => None,
        }
    }
}

} // verus!
