//! The battery widget: the charge state read from the power-supply files,
//! and the icon that shows it.
use vstd::prelude::*;

use crate::text::{chars_of, decimal_nat, parse_decimal_capped};

verus! {

#[derive(Debug, Clone, Copy, PartialEq, Eq, Structural)]
pub enum State {
    Charging,
    Discharging,
    Full,
    Empty,
    Other,
}

#[derive(Debug, Clone, Copy, PartialEq, Eq, Structural)]
pub enum BatteryMessage {
    NewState(State, u32),
    Error,
}

pub struct BatteryDisplay {
    state: State,
    percent_charge: u32,
}

impl View for BatteryDisplay {
    type V = (State, u32);

    closed spec fn view(&self) -> (State, u32) {
        (self.state, self.percent_charge)
    }
}

/// The state that a line of the `status` file stands for.
pub open spec fn status_state(status: Seq<char>) -> State {
    if status == seq!['C', 'h', 'a', 'r', 'g', 'i', 'n', 'g'] {
        State::Charging
    } else if status == seq!['D', 'i', 's', 'c', 'h', 'a', 'r', 'g', 'i', 'n', 'g'] {
        State::Discharging
    } else if status == seq!['N', 'o', 't', ' ', 'c', 'h', 'a', 'r', 'g', 'i', 'n', 'g'] || status
        == seq!['F', 'u', 'l', 'l'] {
        State::Full
    } else if status == seq!['E', 'm', 'p', 't', 'y'] {
        State::Empty
    } else {
        State::Other
    }
}

/// The charge that a line of the `capacity` file gives, if it is a
/// number that fits in 32 bits.
pub open spec fn capacity_percent(capacity: Seq<char>) -> Option<u32> {
    match decimal_nat(capacity) {
        Some(n) => if n <= u32::MAX {
            Some(n as u32)
        } else {
            None
        },
        None => None,
    }
}

/// Reads a line of the `status` file.
pub fn state_from_status(status: &str) -> (r: State)
    ensures
        r == status_state(status@),
{
    let v = chars_of(status);
    let n = v.len();
    let charging: [char; 8] = ['C', 'h', 'a', 'r', 'g', 'i', 'n', 'g'];
    let discharging: [char; 11] = ['D', 'i', 's', 'c', 'h', 'a', 'r', 'g', 'i', 'n', 'g'];
    let not_charging: [char; 12] = ['N', 'o', 't', ' ', 'c', 'h', 'a', 'r', 'g', 'i', 'n', 'g'];
    let full: [char; 4] = ['F', 'u', 'l', 'l'];
    let empty: [char; 5] = ['E', 'm', 'p', 't', 'y'];
    assert(charging@ =~= seq!['C', 'h', 'a', 'r', 'g', 'i', 'n', 'g']);
    assert(discharging@ =~= seq!['D', 'i', 's', 'c', 'h', 'a', 'r', 'g', 'i', 'n', 'g']);
    assert(not_charging@ =~= seq!['N', 'o', 't', ' ', 'c', 'h', 'a', 'r', 'g', 'i', 'n', 'g']);
    assert(full@ =~= seq!['F', 'u', 'l', 'l']);
    assert(empty@ =~= seq!['E', 'm', 'p', 't', 'y']);
    assert(v@.subrange(0, n as int) =~= status@);
    if crate::text::segment_is(&v, 0, n, &charging) {
        State::Charging
    } else if crate::text::segment_is(&v, 0, n, &discharging) {
        State::Discharging
    } else if crate::text::segment_is(&v, 0, n, &not_charging) || crate::text::segment_is(
        &v,
        0,
        n,
        &full,
    ) {
        State::Full
    } else if crate::text::segment_is(&v, 0, n, &empty) {
        State::Empty
    } else {
        State::Other
    }
}

/// Reads a line of the `capacity` file.
pub fn percent_from_capacity(capacity: &str) -> (r: Option<u32>)
    ensures
        r == capacity_percent(capacity@),
{
    let v = chars_of(capacity);
    let n = v.len();
    assert(v@.subrange(0, n as int) =~= capacity@);
    match parse_decimal_capped(&v, 0, n, 0x1_0000_0000) {
        Some(x) => if x <= 0xffff_ffff {
            Some(x as u32)
        } else {
            None
        },
        None => None,
    }
}

/// The step of the icon scale for a charge: one step per ten percent up
/// to 10%, 20%, ..., 90%, then 99%, then full.
pub open spec fn charge_step(percent: u32) -> int {
    if percent >= 100 {
        10
    } else if percent <= 10 {
        0
    } else {
        (percent - 1) / 10
    }
}

pub open spec fn charging_icons() -> Seq<char> {
    seq![
        '\u{f089f}', '\u{f089c}', '\u{f0086}', '\u{f0086}',
        '\u{f0088}', '\u{f089d}', '\u{f0089}', '\u{f089e}',
        '\u{f008a}', '\u{f008b}', '\u{f0085}',
    ]
}

pub open spec fn discharging_icons() -> Seq<char> {
    seq![
        '\u{f008e}', '\u{f007a}', '\u{f007b}', '\u{f007c}',
        '\u{f007d}', '\u{f007d}', '\u{f007d}', '\u{f0080}',
        '\u{f0081}', '\u{f0082}', '\u{f0079}',
    ]
}

/// The icon for a state and a charge.
pub open spec fn battery_icon(state: State, percent: u32) -> char {
    match state {
        State::Charging => charging_icons()[charge_step(percent)],
        State::Discharging => discharging_icons()[charge_step(percent)],
        State::Empty => '\u{f008e}',
        State::Full => '\u{f0079}',
        State::Other => '?',
    }
}

impl BatteryDisplay {
    /// The widget for the first lines of the `capacity` and `status` files,
    /// or `None` if the capacity is not a number.
    pub fn new(capacity: &str, status: &str) -> (r: Option<Self>)
        ensures
            match capacity_percent(capacity@) {
                Some(p) => r matches Some(d) && d@ == (status_state(status@), p),
                None => r is None,
            },
    {
        match percent_from_capacity(capacity) {
            Some(percent_charge) => Some(
                BatteryDisplay { state: state_from_status(status), percent_charge },
            ),
            None => None,
        }
    }

    pub fn state(&self) -> (r: State)
        ensures
            r == self@.0,
    {
        self.state
    }

    pub fn percent_charge(&self) -> (r: u32)
        ensures
            r == self@.1,
    {
        self.percent_charge
    }

    /// The icon that shows the current state and charge.
    pub fn icon(&self) -> (r: char)
        ensures
            r == battery_icon(self@.0, self@.1),
    {
        let step: usize = if self.percent_charge >= 100 {
            10
        } else if self.percent_charge <= 10 {
            0
        } else {
            ((self.percent_charge - 1) / 10) as usize
        };
        let charging: [char; 11] = [
            '\u{f089f}', '\u{f089c}', '\u{f0086}', '\u{f0086}',
            '\u{f0088}', '\u{f089d}', '\u{f0089}', '\u{f089e}',
            '\u{f008a}', '\u{f008b}', '\u{f0085}',
        ];
        let discharging: [char; 11] = [
            '\u{f008e}', '\u{f007a}', '\u{f007b}', '\u{f007c}',
            '\u{f007d}', '\u{f007d}', '\u{f007d}', '\u{f0080}',
            '\u{f0081}', '\u{f0082}', '\u{f0079}',
        ];
        assert(charging@ =~= charging_icons());
        assert(discharging@ =~= discharging_icons());
        match self.state {
            State::Charging => charging[step],
            State::Discharging => discharging[step],
            State::Empty => '\u{f008e}',
            State::Full => '\u{f0079}',
            State::Other => '?',
        }
    }

    /// Takes a new reading; an error reading changes nothing.
    pub fn update(&mut self, message: BatteryMessage)
        ensures
            match message {
                BatteryMessage::NewState(state, percent_charge) => final(self)@ == (
                    state,
                    percent_charge,
                ),
                BatteryMessage::Error => final(self)@ == old(self)@,
            },
    {
        if let BatteryMessage::NewState(state, percent_charge) = message {
            self.state = state;
            self.percent_charge = percent_charge;
        }
    }
}

} // verus!
