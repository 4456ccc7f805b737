//! The clock widget: it shows either the time or the date, in French.
use vstd::prelude::*;

verus! {

/// What the clock shows.
#[derive(Debug, Clone, Copy, PartialEq, Eq, Structural)]
pub enum State {
    /// The current date.
    Date,
    /// The current time.
    Time,
}

/// A local date and time, as the fields the clock shows.
#[derive(Debug, Clone, Copy, PartialEq, Eq, Structural)]
pub struct LocalTime {
    /// Day of the week, Monday being 0.
    pub weekday: u8,
    /// Month, January being 0.
    pub month0: u8,
    /// Day of the month, the first being 0.
    pub day0: u8,
    pub hour: u8,
    pub minute: u8,
}

impl LocalTime {
    pub open spec fn wf(&self) -> bool {
        self.weekday < 7 && self.month0 < 12 && self.day0 < 31 && self.hour < 24 && self.minute < 60
    }
}

#[derive(Debug, Clone, Copy)]
pub enum ClockMessage {
    Tick(LocalTime),
    ChangeState,
}

pub struct Clock {
    now: LocalTime,
    state: State,
}

impl View for Clock {
    type V = (LocalTime, State);

    closed spec fn view(&self) -> (LocalTime, State) {
        (self.now, self.state)
    }
}

pub open spec fn weekday_name(w: u8) -> Seq<char> {
    match w {
        0 => "Lundi"@,
        1 => "Mardi"@,
        2 => "Mercredi"@,
        3 => "Jeudi"@,
        4 => "Vendredi"@,
        5 => "Samedi"@,
        _ => "Dimanche"@,
    }
}

pub open spec fn month_name(m: u8) -> Seq<char> {
    match m {
        0 => "janvier"@,
        1 => "février"@,
        2 => "mars"@,
        3 => "avril"@,
        4 => "mai"@,
        5 => "juin"@,
        6 => "juillet"@,
        7 => "août"@,
        8 => "septembre"@,
        9 => "octobre"@,
        10 => "novembre"@,
        _ => "décembre"@,
    }
}

/// The decimal digit `d` as a character.
pub open spec fn digit_char(d: nat) -> char {
    ((d + 48) as u8) as char
}

/// `n` in decimal, without leading zeros (`n` below 100).
pub open spec fn decimal_text(n: nat) -> Seq<char> {
    if n < 10 {
        seq![digit_char(n)]
    } else {
        seq![digit_char(n / 10), digit_char(n % 10)]
    }
}

/// `n` in two decimal digits (`n` below 100).
pub open spec fn two_digits(n: nat) -> Seq<char> {
    seq![digit_char(n / 10), digit_char(n % 10)]
}

/// The date as the clock shows it: `Lundi 3 mars`.
pub open spec fn date_text(t: LocalTime) -> Seq<char> {
    weekday_name(t.weekday) + seq![' '] + decimal_text((t.day0 + 1) as nat) + seq![' '] + month_name(
        t.month0,
    )
}

/// The time as the clock shows it: `09:05`.
pub open spec fn time_text(t: LocalTime) -> Seq<char> {
    two_digits(t.hour as nat) + seq![':'] + two_digits(t.minute as nat)
}

fn weekday_str(w: u8) -> (r: &'static str)
    ensures
        r@ == weekday_name(w),
{
    match w {
        0 => "Lundi",
        1 => "Mardi",
        2 => "Mercredi",
        3 => "Jeudi",
        4 => "Vendredi",
        5 => "Samedi",
        _ => "Dimanche",
    }
}

fn month_str(m: u8) -> (r: &'static str)
    ensures
        r@ == month_name(m),
{
    match m {
        0 => "janvier",
        1 => "février",
        2 => "mars",
        3 => "avril",
        4 => "mai",
        5 => "juin",
        6 => "juillet",
        7 => "août",
        8 => "septembre",
        9 => "octobre",
        10 => "novembre",
        _ => "décembre",
    }
}

fn digit_str(d: u8) -> (r: &'static str)
    requires
        d < 10,
    ensures
        r@ == seq![digit_char(d as nat)],
{
    match d {
        0 => {
            proof {
                reveal_strlit("0");
            }
            "0"
        },
        1 => {
            proof {
                reveal_strlit("1");
            }
            "1"
        },
        2 => {
            proof {
                reveal_strlit("2");
            }
            "2"
        },
        3 => {
            proof {
                reveal_strlit("3");
            }
            "3"
        },
        4 => {
            proof {
                reveal_strlit("4");
            }
            "4"
        },
        5 => {
            proof {
                reveal_strlit("5");
            }
            "5"
        },
        6 => {
            proof {
                reveal_strlit("6");
            }
            "6"
        },
        7 => {
            proof {
                reveal_strlit("7");
            }
            "7"
        },
        8 => {
            proof {
                reveal_strlit("8");
            }
            "8"
        },
        _ => {
            proof {
                reveal_strlit("9");
            }
            "9"
        },
    }
}

/// Formats a date as `Lundi 3 mars`.
pub fn format_date(date: LocalTime) -> (r: String)
    requires
        date.wf(),
    ensures
        r@ == date_text(date),
{
    let mut r = String::from_str(weekday_str(date.weekday));
    proof {
        reveal_strlit(" ");
    }
    r.append(" ");
    let day = date.day0 + 1;
    if day >= 10 {
        r.append(digit_str(day / 10));
    }
    r.append(digit_str(day % 10));
    r.append(" ");
    r.append(month_str(date.month0));
    r
}

/// Formats a time as `09:05`.
pub fn format_time(time: LocalTime) -> (r: String)
    requires
        time.wf(),
    ensures
        r@ == time_text(time),
{
    proof {
        reveal_strlit(":");
    }
    let mut r = String::from_str(digit_str(time.hour / 10));
    r.append(digit_str(time.hour % 10));
    r.append(":");
    r.append(digit_str(time.minute / 10));
    r.append(digit_str(time.minute % 10));
    r
}

impl Clock {
    /// A clock showing the time, set to `now`.
    pub fn new(now: LocalTime) -> (r: Self)
        ensures
            r@ == (now, State::Time),
    {
        Clock { now, state: State::Time }
    }

    /// A tick sets the time; a click switches between date and time.
    pub fn update(&mut self, message: ClockMessage)
        ensures
            match message {
                ClockMessage::Tick(t) => final(self)@ == (t, old(self)@.1),
                ClockMessage::ChangeState => final(self)@ == (
                    old(self)@.0,
                    if old(self)@.1 == State::Date {
                        State::Time
                    } else {
                        State::Date
                    },
                ),
            },
    {
        match message {
            ClockMessage::Tick(new_time) => self.now = new_time,
            ClockMessage::ChangeState => {
                match self.state {
                    State::Date => self.state = State::Time,
                    State::Time => self.state = State::Date,
                }
            },
        }
    }

    /// The text the clock shows.
    pub fn label(&self) -> (r: String)
        requires
            self@.0.wf(),
        ensures
            r@ == (if self@.1 == State::Date {
                date_text(self@.0)
            } else {
                time_text(self@.0)
            }),
    {
        match self.state {
            State::Date => format_date(self.now),
            State::Time => format_time(self.now),
        }
    }
}

} // verus!
