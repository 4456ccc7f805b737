//! The compositor's event socket: decoding one line of its protocol, and the
//! state machine that turns what the socket delivers into a stream of events.
use vstd::prelude::*;

use super::{HyprlandCommunicationError, ErrorKind, NUM_WORKSPACES};
use crate::text::{
    chars_of, decimal_nat, find_arrow, find_arrow_in, find_char_in, hex_u64, nth_field,
    parse_decimal_capped, parse_hex_u64, segment_is,
};

verus! {

/// An event, as communicated by the compositor through the socket.
/// Workspaces are zero-based.
#[derive(Debug, Clone, Copy, PartialEq, Eq, Structural)]
pub enum HyprlandWorkspaceEvent {
    /// Nothing to do.
    Noop,
    ChangeActiveWorkspace { new_workspace_id: usize },
    OpenWindow { window_address: u64, workspace_id: usize },
    CloseWindow { window_address: u64 },
    MoveWindow { window_address: u64, new_workspace_id: usize },
    /// The stream has failed for good. It carries no detail: the receiver
    /// only needs to know that the workspaces are unavailable.
    Error,
}

/// The zero-based workspace that a one-based workspace name designates, if
/// it is a number in `1..=NUM_WORKSPACES`.
pub open spec fn workspace_index(name: Seq<char>) -> Option<usize> {
    match decimal_nat(name) {
        Some(n) => if 1 <= n <= NUM_WORKSPACES {
            Some((n - 1) as usize)
        } else {
            None
        },
        None => None,
    }
}

/// The event name: what comes before the first `>>`.
pub open spec fn event_name(line: Seq<char>) -> Seq<char> {
    line.subrange(0, find_arrow(line, 0))
}

/// The argument list: what lies between the first `>>` and the next one,
/// empty when the line has no `>>`.
pub open spec fn event_args(line: Seq<char>) -> Seq<char> {
    let p = find_arrow(line, 0);
    if p >= line.len() {
        Seq::empty()
    } else {
        let rest = line.subrange(p + 2, line.len() as int);
        rest.subrange(0, find_arrow(rest, 0))
    }
}

/// The `k`-th argument (counting from zero), if there is one. An empty
/// argument list, whether the line has no `>>` or nothing after it, holds
/// no argument at all; otherwise the list is split on `,`.
pub open spec fn event_field(line: Seq<char>, k: nat) -> Option<Seq<char>> {
    if event_args(line).len() == 0 {
        None
    } else {
        nth_field(event_args(line), k)
    }
}

pub open spec fn workspace_word() -> Seq<char> {
    seq!['w', 'o', 'r', 'k', 's', 'p', 'a', 'c', 'e']
}

pub open spec fn openwindow_word() -> Seq<char> {
    seq!['o', 'p', 'e', 'n', 'w', 'i', 'n', 'd', 'o', 'w']
}

pub open spec fn closewindow_word() -> Seq<char> {
    seq!['c', 'l', 'o', 's', 'e', 'w', 'i', 'n', 'd', 'o', 'w']
}

pub open spec fn movewindow_word() -> Seq<char> {
    seq!['m', 'o', 'v', 'e', 'w', 'i', 'n', 'd', 'o', 'w']
}

/// What a line of the event socket means: an event, `None` for an event
/// that is not tracked, or the kind of failure. A known event without its
/// first argument fails with `EventArgsParsingError`. Of the other
/// arguments, the address is read before the workspace for every event but
/// `openwindow`, which first checks that both are present.
pub open spec fn line_event(line: Seq<char>) -> Result<Option<HyprlandWorkspaceEvent>, ErrorKind> {
    let name = event_name(line);
    let first = event_field(line, 0).unwrap();
    let known = name == workspace_word() || name == openwindow_word() || name
        == closewindow_word() || name == movewindow_word();
    if known && event_field(line, 0) is None {
        Err(ErrorKind::EventArgsParsingError)
    } else if name == workspace_word() {
        match workspace_index(first) {
            Some(w) => Ok(Some(HyprlandWorkspaceEvent::ChangeActiveWorkspace { new_workspace_id: w })),
            None => Err(ErrorKind::EventArgsParsingError),
        }
    } else if name == openwindow_word() {
        match event_field(line, 1) {
            None => Err(ErrorKind::EventArgsParsingError),
            Some(second) => match hex_u64(first) {
                None => Err(ErrorKind::WindowAddressParsingError),
                Some(a) => match workspace_index(second) {
                    Some(w) => Ok(
                        Some(HyprlandWorkspaceEvent::OpenWindow { window_address: a, workspace_id: w }),
                    ),
                    None => Err(ErrorKind::EventArgsParsingError),
                },
            },
        }
    } else if name == closewindow_word() {
        match hex_u64(first) {
            None => Err(ErrorKind::WindowAddressParsingError),
            Some(a) => Ok(Some(HyprlandWorkspaceEvent::CloseWindow { window_address: a })),
        }
    } else if name == movewindow_word() {
        match hex_u64(first) {
            None => Err(ErrorKind::WindowAddressParsingError),
            Some(a) => match event_field(line, 1) {
                None => Err(ErrorKind::EventArgsParsingError),
                Some(second) => match workspace_index(second) {
                    Some(w) => Ok(
                        Some(
                            HyprlandWorkspaceEvent::MoveWindow {
                                window_address: a,
                                new_workspace_id: w,
                            },
                        ),
                    ),
                    None => Err(ErrorKind::EventArgsParsingError),
                },
            },
        }
    } else {
        Ok(None)
    }
}

/// What the text fields of a failure to decode `line` hold.
pub open spec fn line_error_fields(line: Seq<char>, e: HyprlandCommunicationError) -> bool {
    match e {
        HyprlandCommunicationError::EventArgsParsingError { event, args } => event@ == line && args@
            == event_args(line),
        HyprlandCommunicationError::WindowAddressParsingError { command, address } => command@
            == line && address@ == event_field(line, 0).unwrap(),
        _ => false,
    }
}

/// Reads the one-based workspace name `v[lo..hi]` as a zero-based workspace.
fn workspace_name_to_id(v: &Vec<char>, lo: usize, hi: usize) -> (r: Option<usize>)
    requires
        lo <= hi <= v@.len(),
    ensures
        r == workspace_index(v@.subrange(lo as int, hi as int)),
{
    match parse_decimal_capped(v, lo, hi, 11) {
        Some(n) => if 1 <= n && n <= 10 {
            Some((n - 1) as usize)
        } else {
            None
        },
        None => None,
    }
}

fn args_error(line: &str, lo: usize, hi: usize) -> (e: HyprlandCommunicationError)
    requires
        lo <= hi <= line@.len(),
    ensures
        e matches HyprlandCommunicationError::EventArgsParsingError { event, args } && event@
            == line@ && args@ == line@.subrange(lo as int, hi as int),
{
    HyprlandCommunicationError::EventArgsParsingError {
        event: line.to_owned(),
        args: line.substring_char(lo, hi).to_owned(),
    }
}

fn address_error(line: &str, lo: usize, hi: usize) -> (e: HyprlandCommunicationError)
    requires
        lo <= hi <= line@.len(),
    ensures
        e matches HyprlandCommunicationError::WindowAddressParsingError { command, address }
            && command@ == line@ && address@ == line@.subrange(lo as int, hi as int),
{
    HyprlandCommunicationError::WindowAddressParsingError {
        command: line.to_owned(),
        address: line.substring_char(lo, hi).to_owned(),
    }
}

/// Decodes one line of the event socket: `NAME>>ARG,ARG...`. Events that
/// are not tracked give `Ok(None)` rather than `Noop`, so that nothing is
/// sent on for them.
pub fn parse_hyprland_event(line: &str) -> (r: Result<
    Option<HyprlandWorkspaceEvent>,
    HyprlandCommunicationError,
>)
    ensures
        match r {
            Ok(ev) => line_event(line@) == Ok::<_, ErrorKind>(ev),
            Err(e) => line_event(line@) == Err::<Option<HyprlandWorkspaceEvent>, _>(e.spec_kind())
                && line_error_fields(line@, e),
        },
{
    let v = chars_of(line);
    let n = v.len();
    assert(v@.subrange(0, n as int) =~= v@);
    let p = find_arrow_in(&v, 0, n);
    let mut alo = n;
    let mut ahi = n;
    if p < n {
        assert(p + 1 < n) by {
            crate::text::lemma_find_arrow_bounds(v@, 0);
        }
        alo = p + 2;
        ahi = find_arrow_in(&v, alo, n);
    }
    let ghost args = event_args(line@);
    assert(args =~= v@.subrange(alo as int, ahi as int));
    let c0 = find_char_in(&v, ',', alo, ahi);
    let ghost first = v@.subrange(alo as int, c0 as int);
    assert(nth_field(args, 0) == Some(first)) by {
        assert(args.subrange(0, c0 - alo) =~= first);
    }
    let has_first = alo < ahi;
    let has_second = c0 < ahi;
    let mut c1 = ahi;
    if has_second {
        c1 = find_char_in(&v, ',', c0 + 1, ahi);
    }
    proof {
        reveal_with_fuel(nth_field, 2);
        if has_second {
            let rest = args.subrange(c0 - alo + 1, args.len() as int);
            assert(rest =~= v@.subrange(c0 + 1, ahi as int));
            assert(rest.subrange(0, c1 - (c0 + 1)) =~= v@.subrange(c0 + 1, c1 as int));
            assert(nth_field(args, 1) == Some(v@.subrange(c0 + 1, c1 as int)));
        } else {
            assert(nth_field(args, 1) is None);
        }
    }
    let ws: [char; 9] = ['w', 'o', 'r', 'k', 's', 'p', 'a', 'c', 'e'];
    let ow: [char; 10] = ['o', 'p', 'e', 'n', 'w', 'i', 'n', 'd', 'o', 'w'];
    let cw: [char; 11] = ['c', 'l', 'o', 's', 'e', 'w', 'i', 'n', 'd', 'o', 'w'];
    let mw: [char; 10] = ['m', 'o', 'v', 'e', 'w', 'i', 'n', 'd', 'o', 'w'];
    assert(ws@ =~= workspace_word());
    assert(ow@ =~= openwindow_word());
    assert(cw@ =~= closewindow_word());
    assert(mw@ =~= movewindow_word());
    assert(event_name(line@) =~= v@.subrange(0, p as int));
    let known = segment_is(&v, 0, p, &ws) || segment_is(&v, 0, p, &ow) || segment_is(
        &v,
        0,
        p,
        &cw,
    ) || segment_is(&v, 0, p, &mw);
    if known && !has_first {
        return Err(args_error(line, alo, ahi));
    }
    if segment_is(&v, 0, p, &ws) {
        match workspace_name_to_id(&v, alo, c0) {
            Some(w) => Ok(Some(HyprlandWorkspaceEvent::ChangeActiveWorkspace { new_workspace_id: w })),
            None => Err(args_error(line, alo, ahi)),
        }
    } else if segment_is(&v, 0, p, &ow) {
        if !has_second {
            return Err(args_error(line, alo, ahi));
        }
        match parse_hex_u64(&v, alo, c0) {
            None => Err(address_error(line, alo, c0)),
            Some(a) => match workspace_name_to_id(&v, c0 + 1, c1) {
                Some(w) => Ok(
                    Some(HyprlandWorkspaceEvent::OpenWindow { window_address: a, workspace_id: w }),
                ),
                None => Err(args_error(line, alo, ahi)),
            },
        }
    } else if segment_is(&v, 0, p, &cw) {
        match parse_hex_u64(&v, alo, c0) {
            None => Err(address_error(line, alo, c0)),
            Some(a) => Ok(Some(HyprlandWorkspaceEvent::CloseWindow { window_address: a })),
        }
    } else if segment_is(&v, 0, p, &mw) {
        match parse_hex_u64(&v, alo, c0) {
            None => Err(address_error(line, alo, c0)),
            Some(a) => {
                if !has_second {
                    return Err(args_error(line, alo, ahi));
                }
                match workspace_name_to_id(&v, c0 + 1, c1) {
                    Some(w) => Ok(
                        Some(
                            HyprlandWorkspaceEvent::MoveWindow {
                                window_address: a,
                                new_workspace_id: w,
                            },
                        ),
                    ),
                    None => Err(args_error(line, alo, ahi)),
                }
            },
        }
    } else {
        Ok(None)
    }
}

/// Where the event stream stands. `Error` is final: nothing comes out of
/// the stream after it.
#[derive(Debug, Clone, Copy, PartialEq, Eq, Structural)]
pub enum SubscriptionState {
    /// The socket is not open yet.
    Starting,
    /// The socket is open and lines are read from it.
    Ongoing,
    /// The stream has failed.
    Error,
}

/// What the socket side reports to the stream, one report per step.
#[derive(Debug, Clone)]
pub enum SocketInput {
    /// The variable naming the compositor instance could not be read.
    SignatureMissing { var: String, error: String },
    /// The socket could not be opened.
    ConnectFailed { socket_path: String, error: String },
    /// The socket is open.
    Connected,
    /// One line was read.
    Line(String),
    /// Reading failed.
    ReadFailed { error: String },
    /// The compositor closed the socket.
    Closed,
}

/// One step of the stream: the event to hand on, if any, the state that
/// follows, and the failure to log, if any.
#[derive(Debug, Clone)]
pub struct SubscriptionStep {
    pub event: Option<HyprlandWorkspaceEvent>,
    pub next: SubscriptionState,
    pub failure: Option<HyprlandCommunicationError>,
}

/// The event and the next state that one input gives in a state. Inputs
/// that do not belong to the state (a line before the socket is open, a
/// connection report once it is) change nothing.
pub open spec fn stream_step(state: SubscriptionState, input: SocketInput) -> (
    Option<HyprlandWorkspaceEvent>,
    SubscriptionState,
) {
    match state {
        SubscriptionState::Starting => match input {
            SocketInput::SignatureMissing { .. } | SocketInput::ConnectFailed { .. } => (
                Some(HyprlandWorkspaceEvent::Error),
                SubscriptionState::Error,
            ),
            SocketInput::Connected => (
                Some(HyprlandWorkspaceEvent::Noop),
                SubscriptionState::Ongoing,
            ),
            _ => (None, SubscriptionState::Starting),
        },
        SubscriptionState::Ongoing => match input {
            SocketInput::Line(l) => match line_event(l@) {
                Ok(Some(e)) => (Some(e), SubscriptionState::Ongoing),
                Ok(None) => (None, SubscriptionState::Ongoing),
                Err(_) => (Some(HyprlandWorkspaceEvent::Error), SubscriptionState::Error),
            },
            SocketInput::ReadFailed { .. } | SocketInput::Closed => (
                Some(HyprlandWorkspaceEvent::Error),
                SubscriptionState::Error,
            ),
            _ => (None, SubscriptionState::Ongoing),
        },
        SubscriptionState::Error => (None, SubscriptionState::Error),
    }
}

/// The kind of failure that one input gives in a state, if any.
pub open spec fn stream_failure(state: SubscriptionState, input: SocketInput) -> Option<ErrorKind> {
    match state {
        SubscriptionState::Starting => match input {
            SocketInput::SignatureMissing { .. } => Some(ErrorKind::EnvError),
            SocketInput::ConnectFailed { .. } => Some(ErrorKind::SocketConnectionError),
            _ => None,
        },
        SubscriptionState::Ongoing => match input {
            SocketInput::Line(l) => match line_event(l@) {
                Err(k) => Some(k),
                _ => None,
            },
            SocketInput::ReadFailed { .. } | SocketInput::Closed => Some(
                ErrorKind::SocketReadError,
            ),
            _ => None,
        },
        SubscriptionState::Error => None,
    }
}

/// The events that a run of inputs yields from a state, one entry per
/// input (`None` where that input yields nothing).
pub open spec fn stream_events(state: SubscriptionState, inputs: Seq<SocketInput>) -> Seq<
    Option<HyprlandWorkspaceEvent>,
>
    decreases inputs.len(),
{
    if inputs.len() == 0 {
        Seq::empty()
    } else {
        let (e, next) = stream_step(state, inputs[0]);
        seq![e] + stream_events(next, inputs.drop_first())
    }
}

/// Once the stream has failed, no run of inputs ever yields another event.
pub proof fn error_is_final(inputs: Seq<SocketInput>)
    ensures
        stream_events(SubscriptionState::Error, inputs).len() == inputs.len(),
        forall|i: int|
            0 <= i < inputs.len() ==> #[trigger] stream_events(SubscriptionState::Error, inputs)[i]
                is None,
    decreases inputs.len(),
{
    if inputs.len() > 0 {
        error_is_final(inputs.drop_first());
        let rest = stream_events(SubscriptionState::Error, inputs.drop_first());
        let none: Option<HyprlandWorkspaceEvent> = None;
        assert(stream_events(SubscriptionState::Error, inputs) == seq![none] + rest);
        assert forall|i: int| 0 <= i < inputs.len() implies #[trigger] stream_events(
            SubscriptionState::Error,
            inputs,
        )[i] is None by {
            if i > 0 {
                assert(stream_events(SubscriptionState::Error, inputs)[i] == rest[i - 1]);
            }
        }
    }
}

/// Advances the stream by one input: see [`stream_step`]. A failure is
/// reported exactly when the stream moves to `Error`, and it comes with
/// that single `Error` event.
pub fn next_step(state: SubscriptionState, input: SocketInput) -> (r: SubscriptionStep)
    ensures
        (r.event, r.next) == stream_step(state, input),
        match r.failure {
            Some(f) => stream_failure(state, input) == Some(f.spec_kind()),
            None => stream_failure(state, input) is None,
        },
{
    match state {
        SubscriptionState::Starting => match input {
            SocketInput::SignatureMissing { var, error } => SubscriptionStep {
                event: Some(HyprlandWorkspaceEvent::Error),
                next: SubscriptionState::Error,
                failure: Some(HyprlandCommunicationError::EnvError { var, error }),
            },
            SocketInput::ConnectFailed { socket_path, error } => SubscriptionStep {
                event: Some(HyprlandWorkspaceEvent::Error),
                next: SubscriptionState::Error,
                failure: Some(HyprlandCommunicationError::SocketConnectionError { socket_path, error }),
            },
            SocketInput::Connected => SubscriptionStep {
                event: Some(HyprlandWorkspaceEvent::Noop),
                next: SubscriptionState::Ongoing,
                failure: None,
            },
            _ => SubscriptionStep { event: None, next: SubscriptionState::Starting, failure: None },
        },
        SubscriptionState::Ongoing => match input {
            SocketInput::Line(l) => match parse_hyprland_event(l.as_str()) {
                Ok(Some(e)) => SubscriptionStep {
                    event: Some(e),
                    next: SubscriptionState::Ongoing,
                    failure: None,
                },
                Ok(None) => SubscriptionStep {
                    event: None,
                    next: SubscriptionState::Ongoing,
                    failure: None,
                },
                Err(e) => SubscriptionStep {
                    event: Some(HyprlandWorkspaceEvent::Error),
                    next: SubscriptionState::Error,
                    failure: Some(e),
                },
            },
            SocketInput::ReadFailed { error } => SubscriptionStep {
                event: Some(HyprlandWorkspaceEvent::Error),
                next: SubscriptionState::Error,
                failure: Some(HyprlandCommunicationError::SocketReadError { error }),
            },
            SocketInput::Closed => SubscriptionStep {
                event: Some(HyprlandWorkspaceEvent::Error),
                next: SubscriptionState::Error,
                failure: Some(
                    HyprlandCommunicationError::SocketReadError {
                        error: String::from_str("the compositor closed the event socket"),
                    },
                ),
            },
            _ => SubscriptionStep { event: None, next: SubscriptionState::Ongoing, failure: None },
        },
        SubscriptionState::Error => SubscriptionStep {
            event: None,
            next: SubscriptionState::Error,
            failure: None,
        },
    }
}

/// Path of the event socket of the compositor instance `signature`.
pub fn socket_path(signature: &str) -> (r: String)
    ensures
        r@ == "/tmp/hypr/"@ + signature@ + "/.socket2.sock"@,
{
    let mut r = String::from_str("/tmp/hypr/");
    r.append(signature);
    r.append("/.socket2.sock");
    r
}

} // verus!
