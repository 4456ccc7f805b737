//! Talking to the compositor: the error kinds, the initial snapshot built
//! from its query replies, and the workspace-switch command.
use std::collections::HashMap;
use vstd::prelude::*;

use crate::text::{chars_of, hex_u64, parse_hex_u64};

pub mod subscription;
pub mod ui;

verus! {

broadcast use vstd::std_specs::hash::group_hash_axioms;

/// Workspaces are numbered `1..=NUM_WORKSPACES` by the compositor and
/// `0..NUM_WORKSPACES` here. Dynamic workspaces are not handled.
pub const NUM_WORKSPACES: usize = 10;

/// Environment variable naming the running compositor instance.
pub const HYPRLAND_INSTANCE_SIG_VAR: &'static str = "HYPRLAND_INSTANCE_SIGNATURE";

/// Which of the failures of [`HyprlandCommunicationError`] occurred.
#[derive(Debug, Clone, Copy, PartialEq, Eq, Structural)]
pub enum ErrorKind {
    IoError,
    DeserializationError,
    HexadecimalMissingPrefix,
    WindowAddressParsingError,
    WorkspaceIdOutOfRange,
    HyprctlFailure,
    SocketConnectionError,
    SocketReadError,
    EventParsingError,
    EventArgsParsingError,
    RequestInexistantWindow,
    EnvError,
}

/// Everything that can go wrong while talking to the compositor. The text
/// fields keep what is needed to explain the failure in a log.
#[derive(Debug, Clone)]
pub enum HyprlandCommunicationError {
    /// A query or command process could not be run.
    IoError { command: String, error: String },
    /// A query reply was not JSON of the expected shape.
    DeserializationError { command: String, raw: String, error: String },
    /// A window address in a query reply did not start with `0x`.
    HexadecimalMissingPrefix { command: String, address: String },
    /// A window address was not a hexadecimal 64-bit number.
    WindowAddressParsingError { command: String, address: String },
    /// A query reply named a workspace outside `1..=NUM_WORKSPACES`.
    WorkspaceIdOutOfRange { command: String, workspace_id: usize },
    /// A command ran and exited with a failure status (`None`: killed by a signal).
    HyprctlFailure { command: String, exit_code: Option<i32> },
    /// The event socket could not be opened.
    SocketConnectionError { socket_path: String, error: String },
    /// Reading the event socket failed, or the compositor closed it.
    SocketReadError { error: String },
    /// A line of the event socket had no event name. The decoder never
    /// gives it: every line, even an empty one, starts with a name.
    EventParsingError { event: String },
    /// A known event lacked an argument, or had a workspace that is not a
    /// number in `1..=NUM_WORKSPACES`.
    EventArgsParsingError { event: String, args: String },
    /// A window to close or move is not known: the snapshot and the event
    /// stream have drifted apart.
    RequestInexistantWindow { requested_address: u64, addresses_in_memory: Vec<u64> },
    /// A required environment variable could not be read.
    EnvError { var: String, error: String },
}

impl HyprlandCommunicationError {
    pub open spec fn spec_kind(&self) -> ErrorKind {
        match self {
            HyprlandCommunicationError::IoError { .. } => ErrorKind::IoError,
            HyprlandCommunicationError::DeserializationError {
                ..
            } => ErrorKind::DeserializationError,
            HyprlandCommunicationError::HexadecimalMissingPrefix {
                ..
            } => ErrorKind::HexadecimalMissingPrefix,
            HyprlandCommunicationError::WindowAddressParsingError {
                ..
            } => ErrorKind::WindowAddressParsingError,
            HyprlandCommunicationError::WorkspaceIdOutOfRange {
                ..
            } => ErrorKind::WorkspaceIdOutOfRange,
            HyprlandCommunicationError::HyprctlFailure { .. } => ErrorKind::HyprctlFailure,
            HyprlandCommunicationError::SocketConnectionError {
                ..
            } => ErrorKind::SocketConnectionError,
            HyprlandCommunicationError::SocketReadError { .. } => ErrorKind::SocketReadError,
            HyprlandCommunicationError::EventParsingError { .. } => ErrorKind::EventParsingError,
            HyprlandCommunicationError::EventArgsParsingError {
                ..
            } => ErrorKind::EventArgsParsingError,
            HyprlandCommunicationError::RequestInexistantWindow {
                ..
            } => ErrorKind::RequestInexistantWindow,
            HyprlandCommunicationError::EnvError { .. } => ErrorKind::EnvError,
        }
    }

    /// Which failure this is.
    pub fn kind(&self) -> (r: ErrorKind)
        ensures
            r == self.spec_kind(),
    {
        match self {
            HyprlandCommunicationError::IoError { .. } => ErrorKind::IoError,
            HyprlandCommunicationError::DeserializationError {
                ..
            } => ErrorKind::DeserializationError,
            HyprlandCommunicationError::HexadecimalMissingPrefix {
                ..
            } => ErrorKind::HexadecimalMissingPrefix,
            HyprlandCommunicationError::WindowAddressParsingError {
                ..
            } => ErrorKind::WindowAddressParsingError,
            HyprlandCommunicationError::WorkspaceIdOutOfRange {
                ..
            } => ErrorKind::WorkspaceIdOutOfRange,
            HyprlandCommunicationError::HyprctlFailure { .. } => ErrorKind::HyprctlFailure,
            HyprlandCommunicationError::SocketConnectionError {
                ..
            } => ErrorKind::SocketConnectionError,
            HyprlandCommunicationError::SocketReadError { .. } => ErrorKind::SocketReadError,
            HyprlandCommunicationError::EventParsingError { .. } => ErrorKind::EventParsingError,
            HyprlandCommunicationError::EventArgsParsingError {
                ..
            } => ErrorKind::EventArgsParsingError,
            HyprlandCommunicationError::RequestInexistantWindow {
                ..
            } => ErrorKind::RequestInexistantWindow,
            HyprlandCommunicationError::EnvError { .. } => ErrorKind::EnvError,
        }
    }
}

/// One window as the window-list query reports it: its address as text
/// (`0x` then hexadecimal) and its one-based workspace.
#[derive(Debug, Clone)]
pub struct HyprlandClient {
    pub address: String,
    pub workspace_id: usize,
}

/// Whether `a` starts with `0x`.
pub open spec fn has_hex_prefix(a: Seq<char>) -> bool {
    a.len() >= 2 && a[0] == '0' && a[1] == 'x'
}

/// The address that a window of the query reply stands for, if it reads.
pub open spec fn client_address(c: HyprlandClient) -> Option<u64> {
    hex_u64(c.address@.subrange(2, c.address@.len() as int))
}

/// Why a window of the query reply cannot be taken, if it cannot: its
/// workspace is checked first, then the `0x` prefix, then the digits.
pub open spec fn client_failure(c: HyprlandClient) -> Option<ErrorKind> {
    if !(1 <= c.workspace_id <= NUM_WORKSPACES) {
        Some(ErrorKind::WorkspaceIdOutOfRange)
    } else if !has_hex_prefix(c.address@) {
        Some(ErrorKind::HexadecimalMissingPrefix)
    } else if client_address(c) is None {
        Some(ErrorKind::WindowAddressParsingError)
    } else {
        None
    }
}

/// Address to zero-based workspace, for windows taken in order (a later
/// entry for the same address wins).
pub open spec fn clients_windows(cs: Seq<HyprlandClient>) -> Map<u64, usize>
    decreases cs.len(),
{
    if cs.len() == 0 {
        Map::empty()
    } else {
        clients_windows(cs.drop_last()).insert(
            client_address(cs.last()).unwrap(),
            (cs.last().workspace_id - 1) as usize,
        )
    }
}

/// How many entries of `cs` are on the zero-based workspace `w`.
pub open spec fn clients_on(cs: Seq<HyprlandClient>, w: int) -> nat
    decreases cs.len(),
{
    if cs.len() == 0 {
        0
    } else {
        clients_on(cs.drop_last(), w) + if cs.last().workspace_id - 1 == w {
            1nat
        } else {
            0nat
        }
    }
}

proof fn lemma_clients_on_bound(cs: Seq<HyprlandClient>, w: int)
    ensures
        clients_on(cs, w) <= cs.len(),
    decreases cs.len(),
{
    if cs.len() > 0 {
        lemma_clients_on_bound(cs.drop_last(), w);
    }
}

/// The window-list query.
pub const CLIENTS_COMMAND: &'static str = "hyprctl clients -j";

/// The active-workspace query.
pub const ACTIVE_WORKSPACE_COMMAND: &'static str = "hyprctl activeworkspace -j";

/// What the text fields of the failure for window entry `c` hold: the
/// query, and the whole address when its prefix is missing, the part after
/// `0x` when that part does not read, or the workspace out of range.
pub open spec fn client_error_fields(c: HyprlandClient, e: HyprlandCommunicationError) -> bool {
    match e {
        HyprlandCommunicationError::WorkspaceIdOutOfRange { command, workspace_id } => command@
            == CLIENTS_COMMAND@ && workspace_id == c.workspace_id,
        HyprlandCommunicationError::HexadecimalMissingPrefix { command, address } => command@
            == CLIENTS_COMMAND@ && address@ == c.address@,
        HyprlandCommunicationError::WindowAddressParsingError { command, address } => command@
            == CLIENTS_COMMAND@ && address@ == c.address@.subrange(2, c.address@.len() as int),
        _ => false,
    }
}

/// Builds the window map and the per-workspace window counts from the
/// window-list query reply, or names the first entry that cannot be taken.
pub fn windows_from_clients(clients: &Vec<HyprlandClient>) -> (r: Result<
    (HashMap<u64, usize>, [u32; NUM_WORKSPACES]),
    HyprlandCommunicationError,
>)
    requires
        clients@.len() <= u32::MAX,
    ensures
        match r {
            Ok((windows, counts)) => {
                &&& forall|i: int| 0 <= i < clients@.len() ==> client_failure(#[trigger] clients@[i]) is None
                &&& windows@ == clients_windows(clients@)
                &&& forall|w: int| 0 <= w < NUM_WORKSPACES ==> counts@[w] == clients_on(clients@, w)
            },
            Err(e) => exists|i: int|
                0 <= i < clients@.len() && (forall|j: int|
                    0 <= j < i ==> client_failure(#[trigger] clients@[j]) is None) && client_failure(
                    clients@[i],
                ) == Some(e.spec_kind()) && client_error_fields(clients@[i], e),
        },
{
    let mut windows: HashMap<u64, usize> = HashMap::new();
    let mut counts: [u32; NUM_WORKSPACES] = [0; NUM_WORKSPACES];
    let mut i: usize = 0;
    while i < clients.len()
        invariant
            i <= clients@.len() <= u32::MAX,
            forall|j: int| 0 <= j < i ==> client_failure(#[trigger] clients@[j]) is None,
            windows@ == clients_windows(clients@.subrange(0, i as int)),
            forall|w: int|
                0 <= w < NUM_WORKSPACES ==> counts@[w] == clients_on(
                    clients@.subrange(0, i as int),
                    w,
                ),
        decreases clients@.len() - i,
    {
        let ghost pre = clients@.subrange(0, i as int);
        let ghost next = clients@.subrange(0, i + 1);
        assert(next.drop_last() =~= pre);
        let c = &clients[i];
        if !(1 <= c.workspace_id && c.workspace_id <= NUM_WORKSPACES) {
            return Err(
                HyprlandCommunicationError::WorkspaceIdOutOfRange {
                    command: String::from_str(CLIENTS_COMMAND),
                    workspace_id: c.workspace_id,
                },
            );
        }
        let id = c.workspace_id - 1;
        let v = chars_of(c.address.as_str());
        if !(v.len() >= 2 && v[0] == '0' && v[1] == 'x') {
            return Err(
                HyprlandCommunicationError::HexadecimalMissingPrefix {
                    command: String::from_str(CLIENTS_COMMAND),
                    address: c.address.clone(),
                },
            );
        }
        let address = match parse_hex_u64(&v, 2, v.len()) {
            Some(a) => a,
            None => {
                return Err(
                    HyprlandCommunicationError::WindowAddressParsingError {
                        command: String::from_str(CLIENTS_COMMAND),
                        address: c.address.as_str().substring_char(2, v.len()).to_owned(),
                    },
                );
            },
        };
        proof {
            lemma_clients_on_bound(pre, id as int);
        }
        let old_count = counts[id];
        counts[id] = old_count + 1;
        windows.insert(address, id);
        i = i + 1;
    }
    assert(clients@.subrange(0, i as int) =~= clients@);
    Ok((windows, counts))
}

/// The zero-based active workspace, from the one-based workspace that the
/// active-workspace query reports.
pub fn active_workspace_index(workspace_id: usize) -> (r: Result<usize, HyprlandCommunicationError>)
    ensures
        match r {
            Ok(w) => 1 <= workspace_id <= NUM_WORKSPACES && w == workspace_id - 1,
            Err(e) => {
                &&& !(1 <= workspace_id <= NUM_WORKSPACES)
                &&& e matches HyprlandCommunicationError::WorkspaceIdOutOfRange {
                    command,
                    workspace_id: id,
                } && command@ == ACTIVE_WORKSPACE_COMMAND@ && id == workspace_id
            },
        },
{
    if 1 <= workspace_id && workspace_id <= NUM_WORKSPACES {
        Ok(workspace_id - 1)
    } else {
        Err(
            HyprlandCommunicationError::WorkspaceIdOutOfRange {
                command: String::from_str(ACTIVE_WORKSPACE_COMMAND),
                workspace_id,
            },
        )
    }
}

/// The one-based workspace number that the switch command takes.
pub fn workspace_number(new_workspace_id: usize) -> (r: usize)
    requires
        new_workspace_id < NUM_WORKSPACES,
    ensures
        r == new_workspace_id + 1,
{
    new_workspace_id + 1
}

/// How a command process ended.
#[derive(Debug, Clone)]
pub enum CommandStatus {
    /// The process could not be started.
    NotLaunched { error: String },
    /// The process ran; `code` is `None` when a signal ended it.
    Exited { success: bool, code: Option<i32> },
}

/// Classifies how the workspace-switch command `command` ended. Success
/// changes nothing here: the switch shows up later as an event.
pub fn switch_result(command: String, status: CommandStatus) -> (r: Result<
    (),
    HyprlandCommunicationError,
>)
    ensures
        match status {
            CommandStatus::NotLaunched { error } => r matches Err(
                HyprlandCommunicationError::IoError { command: c, error: er },
            ) && c@ == command@ && er@ == error@,
            CommandStatus::Exited { success, code } => if success {
                r is Ok
            } else {
                r matches Err(HyprlandCommunicationError::HyprctlFailure { command: c, exit_code })
                    && c@ == command@ && exit_code == code
            },
        },
{
    match status {
        CommandStatus::NotLaunched { error } => Err(
            HyprlandCommunicationError::IoError { command, error },
        ),
        CommandStatus::Exited { success, code } => if success {
            Ok(())
        } else {
            Err(HyprlandCommunicationError::HyprctlFailure { command, exit_code: code })
        },
    }
}

} // verus!
