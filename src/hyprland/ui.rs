//! The workspace state: which workspace is active, how many windows each
//! workspace holds, and where each window is, kept up to date by events.
use std::collections::HashMap;
use vstd::prelude::*;
use vstd::std_specs::iter::IteratorSpec;

use super::subscription::HyprlandWorkspaceEvent;
use super::{
    active_workspace_index, windows_from_clients, HyprlandClient, HyprlandCommunicationError,
    NUM_WORKSPACES, clients_on, clients_windows, client_failure, client_address,
    client_error_fields, ACTIVE_WORKSPACE_COMMAND,
};

verus! {

broadcast use vstd::std_specs::hash::group_hash_axioms;

#[derive(Debug, Clone)]
pub enum WorkspaceDisplayMessage {
    EventReceived(HyprlandWorkspaceEvent),
    WorkspaceButtonClicked(usize),
}

/// What the owner of a [`WorkspaceDisplay`] has to do after an update.
#[derive(Debug, Clone)]
pub enum WorkspaceAction {
    Nothing,
    /// Log this inconsistency; the state was left as it was.
    Report(HyprlandCommunicationError),
    /// Ask the compositor to switch to this zero-based workspace.
    SwitchTo(usize),
}

pub struct WorkspaceDisplay {
    active_workspace: usize,
    /// How many windows there are in each workspace.
    window_count: [u32; NUM_WORKSPACES],
    /// The workspace where the window is, indexed by the window address.
    windows: HashMap<u64, usize>,
}

/// The abstract state of a [`WorkspaceDisplay`].
pub struct WorkspaceModel {
    pub active_workspace: usize,
    pub window_count: Seq<u32>,
    pub windows: Map<u64, usize>,
}

impl View for WorkspaceDisplay {
    type V = WorkspaceModel;

    closed spec fn view(&self) -> WorkspaceModel {
        WorkspaceModel {
            active_workspace: self.active_workspace,
            window_count: self.window_count@,
            windows: self.windows@,
        }
    }
}

/// Whether `windows` places `a` on workspace `w`.
pub open spec fn placed_on(windows: Map<u64, usize>, w: usize) -> spec_fn(u64) -> bool {
    |a: u64| windows[a] == w
}

/// The number of windows that `windows` places on workspace `w`.
pub open spec fn windows_on(windows: Map<u64, usize>, w: usize) -> nat {
    windows.dom().filter(placed_on(windows, w)).len()
}

/// A sound state: the active workspace and every window's workspace exist,
/// and no workspace's count is below the number of windows on it. (A count
/// can be above it: opening a window under an address that is already
/// known replaces the entry and still counts one more.)
pub open spec fn model_wf(m: WorkspaceModel) -> bool {
    &&& m.active_workspace < NUM_WORKSPACES
    &&& m.window_count.len() == NUM_WORKSPACES
    &&& m.windows.dom().finite()
    &&& forall|a: u64| #[trigger] m.windows.contains_key(a) ==> m.windows[a] < NUM_WORKSPACES
    &&& forall|w: int|
        0 <= w < NUM_WORKSPACES ==> #[trigger] m.window_count[w] >= windows_on(m.windows, w as usize)
}

/// Whether an event can be applied: the workspace it sets or counts on
/// exists, and no count it raises is at the top of its range. A move of an
/// unknown window is ignored, so it can name any workspace.
pub open spec fn event_fits(m: WorkspaceModel, e: HyprlandWorkspaceEvent) -> bool {
    match e {
        HyprlandWorkspaceEvent::ChangeActiveWorkspace { new_workspace_id } => new_workspace_id
            < NUM_WORKSPACES,
        HyprlandWorkspaceEvent::OpenWindow { workspace_id, .. } => workspace_id < NUM_WORKSPACES
            && m.window_count[workspace_id as int] < u32::MAX,
        HyprlandWorkspaceEvent::MoveWindow { window_address, new_workspace_id } => m.windows.contains_key(
            window_address,
        ) ==> new_workspace_id < NUM_WORKSPACES && m.window_count[new_workspace_id as int]
            < u32::MAX,
        _ => true,
    }
}

/// The state after an event:
/// - `ChangeActiveWorkspace` sets the active workspace;
/// - `OpenWindow` counts one more window on its workspace and maps the
///   address there;
/// - `CloseWindow` of a known window unmaps it and counts one less on its
///   workspace;
/// - `MoveWindow` of a known window maps it to the new workspace, counting
///   one more there and one less on the old one;
/// - anything else, including a close or move of an unknown window, changes
///   nothing.
pub open spec fn apply_event(m: WorkspaceModel, e: HyprlandWorkspaceEvent) -> WorkspaceModel {
    match e {
        HyprlandWorkspaceEvent::ChangeActiveWorkspace { new_workspace_id } => WorkspaceModel {
            active_workspace: new_workspace_id,
            window_count: m.window_count,
            windows: m.windows,
        },
        HyprlandWorkspaceEvent::OpenWindow { window_address, workspace_id } => WorkspaceModel {
            active_workspace: m.active_workspace,
            window_count: m.window_count.update(
                workspace_id as int,
                (m.window_count[workspace_id as int] + 1) as u32,
            ),
            windows: m.windows.insert(window_address, workspace_id),
        },
        HyprlandWorkspaceEvent::CloseWindow { window_address } => if m.windows.contains_key(
            window_address,
        ) {
            let p = m.windows[window_address] as int;
            WorkspaceModel {
                active_workspace: m.active_workspace,
                window_count: m.window_count.update(p, (m.window_count[p] - 1) as u32),
                windows: m.windows.remove(window_address),
            }
        } else {
            m
        },
        HyprlandWorkspaceEvent::MoveWindow { window_address, new_workspace_id } => if m.windows.contains_key(
            window_address,
        ) {
            let p = m.windows[window_address] as int;
            let w = new_workspace_id as int;
            let raised = m.window_count.update(w, (m.window_count[w] + 1) as u32);
            WorkspaceModel {
                active_workspace: m.active_workspace,
                window_count: raised.update(p, (raised[p] - 1) as u32),
                windows: m.windows.insert(window_address, new_workspace_id),
            }
        } else {
            m
        },
        _ => m,
    }
}

/// Whether the event names a window to close or move that is not known.
pub open spec fn requests_unknown_window(m: WorkspaceModel, e: HyprlandWorkspaceEvent) -> bool {
    match e {
        HyprlandWorkspaceEvent::CloseWindow { window_address } => !m.windows.contains_key(
            window_address,
        ),
        HyprlandWorkspaceEvent::MoveWindow { window_address, .. } => !m.windows.contains_key(
            window_address,
        ),
        _ => false,
    }
}

pub open spec fn event_address(e: HyprlandWorkspaceEvent) -> u64 {
    match e {
        HyprlandWorkspaceEvent::OpenWindow { window_address, .. } => window_address,
        HyprlandWorkspaceEvent::CloseWindow { window_address } => window_address,
        HyprlandWorkspaceEvent::MoveWindow { window_address, .. } => window_address,
        _ => 0,
    }
}

proof fn lemma_windows_on_remove(m: Map<u64, usize>, a: u64, v: usize)
    requires
        m.dom().finite(),
    ensures
        m.remove(a).dom().finite(),
        windows_on(m, v) == windows_on(m.remove(a), v) + if m.contains_key(a) && m[a] == v {
            1nat
        } else {
            0nat
        },
{
    let r = m.remove(a);
    let s = m.dom().filter(placed_on(m, v));
    let t = r.dom().filter(placed_on(r, v));
    assert(r.dom() =~= m.dom().remove(a));
    r.dom().lemma_len_filter(placed_on(r, v));
    if m.contains_key(a) && m[a] == v {
        assert(s =~= t.insert(a));
        assert(!t.contains(a));
    } else {
        assert(s =~= t);
    }
}

proof fn lemma_windows_on_insert(m: Map<u64, usize>, a: u64, w: usize, v: usize)
    requires
        m.dom().finite(),
    ensures
        m.insert(a, w).dom().finite(),
        windows_on(m.insert(a, w), v) == windows_on(m.remove(a), v) + if w == v {
            1nat
        } else {
            0nat
        },
{
    let n = m.insert(a, w);
    assert(n.dom() =~= m.dom().insert(a));
    assert(n.remove(a) =~= m.remove(a));
    lemma_windows_on_remove(n, a, v);
}

impl WorkspaceDisplay {
    pub open spec fn wf(&self) -> bool {
        model_wf(self@)
    }

    /// Builds the state from the replies of the two queries: the one-based
    /// active workspace, then the window list. Either failing fails the
    /// whole, the active workspace being checked first.
    pub fn create_from_commands(active_workspace_id: usize, clients: &Vec<HyprlandClient>) -> (r:
        Result<Self, HyprlandCommunicationError>)
        requires
            clients@.len() <= u32::MAX,
        ensures
            match r {
                Ok(d) => {
                    &&& d.wf()
                    &&& 1 <= active_workspace_id <= NUM_WORKSPACES
                    &&& d@.active_workspace == active_workspace_id - 1
                    &&& forall|i: int|
                        0 <= i < clients@.len() ==> client_failure(#[trigger] clients@[i]) is None
                    &&& d@.windows == clients_windows(clients@)
                    &&& forall|w: int|
                        0 <= w < NUM_WORKSPACES ==> #[trigger] d@.window_count[w] == clients_on(
                            clients@,
                            w,
                        )
                },
                Err(e) => if !(1 <= active_workspace_id <= NUM_WORKSPACES) {
                    e matches HyprlandCommunicationError::WorkspaceIdOutOfRange {
                        command,
                        workspace_id,
                    } && command@ == ACTIVE_WORKSPACE_COMMAND@ && workspace_id
                        == active_workspace_id
                } else {
                    exists|i: int|
                        0 <= i < clients@.len() && (forall|j: int|
                            0 <= j < i ==> client_failure(#[trigger] clients@[j]) is None)
                            && client_failure(clients@[i]) == Some(e.spec_kind())
                            && client_error_fields(clients@[i], e)
                },
            },
    {
        let active_workspace = active_workspace_index(active_workspace_id)?;
        let (windows, window_count) = windows_from_clients(clients)?;
        let d = WorkspaceDisplay { active_workspace, window_count, windows };
        proof {
            lemma_clients_counts(clients@, 0);
            assert(d@.windows.dom().finite());
            assert forall|w: int| 0 <= w < NUM_WORKSPACES implies #[trigger] d@.window_count[w]
                >= windows_on(d@.windows, w as usize) by {
                lemma_clients_counts(clients@, w as usize);
            }
        }
        Ok(d)
    }

    /// The zero-based active workspace.
    pub fn active_workspace(&self) -> (r: usize)
        ensures
            r == self@.active_workspace,
    {
        self.active_workspace
    }

    /// How many windows each workspace holds.
    pub fn window_count(&self) -> (r: [u32; NUM_WORKSPACES])
        ensures
            r@ == self@.window_count,
    {
        self.window_count
    }

    /// The workspace of the window at `address`, if it is known.
    pub fn workspace_of(&self, address: u64) -> (r: Option<usize>)
        ensures
            r == (if self@.windows.contains_key(address) {
                Some(self@.windows[address])
            } else {
                None
            }),
    {
        match self.windows.get(&address) {
            Some(w) => Some(*w),
            None => None,
        }
    }

    /// The number of known windows.
    pub fn window_total(&self) -> (r: usize)
        ensures
            r == self@.windows.dom().len(),
    {
        self.windows.len()
    }

    /// Whether `update` can take this message.
    pub fn accepts(&self, message: &WorkspaceDisplayMessage) -> (r: bool)
        requires
            self.wf(),
        ensures
            r == match message {
                WorkspaceDisplayMessage::EventReceived(e) => event_fits(self@, *e),
                _ => true,
            },
    {
        match message {
            WorkspaceDisplayMessage::EventReceived(e) => match e {
                HyprlandWorkspaceEvent::ChangeActiveWorkspace { new_workspace_id } => *new_workspace_id
                    < NUM_WORKSPACES,
                HyprlandWorkspaceEvent::OpenWindow { workspace_id, .. } => *workspace_id
                    < NUM_WORKSPACES && self.window_count[*workspace_id] < u32::MAX,
                HyprlandWorkspaceEvent::MoveWindow { window_address, new_workspace_id } => {
                    !self.windows.contains_key(window_address) || (*new_workspace_id
                        < NUM_WORKSPACES && self.window_count[*new_workspace_id] < u32::MAX)
                },
                _ => true,
            },
            _ => true,
        }
    }

    /// The known window addresses, in no particular order.
    fn addresses(&self) -> (r: Vec<u64>)
        ensures
            r@.to_set() == self@.windows.dom(),
    {
        let ghost all = vstd::std_specs::hash::spec_keys_iter(&self.windows).remaining().unref();
        let mut r: Vec<u64> = Vec::new();
        for k in it: self.windows.keys()
            invariant
                it.seq().unref() == all,
                all.to_set() == self@.windows.dom(),
                r@ == all.subrange(0, it.index() as int),
        {
            r.push(*k);
            assert(r@ =~= all.subrange(0, it.index() + 1));
        }
        assert(r@ =~= all);
        r
    }

    /// Applies one message. An event changes the state as [`apply_event`]
    /// says; a close or move of an unknown window is reported and changes
    /// nothing. A click on a workspace button asks for a switch and changes
    /// nothing: the switch shows up later as an event.
    pub fn update(&mut self, message: WorkspaceDisplayMessage) -> (action: WorkspaceAction)
        requires
            old(self).wf(),
            match message {
                WorkspaceDisplayMessage::EventReceived(e) => event_fits(old(self)@, e),
                _ => true,
            },
        ensures
            final(self).wf(),
            match message {
                WorkspaceDisplayMessage::EventReceived(e) => {
                    &&& final(self)@ == apply_event(old(self)@, e)
                    &&& if requests_unknown_window(old(self)@, e) {
                        action matches WorkspaceAction::Report(
                            HyprlandCommunicationError::RequestInexistantWindow {
                                requested_address,
                                addresses_in_memory,
                            },
                        ) && requested_address == event_address(e)
                            && addresses_in_memory@.to_set() == old(self)@.windows.dom()
                    } else {
                        action is Nothing
                    }
                },
                WorkspaceDisplayMessage::WorkspaceButtonClicked(id) => {
                    &&& final(self)@ == old(self)@
                    &&& action == WorkspaceAction::SwitchTo(id)
                },
            },
    {
        match message {
            WorkspaceDisplayMessage::EventReceived(e) => self.apply(e),
            WorkspaceDisplayMessage::WorkspaceButtonClicked(id) => WorkspaceAction::SwitchTo(id),
        }
    }

    fn apply(&mut self, e: HyprlandWorkspaceEvent) -> (action: WorkspaceAction)
        requires
            old(self).wf(),
            event_fits(old(self)@, e),
        ensures
            final(self).wf(),
            final(self)@ == apply_event(old(self)@, e),
            if requests_unknown_window(old(self)@, e) {
                action matches WorkspaceAction::Report(
                    HyprlandCommunicationError::RequestInexistantWindow {
                        requested_address,
                        addresses_in_memory,
                    },
                ) && requested_address == event_address(e) && addresses_in_memory@.to_set()
                    == old(self)@.windows.dom()
            } else {
                action is Nothing
            },
    {
        let ghost m0 = self@;
        match e {
            HyprlandWorkspaceEvent::ChangeActiveWorkspace { new_workspace_id } => {
                self.active_workspace = new_workspace_id;
                WorkspaceAction::Nothing
            },
            HyprlandWorkspaceEvent::OpenWindow { window_address, workspace_id } => {
                let c = self.window_count[workspace_id];
                self.window_count[workspace_id] = c + 1;
                self.windows.insert(window_address, workspace_id);
                proof {
                    assert forall|w: int| 0 <= w < NUM_WORKSPACES implies #[trigger] self@.window_count[w]
                        >= windows_on(self@.windows, w as usize) by {
                        lemma_windows_on_insert(m0.windows, window_address, workspace_id, w as usize);
                        lemma_windows_on_remove(m0.windows, window_address, w as usize);
                    }
                }
                WorkspaceAction::Nothing
            },
            HyprlandWorkspaceEvent::CloseWindow { window_address } => {
                match self.windows.remove(&window_address) {
                    Some(p) => {
                        proof {
                            lemma_windows_on_remove(m0.windows, window_address, p);
                        }
                        let c = self.window_count[p];
                        self.window_count[p] = c - 1;
                        proof {
                            assert forall|w: int| 0 <= w < NUM_WORKSPACES implies #[trigger] self@.window_count[w]
                                >= windows_on(self@.windows, w as usize) by {
                                lemma_windows_on_remove(m0.windows, window_address, w as usize);
                            }
                        }
                        WorkspaceAction::Nothing
                    },
                    None => {
                        assert(self.windows@ =~= m0.windows);
                        WorkspaceAction::Report(
                            HyprlandCommunicationError::RequestInexistantWindow {
                                requested_address: window_address,
                                addresses_in_memory: self.addresses(),
                            },
                        )
                    },
                }
            },
            HyprlandWorkspaceEvent::MoveWindow { window_address, new_workspace_id } => {
                let known = match self.windows.get(&window_address) {
                    Some(p) => Some(*p),
                    None => None,
                };
                if let Some(p) = known {
                    self.windows.insert(window_address, new_workspace_id);
                    proof {
                        lemma_windows_on_remove(m0.windows, window_address, p);
                    }
                    let c = self.window_count[new_workspace_id];
                    self.window_count[new_workspace_id] = c + 1;
                    let d = self.window_count[p];
                    self.window_count[p] = d - 1;
                    proof {
                        assert forall|w: int| 0 <= w < NUM_WORKSPACES implies #[trigger] self@.window_count[w]
                            >= windows_on(self@.windows, w as usize) by {
                            lemma_windows_on_insert(
                                m0.windows,
                                window_address,
                                new_workspace_id,
                                w as usize,
                            );
                            lemma_windows_on_remove(m0.windows, window_address, w as usize);
                        }
                    }
                    WorkspaceAction::Nothing
                } else {
                    WorkspaceAction::Report(
                        HyprlandCommunicationError::RequestInexistantWindow {
                            requested_address: window_address,
                            addresses_in_memory: self.addresses(),
                        },
                    )
                }
            },
            _ => WorkspaceAction::Nothing,
        }
    }
}

proof fn lemma_clients_counts(cs: Seq<HyprlandClient>, w: usize)
    requires
        forall|i: int| 0 <= i < cs.len() ==> client_failure(#[trigger] cs[i]) is None,
    ensures
        clients_windows(cs).dom().finite(),
        forall|a: u64| #[trigger]
            clients_windows(cs).contains_key(a) ==> clients_windows(cs)[a] < NUM_WORKSPACES,
        clients_on(cs, w as int) >= windows_on(clients_windows(cs), w),
    decreases cs.len(),
{
    if cs.len() > 0 {
        let pre = cs.drop_last();
        assert forall|i: int| 0 <= i < pre.len() implies client_failure(#[trigger] pre[i]) is None by {
            assert(pre[i] == cs[i]);
        }
        assert(client_failure(cs[cs.len() - 1]) is None);
        lemma_clients_counts(pre, w);
        let m = clients_windows(pre);
        let c = cs.last();
        lemma_windows_on_insert(m, client_address(c).unwrap(), (c.workspace_id - 1) as usize, w);
        lemma_windows_on_remove(m, client_address(c).unwrap(), w);
    } else {
        assert(clients_windows(cs).dom() =~= Set::empty());
        assert(clients_windows(cs).dom().filter(placed_on(clients_windows(cs), w)) =~= Set::empty());
    }
}

/// The sum of all counts.
pub open spec fn total(counts: Seq<u32>) -> int
    decreases counts.len(),
{
    if counts.len() == 0 {
        0
    } else {
        total(counts.drop_last()) + counts.last()
    }
}

proof fn lemma_total_update(counts: Seq<u32>, i: int, x: u32)
    requires
        0 <= i < counts.len(),
    ensures
        total(counts.update(i, x)) == total(counts) - counts[i] + x,
    decreases counts.len(),
{
    let u = counts.update(i, x);
    if i < counts.len() - 1 {
        assert(u.drop_last() =~= counts.drop_last().update(i, x));
        lemma_total_update(counts.drop_last(), i, x);
    } else {
        assert(u.drop_last() =~= counts.drop_last());
    }
}

/// Opening a window under an address that is not known, then closing that
/// address, gives back the counts and the window map as they were. (The
/// count that the opening raises must have room in its 32 bits.)
pub proof fn open_then_close_restores(m: WorkspaceModel, address: u64, workspace_id: usize)
    requires
        model_wf(m),
        !m.windows.contains_key(address),
        workspace_id < NUM_WORKSPACES,
        m.window_count[workspace_id as int] < u32::MAX,
    ensures
        ({
            let opened = apply_event(
                m,
                HyprlandWorkspaceEvent::OpenWindow { window_address: address, workspace_id },
            );
            let closed = apply_event(
                opened,
                HyprlandWorkspaceEvent::CloseWindow { window_address: address },
            );
            closed.window_count == m.window_count && closed.windows == m.windows
        }),
{
    let opened = apply_event(
        m,
        HyprlandWorkspaceEvent::OpenWindow { window_address: address, workspace_id },
    );
    let closed = apply_event(
        opened,
        HyprlandWorkspaceEvent::CloseWindow { window_address: address },
    );
    assert(closed.window_count =~= m.window_count);
    assert(closed.windows =~= m.windows);
}

/// Moving a known window takes one from the count of its old workspace and
/// adds one to the count of the new one (the two cancel out when they are
/// the same), and leaves the total unchanged. (The count that the move
/// raises must have room in its 32 bits.)
pub proof fn move_shifts_one(m: WorkspaceModel, address: u64, new_workspace_id: usize)
    requires
        model_wf(m),
        m.windows.contains_key(address),
        new_workspace_id < NUM_WORKSPACES,
        m.window_count[new_workspace_id as int] < u32::MAX,
    ensures
        ({
            let old_id = m.windows[address];
            let moved = apply_event(
                m,
                HyprlandWorkspaceEvent::MoveWindow { window_address: address, new_workspace_id },
            );
            &&& forall|w: int|
                0 <= w < NUM_WORKSPACES ==> #[trigger] moved.window_count[w] == m.window_count[w]
                    + (if w == new_workspace_id {
                    1int
                } else {
                    0int
                }) - (if w == old_id {
                    1int
                } else {
                    0int
                })
            &&& total(moved.window_count) == total(m.window_count)
        }),
{
    let p = m.windows[address] as int;
    let w = new_workspace_id as int;
    lemma_windows_on_remove(m.windows, address, p as usize);
    assert(m.window_count[p] >= 1);
    let raised = m.window_count.update(w, (m.window_count[w] + 1) as u32);
    lemma_total_update(m.window_count, w, (m.window_count[w] + 1) as u32);
    lemma_total_update(raised, p, (raised[p] - 1) as u32);
}

/// Closing or moving a window that is not known changes nothing.
pub proof fn unknown_window_is_ignored(m: WorkspaceModel, e: HyprlandWorkspaceEvent)
    requires
        requests_unknown_window(m, e),
    ensures
        apply_event(m, e) == m,
{
}

/// Whether every count equals the number of windows on its workspace.
pub open spec fn counts_exact(m: WorkspaceModel) -> bool {
    forall|w: int|
        0 <= w < NUM_WORKSPACES ==> #[trigger] m.window_count[w] == windows_on(m.windows, w as usize)
}

/// Exact counts stay exact under every event but the opening of a window
/// under an address that is already known.
pub proof fn exact_counts_kept(m: WorkspaceModel, e: HyprlandWorkspaceEvent)
    requires
        model_wf(m),
        event_fits(m, e),
        counts_exact(m),
        !(e matches HyprlandWorkspaceEvent::OpenWindow { window_address, .. }
            && m.windows.contains_key(window_address)),
    ensures
        counts_exact(apply_event(m, e)),
{
    let n = apply_event(m, e);
    match e {
        HyprlandWorkspaceEvent::OpenWindow { window_address, workspace_id } => {
            assert forall|w: int| 0 <= w < NUM_WORKSPACES implies #[trigger] n.window_count[w]
                == windows_on(n.windows, w as usize) by {
                lemma_windows_on_insert(m.windows, window_address, workspace_id, w as usize);
                lemma_windows_on_remove(m.windows, window_address, w as usize);
            }
        },
        HyprlandWorkspaceEvent::CloseWindow { window_address } => {
            assert forall|w: int| 0 <= w < NUM_WORKSPACES implies #[trigger] n.window_count[w]
                == windows_on(n.windows, w as usize) by {
                lemma_windows_on_remove(m.windows, window_address, w as usize);
            }
        },
        HyprlandWorkspaceEvent::MoveWindow { window_address, new_workspace_id } => {
            assert forall|w: int| 0 <= w < NUM_WORKSPACES implies #[trigger] n.window_count[w]
                == windows_on(n.windows, w as usize) by {
                lemma_windows_on_insert(m.windows, window_address, new_workspace_id, w as usize);
                lemma_windows_on_remove(m.windows, window_address, w as usize);
            }
        },
        _ => {},
    }
}

} // verus!
