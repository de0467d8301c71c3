//! The workspace state and its widget.
//!
//! The workspaces are kept ordered by their id: one is added where its id
//! belongs, and looked for there when it is taken out.

use vstd::prelude::*;

verus! {

/// A workspace: its id and its name.
pub type Workspace = (i32, String);

/// The workspaces in the order of their ids, the index of the active one
/// and the title of the focused window.
#[derive(Clone, Debug)]
pub struct HyprlandState {
    pub workspaces: Vec<Workspace>,
    pub activeworkspaceindex: usize,
    pub activewindow: String,
}

/// What the window manager reports, as far as the status bar follows it.
#[derive(Clone, Debug)]
pub enum HyprlandEvent {
    /// The workspace with this id became the active one.
    WorkspaceChanged(i32),
    /// The workspace with this id was closed.
    WorkspaceDeleted(i32),
    /// A workspace with this id and name was opened.
    WorkspaceAdded(i32, String),
    /// The window with this title has the focus, or no window has.
    ActiveWindowChanged(Option<String>),
    /// Another monitor is active, showing the workspace of this name.
    ActiveMonitorChanged(Option<String>),
    /// Anything else.
    Other,
}

/// Whether the ids never fall from one workspace to the next.
pub open spec fn sorted_by_id(ws: Seq<Workspace>) -> bool {
    forall|i: int, j: int| 0 <= i <= j < ws.len() ==> ws[i].0 <= ws[j].0
}

/// Where a workspace with the id `id` belongs: the number of workspaces at
/// the front whose id is smaller.
pub open spec fn insertion_point(ws: Seq<Workspace>, id: i32) -> int
    decreases ws.len(),
{
    if ws.len() == 0 || ws[0].0 >= id {
        0
    } else {
        1 + insertion_point(ws.skip(1), id)
    }
}

/// The workspaces ordered by id, those of one id in the order they came in:
/// each is put where its id belongs among those that came after it.
pub open spec fn ordered(ws: Seq<Workspace>) -> Seq<Workspace>
    decreases ws.len(),
{
    if ws.len() == 0 {
        ws
    } else {
        let rest = ordered(ws.skip(1));
        rest.insert(insertion_point(rest, ws[0].0), ws[0])
    }
}

/// Whether a workspace with the id `id` stands where it belongs.
pub open spec fn has_id(ws: Seq<Workspace>, id: i32) -> bool {
    insertion_point(ws, id) < ws.len() && ws[insertion_point(ws, id)].0 == id
}

/// The index of the first workspace with the id `id`, or the number of
/// workspaces when there is none.
pub open spec fn first_with_id(ws: Seq<Workspace>, id: i32) -> int
    decreases ws.len(),
{
    if ws.len() == 0 || ws[0].0 == id {
        0
    } else {
        1 + first_with_id(ws.skip(1), id)
    }
}

/// The index of the first workspace with the name `name`, or the number of
/// workspaces when there is none.
pub open spec fn first_with_name(ws: Seq<Workspace>, name: Seq<char>) -> int
    decreases ws.len(),
{
    if ws.len() == 0 || ws[0].1@ == name {
        0
    } else {
        1 + first_with_name(ws.skip(1), name)
    }
}

/// The title of the first window whose place in the focus history is 0, the
/// one that has the focus; empty when there is none.
pub open spec fn focused_title(clients: Seq<(i8, String)>) -> Seq<char>
    decreases clients.len(),
{
    if clients.len() == 0 {
        Seq::empty()
    } else if clients[0].0 == 0 {
        clients[0].1@
    } else {
        focused_title(clients.skip(1))
    }
}

/// The insertion point is the one index with only smaller ids before it
/// and no smaller id at it.
pub proof fn lemma_insertion_point(ws: Seq<Workspace>, id: i32, p: int)
    requires
        0 <= p <= ws.len(),
        forall|j: int| 0 <= j < p ==> ws[j].0 < id,
        p < ws.len() ==> ws[p].0 >= id,
    ensures
        insertion_point(ws, id) == p,
    decreases p,
{
    if p > 0 {
        let rest = ws.skip(1);
        assert(forall|j: int| 0 <= j < p - 1 ==> rest[j] == ws[j + 1]);
        lemma_insertion_point(rest, id, p - 1);
    }
}

/// In an ordered list, a workspace with the id `id` exists exactly when one
/// stands at the insertion point, and that one is the first of them.
pub proof fn lemma_has_id(ws: Seq<Workspace>, id: i32)
    requires
        sorted_by_id(ws),
    ensures
        has_id(ws, id) <==> exists|i: int| 0 <= i < ws.len() && ws[i].0 == id,
        has_id(ws, id) ==> first_with_id(ws, id) == insertion_point(ws, id),
        0 <= insertion_point(ws, id) <= ws.len(),
    decreases ws.len(),
{
    if ws.len() > 0 && ws[0].0 < id {
        let rest = ws.skip(1);
        assert(forall|j: int| 0 <= j < rest.len() ==> rest[j] == ws[j + 1]);
        assert(sorted_by_id(rest)) by {
            assert forall|i: int, j: int| 0 <= i <= j < rest.len() implies rest[i].0
                <= rest[j].0 by {
                assert(ws[i + 1].0 <= ws[j + 1].0);
            }
        }
        lemma_has_id(rest, id);
        if exists|i: int| 0 <= i < ws.len() && ws[i].0 == id {
            let i = choose|i: int| 0 <= i < ws.len() && ws[i].0 == id;
            assert(rest[i - 1].0 == id);
        }
        if has_id(rest, id) {
            assert(ws[insertion_point(rest, id) + 1].0 == id);
        }
    } else if ws.len() > 0 {
        if exists|i: int| 0 <= i < ws.len() && ws[i].0 == id {
            let i = choose|i: int| 0 <= i < ws.len() && ws[i].0 == id;
            assert(ws[0].0 <= ws[i].0);
        }
    }
}

/// Ordering keeps every workspace, and the ids never fall in the result.
pub proof fn lemma_ordered(ws: Seq<Workspace>)
    ensures
        sorted_by_id(ordered(ws)),
        ordered(ws).to_multiset() == ws.to_multiset(),
        ordered(ws).len() == ws.len(),
    decreases ws.len(),
{
    if ws.len() == 0 {
    } else {
        let rest = ordered(ws.skip(1));
        let p = insertion_point(rest, ws[0].0);
        lemma_ordered(ws.skip(1));
        lemma_before_point(rest, ws[0].0, p);
        lemma_insert_keeps_order(rest, p, ws[0]);
        lemma_insert_multiset(rest, p, ws[0]);
        lemma_front_multiset(ws);
    }
}

/// A list holds its first workspace and what the rest holds.
proof fn lemma_front_multiset(ws: Seq<Workspace>)
    requires
        ws.len() > 0,
    ensures
        ws.to_multiset() == ws.skip(1).to_multiset().insert(ws[0]),
{
    assert(ws.remove(0) =~= ws.skip(1));
    ws.to_multiset_ensures();
    assert(ws.contains(ws[0]));
    assert(ws.skip(1).to_multiset() =~= ws.to_multiset().remove(ws[0]));
    assert(ws.to_multiset() =~= ws.skip(1).to_multiset().insert(ws[0]));
}

/// Putting a workspace in holds what was held, and the workspace.
proof fn lemma_insert_multiset(ws: Seq<Workspace>, p: int, w: Workspace)
    requires
        0 <= p <= ws.len(),
    ensures
        ws.insert(p, w).to_multiset() == ws.to_multiset().insert(w),
{
    let after = ws.insert(p, w);
    assert(after.remove(p) =~= ws);
    after.to_multiset_ensures();
    assert(after[p] == w);
    assert(after.contains(w));
    assert(ws.to_multiset() =~= after.to_multiset().remove(w));
    assert(after.to_multiset() =~= ws.to_multiset().insert(w));
}

/// Putting a workspace where its id belongs keeps the order.
proof fn lemma_insert_keeps_order(ws: Seq<Workspace>, p: int, w: Workspace)
    requires
        sorted_by_id(ws),
        0 <= p <= ws.len(),
        forall|j: int| 0 <= j < p ==> ws[j].0 <= w.0,
        forall|j: int| p <= j < ws.len() ==> w.0 <= ws[j].0,
    ensures
        sorted_by_id(ws.insert(p, w)),
{
    let after = ws.insert(p, w);
    assert forall|i: int, j: int| 0 <= i <= j < after.len() implies after[i].0 <= after[j].0 by {
        if i < p && j > p {
            assert(ws[i].0 <= ws[j - 1].0);
        } else if i > p {
            assert(ws[i - 1].0 <= ws[j - 1].0);
        } else if i < p && j < p {
            assert(ws[i].0 <= ws[j].0);
        }
    }
}

/// Orders the workspaces by id.
fn sort_workspaces(workspaces: Vec<Workspace>) -> (out: Vec<Workspace>)
    ensures
        out@ == ordered(workspaces@),
{
    let mut input = workspaces;
    let mut out: Vec<Workspace> = Vec::new();
    assert(workspaces@.skip(workspaces@.len() as int) =~= Seq::<Workspace>::empty());
    while input.len() > 0
        invariant
            input@ == workspaces@.take(input@.len() as int),
            input@.len() <= workspaces@.len(),
            out@ == ordered(workspaces@.skip(input@.len() as int)),
        decreases input@.len(),
    {
        let ghost k = input@.len() as int;
        let item = input.pop().unwrap();
        let mut p: usize = 0;
        while p < out.len() && out[p].0 < item.0
            invariant
                p <= out@.len(),
                forall|j: int| 0 <= j < p ==> out@[j].0 < item.0,
            decreases out@.len() - p,
        {
            p = p + 1;
        }
        proof {
            assert(item == workspaces@[k - 1]);
            lemma_insertion_point(out@, item.0, p as int);
            assert(workspaces@.skip(k - 1).skip(1) =~= workspaces@.skip(k));
            assert(workspaces@.skip(k - 1)[0] == item);
            assert(input@ =~= workspaces@.take(k - 1));
        }
        out.insert(p, item);
    }
    assert(workspaces@.skip(0) =~= workspaces@);
    out
}

/// Finds the title of the focused window.
fn find_focused(clients: &Vec<(i8, String)>) -> (title: String)
    ensures
        title@ == focused_title(clients@),
{
    let mut i: usize = 0;
    assert(clients@.skip(0) =~= clients@);
    while i < clients.len()
        invariant
            i <= clients@.len(),
            focused_title(clients@) == focused_title(clients@.skip(i as int)),
        decreases clients@.len() - i,
    {
        if clients[i].0 == 0 {
            return clients[i].1.clone();
        }
        assert(clients@.skip(i as int).skip(1) =~= clients@.skip(i + 1));
        i = i + 1;
    }
    String::new()
}

impl HyprlandState {
    /// What the methods keep: the workspaces are ordered by id.
    pub open spec fn wf(&self) -> bool {
        sorted_by_id(self.workspaces@)
    }

    /// The state at startup, from the workspaces in any order and the
    /// windows with their place in the focus history: the same workspaces
    /// ordered by id, the first of them active, and the title of the
    /// focused window.
    pub fn new(workspaces: Vec<Workspace>, clients: &Vec<(i8, String)>) -> (s: Self)
        ensures
            s.wf(),
            s.workspaces@ == ordered(workspaces@),
            s.workspaces@.to_multiset() == workspaces@.to_multiset(),
            s.activeworkspaceindex == 0,
            s.activewindow@ == focused_title(clients@),
    {
        proof {
            lemma_ordered(workspaces@);
        }
        HyprlandState {
            workspaces: sort_workspaces(workspaces),
            activeworkspaceindex: 0,
            activewindow: find_focused(clients),
        }
    }

    /// Where a workspace with the id `id` belongs.
    fn scan(&self, id: i32) -> (p: usize)
        ensures
            p == insertion_point(self.workspaces@, id),
            p <= self.workspaces@.len(),
    {
        let mut p: usize = 0;
        while p < self.workspaces.len() && self.workspaces[p].0 < id
            invariant
                p <= self.workspaces@.len(),
                forall|j: int| 0 <= j < p ==> self.workspaces@[j].0 < id,
            decreases self.workspaces@.len() - p,
        {
            p = p + 1;
        }
        proof {
            lemma_insertion_point(self.workspaces@, id, p as int);
        }
        p
    }

    /// The workspace `id` became the active one: the index is that of the
    /// first workspace with this id, and stays when there is none.
    pub fn workspace_changed(&mut self, id: i32)
        ensures
            final(self).workspaces == old(self).workspaces,
            final(self).activewindow == old(self).activewindow,
            final(self).activeworkspaceindex == if first_with_id(old(self).workspaces@, id) < old(
                self,
            ).workspaces@.len() {
                first_with_id(old(self).workspaces@, id)
            } else {
                old(self).activeworkspaceindex as int
            },
    {
        let mut i: usize = 0;
        assert(self.workspaces@.skip(0) =~= self.workspaces@);
        while i < self.workspaces.len()
            invariant
                i <= self.workspaces@.len(),
                *self == *old(self),
                first_with_id(self.workspaces@, id) == i + first_with_id(
                    self.workspaces@.skip(i as int),
                    id,
                ),
            decreases self.workspaces@.len() - i,
        {
            if self.workspaces[i].0 == id {
                self.activeworkspaceindex = i;
                return ;
            }
            assert(self.workspaces@.skip(i as int).skip(1) =~= self.workspaces@.skip(i + 1));
            i = i + 1;
        }
    }

    /// The workspace `id` was closed: the workspace that stands where this
    /// id belongs is taken out, if it has this id. In an ordered list that
    /// is the first workspace with the id.
    pub fn workspace_deleted(&mut self, id: i32)
        ensures
            final(self).activeworkspaceindex == old(self).activeworkspaceindex,
            final(self).activewindow == old(self).activewindow,
            final(self).workspaces@ == if has_id(old(self).workspaces@, id) {
                old(self).workspaces@.remove(insertion_point(old(self).workspaces@, id))
            } else {
                old(self).workspaces@
            },
            old(self).wf() ==> final(self).wf(),
    {
        let pos: usize = self.scan(id);
        if pos < self.workspaces.len() && self.workspaces[pos].0 == id {
            let ghost before = self.workspaces@;
            self.workspaces.remove(pos);
            proof {
                if sorted_by_id(before) {
                    assert forall|i: int, j: int|
                        0 <= i <= j < self.workspaces@.len() implies self.workspaces@[i].0
                        <= self.workspaces@[j].0 by {
                        let a = if i < pos {
                            i
                        } else {
                            i + 1
                        };
                        let b = if j < pos {
                            j
                        } else {
                            j + 1
                        };
                        assert(before[a].0 <= before[b].0);
                    }
                }
            }
        }
    }

    /// The workspace `id` was opened under `name`: it is put where its id
    /// belongs, unless a workspace with this id stands there already.
    pub fn workspace_added(&mut self, id: i32, name: String)
        ensures
            final(self).activeworkspaceindex == old(self).activeworkspaceindex,
            final(self).activewindow == old(self).activewindow,
            final(self).workspaces@ == if has_id(old(self).workspaces@, id) {
                old(self).workspaces@
            } else {
                old(self).workspaces@.insert(insertion_point(old(self).workspaces@, id), (id, name))
            },
            old(self).wf() ==> final(self).wf(),
    {
        let pos: usize = self.scan(id);
        if pos < self.workspaces.len() && self.workspaces[pos].0 == id {
        } else {
            let ghost before = self.workspaces@;
            proof {
                lemma_before_point(before, id, pos as int);
                if sorted_by_id(before) {
                    assert(forall|j: int|
                        pos <= j < before.len() ==> before[pos as int].0 <= before[j].0);
                    lemma_insert_keeps_order(before, pos as int, (id, name));
                }
            }
            self.workspaces.insert(pos, (id, name));
        }
    }

    /// Another window has the focus, or none has: the title is that
    /// window's, or empty.
    pub fn active_window_changed(&mut self, title: Option<String>)
        ensures
            final(self).workspaces == old(self).workspaces,
            final(self).activeworkspaceindex == old(self).activeworkspaceindex,
            final(self).activewindow@ == match title {
                Some(t) => t@,
                None => Seq::<char>::empty(),
            },
    {
        self.activewindow = match title {
            Some(t) => t,
            None => String::new(),
        };
    }

    /// Another monitor is active, showing the workspace `name` if it names
    /// one: the index is that of the first workspace with this name, and
    /// stays when there is none.
    pub fn active_monitor_changed(&mut self, name: Option<String>)
        ensures
            final(self).workspaces == old(self).workspaces,
            final(self).activewindow == old(self).activewindow,
            final(self).activeworkspaceindex == match name {
                Some(n) => if first_with_name(old(self).workspaces@, n@) < old(
                    self,
                ).workspaces@.len() {
                    first_with_name(old(self).workspaces@, n@)
                } else {
                    old(self).activeworkspaceindex as int
                },
                None => old(self).activeworkspaceindex as int,
            },
    {
        let target: &String = match &name {
            Some(n) => n,
            None => {
                return ;
            },
        };
        let mut i: usize = 0;
        assert(self.workspaces@.skip(0) =~= self.workspaces@);
        while i < self.workspaces.len()
            invariant
                i <= self.workspaces@.len(),
                *self == *old(self),
                name == Some(*target),
                first_with_name(self.workspaces@, target@) == i + first_with_name(
                    self.workspaces@.skip(i as int),
                    target@,
                ),
            decreases self.workspaces@.len() - i,
        {
            if *target == self.workspaces[i].1 {
                self.activeworkspaceindex = i;
                return ;
            }
            assert(self.workspaces@.skip(i as int).skip(1) =~= self.workspaces@.skip(i + 1));
            i = i + 1;
        }
    }
}

/// Whether `after` is the workspace state that `event` makes of `before`.
pub open spec fn workspace_step(
    before: HyprlandState,
    event: HyprlandEvent,
    after: HyprlandState,
) -> bool {
    let ws = before.workspaces@;
    match event {
        HyprlandEvent::WorkspaceChanged(id) => {
            &&& after.workspaces == before.workspaces
            &&& after.activewindow == before.activewindow
            &&& after.activeworkspaceindex == if first_with_id(ws, id) < ws.len() {
                first_with_id(ws, id)
            } else {
                before.activeworkspaceindex as int
            }
        },
        HyprlandEvent::WorkspaceDeleted(id) => {
            &&& after.activeworkspaceindex == before.activeworkspaceindex
            &&& after.activewindow == before.activewindow
            &&& after.workspaces@ == if has_id(ws, id) {
                ws.remove(insertion_point(ws, id))
            } else {
                ws
            }
        },
        HyprlandEvent::WorkspaceAdded(id, name) => {
            &&& after.activeworkspaceindex == before.activeworkspaceindex
            &&& after.activewindow == before.activewindow
            &&& after.workspaces@ == if has_id(ws, id) {
                ws
            } else {
                ws.insert(insertion_point(ws, id), (id, name))
            }
        },
        HyprlandEvent::ActiveWindowChanged(title) => {
            &&& after.workspaces == before.workspaces
            &&& after.activeworkspaceindex == before.activeworkspaceindex
            &&& after.activewindow@ == match title {
                Some(t) => t@,
                None => Seq::<char>::empty(),
            }
        },
        HyprlandEvent::ActiveMonitorChanged(name) => {
            &&& after.workspaces == before.workspaces
            &&& after.activewindow == before.activewindow
            &&& after.activeworkspaceindex == match name {
                Some(n) => if first_with_name(ws, n@) < ws.len() {
                    first_with_name(ws, n@)
                } else {
                    before.activeworkspaceindex as int
                },
                None => before.activeworkspaceindex as int,
            }
        },
        HyprlandEvent::Other => after == before,
    }
}

impl HyprlandState {
    /// Takes one event of the window manager.
    pub fn apply(&mut self, event: HyprlandEvent)
        ensures
            workspace_step(*old(self), event, *final(self)),
            old(self).wf() ==> final(self).wf(),
    {
        match event {
            HyprlandEvent::WorkspaceChanged(id) => self.workspace_changed(id),
            HyprlandEvent::WorkspaceDeleted(id) => self.workspace_deleted(id),
            HyprlandEvent::WorkspaceAdded(id, name) => self.workspace_added(id, name),
            HyprlandEvent::ActiveWindowChanged(title) => self.active_window_changed(title),
            HyprlandEvent::ActiveMonitorChanged(name) => self.active_monitor_changed(name),
            HyprlandEvent::Other => {},
        }
    }
}

/// Before the insertion point every id is smaller.
pub proof fn lemma_before_point(ws: Seq<Workspace>, id: i32, p: int)
    requires
        p == insertion_point(ws, id),
    ensures
        0 <= p <= ws.len(),
        forall|j: int| 0 <= j < p ==> ws[j].0 < id,
        p < ws.len() ==> ws[p].0 >= id,
    decreases ws.len(),
{
    if ws.len() > 0 && ws[0].0 < id {
        let rest = ws.skip(1);
        lemma_before_point(rest, id, p - 1);
        assert(forall|j: int| 0 < j < p ==> ws[j] == rest[j - 1]);
        assert(p < ws.len() ==> ws[p] == rest[p - 1]);
    }
}

/// The workspace widget.
#[derive(Clone, Copy, Debug)]
pub struct HyprlandWorkSpaceWidget {}

/// The tab to highlight: the active index, or the last tab when the index
/// is past it; `None` when there is no tab.
pub open spec fn selected_tab(count: int, active: int) -> Option<int> {
    if count == 0 {
        None
    } else if active > count - 1 {
        Some(count - 1)
    } else {
        Some(active)
    }
}

impl HyprlandWorkSpaceWidget {
    /// The widget; it has no settings.
    pub fn new() -> Self {
        HyprlandWorkSpaceWidget {  }
    }

    /// The index of the tab to highlight for `state`.
    pub fn select(&self, state: &HyprlandState) -> (tab: Option<usize>)
        ensures
            match tab {
                Some(t) => selected_tab(
                    state.workspaces@.len() as int,
                    state.activeworkspaceindex as int,
                ) == Some(t as int),
                None => selected_tab(
                    state.workspaces@.len() as int,
                    state.activeworkspaceindex as int,
                ) is None,
            },
    {
        if state.workspaces.len() == 0 {
            return None;
        }
        let workspace_num: usize = state.workspaces.len() - 1;
        if state.activeworkspaceindex > workspace_num {
            Some(workspace_num)
        } else {
            Some(state.activeworkspaceindex)
        }
    }
}

} // verus!
