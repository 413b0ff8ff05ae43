//! X11 window-tree decisions behind the Linux webview's placement and focus
//! handling. The caller talks to the X server; these functions decide what
//! to ask next and what the answers mean.
use vstd::prelude::*;

verus! {

/// An X11 window id that can be targeted: it fits in 32 bits and is not 0.
pub open spec fn x11_window_id_spec(xid: u64) -> Option<u32> {
    if 0 < xid && xid <= u32::MAX {
        Some(xid as u32)
    } else {
        None
    }
}

/// Returns the window id for the raw id `xid`, or `None` when it is 0 or does
/// not fit in 32 bits.
pub fn x11_window_id(xid: u64) -> (r: Option<u32>)
    ensures
        r == x11_window_id_spec(xid),
{
    if xid == 0 || xid > 0xffff_ffffu64 {
        None
    } else {
        Some(xid as u32)
    }
}

/// Every window id is smaller than the ones after it.
pub open spec fn strictly_increasing(ids: Seq<u32>) -> bool {
    forall|i: int, j: int| 0 <= i < j < ids.len() ==> ids[i] < ids[j]
}

/// Sorts window ids and drops repeats: the result holds each id of `ids`
/// once, in increasing order.
pub fn normalize_window_ids(ids: Vec<u32>) -> (r: Vec<u32>)
    ensures
        strictly_increasing(r@),
        forall|w: u32| r@.contains(w) <==> ids@.contains(w),
{
    let mut out: Vec<u32> = Vec::new();
    let mut i: usize = 0;
    while i < ids.len()
        invariant
            i <= ids.len(),
            strictly_increasing(out@),
            forall|w: u32| out@.contains(w) <==> ids@.take(i as int).contains(w),
        decreases ids.len() - i,
    {
        let id = ids[i];
        let mut p: usize = 0;
        while p < out.len() && out[p] < id
            invariant
                p <= out.len(),
                forall|k: int| 0 <= k < p ==> out@[k] < id,
            decreases out.len() - p,
        {
            p = p + 1;
        }
        let ghost before = out@;
        if p < out.len() && out[p] == id {
        } else {
            out.insert(p, id);
            proof {
                assert forall|a: int, b: int| 0 <= a < b < out@.len() implies out@[a] < out@[b] by {
                    if b < p {
                    } else if b == p {
                    } else if a < p {
                        assert(before[a] < id);
                        assert(p < before.len() ==> id < before[p as int]);
                        assert(p as int <= b - 1);
                        if p as int != b - 1 {
                            assert(before[p as int] < before[b - 1]);
                        }
                    } else if a == p {
                        assert(id < before[p as int]);
                        if p as int != b - 1 {
                            assert(before[p as int] < before[b - 1]);
                        }
                    } else {
                        assert(before[a - 1] < before[b - 1]);
                    }
                }
                assert forall|w: u32| out@.contains(w) <==> (before.contains(w) || w == id) by {
                    if out@.contains(w) {
                        let k = choose|k: int| 0 <= k < out@.len() && out@[k] == w;
                        if k < p {
                            assert(before[k] == w);
                        } else if k > p {
                            assert(before[k - 1] == w);
                        }
                    }
                    if before.contains(w) {
                        let k = choose|k: int| 0 <= k < before.len() && before[k] == w;
                        if k < p {
                            assert(out@[k] == w);
                        } else {
                            assert(out@[k + 1] == w);
                        }
                    }
                    if w == id {
                        assert(out@[p as int] == w);
                    }
                }
            }
        }
        proof {
            let next = ids@.take(i + 1);
            assert(next =~= ids@.take(i as int).push(id));
            assert forall|w: u32| next.contains(w) <==> (ids@.take(i as int).contains(w) || w
                == id) by {
                if next.contains(w) {
                    let k = choose|k: int| 0 <= k < next.len() && next[k] == w;
                    if k < i {
                        assert(ids@.take(i as int)[k] == w);
                    }
                }
                if ids@.take(i as int).contains(w) {
                    let k = choose|k: int| 0 <= k < i && ids@.take(i as int)[k] == w;
                    assert(next[k] == w);
                }
                if w == id {
                    assert(next[i as int] == w);
                }
            }
            if p < before.len() && before[p as int] == id {
                assert(before.contains(id));
                assert(out@ == before);
            } else {
                assert(forall|w: u32| out@.contains(w) <==> (before.contains(w) || w == id));
            }
            assert forall|w: u32| out@.contains(w) <==> next.contains(w) by {
                assert(before.contains(w) <==> ids@.take(i as int).contains(w));
            }
        }
        i = i + 1;
    }
    assert(ids@.take(ids.len() as int) =~= ids@);
    out
}

/// The windows found below one X11 window.
#[derive(Debug, Clone, PartialEq, Eq)]
pub struct WindowTree {
    /// The window the tree starts at.
    pub root: u32,
    /// Every window below `root` that the X server reported.
    pub descendants: Vec<u32>,
}

/// A depth-first walk over the windows below one X11 window, fed with the
/// children the X server reports for each window it hands out.
pub struct WindowTreeWalk {
    root: u32,
    descendants: Vec<u32>,
    pending: Vec<u32>,
}

impl WindowTreeWalk {
    /// The window the walk started at.
    pub closed spec fn spec_root(&self) -> u32 {
        self.root
    }

    /// The windows found below the root so far, in discovery order.
    pub closed spec fn spec_descendants(&self) -> Seq<u32> {
        self.descendants@
    }

    /// The windows whose children are still to be asked for; the last is
    /// asked for first.
    pub closed spec fn spec_pending(&self) -> Seq<u32> {
        self.pending@
    }

    /// Starts a walk below `root`.
    pub fn new(root: u32) -> (r: Self)
        ensures
            r.spec_root() == root,
            r.spec_descendants() == Seq::<u32>::empty(),
            r.spec_pending() == seq![root],
    {
        let mut pending: Vec<u32> = Vec::new();
        pending.push(root);
        WindowTreeWalk { root, descendants: Vec::new(), pending }
    }

    /// Hands out the next window whose children must be asked for: the most
    /// recently found one still pending, or `None` when the walk is over.
    pub fn next_window(&mut self) -> (r: Option<u32>)
        ensures
            final(self).spec_root() == old(self).spec_root(),
            final(self).spec_descendants() == old(self).spec_descendants(),
            old(self).spec_pending().len() == 0 ==> r is None && final(self).spec_pending()
                == old(self).spec_pending(),
            old(self).spec_pending().len() > 0 ==> r == Some(old(self).spec_pending().last())
                && final(self).spec_pending() == old(self).spec_pending().drop_last(),
    {
        self.pending.pop()
    }

    /// Records the children the X server reported for the window handed out
    /// last; each is found and still to be asked for.
    pub fn record_children(&mut self, children: &[u32])
        ensures
            final(self).spec_root() == old(self).spec_root(),
            final(self).spec_descendants() == old(self).spec_descendants() + children@,
            final(self).spec_pending() == old(self).spec_pending() + children@,
    {
        let mut i: usize = 0;
        while i < children.len()
            invariant
                i <= children.len(),
                self.root == old(self).root,
                self.descendants@ == old(self).descendants@ + children@.take(i as int),
                self.pending@ == old(self).pending@ + children@.take(i as int),
            decreases children.len() - i,
        {
            self.descendants.push(children[i]);
            self.pending.push(children[i]);
            proof {
                assert(children@.take(i + 1) =~= children@.take(i as int).push(children@[i as int]));
            }
            i = i + 1;
        }
        assert(children@.take(children.len() as int) =~= children@);
    }

    /// Ends the walk with the windows found below the root.
    pub fn into_tree(self) -> (r: WindowTree)
        ensures
            r.root == self.spec_root(),
            r.descendants@ == self.spec_descendants(),
    {
        WindowTree { root: self.root, descendants: self.descendants }
    }
}

/// Returns true when `windows` holds `window`.
fn holds_window(windows: &[u32], window: u32) -> (r: bool)
    ensures
        r == windows@.contains(window),
{
    let mut i: usize = 0;
    while i < windows.len()
        invariant
            i <= windows.len(),
            forall|k: int| 0 <= k < i ==> windows@[k] != window,
        decreases windows.len() - i,
    {
        if windows[i] == window {
            return true;
        }
        i = i + 1;
    }
    false
}

/// `window` is the root of one of `trees` or lies below it.
pub open spec fn in_window_trees(window: u32, trees: Seq<WindowTree>) -> bool {
    exists|i: int|
        0 <= i < trees.len() && (#[trigger] trees[i]).root == window
            || 0 <= i < trees.len() && trees[i].descendants@.contains(window)
}

/// Returns true when `window` is the root of one of `trees` or lies below
/// it.
pub fn window_in_trees(window: u32, trees: &[WindowTree]) -> (r: bool)
    ensures
        r == in_window_trees(window, trees@),
{
    let mut i: usize = 0;
    while i < trees.len()
        invariant
            i <= trees.len(),
            forall|k: int|
                0 <= k < i ==> (#[trigger] trees@[k]).root != window
                    && !trees@[k].descendants@.contains(window),
        decreases trees.len() - i,
    {
        if trees[i].root == window || holds_window(trees[i].descendants.as_slice(), window) {
            return true;
        }
        i = i + 1;
    }
    false
}

/// After the webview was refused keyboard focus, the host window takes it
/// back when the focused window is not the host and belongs to the webview's
/// window trees.
pub fn focus_needs_restore(host: u32, focused: u32, webview_trees: &[WindowTree]) -> (r: bool)
    ensures
        r == (focused != host && in_window_trees(focused, webview_trees@)),
{
    focused != host && window_in_trees(focused, webview_trees)
}

/// With no webview windows known, the host window takes keyboard focus
/// back at once, without asking the X server which window holds it.
pub fn restores_focus_unasked(webview_roots: &[u32]) -> (r: bool)
    ensures
        r == (webview_roots@.len() == 0),
{
    webview_roots.len() == 0
}

/// Most parent steps a climb from a webview window toward the host takes.
pub const MAX_CONTAINER_CLIMB: u32 = 32;

/// A climb from a webview window toward the host window, looking for the
/// host's direct child that contains the webview. The caller asks the X
/// server for the parent of each window the climb hands out.
pub struct ContainerClimb {
    host: u32,
    candidate: u32,
    steps: u32,
    done: bool,
}

impl ContainerClimb {
    /// The host window.
    pub closed spec fn spec_host(&self) -> u32 {
        self.host
    }

    /// The window the climb has reached.
    pub closed spec fn spec_candidate(&self) -> u32 {
        self.candidate
    }

    /// Parent steps taken so far.
    pub closed spec fn spec_steps(&self) -> u32 {
        self.steps
    }

    /// The climb gave up or found the container.
    pub closed spec fn spec_done(&self) -> bool {
        self.done
    }

    /// The window whose parent must be asked for next: the candidate, while
    /// the climb is on, has not reached the host and has steps left.
    pub open spec fn spec_next_query(&self) -> Option<u32> {
        if !self.spec_done() && self.spec_candidate() != self.spec_host() && self.spec_steps()
            < MAX_CONTAINER_CLIMB {
            Some(self.spec_candidate())
        } else {
            None
        }
    }

    /// Starts a climb from `start` toward `host`.
    pub fn new(host: u32, start: u32) -> (r: Self)
        ensures
            r.spec_host() == host,
            r.spec_candidate() == start,
            r.spec_steps() == 0,
            !r.spec_done(),
    {
        ContainerClimb { host, candidate: start, steps: 0, done: false }
    }

    /// Returns the window whose parent must be asked for next, or `None`
    /// when the climb is over.
    pub fn next_query(&self) -> (r: Option<u32>)
        ensures
            r == self.spec_next_query(),
    {
        if !self.done && self.candidate != self.host && self.steps < MAX_CONTAINER_CLIMB {
            Some(self.candidate)
        } else {
            None
        }
    }

    /// Records the parent the X server reported for the candidate (`None`
    /// when the query failed). The candidate is the container when its parent
    /// is the host; the climb gives up on a failed query, a missing parent or
    /// a window that is its own parent, and otherwise moves to the parent.
    pub fn record_parent(&mut self, parent: Option<u32>) -> (r: Option<u32>)
        ensures
            final(self).spec_host() == old(self).spec_host(),
            match parent {
                None => r is None && final(self).spec_done() && final(self).spec_candidate()
                    == old(self).spec_candidate() && final(self).spec_steps() == old(
                    self,
                ).spec_steps(),
                Some(p) => if p == old(self).spec_host() {
                    r == Some(old(self).spec_candidate()) && final(self).spec_done()
                        && final(self).spec_candidate() == old(self).spec_candidate()
                        && final(self).spec_steps() == old(self).spec_steps()
                } else if p == 0 || p == old(self).spec_candidate() {
                    r is None && final(self).spec_done() && final(self).spec_candidate() == old(
                        self,
                    ).spec_candidate() && final(self).spec_steps() == old(self).spec_steps()
                } else {
                    r is None && final(self).spec_done() == old(self).spec_done()
                        && final(self).spec_candidate() == p && final(self).spec_steps() == (if old(
                        self,
                    ).spec_steps() == u32::MAX {
                        u32::MAX
                    } else {
                        (old(self).spec_steps() + 1) as u32
                    })
                },
            },
    {
        match parent {
            None => {
                self.done = true;
                None
            },
            Some(p) => {
                if p == self.host {
                    self.done = true;
                    Some(self.candidate)
                } else if p == 0 || p == self.candidate {
                    self.done = true;
                    None
                } else {
                    self.candidate = p;
                    self.steps = self.steps.saturating_add(1);
                    None
                }
            },
        }
    }
}

/// The host child `child` contains the webview: it is one of the webview's
/// root windows or one of them lies below it.
pub open spec fn holds_webview(child: WindowTree, roots: Seq<u32>) -> bool {
    roots.contains(child.root) || exists|k: int|
        0 <= k < roots.len() && child.descendants@.contains(#[trigger] roots[k])
}

/// `i` is the first of `children` that contains the webview.
pub open spec fn is_first_holder(children: Seq<WindowTree>, roots: Seq<u32>, i: int) -> bool {
    &&& 0 <= i < children.len()
    &&& holds_webview(children[i], roots)
    &&& forall|j: int| 0 <= j < i ==> !holds_webview(#[trigger] children[j], roots)
}

/// Returns true when `child` contains one of the webview's root windows.
fn child_holds_webview(child: &WindowTree, roots: &[u32]) -> (r: bool)
    ensures
        r == holds_webview(*child, roots@),
{
    if holds_window(roots, child.root) {
        return true;
    }
    let mut k: usize = 0;
    while k < roots.len()
        invariant
            k <= roots.len(),
            forall|m: int| 0 <= m < k ==> !child.descendants@.contains(#[trigger] roots@[m]),
        decreases roots.len() - k,
    {
        if holds_window(child.descendants.as_slice(), roots[k]) {
            return true;
        }
        k = k + 1;
    }
    false
}

/// Picks the host's direct child that contains the webview, given each
/// child's window tree: the first child that is one of `roots` or has one
/// below it; failing that, the first child; `None` when the host has none.
pub fn pick_container(children: &[WindowTree], roots: &[u32]) -> (r: Option<u32>)
    ensures
        (exists|i: int| is_first_holder(children@, roots@, i)) ==> exists|i: int|
            is_first_holder(children@, roots@, i) && r == Some(children@[i].root),
        !(exists|i: int| is_first_holder(children@, roots@, i)) ==> r == (if children@.len()
            > 0 {
            Some(children@[0].root)
        } else {
            None
        }),
{
    let mut i: usize = 0;
    while i < children.len()
        invariant
            i <= children.len(),
            forall|j: int| 0 <= j < i ==> !holds_webview(#[trigger] children@[j], roots@),
        decreases children.len() - i,
    {
        if child_holds_webview(&children[i], roots) {
            assert(is_first_holder(children@, roots@, i as int));
            return Some(children[i].root);
        }
        i = i + 1;
    }
    assert(!(exists|i: int| is_first_holder(children@, roots@, i)));
    if children.len() > 0 {
        Some(children[0].root)
    } else {
        None
    }
}

} // verus!
