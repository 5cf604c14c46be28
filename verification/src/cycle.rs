//! Cycle detection on a directed graph given by adjacency lists.
//!
//! Vertices are the indices of the outer sequence; the list at index `u`
//! holds the vertices that `u` points to. [`find_cycle`] walks the graph
//! depth first, without recursion, and returns a cycle if there is one.

use vstd::prelude::*;

verus! {

/// The adjacency lists held by a vector of vectors.
pub open spec fn lists(adj: Seq<Vec<usize>>) -> Seq<Seq<usize>> {
    Seq::new(adj.len(), |u: int| adj[u]@)
}

/// Every edge leads to a vertex of the graph.
pub open spec fn closed(adj: Seq<Seq<usize>>) -> bool {
    forall|u: int, k: int|
        0 <= u < adj.len() && 0 <= k < adj[u].len() ==> (#[trigger] adj[u][k]) < adj.len()
}

/// There is an edge from `path[k]` to `path[k + 1]`.
pub open spec fn follows(adj: Seq<Seq<usize>>, path: Seq<usize>, k: int) -> bool {
    adj[path[k] as int].contains(path[k + 1])
}

/// `path` is a closed walk: each vertex points to the next, and the last
/// points to the first.
pub open spec fn is_cycle(adj: Seq<Seq<usize>>, path: Seq<usize>) -> bool {
    &&& path.len() > 0
    &&& forall|k: int| 0 <= k < path.len() ==> (#[trigger] path[k]) < adj.len()
    &&& forall|k: int| 0 <= k < path.len() - 1 ==> #[trigger] follows(adj, path, k)
    &&& adj[path.last() as int].contains(path[0])
}

/// No closed walk exists.
pub open spec fn acyclic(adj: Seq<Seq<usize>>) -> bool {
    forall|path: Seq<usize>| !is_cycle(adj, path)
}

/// `rank` gives every vertex a number greater than that of each vertex it
/// points to.
pub open spec fn is_ranking(adj: Seq<Seq<usize>>, rank: Seq<nat>) -> bool {
    &&& rank.len() == adj.len()
    &&& forall|u: int, k: int|
        0 <= u < adj.len() && 0 <= k < adj[u].len() ==> (#[trigger] adj[u][k]) < adj.len()
            && rank[adj[u][k] as int] < rank[u]
}

proof fn lemma_rank_descends(adj: Seq<Seq<usize>>, rank: Seq<nat>, path: Seq<usize>, k: int)
    requires
        is_ranking(adj, rank),
        is_cycle(adj, path),
        0 <= k < path.len(),
    ensures
        rank[path[k] as int] + k <= rank[path[0] as int],
    decreases k,
{
    if k > 0 {
        lemma_rank_descends(adj, rank, path, k - 1);
        assert(follows(adj, path, k - 1));
        let u = path[k - 1] as int;
        assert(path[k - 1] < adj.len());
        let at = choose|at: int| 0 <= at < adj[u].len() && adj[u][at] == path[k];
        assert(rank[adj[u][at] as int] < rank[u]);
    }
}

/// A graph with a ranking has no cycle.
pub proof fn lemma_ranking_excludes_cycles(adj: Seq<Seq<usize>>, rank: Seq<nat>)
    requires
        is_ranking(adj, rank),
    ensures
        acyclic(adj),
{
    assert forall|path: Seq<usize>| !is_cycle(adj, path) by {
        if is_cycle(adj, path) {
            let last = path.len() - 1;
            lemma_rank_descends(adj, rank, path, last);
            let u = path[last] as int;
            assert(path[last] < adj.len());
            let at = choose|at: int| 0 <= at < adj[u].len() && adj[u][at] == path[0];
            assert(rank[adj[u][at] as int] < rank[u]);
        }
    }
}

/// How far the walk has come with a vertex.
#[derive(Clone, Copy)]
enum Mark {
    /// Not reached yet.
    Fresh,
    /// On the trail: reached, and not all of its edges followed.
    Active,
    /// All of its edges followed.
    Done,
}

/// The number of vertices not reached yet.
spec fn fresh_count(marks: Seq<Mark>) -> nat
    decreases marks.len(),
{
    if marks.len() == 0 {
        0
    } else {
        fresh_count(marks.drop_last()) + if marks.last() is Fresh {
            1nat
        } else {
            0nat
        }
    }
}

proof fn lemma_fresh_count_update(marks: Seq<Mark>, at: int, mark: Mark)
    requires
        0 <= at < marks.len(),
    ensures
        fresh_count(marks.update(at, mark)) + (if marks[at] is Fresh {
            1nat
        } else {
            0nat
        }) == fresh_count(marks) + (if mark is Fresh {
            1nat
        } else {
            0nat
        }),
    decreases marks.len(),
{
    let updated = marks.update(at, mark);
    if at == marks.len() - 1 {
        assert(updated.drop_last() =~= marks.drop_last());
    } else {
        lemma_fresh_count_update(marks.drop_last(), at, mark);
        assert(updated.drop_last() =~= marks.drop_last().update(at, mark));
    }
}

/// The state of a depth-first walk.
struct Walk {
    /// The mark of each vertex.
    marks: Vec<Mark>,
    /// For each vertex, the number of its edges that have been followed.
    cursor: Vec<usize>,
    /// The active vertices, each reached from the one before it.
    trail: Vec<usize>,
    /// The order in which vertices were done.
    rank: Ghost<Seq<nat>>,
    /// The number of vertices that are done.
    finished: Ghost<nat>,
}

impl Walk {
    /// The vertex at `i` of the trail reached the next one by the edge that
    /// it followed last.
    spec fn descends(&self, adj: Seq<Seq<usize>>, i: int) -> bool {
        let u = self.trail@[i] as int;
        self.cursor@[u] >= 1 && adj[u][self.cursor@[u] - 1] == self.trail@[i + 1]
    }

    /// The edge `k` of the vertex at `i` of the trail leads to a vertex that
    /// is done, or to the next vertex of the trail.
    spec fn settled(&self, adj: Seq<Seq<usize>>, i: int, k: int) -> bool {
        let u = self.trail@[i] as int;
        self.marks@[adj[u][k] as int] is Done || (i + 1 < self.trail@.len() && k
            == self.cursor@[u] - 1)
    }

    /// The vertex `u` is on the trail.
    spec fn on_trail(&self, u: int) -> bool {
        exists|i: int| 0 <= i < self.trail@.len() && self.trail@[i] == u
    }

    /// What holds of a walk between two steps.
    spec fn inv(&self, adj: Seq<Seq<usize>>) -> bool {
        let n = adj.len();
        let marks = self.marks@;
        let cursor = self.cursor@;
        let trail = self.trail@;
        let rank = self.rank@;
        &&& marks.len() == n
        &&& cursor.len() == n
        &&& rank.len() == n
        &&& forall|u: int| 0 <= u < n ==> #[trigger] cursor[u] <= adj[u].len()
        &&& forall|u: int| 0 <= u < n && (#[trigger] marks[u]) is Fresh ==> cursor[u] == 0
        &&& forall|i: int|
            0 <= i < trail.len() ==> (#[trigger] trail[i]) < n && marks[trail[i] as int] is Active
        &&& forall|i: int, j: int| 0 <= i < j < trail.len() ==> trail[i] != trail[j]
        &&& forall|u: int|
            0 <= u < n && (#[trigger] marks[u]) is Active ==> self.on_trail(u)
        &&& forall|i: int| 0 <= i < trail.len() - 1 ==> #[trigger] self.descends(adj, i)
        &&& forall|i: int, k: int|
            0 <= i < trail.len() && 0 <= k < cursor[trail[i] as int] ==> #[trigger] self.settled(
                adj,
                i,
                k,
            )
        &&& forall|u: int, k: int|
            0 <= u < n && marks[u] is Done && 0 <= k < adj[u].len() ==> marks[(
            #[trigger] adj[u][k]) as int] is Done && rank[adj[u][k] as int] < rank[u]
        &&& forall|u: int| 0 <= u < n && (#[trigger] marks[u]) is Done ==> rank[u] < self.finished@
    }

    /// A walk that has reached nothing.
    fn new(n: usize) -> (walk: Walk)
        ensures
            walk.marks@.len() == n,
            walk.cursor@.len() == n,
            walk.rank@.len() == n,
            walk.trail@.len() == 0,
            forall|u: int| 0 <= u < n ==> (#[trigger] walk.marks@[u]) is Fresh,
            forall|u: int| 0 <= u < n ==> #[trigger] walk.cursor@[u] == 0,
    {
        let mut marks: Vec<Mark> = Vec::new();
        let mut cursor: Vec<usize> = Vec::new();
        let mut u: usize = 0;
        while u < n
            invariant
                u <= n,
                marks@.len() == u,
                cursor@.len() == u,
                forall|v: int| 0 <= v < u ==> (#[trigger] marks@[v]) is Fresh,
                forall|v: int| 0 <= v < u ==> #[trigger] cursor@[v] == 0,
            decreases n - u,
        {
            marks.push(Mark::Fresh);
            cursor.push(0);
            u += 1;
        }
        Walk {
            marks,
            cursor,
            trail: Vec::new(),
            rank: Ghost(Seq::new(n as nat, |v: int| 0nat)),
            finished: Ghost(0nat),
        }
    }

    /// The number of edges of the last vertex of the trail that have not been
    /// followed.
    spec fn remaining(&self, adj: Seq<Seq<usize>>) -> int {
        if self.trail@.len() > 0 {
            adj[self.trail@.last() as int].len() - self.cursor@[self.trail@.last() as int]
        } else {
            0
        }
    }

    /// The cycle that shows when the next edge of the last vertex of the trail
    /// leads to the active vertex `v`: the trail from `v` on.
    fn cycle_through(&self, adj: &Vec<Vec<usize>>, v: usize) -> (path: Vec<usize>)
        requires
            self.inv(lists(adj@)),
            self.trail@.len() > 0,
            v < adj@.len(),
            self.marks@[v as int] is Active,
            lists(adj@)[self.trail@.last() as int].contains(v),
        ensures
            is_cycle(lists(adj@), path@),
            path@.no_duplicates(),
    {
        let ghost graph = lists(adj@);
        let ghost trail = self.trail@;
        let len = self.trail.len();
        let mut start: usize = 0;
        while self.trail[start] != v
            invariant
                len == trail.len(),
                trail == self.trail@,
                0 <= start < len,
                exists|at: int| 0 <= at < trail.len() && trail[at] == v,
                forall|i: int| 0 <= i < start ==> trail[i] != v,
            decreases len - start,
        {
            start += 1;
            proof {
                let at = choose|at: int| 0 <= at < trail.len() && trail[at] == v;
                assert(at >= start);
            }
        }
        let mut path: Vec<usize> = Vec::new();
        let mut i: usize = start;
        while i < len
            invariant
                len == trail.len(),
                trail == self.trail@,
                start <= i <= len,
                path@ == trail.subrange(start as int, i as int),
            decreases len - i,
        {
            path.push(self.trail[i]);
            proof {
                assert(path@ =~= trail.subrange(start as int, i + 1));
            }
            i += 1;
        }
        proof {
            assert(path@.len() == len - start);
            assert forall|k: int| 0 <= k < path@.len() - 1 implies #[trigger] follows(
                graph,
                path@,
                k,
            ) by {
                assert(self.descends(graph, start + k));
                let u = trail[start + k] as int;
                assert(self.cursor@[u] <= graph[u].len());
                assert(graph[u][self.cursor@[u] - 1] == path@[k + 1]);
            }
            assert(path@.last() == trail.last());
            assert(path@[0] == v);
            assert forall|i: int, j: int|
                0 <= i < path@.len() && 0 <= j < path@.len() && i != j implies path@[i]
                != path@[j] by {
                assert(trail[start + i] != trail[start + j]);
            }
        }
        path
    }

    /// Follows edges from the trail until the trail is empty or a cycle
    /// shows.
    fn explore(&mut self, adj: &Vec<Vec<usize>>) -> (found: Option<Vec<usize>>)
        requires
            closed(lists(adj@)),
            old(self).inv(lists(adj@)),
        ensures
            match found {
                Some(path) => is_cycle(lists(adj@), path@) && path@.no_duplicates(),
                None => {
                    &&& final(self).inv(lists(adj@))
                    &&& final(self).trail@.len() == 0
                    &&& forall|u: int|
                        0 <= u < adj@.len() && !(old(self).marks@[u] is Fresh) ==> !((
                        #[trigger] final(self).marks@[u]) is Fresh)
                },
            },
    {
        let ghost graph = lists(adj@);
        while self.trail.len() > 0
            invariant
                graph == lists(adj@),
                closed(graph),
                self.inv(graph),
                forall|u: int|
                    0 <= u < adj@.len() && !(old(self).marks@[u] is Fresh) ==> !((
                    #[trigger] self.marks@[u]) is Fresh),
            decreases fresh_count(self.marks@), self.trail@.len(), self.remaining(graph),
        {
            let ghost before = *self;
            let top = self.trail.len() - 1;
            let u = self.trail[top];
            let k = self.cursor[u];
            assert(graph[u as int] == adj@[u as int]@);
            if k < adj[u].len() {
                let v = adj[u][k];
                assert(graph[u as int][k as int] == v);
                match self.marks[v] {
                    Mark::Active => {
                        return Some(self.cycle_through(adj, v));
                    },
                    Mark::Fresh => {
                        self.cursor.set(u, k + 1);
                        self.marks.set(v, Mark::Active);
                        self.trail.push(v);
                        proof {
                            lemma_fresh_count_update(before.marks@, v as int, Mark::Active);
                            assert(self.trail@.drop_last() == before.trail@);
                            assert forall|i: int| 0 <= i < self.trail@.len() - 1 implies (
                            #[trigger] self.descends(graph, i)) by {
                                if i < top {
                                    assert(before.descends(graph, i));
                                }
                            }
                            assert forall|i: int, w: int|
                                0 <= i < self.trail@.len() && 0 <= w < self.cursor@[self.trail@[i] as int] implies (
                            #[trigger] self.settled(graph, i, w)) by {
                                if i < top {
                                    assert(before.settled(graph, i, w));
                                } else if i == top {
                                    if w < k {
                                        assert(before.settled(graph, i, w));
                                    }
                                }
                            }
                            assert forall|x: int|
                                0 <= x < graph.len() && (#[trigger] self.marks@[x])
                                    is Active implies self.on_trail(x) by {
                                if x == v {
                                    assert(self.trail@[top + 1] == v);
                                } else {
                                    assert(before.marks@[x] is Active);
                                    let at = choose|at: int|
                                        0 <= at < before.trail@.len() && before.trail@[at] == x;
                                    assert(self.trail@[at] == x);
                                }
                            }
                        }
                    },
                    Mark::Done => {
                        self.cursor.set(u, k + 1);
                        proof {
                            assert forall|i: int| 0 <= i < self.trail@.len() - 1 implies (
                            #[trigger] self.descends(graph, i)) by {
                                assert(before.descends(graph, i));
                            }
                            assert forall|i: int, w: int|
                                0 <= i < self.trail@.len() && 0 <= w < self.cursor@[self.trail@[i] as int] implies (
                            #[trigger] self.settled(graph, i, w)) by {
                                if i < top {
                                    assert(before.settled(graph, i, w));
                                } else if w < k {
                                    assert(before.settled(graph, i, w));
                                }
                            }
                        }
                    },
                }
            } else {
                self.marks.set(u, Mark::Done);
                self.trail.pop();
                proof {
                    lemma_fresh_count_update(before.marks@, u as int, Mark::Done);
                    self.rank@ = before.rank@.update(u as int, before.finished@);
                    self.finished@ = before.finished@ + 1;
                    assert(self.trail@ == before.trail@.drop_last());
                    assert forall|i: int| 0 <= i < self.trail@.len() - 1 implies (
                    #[trigger] self.descends(graph, i)) by {
                        assert(before.descends(graph, i));
                    }
                    assert forall|i: int, w: int|
                        0 <= i < self.trail@.len() && 0 <= w < self.cursor@[self.trail@[i] as int] implies (
                    #[trigger] self.settled(graph, i, w)) by {
                        assert(before.settled(graph, i, w));
                        if i == top - 1 && w == self.cursor@[self.trail@[i] as int] - 1 {
                            assert(before.descends(graph, i));
                        }
                    }
                    assert forall|x: int|
                        0 <= x < graph.len() && (#[trigger] self.marks@[x])
                            is Active implies self.on_trail(x) by {
                        assert(before.marks@[x] is Active);
                        let at = choose|at: int|
                            0 <= at < before.trail@.len() && before.trail@[at] == x;
                        assert(self.trail@[at] == x);
                    }
                    assert forall|x: int, w: int|
                        0 <= x < graph.len() && self.marks@[x] is Done && 0 <= w
                            < graph[x].len() implies self.marks@[(#[trigger] graph[x][w]) as int]
                        is Done && self.rank@[graph[x][w] as int] < self.rank@[x] by {
                        if x == u {
                            assert(before.settled(graph, top as int, w));
                        }
                    }
                }
            }
        }
        None
    }
}

/// Looks for a cycle in the graph `adj`.
///
/// Returns the vertices along a cycle, each once, if there is a cycle, and
/// `None` if the graph has none.
pub(crate) fn find_cycle(adj: &Vec<Vec<usize>>) -> (found: Option<Vec<usize>>)
    requires
        closed(lists(adj@)),
    ensures
        match found {
            Some(path) => is_cycle(lists(adj@), path@) && path@.no_duplicates(),
            None => acyclic(lists(adj@)),
        },
{
    let ghost graph = lists(adj@);
    let n = adj.len();
    let mut walk = Walk::new(n);
    let mut root: usize = 0;
    while root < n
        invariant
            n == adj@.len(),
            graph == lists(adj@),
            closed(graph),
            root <= n,
            walk.inv(graph),
            walk.trail@.len() == 0,
            forall|u: int| 0 <= u < root ==> !((#[trigger] walk.marks@[u]) is Fresh),
        decreases n - root,
    {
        match walk.marks[root] {
            Mark::Fresh => {
                let ghost before = walk;
                walk.marks.set(root, Mark::Active);
                walk.trail.push(root);
                proof {
                    assert(walk.trail@[0] == root);
                    assert forall|x: int|
                        0 <= x < graph.len() && (#[trigger] walk.marks@[x])
                            is Active implies walk.on_trail(x) by {
                        if x != root {
                            assert(before.marks@[x] is Active);
                            let at = choose|at: int|
                                0 <= at < before.trail@.len() && before.trail@[at] == x;
                            assert(walk.trail@[at] == x);
                        }
                    }
                }
                match walk.explore(adj) {
                    Some(path) => {
                        return Some(path);
                    },
                    None => {},
                }
            },
            _ => {},
        }
        root += 1;
    }
    proof {
        assert forall|u: int| 0 <= u < n implies (#[trigger] walk.marks@[u]) is Done by {
            if walk.marks@[u] is Active {
                assert(walk.on_trail(u));
            }
        }
        lemma_ranking_excludes_cycles(graph, walk.rank@);
    }
    None
}

} // verus!
