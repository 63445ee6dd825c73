//! The dependency graph the presenter queries: node lookup by package
//! identity and transitive traversal of incoming ("depended on by") edges,
//! rendered as an indented forest rooted at a vulnerable package.
//!
//! Traversal never revisits a node already on the current path, so it
//! terminates even if the graph, against expectation, holds a cycle
//! reachable through incoming edges.

use vstd::prelude::*;
use crate::lines::{Line, LineModel, lines_view};
use crate::report::{Package, PackageModel};

verus! {

/// A directed dependency graph over packages. `dependents[i]` lists the
/// indices of the packages that depend on `nodes[i]` (incoming edges).
pub struct DependencyTree {
    pub nodes: Vec<Package>,
    pub dependents: Vec<Vec<usize>>,
}

/// Number of `true` entries in an on-path marker vector.
pub open spec fn count_marked(s: Seq<bool>) -> int
    decreases s.len(),
{
    if s.len() == 0 {
        0
    } else {
        count_marked(s.drop_last()) + if s.last() {
            1int
        } else {
            0int
        }
    }
}

/// Updating one slot moves the marked count by the difference at that slot.
pub proof fn lemma_count_marked_update(s: Seq<bool>, i: int, v: bool)
    requires
        0 <= i < s.len(),
    ensures
        count_marked(s.update(i, v)) == count_marked(s) + (if v { 1int } else { 0int }) - (
        if s[i] {
            1int
        } else {
            0int
        }),
    decreases s.len(),
{
    let t = s.update(i, v);
    if i == s.len() - 1 {
        assert(t.drop_last() =~= s.drop_last());
    } else {
        assert(t.drop_last() =~= s.drop_last().update(i, v));
        assert(t.last() == s.last());
        lemma_count_marked_update(s.drop_last(), i, v);
    }
}

/// The marked count never exceeds the length.
pub proof fn lemma_count_marked_le_len(s: Seq<bool>)
    ensures
        0 <= count_marked(s) <= s.len(),
    decreases s.len(),
{
    if s.len() > 0 {
        lemma_count_marked_le_len(s.drop_last());
    }
}

/// An unmarked slot keeps the marked count strictly below the length.
pub proof fn lemma_count_marked_lt_len(s: Seq<bool>, i: int)
    requires
        0 <= i < s.len(),
        !s[i],
    ensures
        count_marked(s) < s.len(),
    decreases s.len(),
{
    if i == s.len() - 1 {
        lemma_count_marked_le_len(s.drop_last());
    } else {
        lemma_count_marked_lt_len(s.drop_last(), i);
        lemma_count_marked_le_len(s);
    }
}

/// First node whose package identity equals `k`, scanning from position `i`.
pub open spec fn spec_lookup_from(nodes: Seq<Package>, k: PackageModel, i: int) -> Option<int>
    decreases nodes.len() - i,
{
    if i < 0 || i >= nodes.len() {
        None
    } else if nodes[i]@ == k {
        Some(i)
    } else {
        spec_lookup_from(nodes, k, i + 1)
    }
}

impl DependencyTree {
    /// Every incoming-edge index points at a node of the graph.
    pub open spec fn wf(&self) -> bool {
        &&& self.dependents@.len() == self.nodes@.len()
        &&& forall|i: int, j: int|
            0 <= i < self.dependents@.len() && 0 <= j < self.dependents@[i]@.len()
                ==> self.dependents@[i]@[j] < self.nodes@.len()
    }

    /// Index of the node holding the given package identity.
    pub open spec fn spec_lookup(&self, k: PackageModel) -> Option<int> {
        spec_lookup_from(self.nodes@, k, 0)
    }

    /// Locates the node for a package, or reports that the package is
    /// missing from the graph.
    pub fn lookup(&self, package: &Package) -> (r: Option<usize>)
        ensures
            match r {
                Some(i) => i < self.nodes@.len() && self.spec_lookup(package@) == Some(i as int),
                None => self.spec_lookup(package@) is None,
            },
    {
        let mut i: usize = 0;
        while i < self.nodes.len()
            invariant
                0 <= i <= self.nodes@.len(),
                spec_lookup_from(self.nodes@, package@, 0) == spec_lookup_from(
                    self.nodes@,
                    package@,
                    i as int,
                ),
            decreases self.nodes@.len() - i,
        {
            if self.nodes[i].same_key(package) {
                return Some(i);
            }
            i += 1;
        }
        None
    }

    /// Lines of the subtree rooted at `node`: the node itself at `depth`,
    /// then, for each dependent not already on the current path, its own
    /// subtree one level deeper.
    pub open spec fn spec_render_node(
        &self,
        node: int,
        depth: int,
        on_path: Seq<bool>,
    ) -> Seq<LineModel>
        decreases self.nodes@.len() - count_marked(on_path), 0int, 0int,
        when self.wf() && 0 <= node < self.nodes@.len() && on_path.len() == self.nodes@.len()
            && !on_path[node]
        via Self::spec_render_node_decreases
    {
        seq![LineModel::TreeNode { depth, package: self.nodes@[node]@ }]
            + self.spec_render_children(
            self.dependents@[node]@,
            0,
            depth,
            on_path.update(node, true),
        )
    }

    #[via_fn]
    proof fn spec_render_node_decreases(&self, node: int, depth: int, on_path: Seq<bool>) {
        lemma_count_marked_update(on_path, node, true);
        lemma_count_marked_le_len(on_path.update(node, true));
    }

    /// Lines contributed by the dependents listed in `children`, from
    /// position `c` on, each rendered only if not already on the path.
    pub open spec fn spec_render_children(
        &self,
        children: Seq<usize>,
        c: int,
        depth: int,
        on_path: Seq<bool>,
    ) -> Seq<LineModel>
        decreases self.nodes@.len() - count_marked(on_path), 1int, children.len() - c,
        when self.wf() && on_path.len() == self.nodes@.len() && (forall|j: int|
            0 <= j < children.len() ==> children[j] < self.nodes@.len())
        via Self::spec_render_children_decreases
    {
        if c < 0 || c >= children.len() {
            Seq::empty()
        } else {
            let rest = self.spec_render_children(children, c + 1, depth, on_path);
            if on_path[children[c] as int] {
                rest
            } else {
                self.spec_render_node(children[c] as int, depth + 1, on_path) + rest
            }
        }
    }

    #[via_fn]
    proof fn spec_render_children_decreases(
        &self,
        children: Seq<usize>,
        c: int,
        depth: int,
        on_path: Seq<bool>,
    ) {
        lemma_count_marked_le_len(on_path);
    }

    /// Lines of the whole inverse-dependency forest rooted at `node`, with
    /// no node yet on the path.
    pub open spec fn spec_render_forest(&self, node: int) -> Seq<LineModel> {
        self.spec_render_node(node, 0, Seq::new(self.nodes@.len(), |i: int| false))
    }

    /// Renders the subtree rooted at `node` after `out`, leaving the on-path
    /// markers as they were.
    fn render_node(&self, node: usize, depth: u64, on_path: &mut Vec<bool>, out: &mut Vec<Line>)
        requires
            self.wf(),
            node < self.nodes@.len(),
            old(on_path)@.len() == self.nodes@.len(),
            !old(on_path)@[node as int],
            depth as int <= count_marked(old(on_path)@),
        ensures
            final(on_path)@ == old(on_path)@,
            lines_view(final(out)@) == lines_view(old(out)@) + self.spec_render_node(
                node as int,
                depth as int,
                old(on_path)@,
            ),
        decreases self.nodes@.len() - count_marked(old(on_path)@),
    {
        proof {
            lemma_count_marked_lt_len(on_path@, node as int);
        }
        let ghost entry_path = on_path@;
        let pkg = self.nodes[node].duplicate();
        let ghost old_lines = lines_view(out@);
        out.push(Line::TreeNode { depth, package: pkg });
        proof {
            assert(lines_view(out@) =~= old_lines + seq![
                LineModel::TreeNode { depth: depth as int, package: self.nodes@[node as int]@ },
            ]);
        }
        on_path.set(node, true);
        proof {
            lemma_count_marked_update(entry_path, node as int, true);
        }
        let ghost marked_path = on_path@;
        let ghost base = lines_view(out@);
        let children = &self.dependents[node];
        let ghost cs = children@;
        let ghost whole = self.spec_render_children(cs, 0, depth as int, marked_path);
        let mut c: usize = 0;
        while c < children.len()
            invariant
                self.wf(),
                node < self.nodes@.len(),
                cs == children@,
                cs == self.dependents@[node as int]@,
                forall|j: int| 0 <= j < cs.len() ==> cs[j] < self.nodes@.len(),
                on_path@ == marked_path,
                entry_path == old(on_path)@,
                marked_path == entry_path.update(node as int, true),
                entry_path.len() == self.nodes@.len(),
                !entry_path[node as int],
                count_marked(marked_path) == count_marked(entry_path) + 1,
                0 <= c <= cs.len(),
                depth as int <= count_marked(entry_path),
                whole == self.spec_render_children(cs, 0, depth as int, marked_path),
                lines_view(out@) + self.spec_render_children(cs, c as int, depth as int, marked_path)
                    == base + whole,
            decreases cs.len() - c,
        {
            let child = children[c];
            let ghost pre_lines = lines_view(out@);
            if !on_path[child] {
                proof {
                    lemma_count_marked_lt_len(entry_path, node as int);
                    assert(self.nodes.len() == self.nodes@.len());
                }
                self.render_node(child, depth + 1, on_path, out);
                proof {
                    let sub = self.spec_render_node(child as int, depth as int + 1, marked_path);
                    let rest = self.spec_render_children(cs, c as int + 1, depth as int, marked_path);
                    assert(self.spec_render_children(cs, c as int, depth as int, marked_path)
                        == sub + rest);
                    assert((pre_lines + sub) + rest =~= pre_lines + (sub + rest));
                }
            } else {
                proof {
                    assert(self.spec_render_children(cs, c as int, depth as int, marked_path)
                        == self.spec_render_children(cs, c as int + 1, depth as int, marked_path));
                }
            }
            c += 1;
        }
        proof {
            assert(self.spec_render_children(cs, c as int, depth as int, marked_path)
                =~= Seq::<LineModel>::empty());
            assert(lines_view(out@) + Seq::<LineModel>::empty() =~= lines_view(out@));
        }
        on_path.set(node, false);
        proof {
            assert(on_path@ =~= entry_path);
            assert(base + whole =~= lines_view(old(out)@) + self.spec_render_node(
                node as int,
                depth as int,
                entry_path,
            ));
        }
    }

    /// Renders the inverse-dependency forest rooted at `node` after `out`.
    pub fn render_forest(&self, node: usize, out: &mut Vec<Line>)
        requires
            self.wf(),
            node < self.nodes@.len(),
        ensures
            lines_view(final(out)@) == lines_view(old(out)@) + self.spec_render_forest(
                node as int,
            ),
    {
        let mut on_path: Vec<bool> = Vec::new();
        let mut i: usize = 0;
        while i < self.nodes.len()
            invariant
                0 <= i <= self.nodes@.len(),
                on_path@.len() == i,
                forall|j: int| 0 <= j < i ==> !on_path@[j],
                count_marked(on_path@) == 0,
            decreases self.nodes@.len() - i,
        {
            let ghost prev = on_path@;
            on_path.push(false);
            proof {
                assert(on_path@.drop_last() =~= prev);
                assert(count_marked(on_path@) == 0);
            }
            i += 1;
        }
        proof {
            assert(on_path@ =~= Seq::new(self.nodes@.len(), |j: int| false));
        }
        self.render_node(node, 0, &mut on_path, out);
    }
}

} // verus!
