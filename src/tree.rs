//! Read-only hierarchical view of a chart, projected from its event log.

use vstd::prelude::*;

use crate::account::{specs_view, AccountSpec, AccountSpecView};
use crate::chart::{events_view, ChartEvent, ChartEventView};
use crate::code::AccountCode;
use crate::ids::ChartId;

verus! {

/// The specs of the `NodeAdded` events of a log, in log order.
pub open spec fn added_specs(evs: Seq<ChartEventView>) -> Seq<AccountSpecView>
    decreases evs.len(),
{
    if evs.len() == 0 {
        Seq::empty()
    } else {
        let prev = added_specs(evs.drop_last());
        match evs.last() {
            ChartEventView::NodeAdded { spec, .. } => prev.push(spec),
            _ => prev,
        }
    }
}

/// Position of the last spec before `n` whose code is `code`, or -1.
pub open spec fn last_position(specs: Seq<AccountSpecView>, code: Seq<Seq<char>>, n: int) -> int
    decreases n,
{
    if n <= 0 {
        -1
    } else if specs[n - 1].code == code {
        n - 1
    } else {
        last_position(specs, code, n - 1)
    }
}

/// The node that spec `j` hangs under: the last earlier spec with its parent
/// code, or -1 (a top-level node) where it has no parent or the parent does not
/// come before it.
pub open spec fn owner(specs: Seq<AccountSpecView>, j: int) -> int {
    match specs[j].parent {
        Some(p) => last_position(specs, p, j),
        None => -1,
    }
}

/// Positions before `n` of the specs that hang under node `k` (`k == -1`: the
/// top-level nodes), in order.
pub open spec fn child_positions(specs: Seq<AccountSpecView>, k: int, n: int) -> Seq<int>
    decreases n,
{
    if n <= 0 {
        Seq::empty()
    } else {
        let prev = child_positions(specs, k, n - 1);
        if n - 1 > k && owner(specs, n - 1) == k {
            prev.push(n - 1)
        } else {
            prev
        }
    }
}

/// One node of the tree: an account with its children in log order.
#[derive(Debug)]
pub struct TreeNode {
    pub name: String,
    pub code: AccountCode,
    pub children: Vec<TreeNode>,
}

/// The forest of a chart: its top-level nodes in log order.
#[derive(Debug)]
pub struct ChartTree {
    pub id: ChartId,
    pub name: String,
    pub children: Vec<TreeNode>,
}

/// `node` is the projection of spec `k`: its code and name, and as children the
/// projections of the specs that hang under it.
pub open spec fn node_is(specs: Seq<AccountSpecView>, k: int, node: TreeNode) -> bool
    decreases specs.len() - k,
{
    &&& 0 <= k < specs.len()
    &&& node.code@ == specs[k].code
    &&& node.name@ == specs[k].name
    &&& node.children@.len() == child_positions(specs, k, specs.len() as int).len()
    &&& forall|x: int|
        0 <= x < node.children@.len() ==> {
            let j = #[trigger] child_positions(specs, k, specs.len() as int)[x];
            k < j && j < specs.len() && node_is(specs, j, node.children@[x])
        }
}

/// `roots` are the projections of the top-level specs, in order.
pub open spec fn forest_is(specs: Seq<AccountSpecView>, roots: Seq<TreeNode>) -> bool {
    &&& roots.len() == child_positions(specs, -1, specs.len() as int).len()
    &&& forall|x: int|
        0 <= x < roots.len() ==> node_is(
            specs,
            #[trigger] child_positions(specs, -1, specs.len() as int)[x],
            roots[x],
        )
}

proof fn lemma_child_positions_range(specs: Seq<AccountSpecView>, k: int, n: int)
    ensures
        forall|x: int|
            0 <= x < child_positions(specs, k, n).len() ==> k < #[trigger] child_positions(
                specs,
                k,
                n,
            )[x] < n,
    decreases n,
{
    if n > 0 {
        lemma_child_positions_range(specs, k, n - 1);
        let prev = child_positions(specs, k, n - 1);
        let cur = child_positions(specs, k, n);
        assert forall|x: int| 0 <= x < cur.len() implies k < #[trigger] cur[x] < n by {
            if x < prev.len() {
                assert(cur[x] == prev[x]);
            }
        }
    }
}

fn owner_of(specs: &Vec<AccountSpec>, j: usize) -> (r: Option<usize>)
    requires
        j < specs@.len(),
    ensures
        match r {
            Some(i) => owner(specs_view(specs@), j as int) == i,
            None => owner(specs_view(specs@), j as int) == -1,
        },
{
    let ghost sv = specs_view(specs@);
    assert(sv[j as int] == specs@[j as int]@);
    let parent = match &specs[j].parent {
        Some(p) => p,
        None => {
            return None;
        },
    };
    assert(sv[j as int].parent == Some(parent@));
    let mut i: usize = j;
    while i > 0
        invariant
            sv == specs_view(specs@),
            sv[j as int].parent == Some(parent@),
            i <= j < sv.len(),
            last_position(sv, parent@, j as int) == last_position(sv, parent@, i as int),
        decreases i,
    {
        assert(sv[i - 1] == specs@[i - 1]@);
        if specs[i - 1].code.eq(parent) {
            return Some(i - 1);
        }
        i = i - 1;
    }
    None
}

fn build_node(specs: &Vec<AccountSpec>, k: usize) -> (r: TreeNode)
    requires
        k < specs@.len(),
    ensures
        node_is(specs_view(specs@), k as int, r),
    decreases specs@.len() - k,
{
    let ghost sv = specs_view(specs@);
    let ghost n = sv.len() as int;
    let mut children: Vec<TreeNode> = Vec::new();
    let mut j: usize = 0;
    while j < specs.len()
        invariant
            sv == specs_view(specs@),
            n == sv.len(),
            k < n,
            j <= n,
            children@.len() == child_positions(sv, k as int, j as int).len(),
            forall|x: int|
                0 <= x < children@.len() ==> {
                    let p = #[trigger] child_positions(sv, k as int, j as int)[x];
                    k < p && p < n && node_is(sv, p, children@[x])
                },
        decreases n - j,
    {
        let ghost before = children@;
        if j > k {
            match owner_of(specs, j) {
                Some(o) => {
                    if o == k {
                        let child = build_node(specs, j);
                        children.push(child);
                        assert forall|x: int| 0 <= x < children@.len() implies {
                            let p = #[trigger] child_positions(sv, k as int, j + 1)[x];
                            k < p && p < n && node_is(sv, p, children@[x])
                        } by {
                            if x < before.len() {
                                assert(child_positions(sv, k as int, j + 1)[x] == child_positions(
                                    sv,
                                    k as int,
                                    j as int,
                                )[x]);
                            }
                        }
                    }
                },
                None => {},
            }
        }
        j = j + 1;
    }
    let r = TreeNode { name: specs[k].name.to_string(), code: specs[k].code.clone(), children };
    assert(sv[k as int] == specs@[k as int]@);
    proof {
        lemma_child_positions_range(sv, k as int, n);
    }
    r
}

/// Builds the forest from the `NodeAdded` events of a log: each node hangs
/// under the last earlier node with its parent code; the others are top-level.
pub fn project(id: ChartId, name: &str, events: &Vec<ChartEvent>) -> (r: ChartTree)
    ensures
        r.id == id,
        r.name@ == name@,
        forest_is(added_specs(events_view(events@)), r.children@),
{
    let ghost evs = events_view(events@);
    let mut specs: Vec<AccountSpec> = Vec::new();
    let mut i: usize = 0;
    while i < events.len()
        invariant
            evs == events_view(events@),
            i <= evs.len(),
            specs_view(specs@) == added_specs(evs.subrange(0, i as int)),
        decreases evs.len() - i,
    {
        assert(evs.subrange(0, i + 1).drop_last() =~= evs.subrange(0, i as int));
        assert(evs[i as int] == events@[i as int]@);
        let ghost before = specs@;
        match &events[i] {
            ChartEvent::NodeAdded { spec, .. } => {
                specs.push(spec.clone());
                assert(specs_view(specs@) =~= specs_view(before).push(spec@));
            },
            _ => {},
        }
        i = i + 1;
    }
    assert(evs.subrange(0, i as int) =~= evs);
    let ghost sv = specs_view(specs@);
    let ghost n = sv.len() as int;
    let mut roots: Vec<TreeNode> = Vec::new();
    let mut j: usize = 0;
    while j < specs.len()
        invariant
            sv == specs_view(specs@),
            n == sv.len(),
            j <= n,
            roots@.len() == child_positions(sv, -1, j as int).len(),
            forall|x: int|
                0 <= x < roots@.len() ==> node_is(
                    sv,
                    #[trigger] child_positions(sv, -1, j as int)[x],
                    roots@[x],
                ),
        decreases n - j,
    {
        let ghost before = roots@;
        if owner_of(&specs, j).is_none() {
            let node = build_node(&specs, j);
            roots.push(node);
            assert forall|x: int| 0 <= x < roots@.len() implies node_is(
                sv,
                #[trigger] child_positions(sv, -1, j + 1)[x],
                roots@[x],
            ) by {
                if x < before.len() {
                    assert(child_positions(sv, -1, j + 1)[x] == child_positions(sv, -1, j as int)[x]);
                }
            }
        }
        j = j + 1;
    }
    ChartTree { id, name: String::from_str(name), children: roots }
}

} // verus!
