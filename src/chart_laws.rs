//! Laws of the chart commands, stated over the step functions that their
//! contracts use.

use vstd::prelude::*;

use crate::account::AccountSpecView;
use crate::chart::{
    children_ids, create_node_step, lemma_find_code_range, find_code, find_id, manual_account_step,
    manual_account_name, replay_accounts, replay_manual, ChartErrorView, ChartEventView,
    DetailsView, IdOrCodeView, Idempotent, ManualAccountView, NewAccountView,
};
use crate::code::{join_dots, manual_external_id};
use crate::ids::{CalaAccountSetId, ChartId, LedgerAccountId};

verus! {

proof fn lemma_find_code_same_codes(a: Seq<DetailsView>, b: Seq<DetailsView>, c: Seq<Seq<char>>)
    requires
        a.len() == b.len(),
        forall|k: int| 0 <= k < a.len() ==> (#[trigger] a[k]).spec.code == b[k].spec.code,
    ensures
        find_code(a, c) == find_code(b, c),
    decreases a.len(),
{
    if a.len() > 0 {
        assert(a.last().spec.code == b.last().spec.code);
        lemma_find_code_same_codes(a.drop_last(), b.drop_last(), c);
    }
}

proof fn lemma_children_same(a: Seq<DetailsView>, b: Seq<DetailsView>, c: Seq<Seq<char>>)
    requires
        a.len() == b.len(),
        forall|k: int|
            0 <= k < a.len() ==> (#[trigger] a[k]).spec == b[k].spec && a[k].set_id == b[k].set_id,
    ensures
        children_ids(a, c) == children_ids(b, c),
    decreases a.len(),
{
    if a.len() > 0 {
        assert(a.last().spec == b.last().spec);
        lemma_children_same(a.drop_last(), b.drop_last(), c);
    }
}

/// No code appears twice in an index.
pub open spec fn codes_unique(a: Seq<DetailsView>) -> bool {
    forall|i: int, j: int|
        0 <= i < j < a.len() ==> (#[trigger] a[i]).spec.code != (#[trigger] a[j]).spec.code
}

proof fn lemma_find_code_absent(a: Seq<DetailsView>, c: Seq<Seq<char>>)
    requires
        find_code(a, c) < 0,
    ensures
        forall|k: int| 0 <= k < a.len() ==> (#[trigger] a[k]).spec.code != c,
    decreases a.len(),
{
    if a.len() > 0 {
        lemma_find_code_absent(a.drop_last(), c);
        assert forall|k: int| 0 <= k < a.len() implies (#[trigger] a[k]).spec.code != c by {
            if k < a.len() - 1 {
                assert(a[k] == a.drop_last()[k]);
            }
        }
    }
}

/// The account index of every log holds each code at most once: replaying
/// the log is a map keyed by code.
pub proof fn lemma_index_codes_unique(evs: Seq<ChartEventView>)
    ensures
        codes_unique(replay_accounts(evs)),
    decreases evs.len(),
{
    if evs.len() > 0 {
        lemma_index_codes_unique(evs.drop_last());
        let a = replay_accounts(evs.drop_last());
        let r = replay_accounts(evs);
        match evs.last() {
            ChartEventView::Initialized { .. } => {},
            ChartEventView::NodeAdded { spec, set_id } => {
                lemma_find_code_range(a, spec.code);
                let i = find_code(a, spec.code);
                if i < 0 {
                    lemma_find_code_absent(a, spec.code);
                    assert forall|x: int, y: int| 0 <= x < y < r.len() implies (#[trigger] r[x]).spec.code
                        != (#[trigger] r[y]).spec.code by {
                        if y == a.len() {
                            assert(r[x] == a[x]);
                        } else {
                            assert(r[x] == a[x] && r[y] == a[y]);
                        }
                    }
                } else {
                    assert forall|x: int, y: int| 0 <= x < y < r.len() implies (#[trigger] r[x]).spec.code
                        != (#[trigger] r[y]).spec.code by {
                        assert(r[x].spec.code == a[x].spec.code);
                        assert(r[y].spec.code == a[y].spec.code);
                    }
                }
            },
            ChartEventView::ManualTransactionAccountAdded { code, account_id } => {
                lemma_find_code_range(a, code);
                assert forall|x: int, y: int| 0 <= x < y < r.len() implies (#[trigger] r[x]).spec.code
                    != (#[trigger] r[y]).spec.code by {
                    assert(r[x].spec.code == a[x].spec.code);
                    assert(r[y].spec.code == a[y].spec.code);
                }
            },
        }
    }
}

/// Adding a node whose code is new, then adding it again, gives `Executed`
/// then `Ignored`, and the log grows by exactly one event.
pub proof fn lemma_create_node_idempotent(
    evs: Seq<ChartEventView>,
    spec: AccountSpecView,
    first_id: CalaAccountSetId,
    second_id: CalaAccountSetId,
)
    requires
        find_code(replay_accounts(evs), spec.code) < 0,
    ensures
        create_node_step(evs, spec, first_id).0 is Executed,
        create_node_step(create_node_step(evs, spec, first_id).1, spec, second_id).0 is Ignored,
        create_node_step(create_node_step(evs, spec, first_id).1, spec, second_id).1
            == create_node_step(evs, spec, first_id).1,
        create_node_step(create_node_step(evs, spec, first_id).1, spec, second_id).1.len()
            == evs.len() + 1,
{
    let e = ChartEventView::NodeAdded { spec, set_id: first_id };
    let evs1 = evs.push(e);
    assert(evs1.drop_last() =~= evs);
    let a = replay_accounts(evs);
    let d = DetailsView { spec, set_id: first_id, manual: None };
    assert(replay_accounts(evs1) == a.push(d));
    assert(a.push(d).drop_last() =~= a);
    assert(find_code(a.push(d), spec.code) == a.len());
}

/// A code with children never gets a manual account, whether asked for by
/// code or by the id of a manual account recorded for it.
pub proof fn lemma_non_leaf_refused(
    evs: Seq<ChartEventView>,
    chart_id: ChartId,
    code: Seq<Seq<char>>,
    id: LedgerAccountId,
    new_id: LedgerAccountId,
)
    ensures
        find_code(replay_accounts(evs), code) >= 0 && children_ids(replay_accounts(evs), code).len()
            > 0 ==> manual_account_step(evs, chart_id, IdOrCodeView::Code(code), new_id) == (
            Err::<ManualAccountView, ChartErrorView>(ChartErrorView::NonLeafAccount(join_dots(code))),
            evs,
        ),
        find_id(replay_manual(evs), id) >= 0 && replay_manual(evs)[find_id(
            replay_manual(evs),
            id,
        )].1 == code && children_ids(replay_accounts(evs), code).len() > 0 ==> manual_account_step(
            evs,
            chart_id,
            IdOrCodeView::Id(id),
            new_id,
        ) == (
            Err::<ManualAccountView, ChartErrorView>(ChartErrorView::NonLeafAccount(join_dots(code))),
            evs,
        ),
{
}

/// Asking twice by code for the manual account of a leaf without one gives a
/// new account first, then the same id.
pub proof fn lemma_manual_account_stable(
    evs: Seq<ChartEventView>,
    chart_id: ChartId,
    code: Seq<Seq<char>>,
    first_id: LedgerAccountId,
    second_id: LedgerAccountId,
)
    requires
        find_code(replay_accounts(evs), code) >= 0,
        children_ids(replay_accounts(evs), code).len() == 0,
        replay_accounts(evs)[find_code(replay_accounts(evs), code)].manual is None,
    ensures
        manual_account_step(evs, chart_id, IdOrCodeView::Code(code), first_id).0 == Ok::<
            ManualAccountView,
            ChartErrorView,
        >(
            ManualAccountView::NewAccount(
                replay_accounts(evs)[find_code(replay_accounts(evs), code)].set_id,
                NewAccountView {
                    id: first_id,
                    name: manual_account_name(code),
                    code: manual_external_id(chart_id, code),
                    external_id: manual_external_id(chart_id, code),
                },
            ),
        ),
        manual_account_step(
            manual_account_step(evs, chart_id, IdOrCodeView::Code(code), first_id).1,
            chart_id,
            IdOrCodeView::Code(code),
            second_id,
        ).0 == Ok::<ManualAccountView, ChartErrorView>(ManualAccountView::IdInChart(first_id)),
{
    let a = replay_accounts(evs);
    let i = find_code(a, code);
    lemma_find_code_range(a, code);
    let e = ChartEventView::ManualTransactionAccountAdded { code, account_id: first_id };
    let evs1 = evs.push(e);
    assert(evs1.drop_last() =~= evs);
    let a1 = a.update(i, DetailsView { manual: Some(first_id), ..a[i] });
    assert(replay_accounts(evs1) == a1);
    lemma_find_code_same_codes(a1, a, code);
    lemma_children_same(a1, a, code);
}

/// Asking by an id that the chart does not know gives it back as a non-chart
/// id and leaves the log as it was.
pub proof fn lemma_unknown_id(
    evs: Seq<ChartEventView>,
    chart_id: ChartId,
    id: LedgerAccountId,
    new_id: LedgerAccountId,
)
    requires
        find_id(replay_manual(evs), id) < 0,
    ensures
        manual_account_step(evs, chart_id, IdOrCodeView::Id(id), new_id) == (
            Ok::<ManualAccountView, ChartErrorView>(ManualAccountView::NonChartId(id)),
            evs,
        ),
{
}

} // verus!
