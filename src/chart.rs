//! The chart aggregate: a projection of an append-only event log into an
//! index of account codes, with the commands that extend the log.

use vstd::prelude::*;

use crate::account::{specs_view, AccountSpec, AccountSpecView};
use crate::code::{
    join_dots, manual_external_id, parse_code_spec, AccountCode, AccountCodeParseError,
};
use crate::csv::{csv_spec, CsvParseError, CsvParser};
use crate::tree::{added_specs, forest_is, project, ChartTree};
use crate::ids::{uuid_parsed, CalaAccountSetId, ChartId, LedgerAccountId};

verus! {

/// The provenance token attached to each event; the chart never inspects it.
#[derive(Debug, Clone)]
pub struct AuditInfo {
    pub audit_entry_id: i64,
    pub sub: String,
}

/// The persisted log of a chart.
#[derive(Debug)]
pub enum ChartEvent {
    Initialized { id: ChartId, name: String, reference: String, audit_info: AuditInfo },
    NodeAdded { spec: AccountSpec, ledger_account_set_id: CalaAccountSetId, audit_info: AuditInfo },
    ManualTransactionAccountAdded {
        code: AccountCode,
        ledger_account_id: LedgerAccountId,
        audit_info: AuditInfo,
    },
}

/// The value of an event, without its provenance token.
pub enum ChartEventView {
    Initialized { id: ChartId, name: Seq<char>, reference: Seq<char> },
    NodeAdded { spec: AccountSpecView, set_id: CalaAccountSetId },
    ManualTransactionAccountAdded { code: Seq<Seq<char>>, account_id: LedgerAccountId },
}

impl View for ChartEvent {
    type V = ChartEventView;

    open spec fn view(&self) -> ChartEventView {
        match self {
            ChartEvent::Initialized { id, name, reference, .. } => ChartEventView::Initialized {
                id: *id,
                name: name@,
                reference: reference@,
            },
            ChartEvent::NodeAdded { spec, ledger_account_set_id, .. } => ChartEventView::NodeAdded {
                spec: spec@,
                set_id: *ledger_account_set_id,
            },
            ChartEvent::ManualTransactionAccountAdded { code, ledger_account_id, .. } =>
                ChartEventView::ManualTransactionAccountAdded {
                code: code@,
                account_id: *ledger_account_id,
            },
        }
    }
}

pub open spec fn events_view(evs: Seq<ChartEvent>) -> Seq<ChartEventView> {
    evs.map_values(|e: ChartEvent| e@)
}

/// The index entry of one account code.
pub struct DetailsView {
    pub spec: AccountSpecView,
    pub set_id: CalaAccountSetId,
    pub manual: Option<LedgerAccountId>,
}

/// Position of the entry for `code` (the last one, searching from the end), or
/// -1 where there is none.
pub open spec fn find_code(a: Seq<DetailsView>, code: Seq<Seq<char>>) -> int
    decreases a.len(),
{
    if a.len() == 0 {
        -1
    } else if a.last().spec.code == code {
        a.len() - 1
    } else {
        find_code(a.drop_last(), code)
    }
}

pub proof fn lemma_find_code_range(a: Seq<DetailsView>, code: Seq<Seq<char>>)
    ensures
        -1 <= find_code(a, code) < a.len(),
        find_code(a, code) >= 0 ==> a[find_code(a, code)].spec.code == code,
    decreases a.len(),
{
    if a.len() > 0 {
        lemma_find_code_range(a.drop_last(), code);
    }
}

/// Position of the manual account entry for `id`, or -1.
pub open spec fn find_id(m: Seq<(LedgerAccountId, Seq<Seq<char>>)>, id: LedgerAccountId) -> int
    decreases m.len(),
{
    if m.len() == 0 {
        -1
    } else if m.last().0 == id {
        m.len() - 1
    } else {
        find_id(m.drop_last(), id)
    }
}

/// The account index after one event.
pub open spec fn apply_accounts(a: Seq<DetailsView>, e: ChartEventView) -> Seq<DetailsView> {
    match e {
        ChartEventView::Initialized { .. } => a,
        ChartEventView::NodeAdded { spec, set_id } => {
            let d = DetailsView { spec, set_id, manual: None };
            let i = find_code(a, spec.code);
            if i >= 0 {
                a.update(i, d)
            } else {
                a.push(d)
            }
        },
        ChartEventView::ManualTransactionAccountAdded { code, account_id: id } => {
            let i = find_code(a, code);
            if i >= 0 {
                a.update(i, DetailsView { manual: Some(id), ..a[i] })
            } else {
                a
            }
        },
    }
}

/// The manual account index after one event.
pub open spec fn apply_manual(
    m: Seq<(LedgerAccountId, Seq<Seq<char>>)>,
    e: ChartEventView,
) -> Seq<(LedgerAccountId, Seq<Seq<char>>)> {
    match e {
        ChartEventView::ManualTransactionAccountAdded { code, account_id: id } => {
            let j = find_id(m, id);
            if j >= 0 {
                m.update(j, (id, code))
            } else {
                m.push((id, code))
            }
        },
        _ => m,
    }
}

/// The account index of a log: its events folded from empty.
pub open spec fn replay_accounts(evs: Seq<ChartEventView>) -> Seq<DetailsView>
    decreases evs.len(),
{
    if evs.len() == 0 {
        Seq::empty()
    } else {
        apply_accounts(replay_accounts(evs.drop_last()), evs.last())
    }
}

/// The manual account index of a log.
pub open spec fn replay_manual(evs: Seq<ChartEventView>) -> Seq<(LedgerAccountId, Seq<Seq<char>>)>
    decreases evs.len(),
{
    if evs.len() == 0 {
        Seq::empty()
    } else {
        apply_manual(replay_manual(evs.drop_last()), evs.last())
    }
}

/// Set ids of the accounts whose parent code is `code`, in index order.
pub open spec fn children_ids(a: Seq<DetailsView>, code: Seq<Seq<char>>) -> Seq<CalaAccountSetId>
    decreases a.len(),
{
    if a.len() == 0 {
        Seq::empty()
    } else {
        let prev = children_ids(a.drop_last(), code);
        if a.last().spec.parent == Some(code) {
            prev.push(a.last().set_id)
        } else {
            prev
        }
    }
}

/// Set ids of the level-one accounts (two sections) whose set id is among
/// `candidates`, in index order.
pub open spec fn trial_balance_ids(
    a: Seq<DetailsView>,
    candidates: Seq<CalaAccountSetId>,
) -> Seq<CalaAccountSetId>
    decreases a.len(),
{
    if a.len() == 0 {
        Seq::empty()
    } else {
        let prev = trial_balance_ids(a.drop_last(), candidates);
        if a.last().spec.code.len() == 2 && candidates.contains(a.last().set_id) {
            prev.push(a.last().set_id)
        } else {
            prev
        }
    }
}

/// Set ids met walking parent links from `code` itself, at most `fuel` steps.
pub open spec fn chain_from(a: Seq<DetailsView>, code: Seq<Seq<char>>, fuel: nat) -> Seq<
    CalaAccountSetId,
>
    decreases fuel,
{
    if fuel == 0 {
        Seq::empty()
    } else {
        let i = find_code(a, code);
        if i < 0 {
            Seq::empty()
        } else {
            seq![a[i].set_id] + match a[i].spec.parent {
                Some(p) => chain_from(a, p, (fuel - 1) as nat),
                None => Seq::empty(),
            }
        }
    }
}

/// Set ids of the ancestors of `code`, nearest first: empty where the code is
/// unknown or has no parent. A walk takes at most as many steps as there are
/// accounts.
pub open spec fn ancestor_ids(a: Seq<DetailsView>, code: Seq<Seq<char>>) -> Seq<CalaAccountSetId> {
    let i = find_code(a, code);
    if i < 0 {
        Seq::empty()
    } else {
        match a[i].spec.parent {
            Some(p) => chain_from(a, p, a.len()),
            None => Seq::empty(),
        }
    }
}

/// The header of a log: from its last `Initialized` event, if any.
pub open spec fn header(evs: Seq<ChartEventView>) -> Option<(ChartId, Seq<char>, Seq<char>)>
    decreases evs.len(),
{
    if evs.len() == 0 {
        None
    } else {
        match evs.last() {
            ChartEventView::Initialized { id, name, reference } => Some((id, name, reference)),
            _ => header(evs.drop_last()),
        }
    }
}

/// The set id of a spec's parent, where the parent is in the index.
pub open spec fn parent_set_id(a: Seq<DetailsView>, spec: AccountSpecView) -> Option<
    CalaAccountSetId,
> {
    match spec.parent {
        Some(p) => {
            let i = find_code(a, p);
            if i >= 0 {
                Some(a[i].set_id)
            } else {
                None
            }
        },
        None => None,
    }
}

/// A ledger account id, or an account code of the chart.
#[derive(Debug)]
pub enum AccountIdOrCode {
    Id(LedgerAccountId),
    Code(AccountCode),
}

pub enum IdOrCodeView {
    Id(LedgerAccountId),
    Code(Seq<Seq<char>>),
}

impl View for AccountIdOrCode {
    type V = IdOrCodeView;

    open spec fn view(&self) -> IdOrCodeView {
        match self {
            AccountIdOrCode::Id(id) => IdOrCodeView::Id(*id),
            AccountIdOrCode::Code(c) => IdOrCodeView::Code(c@),
        }
    }
}

impl AccountIdOrCode {
    /// Reads a UUID as a ledger account id, and anything else as an account
    /// code.
    pub fn parse(s: &str) -> (r: Result<AccountIdOrCode, AccountCodeParseError>)
        ensures
            match uuid_parsed(s@) {
                Some(v) => r is Ok && r->Ok_0@ == IdOrCodeView::Id(LedgerAccountId { value: v }),
                None => match parse_code_spec(s@) {
                    Ok(p) => r is Ok && r->Ok_0@ == IdOrCodeView::Code(p),
                    Err(e) => r == Err::<AccountIdOrCode, AccountCodeParseError>(e),
                },
            },
    {
        match LedgerAccountId::parse(s) {
            Some(id) => Ok(AccountIdOrCode::Id(id)),
            None => match AccountCode::parse(s) {
                Ok(c) => Ok(AccountIdOrCode::Code(c)),
                Err(e) => Err(e),
            },
        }
    }
}

impl std::str::FromStr for AccountIdOrCode {
    type Err = AccountCodeParseError;

    fn from_str(s: &str) -> Result<AccountIdOrCode, AccountCodeParseError> {
        AccountIdOrCode::parse(s)
    }
}

/// Description of a manual transaction account to be created in the ledger.
#[derive(Debug)]
pub struct NewAccount {
    pub id: LedgerAccountId,
    pub name: String,
    pub code: String,
    pub external_id: String,
}

pub struct NewAccountView {
    pub id: LedgerAccountId,
    pub name: Seq<char>,
    pub code: Seq<char>,
    pub external_id: Seq<char>,
}

impl View for NewAccount {
    type V = NewAccountView;

    open spec fn view(&self) -> NewAccountView {
        NewAccountView {
            id: self.id,
            name: self.name@,
            code: self.code@,
            external_id: self.external_id@,
        }
    }
}

/// Outcome of asking the chart for a manual transaction account.
#[derive(Debug)]
pub enum ManualAccountFromChart {
    IdInChart(LedgerAccountId),
    NonChartId(LedgerAccountId),
    NewAccount((CalaAccountSetId, NewAccount)),
}

pub enum ManualAccountView {
    IdInChart(LedgerAccountId),
    NonChartId(LedgerAccountId),
    NewAccount(CalaAccountSetId, NewAccountView),
}

impl View for ManualAccountFromChart {
    type V = ManualAccountView;

    open spec fn view(&self) -> ManualAccountView {
        match self {
            ManualAccountFromChart::IdInChart(id) => ManualAccountView::IdInChart(*id),
            ManualAccountFromChart::NonChartId(id) => ManualAccountView::NonChartId(*id),
            ManualAccountFromChart::NewAccount((set_id, a)) => ManualAccountView::NewAccount(
                *set_id,
                a@,
            ),
        }
    }
}

pub open spec fn manual_result_view(r: Result<ManualAccountFromChart, ChartOfAccountsError>) -> Result<
    ManualAccountView,
    ChartErrorView,
> {
    match r {
        Ok(v) => Ok(v@),
        Err(e) => Err(e@),
    }
}

/// Display name of the manual account of `code`: `"<code> Manual"`.
pub open spec fn manual_account_name(code: Seq<Seq<char>>) -> Seq<char> {
    join_dots(code) + seq![' ', 'M', 'a', 'n', 'u', 'a', 'l']
}

/// What asking a chart with log `evs` for the manual account of `req` gives,
/// and the log after it, where `new_id` is the id a new account would get.
pub open spec fn manual_account_step(
    evs: Seq<ChartEventView>,
    chart_id: ChartId,
    req: IdOrCodeView,
    new_id: LedgerAccountId,
) -> (Result<ManualAccountView, ChartErrorView>, Seq<ChartEventView>) {
    let a = replay_accounts(evs);
    let m = replay_manual(evs);
    match req {
        IdOrCodeView::Id(id) => {
            let j = find_id(m, id);
            if j < 0 {
                (Ok(ManualAccountView::NonChartId(id)), evs)
            } else if children_ids(a, m[j].1).len() > 0 {
                (Err(ChartErrorView::NonLeafAccount(join_dots(m[j].1))), evs)
            } else {
                (Ok(ManualAccountView::IdInChart(id)), evs)
            }
        },
        IdOrCodeView::Code(c) => {
            let i = find_code(a, c);
            if i < 0 {
                (Err(ChartErrorView::CodeNotFoundInChart(c)), evs)
            } else if children_ids(a, c).len() > 0 {
                (Err(ChartErrorView::NonLeafAccount(join_dots(c))), evs)
            } else {
                match a[i].manual {
                    Some(x) => (Ok(ManualAccountView::IdInChart(x)), evs),
                    None => (
                        Ok(
                            ManualAccountView::NewAccount(
                                a[i].set_id,
                                NewAccountView {
                                    id: new_id,
                                    name: manual_account_name(c),
                                    code: manual_external_id(chart_id, c),
                                    external_id: manual_external_id(chart_id, c),
                                },
                            ),
                        ),
                        evs.push(
                            ChartEventView::ManualTransactionAccountAdded {
                                code: c,
                                account_id: new_id,
                            },
                        ),
                    ),
                }
            }
        },
    }
}

/// What adding the node `spec` with new set id `set_id` to a chart with log
/// `evs` gives, and the log after it.
pub open spec fn create_node_step(
    evs: Seq<ChartEventView>,
    spec: AccountSpecView,
    set_id: CalaAccountSetId,
) -> (Idempotent<(Option<CalaAccountSetId>, CalaAccountSetId)>, Seq<ChartEventView>) {
    let a = replay_accounts(evs);
    if find_code(a, spec.code) >= 0 {
        (Idempotent::Ignored, evs)
    } else {
        (
            Idempotent::Executed((parent_set_id(a, spec), set_id)),
            evs.push(ChartEventView::NodeAdded { spec, set_id }),
        )
    }
}

/// What adding `specs` in order, the k-th with new set id `ids[k]`, to a chart
/// with log `evs` gives: the (parent set id, new set id) pair of each node that
/// was added, and the log after it.
pub open spec fn import_step(
    evs: Seq<ChartEventView>,
    specs: Seq<AccountSpecView>,
    ids: Seq<CalaAccountSetId>,
) -> (Seq<(Option<CalaAccountSetId>, CalaAccountSetId)>, Seq<ChartEventView>)
    decreases specs.len(),
{
    if specs.len() == 0 {
        (Seq::empty(), evs)
    } else {
        let (prev_new, prev_evs) = import_step(evs, specs.drop_last(), ids);
        let (r, next) = create_node_step(prev_evs, specs.last(), ids[specs.len() - 1]);
        match r {
            Idempotent::Executed(pair) => (prev_new.push(pair), next),
            Idempotent::Ignored => (prev_new, next),
        }
    }
}

/// The new set ids of the added pairs.
pub open spec fn new_set_ids(added: Seq<(Option<CalaAccountSetId>, CalaAccountSetId)>) -> Seq<
    CalaAccountSetId,
> {
    added.map_values(|p: (Option<CalaAccountSetId>, CalaAccountSetId)| p.1)
}

/// What importing `specs` with new set ids `ids` gives: `None` where no node
/// was added, else the level-one accounts among the added ones; and the log
/// after it.
pub open spec fn import_outcome(
    evs: Seq<ChartEventView>,
    specs: Seq<AccountSpecView>,
    ids: Seq<CalaAccountSetId>,
) -> (Option<Seq<CalaAccountSetId>>, Seq<ChartEventView>) {
    let (added, after) = import_step(evs, specs, ids);
    if added.len() == 0 {
        (None, after)
    } else {
        (Some(trial_balance_ids(replay_accounts(after), new_set_ids(added))), after)
    }
}

pub open spec fn option_ids_view(o: Option<Vec<CalaAccountSetId>>) -> Option<Seq<CalaAccountSetId>> {
    match o {
        Some(v) => Some(v@),
        None => None,
    }
}

/// Result of a command that may find nothing to do.
#[derive(Debug)]
pub enum Idempotent<T> {
    Executed(T),
    Ignored,
}

impl<T> Idempotent<T> {
    pub fn expect(self, msg: &str) -> (r: T)
        requires
            self is Executed,
        ensures
            self == Idempotent::Executed(r),
    {
        match self {
            Idempotent::Executed(t) => t,
            Idempotent::Ignored => unreached(),
        }
    }

    pub fn was_ignored(&self) -> (r: bool)
        ensures
            r == self is Ignored,
    {
        matches!(self, Idempotent::Ignored)
    }
}

#[derive(Debug)]
pub enum ChartOfAccountsError {
    CodeNotFoundInChart(AccountCode),
    NonLeafAccount(String),
}

/// The value of a chart error.
pub enum ChartErrorView {
    CodeNotFoundInChart(Seq<Seq<char>>),
    NonLeafAccount(Seq<char>),
}

impl View for ChartOfAccountsError {
    type V = ChartErrorView;

    open spec fn view(&self) -> ChartErrorView {
        match self {
            ChartOfAccountsError::CodeNotFoundInChart(c) => ChartErrorView::CodeNotFoundInChart(c@),
            ChartOfAccountsError::NonLeafAccount(s) => ChartErrorView::NonLeafAccount(s@),
        }
    }
}

struct AccountDetails {
    spec: AccountSpec,
    account_set_id: CalaAccountSetId,
    manual_transaction_account_id: Option<LedgerAccountId>,
}

impl View for AccountDetails {
    type V = DetailsView;

    closed spec fn view(&self) -> DetailsView {
        DetailsView {
            spec: self.spec@,
            set_id: self.account_set_id,
            manual: self.manual_transaction_account_id,
        }
    }
}

spec fn details_view(a: Seq<AccountDetails>) -> Seq<DetailsView> {
    a.map_values(|d: AccountDetails| d@)
}

spec fn manual_view(m: Seq<(LedgerAccountId, AccountCode)>) -> Seq<(LedgerAccountId, Seq<Seq<char>>)> {
    m.map_values(|e: (LedgerAccountId, AccountCode)| (e.0, e.1@))
}

fn contains_id(ids: &[CalaAccountSetId], id: CalaAccountSetId) -> (r: bool)
    ensures
        r == ids@.contains(id),
{
    let mut i: usize = 0;
    while i < ids.len()
        invariant
            i <= ids@.len(),
            forall|j: int| 0 <= j < i ==> ids@[j] != id,
        decreases ids@.len() - i,
    {
        if ids[i] == id {
            return true;
        }
        i = i + 1;
    }
    false
}

/// The chart aggregate, always the projection of its own event log.
pub struct Chart {
    id: ChartId,
    reference: String,
    name: String,
    all_accounts: Vec<AccountDetails>,
    manual_transaction_accounts: Vec<(LedgerAccountId, AccountCode)>,
    events: Vec<ChartEvent>,
}

impl Chart {
    pub closed spec fn spec_id(&self) -> ChartId {
        self.id
    }

    pub closed spec fn spec_name(&self) -> Seq<char> {
        self.name@
    }

    pub closed spec fn spec_reference(&self) -> Seq<char> {
        self.reference@
    }

    pub fn id(&self) -> (r: ChartId)
        ensures
            r == self.spec_id(),
    {
        self.id
    }

    pub fn name(&self) -> (r: &str)
        ensures
            r@ == self.spec_name(),
    {
        self.name.as_str()
    }

    pub fn reference(&self) -> (r: &str)
        ensures
            r@ == self.spec_reference(),
    {
        self.reference.as_str()
    }

    /// The value of the event log.
    pub closed spec fn log(&self) -> Seq<ChartEventView> {
        events_view(self.events@)
    }

    /// The account index: the log folded from empty.
    pub open spec fn accounts(&self) -> Seq<DetailsView> {
        replay_accounts(self.log())
    }

    /// The manual account index: the log folded from empty.
    pub open spec fn manual_accounts(&self) -> Seq<(LedgerAccountId, Seq<Seq<char>>)> {
        replay_manual(self.log())
    }

    /// The indices are those of the log.
    pub closed spec fn wf(&self) -> bool {
        &&& details_view(self.all_accounts@) == replay_accounts(self.log())
        &&& manual_view(self.manual_transaction_accounts@) == replay_manual(self.log())
    }

    /// The events recorded so far.
    pub fn events(&self) -> (r: &Vec<ChartEvent>)
        ensures
            events_view(r@) == self.log(),
    {
        &self.events
    }

    /// Position of the entry for `code`, searching from the end.
    fn code_index(&self, code: &AccountCode) -> (r: Option<usize>)
        requires
            self.wf(),
        ensures
            match r {
                Some(i) => i == find_code(self.accounts(), code@) && 0 <= i < self.accounts().len(),
                None => find_code(self.accounts(), code@) < 0,
            },
    {
        self.code_index_in(code, Ghost(self.accounts()))
    }

    proof fn lemma_push_event(&self, old_events: Seq<ChartEvent>, e: ChartEvent)
        requires
            self.events@ == old_events.push(e),
        ensures
            self.log() == events_view(old_events).push(e@),
    {
        assert(events_view(old_events.push(e)) =~= events_view(old_events).push(e@));
    }

    /// Adds the node `spec` with the given new set id, unless its code is
    /// already in the chart. On success returns the parent's set id (where the
    /// parent is in the chart) and the new set id.
    pub fn create_node_with_id(
        &mut self,
        spec: &AccountSpec,
        ledger_account_set_id: CalaAccountSetId,
        audit_info: AuditInfo,
    ) -> (r: Idempotent<(Option<CalaAccountSetId>, CalaAccountSetId)>)
        requires
            old(self).wf(),
        ensures
            final(self).wf(),
            final(self).spec_id() == old(self).spec_id(),
            final(self).spec_name() == old(self).spec_name(),
            final(self).spec_reference() == old(self).spec_reference(),
            (r, final(self).log()) == create_node_step(old(self).log(), spec@, ledger_account_set_id),
    {
        if self.code_index(&spec.code).is_some() {
            return Idempotent::Ignored;
        }
        let ghost old_events = self.events@;
        let ghost old_accounts = self.accounts();
        let ghost old_manual = self.manual_accounts();
        let e = ChartEvent::NodeAdded {
            spec: spec.clone(),
            ledger_account_set_id,
            audit_info,
        };
        self.events.push(e);
        proof {
            self.lemma_push_event(old_events, e);
        }
        let parent = match &spec.parent {
            Some(p) => {
                match self.code_index_in(p, Ghost(old_accounts)) {
                    Some(i) => Some(self.all_accounts[i].account_set_id),
                    None => None,
                }
            },
            None => None,
        };
        let ghost before = self.all_accounts@;
        let d = AccountDetails {
            spec: spec.clone(),
            account_set_id: ledger_account_set_id,
            manual_transaction_account_id: None,
        };
        self.all_accounts.push(d);
        proof {
            assert(details_view(self.all_accounts@) =~= details_view(before).push(d@));
            assert(self.log().drop_last() =~= events_view(old_events));
        }
        Idempotent::Executed((parent, ledger_account_set_id))
    }

    /// Adds the node `spec` under a freshly minted set id, unless its code is
    /// already in the chart.
    pub fn create_node(&mut self, spec: &AccountSpec, audit_info: AuditInfo) -> (r: Idempotent<
        (Option<CalaAccountSetId>, CalaAccountSetId),
    >)
        requires
            old(self).wf(),
        ensures
            final(self).wf(),
            final(self).spec_id() == old(self).spec_id(),
            final(self).spec_name() == old(self).spec_name(),
            final(self).spec_reference() == old(self).spec_reference(),
            exists|id: CalaAccountSetId|
                (r, final(self).log()) == #[trigger] create_node_step(old(self).log(), spec@, id),
    {
        if self.code_index(&spec.code).is_some() {
            assert(create_node_step(self.log(), spec@, CalaAccountSetId { value: 0 }).0 is Ignored);
            return Idempotent::Ignored;
        }
        let id = CalaAccountSetId::new();
        self.create_node_with_id(spec, id, audit_info)
    }

    /// Set ids of the direct children of `code`.
    pub fn children(&self, code: &AccountCode) -> (r: Vec<CalaAccountSetId>)
        requires
            self.wf(),
        ensures
            r@ == children_ids(self.accounts(), code@),
    {
        let ghost a = self.accounts();
        let mut r: Vec<CalaAccountSetId> = Vec::new();
        let mut i: usize = 0;
        while i < self.all_accounts.len()
            invariant
                a == details_view(self.all_accounts@),
                i <= a.len(),
                r@ == children_ids(a.subrange(0, i as int), code@),
            decreases a.len() - i,
        {
            let d = &self.all_accounts[i];
            assert(a[i as int] == d@);
            assert(a.subrange(0, i + 1).drop_last() =~= a.subrange(0, i as int));
            match &d.spec.parent {
                Some(p) => {
                    if p.eq(code) {
                        r.push(d.account_set_id);
                    }
                },
                None => {},
            }
            i = i + 1;
        }
        assert(a.subrange(0, i as int) =~= a);
        r
    }

    /// Set ids of the level-one accounts whose set id is among
    /// `new_account_set_ids`.
    pub fn trial_balance_account_ids_from_new_accounts(
        &self,
        new_account_set_ids: &[CalaAccountSetId],
    ) -> (r: Vec<CalaAccountSetId>)
        requires
            self.wf(),
        ensures
            r@ == trial_balance_ids(self.accounts(), new_account_set_ids@),
    {
        let ghost a = self.accounts();
        let mut r: Vec<CalaAccountSetId> = Vec::new();
        let mut i: usize = 0;
        while i < self.all_accounts.len()
            invariant
                a == details_view(self.all_accounts@),
                i <= a.len(),
                r@ == trial_balance_ids(a.subrange(0, i as int), new_account_set_ids@),
            decreases a.len() - i,
        {
            let d = &self.all_accounts[i];
            assert(a[i as int] == d@);
            assert(a.subrange(0, i + 1).drop_last() =~= a.subrange(0, i as int));
            if d.spec.code.len_sections() == 2 && contains_id(new_account_set_ids, d.account_set_id) {
                r.push(d.account_set_id);
            }
            i = i + 1;
        }
        assert(a.subrange(0, i as int) =~= a);
        r
    }

    /// Set ids of the ancestors of `code`, nearest first, the root last.
    pub fn ancestors(&self, code: &AccountCode) -> (r: Vec<CalaAccountSetId>)
        requires
            self.wf(),
        ensures
            r@ == ancestor_ids(self.accounts(), code@),
    {
        let ghost a = self.accounts();
        let mut result: Vec<CalaAccountSetId> = Vec::new();
        let mut current: &AccountCode = match self.code_index(code) {
            Some(i) => match &self.all_accounts[i].spec.parent {
                Some(p) => {
                    assert(a[i as int] == self.all_accounts@[i as int]@);
                    p
                },
                None => {
                    assert(a[i as int] == self.all_accounts@[i as int]@);
                    return result;
                },
            },
            None => {
                return result;
            },
        };
        let mut fuel: usize = self.all_accounts.len();
        let ghost target = ancestor_ids(a, code@);
        while fuel > 0
            invariant
                a == details_view(self.all_accounts@),
                a == self.accounts(),
                self.wf(),
                fuel <= a.len(),
                target == ancestor_ids(self.accounts(), code@),
                result@ + chain_from(a, current@, fuel as nat) == target,
            decreases fuel,
        {
            match self.code_index(current) {
                Some(i) => {
                    let d = &self.all_accounts[i];
                    assert(a[i as int] == d@);
                    result.push(d.account_set_id);
                    match &d.spec.parent {
                        Some(p) => {
                            assert(result@ + chain_from(a, p@, (fuel - 1) as nat) =~= target);
                            current = p;
                            fuel = fuel - 1;
                        },
                        None => {
                            assert(result@ =~= target);
                            return result;
                        },
                    }
                },
                None => {
                    assert(result@ =~= target);
                    return result;
                },
            }
        }
        assert(result@ =~= target);
        result
    }

    /// The set id of `code`, or `CodeNotFoundInChart`.
    pub fn account_set_id_from_code(&self, code: &AccountCode) -> (r: Result<
        CalaAccountSetId,
        ChartOfAccountsError,
    >)
        requires
            self.wf(),
        ensures
            find_code(self.accounts(), code@) >= 0 ==> r == Ok::<
                CalaAccountSetId,
                ChartOfAccountsError,
            >(self.accounts()[find_code(self.accounts(), code@)].set_id),
            find_code(self.accounts(), code@) < 0 ==> r is Err && r->Err_0@
                == ChartErrorView::CodeNotFoundInChart(code@),
    {
        match self.code_index(code) {
            Some(i) => {
                assert(self.accounts()[i as int] == self.all_accounts@[i as int]@);
                Ok(self.all_accounts[i].account_set_id)
            },
            None => Err(ChartOfAccountsError::CodeNotFoundInChart(code.clone())),
        }
    }

    /// `Ok` when `code` has no children: only leaves may hold manual
    /// transactions.
    pub fn check_can_have_manual_transactions(&self, code: &AccountCode) -> (r: Result<
        (),
        ChartOfAccountsError,
    >)
        requires
            self.wf(),
        ensures
            children_ids(self.accounts(), code@).len() == 0 ==> r is Ok,
            children_ids(self.accounts(), code@).len() > 0 ==> r is Err && r->Err_0@
                == ChartErrorView::NonLeafAccount(join_dots(code@)),
    {
        if self.children(code).len() > 0 {
            return Err(ChartOfAccountsError::NonLeafAccount(code.to_string()));
        }
        Ok(())
    }

    /// Adds `specs` in order, the k-th with new set id `ids[k]`; returns the
    /// (parent set id, new set id) pair of each node that was added.
    pub fn import_specs_with_ids(
        &mut self,
        specs: &Vec<AccountSpec>,
        ids: &Vec<CalaAccountSetId>,
        audit_info: AuditInfo,
    ) -> (r: Vec<(Option<CalaAccountSetId>, CalaAccountSetId)>)
        requires
            old(self).wf(),
            ids@.len() == specs@.len(),
        ensures
            final(self).wf(),
            final(self).spec_id() == old(self).spec_id(),
            final(self).spec_name() == old(self).spec_name(),
            final(self).spec_reference() == old(self).spec_reference(),
            (r@, final(self).log()) == import_step(
                old(self).log(),
                specs_view(specs@),
                ids@,
            ),
    {
        let ghost sv = specs_view(specs@);
        let ghost evs0 = self.log();
        let ghost (id0, name0, ref0) = (self.spec_id(), self.spec_name(), self.spec_reference());
        let mut added: Vec<(Option<CalaAccountSetId>, CalaAccountSetId)> = Vec::new();
        let mut i: usize = 0;
        assert(sv.subrange(0, 0) =~= Seq::<AccountSpecView>::empty());
        while i < specs.len()
            invariant
                self.wf(),
                self.spec_id() == id0,
                self.spec_name() == name0,
                self.spec_reference() == ref0,
                sv == specs_view(specs@),
                ids@.len() == specs@.len(),
                i <= specs@.len(),
                (added@, self.log()) == import_step(evs0, sv.subrange(0, i as int), ids@),
            decreases specs@.len() - i,
        {
            assert(sv.subrange(0, i + 1).drop_last() =~= sv.subrange(0, i as int));
            assert(sv.subrange(0, i + 1).last() == specs@[i as int]@);
            match self.create_node_with_id(&specs[i], ids[i], audit_info.clone()) {
                Idempotent::Executed(pair) => {
                    added.push(pair);
                },
                Idempotent::Ignored => {},
            }
            i = i + 1;
        }
        assert(sv.subrange(0, i as int) =~= sv);
        added
    }

    /// Adds `specs` in order, each new node under a freshly minted set id.
    pub fn import_specs(&mut self, specs: &Vec<AccountSpec>, audit_info: AuditInfo) -> (r: Vec<
        (Option<CalaAccountSetId>, CalaAccountSetId),
    >)
        requires
            old(self).wf(),
        ensures
            final(self).wf(),
            final(self).spec_id() == old(self).spec_id(),
            final(self).spec_name() == old(self).spec_name(),
            final(self).spec_reference() == old(self).spec_reference(),
            exists|ids: Seq<CalaAccountSetId>|
                ids.len() == specs@.len() && (r@, final(self).log()) == #[trigger] import_step(
                    old(self).log(),
                    specs_view(specs@),
                    ids,
                ),
    {
        let mut ids: Vec<CalaAccountSetId> = Vec::new();
        let mut i: usize = 0;
        while i < specs.len()
            invariant
                i <= specs@.len(),
                ids@.len() == i,
            decreases specs@.len() - i,
        {
            ids.push(CalaAccountSetId::new());
            i = i + 1;
        }
        self.import_specs_with_ids(specs, &ids, audit_info)
    }

    /// Imports the accounts of a comma-separated text in file order; returns
    /// `None` where every account was already in the chart, else the set ids of
    /// the level-one accounts among the new ones. Nothing is added where the
    /// text does not parse.
    pub fn import_from_csv(&mut self, data: String, audit_info: AuditInfo) -> (r: Result<
        Option<Vec<CalaAccountSetId>>,
        CsvParseError,
    >)
        requires
            old(self).wf(),
        ensures
            final(self).wf(),
            final(self).spec_id() == old(self).spec_id(),
            final(self).spec_name() == old(self).spec_name(),
            final(self).spec_reference() == old(self).spec_reference(),
            match csv_spec(data@) {
                Err(e) => r == Err::<Option<Vec<CalaAccountSetId>>, CsvParseError>(e)
                    && final(self).log() == old(self).log(),
                Ok(specs) => r is Ok && exists|ids: Seq<CalaAccountSetId>|
                    ids.len() == specs.len() && (option_ids_view(r->Ok_0), final(self).log())
                        == #[trigger] import_outcome(old(self).log(), specs, ids),
            },
    {
        let parser = CsvParser::new(data);
        let specs = match parser.account_specs() {
            Ok(specs) => specs,
            Err(e) => {
                return Err(e);
            },
        };
        let ghost log0 = self.log();
        let added = self.import_specs(&specs, audit_info);
        let ghost ids = choose|ids: Seq<CalaAccountSetId>|
            ids.len() == specs@.len() && (added@, self.log()) == #[trigger] import_step(
                log0,
                specs_view(specs@),
                ids,
            );
        if added.len() == 0 {
            assert(import_outcome(log0, specs_view(specs@), ids).0 is None);
            return Ok(None);
        }
        let mut new_ids: Vec<CalaAccountSetId> = Vec::new();
        let mut i: usize = 0;
        while i < added.len()
            invariant
                i <= added@.len(),
                new_ids@ == new_set_ids(added@.subrange(0, i as int)),
            decreases added@.len() - i,
        {
            let ghost before = new_ids@;
            new_ids.push(added[i].1);
            assert(new_set_ids(added@.subrange(0, i + 1)) =~= before.push(added@[i as int].1));
            i = i + 1;
        }
        assert(added@.subrange(0, i as int) =~= added@);
        let tb = self.trial_balance_account_ids_from_new_accounts(new_ids.as_slice());
        assert(import_outcome(log0, specs_view(specs@), ids) == (
            Some(tb@),
            self.log(),
        ));
        Ok(Some(tb))
    }

    /// Whether `id` is a manual transaction account of this chart.
    pub fn has_manual_transaction_account(&self, id: LedgerAccountId) -> (r: bool)
        requires
            self.wf(),
        ensures
            r == (find_id(self.manual_accounts(), id) >= 0),
    {
        self.manual_index(id).is_some()
    }

    /// The tree view of the chart, rebuilt from the whole log.
    pub fn chart(&self) -> (r: ChartTree)
        ensures
            r.id == self.spec_id(),
            r.name@ == self.spec_name(),
            forest_is(added_specs(self.log()), r.children@),
    {
        project(self.id, self.name.as_str(), &self.events)
    }

    /// Position of the manual account entry for `id`, searching from the end.
    fn manual_index(&self, id: LedgerAccountId) -> (r: Option<usize>)
        requires
            self.wf(),
        ensures
            match r {
                Some(j) => j == find_id(self.manual_accounts(), id) && 0 <= j
                    < self.manual_accounts().len(),
                None => find_id(self.manual_accounts(), id) < 0,
            },
    {
        self.manual_index_in(id, Ghost(self.manual_accounts()))
    }

    /// The manual transaction account for `account_id_or_code`, where `new_id`
    /// is the id that a newly created one gets.
    pub fn manual_transaction_account_with_id(
        &mut self,
        account_id_or_code: AccountIdOrCode,
        new_id: LedgerAccountId,
        audit_info: AuditInfo,
    ) -> (r: Result<ManualAccountFromChart, ChartOfAccountsError>)
        requires
            old(self).wf(),
        ensures
            final(self).wf(),
            final(self).spec_id() == old(self).spec_id(),
            final(self).spec_name() == old(self).spec_name(),
            final(self).spec_reference() == old(self).spec_reference(),
            (manual_result_view(r), final(self).log()) == manual_account_step(
                old(self).log(),
                old(self).spec_id(),
                account_id_or_code@,
                new_id,
            ),
    {
        let ghost a = self.accounts();
        let ghost m = self.manual_accounts();
        match account_id_or_code {
            AccountIdOrCode::Id(id) => match self.manual_index(id) {
                Some(j) => {
                    let code = &self.manual_transaction_accounts[j].1;
                    assert(m[j as int].1 == code@);
                    match self.check_can_have_manual_transactions(code) {
                        Ok(()) => Ok(ManualAccountFromChart::IdInChart(id)),
                        Err(e) => Err(e),
                    }
                },
                None => Ok(ManualAccountFromChart::NonChartId(id)),
            },
            AccountIdOrCode::Code(code) => {
                let i = match self.code_index(&code) {
                    Some(i) => i,
                    None => {
                        return Err(ChartOfAccountsError::CodeNotFoundInChart(code));
                    },
                };
                match self.check_can_have_manual_transactions(&code) {
                    Ok(()) => {},
                    Err(e) => {
                        return Err(e);
                    },
                }
                assert(a[i as int] == self.all_accounts@[i as int]@);
                let account_set_id = self.all_accounts[i].account_set_id;
                match self.all_accounts[i].manual_transaction_account_id {
                    Some(x) => {
                        return Ok(ManualAccountFromChart::IdInChart(x));
                    },
                    None => {},
                }
                let new_account = self.new_manual_account(&code, new_id);
                let ghost old_events = self.events@;
                let e = ChartEvent::ManualTransactionAccountAdded {
                    code: code.clone(),
                    ledger_account_id: new_id,
                    audit_info,
                };
                self.events.push(e);
                proof {
                    self.lemma_push_event(old_events, e);
                    assert(self.log().drop_last() =~= events_view(old_events));
                }
                let ghost before = self.all_accounts@;
                let d = AccountDetails {
                    spec: self.all_accounts[i].spec.clone(),
                    account_set_id,
                    manual_transaction_account_id: Some(new_id),
                };
                self.all_accounts.set(i, d);
                proof {
                    assert(details_view(self.all_accounts@) =~= a.update(
                        i as int,
                        DetailsView { manual: Some(new_id), ..a[i as int] },
                    ));
                }
                let ghost mbefore = self.manual_transaction_accounts@;
                match self.manual_index_in(new_id, Ghost(m)) {
                    Some(j) => {
                        self.manual_transaction_accounts.set(j, (new_id, code));
                        assert(manual_view(self.manual_transaction_accounts@) =~= m.update(
                            j as int,
                            (new_id, code@),
                        ));
                    },
                    None => {
                        self.manual_transaction_accounts.push((new_id, code));
                        assert(manual_view(self.manual_transaction_accounts@) =~= m.push(
                            (new_id, code@),
                        ));
                    },
                }
                Ok(ManualAccountFromChart::NewAccount((account_set_id, new_account)))
            },
        }
    }

    /// The manual transaction account for `account_id_or_code`; a newly
    /// created one gets a freshly minted id.
    pub fn manual_transaction_account(
        &mut self,
        account_id_or_code: AccountIdOrCode,
        audit_info: AuditInfo,
    ) -> (r: Result<ManualAccountFromChart, ChartOfAccountsError>)
        requires
            old(self).wf(),
        ensures
            final(self).wf(),
            final(self).spec_id() == old(self).spec_id(),
            final(self).spec_name() == old(self).spec_name(),
            final(self).spec_reference() == old(self).spec_reference(),
            exists|new_id: LedgerAccountId|
                (manual_result_view(r), final(self).log()) == #[trigger] manual_account_step(
                    old(self).log(),
                    old(self).spec_id(),
                    account_id_or_code@,
                    new_id,
                ),
    {
        let new_id = LedgerAccountId::new();
        self.manual_transaction_account_with_id(account_id_or_code, new_id, audit_info)
    }

    fn new_manual_account(&self, code: &AccountCode, new_id: LedgerAccountId) -> (r: NewAccount)
        ensures
            r@ == (NewAccountView {
                id: new_id,
                name: manual_account_name(code@),
                code: manual_external_id(self.spec_id(), code@),
                external_id: manual_external_id(self.spec_id(), code@),
            }),
    {
        proof {
            reveal_strlit(" Manual");
        }
        let mut name = code.to_string();
        name.append(" Manual");
        assert(name@ =~= manual_account_name(code@));
        let ext = code.manual_account_external_id(self.id);
        let ext2 = code.manual_account_external_id(self.id);
        NewAccount { id: new_id, name, code: ext, external_id: ext2 }
    }

    fn code_index_in(&self, code: &AccountCode, index: Ghost<Seq<DetailsView>>) -> (r: Option<
        usize,
    >)
        requires
            index@ == details_view(self.all_accounts@),
        ensures
            match r {
                Some(i) => i == find_code(index@, code@) && 0 <= i < index@.len(),
                None => find_code(index@, code@) < 0,
            },
    {
        find_code_index(&self.all_accounts, code)
    }

    fn manual_index_in(&self, id: LedgerAccountId, index: Ghost<
        Seq<(LedgerAccountId, Seq<Seq<char>>)>,
    >) -> (r: Option<usize>)
        requires
            index@ == manual_view(self.manual_transaction_accounts@),
        ensures
            match r {
                Some(j) => j == find_id(index@, id) && 0 <= j < index@.len(),
                None => find_id(index@, id) < 0,
            },
    {
        find_id_index(&self.manual_transaction_accounts, id)
    }

    /// Rebuilds a chart by folding its event log from empty; fails where the
    /// log holds no `Initialized` event.
    pub fn try_from_events(events: Vec<ChartEvent>) -> (r: Result<Chart, ChartLoadError>)
        ensures
            r is Ok <==> header(events_view(events@)) is Some,
            r is Ok ==> {
                let c = r->Ok_0;
                &&& c.wf()
                &&& c.log() == events_view(events@)
                &&& header(events_view(events@)) == Some(
                    (c.spec_id(), c.spec_name(), c.spec_reference()),
                )
            },
    {
        let ghost evs = events_view(events@);
        let mut all_accounts: Vec<AccountDetails> = Vec::new();
        let mut manual: Vec<(LedgerAccountId, AccountCode)> = Vec::new();
        let mut hdr: Option<(ChartId, String, String)> = None;
        let mut i: usize = 0;
        while i < events.len()
            invariant
                evs == events_view(events@),
                i <= evs.len(),
                details_view(all_accounts@) == replay_accounts(evs.subrange(0, i as int)),
                manual_view(manual@) == replay_manual(evs.subrange(0, i as int)),
                match hdr {
                    Some(h) => header(evs.subrange(0, i as int)) == Some((h.0, h.1@, h.2@)),
                    None => header(evs.subrange(0, i as int)) is None,
                },
            decreases evs.len() - i,
        {
            let e = &events[i];
            assert(evs[i as int] == e@);
            assert(evs.subrange(0, i + 1).drop_last() =~= evs.subrange(0, i as int));
            match e {
                ChartEvent::Initialized { id, name, reference, .. } => {
                    hdr = Some((*id, name.clone(), reference.clone()));
                },
                _ => {},
            }
            apply_event(&mut all_accounts, &mut manual, e);
            i = i + 1;
        }
        assert(evs.subrange(0, i as int) =~= evs);
        match hdr {
            Some((id, name, reference)) => {
                let c = Chart {
                    id,
                    reference,
                    name,
                    all_accounts,
                    manual_transaction_accounts: manual,
                    events,
                };
                Ok(c)
            },
            None => Err(ChartLoadError::NotInitialized),
        }
    }
}

/// Position of the entry for `code`, searching from the end.
fn find_code_index(accounts: &Vec<AccountDetails>, code: &AccountCode) -> (r: Option<usize>)
    ensures
        match r {
            Some(i) => i == find_code(details_view(accounts@), code@) && 0 <= i < accounts@.len(),
            None => find_code(details_view(accounts@), code@) < 0,
        },
{
    let ghost a = details_view(accounts@);
    let mut i: usize = accounts.len();
    assert(a.subrange(0, i as int) =~= a);
    while i > 0
        invariant
            a == details_view(accounts@),
            i <= a.len(),
            find_code(a, code@) == find_code(a.subrange(0, i as int), code@),
        decreases i,
    {
        let ghost sub = a.subrange(0, i as int);
        assert(sub.drop_last() =~= a.subrange(0, i - 1));
        assert(a[i - 1] == accounts@[i - 1]@);
        if accounts[i - 1].spec.code.eq(code) {
            return Some(i - 1);
        }
        i = i - 1;
    }
    None
}

/// Position of the manual account entry for `id`, searching from the end.
fn find_id_index(manual: &Vec<(LedgerAccountId, AccountCode)>, id: LedgerAccountId) -> (r: Option<
    usize,
>)
    ensures
        match r {
            Some(j) => j == find_id(manual_view(manual@), id) && 0 <= j < manual@.len(),
            None => find_id(manual_view(manual@), id) < 0,
        },
{
    let ghost m = manual_view(manual@);
    let mut j: usize = manual.len();
    assert(m.subrange(0, j as int) =~= m);
    while j > 0
        invariant
            m == manual_view(manual@),
            j <= m.len(),
            find_id(m, id) == find_id(m.subrange(0, j as int), id),
        decreases j,
    {
        let ghost sub = m.subrange(0, j as int);
        assert(sub.drop_last() =~= m.subrange(0, j - 1));
        assert(m[j - 1].0 == manual@[j - 1].0);
        if manual[j - 1].0 == id {
            return Some(j - 1);
        }
        j = j - 1;
    }
    None
}

/// Applies one event to both indices.
fn apply_event(
    accounts: &mut Vec<AccountDetails>,
    manual: &mut Vec<(LedgerAccountId, AccountCode)>,
    e: &ChartEvent,
)
    ensures
        details_view(final(accounts)@) == apply_accounts(details_view(old(accounts)@), e@),
        manual_view(final(manual)@) == apply_manual(manual_view(old(manual)@), e@),
{
    let ghost a = details_view(accounts@);
    let ghost m = manual_view(manual@);
    match e {
        ChartEvent::Initialized { .. } => {},
        ChartEvent::NodeAdded { spec, ledger_account_set_id, .. } => {
            let d = AccountDetails {
                spec: spec.clone(),
                account_set_id: *ledger_account_set_id,
                manual_transaction_account_id: None,
            };
            match find_code_index(accounts, &spec.code) {
                Some(i) => {
                    accounts.set(i, d);
                    assert(details_view(accounts@) =~= a.update(i as int, d@));
                },
                None => {
                    accounts.push(d);
                    assert(details_view(accounts@) =~= a.push(d@));
                },
            }
        },
        ChartEvent::ManualTransactionAccountAdded { code, ledger_account_id, .. } => {
            match find_code_index(accounts, code) {
                Some(i) => {
                    assert(a[i as int] == accounts@[i as int]@);
                    let d = AccountDetails {
                        spec: accounts[i].spec.clone(),
                        account_set_id: accounts[i].account_set_id,
                        manual_transaction_account_id: Some(*ledger_account_id),
                    };
                    accounts.set(i, d);
                    assert(details_view(accounts@) =~= a.update(
                        i as int,
                        DetailsView { manual: Some(*ledger_account_id), ..a[i as int] },
                    ));
                },
                None => {},
            }
            match find_id_index(manual, *ledger_account_id) {
                Some(j) => {
                    manual.set(j, (*ledger_account_id, code.clone()));
                    assert(manual_view(manual@) =~= m.update(j as int, (*ledger_account_id, code@)));
                },
                None => {
                    manual.push((*ledger_account_id, code.clone()));
                    assert(manual_view(manual@) =~= m.push((*ledger_account_id, code@)));
                },
            }
        },
    }
}

/// Error of rebuilding a chart from a log.
#[derive(Debug, Clone, Copy, PartialEq, Eq, Structural)]
pub enum ChartLoadError {
    NotInitialized,
}

/// The data of a chart to be created.
#[derive(Debug)]
pub struct NewChart {
    pub id: ChartId,
    pub name: String,
    pub reference: String,
    pub audit_info: AuditInfo,
}

impl NewChart {
    /// The log of a new chart: its single `Initialized` event.
    pub fn into_events(self) -> (r: Vec<ChartEvent>)
        ensures
            events_view(r@) == seq![
                ChartEventView::Initialized {
                    id: self.id,
                    name: self.name@,
                    reference: self.reference@,
                },
            ],
    {
        let e = ChartEvent::Initialized {
            id: self.id,
            name: self.name,
            reference: self.reference,
            audit_info: self.audit_info,
        };
        let v = vec![e];
        assert(events_view(v@) =~= seq![e@]);
        v
    }
}

} // verus!
