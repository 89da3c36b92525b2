//! Chart import from comma-separated text: one account per line,
//! `code,parent code,<ignored>,name[,debit|credit]`.

use vstd::prelude::*;

use crate::account::{
    name_error, option_code_view, specs_view, trimmed, valid_parent, AccountName, AccountNameParseError, AccountSpec,
    AccountSpecView, DebitOrCredit,
};
use crate::code::{
    parse_code_spec, split_bounds, split_on, str_eq, AccountCode, AccountCodeParseError,
};

verus! {

/// Kinds of accounting exports.
#[derive(Debug, Clone, Copy, PartialEq, Eq, Structural)]
pub enum AccountingCsvType {
    LedgerAccount,
    ProfitAndLoss,
    BalanceSheet,
}

/// State of an accounting export.
#[derive(Debug, Clone, Copy, PartialEq, Eq, Structural)]
pub enum AccountingCsvStatus {
    Pending,
    Completed,
    Failed,
}

#[derive(Debug, Clone, Copy, PartialEq, Eq, Structural)]
pub enum CsvParseError {
    NotEnoughFields,
    InvalidCode(AccountCodeParseError),
    InvalidParentCode(AccountCodeParseError),
    InvalidName(AccountNameParseError),
    InvalidBalance,
    InvalidParent,
}

/// The balance direction a row names in its fifth field, where it has one:
/// `debit` or `credit`; the default direction where the field is absent or
/// empty; `None` for any other text.
pub open spec fn balance_spec(f: Seq<Seq<char>>) -> Option<DebitOrCredit> {
    if f.len() < 5 || f[4].len() == 0 {
        Some(DebitOrCredit::Credit)
    } else if f[4] == seq!['d', 'e', 'b', 'i', 't'] {
        Some(DebitOrCredit::Debit)
    } else if f[4] == seq!['c', 'r', 'e', 'd', 'i', 't'] {
        Some(DebitOrCredit::Credit)
    } else {
        None
    }
}

/// The parent field of a row: empty means no parent.
pub open spec fn parent_spec(field: Seq<char>) -> Result<Option<Seq<Seq<char>>>, CsvParseError> {
    if field.len() == 0 {
        Ok(None)
    } else {
        match parse_code_spec(field) {
            Ok(p) => Ok(Some(p)),
            Err(e) => Err(CsvParseError::InvalidParentCode(e)),
        }
    }
}

/// What one non-empty line gives: the spec it describes, or the first error in
/// the order code, parent, name, balance, parenthood.
pub open spec fn row_spec(line: Seq<char>) -> Result<AccountSpecView, CsvParseError> {
    let f = split_on(line, ',');
    if f.len() < 4 {
        Err(CsvParseError::NotEnoughFields)
    } else {
        match parse_code_spec(f[0]) {
            Err(e) => Err(CsvParseError::InvalidCode(e)),
            Ok(code) => match parent_spec(f[1]) {
                Err(e) => Err(e),
                Ok(parent) => match name_error(trimmed(f[3])) {
                    Some(e) => Err(CsvParseError::InvalidName(e)),
                    None => match balance_spec(f) {
                        None => Err(CsvParseError::InvalidBalance),
                        Some(b) => if valid_parent(parent, code) {
                            Ok(
                                AccountSpecView {
                                    parent,
                                    code,
                                    name: trimmed(f[3]),
                                    normal_balance_type: b,
                                },
                            )
                        } else {
                            Err(CsvParseError::InvalidParent)
                        },
                    },
                },
            },
        }
    }
}

/// The specs of the non-empty lines, in order, or the error of the first line
/// that fails.
pub open spec fn rows_spec(lines: Seq<Seq<char>>) -> Result<Seq<AccountSpecView>, CsvParseError>
    decreases lines.len(),
{
    if lines.len() == 0 {
        Ok(Seq::empty())
    } else {
        match rows_spec(lines.drop_last()) {
            Err(e) => Err(e),
            Ok(prev) => if lines.last().len() == 0 {
                Ok(prev)
            } else {
                match row_spec(lines.last()) {
                    Err(e) => Err(e),
                    Ok(s) => Ok(prev.push(s)),
                }
            },
        }
    }
}

/// What a whole text gives.
pub open spec fn csv_spec(text: Seq<char>) -> Result<Seq<AccountSpecView>, CsvParseError> {
    rows_spec(split_on(text, '\n'))
}

proof fn lemma_rows_error_stays(lines: Seq<Seq<char>>, i: int, e: CsvParseError)
    requires
        0 <= i <= lines.len(),
        rows_spec(lines.subrange(0, i)) == Err::<Seq<AccountSpecView>, CsvParseError>(e),
    ensures
        rows_spec(lines) == Err::<Seq<AccountSpecView>, CsvParseError>(e),
    decreases lines.len() - i,
{
    if i == lines.len() {
        assert(lines.subrange(0, i) =~= lines);
    } else {
        assert(lines.subrange(0, i + 1).drop_last() =~= lines.subrange(0, i));
        lemma_rows_error_stays(lines, i + 1, e);
    }
}

/// Parses comma-separated text into account specs.
pub struct CsvParser {
    data: String,
}

impl CsvParser {
    pub fn new(data: String) -> (r: CsvParser)
        ensures
            r.text() == data@,
    {
        CsvParser { data }
    }

    pub closed spec fn text(&self) -> Seq<char> {
        self.data@
    }

    /// The specs of the non-empty lines in file order, or the first line's
    /// error.
    pub fn account_specs(self) -> (r: Result<Vec<AccountSpec>, CsvParseError>)
        ensures
            match csv_spec(self.text()) {
                Ok(v) => r is Ok && specs_view(r->Ok_0@) == v,
                Err(e) => r == Err::<Vec<AccountSpec>, CsvParseError>(e),
            },
    {
        let text = self.data.as_str();
        let bounds = split_bounds(text, '\n');
        let ghost lines = split_on(text@, '\n');
        let mut out: Vec<AccountSpec> = Vec::new();
        let mut i: usize = 0;
        assert(lines.subrange(0, 0) =~= Seq::<Seq<char>>::empty());
        assert(specs_view(out@) =~= Seq::<AccountSpecView>::empty());
        while i < bounds.len()
            invariant
                text@ == self.text(),
                lines == split_on(text@, '\n'),
                bounds@.len() == lines.len(),
                i <= lines.len(),
                forall|k: int|
                    0 <= k < bounds@.len() ==> {
                        &&& (#[trigger] bounds@[k]).0 <= bounds@[k].1 <= text@.len()
                        &&& text@.subrange(bounds@[k].0 as int, bounds@[k].1 as int) == lines[k]
                    },
                rows_spec(lines.subrange(0, i as int)) == Ok::<
                    Seq<AccountSpecView>,
                    CsvParseError,
                >(specs_view(out@)),
            decreases lines.len() - i,
        {
            let (b, e) = bounds[i];
            let line = text.substring_char(b, e);
            assert(line@ == lines[i as int]);
            assert(lines.subrange(0, i + 1).drop_last() =~= lines.subrange(0, i as int));
            assert(lines.subrange(0, i + 1).last() == lines[i as int]);
            if line.unicode_len() > 0 {
                match parse_row(line) {
                    Ok(spec) => {
                        let ghost before = out@;
                        out.push(spec);
                        assert(specs_view(out@) =~= specs_view(before).push(spec@));
                    },
                    Err(err) => {
                        proof {
                            lemma_rows_error_stays(lines, i + 1, err);
                        }
                        return Err(err);
                    },
                }
            }
            i = i + 1;
        }
        assert(lines.subrange(0, i as int) =~= lines);
        Ok(out)
    }
}

/// Parses one non-empty line.
pub fn parse_row(line: &str) -> (r: Result<AccountSpec, CsvParseError>)
    ensures
        match row_spec(line@) {
            Ok(v) => r is Ok && r->Ok_0@ == v,
            Err(e) => r == Err::<AccountSpec, CsvParseError>(e),
        },
{
    let bounds = split_bounds(line, ',');
    let ghost f = split_on(line@, ',');
    if bounds.len() < 4 {
        return Err(CsvParseError::NotEnoughFields);
    }
    let code_field = line.substring_char(bounds[0].0, bounds[0].1);
    assert(code_field@ == f[0]);
    let code = match AccountCode::parse(code_field) {
        Ok(c) => c,
        Err(e) => {
            return Err(CsvParseError::InvalidCode(e));
        },
    };
    let parent_field = line.substring_char(bounds[1].0, bounds[1].1);
    assert(parent_field@ == f[1]);
    let parent = if parent_field.unicode_len() == 0 {
        None
    } else {
        match AccountCode::parse(parent_field) {
            Ok(p) => Some(p),
            Err(e) => {
                return Err(CsvParseError::InvalidParentCode(e));
            },
        }
    };
    let name_field = line.substring_char(bounds[3].0, bounds[3].1);
    assert(name_field@ == f[3]);
    assert(option_code_view(parent) == parent_spec(f[1])->Ok_0);
    let name = match AccountName::parse(name_field) {
        Ok(n) => n,
        Err(e) => {
            return Err(CsvParseError::InvalidName(e));
        },
    };
    proof {
        reveal_strlit("debit");
        reveal_strlit("credit");
        assert("debit"@ =~= seq!['d', 'e', 'b', 'i', 't']);
        assert("credit"@ =~= seq!['c', 'r', 'e', 'd', 'i', 't']);
    }
    let balance = if bounds.len() < 5 {
        DebitOrCredit::default()
    } else {
        let field = line.substring_char(bounds[4].0, bounds[4].1);
        assert(field@ == f[4]);
        if field.unicode_len() == 0 {
            DebitOrCredit::default()
        } else if str_eq(field, "debit") {
            DebitOrCredit::Debit
        } else if str_eq(field, "credit") {
            DebitOrCredit::Credit
        } else {
            return Err(CsvParseError::InvalidBalance);
        }
    };
    let valid = match &parent {
        Some(p) => p.is_parent_of(code.sections()),
        None => true,
    };
    if !valid {
        return Err(CsvParseError::InvalidParent);
    }
    Ok(AccountSpec { parent, code, name, normal_balance_type: balance })
}

} // verus!
