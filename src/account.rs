//! Account names, balance directions and account specifications.

use vstd::prelude::*;

use crate::code::{
    is_digit, is_parent_spec, sections_view, AccountCode, AccountCodeError, AccountCodeSection,
};

verus! {

/// What `str::trim` leaves of a text: it depends on the text alone.
pub uninterp spec fn trimmed(s: Seq<char>) -> Seq<char>;

/// Relies on `str::trim`: the text without leading and trailing white space.
#[verifier::external_body]
fn trim_str(s: &str) -> (r: &str)
    ensures
        r@ == trimmed(s@),
{
    s.trim()
}

#[derive(Debug, Clone, Copy, PartialEq, Eq, Structural)]
pub enum AccountNameParseError {
    Empty,
    StartsWithDigit,
}

/// Why an already trimmed text is no account name, if it is not one.
pub open spec fn name_error(t: Seq<char>) -> Option<AccountNameParseError> {
    if t.len() == 0 {
        Some(AccountNameParseError::Empty)
    } else if is_digit(t[0]) {
        Some(AccountNameParseError::StartsWithDigit)
    } else {
        None
    }
}

/// A non-empty trimmed name that does not start with a digit.
#[derive(Debug)]
pub struct AccountName {
    name: String,
}

impl View for AccountName {
    type V = Seq<char>;

    closed spec fn view(&self) -> Seq<char> {
        self.name@
    }
}

impl Clone for AccountName {
    fn clone(&self) -> (r: AccountName)
        ensures
            r == *self,
    {
        AccountName { name: self.name.clone() }
    }
}

impl AccountName {
    /// Builds a name from text that has already been trimmed.
    pub fn from_trimmed(t: &str) -> (r: Result<AccountName, AccountNameParseError>)
        ensures
            match name_error(t@) {
                Some(e) => r == Err::<AccountName, AccountNameParseError>(e),
                None => r is Ok && r->Ok_0@ == t@,
            },
    {
        if t.unicode_len() == 0 {
            return Err(AccountNameParseError::Empty);
        }
        let c = t.get_char(0);
        if '0' <= c && c <= '9' {
            return Err(AccountNameParseError::StartsWithDigit);
        }
        Ok(AccountName { name: String::from_str(t) })
    }

    /// Parses a name: the text is trimmed, then must be non-empty and must not
    /// start with a digit.
    pub fn parse(s: &str) -> (r: Result<AccountName, AccountNameParseError>)
        ensures
            match name_error(trimmed(s@)) {
                Some(e) => r == Err::<AccountName, AccountNameParseError>(e),
                None => r is Ok && r->Ok_0@ == trimmed(s@),
            },
    {
        AccountName::from_trimmed(trim_str(s))
    }

    pub fn as_str(&self) -> (r: &str)
        ensures
            r@ == self@,
    {
        self.name.as_str()
    }

    /// Display form: the name itself.
    pub fn to_string(&self) -> (r: String)
        ensures
            r@ == self@,
    {
        self.name.clone()
    }
}

impl std::str::FromStr for AccountName {
    type Err = AccountNameParseError;

    fn from_str(s: &str) -> Result<AccountName, AccountNameParseError> {
        AccountName::parse(s)
    }
}

/// The normal balance direction of an account.
#[derive(Debug, Clone, Copy, PartialEq, Eq, Structural)]
pub enum DebitOrCredit {
    Debit,
    Credit,
}

impl Default for DebitOrCredit {
    fn default() -> (r: DebitOrCredit)
        ensures
            r == DebitOrCredit::Credit,
    {
        DebitOrCredit::Credit
    }
}

/// The value of an account specification.
pub struct AccountSpecView {
    pub parent: Option<Seq<Seq<char>>>,
    pub code: Seq<Seq<char>>,
    pub name: Seq<char>,
    pub normal_balance_type: DebitOrCredit,
}

/// The parent of a spec, if any, is structurally a parent of its code.
pub open spec fn valid_parent(parent: Option<Seq<Seq<char>>>, code: Seq<Seq<char>>) -> bool {
    match parent {
        Some(p) => is_parent_spec(p, code),
        None => true,
    }
}

/// A (parent code, code, name, balance direction) tuple: the unit of chart
/// mutation.
#[derive(Debug)]
pub struct AccountSpec {
    pub parent: Option<AccountCode>,
    pub code: AccountCode,
    pub name: AccountName,
    pub normal_balance_type: DebitOrCredit,
}

pub open spec fn option_code_view(c: Option<AccountCode>) -> Option<Seq<Seq<char>>> {
    match c {
        Some(c) => Some(c@),
        None => None,
    }
}

impl View for AccountSpec {
    type V = AccountSpecView;

    open spec fn view(&self) -> AccountSpecView {
        AccountSpecView {
            parent: option_code_view(self.parent),
            code: self.code@,
            name: self.name@,
            normal_balance_type: self.normal_balance_type,
        }
    }
}

/// The values of a sequence of specs.
pub open spec fn specs_view(s: Seq<AccountSpec>) -> Seq<AccountSpecView> {
    s.map_values(|x: AccountSpec| x@)
}

pub fn clone_option_code(c: &Option<AccountCode>) -> (r: Option<AccountCode>)
    ensures
        option_code_view(r) == option_code_view(*c),
{
    match c {
        Some(c) => Some(c.clone()),
        None => None,
    }
}

impl Clone for AccountSpec {
    fn clone(&self) -> (r: AccountSpec)
        ensures
            r@ == self@,
    {
        AccountSpec {
            parent: clone_option_code(&self.parent),
            code: self.code.clone(),
            name: self.name.clone(),
            normal_balance_type: self.normal_balance_type,
        }
    }
}

impl AccountSpec {
    /// Builds a spec, refusing a parent that is not structurally a parent of the
    /// code.
    pub fn try_new(
        parent: Option<AccountCode>,
        sections: Vec<AccountCodeSection>,
        name: AccountName,
        normal_balance_type: DebitOrCredit,
    ) -> (r: Result<AccountSpec, AccountCodeError>)
        ensures
            r is Ok <==> valid_parent(option_code_view(parent), sections_view(sections@)),
            r is Ok ==> r->Ok_0@ == (AccountSpecView {
                parent: option_code_view(parent),
                code: sections_view(sections@),
                name: name@,
                normal_balance_type,
            }),
            r is Err ==> r == Err::<AccountSpec, AccountCodeError>(AccountCodeError::InvalidParent),
    {
        let code = AccountCode::new(sections);
        let parent_copy = clone_option_code(&parent);
        match code.check_valid_parent(parent_copy) {
            Ok(()) => Ok(AccountSpec { parent, code, name, normal_balance_type }),
            Err(e) => Err(e),
        }
    }

    /// Builds a spec whose parent is known to be valid.
    pub fn new(
        parent: Option<AccountCode>,
        sections: Vec<AccountCodeSection>,
        name: AccountName,
        normal_balance_type: DebitOrCredit,
    ) -> (r: AccountSpec)
        requires
            valid_parent(option_code_view(parent), sections_view(sections@)),
        ensures
            r@ == (AccountSpecView {
                parent: option_code_view(parent),
                code: sections_view(sections@),
                name: name@,
                normal_balance_type,
            }),
    {
        let code = AccountCode::new(sections);
        AccountSpec { parent, code, name, normal_balance_type }
    }

    pub fn has_parent(&self) -> (r: bool)
        ensures
            r == self.parent is Some,
    {
        self.parent.is_some()
    }
}

} // verus!
