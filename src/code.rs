//! Account codes: dot-separated sequences of digit-only sections.

use vstd::prelude::*;

use crate::ids::{parse_uuid, uuid_parsed, uuid_text, ChartId};

verus! {

/// Whether `c` is an ASCII decimal digit.
pub open spec fn is_digit(c: char) -> bool {
    '0' <= c && c <= '9'
}

/// Whether every character of `s` is an ASCII decimal digit.
pub open spec fn all_digits(s: Seq<char>) -> bool {
    forall|i: int| 0 <= i < s.len() ==> is_digit(#[trigger] s[i])
}

/// Why `s` is not a valid account code section, if it is not one.
pub open spec fn section_error(s: Seq<char>) -> Option<AccountCodeSectionParseError> {
    if s.len() == 0 {
        Some(AccountCodeSectionParseError::Empty)
    } else if !all_digits(s) {
        Some(AccountCodeSectionParseError::NonDigit)
    } else {
        None
    }
}

#[derive(Debug, Clone, Copy, PartialEq, Eq, Structural)]
pub enum AccountCodeSectionParseError {
    Empty,
    NonDigit,
}

/// One section of an account code: a non-empty string of ASCII digits.
/// Sections order and compare as strings: `"1"` and `"01"` differ.
#[derive(Debug, Hash, PartialOrd, Ord)]
pub struct AccountCodeSection {
    code: String,
}

impl View for AccountCodeSection {
    type V = Seq<char>;

    closed spec fn view(&self) -> Seq<char> {
        self.code@
    }
}

impl PartialEq for AccountCodeSection {
    fn eq(&self, other: &AccountCodeSection) -> (r: bool)
        ensures
            r == (self@ == other@),
    {
        self.code == other.code
    }
}

impl vstd::std_specs::cmp::PartialEqSpecImpl for AccountCodeSection {
    open spec fn obeys_eq_spec() -> bool {
        true
    }

    open spec fn eq_spec(&self, other: &AccountCodeSection) -> bool {
        self@ == other@
    }
}

impl Eq for AccountCodeSection {

}

impl Clone for AccountCodeSection {
    fn clone(&self) -> (r: AccountCodeSection)
        ensures
            r == *self,
    {
        AccountCodeSection { code: self.code.clone() }
    }
}

fn str_all_digits(s: &str) -> (r: bool)
    ensures
        r == all_digits(s@),
{
    let n = s.unicode_len();
    let mut i: usize = 0;
    while i < n
        invariant
            n == s@.len(),
            i <= n,
            forall|j: int| 0 <= j < i ==> is_digit(#[trigger] s@[j]),
        decreases n - i,
    {
        let c = s.get_char(i);
        if !('0' <= c && c <= '9') {
            return false;
        }
        i = i + 1;
    }
    true
}

impl AccountCodeSection {
    /// Parses a section: fails with `Empty` on empty input and `NonDigit` when a
    /// character is not an ASCII digit.
    pub fn parse(s: &str) -> (r: Result<AccountCodeSection, AccountCodeSectionParseError>)
        ensures
            match section_error(s@) {
                Some(e) => r == Err::<AccountCodeSection, AccountCodeSectionParseError>(e),
                None => r is Ok && r->Ok_0@ == s@,
            },
    {
        if s.unicode_len() == 0 {
            return Err(AccountCodeSectionParseError::Empty);
        }
        if !str_all_digits(s) {
            return Err(AccountCodeSectionParseError::NonDigit);
        }
        Ok(AccountCodeSection { code: String::from_str(s) })
    }

    /// The digits of this section.
    pub fn as_str(&self) -> (r: &str)
        ensures
            r@ == self@,
    {
        self.code.as_str()
    }

    /// Display form: the digits themselves.
    pub fn to_string(&self) -> (r: String)
        ensures
            r@ == self@,
    {
        self.code.clone()
    }
}

impl std::str::FromStr for AccountCodeSection {
    type Err = AccountCodeSectionParseError;

    fn from_str(s: &str) -> Result<AccountCodeSection, AccountCodeSectionParseError> {
        AccountCodeSection::parse(s)
    }
}

#[derive(Debug, Clone, Copy, PartialEq, Eq, Structural)]
pub enum AccountCodeParseError {
    Empty,
    AccountCodeSectionParseError(AccountCodeSectionParseError),
    InvalidParent,
}

#[derive(Debug, Clone, Copy, PartialEq, Eq, Structural)]
pub enum AccountCodeError {
    InvalidParent,
}

/// The views of a sequence of sections.
pub open spec fn sections_view(s: Seq<AccountCodeSection>) -> Seq<Seq<char>> {
    s.map_values(|x: AccountCodeSection| x@)
}

/// Whether `a` is a prefix of `b`.
pub open spec fn is_prefix(a: Seq<char>, b: Seq<char>) -> bool {
    a.len() <= b.len() && b.subrange(0, a.len() as int) == a
}

/// Structural parenthood of codes: both non-empty and different, the child has
/// at least as many sections, and each section of the parent is a prefix of the
/// child's section at the same position.
pub open spec fn is_parent_spec(parent: Seq<Seq<char>>, child: Seq<Seq<char>>) -> bool {
    &&& parent.len() > 0
    &&& child.len() > 0
    &&& parent != child
    &&& parent.len() <= child.len()
    &&& forall|i: int| 0 <= i < parent.len() ==> is_prefix(#[trigger] parent[i], child[i])
}

/// The pieces of `s` between occurrences of `sep`, left to right (`"1..2"` has
/// three pieces between dots).
pub open spec fn split_on(s: Seq<char>, sep: char) -> Seq<Seq<char>>
    decreases s.len(),
{
    if s.len() == 0 {
        seq![Seq::empty()]
    } else {
        let prev = split_on(s.drop_last(), sep);
        if s.last() == sep {
            prev.push(Seq::empty())
        } else {
            prev.update(prev.len() - 1, prev.last().push(s.last()))
        }
    }
}

/// The pieces of `s` between dots.
pub open spec fn split_dots(s: Seq<char>) -> Seq<Seq<char>> {
    split_on(s, '.')
}

/// The pieces joined with dots between them.
pub open spec fn join_dots(p: Seq<Seq<char>>) -> Seq<char>
    decreases p.len(),
{
    if p.len() == 0 {
        Seq::empty()
    } else if p.len() == 1 {
        p[0]
    } else {
        join_dots(p.drop_last()) + seq!['.'] + p.last()
    }
}

/// The pieces concatenated with no separator.
pub open spec fn concat_all(p: Seq<Seq<char>>) -> Seq<char>
    decreases p.len(),
{
    if p.len() == 0 {
        Seq::empty()
    } else {
        concat_all(p.drop_last()) + p.last()
    }
}

/// The texts of a code's sections: its dot-separated pieces, less a leading
/// UUID piece where there is more than one piece.
pub open spec fn code_pieces(s: Seq<char>) -> Seq<Seq<char>> {
    let p = split_dots(s);
    if p.len() > 1 && uuid_parsed(p[0]) is Some {
        p.drop_first()
    } else {
        p
    }
}

/// The error of the first piece that is no valid section, if any.
pub open spec fn first_section_error(p: Seq<Seq<char>>) -> Option<AccountCodeSectionParseError>
    decreases p.len(),
{
    if p.len() == 0 {
        None
    } else if section_error(p[0]) is Some {
        section_error(p[0])
    } else {
        first_section_error(p.drop_first())
    }
}

/// What parsing `s` as an account code gives: `Empty` on empty text, else the
/// error of the first piece that is no valid section, else the pieces.
pub open spec fn parse_code_spec(s: Seq<char>) -> Result<Seq<Seq<char>>, AccountCodeParseError> {
    if s.len() == 0 {
        Err(AccountCodeParseError::Empty)
    } else {
        match first_section_error(code_pieces(s)) {
            Some(e) => Err(AccountCodeParseError::AccountCodeSectionParseError(e)),
            None => Ok(code_pieces(s)),
        }
    }
}

pub proof fn lemma_split_nonempty(s: Seq<char>, sep: char)
    ensures
        split_on(s, sep).len() >= 1,
    decreases s.len(),
{
    if s.len() > 0 {
        lemma_split_nonempty(s.drop_last(), sep);
    }
}

/// Joining the dot-separated pieces of a text gives the text back.
pub proof fn lemma_join_split(s: Seq<char>)
    ensures
        join_dots(split_dots(s)) == s,
    decreases s.len(),
{
    if s.len() > 0 {
        let prev = split_dots(s.drop_last());
        lemma_split_nonempty(s.drop_last(), '.');
        lemma_join_split(s.drop_last());
        if s.last() == '.' {
            let p = prev.push(Seq::empty());
            assert(p.drop_last() =~= prev);
            assert(s =~= s.drop_last() + seq!['.'] + Seq::empty());
        } else {
            let p = prev.update(prev.len() - 1, prev.last().push(s.last()));
            if prev.len() == 1 {
                assert(s =~= prev[0].push(s.last()));
            } else {
                assert(p.drop_last() =~= prev.drop_last());
                assert(join_dots(prev) == join_dots(prev.drop_last()) + seq!['.'] + prev.last());
                assert(s =~= s.drop_last().push(s.last()));
                assert(s =~= join_dots(prev.drop_last()) + seq!['.'] + prev.last().push(
                    s.last(),
                ));
            }
        }
    }
}

/// A code whose sections are those of a parent, where the last may be extended
/// and more may follow, is a child of that parent; no code is a parent of
/// itself, and no empty code is a parent or a child.
pub proof fn lemma_parent_of_extension(parent: Seq<Seq<char>>, child: Seq<Seq<char>>)
    requires
        parent.len() > 0,
        parent.len() <= child.len(),
        forall|i: int| 0 <= i < parent.len() - 1 ==> #[trigger] child[i] == parent[i],
        is_prefix(parent.last(), child[parent.len() - 1]),
        child != parent,
    ensures
        is_parent_spec(parent, child),
        !is_parent_spec(parent, parent),
        !is_parent_spec(Seq::empty(), child),
        !is_parent_spec(parent, Seq::empty()),
{
    assert forall|i: int| 0 <= i < parent.len() implies is_prefix(#[trigger] parent[i], child[i]) by {
        if i < parent.len() - 1 {
            assert(child[i].subrange(0, parent[i].len() as int) =~= parent[i]);
        }
    }
}

/// A dotted string of digit sections with no leading UUID piece parses to its
/// pieces, and displaying the parsed code gives the string back.
pub proof fn lemma_parse_display_round_trip(s: Seq<char>)
    requires
        s.len() > 0,
        first_section_error(split_dots(s)) is None,
        !(split_dots(s).len() > 1 && uuid_parsed(split_dots(s)[0]) is Some),
    ensures
        parse_code_spec(s) == Ok::<Seq<Seq<char>>, AccountCodeParseError>(split_dots(s)),
        join_dots(split_dots(s)) == s,
{
    lemma_join_split(s);
}

/// External id of the account set of `code`, scoped by the chart id:
/// `"<chart id>.<code>"`.
pub open spec fn account_set_external_id_spec(chart_id: ChartId, code: Seq<Seq<char>>) -> Seq<char> {
    uuid_text(chart_id.value) + seq!['.'] + join_dots(code)
}

/// External code of the manual account of `code`, scoped by the chart id:
/// `"<chart id>.<code>.manual"`.
pub open spec fn manual_external_id(chart_id: ChartId, code: Seq<Seq<char>>) -> Seq<char> {
    account_set_external_id_spec(chart_id, code) + seq!['.', 'm', 'a', 'n', 'u', 'a', 'l']
}

/// An account code: a sequence of sections, displayed joined with dots.
/// Codes order section by section.
#[derive(Debug, Hash, PartialOrd, Ord)]
pub struct AccountCode {
    sections: Vec<AccountCodeSection>,
}

impl View for AccountCode {
    type V = Seq<Seq<char>>;

    closed spec fn view(&self) -> Seq<Seq<char>> {
        sections_view(self.sections@)
    }
}

impl Clone for AccountCode {
    fn clone(&self) -> (r: AccountCode)
        ensures
            r@ == self@,
    {
        let mut v: Vec<AccountCodeSection> = Vec::new();
        let mut i: usize = 0;
        while i < self.sections.len()
            invariant
                i <= self.sections@.len(),
                v@.len() == i,
                forall|j: int| 0 <= j < i ==> v@[j] == self.sections@[j],
            decreases self.sections@.len() - i,
        {
            v.push(self.sections[i].clone());
            i = i + 1;
        }
        let r = AccountCode { sections: v };
        assert(r@ =~= self@);
        r
    }
}

impl PartialEq for AccountCode {
    fn eq(&self, other: &AccountCode) -> (r: bool)
        ensures
            r == (self@ == other@),
    {
        sections_eq(self.sections.as_slice(), other.sections.as_slice())
    }
}

impl vstd::std_specs::cmp::PartialEqSpecImpl for AccountCode {
    open spec fn obeys_eq_spec() -> bool {
        true
    }

    open spec fn eq_spec(&self, other: &AccountCode) -> bool {
        self@ == other@
    }
}

impl Eq for AccountCode {

}

fn sections_eq(a: &[AccountCodeSection], b: &[AccountCodeSection]) -> (r: bool)
    ensures
        r == (sections_view(a@) == sections_view(b@)),
{
    if a.len() != b.len() {
        return false;
    }
    let mut i: usize = 0;
    while i < a.len()
        invariant
            a@.len() == b@.len(),
            i <= a@.len(),
            forall|j: int| 0 <= j < i ==> a@[j]@ == b@[j]@,
        decreases a@.len() - i,
    {
        if a[i].code != b[i].code {
            assert(sections_view(a@)[i as int] != sections_view(b@)[i as int]);
            return false;
        }
        i = i + 1;
    }
    assert(sections_view(a@) =~= sections_view(b@));
    true
}

fn str_starts_with(s: &str, prefix: &str) -> (r: bool)
    ensures
        r == is_prefix(prefix@, s@),
{
    let n = s.unicode_len();
    let m = prefix.unicode_len();
    if m > n {
        return false;
    }
    let mut i: usize = 0;
    while i < m
        invariant
            n == s@.len(),
            m == prefix@.len(),
            m <= n,
            i <= m,
            forall|j: int| 0 <= j < i ==> s@[j] == prefix@[j],
        decreases m - i,
    {
        if s.get_char(i) != prefix.get_char(i) {
            assert(s@.subrange(0, m as int)[i as int] != prefix@[i as int]);
            return false;
        }
        i = i + 1;
    }
    assert(s@.subrange(0, m as int) =~= prefix@);
    true
}

/// Start and end positions of the pieces of `s` between occurrences of `sep`.
pub fn split_bounds(s: &str, sep: char) -> (r: Vec<(usize, usize)>)
    ensures
        r@.len() == split_on(s@, sep).len(),
        forall|k: int|
            0 <= k < r@.len() ==> {
                &&& (#[trigger] r@[k]).0 <= r@[k].1 <= s@.len()
                &&& s@.subrange(r@[k].0 as int, r@[k].1 as int) == split_on(s@, sep)[k]
            },
{
    let n = s.unicode_len();
    let mut r: Vec<(usize, usize)> = Vec::new();
    let mut start: usize = 0;
    let mut i: usize = 0;
    while i < n
        invariant
            n == s@.len(),
            start <= i <= n,
            r@.len() + 1 == split_on(s@.subrange(0, i as int), sep).len(),
            split_on(s@.subrange(0, i as int), sep).last() == s@.subrange(start as int, i as int),
            forall|k: int|
                0 <= k < r@.len() ==> {
                    &&& (#[trigger] r@[k]).0 <= r@[k].1 <= i
                    &&& s@.subrange(r@[k].0 as int, r@[k].1 as int) == split_on(
                        s@.subrange(0, i as int),
                        sep,
                    )[k]
                },
        decreases n - i,
    {
        let ghost prev = split_on(s@.subrange(0, i as int), sep);
        let c = s.get_char(i);
        assert(s@.subrange(0, i + 1).drop_last() =~= s@.subrange(0, i as int));
        assert(s@.subrange(0, i + 1).last() == c);
        if c == sep {
            r.push((start, i));
            start = i + 1;
        } else {
            assert(s@.subrange(start as int, i + 1) =~= s@.subrange(start as int, i as int).push(
                c,
            ));
        }
        i = i + 1;
    }
    assert(s@.subrange(0, n as int) =~= s@);
    r.push((start, n));
    r
}

impl AccountCode {
    pub fn new(sections: Vec<AccountCodeSection>) -> (r: AccountCode)
        ensures
            r@ == sections_view(sections@),
    {
        AccountCode { sections }
    }

    /// The sections of this code.
    pub fn sections(&self) -> (r: &[AccountCodeSection])
        ensures
            sections_view(r@) == self@,
    {
        self.sections.as_slice()
    }

    pub fn len_sections(&self) -> (r: usize)
        ensures
            r == self@.len(),
    {
        self.sections.len()
    }

    /// Depth in the chart: the number of sections less one.
    pub fn chart_level(&self) -> (r: usize)
        requires
            self@.len() > 0,
        ensures
            r == self@.len() - 1,
    {
        self.sections.len() - 1
    }

    pub fn section(&self, idx: usize) -> (r: Option<&AccountCodeSection>)
        ensures
            idx < self@.len() ==> r is Some && r->Some_0@ == self@[idx as int],
            idx >= self@.len() ==> r is None,
    {
        if idx < self.sections.len() {
            Some(&self.sections[idx])
        } else {
            None
        }
    }

    /// Whether the sections, concatenated without separators, are exactly `code`.
    pub fn is_equivalent_to_str(&self, code: &str) -> (r: bool)
        ensures
            r == (concat_all(self@) == code@),
    {
        let n = code.unicode_len();
        let mut position: usize = 0;
        let mut i: usize = 0;
        while i < self.sections.len()
            invariant
                n == code@.len(),
                i <= self@.len(),
                self@.len() == self.sections@.len(),
                position <= n,
                concat_all(self@.subrange(0, i as int)) == code@.subrange(0, position as int),
            decreases self.sections@.len() - i,
        {
            let sec = self.sections[i].as_str();
            let len = sec.unicode_len();
            proof {
                assert(self@.subrange(0, i + 1).drop_last() =~= self@.subrange(0, i as int));
                assert(self@[i as int] == sec@);
            }
            if len > n - position {
                proof {
                    lemma_concat_prefix(self@, i + 1);
                }
                return false;
            }
            let piece = code.substring_char(position, position + len);
            if !str_eq(piece, sec) {
                proof {
                    lemma_concat_prefix(self@, i + 1);
                    let c = concat_all(self@.subrange(0, i + 1));
                    assert(c.subrange(position as int, position + len) =~= sec@);
                    if concat_all(self@) == code@ {
                        assert(code@.subrange(position as int, position + len) =~= c.subrange(
                            position as int,
                            position + len,
                        ));
                    }
                }
                return false;
            }
            assert(code@.subrange(0, position + len) =~= code@.subrange(0, position as int)
                + piece@);
            position = position + len;
            i = i + 1;
        }
        assert(self@.subrange(0, i as int) =~= self@);
        if position != n {
            assert(code@.subrange(0, position as int).len() != code@.len());
        }
        assert(position == n ==> code@.subrange(0, position as int) =~= code@);
        position == n
    }

    /// Whether this code is structurally a parent of a code with sections
    /// `child_sections`.
    pub fn is_parent_of(&self, child_sections: &[AccountCodeSection]) -> (r: bool)
        ensures
            r == is_parent_spec(self@, sections_view(child_sections@)),
    {
        let ghost child = sections_view(child_sections@);
        let parent_sections = self.sections.as_slice();
        if parent_sections.len() == 0 || child_sections.len() == 0 {
            return false;
        }
        if sections_eq(parent_sections, child_sections) {
            return false;
        }
        let mut i: usize = 0;
        while i < parent_sections.len()
            invariant
                parent_sections@ == self.sections@,
                self@.len() == parent_sections@.len(),
                child.len() == child_sections@.len(),
                child == sections_view(child_sections@),
                i <= parent_sections@.len(),
                i <= child_sections@.len(),
                forall|j: int| 0 <= j < i ==> is_prefix(#[trigger] self@[j], child[j]),
            decreases parent_sections@.len() - i,
        {
            if i >= child_sections.len() {
                return false;
            }
            let child_section = child_sections[i].as_str();
            let parent_section = parent_sections[i].as_str();
            assert(child_section@ == child[i as int]);
            assert(parent_section@ == self@[i as int]);
            if !str_starts_with(child_section, parent_section) {
                return false;
            }
            i = i + 1;
        }
        true
    }

    /// `Ok` when `parent_code` is `None` or structurally a parent of this code.
    pub fn check_valid_parent(&self, parent_code: Option<AccountCode>) -> (r: Result<
        (),
        AccountCodeError,
    >)
        ensures
            r is Ok <==> (parent_code is None || is_parent_spec(parent_code->Some_0@, self@)),
            r is Err ==> r == Err::<(), AccountCodeError>(AccountCodeError::InvalidParent),
    {
        let parent_code = match parent_code {
            Some(p) => p,
            None => {
                return Ok(());
            },
        };
        if parent_code.is_parent_of(self.sections.as_slice()) {
            Ok(())
        } else {
            Err(AccountCodeError::InvalidParent)
        }
    }

    /// Parses a code: splits on dots, drops a leading UUID piece, and parses each
    /// remaining piece as a section.
    pub fn parse(s: &str) -> (r: Result<AccountCode, AccountCodeParseError>)
        ensures
            match parse_code_spec(s@) {
                Ok(p) => r is Ok && r->Ok_0@ == p,
                Err(e) => r == Err::<AccountCode, AccountCodeParseError>(e),
            },
    {
        if s.unicode_len() == 0 {
            return Err(AccountCodeParseError::Empty);
        }
        let bounds = split_bounds(s, '.');
        let ghost all = split_dots(s@);
        let ghost p = code_pieces(s@);
        let mut first: usize = 0;
        if bounds.len() > 1 {
            let (b0, e0) = bounds[0];
            let head = s.substring_char(b0, e0);
            if parse_uuid(head).is_some() {
                first = 1;
            }
        }
        assert(p =~= all.subrange(first as int, all.len() as int));
        let mut sections: Vec<AccountCodeSection> = Vec::new();
        let mut k: usize = first;
        assert(p.subrange(0, p.len() as int) =~= p);
        while k < bounds.len()
            invariant
                bounds@.len() == all.len(),
                s@.len() > 0,
                p == code_pieces(s@),
                p == all.subrange(first as int, all.len() as int),
                first <= k <= bounds@.len(),
                forall|j: int|
                    0 <= j < bounds@.len() ==> {
                        &&& (#[trigger] bounds@[j]).0 <= bounds@[j].1 <= s@.len()
                        &&& s@.subrange(bounds@[j].0 as int, bounds@[j].1 as int) == all[j]
                    },
                sections_view(sections@) == p.subrange(0, k - first),
                first_section_error(p) == first_section_error(
                    p.subrange(k - first, p.len() as int),
                ),
            decreases bounds@.len() - k,
        {
            let (b, e) = bounds[k];
            let piece = s.substring_char(b, e);
            assert(piece@ == p[k - first]);
            match AccountCodeSection::parse(piece) {
                Ok(sec) => {
                    let ghost before = sections@;
                    sections.push(sec);
                    assert(sections@ == before.push(sec));
                    assert(sections_view(sections@) =~= sections_view(before).push(sec@));
                    assert(sections_view(sections@) =~= p.subrange(0, k + 1 - first));
                    let ghost rest = p.subrange(k - first, p.len() as int);
                    assert(rest[0] == p[k - first]);
                    assert(rest.drop_first() =~= p.subrange(k + 1 - first, p.len() as int));
                },
                Err(err) => {
                    proof {
                        let rest = p.subrange(k - first, p.len() as int);
                        assert(rest[0] == p[k - first]);
                        assert(section_error(rest[0]) == Some(err));
                        assert(first_section_error(rest) == Some(err));
                    }
                    return Err(AccountCodeParseError::AccountCodeSectionParseError(err));
                },
            }
            k = k + 1;
        }
        assert(p.subrange(0, p.len() as int) =~= p);
        assert(first_section_error(p.subrange(p.len() as int, p.len() as int)) is None);
        Ok(AccountCode { sections })
    }

    /// External id of this code's account set in the chart `chart_id`.
    pub fn account_set_external_id(&self, chart_id: ChartId) -> (r: String)
        ensures
            r@ == account_set_external_id_spec(chart_id, self@),
    {
        proof {
            reveal_strlit(".");
        }
        let mut r = chart_id.to_string();
        r.append(".");
        r.append(self.to_string().as_str());
        assert(r@ =~= account_set_external_id_spec(chart_id, self@));
        r
    }

    /// External id of this code's manual transaction account in the chart
    /// `chart_id`.
    pub fn manual_account_external_id(&self, chart_id: ChartId) -> (r: String)
        ensures
            r@ == manual_external_id(chart_id, self@),
    {
        proof {
            reveal_strlit(".manual");
        }
        let mut r = self.account_set_external_id(chart_id);
        r.append(".manual");
        assert(r@ =~= manual_external_id(chart_id, self@));
        r
    }

    /// Display form: the sections joined with dots.
    pub fn to_string(&self) -> (r: String)
        ensures
            r@ == join_dots(self@),
    {
        let mut out = String::new();
        let mut i: usize = 0;
        while i < self.sections.len()
            invariant
                i <= self@.len(),
                self@.len() == self.sections@.len(),
                out@ == join_dots(self@.subrange(0, i as int)),
            decreases self.sections@.len() - i,
        {
            proof {
                reveal_strlit(".");
            }
            if i > 0 {
                out.append(".");
            }
            out.append(self.sections[i].as_str());
            proof {
                let q = self@.subrange(0, i + 1);
                assert(q.drop_last() =~= self@.subrange(0, i as int));
                if i == 0 {
                    assert(out@ =~= q[0]);
                } else {
                    assert(out@ =~= join_dots(q.drop_last()) + seq!['.'] + q.last());
                }
            }
            i = i + 1;
        }
        assert(self@.subrange(0, i as int) =~= self@);
        out
    }
}

impl std::str::FromStr for AccountCode {
    type Err = AccountCodeParseError;

    fn from_str(s: &str) -> Result<AccountCode, AccountCodeParseError> {
        AccountCode::parse(s)
    }
}

/// Whether two texts are equal.
pub fn str_eq(a: &str, b: &str) -> (r: bool)
    ensures
        r == (a@ == b@),
{
    let n = a.unicode_len();
    if n != b.unicode_len() {
        return false;
    }
    let r = str_starts_with(a, b);
    proof {
        if r {
            assert(a@.subrange(0, n as int) =~= a@);
        }
        if a@ == b@ {
            assert(a@.subrange(0, n as int) =~= a@);
        }
    }
    r
}

proof fn lemma_concat_prefix(p: Seq<Seq<char>>, k: int)
    requires
        0 <= k <= p.len(),
    ensures
        is_prefix(concat_all(p.subrange(0, k)), concat_all(p)),
    decreases p.len() - k,
{
    if k < p.len() {
        lemma_concat_prefix(p, k + 1);
        let q = p.subrange(0, k + 1);
        assert(q.drop_last() =~= p.subrange(0, k));
        let a = concat_all(p.subrange(0, k));
        let b = concat_all(q);
        assert(b =~= a + p[k]);
        assert(b.subrange(0, a.len() as int) =~= a);
        assert(concat_all(p).subrange(0, a.len() as int) =~= concat_all(p).subrange(
            0,
            b.len() as int,
        ).subrange(0, a.len() as int));
    } else {
        assert(p.subrange(0, k) =~= p);
        assert(concat_all(p).subrange(0, concat_all(p).len() as int) =~= concat_all(p));
    }
}

} // verus!
