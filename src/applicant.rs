//! Applicant records of the identity verification provider, and the derived
//! facts the application reads from them.

use vstd::prelude::*;

use crate::code::str_eq;
use crate::ids::CustomerId;

verus! {

#[derive(Debug)]
pub struct AccessTokenResponse {
    pub customer_id: String,
    pub token: String,
}

#[derive(Debug)]
pub struct PermalinkResponse {
    pub url: String,
}

#[derive(Debug)]
pub struct ApplicantDetails {
    pub id: String,
    pub customer_id: CustomerId,
    pub info: ApplicantInfo,
    pub applicant_type: String,
}

#[derive(Debug, Default)]
pub struct ApplicantInfo {
    pub first_name: Option<String>,
    pub last_name: Option<String>,
    pub country: Option<String>,
    pub addresses: Option<Vec<Address>>,
    pub id_docs: Option<Vec<IdDocument>>,
}

#[derive(Debug)]
pub struct Address {
    pub formatted_address: Option<String>,
}

#[derive(Debug)]
pub struct IdDocument {
    pub doc_type: String,
    pub country: Option<String>,
}

pub open spec fn opt_text(o: Option<String>) -> Option<Seq<char>> {
    match o {
        Some(s) => Some(s@),
        None => None,
    }
}

pub open spec fn passport_seq() -> Seq<char> {
    seq!['P', 'A', 'S', 'S', 'P', 'O', 'R', 'T']
}

/// The country of the first passport that names one.
pub open spec fn passport_country(docs: Seq<IdDocument>) -> Option<Seq<char>>
    decreases docs.len(),
{
    if docs.len() == 0 {
        None
    } else if docs[0].doc_type@ == passport_seq() && docs[0].country is Some {
        opt_text(docs[0].country)
    } else {
        passport_country(docs.drop_first())
    }
}

/// The full name: first and last name joined by a space, or whichever exists.
pub open spec fn full_name_spec(first: Option<Seq<char>>, last: Option<Seq<char>>) -> Option<
    Seq<char>,
> {
    match (first, last) {
        (Some(f), Some(l)) => Some(f + seq![' '] + l),
        (Some(f), None) => Some(f),
        (None, Some(l)) => Some(l),
        (None, None) => None,
    }
}

fn opt_str(o: &Option<String>) -> (r: Option<&str>)
    ensures
        match *o {
            Some(s) => r is Some && r->Some_0@ == s@,
            None => r is None,
        },
{
    match o {
        Some(s) => Some(s.as_str()),
        None => None,
    }
}

impl ApplicantDetails {
    pub fn first_name(&self) -> (r: Option<&str>)
        ensures
            match self.info.first_name {
                Some(s) => r is Some && r->Some_0@ == s@,
                None => r is None,
            },
    {
        opt_str(&self.info.first_name)
    }

    pub fn last_name(&self) -> (r: Option<&str>)
        ensures
            match self.info.last_name {
                Some(s) => r is Some && r->Some_0@ == s@,
                None => r is None,
            },
    {
        opt_str(&self.info.last_name)
    }

    /// "FirstName LastName", or whichever of the two exists.
    pub fn full_name(&self) -> (r: Option<String>)
        ensures
            opt_text(r) == full_name_spec(
                opt_text(self.info.first_name),
                opt_text(self.info.last_name),
            ),
    {
        proof {
            reveal_strlit(" ");
        }
        match (self.first_name(), self.last_name()) {
            (Some(first), Some(last)) => {
                let mut s = String::from_str(first);
                s.append(" ");
                s.append(last);
                assert(s@ =~= first@ + seq![' '] + last@);
                Some(s)
            },
            (Some(first), None) => Some(String::from_str(first)),
            (None, Some(last)) => Some(String::from_str(last)),
            (None, None) => None,
        }
    }

    /// The formatted text of the first address.
    pub fn primary_address(&self) -> (r: Option<&str>)
        ensures
            match self.info.addresses {
                Some(a) => if a@.len() > 0 {
                    match a@[0].formatted_address {
                        Some(s) => r is Some && r->Some_0@ == s@,
                        None => r is None,
                    }
                } else {
                    r is None
                },
                None => r is None,
            },
    {
        match &self.info.addresses {
            Some(a) => {
                if a.len() > 0 {
                    opt_str(&a[0].formatted_address)
                } else {
                    None
                }
            },
            None => None,
        }
    }

    /// The country field, else the country of the first passport that names
    /// one.
    pub fn nationality(&self) -> (r: Option<&str>)
        ensures
            match self.info.country {
                Some(c) => r is Some && r->Some_0@ == c@,
                None => match self.info.id_docs {
                    Some(d) => match passport_country(d@) {
                        Some(c) => r is Some && r->Some_0@ == c,
                        None => r is None,
                    },
                    None => r is None,
                },
            },
    {
        if let Some(country) = &self.info.country {
            return Some(country.as_str());
        }
        proof {
            reveal_strlit("PASSPORT");
            assert("PASSPORT"@ =~= passport_seq());
        }
        if let Some(docs) = &self.info.id_docs {
            let ghost d = docs@;
            let mut i: usize = 0;
            assert(d.subrange(0, d.len() as int) =~= d);
            while i < docs.len()
                invariant
                    d == docs@,
                    self.info.country is None,
                    self.info.id_docs is Some,
                    self.info.id_docs->Some_0@ == d,
                    i <= d.len(),
                    "PASSPORT"@ == passport_seq(),
                    passport_country(d) == passport_country(d.subrange(i as int, d.len() as int)),
                decreases d.len() - i,
            {
                let ghost rest = d.subrange(i as int, d.len() as int);
                assert(rest[0] == d[i as int]);
                assert(rest.drop_first() =~= d.subrange(i + 1, d.len() as int));
                let doc = &docs[i];
                if str_eq(doc.doc_type.as_str(), "PASSPORT") {
                    if let Some(country) = &doc.country {
                        return Some(country.as_str());
                    }
                }
                i = i + 1;
            }
            assert(d.subrange(i as int, d.len() as int).len() == 0);
        }
        None
    }
}

} // verus!
