//! Address value object.

use vstd::prelude::*;
use vstd::string::StringExecFns;
use crate::text::{is_blank, spec_blank};

verus! {

/// Abstract value of an [`Address`].
pub struct AddressV {
    pub line1: Seq<char>,
    pub line2: Option<Seq<char>>,
    pub city: Seq<char>,
    pub state_province: Option<Seq<char>>,
    pub postal_code: Option<Seq<char>>,
    pub country: Seq<char>,
}

/// A physical or mailing address.
#[derive(Debug, Clone, PartialEq, Eq, Hash)]
pub struct Address {
    pub line1: String,
    pub line2: Option<String>,
    pub city: String,
    pub state_province: Option<String>,
    pub postal_code: Option<String>,
    pub country: String,
}

impl View for Address {
    type V = AddressV;

    open spec fn view(&self) -> AddressV {
        AddressV {
            line1: self.line1@,
            line2: match self.line2 {
                Some(s) => Some(s@),
                None => None,
            },
            city: self.city@,
            state_province: match self.state_province {
                Some(s) => Some(s@),
                None => None,
            },
            postal_code: match self.postal_code {
                Some(s) => Some(s@),
                None => None,
            },
            country: self.country@,
        }
    }
}

/// The single-line form of an address: the parts that are present, joined by
/// a comma and a space, in the order line 1, line 2, city, state/province,
/// postal code, country.
pub open spec fn spec_single_line(a: AddressV) -> Seq<char> {
    a.line1 + (match a.line2 {
        Some(l) => ", "@ + l,
        None => Seq::<char>::empty(),
    }) + ", "@ + a.city + (match a.state_province {
        Some(s) => ", "@ + s,
        None => Seq::<char>::empty(),
    }) + (match a.postal_code {
        Some(p) => ", "@ + p,
        None => Seq::<char>::empty(),
    }) + ", "@ + a.country
}

impl Address {
    /// Create a new address. Line 1, city and country must not be blank;
    /// a blank part is rejected with a message naming it, checked in that
    /// order.
    pub fn new(
        line1: String,
        line2: Option<String>,
        city: String,
        state_province: Option<String>,
        postal_code: Option<String>,
        country: String,
    ) -> (r: Result<Self, String>)
        ensures
            match r {
                Ok(a) => !spec_blank(line1@) && !spec_blank(city@) && !spec_blank(country@)
                    && a@ == (Address {
                    line1: line1,
                    line2: line2,
                    city: city,
                    state_province: state_province,
                    postal_code: postal_code,
                    country: country,
                })@,
                Err(m) => (spec_blank(line1@) || spec_blank(city@) || spec_blank(country@))
                    && m@ == if spec_blank(line1@) {
                    "Address line 1 cannot be empty"@
                } else if spec_blank(city@) {
                    "City cannot be empty"@
                } else {
                    "Country cannot be empty"@
                },
            },
    {
        if is_blank(line1.as_str()) {
            return Err("Address line 1 cannot be empty".to_owned());
        }
        if is_blank(city.as_str()) {
            return Err("City cannot be empty".to_owned());
        }
        if is_blank(country.as_str()) {
            return Err("Country cannot be empty".to_owned());
        }
        Ok(Address { line1, line2, city, state_province, postal_code, country })
    }

    /// Format the address as a single line, parts joined by ", ".
    pub fn format_single_line(&self) -> (r: String)
        ensures
            r@ == spec_single_line(self@),
    {
        let mut out = String::new();
        out.append(self.line1.as_str());
        if let Some(line2) = &self.line2 {
            out.append(", ");
            out.append(line2.as_str());
        }
        out.append(", ");
        out.append(self.city.as_str());
        if let Some(state) = &self.state_province {
            out.append(", ");
            out.append(state.as_str());
        }
        if let Some(postal) = &self.postal_code {
            out.append(", ");
            out.append(postal.as_str());
        }
        out.append(", ");
        out.append(self.country.as_str());
        proof {
            assert(out@ =~= spec_single_line(self@));
        }
        out
    }
}

} // verus!
