//! The error taxonomy of the catalog's operations.

use vstd::prelude::*;
use vstd::string::*;
use crate::text::dec_str_signed;

verus! {

/// Why a catalog operation failed.
#[derive(Debug)]
pub enum CatalogError {
    /// One or more business rules were violated; every violation is listed.
    Validation(Vec<String>),
    /// An update named a column the table does not have.
    UnknownField(String),
    /// A raw value could not be read as its field's type; carries the field
    /// name and the offending text.
    Coercion { field: String, value: String },
    /// No stored record carries the given id.
    NotFound(i64),
    /// The underlying store reported a failure.
    Storage(String),
}

/// The rendered text of a list of violations, joined by `; `.
pub open spec fn joined_texts(v: Seq<Seq<char>>) -> Seq<char>
    decreases v.len(),
{
    if v.len() == 0 {
        Seq::empty()
    } else if v.len() == 1 {
        v[0]
    } else {
        joined_texts(v.drop_last()) + "; "@ + v.last()
    }
}

/// The rendered text of each error.
pub open spec fn message_text(e: CatalogError) -> Seq<char> {
    match e {
        CatalogError::Validation(v) => "Validation failed: "@ + joined_texts(
            v@.map_values(|s: String| s@),
        ),
        CatalogError::UnknownField(f) => "Unknown field: "@ + f@,
        CatalogError::Coercion { field, value } => "Invalid value '"@ + value@ + "' for field "@
            + field@,
        CatalogError::NotFound(id) => "No item with id "@ + dec_str_signed(id as int),
        CatalogError::Storage(m) => "Storage error: "@ + m@,
    }
}

impl CatalogError {
    /// One-line human-readable account of the error.
    pub fn message(&self) -> (r: String)
        ensures
            r@ == message_text(*self),
    {
        match self {
            CatalogError::Validation(v) => {
                let mut s: String = "Validation failed: ".to_owned();
                proof {
                    assert(v@.subrange(0, 0).map_values(|t: String| t@) =~= Seq::<
                        Seq<char>,
                    >::empty());
                    assert(s@ =~= "Validation failed: "@ + joined_texts(
                        v@.subrange(0, 0).map_values(|t: String| t@),
                    ));
                }
                let mut i: usize = 0;
                while i < v.len()
                    invariant
                        i <= v.len(),
                        s@ == "Validation failed: "@ + joined_texts(
                            v@.subrange(0, i as int).map_values(|t: String| t@),
                        ),
                    decreases v.len() - i,
                {
                    if i > 0 {
                        s.append("; ");
                    }
                    s.append(v[i].as_str());
                    proof {
                        reveal_strlit("; ");
                        let prev = v@.subrange(0, i as int).map_values(|t: String| t@);
                        let cur = v@.subrange(0, (i + 1) as int).map_values(|t: String| t@);
                        assert(cur.drop_last() =~= prev);
                        assert(cur.last() == v@[i as int]@);
                        assert(s@ =~= "Validation failed: "@ + joined_texts(cur));
                    }
                    i = i + 1;
                }
                proof {
                    assert(v@.subrange(0, v@.len() as int) =~= v@);
                }
                s
            },
            CatalogError::UnknownField(f) => {
                let mut s: String = "Unknown field: ".to_owned();
                s.append(f.as_str());
                s
            },
            CatalogError::Coercion { field, value } => {
                let mut s: String = "Invalid value '".to_owned();
                s.append(value.as_str());
                s.append("' for field ");
                s.append(field.as_str());
                s
            },
            CatalogError::NotFound(id) => {
                let mut s: String = "No item with id ".to_owned();
                let t = crate::text::fmt_i64(*id);
                s.append(t.as_str());
                s
            },
            CatalogError::Storage(m) => {
                let mut s: String = "Storage error: ".to_owned();
                s.append(m.as_str());
                s
            },
        }
    }
}

} // verus!
