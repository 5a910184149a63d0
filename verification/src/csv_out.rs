//! Flat-file export: one comma-separated line per record.
//!
//! The first line names the fields, in the record's field order; every
//! further line renders one item.  Free-text fields are quoted when they
//! hold a comma, a quote or a line break, with quotes doubled; numbers,
//! labels, dates and flags never need quoting, so they are written as they
//! are.  Absent optional fields are empty.

use vstd::prelude::*;
use vstd::string::*;
use crate::dates::{date_text, DateM};
use crate::models::{Item, ItemM};
use crate::money::cents_text;
use crate::text::{dec_str, dec_str_signed, fmt_i64, fmt_u64};

verus! {

/// Whether a raw field must be quoted.
pub open spec fn needs_quote(s: Seq<char>) -> bool {
    exists|i: int|
        0 <= i < s.len() && ((#[trigger] s[i]) == ',' || s[i] == '"' || s[i] == '\n' || s[i]
            == '\r')
}

/// The field with every quote doubled.
pub open spec fn escape_quotes(s: Seq<char>) -> Seq<char>
    decreases s.len(),
{
    if s.len() == 0 {
        Seq::empty()
    } else {
        escape_quotes(s.drop_last()) + (if s.last() == '"' {
            seq!['"', '"']
        } else {
            seq![s.last()]
        })
    }
}

/// A free-text field as it stands in the file: quoted and escaped exactly
/// when it needs to be.
pub open spec fn csv_field(s: Seq<char>) -> Seq<char> {
    if needs_quote(s) {
        seq!['"'] + escape_quotes(s) + seq!['"']
    } else {
        s
    }
}

pub open spec fn flag_text(b: bool) -> Seq<char> {
    if b {
        "true"@
    } else {
        "false"@
    }
}

pub open spec fn opt_age_text(o: Option<int>) -> Seq<char> {
    match o {
        Some(a) => dec_str(a),
        None => Seq::empty(),
    }
}

pub open spec fn opt_date_text(o: Option<DateM>) -> Seq<char> {
    match o {
        Some(d) => date_text(d),
        None => Seq::empty(),
    }
}

pub open spec fn opt_cents_text(o: Option<int>) -> Seq<char> {
    match o {
        Some(c) => cents_text(c),
        None => Seq::empty(),
    }
}

pub open spec fn opt_flag_text(o: Option<bool>) -> Seq<char> {
    match o {
        Some(b) => flag_text(b),
        None => Seq::empty(),
    }
}

pub open spec fn opt_field_csv(o: Option<Seq<char>>) -> Seq<char> {
    match o {
        Some(s) => csv_field(s),
        None => Seq::empty(),
    }
}

/// The header line: the field names in field order.
pub open spec fn csv_header() -> Seq<char> {
    "id,name,description,category,action,date_added,last_updated,deleted,age_years,date_acquired,purchase_price,estimated_value,creator,working,provenance\n"@
}

/// One record's line.
pub open spec fn item_csv_line(i: ItemM) -> Seq<char> {
    dec_str_signed(i.id) + ","@ + csv_field(i.name) + ","@ + csv_field(i.description) + ","@
        + i.category.spec_label() + ","@ + i.action.spec_label() + ","@ + date_text(i.date_added)
        + ","@ + date_text(i.last_updated) + ","@ + flag_text(i.deleted) + ","@ + opt_age_text(
        i.age_years,
    ) + ","@ + opt_date_text(i.date_acquired) + ","@ + opt_cents_text(i.purchase_price) + ","@
        + opt_cents_text(i.estimated_value) + ","@ + opt_field_csv(i.creator) + ","@
        + opt_flag_text(i.working) + ","@ + opt_field_csv(i.provenance) + "\n"@
}

/// The whole file: header first, then one line per record, in order.
pub open spec fn csv_text(items: Seq<ItemM>) -> Seq<char>
    decreases items.len(),
{
    if items.len() == 0 {
        csv_header()
    } else {
        csv_text(items.drop_last()) + item_csv_line(items.last())
    }
}

/// Quotes and escapes one free-text field exactly when needed.
fn csv_escape_field(s: &str) -> (r: String)
    ensures
        r@ == csv_field(s@),
{
    let n = s.unicode_len();
    let mut needs = false;
    let mut i: usize = 0;
    while i < n
        invariant
            i <= n && n == s@.len(),
            needs == exists|j: int|
                0 <= j < i && ((#[trigger] s@[j]) == ',' || s@[j] == '"' || s@[j] == '\n' || s@[j]
                    == '\r'),
        decreases n - i,
    {
        let c = s.get_char(i);
        if c == ',' || c == '"' || c == '\n' || c == '\r' {
            needs = true;
        }
        i = i + 1;
    }
    if !needs {
        return s.to_owned();
    }
    let mut out: String = "\"".to_owned();
    proof {
        reveal_strlit("\"");
        assert(escape_quotes(s@.subrange(0, 0)) =~= Seq::<char>::empty());
        assert(out@ =~= seq!['"'] + escape_quotes(s@.subrange(0, 0)));
    }
    let mut k: usize = 0;
    while k < n
        invariant
            k <= n && n == s@.len(),
            out@ == seq!['"'] + escape_quotes(s@.subrange(0, k as int)),
        decreases n - k,
    {
        let c = s.get_char(k);
        if c == '"' {
            out.append("\"\"");
        } else {
            let piece = s.substring_char(k, k + 1);
            out.append(piece);
        }
        proof {
            reveal_strlit("\"\"");
            assert(s@.subrange(0, (k + 1) as int).drop_last() =~= s@.subrange(0, k as int));
            assert(s@.subrange(0, (k + 1) as int).last() == s@[k as int]);
            if c == '"' {
                assert(out@ =~= seq!['"'] + escape_quotes(s@.subrange(0, (k + 1) as int)));
            } else {
                assert(s@.subrange(k as int, (k + 1) as int) =~= seq![s@[k as int]]);
                assert(out@ =~= seq!['"'] + escape_quotes(s@.subrange(0, (k + 1) as int)));
            }
        }
        k = k + 1;
    }
    out.append("\"");
    proof {
        reveal_strlit("\"");
        assert(s@.subrange(0, n as int) =~= s@);
        assert(out@ =~= csv_field(s@));
    }
    out
}

fn flag_str(b: bool) -> (r: &'static str)
    ensures
        r@ == flag_text(b),
{
    if b {
        "true"
    } else {
        "false"
    }
}

fn opt_text_field(o: &Option<String>) -> (r: String)
    ensures
        r@ == opt_field_csv(
            match o {
                Some(s) => Some(s@),
                None => None,
            },
        ),
{
    match o {
        Some(s) => csv_escape_field(s.as_str()),
        None => String::new(),
    }
}

/// Renders one record's line.
fn item_line(item: &Item) -> (r: String)
    ensures
        r@ == item_csv_line(item@),
{
    let mut s = fmt_i64(item.id);
    s.append(",");
    let f = csv_escape_field(item.name.as_str());
    s.append(f.as_str());
    s.append(",");
    let f = csv_escape_field(item.description.as_str());
    s.append(f.as_str());
    s.append(",");
    let f = item.category.label();
    s.append(f.as_str());
    s.append(",");
    let f = item.action.label();
    s.append(f.as_str());
    s.append(",");
    let f = item.date_added.format();
    s.append(f.as_str());
    s.append(",");
    let f = item.last_updated.format();
    s.append(f.as_str());
    s.append(",");
    s.append(flag_str(item.deleted));
    s.append(",");
    let f = match item.age_years {
        Some(a) => fmt_u64(a as u64),
        None => String::new(),
    };
    s.append(f.as_str());
    s.append(",");
    let f = match &item.date_acquired {
        Some(d) => d.format(),
        None => String::new(),
    };
    s.append(f.as_str());
    s.append(",");
    let f = match item.purchase_price {
        Some(c) => crate::money::fmt_cents(c),
        None => String::new(),
    };
    s.append(f.as_str());
    s.append(",");
    let f = match item.estimated_value {
        Some(c) => crate::money::fmt_cents(c),
        None => String::new(),
    };
    s.append(f.as_str());
    s.append(",");
    let f = opt_text_field(&item.creator);
    s.append(f.as_str());
    s.append(",");
    let f = match item.working {
        Some(b) => flag_str(b).to_owned(),
        None => String::new(),
    };
    s.append(f.as_str());
    s.append(",");
    let f = opt_text_field(&item.provenance);
    s.append(f.as_str());
    s.append("\n");
    proof {
        reveal_strlit(",");
        reveal_strlit("\n");
    }
    s
}

/// Renders the whole record set as the flat file's text; never fails.
pub fn export_to_csv_string(items: &Vec<Item>) -> (r: Result<String, String>)
    ensures
        r matches Ok(text) ==> text@ == csv_text(items@.map_values(|i: Item| i@)),
        r is Ok,
{
    let mut out: String =
        "id,name,description,category,action,date_added,last_updated,deleted,age_years,date_acquired,purchase_price,estimated_value,creator,working,provenance\n".to_owned();
    let ghost im = items@.map_values(|i: Item| i@);
    proof {
        assert(im.subrange(0, 0) =~= Seq::<ItemM>::empty());
    }
    let mut k: usize = 0;
    while k < items.len()
        invariant
            k <= items.len(),
            im == items@.map_values(|i: Item| i@),
            out@ == csv_text(im.subrange(0, k as int)),
        decreases items.len() - k,
    {
        let line = item_line(&items[k]);
        out.append(line.as_str());
        proof {
            assert(im.subrange(0, (k + 1) as int).drop_last() =~= im.subrange(0, k as int));
            assert(im.subrange(0, (k + 1) as int).last() == im[k as int]);
        }
        k = k + 1;
    }
    proof {
        assert(im.subrange(0, im.len() as int) =~= im);
    }
    Ok(out)
}

} // verus!
