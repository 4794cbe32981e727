//! Remote listing normalization. Listings name their id fields inconsistently
//! and encode ids as numbers or as text across kinds; each kind supplies its
//! id-bearing fields in a fixed order and this module resolves them to one
//! numeric id, preferring a numeric field over a textual one.
//!
//! Only the first listing page feeds the adoption index: a same-named
//! resource beyond it would be missed and a duplicate create attempted.

use crate::text::{lower_of, parse_dec};
use vstd::prelude::*;

verus! {

/// One page of a remote listing.
#[derive(Debug)]
pub struct ListResponse<T> {
    pub data: Vec<T>,
    pub next_page_cursor: Option<String>,
}

/// A scalar id field as the wire carries it: a number or text.
#[derive(Debug, Clone)]
pub enum IdValue {
    Num(u64),
    Text(String),
}

/// One listing item reduced to what identity resolution reads: the display
/// name, and the id-bearing field values in the order the kind's extraction
/// rule tries them.
#[derive(Debug, Clone)]
pub struct RemoteRecord {
    pub name: Option<String>,
    pub id_candidates: Vec<IdValue>,
}

/// A listing entry usable for adoption: a name bound to a remote id.
#[derive(Debug, Clone)]
pub struct RemoteEntry {
    pub name: String,
    pub id: u64,
}

/// The first numeric candidate, if any.
pub open spec fn first_num(cands: Seq<IdValue>) -> Option<u64>
    decreases cands.len(),
{
    if cands.len() == 0 {
        None
    } else {
        match cands[0] {
            IdValue::Num(u) => Some(u),
            IdValue::Text(_) => first_num(cands.skip(1)),
        }
    }
}

/// The first textual candidate that parses as a decimal number, if any.
pub open spec fn first_text_parse(cands: Seq<IdValue>) -> Option<u64>
    decreases cands.len(),
{
    if cands.len() == 0 {
        None
    } else {
        match cands[0] {
            IdValue::Text(s) => {
                if parse_dec(s@) is Some {
                    parse_dec(s@)
                } else {
                    first_text_parse(cands.skip(1))
                }
            },
            IdValue::Num(_) => first_text_parse(cands.skip(1)),
        }
    }
}

/// The id a record resolves to: any numeric field first, then any textual
/// field that parses.
pub open spec fn resolve_id_spec(cands: Seq<IdValue>) -> Option<u64> {
    match first_num(cands) {
        Some(u) => Some(u),
        None => first_text_parse(cands),
    }
}

/// Resolves a record's id fields to one numeric id.
pub fn resolve_id(cands: &Vec<IdValue>) -> (r: Option<u64>)
    ensures
        r == resolve_id_spec(cands@),
{
    let n = cands.len();
    let mut i: usize = 0;
    proof {
        assert(cands@.skip(0) =~= cands@);
    }
    while i < n
        invariant
            i <= n,
            n == cands@.len(),
            first_num(cands@) == first_num(cands@.skip(i as int)),
        decreases n - i,
    {
        proof {
            assert(cands@.skip(i as int)[0] == cands@[i as int]);
            assert(cands@.skip(i as int).skip(1) =~= cands@.skip(i + 1));
        }
        match &cands[i] {
            IdValue::Num(u) => {
                return Some(*u);
            },
            IdValue::Text(_) => {},
        }
        i += 1;
    }
    proof {
        assert(cands@.skip(n as int) =~= Seq::<IdValue>::empty());
    }
    let mut j: usize = 0;
    while j < n
        invariant
            j <= n,
            n == cands@.len(),
            first_num(cands@) is None,
            first_text_parse(cands@) == first_text_parse(cands@.skip(j as int)),
        decreases n - j,
    {
        proof {
            assert(cands@.skip(j as int)[0] == cands@[j as int]);
            assert(cands@.skip(j as int).skip(1) =~= cands@.skip(j + 1));
        }
        match &cands[j] {
            IdValue::Text(s) => {
                match crate::text::parse_u64(s.as_str()) {
                    Some(v) => {
                        return Some(v);
                    },
                    None => {},
                }
            },
            IdValue::Num(_) => {},
        }
        j += 1;
    }
    proof {
        assert(cands@.skip(n as int) =~= Seq::<IdValue>::empty());
    }
    None
}

/// The adoption index a listing yields: every record with a name and a
/// resolvable id, in listing order.
pub open spec fn normalize_spec(records: Seq<RemoteRecord>) -> Seq<RemoteEntry>
    decreases records.len(),
{
    if records.len() == 0 {
        Seq::empty()
    } else {
        let rest = normalize_spec(records.skip(1));
        match (records[0].name, resolve_id_spec(records[0].id_candidates@)) {
            (Some(n), Some(id)) => seq![RemoteEntry { name: n, id }] + rest,
            _ => rest,
        }
    }
}

/// Builds the adoption index from a fetched listing.
pub fn normalize_remote_records(records: &Vec<RemoteRecord>) -> (r: Vec<RemoteEntry>)
    ensures
        r@ == normalize_spec(records@),
{
    let n = records.len();
    let mut out: Vec<RemoteEntry> = Vec::new();
    let mut i: usize = 0;
    proof {
        assert(records@.skip(0) =~= records@);
    }
    while i < n
        invariant
            i <= n,
            n == records@.len(),
            normalize_spec(records@) == out@ + normalize_spec(records@.skip(i as int)),
        decreases n - i,
    {
        proof {
            assert(records@.skip(i as int)[0] == records@[i as int]);
            assert(records@.skip(i as int).skip(1) =~= records@.skip(i + 1));
        }
        let rec = &records[i];
        match &rec.name {
            Some(name) => {
                match resolve_id(&rec.id_candidates) {
                    Some(id) => {
                        out.push(RemoteEntry { name: name.clone(), id });
                    },
                    None => {},
                }
            },
            None => {},
        }
        proof {
            assert(normalize_spec(records@) =~= out@ + normalize_spec(records@.skip(i + 1)));
        }
        i += 1;
    }
    proof {
        assert(normalize_spec(records@.skip(n as int)) =~= Seq::<RemoteEntry>::empty());
        assert(out@ =~= normalize_spec(records@));
    }
    out
}

/// What a failed listing becomes. On a dry run a read failure degrades to an
/// empty listing, deliberately, so a preview works without live credentials
/// (at the price of hiding real connectivity or auth problems); on a live run
/// the failure stands and aborts.
pub fn degrade_listing_failure(
    result: Result<Vec<RemoteRecord>, String>,
    dry_run: bool,
) -> (r: Result<Vec<RemoteRecord>, String>)
    ensures
        match result {
            Ok(records) => r == Result::<Vec<RemoteRecord>, String>::Ok(records),
            Err(message) => {
                if dry_run {
                    r matches Ok(v) && v@ == Seq::<RemoteRecord>::empty()
                } else {
                    r == Result::<Vec<RemoteRecord>, String>::Err(message)
                }
            },
        },
{
    match result {
        Ok(records) => Ok(records),
        Err(message) => {
            if dry_run {
                Ok(Vec::new())
            } else {
                Err(message)
            }
        },
    }
}

/// The id of the last entry whose name matches case-insensitively, if any.
/// The last match wins, as rebuilding a keyed index from the listing would
/// leave the latest same-named record in place.
pub open spec fn remote_find_spec(entries: Seq<RemoteEntry>, name: Seq<char>) -> Option<u64>
    decreases entries.len(),
{
    if entries.len() == 0 {
        None
    } else if lower_of(entries.last().name@) == lower_of(name) {
        Some(entries.last().id)
    } else {
        remote_find_spec(entries.drop_last(), name)
    }
}

/// Looks a declared name up in the adoption index, case-insensitively.
pub fn find_remote_by_name(entries: &Vec<RemoteEntry>, name: &str) -> (r: Option<u64>)
    ensures
        r == remote_find_spec(entries@, name@),
{
    let lowered = crate::text::lowercase(name);
    let mut i: usize = entries.len();
    proof {
        assert(entries@.subrange(0, entries@.len() as int) =~= entries@);
    }
    while i > 0
        invariant
            i <= entries@.len(),
            lowered@ == lower_of(name@),
            remote_find_spec(entries@, name@) == remote_find_spec(
                entries@.subrange(0, i as int),
                name@,
            ),
        decreases i,
    {
        i -= 1;
        let entry = &entries[i];
        let entry_lower = crate::text::lowercase(entry.name.as_str());
        proof {
            assert(entries@.subrange(0, i + 1).last() == entries@[i as int]);
            assert(entries@.subrange(0, i + 1).drop_last() =~= entries@.subrange(0, i as int));
        }
        if crate::text::string_eq(&entry_lower, &lowered) {
            return Some(entry.id);
        }
    }
    proof {
        assert(entries@.subrange(0, 0) =~= Seq::<RemoteEntry>::empty());
    }
    None
}

} // verus!
