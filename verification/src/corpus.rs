//! CORPUS location entries: choosing what to display for a location, and turning a
//! batch of entries into rows with one row per NLC.
use vstd::prelude::*;
use std::collections::HashMap;
use crate::decimal::{i64_to_decimal, spec_decimal};
use crate::dedup::{is_last_of_key, keep_last, keep_last_prefix};
use crate::schema::Location;
use crate::text::{copy_opt, filled, is_filled};

verus! {

/// One entry of the CORPUS extract.
#[derive(Debug, Clone)]
pub struct LocationEntry {
    pub nlc: i64,
    pub stanox: Option<String>,
    pub tiploc: Option<String>,
    pub crs: Option<String>,
    pub uic: Option<String>,
    pub nlcdesc: Option<String>,
    pub axis: Option<String>,
    pub nlcdesc16: Option<String>,
}

/// The display value and its kind for an entry: the first present, non-empty field in
/// the order nlcdesc, nlcdesc16, crs, stanox, tiploc, axis, uic; else the NLC in decimal.
pub open spec fn spec_display(loc: LocationEntry) -> (Seq<char>, Seq<char>) {
    if filled(loc.nlcdesc) {
        (loc.nlcdesc->0@, "nlcdesc"@)
    } else if filled(loc.nlcdesc16) {
        (loc.nlcdesc16->0@, "nlcdesc16"@)
    } else if filled(loc.crs) {
        (loc.crs->0@, "crs"@)
    } else if filled(loc.stanox) {
        (loc.stanox->0@, "stanox"@)
    } else if filled(loc.tiploc) {
        (loc.tiploc->0@, "tiploc"@)
    } else if filled(loc.axis) {
        (loc.axis->0@, "axis"@)
    } else if filled(loc.uic) {
        (loc.uic->0@, "uic"@)
    } else {
        (spec_decimal(loc.nlc as int), "nlc"@)
    }
}

/// Determines the display value and type for a location based on priority.
/// Priority: nlcdesc -> nlcdesc16 -> crs -> stanox -> tiploc -> axis -> uic -> nlc
pub fn get_display_value(loc: &LocationEntry) -> (r: (String, &'static str))
    ensures
        (r.0@, r.1@) == spec_display(*loc),
{
    if is_filled(&loc.nlcdesc) {
        return (loc.nlcdesc.as_ref().unwrap().clone(), "nlcdesc");
    }
    if is_filled(&loc.nlcdesc16) {
        return (loc.nlcdesc16.as_ref().unwrap().clone(), "nlcdesc16");
    }
    if is_filled(&loc.crs) {
        return (loc.crs.as_ref().unwrap().clone(), "crs");
    }
    if is_filled(&loc.stanox) {
        return (loc.stanox.as_ref().unwrap().clone(), "stanox");
    }
    if is_filled(&loc.tiploc) {
        return (loc.tiploc.as_ref().unwrap().clone(), "tiploc");
    }
    if is_filled(&loc.axis) {
        return (loc.axis.as_ref().unwrap().clone(), "axis");
    }
    if is_filled(&loc.uic) {
        return (loc.uic.as_ref().unwrap().clone(), "uic");
    }
    (i64_to_decimal(loc.nlc), "nlc")
}

/// Entries are told apart by their NLC.
pub open spec fn nlc_key() -> spec_fn(LocationEntry) -> i64 {
    |e: LocationEntry| e.nlc
}

/// The row written for an entry.
pub open spec fn location_row_of(row: Location, e: LocationEntry) -> bool {
    &&& row.id is None
    &&& row.nlc@ == spec_decimal(e.nlc as int)
    &&& row.stanox == e.stanox
    &&& row.tiploc == e.tiploc
    &&& row.crs == e.crs
    &&& row.uic == e.uic
    &&& row.nlcdesc == e.nlcdesc
    &&& row.axis == e.axis
    &&& row.nlcdesc16 == e.nlcdesc16
    &&& (row.display@, row.display_type@) == spec_display(e)
}

/// A copy of an entry.
pub fn copy_entry(e: &LocationEntry) -> (r: LocationEntry)
    ensures
        r == *e,
{
    LocationEntry {
        nlc: e.nlc,
        stanox: copy_opt(&e.stanox),
        tiploc: copy_opt(&e.tiploc),
        crs: copy_opt(&e.crs),
        uic: copy_opt(&e.uic),
        nlcdesc: copy_opt(&e.nlcdesc),
        axis: copy_opt(&e.axis),
        nlcdesc16: copy_opt(&e.nlcdesc16),
    }
}

/// For each NLC among the first `n` entries, the position of its last entry there.
pub open spec fn last_positions(locs: Seq<LocationEntry>, n: int, m: Map<i64, usize>) -> bool {
    &&& forall|k: i64| #[trigger] m.contains_key(k) <==> exists|j: int| 0 <= j < n && locs[j].nlc == k
    &&& forall|k: i64|
        #[trigger] m.contains_key(k) ==> {
            &&& m[k] < n
            &&& locs[m[k] as int].nlc == k
            &&& forall|j: int| m[k] < j < n ==> locs[j].nlc != k
        }
}

/// The entries with duplicates of an NLC removed, keeping the last occurrence of each.
pub fn dedup_by_nlc(locs: &[LocationEntry]) -> (out: Vec<LocationEntry>)
    ensures
        out@ == keep_last(locs@, nlc_key()),
{
    broadcast use vstd::std_specs::hash::group_hash_axioms;

    let n = locs.len();
    let mut last: HashMap<i64, usize> = HashMap::new();
    for i in 0..n
        invariant
            n == locs@.len(),
            last_positions(locs@, i as int, last@),
    {
        last.insert(locs[i].nlc, i);
        proof {
            let m = last@;
            assert forall|k: i64| #[trigger] m.contains_key(k) implies exists|j: int|
                0 <= j < i + 1 && locs@[j].nlc == k by {
                if k == locs@[i as int].nlc {
                    assert(locs@[i as int].nlc == k);
                }
            }
        }
    }
    let mut out: Vec<LocationEntry> = Vec::new();
    for i in 0..n
        invariant
            n == locs@.len(),
            last_positions(locs@, n as int, last@),
            out@ == keep_last_prefix(locs@, nlc_key(), i as int),
    {
        let key = locs[i].nlc;
        assert(last@.contains_key(key));
        let here = match last.get(&key) {
            Some(p) => *p == i,
            None => false,
        };
        assert(here == is_last_of_key(locs@, nlc_key(), i as int)) by {
            let p = last@[key];
            if p != i {
                assert(p > i);
                assert(locs@[p as int].nlc == key);
            }
        }
        if here {
            out.push(copy_entry(&locs[i]));
        }
    }
    out
}

/// The row written for one entry.
pub fn location_row(e: &LocationEntry) -> (row: Location)
    ensures
        location_row_of(row, *e),
{
    let (display, display_type) = get_display_value(e);
    Location {
        id: None,
        nlc: i64_to_decimal(e.nlc),
        stanox: copy_opt(&e.stanox),
        tiploc: copy_opt(&e.tiploc),
        crs: copy_opt(&e.crs),
        uic: copy_opt(&e.uic),
        nlcdesc: copy_opt(&e.nlcdesc),
        axis: copy_opt(&e.axis),
        nlcdesc16: copy_opt(&e.nlcdesc16),
        display,
        display_type: display_type.to_owned(),
    }
}

/// The rows of a bulk location upsert: one per NLC, from its last entry, in the order
/// of those last entries.
pub fn location_rows(locs: &[LocationEntry]) -> (rows: Vec<Location>)
    ensures
        rows@.len() == keep_last(locs@, nlc_key()).len(),
        forall|k: int|
            0 <= k < rows@.len() ==> location_row_of(
                #[trigger] rows@[k],
                keep_last(locs@, nlc_key())[k],
            ),
{
    let unique = dedup_by_nlc(locs);
    let mut rows: Vec<Location> = Vec::new();
    let n = unique.len();
    for i in 0..n
        invariant
            n == unique@.len(),
            unique@ == keep_last(locs@, nlc_key()),
            rows@.len() == i,
            forall|k: int| 0 <= k < i ==> location_row_of(#[trigger] rows@[k], unique@[k]),
    {
        rows.push(location_row(&unique[i]));
    }
    rows
}

/// The display value follows the priority nlcdesc, nlcdesc16, crs, stanox, tiploc, axis,
/// uic: a present, non-empty field is shown with its own name whenever every field before it
/// is absent or empty, whatever the later fields hold; with none of them the NLC is shown in
/// decimal.
pub proof fn lemma_display_priority(loc: LocationEntry)
    ensures
        filled(loc.nlcdesc) ==> spec_display(loc) == (loc.nlcdesc->0@, "nlcdesc"@),
        !filled(loc.nlcdesc) && filled(loc.nlcdesc16) ==> spec_display(loc) == (
            loc.nlcdesc16->0@,
            "nlcdesc16"@,
        ),
        !filled(loc.nlcdesc) && !filled(loc.nlcdesc16) && filled(loc.crs) ==> spec_display(loc)
            == (loc.crs->0@, "crs"@),
        !filled(loc.nlcdesc) && !filled(loc.nlcdesc16) && !filled(loc.crs) && filled(loc.stanox)
            ==> spec_display(loc) == (loc.stanox->0@, "stanox"@),
        !filled(loc.nlcdesc) && !filled(loc.nlcdesc16) && !filled(loc.crs) && !filled(loc.stanox)
            && filled(loc.tiploc) ==> spec_display(loc) == (loc.tiploc->0@, "tiploc"@),
        !filled(loc.nlcdesc) && !filled(loc.nlcdesc16) && !filled(loc.crs) && !filled(loc.stanox)
            && !filled(loc.tiploc) && filled(loc.axis) ==> spec_display(loc) == (
            loc.axis->0@,
            "axis"@,
        ),
        !filled(loc.nlcdesc) && !filled(loc.nlcdesc16) && !filled(loc.crs) && !filled(loc.stanox)
            && !filled(loc.tiploc) && !filled(loc.axis) && filled(loc.uic) ==> spec_display(loc)
            == (loc.uic->0@, "uic"@),
        !filled(loc.nlcdesc) && !filled(loc.nlcdesc16) && !filled(loc.crs) && !filled(loc.stanox)
            && !filled(loc.tiploc) && !filled(loc.axis) && !filled(loc.uic) ==> spec_display(loc)
            == (spec_decimal(loc.nlc as int), "nlc"@),
{
}

/// The row of an entry shows its description whenever it has a non-empty one.
pub proof fn lemma_row_shows_description(row: Location, e: LocationEntry)
    requires
        location_row_of(row, e),
        filled(e.nlcdesc),
    ensures
        row.display@ == e.nlcdesc->0@,
        row.display_type@ == "nlcdesc"@,
{
    lemma_display_priority(e);
}

} // verus!
