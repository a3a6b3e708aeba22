//! Assembling the schedules of a CIF extract from its lines, and the rows they become.
use vstd::prelude::*;
use crate::gzip::{decompress_text, gunzip_text};
use vstd::string::StringSliceAdditionalSpecFns;
use vstd::utf8::{encode_utf8, is_char_boundary};
use crate::cif::{
    basic_schedule_extended_ok, basic_schedule_ok, field_text, kind, line_accepted, location_line,
    origin_location_ok, parse_basic_schedule, parse_basic_schedule_extended,
    parse_intermediate_location, parse_line, parse_origin_location, parse_terminating_location,
    location_uic, opt_text, row_of, table_get, terminating_location_ok, tiploc_key, tiploc_of, TiplocTable, CIFBasicSchedule, CIFBasicScheduleExtended, CIFHeader, CIFIntermediateLocation,
    CIFOriginLocation, CIFRowTypes, CIFTerminatingLocation,
};
use crate::schema::{CifScheduleLog, Schedule, ScheduleLocation};
use crate::text::{chars_of, copy_opt, string_of};

verus! {

/// The schedule being read: the fields of its `BS`, `BX`, `LO` and `LT` records.
#[derive(Debug)]
pub struct StructuredSchedule {
    pub uid: String,
    pub identity: Option<String>,
    pub headcode: Option<String>,
    pub start_date: String,
    pub end_date: Option<String>,
    pub indicator: String,
    pub atoc_code: Option<String>,
    pub performance_monitoring: Option<bool>,
    pub origin_location: Option<String>,
    pub dest_location: Option<String>,
}

/// A calling point of a schedule, by the record that gave it.
pub enum LocationTypes {
    Origin(CIFOriginLocation),
    Intermediate(CIFIntermediateLocation),
    Terminating(CIFTerminatingLocation),
}

/// A schedule with the calling points read so far.
pub struct MetaSchedule {
    pub schdle: Option<StructuredSchedule>,
    pub locs: Vec<LocationTypes>,
}

impl View for MetaSchedule {
    type V = (Option<StructuredSchedule>, Seq<LocationTypes>);

    open spec fn view(&self) -> (Option<StructuredSchedule>, Seq<LocationTypes>) {
        (self.schdle, self.locs@)
    }
}

/// The views of a list of schedules.
pub open spec fn metas_view(v: Seq<MetaSchedule>) -> Seq<(Option<StructuredSchedule>, Seq<LocationTypes>)> {
    v.map_values(|m: MetaSchedule| m@)
}

/// A copy of a `CIFOriginLocation`.
pub fn copy_origin_location(x: &CIFOriginLocation) -> (r: CIFOriginLocation)
    ensures
        r == *x,
{
    CIFOriginLocation {
        location: x.location.clone(),
        scheduled_departure_time: x.scheduled_departure_time.clone(),
        public_departure_time: x.public_departure_time.clone(),
        platform: copy_opt(&x.platform),
        line: copy_opt(&x.line),
        engineering_allowance: copy_opt(&x.engineering_allowance),
        pathing_allowance: copy_opt(&x.pathing_allowance),
        activity: x.activity.clone(),
        performance_allowance: copy_opt(&x.performance_allowance),
    }
}

/// A copy of a `CIFIntermediateLocation`.
pub fn copy_intermediate_location(x: &CIFIntermediateLocation) -> (r: CIFIntermediateLocation)
    ensures
        r == *x,
{
    CIFIntermediateLocation {
        location: x.location.clone(),
        scheduled_arrival_time: copy_opt(&x.scheduled_arrival_time),
        scheduled_departure_time: copy_opt(&x.scheduled_departure_time),
        scheduled_pass_time: copy_opt(&x.scheduled_pass_time),
        public_arrival_time: x.public_arrival_time.clone(),
        public_departure_time: x.public_departure_time.clone(),
        platform: copy_opt(&x.platform),
        line: copy_opt(&x.line),
        path: copy_opt(&x.path),
        activity: copy_opt(&x.activity),
        engineering_allowance: copy_opt(&x.engineering_allowance),
        pathing_allowance: copy_opt(&x.pathing_allowance),
        performance_allowance: copy_opt(&x.performance_allowance),
    }
}

/// A copy of a `CIFTerminatingLocation`.
pub fn copy_terminating_location(x: &CIFTerminatingLocation) -> (r: CIFTerminatingLocation)
    ensures
        r == *x,
{
    CIFTerminatingLocation {
        location: x.location.clone(),
        scheduled_arrival_time: x.scheduled_arrival_time.clone(),
        public_arrival_time: x.public_arrival_time.clone(),
        platform: copy_opt(&x.platform),
        path: copy_opt(&x.path),
        activity: x.activity.clone(),
    }
}
/// A copy of a schedule's header fields.
pub fn copy_structured(x: &StructuredSchedule) -> (r: StructuredSchedule)
    ensures
        r == *x,
{
    StructuredSchedule {
        uid: x.uid.clone(),
        identity: copy_opt(&x.identity),
        headcode: copy_opt(&x.headcode),
        start_date: x.start_date.clone(),
        end_date: copy_opt(&x.end_date),
        indicator: x.indicator.clone(),
        atoc_code: copy_opt(&x.atoc_code),
        performance_monitoring: x.performance_monitoring,
        origin_location: copy_opt(&x.origin_location),
        dest_location: copy_opt(&x.dest_location),
    }
}

/// A copy of a calling point.
pub fn copy_location(x: &LocationTypes) -> (r: LocationTypes)
    ensures
        r == *x,
{
    match x {
        LocationTypes::Origin(d) => LocationTypes::Origin(copy_origin_location(d)),
        LocationTypes::Intermediate(d) => LocationTypes::Intermediate(copy_intermediate_location(d)),
        LocationTypes::Terminating(d) => LocationTypes::Terminating(copy_terminating_location(d)),
    }
}

/// A copy of a schedule with its calling points.
pub fn copy_meta(m: &MetaSchedule) -> (r: MetaSchedule)
    ensures
        r@ == m@,
{
    let schdle = match &m.schdle {
        Some(s) => Some(copy_structured(s)),
        None => None,
    };
    let mut locs: Vec<LocationTypes> = Vec::new();
    let n = m.locs.len();
    for i in 0..n
        invariant
            n == m.locs@.len(),
            locs@ == m.locs@.take(i as int),
    {
        locs.push(copy_location(&m.locs[i]));
        assert(locs@ =~= m.locs@.take(i + 1));
    }
    assert(m.locs@.take(n as int) =~= m.locs@);
    MetaSchedule { schdle, locs }
}

/// The text is the single letter `Y`.
pub fn is_yes(s: &String) -> (b: bool)
    ensures
        b == (s@ == seq!['Y']),
{
    let cs = chars_of(s.as_str());
    let r = cs.len() == 1 && cs[0] == 'Y';
    assert(r ==> cs@ =~= seq!['Y']);
    r
}

/// The row needs a schedule to have been started.
pub open spec fn needs_schedule(row: CIFRowTypes) -> bool {
    ||| row is BasicScheduleExtended
    ||| row is OriginLocation
    ||| row is TerminatingLocation
}

/// The header log entry of an `HD` record.
pub open spec fn header_log(d: CIFHeader) -> CifScheduleLog {
    CifScheduleLog {
        id: None,
        mainframe_identity: d.mainframe_identity,
        extract_date: d.extract_date,
        extract_time: d.extract_time,
        file_reference: d.current_file_reference,
        version: d.version,
    }
}

/// One row of the assembly: (schedules done, schedule being read, header logs).
pub open spec fn assemble_step(
    st: (
        Seq<(Option<StructuredSchedule>, Seq<LocationTypes>)>,
        (Option<StructuredSchedule>, Seq<LocationTypes>),
        Seq<CifScheduleLog>,
    ),
    row: CIFRowTypes,
) -> (
    Seq<(Option<StructuredSchedule>, Seq<LocationTypes>)>,
    (Option<StructuredSchedule>, Seq<LocationTypes>),
    Seq<CifScheduleLog>,
) {
    let (done, cur, logs) = st;
    let (s, locs) = cur;
    match row {
        CIFRowTypes::Header(d) => (done, cur, logs.push(header_log(d))),
        CIFRowTypes::BasicSchedule(d) => (
            done,
            (
                Some(
                    StructuredSchedule {
                        uid: d.train_uid,
                        identity: d.train_identity,
                        headcode: d.train_headcode,
                        start_date: d.date_from,
                        end_date: d.date_to,
                        indicator: d.stp_indicator,
                        atoc_code: None,
                        performance_monitoring: None,
                        origin_location: None,
                        dest_location: None,
                    },
                ),
                locs,
            ),
            logs,
        ),
        CIFRowTypes::BasicScheduleExtended(d) => (
            done,
            (
                Some(
                    StructuredSchedule {
                        atoc_code: Some(d.atoc_code),
                        performance_monitoring: Some(d.performance_monitoring@ == seq!['Y']),
                        ..s->0
                    },
                ),
                locs,
            ),
            logs,
        ),
        CIFRowTypes::OriginLocation(d) => (
            done,
            (
                Some(StructuredSchedule { origin_location: Some(d.location), ..s->0 }),
                locs.push(LocationTypes::Origin(d)),
            ),
            logs,
        ),
        CIFRowTypes::IntermediateLocation(d) => (
            done,
            (s, locs.push(LocationTypes::Intermediate(d))),
            logs,
        ),
        CIFRowTypes::TerminatingLocation(d) => {
            let next = (
                Some(StructuredSchedule { dest_location: Some(d.location), ..s->0 }),
                locs.push(LocationTypes::Terminating(d)),
            );
            (done.push(next), next, logs)
        },
        CIFRowTypes::Unknown => st,
    }
}

/// The assembly state after the first `n` rows.
pub open spec fn assemble_rows(rows: Seq<CIFRowTypes>, n: int) -> (
    Seq<(Option<StructuredSchedule>, Seq<LocationTypes>)>,
    (Option<StructuredSchedule>, Seq<LocationTypes>),
    Seq<CifScheduleLog>,
)
    decreases n,
{
    if n <= 0 {
        (Seq::empty(), (None, Seq::empty()), Seq::empty())
    } else {
        assemble_step(assemble_rows(rows, n - 1), rows[n - 1])
    }
}

/// Feeds one parsed row to the assembly.
pub fn assemble_row(
    schdles: &mut Vec<MetaSchedule>,
    meta: &mut MetaSchedule,
    headers: &mut Vec<CifScheduleLog>,
    row: CIFRowTypes,
)
    requires
        needs_schedule(row) ==> old(meta).schdle is Some,
    ensures
        (metas_view(final(schdles)@), final(meta)@, final(headers)@) == assemble_step(
            (metas_view(old(schdles)@), old(meta)@, old(headers)@),
            row,
        ),
{
    match row {
        CIFRowTypes::Header(data) => {
            headers.push(
                CifScheduleLog {
                    id: None,
                    mainframe_identity: data.mainframe_identity,
                    extract_date: data.extract_date,
                    extract_time: data.extract_time,
                    file_reference: data.current_file_reference,
                    version: data.version,
                },
            );
        },
        CIFRowTypes::BasicSchedule(data) => {
            meta.schdle = Some(
                StructuredSchedule {
                    uid: data.train_uid,
                    identity: data.train_identity,
                    headcode: data.train_headcode,
                    start_date: data.date_from,
                    end_date: data.date_to,
                    indicator: data.stp_indicator,
                    atoc_code: None,
                    performance_monitoring: None,
                    origin_location: None,
                    dest_location: None,
                },
            );
        },
        CIFRowTypes::BasicScheduleExtended(data) => {
            let s = meta.schdle.take().unwrap();
            let pm = is_yes(&data.performance_monitoring);
            meta.schdle = Some(
                StructuredSchedule {
                    atoc_code: Some(data.atoc_code),
                    performance_monitoring: Some(pm),
                    ..s
                },
            );
        },
        CIFRowTypes::OriginLocation(data) => {
            let s = meta.schdle.take().unwrap();
            let loc = data.location.clone();
            meta.schdle = Some(StructuredSchedule { origin_location: Some(loc), ..s });
            meta.locs.push(LocationTypes::Origin(data));
        },
        CIFRowTypes::IntermediateLocation(data) => {
            meta.locs.push(LocationTypes::Intermediate(data));
        },
        CIFRowTypes::TerminatingLocation(data) => {
            let s = meta.schdle.take().unwrap();
            let loc = data.location.clone();
            meta.schdle = Some(StructuredSchedule { dest_location: Some(loc), ..s });
            meta.locs.push(LocationTypes::Terminating(data));
            let snapshot = copy_meta(meta);
            schdles.push(snapshot);
        },
        CIFRowTypes::Unknown => {},
    }
    assert(metas_view(schdles@) =~= assemble_step(
        (metas_view(old(schdles)@), old(meta)@, old(headers)@),
        row,
    ).0);
}

/// The pieces of `s` between line feeds, after the first `n` characters: (pieces done,
/// piece being read).
pub open spec fn split_prefix(s: Seq<char>, n: int) -> (Seq<Seq<char>>, Seq<char>)
    decreases n,
{
    if n <= 0 {
        (Seq::empty(), Seq::empty())
    } else {
        let (done, cur) = split_prefix(s, n - 1);
        if s[n - 1] == '\n' {
            (done.push(cur), Seq::empty())
        } else {
            (done, cur.push(s[n - 1]))
        }
    }
}

/// The pieces of `s` between line feeds, as `str::split('\n')` yields them (the last
/// piece, possibly empty, included).
pub open spec fn split_newline(s: Seq<char>) -> Seq<Seq<char>> {
    let (done, cur) = split_prefix(s, s.len() as int);
    done.push(cur)
}

/// The pieces of `s` between line feeds.
pub fn split_on_newline(s: &[char]) -> (out: Vec<Vec<char>>)
    ensures
        out@.len() == split_newline(s@).len(),
        forall|k: int| 0 <= k < out@.len() ==> #[trigger] out@[k]@ == split_newline(s@)[k],
{
    let mut out: Vec<Vec<char>> = Vec::new();
    let mut cur: Vec<char> = Vec::new();
    let n = s.len();
    for i in 0..n
        invariant
            n == s@.len(),
            out@.len() == split_prefix(s@, i as int).0.len(),
            forall|k: int|
                0 <= k < out@.len() ==> #[trigger] out@[k]@ == split_prefix(s@, i as int).0[k],
            cur@ == split_prefix(s@, i as int).1,
    {
        if s[i] == '\n' {
            out.push(cur);
            cur = Vec::new();
        } else {
            cur.push(s[i]);
        }
    }
    out.push(cur);
    out
}

/// The bytes of line `i` of a CIF text.
pub open spec fn line_bytes(text: Seq<char>, i: int) -> Seq<u8> {
    encode_utf8(split_newline(text)[i])
}

/// The line is a basic schedule record that reads in full.
pub open spec fn starts_schedule(b: Seq<u8>) -> bool {
    kind(b, 66, 83) && basic_schedule_ok(b)
}

/// The line is a record that only makes sense inside a schedule: an extended basic
/// schedule, an origin or a terminating location, each reading in full.
pub open spec fn needs_schedule_line(b: Seq<u8>) -> bool {
    ||| kind(b, 66, 88) && basic_schedule_extended_ok(b)
    ||| kind(b, 76, 79) && origin_location_ok(b)
    ||| kind(b, 76, 84) && terminating_location_ok(b)
}

/// Line `i` of the text can be assembled: `parse_line` takes it, and if it belongs to a
/// schedule some earlier line started one.
pub open spec fn text_line_accepted(
    text: Seq<char>,
    t: Seq<(Seq<char>, Seq<char>)>,
    i: int,
) -> bool {
    &&& line_accepted(line_bytes(text, i), t)
    &&& needs_schedule_line(line_bytes(text, i)) ==> exists|j: int|
        0 <= j < i && starts_schedule(#[trigger] line_bytes(text, j))
}

/// Every line of the text can be assembled.
pub open spec fn text_accepted(text: Seq<char>, t: Seq<(Seq<char>, Seq<char>)>) -> bool {
    forall|i: int| 0 <= i < split_newline(text).len() ==> text_line_accepted(text, t, i)
}

proof fn lemma_assemble_rows_prefix(a: Seq<CIFRowTypes>, b: Seq<CIFRowTypes>, n: int)
    requires
        0 <= n <= a.len(),
        n <= b.len(),
        forall|k: int| 0 <= k < n ==> a[k] == b[k],
    ensures
        assemble_rows(a, n) == assemble_rows(b, n),
    decreases n,
{
    if n > 0 {
        lemma_assemble_rows_prefix(a, b, n - 1);
    }
}

/// `headers` and `schedules` are what assembling the lines of `text` gives: each line
/// parsed against the tiploc table, and the rows fed in order.
pub open spec fn assembled_from(
    headers: Seq<CifScheduleLog>,
    schedules: Seq<(Option<StructuredSchedule>, Seq<LocationTypes>)>,
    text: Seq<char>,
    t: Seq<(Seq<char>, Seq<char>)>,
) -> bool {
    exists|rows: Seq<CIFRowTypes>|
        {
            &&& rows.len() == split_newline(text).len()
            &&& forall|i: int|
                0 <= i < rows.len() ==> row_of(#[trigger] rows[i], line_bytes(text, i), t)
            &&& schedules == assemble_rows(rows, rows.len() as int).0
            &&& headers == assemble_rows(rows, rows.len() as int).2
        }
}

/// Reads every line of a CIF extract and assembles its schedules: the header logs of its
/// `HD` records, and a snapshot of the schedule being read at each `LT` record.
pub fn assemble_schedules(text: &str, locations: &TiplocTable) -> (r: (
    Vec<CifScheduleLog>,
    Vec<MetaSchedule>,
))
    requires
        text_accepted(text@, locations@),
    ensures
        assembled_from(r.0@, metas_view(r.1@), text@, locations@),
{
    let cs = chars_of(text);
    let pieces = split_on_newline(cs.as_slice());
    let mut schdles: Vec<MetaSchedule> = Vec::new();
    let mut meta = MetaSchedule { schdle: None, locs: Vec::new() };
    let mut headers: Vec<CifScheduleLog> = Vec::new();
    let ghost mut rows: Seq<CIFRowTypes> = Seq::empty();
    let n = pieces.len();
    assert(metas_view(schdles@) =~= Seq::empty());
    assert(meta@ == (None::<StructuredSchedule>, Seq::<LocationTypes>::empty()));
    for i in 0..n
        invariant
            n == split_newline(text@).len(),
            pieces@.len() == n,
            forall|k: int| 0 <= k < n ==> #[trigger] pieces@[k]@ == split_newline(text@)[k],
            text_accepted(text@, locations@),
            rows.len() == i,
            forall|k: int|
                0 <= k < i ==> row_of(#[trigger] rows[k], line_bytes(text@, k), locations@),
            (metas_view(schdles@), meta@, headers@) == assemble_rows(rows, i as int),
            (exists|j: int| 0 <= j < i && starts_schedule(#[trigger] line_bytes(text@, j)))
                ==> meta.schdle is Some,
    {
        let line = string_of(pieces[i].as_slice());
        let ls = line.as_str();
        assert(ls.spec_bytes() == line_bytes(text@, i as int));
        assert(text_line_accepted(text@, locations@, i as int));
        let row = parse_line(ls, locations);
        let ghost old_rows = rows;
        proof {
            rows = rows.push(row);
            lemma_assemble_rows_prefix(old_rows, rows, i as int);
        }
        let ghost was_some = meta.schdle is Some;
        assemble_row(&mut schdles, &mut meta, &mut headers, row);
        proof {
            assert forall|j: int| 0 <= j < i + 1 && starts_schedule(#[trigger] line_bytes(text@, j))
                implies meta.schdle is Some by {
                if j < i {
                    assert(was_some);
                }
            }
        }
    }
    assert(rows.len() == split_newline(text@).len());
    (headers, schdles)
}

/// Why a CIF text cannot be assembled, for the first line that stops it.
pub enum ScheduleTextProblem {
    /// The first two bytes of a line end inside a character.
    SplitCharacter,
    /// A location record names a tiploc that the table does not know.
    UnknownTiploc(String),
    /// An extended schedule or location record comes before any schedule.
    OutsideSchedule,
}

/// `p` names what stops a line with bytes `b` that cannot be assembled: first a split
/// character, then an unknown tiploc (named by `p`), and else a record outside any
/// schedule.
pub open spec fn line_problem(p: ScheduleTextProblem, b: Seq<u8>, t: Seq<(Seq<char>, Seq<char>)>) -> bool {
    if !(b.len() == 0 || is_char_boundary(b, 2)) {
        p is SplitCharacter
    } else if location_line(b) && table_get(t, tiploc_key(field_text(b, 2, 10)->0)) is None {
        p matches ScheduleTextProblem::UnknownTiploc(k) && k@ == tiploc_key(field_text(b, 2, 10)->0)
    } else {
        p is OutsideSchedule
    }
}

/// `p` is what stops the first line of `text` that cannot be assembled.
pub open spec fn first_problem(p: ScheduleTextProblem, text: Seq<char>, t: Seq<(Seq<char>, Seq<char>)>) -> bool {
    exists|i: int|
        {
            &&& 0 <= i < split_newline(text).len()
            &&& forall|k: int| 0 <= k < i ==> text_line_accepted(text, t, k)
            &&& !text_line_accepted(text, t, i)
            &&& line_problem(p, #[trigger] line_bytes(text, i), t)
        }
}

/// The first reason, if any, why `assemble_schedules` cannot take the text.
pub fn schedule_text_problem(text: &str, locations: &TiplocTable) -> (r: Option<ScheduleTextProblem>)
    ensures
        r is None <==> text_accepted(text@, locations@),
        r matches Some(p) ==> first_problem(p, text@, locations@),
{
    let cs = chars_of(text);
    let pieces = split_on_newline(cs.as_slice());
    let n = pieces.len();
    let mut seen_schedule = false;
    for i in 0..n
        invariant
            n == split_newline(text@).len(),
            pieces@.len() == n,
            forall|k: int| 0 <= k < n ==> #[trigger] pieces@[k]@ == split_newline(text@)[k],
            forall|k: int| 0 <= k < i ==> text_line_accepted(text@, locations@, k),
            seen_schedule == (exists|j: int|
                0 <= j < i && starts_schedule(#[trigger] line_bytes(text@, j))),
    {
        let line = string_of(pieces[i].as_slice());
        let b = line.as_str().as_bytes();
        assert(b@ == line_bytes(text@, i as int));
        if b.len() > 0 && !line.as_str().is_char_boundary(2) {
            assert(!text_line_accepted(text@, locations@, i as int));
            assert(line_problem(ScheduleTextProblem::SplitCharacter, line_bytes(text@, i as int), locations@));
            return Some(ScheduleTextProblem::SplitCharacter);
        }
        let lo = b.len() >= 2 && b[0] == 76 && b[1] == 79;
        let li = b.len() >= 2 && b[0] == 76 && b[1] == 73;
        let lt = b.len() >= 2 && b[0] == 76 && b[1] == 84;
        let bx = b.len() >= 2 && b[0] == 66 && b[1] == 88;
        let bs = b.len() >= 2 && b[0] == 66 && b[1] == 83;
        let mut place: Option<String> = None;
        let mut in_schedule_only = false;
        if lo {
            if let Some(d) = parse_origin_location(b) {
                place = Some(d.location);
                in_schedule_only = true;
            }
        } else if li {
            if let Some(d) = parse_intermediate_location(b) {
                place = Some(d.location);
            }
        } else if lt {
            if let Some(d) = parse_terminating_location(b) {
                place = Some(d.location);
                in_schedule_only = true;
            }
        } else if bx {
            if parse_basic_schedule_extended(b).is_some() {
                in_schedule_only = true;
            }
        }
        assert(place is Some <==> location_line(b@));
        assert(place matches Some(p) ==> p@ == field_text(b@, 2, 10)->0);
        assert(in_schedule_only <==> needs_schedule_line(b@));
        if let Some(p) = place {
            let key = tiploc_of(&p);
            if locations.get(&key).is_none() {
                assert(!text_line_accepted(text@, locations@, i as int));
                let problem = ScheduleTextProblem::UnknownTiploc(key);
                assert(line_problem(problem, line_bytes(text@, i as int), locations@));
                return Some(problem);
            }
        }
        if in_schedule_only && !seen_schedule {
            assert(!text_line_accepted(text@, locations@, i as int));
            assert(line_problem(ScheduleTextProblem::OutsideSchedule, line_bytes(text@, i as int), locations@));
            return Some(ScheduleTextProblem::OutsideSchedule);
        }
        assert(text_line_accepted(text@, locations@, i as int));
        if bs && parse_basic_schedule(b).is_some() {
            seen_schedule = true;
        }
        assert(seen_schedule == (exists|j: int|
            0 <= j < i + 1 && starts_schedule(#[trigger] line_bytes(text@, j)))) by {
            if seen_schedule && !starts_schedule(b@) {
                let j = choose|j: int| 0 <= j < i && starts_schedule(#[trigger] line_bytes(text@, j));
                assert(0 <= j < i + 1);
            }
            if starts_schedule(b@) {
                assert(starts_schedule(line_bytes(text@, i as int)));
            }
        }
    }
    None
}

/// Why a cached CIF file cannot be read into schedules.
pub enum ScheduleFileProblem {
    /// The file does not decompress to text.
    NotText,
    /// The text stops at a line, for this reason.
    Text(ScheduleTextProblem),
}

/// Reads a gzipped CIF extract into its header logs and schedules: the file must
/// decompress to text that `assemble_schedules` can take.
pub fn schedule_extract(file: &[u8], locations: &TiplocTable) -> (r: Result<
    (Vec<CifScheduleLog>, Vec<MetaSchedule>),
    ScheduleFileProblem,
>)
    ensures
        gunzip_text(file@) is None <==> r matches Err(ScheduleFileProblem::NotText),
        gunzip_text(file@) matches Some(t) ==> (r is Ok <==> text_accepted(t, locations@)),
        r matches Err(ScheduleFileProblem::Text(p)) ==> gunzip_text(file@) matches Some(t)
            && first_problem(p, t, locations@),
        r matches Ok(p) ==> gunzip_text(file@) matches Some(t) && assembled_from(
            p.0@,
            metas_view(p.1@),
            t,
            locations@,
        ),
{
    match decompress_text(file) {
        None => Err(ScheduleFileProblem::NotText),
        Some(text) => match schedule_text_problem(text.as_str(), locations) {
            Some(p) => Err(ScheduleFileProblem::Text(p)),
            None => Ok(assemble_schedules(text.as_str(), locations)),
        },
    }
}

/// The schedule has everything its row needs: a header with identity, operator,
/// performance monitoring flag, origin, destination and end date.
pub open spec fn schedule_ready(m: (Option<StructuredSchedule>, Seq<LocationTypes>)) -> bool {
    &&& m.0 matches Some(s)
    &&& s.identity is Some
    &&& s.atoc_code is Some
    &&& s.performance_monitoring is Some
    &&& s.origin_location is Some
    &&& s.dest_location is Some
    &&& s.end_date is Some
}

/// Whether the schedule has everything its row needs.
pub fn schedule_is_ready(m: &MetaSchedule) -> (b: bool)
    ensures
        b == schedule_ready(m@),
{
    match &m.schdle {
        None => false,
        Some(s) => s.identity.is_some() && s.atoc_code.is_some()
            && s.performance_monitoring.is_some() && s.origin_location.is_some()
            && s.dest_location.is_some() && s.end_date.is_some(),
    }
}

/// The schedule row for an assembled schedule.
pub fn schedule_row(m: &MetaSchedule) -> (r: Schedule)
    requires
        schedule_ready(m@),
    ensures
        ({
            let s = m.schdle->0;
            &&& r.id is None
            &&& r.uid == s.uid
            &&& r.identity == s.identity->0
            &&& r.headcode == s.headcode
            &&& r.indicator == s.indicator
            &&& r.atoc_code == s.atoc_code->0
            &&& r.performance_monitoring == s.performance_monitoring->0
            &&& r.origin_location == s.origin_location->0
            &&& r.dest_location == s.dest_location->0
            &&& r.start_date == s.start_date
            &&& r.end_date == s.end_date->0
        }),
{
    let s = m.schdle.as_ref().unwrap();
    Schedule {
        id: None,
        uid: s.uid.clone(),
        identity: s.identity.as_ref().unwrap().clone(),
        headcode: copy_opt(&s.headcode),
        indicator: s.indicator.clone(),
        atoc_code: s.atoc_code.as_ref().unwrap().clone(),
        performance_monitoring: s.performance_monitoring.unwrap(),
        origin_location: s.origin_location.as_ref().unwrap().clone(),
        dest_location: s.dest_location.as_ref().unwrap().clone(),
        start_date: s.start_date.clone(),
        end_date: s.end_date.as_ref().unwrap().clone(),
    }
}

/// The calling-point row for a calling point of the schedule with id `schedule_id`:
/// each kind of record fills the columns it has and leaves the others empty.
pub open spec fn location_row_of(r: ScheduleLocation, loc: LocationTypes, schedule_id: i64) -> bool {
    &&& r.id is None
    &&& r.schedule_id == schedule_id
    &&& match loc {
        LocationTypes::Origin(d) => {
            &&& r.location == d.location
            &&& r.scheduled_departure_time == Some(d.scheduled_departure_time)
            &&& r.scheduled_arrival_time is None
            &&& r.scheduled_pass_time is None
            &&& r.public_departure_time == Some(d.public_departure_time)
            &&& r.public_arrival_time is None
            &&& r.platform == d.platform
            &&& r.line == d.line
            &&& r.engineering_allowance == d.engineering_allowance
            &&& r.pathing_allowance == d.pathing_allowance
            &&& r.performance_allowance == d.performance_allowance
            &&& r.activity == Some(d.activity)
        },
        LocationTypes::Intermediate(d) => {
            &&& r.location == d.location
            &&& r.scheduled_departure_time == d.scheduled_departure_time
            &&& r.scheduled_arrival_time == d.scheduled_arrival_time
            &&& r.scheduled_pass_time == d.scheduled_pass_time
            &&& r.public_departure_time == Some(d.public_departure_time)
            &&& r.public_arrival_time == Some(d.public_arrival_time)
            &&& r.platform == d.platform
            &&& r.line == d.line
            &&& r.engineering_allowance == d.engineering_allowance
            &&& r.pathing_allowance == d.pathing_allowance
            &&& r.performance_allowance == d.performance_allowance
            &&& r.activity == d.activity
        },
        LocationTypes::Terminating(d) => {
            &&& r.location == d.location
            &&& r.scheduled_departure_time is None
            &&& r.scheduled_arrival_time == Some(d.scheduled_arrival_time)
            &&& r.scheduled_pass_time is None
            &&& r.public_departure_time is None
            &&& r.public_arrival_time == Some(d.public_arrival_time)
            &&& r.platform == d.platform
            &&& r.line is None
            &&& r.engineering_allowance is None
            &&& r.pathing_allowance is None
            &&& r.performance_allowance is None
            &&& r.activity == Some(d.activity)
        },
    }
}

/// The calling-point row of one calling point.
pub fn location_row(loc: &LocationTypes, schedule_id: i64) -> (r: ScheduleLocation)
    ensures
        location_row_of(r, *loc, schedule_id),
{
    match loc {
        LocationTypes::Origin(d) => ScheduleLocation {
            id: None,
            location: d.location.clone(),
            scheduled_departure_time: Some(d.scheduled_departure_time.clone()),
            scheduled_arrival_time: None,
            scheduled_pass_time: None,
            public_departure_time: Some(d.public_departure_time.clone()),
            public_arrival_time: None,
            platform: copy_opt(&d.platform),
            line: copy_opt(&d.line),
            engineering_allowance: copy_opt(&d.engineering_allowance),
            pathing_allowance: copy_opt(&d.pathing_allowance),
            performance_allowance: copy_opt(&d.performance_allowance),
            activity: Some(d.activity.clone()),
            schedule_id,
        },
        LocationTypes::Intermediate(d) => ScheduleLocation {
            id: None,
            location: d.location.clone(),
            scheduled_departure_time: copy_opt(&d.scheduled_departure_time),
            scheduled_arrival_time: copy_opt(&d.scheduled_arrival_time),
            scheduled_pass_time: copy_opt(&d.scheduled_pass_time),
            public_departure_time: Some(d.public_departure_time.clone()),
            public_arrival_time: Some(d.public_arrival_time.clone()),
            platform: copy_opt(&d.platform),
            line: copy_opt(&d.line),
            engineering_allowance: copy_opt(&d.engineering_allowance),
            pathing_allowance: copy_opt(&d.pathing_allowance),
            performance_allowance: copy_opt(&d.performance_allowance),
            activity: copy_opt(&d.activity),
            schedule_id,
        },
        LocationTypes::Terminating(d) => ScheduleLocation {
            id: None,
            location: d.location.clone(),
            scheduled_departure_time: None,
            scheduled_arrival_time: Some(d.scheduled_arrival_time.clone()),
            scheduled_pass_time: None,
            public_departure_time: None,
            public_arrival_time: Some(d.public_arrival_time.clone()),
            platform: copy_opt(&d.platform),
            line: None,
            engineering_allowance: None,
            pathing_allowance: None,
            performance_allowance: None,
            activity: Some(d.activity.clone()),
            schedule_id,
        },
    }
}

/// The calling-point rows of a schedule, one per calling point in order.
pub fn schedule_location_rows(m: &MetaSchedule, schedule_id: i64) -> (rows: Vec<ScheduleLocation>)
    ensures
        rows@.len() == m.locs@.len(),
        forall|k: int|
            0 <= k < rows@.len() ==> location_row_of(#[trigger] rows@[k], m.locs@[k], schedule_id),
{
    let mut rows: Vec<ScheduleLocation> = Vec::new();
    let n = m.locs.len();
    for i in 0..n
        invariant
            n == m.locs@.len(),
            rows@.len() == i,
            forall|k: int|
                0 <= k < i ==> location_row_of(#[trigger] rows@[k], m.locs@[k], schedule_id),
    {
        rows.push(location_row(&m.locs[i], schedule_id));
    }
    rows
}

/// `a` is a prefix of `b`.
pub open spec fn is_prefix<T>(a: Seq<T>, b: Seq<T>) -> bool {
    a.len() <= b.len() && b.take(a.len() as int) == a
}

proof fn lemma_assembly_invariant(rows: Seq<CIFRowTypes>, n: int)
    requires
        0 <= n <= rows.len(),
    ensures
        ({
            let (done, cur, logs) = assemble_rows(rows, n);
            &&& forall|i: int| 0 <= i < done.len() ==> is_prefix(#[trigger] done[i].1, cur.1)
            &&& forall|i: int, j: int|
                0 <= i < j < done.len() ==> is_prefix(#[trigger] done[i].1, #[trigger] done[j].1)
            &&& forall|i: int|
                0 <= i < done.len() ==> (#[trigger] done[i].0 matches Some(s)
                    && s.dest_location is Some)
        }),
    decreases n,
{
    if n > 0 {
        lemma_assembly_invariant(rows, n - 1);
        let (done, cur, logs) = assemble_rows(rows, n - 1);
        let (done2, cur2, logs2) = assemble_rows(rows, n);
        let row = rows[n - 1];
        if cur2.1.len() > cur.1.len() {
            assert(cur2.1.take(cur.1.len() as int) =~= cur.1);
            assert forall|i: int| 0 <= i < done.len() implies is_prefix(#[trigger] done[i].1, cur2.1) by {
                assert(cur2.1.take(done[i].1.len() as int) =~= cur.1.take(done[i].1.len() as int));
            }
        }
        if row is TerminatingLocation {
            assert(done2 == done.push(cur2));
            assert(cur2.1.take(cur2.1.len() as int) =~= cur2.1);
            assert forall|i: int, j: int| 0 <= i < j < done2.len() implies is_prefix(
                #[trigger] done2[i].1,
                #[trigger] done2[j].1,
            ) by {
                if j < done.len() {
                    assert(done2[i] == done[i] && done2[j] == done[j]);
                } else {
                    assert(done2[i] == done[i]);
                    assert(done2[j] == cur2);
                }
            }
        }
    }
}

/// The assembled schedules keep every calling point read so far: each schedule's calling
/// points are a prefix of those of every later schedule. Every assembled schedule has a
/// header and a destination.
pub proof fn lemma_assembled_schedules(rows: Seq<CIFRowTypes>)
    ensures
        ({
            let done = assemble_rows(rows, rows.len() as int).0;
            &&& forall|i: int, j: int|
                0 <= i < j < done.len() ==> is_prefix(#[trigger] done[i].1, #[trigger] done[j].1)
            &&& forall|i: int|
                0 <= i < done.len() ==> (#[trigger] done[i].0 matches Some(s)
                    && s.dest_location is Some)
        }),
{
    lemma_assembly_invariant(rows, rows.len() as int);
}

/// A row that belongs to a schedule being read: an extended basic schedule, an origin or a
/// terminating location.
pub open spec fn needs_schedule_row(r: CIFRowTypes) -> bool {
    r is BasicScheduleExtended || r is OriginLocation || r is TerminatingLocation
}

/// Row `j` is a basic schedule and no basic schedule comes after it before row `i`.
pub open spec fn last_schedule_before(rows: Seq<CIFRowTypes>, j: int, i: int) -> bool {
    &&& 0 <= j < i
    &&& rows[j] is BasicSchedule
    &&& forall|m: int| j < m < i ==> !(#[trigger] rows[m] is BasicSchedule)
}

/// Schedule `o` is present and carries the uid, identity, headcode, dates and STP indicator
/// of basic schedule row `r`.
pub open spec fn schedule_named(o: Option<StructuredSchedule>, r: CIFRowTypes) -> bool {
    o matches Some(s) && named_by(s, r)
}

/// Schedule `s` carries the uid, identity, headcode, dates and STP indicator of basic
/// schedule row `r`.
pub open spec fn named_by(s: StructuredSchedule, r: CIFRowTypes) -> bool {
    r matches CIFRowTypes::BasicSchedule(d) && s.uid == d.train_uid && s.indicator
        == d.stp_indicator && s.identity == d.train_identity && s.headcode == d.train_headcode
        && s.start_date == d.date_from && s.end_date == d.date_to
}

/// Schedule `o` is present and its destination is the location of terminating row `r`.
pub open spec fn ends_at(o: Option<StructuredSchedule>, r: CIFRowTypes) -> bool {
    o matches Some(s) && r matches CIFRowTypes::TerminatingLocation(d) && s.dest_location == Some(
        d.location,
    )
}

/// Schedule `x` was completed at a terminating location row before row `n`, ends at that
/// row's location, and carries the fields of the last basic schedule row before that one.
pub open spec fn completed_before(rows: Seq<CIFRowTypes>, n: int, x: Option<StructuredSchedule>) -> bool {
    exists|i: int, j: int|
        #![trigger last_schedule_before(rows, j, i)]
        i < n && rows[i] is TerminatingLocation && last_schedule_before(rows, j, i)
            && schedule_named(x, rows[j]) && ends_at(x, rows[i])
}

proof fn lemma_schedule_rows_named(rows: Seq<CIFRowTypes>, n: int)
    requires
        0 <= n <= rows.len(),
        forall|i: int|
            0 <= i < n && needs_schedule_row(#[trigger] rows[i]) ==> exists|j: int|
                0 <= j < i && rows[j] is BasicSchedule,
    ensures
        (exists|j: int| 0 <= j < n && rows[j] is BasicSchedule) ==> exists|j: int|
            last_schedule_before(rows, j, n) && schedule_named(assemble_rows(rows, n).1.0, rows[j]),
        forall|k: int|
            0 <= k < assemble_rows(rows, n).0.len() ==> completed_before(
                rows,
                n,
                #[trigger] assemble_rows(rows, n).0[k].0,
            ),
    decreases n,
{
    if n > 0 {
        lemma_schedule_rows_named(rows, n - 1);
        let st = assemble_rows(rows, n - 1);
        let st2 = assemble_rows(rows, n);
        let row = rows[n - 1];
        assert(st2 == assemble_step(st, row));
        if exists|j: int| 0 <= j < n && rows[j] is BasicSchedule {
            if row is BasicSchedule {
                assert(last_schedule_before(rows, n - 1, n));
            } else {
                let j0 = choose|j: int| 0 <= j < n && rows[j] is BasicSchedule;
                assert(j0 < n - 1);
                let j = choose|j: int|
                    last_schedule_before(rows, j, n - 1) && schedule_named(st.1.0, rows[j]);
                assert(last_schedule_before(rows, j, n));
            }
        } else if needs_schedule_row(row) {
            assert(false);
        }
        assert forall|k: int| 0 <= k < st2.0.len() implies completed_before(
            rows,
            n,
            #[trigger] st2.0[k].0,
        ) by {
            if k < st.0.len() {
                assert(st2.0[k] == st.0[k]);
                assert(completed_before(rows, n - 1, st.0[k].0));
                let (i, j) = choose|i: int, j: int|
                    #![trigger last_schedule_before(rows, j, i)]
                    i < n - 1 && rows[i] is TerminatingLocation && last_schedule_before(rows, j, i)
                        && schedule_named(st.0[k].0, rows[j]) && ends_at(st.0[k].0, rows[i]);
                assert(last_schedule_before(rows, j, i));
            } else {
                assert(needs_schedule_row(rows[n - 1]));
                assert(exists|j: int| 0 <= j < n - 1 && rows[j] is BasicSchedule);
                let j = choose|j: int|
                    last_schedule_before(rows, j, n - 1) && schedule_named(st.1.0, rows[j]);
                assert(k == st.0.len());
                assert(schedule_named(st2.0[k].0, rows[j]));
                assert(ends_at(st2.0[k].0, rows[n - 1]));
                assert(last_schedule_before(rows, j, n - 1));
            }
        }
    }
}

/// The line is a terminating location record that reads in full: the line at which a
/// schedule is complete.
pub open spec fn ends_schedule(b: Seq<u8>) -> bool {
    kind(b, 76, 84) && terminating_location_ok(b)
}

/// Every assembled schedule is completed at a terminating location line and ends at that
/// line's location (mapped to its uic), and carries the uid (bytes 3..9), start and end
/// dates (9..15, 15..21), identity (32..36), headcode (36..40) and STP indicator (79..80)
/// of the last basic schedule line before that line.
pub proof fn lemma_schedules_named_by_their_lines(
    headers: Seq<CifScheduleLog>,
    schedules: Seq<(Option<StructuredSchedule>, Seq<LocationTypes>)>,
    text: Seq<char>,
    t: Seq<(Seq<char>, Seq<char>)>,
)
    requires
        assembled_from(headers, schedules, text, t),
        text_accepted(text, t),
    ensures
        forall|k: int|
            #![trigger schedules[k]]
            0 <= k < schedules.len() ==> exists|i: int, j: int|
                #![trigger line_bytes(text, i), line_bytes(text, j)]
                {
                    &&& 0 <= j < i < split_newline(text).len()
                    &&& ends_schedule(line_bytes(text, i))
                    &&& starts_schedule(line_bytes(text, j))
                    &&& forall|m: int| j < m < i ==> !starts_schedule(#[trigger] line_bytes(text, m))
                    &&& schedules[k].0 matches Some(s)
                    &&& s.uid@ == field_text(line_bytes(text, j), 3, 9)->0
                    &&& s.identity.deep_view() == opt_text(field_text(line_bytes(text, j), 32, 36)->0)
                    &&& s.headcode.deep_view() == opt_text(field_text(line_bytes(text, j), 36, 40)->0)
                    &&& s.start_date@ == field_text(line_bytes(text, j), 9, 15)->0
                    &&& s.end_date.deep_view() == opt_text(field_text(line_bytes(text, j), 15, 21)->0)
                    &&& s.indicator@ == field_text(line_bytes(text, j), 79, 80)->0
                    &&& s.dest_location matches Some(d) && d@ == location_uic(line_bytes(text, i), t)
                },
{
    let rows = choose|rows: Seq<CIFRowTypes>|
        {
            &&& rows.len() == split_newline(text).len()
            &&& forall|i: int|
                0 <= i < rows.len() ==> row_of(#[trigger] rows[i], line_bytes(text, i), t)
            &&& schedules == assemble_rows(rows, rows.len() as int).0
            &&& headers == assemble_rows(rows, rows.len() as int).2
        };
    let n = rows.len() as int;
    assert forall|i: int| 0 <= i < n implies (#[trigger] rows[i] is BasicSchedule <==> starts_schedule(
        line_bytes(text, i),
    )) && (rows[i] is TerminatingLocation <==> ends_schedule(line_bytes(text, i))) && (
    needs_schedule_row(rows[i]) <==> needs_schedule_line(line_bytes(text, i))) by {
        assert(row_of(rows[i], line_bytes(text, i), t));
    }
    assert forall|i: int| 0 <= i < n && needs_schedule_row(#[trigger] rows[i]) implies exists|j: int|
        0 <= j < i && rows[j] is BasicSchedule by {
        assert(text_line_accepted(text, t, i));
        let j = choose|j: int| 0 <= j < i && starts_schedule(#[trigger] line_bytes(text, j));
        assert(rows[j] is BasicSchedule);
    }
    lemma_schedule_rows_named(rows, n);
    assert forall|k: int| #![trigger schedules[k]] 0 <= k < schedules.len() implies exists|i: int, j: int|
        #![trigger line_bytes(text, i), line_bytes(text, j)]
        {
            &&& 0 <= j < i < split_newline(text).len()
            &&& ends_schedule(line_bytes(text, i))
            &&& starts_schedule(line_bytes(text, j))
            &&& forall|m: int| j < m < i ==> !starts_schedule(#[trigger] line_bytes(text, m))
            &&& schedules[k].0 matches Some(s)
            &&& s.uid@ == field_text(line_bytes(text, j), 3, 9)->0
            &&& s.identity.deep_view() == opt_text(field_text(line_bytes(text, j), 32, 36)->0)
            &&& s.headcode.deep_view() == opt_text(field_text(line_bytes(text, j), 36, 40)->0)
            &&& s.start_date@ == field_text(line_bytes(text, j), 9, 15)->0
            &&& s.end_date.deep_view() == opt_text(field_text(line_bytes(text, j), 15, 21)->0)
            &&& s.indicator@ == field_text(line_bytes(text, j), 79, 80)->0
            &&& s.dest_location matches Some(d) && d@ == location_uic(line_bytes(text, i), t)
        } by {
        assert(completed_before(rows, n, schedules[k].0));
        let (i, j) = choose|i: int, j: int|
            #![trigger last_schedule_before(rows, j, i)]
            i < n && rows[i] is TerminatingLocation && last_schedule_before(rows, j, i)
                && schedule_named(schedules[k].0, rows[j]) && ends_at(schedules[k].0, rows[i]);
        assert(rows[i] is TerminatingLocation);
        assert(row_of(rows[i], line_bytes(text, i), t));
        assert(row_of(rows[j], line_bytes(text, j), t));
        assert(ends_schedule(line_bytes(text, i)));
        assert forall|m: int| j < m < i implies !starts_schedule(#[trigger] line_bytes(text, m)) by {
            assert(!(rows[m] is BasicSchedule));
        }
    }
}

} // verus!
