//! The BPLAN geography extract: its code tables, its record layout and the rows that an
//! import writes.
use vstd::prelude::*;
use crate::gzip::{decompress_text, gunzip_text};
use crate::dedup::{is_last_of_key, keep_last, keep_last_prefix};
use crate::schedule::{split_newline, split_on_newline};
use crate::schema::{BplanLog, ReferenceCode};
use crate::text::{
    chars_of, copy_opt, find_char, first_index, lemma_first_index_found, same_chars, string_of,
};

verus! {

/// The timetable cycle that a BPLAN header announces.
#[derive(Debug, Clone, Copy, PartialEq, Eq, Structural)]
pub enum HeaderCycleTypeEnum {
    Unknown,
    Supplimental,
    Iterative,
}

/// The code that stands for each `HeaderCycleTypeEnum` in a BPLAN file.
pub open spec fn cycle_type_code(t: HeaderCycleTypeEnum) -> Seq<char> {
    match t {
        HeaderCycleTypeEnum::Unknown => "Unknown"@,
        HeaderCycleTypeEnum::Supplimental => "S"@,
        HeaderCycleTypeEnum::Iterative => "I"@,
    }
}

/// The name of each `HeaderCycleTypeEnum`, as the database stores it.
pub open spec fn cycle_type_name(t: HeaderCycleTypeEnum) -> Seq<char> {
    match t {
        HeaderCycleTypeEnum::Unknown => "Unknown"@,
        HeaderCycleTypeEnum::Supplimental => "Supplimental"@,
        HeaderCycleTypeEnum::Iterative => "Iterative"@,
    }
}

/// The `HeaderCycleTypeEnum` that a BPLAN code stands for, if any.
pub open spec fn cycle_type_of_code(code: Seq<char>) -> Option<HeaderCycleTypeEnum> {
    if code == "Unknown"@ {
        Some(HeaderCycleTypeEnum::Unknown)
    } else if code == "S"@ {
        Some(HeaderCycleTypeEnum::Supplimental)
    } else if code == "I"@ {
        Some(HeaderCycleTypeEnum::Iterative)
    } else {
        None
    }
}

impl HeaderCycleTypeEnum {
    /// The value that a BPLAN code stands for; `None` for a code that names no value.
    pub fn from_code(code: &str) -> (r: Option<HeaderCycleTypeEnum>)
        ensures
            r == cycle_type_of_code(code@),
    {
        if same_chars(code, "Unknown") {
            Some(HeaderCycleTypeEnum::Unknown)
        } else if same_chars(code, "S") {
            Some(HeaderCycleTypeEnum::Supplimental)
        } else if same_chars(code, "I") {
            Some(HeaderCycleTypeEnum::Iterative)
        } else {
            None
        }
    }

    /// The value's name, as `Display` writes it.
    pub fn name(&self) -> (r: String)
        ensures
            r@ == cycle_type_name(*self),
    {
        match self {
            HeaderCycleTypeEnum::Unknown => "Unknown".to_owned(),
            HeaderCycleTypeEnum::Supplimental => "Supplimental".to_owned(),
            HeaderCycleTypeEnum::Iterative => "Iterative".to_owned(),
        }
    }
}

/// The table a BPLAN reference code belongs to.
#[derive(Debug, Clone, Copy, PartialEq, Eq, Structural)]
pub enum ReferenceCodeTypeEnum {
    Unknown,
    Accomodation,
    Activities,
    BankHolidayExcepted,
    ServiceBrands,
    BusinessSector,
    Catering,
    OperatingCharacteristic,
    PowerType,
    Reservation,
    Service,
    Sleeper,
    TrainClass,
    TrainCategory,
    TrainOperator,
    TrainStatus,
    TrainPublicationStatus,
    ReferenceCodeTypes,
    NetworkRailZone,
}

/// The code that stands for each `ReferenceCodeTypeEnum` in a BPLAN file.
pub open spec fn reference_type_code(t: ReferenceCodeTypeEnum) -> Seq<char> {
    match t {
        ReferenceCodeTypeEnum::Unknown => "Unknown"@,
        ReferenceCodeTypeEnum::Accomodation => "ACC"@,
        ReferenceCodeTypeEnum::Activities => "ACT"@,
        ReferenceCodeTypeEnum::BankHolidayExcepted => "BHX"@,
        ReferenceCodeTypeEnum::ServiceBrands => "BRA"@,
        ReferenceCodeTypeEnum::BusinessSector => "BUS"@,
        ReferenceCodeTypeEnum::Catering => "CAT"@,
        ReferenceCodeTypeEnum::OperatingCharacteristic => "OPC"@,
        ReferenceCodeTypeEnum::PowerType => "PWR"@,
        ReferenceCodeTypeEnum::Reservation => "RES"@,
        ReferenceCodeTypeEnum::Service => "SER"@,
        ReferenceCodeTypeEnum::Sleeper => "SLE"@,
        ReferenceCodeTypeEnum::TrainClass => "TCL"@,
        ReferenceCodeTypeEnum::TrainCategory => "TCT"@,
        ReferenceCodeTypeEnum::TrainOperator => "TOC"@,
        ReferenceCodeTypeEnum::TrainStatus => "TRS"@,
        ReferenceCodeTypeEnum::TrainPublicationStatus => "TST"@,
        ReferenceCodeTypeEnum::ReferenceCodeTypes => "REF"@,
        ReferenceCodeTypeEnum::NetworkRailZone => "ZNE"@,
    }
}

/// The name of each `ReferenceCodeTypeEnum`, as the database stores it.
pub open spec fn reference_type_name(t: ReferenceCodeTypeEnum) -> Seq<char> {
    match t {
        ReferenceCodeTypeEnum::Unknown => "Unknown"@,
        ReferenceCodeTypeEnum::Accomodation => "Accomodation"@,
        ReferenceCodeTypeEnum::Activities => "Activities"@,
        ReferenceCodeTypeEnum::BankHolidayExcepted => "BankHolidayExcepted"@,
        ReferenceCodeTypeEnum::ServiceBrands => "ServiceBrands"@,
        ReferenceCodeTypeEnum::BusinessSector => "BusinessSector"@,
        ReferenceCodeTypeEnum::Catering => "Catering"@,
        ReferenceCodeTypeEnum::OperatingCharacteristic => "OperatingCharacteristic"@,
        ReferenceCodeTypeEnum::PowerType => "PowerType"@,
        ReferenceCodeTypeEnum::Reservation => "Reservation"@,
        ReferenceCodeTypeEnum::Service => "Service"@,
        ReferenceCodeTypeEnum::Sleeper => "Sleeper"@,
        ReferenceCodeTypeEnum::TrainClass => "TrainClass"@,
        ReferenceCodeTypeEnum::TrainCategory => "TrainCategory"@,
        ReferenceCodeTypeEnum::TrainOperator => "TrainOperator"@,
        ReferenceCodeTypeEnum::TrainStatus => "TrainStatus"@,
        ReferenceCodeTypeEnum::TrainPublicationStatus => "TrainPublicationStatus"@,
        ReferenceCodeTypeEnum::ReferenceCodeTypes => "ReferenceCodeTypes"@,
        ReferenceCodeTypeEnum::NetworkRailZone => "NetworkRailZone"@,
    }
}

/// The `ReferenceCodeTypeEnum` that a BPLAN code stands for, if any.
pub open spec fn reference_type_of_code(code: Seq<char>) -> Option<ReferenceCodeTypeEnum> {
    if code == "Unknown"@ {
        Some(ReferenceCodeTypeEnum::Unknown)
    } else if code == "ACC"@ {
        Some(ReferenceCodeTypeEnum::Accomodation)
    } else if code == "ACT"@ {
        Some(ReferenceCodeTypeEnum::Activities)
    } else if code == "BHX"@ {
        Some(ReferenceCodeTypeEnum::BankHolidayExcepted)
    } else if code == "BRA"@ {
        Some(ReferenceCodeTypeEnum::ServiceBrands)
    } else if code == "BUS"@ {
        Some(ReferenceCodeTypeEnum::BusinessSector)
    } else if code == "CAT"@ {
        Some(ReferenceCodeTypeEnum::Catering)
    } else if code == "OPC"@ {
        Some(ReferenceCodeTypeEnum::OperatingCharacteristic)
    } else if code == "PWR"@ {
        Some(ReferenceCodeTypeEnum::PowerType)
    } else if code == "RES"@ {
        Some(ReferenceCodeTypeEnum::Reservation)
    } else if code == "SER"@ {
        Some(ReferenceCodeTypeEnum::Service)
    } else if code == "SLE"@ {
        Some(ReferenceCodeTypeEnum::Sleeper)
    } else if code == "TCL"@ {
        Some(ReferenceCodeTypeEnum::TrainClass)
    } else if code == "TCT"@ {
        Some(ReferenceCodeTypeEnum::TrainCategory)
    } else if code == "TOC"@ {
        Some(ReferenceCodeTypeEnum::TrainOperator)
    } else if code == "TRS"@ {
        Some(ReferenceCodeTypeEnum::TrainStatus)
    } else if code == "TST"@ {
        Some(ReferenceCodeTypeEnum::TrainPublicationStatus)
    } else if code == "REF"@ {
        Some(ReferenceCodeTypeEnum::ReferenceCodeTypes)
    } else if code == "ZNE"@ {
        Some(ReferenceCodeTypeEnum::NetworkRailZone)
    } else {
        None
    }
}

impl ReferenceCodeTypeEnum {
    /// The value that a BPLAN code stands for; `None` for a code that names no value.
    pub fn from_code(code: &str) -> (r: Option<ReferenceCodeTypeEnum>)
        ensures
            r == reference_type_of_code(code@),
    {
        if same_chars(code, "Unknown") {
            Some(ReferenceCodeTypeEnum::Unknown)
        } else if same_chars(code, "ACC") {
            Some(ReferenceCodeTypeEnum::Accomodation)
        } else if same_chars(code, "ACT") {
            Some(ReferenceCodeTypeEnum::Activities)
        } else if same_chars(code, "BHX") {
            Some(ReferenceCodeTypeEnum::BankHolidayExcepted)
        } else if same_chars(code, "BRA") {
            Some(ReferenceCodeTypeEnum::ServiceBrands)
        } else if same_chars(code, "BUS") {
            Some(ReferenceCodeTypeEnum::BusinessSector)
        } else if same_chars(code, "CAT") {
            Some(ReferenceCodeTypeEnum::Catering)
        } else if same_chars(code, "OPC") {
            Some(ReferenceCodeTypeEnum::OperatingCharacteristic)
        } else if same_chars(code, "PWR") {
            Some(ReferenceCodeTypeEnum::PowerType)
        } else if same_chars(code, "RES") {
            Some(ReferenceCodeTypeEnum::Reservation)
        } else if same_chars(code, "SER") {
            Some(ReferenceCodeTypeEnum::Service)
        } else if same_chars(code, "SLE") {
            Some(ReferenceCodeTypeEnum::Sleeper)
        } else if same_chars(code, "TCL") {
            Some(ReferenceCodeTypeEnum::TrainClass)
        } else if same_chars(code, "TCT") {
            Some(ReferenceCodeTypeEnum::TrainCategory)
        } else if same_chars(code, "TOC") {
            Some(ReferenceCodeTypeEnum::TrainOperator)
        } else if same_chars(code, "TRS") {
            Some(ReferenceCodeTypeEnum::TrainStatus)
        } else if same_chars(code, "TST") {
            Some(ReferenceCodeTypeEnum::TrainPublicationStatus)
        } else if same_chars(code, "REF") {
            Some(ReferenceCodeTypeEnum::ReferenceCodeTypes)
        } else if same_chars(code, "ZNE") {
            Some(ReferenceCodeTypeEnum::NetworkRailZone)
        } else {
            None
        }
    }

    /// The value's name, as `Display` writes it.
    pub fn name(&self) -> (r: String)
        ensures
            r@ == reference_type_name(*self),
    {
        match self {
            ReferenceCodeTypeEnum::Unknown => "Unknown".to_owned(),
            ReferenceCodeTypeEnum::Accomodation => "Accomodation".to_owned(),
            ReferenceCodeTypeEnum::Activities => "Activities".to_owned(),
            ReferenceCodeTypeEnum::BankHolidayExcepted => "BankHolidayExcepted".to_owned(),
            ReferenceCodeTypeEnum::ServiceBrands => "ServiceBrands".to_owned(),
            ReferenceCodeTypeEnum::BusinessSector => "BusinessSector".to_owned(),
            ReferenceCodeTypeEnum::Catering => "Catering".to_owned(),
            ReferenceCodeTypeEnum::OperatingCharacteristic => "OperatingCharacteristic".to_owned(),
            ReferenceCodeTypeEnum::PowerType => "PowerType".to_owned(),
            ReferenceCodeTypeEnum::Reservation => "Reservation".to_owned(),
            ReferenceCodeTypeEnum::Service => "Service".to_owned(),
            ReferenceCodeTypeEnum::Sleeper => "Sleeper".to_owned(),
            ReferenceCodeTypeEnum::TrainClass => "TrainClass".to_owned(),
            ReferenceCodeTypeEnum::TrainCategory => "TrainCategory".to_owned(),
            ReferenceCodeTypeEnum::TrainOperator => "TrainOperator".to_owned(),
            ReferenceCodeTypeEnum::TrainStatus => "TrainStatus".to_owned(),
            ReferenceCodeTypeEnum::TrainPublicationStatus => "TrainPublicationStatus".to_owned(),
            ReferenceCodeTypeEnum::ReferenceCodeTypes => "ReferenceCodeTypes".to_owned(),
            ReferenceCodeTypeEnum::NetworkRailZone => "NetworkRailZone".to_owned(),
        }
    }
}

/// The header record (`PIF`) of a BPLAN file.
#[derive(Debug, Clone)]
pub struct BplanHeader {
    pub file_version: String,
    pub source_system: String,
    pub toc_id: String,
    pub timetable_start_date: String,
    pub timetable_end_date: String,
    pub cycle_type: HeaderCycleTypeEnum,
    pub cycle_stage: String,
    pub creation_date: String,
    pub sequence_number: i32,
}

/// A reference code record (`REF`) of a BPLAN file.
#[derive(Debug, Clone)]
pub struct BplanReference {
    pub action_code: String,
    pub code_type: ReferenceCodeTypeEnum,
    pub code: Option<String>,
    pub description: String,
}

/// `log` is the import log row written for header `h`.
pub open spec fn header_log_of(log: BplanLog, h: BplanHeader) -> bool {
    &&& log.id is None
    &&& log.toc_id == h.toc_id
    &&& log.file_version == h.file_version
    &&& log.source_system == h.source_system
    &&& log.timetable_start_date == h.timetable_start_date
    &&& log.timetable_end_date == h.timetable_end_date
    &&& log.cycle_type@ == cycle_type_name(h.cycle_type)
    &&& log.cycle_stage == h.cycle_stage
    &&& log.creation_date == h.creation_date
    &&& log.sequence_number == h.sequence_number
}

/// The import log row for a header.
pub fn header_log(h: &BplanHeader) -> (log: BplanLog)
    ensures
        header_log_of(log, *h),
{
    BplanLog {
        id: None,
        toc_id: h.toc_id.clone(),
        file_version: h.file_version.clone(),
        source_system: h.source_system.clone(),
        timetable_start_date: h.timetable_start_date.clone(),
        timetable_end_date: h.timetable_end_date.clone(),
        cycle_type: h.cycle_type.name(),
        cycle_stage: h.cycle_stage.clone(),
        creation_date: h.creation_date.clone(),
        sequence_number: h.sequence_number,
    }
}

/// `row` is the reference code row written for record `r`.
pub open spec fn reference_row_of(row: ReferenceCode, r: BplanReference) -> bool {
    &&& row.id is None
    &&& row.action_code == r.action_code
    &&& row.code_type@ == reference_type_name(r.code_type)
    &&& row.code == r.code
    &&& row.description == r.description
}

/// The reference code row for a record.
pub fn reference_code(r: &BplanReference) -> (row: ReferenceCode)
    ensures
        reference_row_of(row, *r),
{
    ReferenceCode {
        id: None,
        action_code: r.action_code.clone(),
        code_type: r.code_type.name(),
        code: copy_opt(&r.code),
        description: r.description.clone(),
    }
}

/// The record type of a line and the rest of it: the text before the first tab, and the
/// text after it (empty where the line holds no tab).
pub open spec fn record_parts(line: Seq<char>) -> (Seq<char>, Seq<char>) {
    match first_index(line, '\t') {
        Some(i) => (line.take(i), line.skip(i + 1)),
        None => (line, Seq::empty()),
    }
}

/// Splits a line into its record type and the rest of its fields.
pub fn split_record_type(line: &str) -> (r: (String, String))
    ensures
        (r.0@, r.1@) == record_parts(line@),
{
    let cs = chars_of(line);
    let n = cs.len();
    match find_char(cs.as_slice(), '\t') {
        Some(i) => {
            let mut head: Vec<char> = Vec::new();
            let mut j: usize = 0;
            while j < i
                invariant
                    i < cs@.len(),
                    0 <= j <= i,
                    head@ == cs@.take(j as int),
                decreases i - j,
            {
                head.push(cs[j]);
                j = j + 1;
                assert(head@ =~= cs@.take(j as int));
            }
            let mut tail: Vec<char> = Vec::new();
            let mut k: usize = i + 1;
            while k < n
                invariant
                    n == cs@.len(),
                    i < cs@.len(),
                    i + 1 <= k <= cs@.len(),
                    tail@ == cs@.subrange(i + 1, k as int),
                decreases cs@.len() - k,
            {
                tail.push(cs[k]);
                k = k + 1;
                assert(tail@ =~= cs@.subrange(i + 1, k as int));
            }
            assert(cs@.subrange(i + 1, cs@.len() as int) =~= cs@.skip(i + 1));
            (string_of(head.as_slice()), string_of(tail.as_slice()))
        },
        None => (string_of(cs.as_slice()), String::new()),
    }
}

/// Where a line has a tab, its record type, a tab and the rest give the line back, and the
/// record type holds no tab.
pub proof fn lemma_record_parts_rejoin(line: Seq<char>)
    requires
        line.contains('\t'),
    ensures
        record_parts(line).0 + seq!['\t'] + record_parts(line).1 == line,
        !record_parts(line).0.contains('\t'),
{
    let k = choose|k: int| 0 <= k < line.len() && line[k] == '\t';
    lemma_first_index_found(line, '\t', k);
    let i = first_index(line, '\t')->0;
    assert(line.take(i) + seq!['\t'] + line.skip(i + 1) =~= line);
    if line.take(i).contains('\t') {
        let j = choose|j: int| 0 <= j < line.take(i).len() && line.take(i)[j] == '\t';
        assert(line[j] == '\t');
    }
}

/// The kinds of BPLAN record that an import reads.
#[derive(Debug, Clone, Copy, PartialEq, Eq, Structural)]
pub enum BplanRecordKind {
    Header,
    Reference,
    Other,
}

/// The kind of record that a record type names.
pub open spec fn record_kind_of(record_type: Seq<char>) -> BplanRecordKind {
    if record_type == "PIF"@ {
        BplanRecordKind::Header
    } else if record_type == "REF"@ {
        BplanRecordKind::Reference
    } else {
        BplanRecordKind::Other
    }
}

/// The kind of record that a record type names.
pub fn record_kind(record_type: &str) -> (k: BplanRecordKind)
    ensures
        k == record_kind_of(record_type@),
{
    if same_chars(record_type, "PIF") {
        BplanRecordKind::Header
    } else if same_chars(record_type, "REF") {
        BplanRecordKind::Reference
    } else {
        BplanRecordKind::Other
    }
}

/// What an import does with one line of a BPLAN file.
#[derive(Debug, Clone)]
pub enum BplanStep {
    /// Nothing: the line is of no interest, or reading has stopped.
    Skip,
    /// Read the header held in these fields, then report whether it was imported before.
    Header(String),
    /// Read the reference code held in these fields, then add it.
    Reference(String),
}

/// The step for a line, given whether reading goes on.
pub open spec fn step_of(reading: bool, line: Seq<char>, step: BplanStep) -> bool {
    let (t, rest) = record_parts(line);
    if !reading {
        step is Skip
    } else {
        match record_kind_of(t) {
            BplanRecordKind::Header => step matches BplanStep::Header(f) && f@ == rest,
            BplanRecordKind::Reference => step matches BplanStep::Reference(f) && f@ == rest,
            BplanRecordKind::Other => step is Skip,
        }
    }
}

/// Once reading has stopped, every later line is skipped, whatever it holds.
pub proof fn lemma_stopped_scan_skips(line: Seq<char>, step: BplanStep)
    ensures
        step_of(false, line, step) <==> step is Skip,
{
}

/// The state of an import while it reads the lines of one file: whether it still reads,
/// and the reference codes gathered so far.
pub struct BplanScan {
    pub reading: bool,
    pub references: Vec<ReferenceCode>,
}

impl BplanScan {
    /// The state before the first line.
    pub fn new() -> (s: BplanScan)
        ensures
            s.reading,
            s.references@ == Seq::<ReferenceCode>::empty(),
    {
        BplanScan { reading: true, references: Vec::new() }
    }

    /// The step for the next line.
    pub fn next_step(&self, line: &str) -> (step: BplanStep)
        ensures
            step_of(self.reading, line@, step),
    {
        if !self.reading {
            return BplanStep::Skip;
        }
        let (t, rest) = split_record_type(line);
        match record_kind(t.as_str()) {
            BplanRecordKind::Header => BplanStep::Header(rest),
            BplanRecordKind::Reference => BplanStep::Reference(rest),
            BplanRecordKind::Other => BplanStep::Skip,
        }
    }

    /// After a header: a file whose header was imported before is read no further, and a
    /// new header is to be logged (the result).
    pub fn header_seen(&mut self, already_imported: bool) -> (log_it: bool)
        ensures
            log_it == !already_imported,
            final(self).reading == (old(self).reading && !already_imported),
            final(self).references@ == old(self).references@,
    {
        if already_imported {
            self.reading = false;
        }
        !already_imported
    }

    /// After a reference code record: its row joins the gathered ones.
    pub fn add_reference(&mut self, r: &BplanReference)
        ensures
            final(self).reading == old(self).reading,
            final(self).references@.len() == old(self).references@.len() + 1,
            final(self).references@.take(old(self).references@.len() as int)
                == old(self).references@,
            reference_row_of(final(self).references@.last(), *r),
    {
        let row = reference_code(r);
        self.references.push(row);
        assert(self.references@.take(old(self).references@.len() as int) =~= old(self).references@);
    }
}

/// The lines of a decompressed BPLAN file, as `str::split('\n')` gives them.
pub fn bplan_lines(text: &str) -> (lines: Vec<String>)
    ensures
        lines@.len() == split_newline(text@).len(),
        forall|k: int| 0 <= k < lines@.len() ==> #[trigger] lines@[k]@ == split_newline(text@)[k],
{
    let cs = chars_of(text);
    let pieces = split_on_newline(cs.as_slice());
    let mut lines: Vec<String> = Vec::new();
    let n = pieces.len();
    for i in 0..n
        invariant
            n == pieces@.len(),
            cs@ == text@,
            pieces@.len() == split_newline(cs@).len(),
            forall|k: int| 0 <= k < pieces@.len() ==> #[trigger] pieces@[k]@ == split_newline(cs@)[k],
            lines@.len() == i,
            forall|k: int| 0 <= k < i ==> #[trigger] lines@[k]@ == split_newline(text@)[k],
    {
        let s = string_of(pieces[i].as_slice());
        lines.push(s);
    }
    lines
}

/// The lines of a gzipped BPLAN file: `None` where it does not decompress to text.
pub fn bplan_entry_lines(data: &[u8]) -> (r: Option<Vec<String>>)
    ensures
        match gunzip_text(data@) {
            None => r is None,
            Some(t) => r matches Some(lines) && lines@.len() == split_newline(t).len() && forall|k: int|
                0 <= k < lines@.len() ==> #[trigger] lines@[k]@ == split_newline(t)[k],
        },
{
    match decompress_text(data) {
        None => None,
        Some(text) => Some(bplan_lines(text.as_str())),
    }
}

/// A file of the archive that holds gzipped text: its name ends in `.txt.gz`.
pub open spec fn is_gzipped_text(name: Seq<char>) -> bool {
    name.len() >= ".txt.gz"@.len() && name.skip(name.len() - ".txt.gz"@.len()) == ".txt.gz"@
}

/// Whether an archive entry holds gzipped text.
pub fn gzipped_text(name: &str) -> (b: bool)
    ensures
        b == is_gzipped_text(name@),
{
    let cs = chars_of(name);
    let suffix = chars_of(".txt.gz");
    if cs.len() < suffix.len() {
        return false;
    }
    let n = cs.len();
    let start = n - suffix.len();
    let mut i: usize = 0;
    while i < suffix.len()
        invariant
            n == cs@.len(),
            cs@ == name@,
            suffix@ == ".txt.gz"@,
            cs@.len() >= suffix@.len(),
            start == cs@.len() - suffix@.len(),
            0 <= i <= suffix@.len(),
            forall|k: int| 0 <= k < i ==> cs@[start + k] == suffix@[k],
        decreases suffix@.len() - i,
    {
        if cs[start + i] != suffix[i] {
            assert(cs@.skip(start as int)[i as int] != suffix@[i as int]);
            return false;
        }
        i = i + 1;
    }
    assert(cs@.skip(start as int) =~= suffix@);
    true
}

/// The key by which reference codes are told apart: their description.
pub open spec fn description_key() -> spec_fn(ReferenceCode) -> Seq<char> {
    |c: ReferenceCode| c.description@
}

/// A copy of a reference code row.
pub fn copy_reference_code(c: &ReferenceCode) -> (r: ReferenceCode)
    ensures
        r == *c,
{
    ReferenceCode {
        id: c.id,
        action_code: c.action_code.clone(),
        code_type: c.code_type.clone(),
        code: copy_opt(&c.code),
        description: c.description.clone(),
    }
}

/// The rows of a bulk reference code upsert: for each description, its last row.
pub fn unique_reference_codes(codes: &[ReferenceCode]) -> (out: Vec<ReferenceCode>)
    ensures
        out@ == keep_last(codes@, description_key()),
{
    let n = codes.len();
    let mut out: Vec<ReferenceCode> = Vec::new();
    for i in 0..n
        invariant
            n == codes@.len(),
            out@ == keep_last_prefix(codes@, description_key(), i as int),
    {
        let mut last = true;
        let mut j = i + 1;
        while j < n
            invariant
                n == codes@.len(),
                i < j <= n,
                last == (forall|k: int|
                    i < k < j ==> codes@[k].description@ != codes@[i as int].description@),
            decreases n - j,
        {
            if codes[j].description == codes[i].description {
                last = false;
            }
            j = j + 1;
        }
        assert(last == is_last_of_key(codes@, description_key(), i as int));
        if last {
            out.push(copy_reference_code(&codes[i]));
        }
    }
    out
}

/// The `HeaderCycleTypeEnum` whose stored name is `name`, if any.
pub open spec fn cycle_type_of_name(name: Seq<char>) -> Option<HeaderCycleTypeEnum> {
    if name == "Unknown"@ {
        Some(HeaderCycleTypeEnum::Unknown)
    } else if name == "Supplimental"@ {
        Some(HeaderCycleTypeEnum::Supplimental)
    } else if name == "Iterative"@ {
        Some(HeaderCycleTypeEnum::Iterative)
    } else {
        None
    }
}

/// The `ReferenceCodeTypeEnum` whose stored name is `name`, if any.
pub open spec fn reference_type_of_name(name: Seq<char>) -> Option<ReferenceCodeTypeEnum> {
    if name == "Unknown"@ {
        Some(ReferenceCodeTypeEnum::Unknown)
    } else if name == "Accomodation"@ {
        Some(ReferenceCodeTypeEnum::Accomodation)
    } else if name == "Activities"@ {
        Some(ReferenceCodeTypeEnum::Activities)
    } else if name == "BankHolidayExcepted"@ {
        Some(ReferenceCodeTypeEnum::BankHolidayExcepted)
    } else if name == "ServiceBrands"@ {
        Some(ReferenceCodeTypeEnum::ServiceBrands)
    } else if name == "BusinessSector"@ {
        Some(ReferenceCodeTypeEnum::BusinessSector)
    } else if name == "Catering"@ {
        Some(ReferenceCodeTypeEnum::Catering)
    } else if name == "OperatingCharacteristic"@ {
        Some(ReferenceCodeTypeEnum::OperatingCharacteristic)
    } else if name == "PowerType"@ {
        Some(ReferenceCodeTypeEnum::PowerType)
    } else if name == "Reservation"@ {
        Some(ReferenceCodeTypeEnum::Reservation)
    } else if name == "Service"@ {
        Some(ReferenceCodeTypeEnum::Service)
    } else if name == "Sleeper"@ {
        Some(ReferenceCodeTypeEnum::Sleeper)
    } else if name == "TrainClass"@ {
        Some(ReferenceCodeTypeEnum::TrainClass)
    } else if name == "TrainCategory"@ {
        Some(ReferenceCodeTypeEnum::TrainCategory)
    } else if name == "TrainOperator"@ {
        Some(ReferenceCodeTypeEnum::TrainOperator)
    } else if name == "TrainStatus"@ {
        Some(ReferenceCodeTypeEnum::TrainStatus)
    } else if name == "TrainPublicationStatus"@ {
        Some(ReferenceCodeTypeEnum::TrainPublicationStatus)
    } else if name == "ReferenceCodeTypes"@ {
        Some(ReferenceCodeTypeEnum::ReferenceCodeTypes)
    } else if name == "NetworkRailZone"@ {
        Some(ReferenceCodeTypeEnum::NetworkRailZone)
    } else {
        None
    }
}

proof fn lemma_names_read_back(c: HeaderCycleTypeEnum, r: ReferenceCodeTypeEnum)
    ensures
        cycle_type_of_name(cycle_type_name(c)) == Some(c),
        reference_type_of_name(reference_type_name(r)) == Some(r),
{
    reveal_strlit("Accomodation");
    reveal_strlit("Activities");
    reveal_strlit("BankHolidayExcepted");
    reveal_strlit("BusinessSector");
    reveal_strlit("Catering");
    reveal_strlit("Iterative");
    reveal_strlit("NetworkRailZone");
    reveal_strlit("OperatingCharacteristic");
    reveal_strlit("PowerType");
    reveal_strlit("ReferenceCodeTypes");
    reveal_strlit("Reservation");
    reveal_strlit("Service");
    reveal_strlit("ServiceBrands");
    reveal_strlit("Sleeper");
    reveal_strlit("Supplimental");
    reveal_strlit("TrainCategory");
    reveal_strlit("TrainClass");
    reveal_strlit("TrainOperator");
    reveal_strlit("TrainPublicationStatus");
    reveal_strlit("TrainStatus");
    reveal_strlit("Unknown");
    match c {
        HeaderCycleTypeEnum::Unknown => {
        },
        HeaderCycleTypeEnum::Supplimental => {
            assert("Supplimental"@.len() != "Unknown"@.len());
        },
        HeaderCycleTypeEnum::Iterative => {
            assert("Iterative"@.len() != "Unknown"@.len());
            assert("Iterative"@.len() != "Supplimental"@.len());
        },
    }
    match r {
        ReferenceCodeTypeEnum::Unknown => {
        },
        ReferenceCodeTypeEnum::Accomodation => {
            assert("Accomodation"@.len() != "Unknown"@.len());
        },
        ReferenceCodeTypeEnum::Activities => {
            assert("Activities"@.len() != "Unknown"@.len());
            assert("Activities"@.len() != "Accomodation"@.len());
        },
        ReferenceCodeTypeEnum::BankHolidayExcepted => {
            assert("BankHolidayExcepted"@.len() != "Unknown"@.len());
            assert("BankHolidayExcepted"@.len() != "Accomodation"@.len());
            assert("BankHolidayExcepted"@.len() != "Activities"@.len());
        },
        ReferenceCodeTypeEnum::ServiceBrands => {
            assert("ServiceBrands"@.len() != "Unknown"@.len());
            assert("ServiceBrands"@.len() != "Accomodation"@.len());
            assert("ServiceBrands"@.len() != "Activities"@.len());
            assert("ServiceBrands"@.len() != "BankHolidayExcepted"@.len());
        },
        ReferenceCodeTypeEnum::BusinessSector => {
            assert("BusinessSector"@.len() != "Unknown"@.len());
            assert("BusinessSector"@.len() != "Accomodation"@.len());
            assert("BusinessSector"@.len() != "Activities"@.len());
            assert("BusinessSector"@.len() != "BankHolidayExcepted"@.len());
            assert("BusinessSector"@.len() != "ServiceBrands"@.len());
        },
        ReferenceCodeTypeEnum::Catering => {
            assert("Catering"@.len() != "Unknown"@.len());
            assert("Catering"@.len() != "Accomodation"@.len());
            assert("Catering"@.len() != "Activities"@.len());
            assert("Catering"@.len() != "BankHolidayExcepted"@.len());
            assert("Catering"@.len() != "ServiceBrands"@.len());
            assert("Catering"@.len() != "BusinessSector"@.len());
        },
        ReferenceCodeTypeEnum::OperatingCharacteristic => {
            assert("OperatingCharacteristic"@.len() != "Unknown"@.len());
            assert("OperatingCharacteristic"@.len() != "Accomodation"@.len());
            assert("OperatingCharacteristic"@.len() != "Activities"@.len());
            assert("OperatingCharacteristic"@.len() != "BankHolidayExcepted"@.len());
            assert("OperatingCharacteristic"@.len() != "ServiceBrands"@.len());
            assert("OperatingCharacteristic"@.len() != "BusinessSector"@.len());
            assert("OperatingCharacteristic"@.len() != "Catering"@.len());
        },
        ReferenceCodeTypeEnum::PowerType => {
            assert("PowerType"@.len() != "Unknown"@.len());
            assert("PowerType"@.len() != "Accomodation"@.len());
            assert("PowerType"@.len() != "Activities"@.len());
            assert("PowerType"@.len() != "BankHolidayExcepted"@.len());
            assert("PowerType"@.len() != "ServiceBrands"@.len());
            assert("PowerType"@.len() != "BusinessSector"@.len());
            assert("PowerType"@.len() != "Catering"@.len());
            assert("PowerType"@.len() != "OperatingCharacteristic"@.len());
        },
        ReferenceCodeTypeEnum::Reservation => {
            assert("Reservation"@.len() != "Unknown"@.len());
            assert("Reservation"@.len() != "Accomodation"@.len());
            assert("Reservation"@.len() != "Activities"@.len());
            assert("Reservation"@.len() != "BankHolidayExcepted"@.len());
            assert("Reservation"@.len() != "ServiceBrands"@.len());
            assert("Reservation"@.len() != "BusinessSector"@.len());
            assert("Reservation"@.len() != "Catering"@.len());
            assert("Reservation"@.len() != "OperatingCharacteristic"@.len());
            assert("Reservation"@.len() != "PowerType"@.len());
        },
        ReferenceCodeTypeEnum::Service => {
            assert("Service"@[0] != "Unknown"@[0]);
            assert("Service"@.len() != "Accomodation"@.len());
            assert("Service"@.len() != "Activities"@.len());
            assert("Service"@.len() != "BankHolidayExcepted"@.len());
            assert("Service"@.len() != "ServiceBrands"@.len());
            assert("Service"@.len() != "BusinessSector"@.len());
            assert("Service"@.len() != "Catering"@.len());
            assert("Service"@.len() != "OperatingCharacteristic"@.len());
            assert("Service"@.len() != "PowerType"@.len());
            assert("Service"@.len() != "Reservation"@.len());
        },
        ReferenceCodeTypeEnum::Sleeper => {
            assert("Sleeper"@[0] != "Unknown"@[0]);
            assert("Sleeper"@.len() != "Accomodation"@.len());
            assert("Sleeper"@.len() != "Activities"@.len());
            assert("Sleeper"@.len() != "BankHolidayExcepted"@.len());
            assert("Sleeper"@.len() != "ServiceBrands"@.len());
            assert("Sleeper"@.len() != "BusinessSector"@.len());
            assert("Sleeper"@.len() != "Catering"@.len());
            assert("Sleeper"@.len() != "OperatingCharacteristic"@.len());
            assert("Sleeper"@.len() != "PowerType"@.len());
            assert("Sleeper"@.len() != "Reservation"@.len());
            assert("Sleeper"@[1] != "Service"@[1]);
        },
        ReferenceCodeTypeEnum::TrainClass => {
            assert("TrainClass"@.len() != "Unknown"@.len());
            assert("TrainClass"@.len() != "Accomodation"@.len());
            assert("TrainClass"@[0] != "Activities"@[0]);
            assert("TrainClass"@.len() != "BankHolidayExcepted"@.len());
            assert("TrainClass"@.len() != "ServiceBrands"@.len());
            assert("TrainClass"@.len() != "BusinessSector"@.len());
            assert("TrainClass"@.len() != "Catering"@.len());
            assert("TrainClass"@.len() != "OperatingCharacteristic"@.len());
            assert("TrainClass"@.len() != "PowerType"@.len());
            assert("TrainClass"@.len() != "Reservation"@.len());
            assert("TrainClass"@.len() != "Service"@.len());
            assert("TrainClass"@.len() != "Sleeper"@.len());
        },
        ReferenceCodeTypeEnum::TrainCategory => {
            assert("TrainCategory"@.len() != "Unknown"@.len());
            assert("TrainCategory"@.len() != "Accomodation"@.len());
            assert("TrainCategory"@.len() != "Activities"@.len());
            assert("TrainCategory"@.len() != "BankHolidayExcepted"@.len());
            assert("TrainCategory"@[0] != "ServiceBrands"@[0]);
            assert("TrainCategory"@.len() != "BusinessSector"@.len());
            assert("TrainCategory"@.len() != "Catering"@.len());
            assert("TrainCategory"@.len() != "OperatingCharacteristic"@.len());
            assert("TrainCategory"@.len() != "PowerType"@.len());
            assert("TrainCategory"@.len() != "Reservation"@.len());
            assert("TrainCategory"@.len() != "Service"@.len());
            assert("TrainCategory"@.len() != "Sleeper"@.len());
            assert("TrainCategory"@.len() != "TrainClass"@.len());
        },
        ReferenceCodeTypeEnum::TrainOperator => {
            assert("TrainOperator"@.len() != "Unknown"@.len());
            assert("TrainOperator"@.len() != "Accomodation"@.len());
            assert("TrainOperator"@.len() != "Activities"@.len());
            assert("TrainOperator"@.len() != "BankHolidayExcepted"@.len());
            assert("TrainOperator"@[0] != "ServiceBrands"@[0]);
            assert("TrainOperator"@.len() != "BusinessSector"@.len());
            assert("TrainOperator"@.len() != "Catering"@.len());
            assert("TrainOperator"@.len() != "OperatingCharacteristic"@.len());
            assert("TrainOperator"@.len() != "PowerType"@.len());
            assert("TrainOperator"@.len() != "Reservation"@.len());
            assert("TrainOperator"@.len() != "Service"@.len());
            assert("TrainOperator"@.len() != "Sleeper"@.len());
            assert("TrainOperator"@.len() != "TrainClass"@.len());
            assert("TrainOperator"@[5] != "TrainCategory"@[5]);
        },
        ReferenceCodeTypeEnum::TrainStatus => {
            assert("TrainStatus"@.len() != "Unknown"@.len());
            assert("TrainStatus"@.len() != "Accomodation"@.len());
            assert("TrainStatus"@.len() != "Activities"@.len());
            assert("TrainStatus"@.len() != "BankHolidayExcepted"@.len());
            assert("TrainStatus"@.len() != "ServiceBrands"@.len());
            assert("TrainStatus"@.len() != "BusinessSector"@.len());
            assert("TrainStatus"@.len() != "Catering"@.len());
            assert("TrainStatus"@.len() != "OperatingCharacteristic"@.len());
            assert("TrainStatus"@.len() != "PowerType"@.len());
            assert("TrainStatus"@[0] != "Reservation"@[0]);
            assert("TrainStatus"@.len() != "Service"@.len());
            assert("TrainStatus"@.len() != "Sleeper"@.len());
            assert("TrainStatus"@.len() != "TrainClass"@.len());
            assert("TrainStatus"@.len() != "TrainCategory"@.len());
            assert("TrainStatus"@.len() != "TrainOperator"@.len());
        },
        ReferenceCodeTypeEnum::TrainPublicationStatus => {
            assert("TrainPublicationStatus"@.len() != "Unknown"@.len());
            assert("TrainPublicationStatus"@.len() != "Accomodation"@.len());
            assert("TrainPublicationStatus"@.len() != "Activities"@.len());
            assert("TrainPublicationStatus"@.len() != "BankHolidayExcepted"@.len());
            assert("TrainPublicationStatus"@.len() != "ServiceBrands"@.len());
            assert("TrainPublicationStatus"@.len() != "BusinessSector"@.len());
            assert("TrainPublicationStatus"@.len() != "Catering"@.len());
            assert("TrainPublicationStatus"@.len() != "OperatingCharacteristic"@.len());
            assert("TrainPublicationStatus"@.len() != "PowerType"@.len());
            assert("TrainPublicationStatus"@.len() != "Reservation"@.len());
            assert("TrainPublicationStatus"@.len() != "Service"@.len());
            assert("TrainPublicationStatus"@.len() != "Sleeper"@.len());
            assert("TrainPublicationStatus"@.len() != "TrainClass"@.len());
            assert("TrainPublicationStatus"@.len() != "TrainCategory"@.len());
            assert("TrainPublicationStatus"@.len() != "TrainOperator"@.len());
            assert("TrainPublicationStatus"@.len() != "TrainStatus"@.len());
        },
        ReferenceCodeTypeEnum::ReferenceCodeTypes => {
            assert("ReferenceCodeTypes"@.len() != "Unknown"@.len());
            assert("ReferenceCodeTypes"@.len() != "Accomodation"@.len());
            assert("ReferenceCodeTypes"@.len() != "Activities"@.len());
            assert("ReferenceCodeTypes"@.len() != "BankHolidayExcepted"@.len());
            assert("ReferenceCodeTypes"@.len() != "ServiceBrands"@.len());
            assert("ReferenceCodeTypes"@.len() != "BusinessSector"@.len());
            assert("ReferenceCodeTypes"@.len() != "Catering"@.len());
            assert("ReferenceCodeTypes"@.len() != "OperatingCharacteristic"@.len());
            assert("ReferenceCodeTypes"@.len() != "PowerType"@.len());
            assert("ReferenceCodeTypes"@.len() != "Reservation"@.len());
            assert("ReferenceCodeTypes"@.len() != "Service"@.len());
            assert("ReferenceCodeTypes"@.len() != "Sleeper"@.len());
            assert("ReferenceCodeTypes"@.len() != "TrainClass"@.len());
            assert("ReferenceCodeTypes"@.len() != "TrainCategory"@.len());
            assert("ReferenceCodeTypes"@.len() != "TrainOperator"@.len());
            assert("ReferenceCodeTypes"@.len() != "TrainStatus"@.len());
            assert("ReferenceCodeTypes"@.len() != "TrainPublicationStatus"@.len());
        },
        ReferenceCodeTypeEnum::NetworkRailZone => {
            assert("NetworkRailZone"@.len() != "Unknown"@.len());
            assert("NetworkRailZone"@.len() != "Accomodation"@.len());
            assert("NetworkRailZone"@.len() != "Activities"@.len());
            assert("NetworkRailZone"@.len() != "BankHolidayExcepted"@.len());
            assert("NetworkRailZone"@.len() != "ServiceBrands"@.len());
            assert("NetworkRailZone"@.len() != "BusinessSector"@.len());
            assert("NetworkRailZone"@.len() != "Catering"@.len());
            assert("NetworkRailZone"@.len() != "OperatingCharacteristic"@.len());
            assert("NetworkRailZone"@.len() != "PowerType"@.len());
            assert("NetworkRailZone"@.len() != "Reservation"@.len());
            assert("NetworkRailZone"@.len() != "Service"@.len());
            assert("NetworkRailZone"@.len() != "Sleeper"@.len());
            assert("NetworkRailZone"@.len() != "TrainClass"@.len());
            assert("NetworkRailZone"@.len() != "TrainCategory"@.len());
            assert("NetworkRailZone"@.len() != "TrainOperator"@.len());
            assert("NetworkRailZone"@.len() != "TrainStatus"@.len());
            assert("NetworkRailZone"@.len() != "TrainPublicationStatus"@.len());
            assert("NetworkRailZone"@.len() != "ReferenceCodeTypes"@.len());
        },
    }
}

/// The stored name tells the value apart: two different cycle types, or two different
/// reference code types, never share a name. Each name reads back as its value.
pub proof fn lemma_names_distinct(
    c1: HeaderCycleTypeEnum,
    c2: HeaderCycleTypeEnum,
    r1: ReferenceCodeTypeEnum,
    r2: ReferenceCodeTypeEnum,
)
    ensures
        cycle_type_name(c1) == cycle_type_name(c2) ==> c1 == c2,
        reference_type_name(r1) == reference_type_name(r2) ==> r1 == r2,
        cycle_type_of_name(cycle_type_name(c1)) == Some(c1),
        reference_type_of_name(reference_type_name(r1)) == Some(r1),
{
    lemma_names_read_back(c1, r1);
    lemma_names_read_back(c2, r2);
}

/// Each value is stored under its own identifier, as `Debug` writes it.
pub proof fn lemma_names_are_identifiers()
    ensures
        cycle_type_name(HeaderCycleTypeEnum::Unknown) == "Unknown"@,
        cycle_type_name(HeaderCycleTypeEnum::Supplimental) == "Supplimental"@,
        cycle_type_name(HeaderCycleTypeEnum::Iterative) == "Iterative"@,
        reference_type_name(ReferenceCodeTypeEnum::Unknown) == "Unknown"@,
        reference_type_name(ReferenceCodeTypeEnum::Accomodation) == "Accomodation"@,
        reference_type_name(ReferenceCodeTypeEnum::Activities) == "Activities"@,
        reference_type_name(ReferenceCodeTypeEnum::BankHolidayExcepted) == "BankHolidayExcepted"@,
        reference_type_name(ReferenceCodeTypeEnum::ServiceBrands) == "ServiceBrands"@,
        reference_type_name(ReferenceCodeTypeEnum::BusinessSector) == "BusinessSector"@,
        reference_type_name(ReferenceCodeTypeEnum::Catering) == "Catering"@,
        reference_type_name(ReferenceCodeTypeEnum::OperatingCharacteristic) == "OperatingCharacteristic"@,
        reference_type_name(ReferenceCodeTypeEnum::PowerType) == "PowerType"@,
        reference_type_name(ReferenceCodeTypeEnum::Reservation) == "Reservation"@,
        reference_type_name(ReferenceCodeTypeEnum::Service) == "Service"@,
        reference_type_name(ReferenceCodeTypeEnum::Sleeper) == "Sleeper"@,
        reference_type_name(ReferenceCodeTypeEnum::TrainClass) == "TrainClass"@,
        reference_type_name(ReferenceCodeTypeEnum::TrainCategory) == "TrainCategory"@,
        reference_type_name(ReferenceCodeTypeEnum::TrainOperator) == "TrainOperator"@,
        reference_type_name(ReferenceCodeTypeEnum::TrainStatus) == "TrainStatus"@,
        reference_type_name(ReferenceCodeTypeEnum::TrainPublicationStatus) == "TrainPublicationStatus"@,
        reference_type_name(ReferenceCodeTypeEnum::ReferenceCodeTypes) == "ReferenceCodeTypes"@,
        reference_type_name(ReferenceCodeTypeEnum::NetworkRailZone) == "NetworkRailZone"@,
{
}

/// Each code value reads back from its code, for both code tables.
pub proof fn lemma_codes_read_back(c: HeaderCycleTypeEnum, r: ReferenceCodeTypeEnum)
    ensures
        cycle_type_of_code(cycle_type_code(c)) == Some(c),
        reference_type_of_code(reference_type_code(r)) == Some(r),
{
    reveal_strlit("Unknown");
    reveal_strlit("S");
    reveal_strlit("I");
    reveal_strlit("ACC");
    reveal_strlit("ACT");
    reveal_strlit("BHX");
    reveal_strlit("BRA");
    reveal_strlit("BUS");
    reveal_strlit("CAT");
    reveal_strlit("OPC");
    reveal_strlit("PWR");
    reveal_strlit("RES");
    reveal_strlit("SER");
    reveal_strlit("SLE");
    reveal_strlit("TCL");
    reveal_strlit("TCT");
    reveal_strlit("TOC");
    reveal_strlit("TRS");
    reveal_strlit("TST");
    reveal_strlit("REF");
    reveal_strlit("ZNE");
    match c {
        HeaderCycleTypeEnum::Unknown => {
        },
        HeaderCycleTypeEnum::Supplimental => {
            assert("S"@.len() != "Unknown"@.len());
        },
        HeaderCycleTypeEnum::Iterative => {
            assert("I"@.len() != "Unknown"@.len());
            assert("I"@[0] != "S"@[0]);
        },
    }
    match r {
        ReferenceCodeTypeEnum::Unknown => {
        },
        ReferenceCodeTypeEnum::Accomodation => {
            assert("ACC"@.len() != "Unknown"@.len());
        },
        ReferenceCodeTypeEnum::Activities => {
            assert("ACT"@.len() != "Unknown"@.len());
            assert("ACT"@[2] != "ACC"@[2]);
        },
        ReferenceCodeTypeEnum::BankHolidayExcepted => {
            assert("BHX"@.len() != "Unknown"@.len());
            assert("BHX"@[0] != "ACC"@[0]);
            assert("BHX"@[0] != "ACT"@[0]);
        },
        ReferenceCodeTypeEnum::ServiceBrands => {
            assert("BRA"@.len() != "Unknown"@.len());
            assert("BRA"@[0] != "ACC"@[0]);
            assert("BRA"@[0] != "ACT"@[0]);
            assert("BRA"@[1] != "BHX"@[1]);
        },
        ReferenceCodeTypeEnum::BusinessSector => {
            assert("BUS"@.len() != "Unknown"@.len());
            assert("BUS"@[0] != "ACC"@[0]);
            assert("BUS"@[0] != "ACT"@[0]);
            assert("BUS"@[1] != "BHX"@[1]);
            assert("BUS"@[1] != "BRA"@[1]);
        },
        ReferenceCodeTypeEnum::Catering => {
            assert("CAT"@.len() != "Unknown"@.len());
            assert("CAT"@[0] != "ACC"@[0]);
            assert("CAT"@[0] != "ACT"@[0]);
            assert("CAT"@[0] != "BHX"@[0]);
            assert("CAT"@[0] != "BRA"@[0]);
            assert("CAT"@[0] != "BUS"@[0]);
        },
        ReferenceCodeTypeEnum::OperatingCharacteristic => {
            assert("OPC"@.len() != "Unknown"@.len());
            assert("OPC"@[0] != "ACC"@[0]);
            assert("OPC"@[0] != "ACT"@[0]);
            assert("OPC"@[0] != "BHX"@[0]);
            assert("OPC"@[0] != "BRA"@[0]);
            assert("OPC"@[0] != "BUS"@[0]);
            assert("OPC"@[0] != "CAT"@[0]);
        },
        ReferenceCodeTypeEnum::PowerType => {
            assert("PWR"@.len() != "Unknown"@.len());
            assert("PWR"@[0] != "ACC"@[0]);
            assert("PWR"@[0] != "ACT"@[0]);
            assert("PWR"@[0] != "BHX"@[0]);
            assert("PWR"@[0] != "BRA"@[0]);
            assert("PWR"@[0] != "BUS"@[0]);
            assert("PWR"@[0] != "CAT"@[0]);
            assert("PWR"@[0] != "OPC"@[0]);
        },
        ReferenceCodeTypeEnum::Reservation => {
            assert("RES"@.len() != "Unknown"@.len());
            assert("RES"@[0] != "ACC"@[0]);
            assert("RES"@[0] != "ACT"@[0]);
            assert("RES"@[0] != "BHX"@[0]);
            assert("RES"@[0] != "BRA"@[0]);
            assert("RES"@[0] != "BUS"@[0]);
            assert("RES"@[0] != "CAT"@[0]);
            assert("RES"@[0] != "OPC"@[0]);
            assert("RES"@[0] != "PWR"@[0]);
        },
        ReferenceCodeTypeEnum::Service => {
            assert("SER"@.len() != "Unknown"@.len());
            assert("SER"@[0] != "ACC"@[0]);
            assert("SER"@[0] != "ACT"@[0]);
            assert("SER"@[0] != "BHX"@[0]);
            assert("SER"@[0] != "BRA"@[0]);
            assert("SER"@[0] != "BUS"@[0]);
            assert("SER"@[0] != "CAT"@[0]);
            assert("SER"@[0] != "OPC"@[0]);
            assert("SER"@[0] != "PWR"@[0]);
            assert("SER"@[0] != "RES"@[0]);
        },
        ReferenceCodeTypeEnum::Sleeper => {
            assert("SLE"@.len() != "Unknown"@.len());
            assert("SLE"@[0] != "ACC"@[0]);
            assert("SLE"@[0] != "ACT"@[0]);
            assert("SLE"@[0] != "BHX"@[0]);
            assert("SLE"@[0] != "BRA"@[0]);
            assert("SLE"@[0] != "BUS"@[0]);
            assert("SLE"@[0] != "CAT"@[0]);
            assert("SLE"@[0] != "OPC"@[0]);
            assert("SLE"@[0] != "PWR"@[0]);
            assert("SLE"@[0] != "RES"@[0]);
            assert("SLE"@[1] != "SER"@[1]);
        },
        ReferenceCodeTypeEnum::TrainClass => {
            assert("TCL"@.len() != "Unknown"@.len());
            assert("TCL"@[0] != "ACC"@[0]);
            assert("TCL"@[0] != "ACT"@[0]);
            assert("TCL"@[0] != "BHX"@[0]);
            assert("TCL"@[0] != "BRA"@[0]);
            assert("TCL"@[0] != "BUS"@[0]);
            assert("TCL"@[0] != "CAT"@[0]);
            assert("TCL"@[0] != "OPC"@[0]);
            assert("TCL"@[0] != "PWR"@[0]);
            assert("TCL"@[0] != "RES"@[0]);
            assert("TCL"@[0] != "SER"@[0]);
            assert("TCL"@[0] != "SLE"@[0]);
        },
        ReferenceCodeTypeEnum::TrainCategory => {
            assert("TCT"@.len() != "Unknown"@.len());
            assert("TCT"@[0] != "ACC"@[0]);
            assert("TCT"@[0] != "ACT"@[0]);
            assert("TCT"@[0] != "BHX"@[0]);
            assert("TCT"@[0] != "BRA"@[0]);
            assert("TCT"@[0] != "BUS"@[0]);
            assert("TCT"@[0] != "CAT"@[0]);
            assert("TCT"@[0] != "OPC"@[0]);
            assert("TCT"@[0] != "PWR"@[0]);
            assert("TCT"@[0] != "RES"@[0]);
            assert("TCT"@[0] != "SER"@[0]);
            assert("TCT"@[0] != "SLE"@[0]);
            assert("TCT"@[2] != "TCL"@[2]);
        },
        ReferenceCodeTypeEnum::TrainOperator => {
            assert("TOC"@.len() != "Unknown"@.len());
            assert("TOC"@[0] != "ACC"@[0]);
            assert("TOC"@[0] != "ACT"@[0]);
            assert("TOC"@[0] != "BHX"@[0]);
            assert("TOC"@[0] != "BRA"@[0]);
            assert("TOC"@[0] != "BUS"@[0]);
            assert("TOC"@[0] != "CAT"@[0]);
            assert("TOC"@[0] != "OPC"@[0]);
            assert("TOC"@[0] != "PWR"@[0]);
            assert("TOC"@[0] != "RES"@[0]);
            assert("TOC"@[0] != "SER"@[0]);
            assert("TOC"@[0] != "SLE"@[0]);
            assert("TOC"@[1] != "TCL"@[1]);
            assert("TOC"@[1] != "TCT"@[1]);
        },
        ReferenceCodeTypeEnum::TrainStatus => {
            assert("TRS"@.len() != "Unknown"@.len());
            assert("TRS"@[0] != "ACC"@[0]);
            assert("TRS"@[0] != "ACT"@[0]);
            assert("TRS"@[0] != "BHX"@[0]);
            assert("TRS"@[0] != "BRA"@[0]);
            assert("TRS"@[0] != "BUS"@[0]);
            assert("TRS"@[0] != "CAT"@[0]);
            assert("TRS"@[0] != "OPC"@[0]);
            assert("TRS"@[0] != "PWR"@[0]);
            assert("TRS"@[0] != "RES"@[0]);
            assert("TRS"@[0] != "SER"@[0]);
            assert("TRS"@[0] != "SLE"@[0]);
            assert("TRS"@[1] != "TCL"@[1]);
            assert("TRS"@[1] != "TCT"@[1]);
            assert("TRS"@[1] != "TOC"@[1]);
        },
        ReferenceCodeTypeEnum::TrainPublicationStatus => {
            assert("TST"@.len() != "Unknown"@.len());
            assert("TST"@[0] != "ACC"@[0]);
            assert("TST"@[0] != "ACT"@[0]);
            assert("TST"@[0] != "BHX"@[0]);
            assert("TST"@[0] != "BRA"@[0]);
            assert("TST"@[0] != "BUS"@[0]);
            assert("TST"@[0] != "CAT"@[0]);
            assert("TST"@[0] != "OPC"@[0]);
            assert("TST"@[0] != "PWR"@[0]);
            assert("TST"@[0] != "RES"@[0]);
            assert("TST"@[0] != "SER"@[0]);
            assert("TST"@[0] != "SLE"@[0]);
            assert("TST"@[1] != "TCL"@[1]);
            assert("TST"@[1] != "TCT"@[1]);
            assert("TST"@[1] != "TOC"@[1]);
            assert("TST"@[1] != "TRS"@[1]);
        },
        ReferenceCodeTypeEnum::ReferenceCodeTypes => {
            assert("REF"@.len() != "Unknown"@.len());
            assert("REF"@[0] != "ACC"@[0]);
            assert("REF"@[0] != "ACT"@[0]);
            assert("REF"@[0] != "BHX"@[0]);
            assert("REF"@[0] != "BRA"@[0]);
            assert("REF"@[0] != "BUS"@[0]);
            assert("REF"@[0] != "CAT"@[0]);
            assert("REF"@[0] != "OPC"@[0]);
            assert("REF"@[0] != "PWR"@[0]);
            assert("REF"@[2] != "RES"@[2]);
            assert("REF"@[0] != "SER"@[0]);
            assert("REF"@[0] != "SLE"@[0]);
            assert("REF"@[0] != "TCL"@[0]);
            assert("REF"@[0] != "TCT"@[0]);
            assert("REF"@[0] != "TOC"@[0]);
            assert("REF"@[0] != "TRS"@[0]);
            assert("REF"@[0] != "TST"@[0]);
        },
        ReferenceCodeTypeEnum::NetworkRailZone => {
            assert("ZNE"@.len() != "Unknown"@.len());
            assert("ZNE"@[0] != "ACC"@[0]);
            assert("ZNE"@[0] != "ACT"@[0]);
            assert("ZNE"@[0] != "BHX"@[0]);
            assert("ZNE"@[0] != "BRA"@[0]);
            assert("ZNE"@[0] != "BUS"@[0]);
            assert("ZNE"@[0] != "CAT"@[0]);
            assert("ZNE"@[0] != "OPC"@[0]);
            assert("ZNE"@[0] != "PWR"@[0]);
            assert("ZNE"@[0] != "RES"@[0]);
            assert("ZNE"@[0] != "SER"@[0]);
            assert("ZNE"@[0] != "SLE"@[0]);
            assert("ZNE"@[0] != "TCL"@[0]);
            assert("ZNE"@[0] != "TCT"@[0]);
            assert("ZNE"@[0] != "TOC"@[0]);
            assert("ZNE"@[0] != "TRS"@[0]);
            assert("ZNE"@[0] != "TST"@[0]);
            assert("ZNE"@[0] != "REF"@[0]);
        },
    }
}

} // verus!
