//! CIF schedule extracts: reading the fixed-width records of a line.
use vstd::prelude::*;
use vstd::slice::slice_subrange;
use vstd::utf8::{decode_utf8, valid_utf8};
use crate::decimal::{parse_i64, spec_parse_i64};
use crate::text::{chars_of, string_of, trim, trim_chars};
use vstd::utf8::is_char_boundary;
use vstd::string::StringSliceAdditionalSpecFns;
use crate::schema::Location;

verus! {

/// The text of `b` if it is valid UTF-8 (`std::str::from_utf8`).
#[verifier::external_body]
fn utf8_text(b: &[u8]) -> (r: Option<String>)
    ensures
        r is Some <==> valid_utf8(b@),
        r matches Some(s) ==> s@ == decode_utf8(b@),
{
    match std::str::from_utf8(b) {
        Ok(s) => Some(s.to_string()),
        Err(_) => None,
    }
}

/// The field at bytes `start..end` of a record: present when the line reaches `end` and
/// the bytes are UTF-8, and then its text with surrounding whitespace trimmed.
pub open spec fn field_text(b: Seq<u8>, start: int, end: int) -> Option<Seq<char>> {
    if end <= b.len() && valid_utf8(b.subrange(start, end)) {
        Some(trim(decode_utf8(b.subrange(start, end))))
    } else {
        None
    }
}

/// An optional field: absent when its text is empty.
pub open spec fn opt_text(t: Seq<char>) -> Option<Seq<char>> {
    if t.len() == 0 {
        None
    } else {
        Some(t)
    }
}

/// An optional numeric field: `Some(None)` when blank, `Some(Some(v))` when its text
/// reads as the `i64` `v`, `None` when the field cannot be read.
pub open spec fn int_field_text(b: Seq<u8>, start: int, end: int) -> Option<Option<i64>> {
    match field_text(b, start, end) {
        None => None,
        Some(t) => if t.len() == 0 {
            Some(None)
        } else {
            match spec_parse_i64(t) {
                Some(v) => Some(Some(v)),
                None => None,
            }
        },
    }
}

/// Reads the text field at bytes `start..end`.
fn text_field(b: &[u8], start: usize, end: usize) -> (r: Option<String>)
    requires
        start <= end,
    ensures
        r.deep_view() == field_text(b@, start as int, end as int),
{
    if end > b.len() {
        return None;
    }
    match utf8_text(slice_subrange(b, start, end)) {
        None => None,
        Some(raw) => {
            let cs = chars_of(raw.as_str());
            let t = trim_chars(cs.as_slice());
            Some(string_of(t.as_slice()))
        },
    }
}

/// Reads the optional text field at bytes `start..end`.
fn opt_field(b: &[u8], start: usize, end: usize) -> (r: Option<Option<String>>)
    requires
        start <= end,
    ensures
        r is Some <==> field_text(b@, start as int, end as int) is Some,
        r matches Some(o) ==> o.deep_view() == opt_text(field_text(b@, start as int, end as int)->0),
{
    match text_field(b, start, end) {
        None => None,
        Some(t) => if t.as_str().is_empty() {
            Some(None)
        } else {
            Some(Some(t))
        },
    }
}

/// Reads the optional numeric field at bytes `start..end`.
fn int_field(b: &[u8], start: usize, end: usize) -> (r: Option<Option<i64>>)
    requires
        start <= end,
    ensures
        r == int_field_text(b@, start as int, end as int),
{
    match text_field(b, start, end) {
        None => None,
        Some(t) => if t.as_str().is_empty() {
            Some(None)
        } else {
            let cs = chars_of(t.as_str());
            match parse_i64(cs.as_slice()) {
                Some(v) => Some(Some(v)),
                None => None,
            }
        },
    }
}

/// The header record (`HD`) of a CIF extract.
#[derive(Debug, Clone)]
pub struct CIFHeader {
    pub mainframe_identity: String,
    pub extract_date: String,
    pub extract_time: String,
    pub current_file_reference: String,
    pub last_file_reference: String,
    pub update_indicator: String,
    pub version: String,
    pub start_date: String,
    pub end_date: String,
}

/// Every field of a `CIFHeader` can be read from the record bytes.
pub open spec fn header_ok(b: Seq<u8>) -> bool {
    &&& field_text(b, 2, 20) is Some
    &&& field_text(b, 20, 26) is Some
    &&& field_text(b, 26, 30) is Some
    &&& field_text(b, 30, 37) is Some
    &&& field_text(b, 37, 44) is Some
    &&& field_text(b, 44, 45) is Some
    &&& field_text(b, 45, 46) is Some
    &&& field_text(b, 46, 52) is Some
    &&& field_text(b, 52, 58) is Some
}

/// The record holds every field as read from the record bytes.
pub open spec fn header_fields(r: CIFHeader, b: Seq<u8>) -> bool {
    &&& r.mainframe_identity@ == field_text(b, 2, 20)->0
    &&& r.extract_date@ == field_text(b, 20, 26)->0
    &&& r.extract_time@ == field_text(b, 26, 30)->0
    &&& r.current_file_reference@ == field_text(b, 30, 37)->0
    &&& r.last_file_reference@ == field_text(b, 37, 44)->0
    &&& r.update_indicator@ == field_text(b, 44, 45)->0
    &&& r.version@ == field_text(b, 45, 46)->0
    &&& r.start_date@ == field_text(b, 46, 52)->0
    &&& r.end_date@ == field_text(b, 52, 58)->0
}

/// Reads a `CIFHeader` from the bytes of a record line; `None` where a field lies beyond
/// the line, is not UTF-8, or (for a number) does not read as one.
pub fn parse_header(b: &[u8]) -> (r: Option<CIFHeader>)
    ensures
        r is Some <==> header_ok(b@),
        r matches Some(x) ==> header_fields(x, b@),
{
    let mainframe_identity = match text_field(b, 2, 20) {
        Some(v) => v,
        None => return None,
    };
    let extract_date = match text_field(b, 20, 26) {
        Some(v) => v,
        None => return None,
    };
    let extract_time = match text_field(b, 26, 30) {
        Some(v) => v,
        None => return None,
    };
    let current_file_reference = match text_field(b, 30, 37) {
        Some(v) => v,
        None => return None,
    };
    let last_file_reference = match text_field(b, 37, 44) {
        Some(v) => v,
        None => return None,
    };
    let update_indicator = match text_field(b, 44, 45) {
        Some(v) => v,
        None => return None,
    };
    let version = match text_field(b, 45, 46) {
        Some(v) => v,
        None => return None,
    };
    let start_date = match text_field(b, 46, 52) {
        Some(v) => v,
        None => return None,
    };
    let end_date = match text_field(b, 52, 58) {
        Some(v) => v,
        None => return None,
    };
    Some(CIFHeader {
        mainframe_identity,
        extract_date,
        extract_time,
        current_file_reference,
        last_file_reference,
        update_indicator,
        version,
        start_date,
        end_date,
    })
}

/// A basic schedule record (`BS`): the start of a train schedule.
#[derive(Debug, Clone)]
pub struct CIFBasicSchedule {
    pub transaction_type: String,
    pub train_uid: String,
    pub date_from: String,
    pub date_to: Option<String>,
    pub days_run: Option<String>,
    pub bank_holiday_running: Option<String>,
    pub train_status: Option<String>,
    pub train_category: Option<String>,
    pub train_identity: Option<String>,
    pub train_headcode: Option<String>,
    pub course_indicator: String,
    pub train_service_code: Option<String>,
    pub portion: Option<String>,
    pub power_type: Option<String>,
    pub timing_load: String,
    pub speed: Option<String>,
    pub operating_characteristic: Option<String>,
    pub seating_class: Option<String>,
    pub sleepers: Option<String>,
    pub reservations: Option<String>,
    pub connection_indicator: Option<String>,
    pub catering_code: Option<String>,
    pub service_branding: Option<String>,
    pub stp_indicator: String,
}

/// Every field of a `CIFBasicSchedule` can be read from the record bytes.
pub open spec fn basic_schedule_ok(b: Seq<u8>) -> bool {
    &&& field_text(b, 2, 3) is Some
    &&& field_text(b, 3, 9) is Some
    &&& field_text(b, 9, 15) is Some
    &&& field_text(b, 15, 21) is Some
    &&& field_text(b, 21, 28) is Some
    &&& field_text(b, 28, 29) is Some
    &&& field_text(b, 29, 30) is Some
    &&& field_text(b, 30, 32) is Some
    &&& field_text(b, 32, 36) is Some
    &&& field_text(b, 36, 40) is Some
    &&& field_text(b, 40, 41) is Some
    &&& field_text(b, 41, 49) is Some
    &&& field_text(b, 49, 50) is Some
    &&& field_text(b, 50, 53) is Some
    &&& field_text(b, 53, 57) is Some
    &&& field_text(b, 57, 60) is Some
    &&& field_text(b, 60, 66) is Some
    &&& field_text(b, 66, 67) is Some
    &&& field_text(b, 67, 68) is Some
    &&& field_text(b, 68, 69) is Some
    &&& field_text(b, 69, 70) is Some
    &&& field_text(b, 70, 73) is Some
    &&& field_text(b, 73, 77) is Some
    &&& field_text(b, 79, 80) is Some
}

/// The record holds every field as read from the record bytes.
pub open spec fn basic_schedule_fields(r: CIFBasicSchedule, b: Seq<u8>) -> bool {
    &&& r.transaction_type@ == field_text(b, 2, 3)->0
    &&& r.train_uid@ == field_text(b, 3, 9)->0
    &&& r.date_from@ == field_text(b, 9, 15)->0
    &&& r.date_to.deep_view() == opt_text(field_text(b, 15, 21)->0)
    &&& r.days_run.deep_view() == opt_text(field_text(b, 21, 28)->0)
    &&& r.bank_holiday_running.deep_view() == opt_text(field_text(b, 28, 29)->0)
    &&& r.train_status.deep_view() == opt_text(field_text(b, 29, 30)->0)
    &&& r.train_category.deep_view() == opt_text(field_text(b, 30, 32)->0)
    &&& r.train_identity.deep_view() == opt_text(field_text(b, 32, 36)->0)
    &&& r.train_headcode.deep_view() == opt_text(field_text(b, 36, 40)->0)
    &&& r.course_indicator@ == field_text(b, 40, 41)->0
    &&& r.train_service_code.deep_view() == opt_text(field_text(b, 41, 49)->0)
    &&& r.portion.deep_view() == opt_text(field_text(b, 49, 50)->0)
    &&& r.power_type.deep_view() == opt_text(field_text(b, 50, 53)->0)
    &&& r.timing_load@ == field_text(b, 53, 57)->0
    &&& r.speed.deep_view() == opt_text(field_text(b, 57, 60)->0)
    &&& r.operating_characteristic.deep_view() == opt_text(field_text(b, 60, 66)->0)
    &&& r.seating_class.deep_view() == opt_text(field_text(b, 66, 67)->0)
    &&& r.sleepers.deep_view() == opt_text(field_text(b, 67, 68)->0)
    &&& r.reservations.deep_view() == opt_text(field_text(b, 68, 69)->0)
    &&& r.connection_indicator.deep_view() == opt_text(field_text(b, 69, 70)->0)
    &&& r.catering_code.deep_view() == opt_text(field_text(b, 70, 73)->0)
    &&& r.service_branding.deep_view() == opt_text(field_text(b, 73, 77)->0)
    &&& r.stp_indicator@ == field_text(b, 79, 80)->0
}

/// Reads a `CIFBasicSchedule` from the bytes of a record line; `None` where a field lies beyond
/// the line, is not UTF-8, or (for a number) does not read as one.
pub fn parse_basic_schedule(b: &[u8]) -> (r: Option<CIFBasicSchedule>)
    ensures
        r is Some <==> basic_schedule_ok(b@),
        r matches Some(x) ==> basic_schedule_fields(x, b@),
{
    let transaction_type = match text_field(b, 2, 3) {
        Some(v) => v,
        None => return None,
    };
    let train_uid = match text_field(b, 3, 9) {
        Some(v) => v,
        None => return None,
    };
    let date_from = match text_field(b, 9, 15) {
        Some(v) => v,
        None => return None,
    };
    let date_to = match opt_field(b, 15, 21) {
        Some(v) => v,
        None => return None,
    };
    let days_run = match opt_field(b, 21, 28) {
        Some(v) => v,
        None => return None,
    };
    let bank_holiday_running = match opt_field(b, 28, 29) {
        Some(v) => v,
        None => return None,
    };
    let train_status = match opt_field(b, 29, 30) {
        Some(v) => v,
        None => return None,
    };
    let train_category = match opt_field(b, 30, 32) {
        Some(v) => v,
        None => return None,
    };
    let train_identity = match opt_field(b, 32, 36) {
        Some(v) => v,
        None => return None,
    };
    let train_headcode = match opt_field(b, 36, 40) {
        Some(v) => v,
        None => return None,
    };
    let course_indicator = match text_field(b, 40, 41) {
        Some(v) => v,
        None => return None,
    };
    let train_service_code = match opt_field(b, 41, 49) {
        Some(v) => v,
        None => return None,
    };
    let portion = match opt_field(b, 49, 50) {
        Some(v) => v,
        None => return None,
    };
    let power_type = match opt_field(b, 50, 53) {
        Some(v) => v,
        None => return None,
    };
    let timing_load = match text_field(b, 53, 57) {
        Some(v) => v,
        None => return None,
    };
    let speed = match opt_field(b, 57, 60) {
        Some(v) => v,
        None => return None,
    };
    let operating_characteristic = match opt_field(b, 60, 66) {
        Some(v) => v,
        None => return None,
    };
    let seating_class = match opt_field(b, 66, 67) {
        Some(v) => v,
        None => return None,
    };
    let sleepers = match opt_field(b, 67, 68) {
        Some(v) => v,
        None => return None,
    };
    let reservations = match opt_field(b, 68, 69) {
        Some(v) => v,
        None => return None,
    };
    let connection_indicator = match opt_field(b, 69, 70) {
        Some(v) => v,
        None => return None,
    };
    let catering_code = match opt_field(b, 70, 73) {
        Some(v) => v,
        None => return None,
    };
    let service_branding = match opt_field(b, 73, 77) {
        Some(v) => v,
        None => return None,
    };
    let stp_indicator = match text_field(b, 79, 80) {
        Some(v) => v,
        None => return None,
    };
    Some(CIFBasicSchedule {
        transaction_type,
        train_uid,
        date_from,
        date_to,
        days_run,
        bank_holiday_running,
        train_status,
        train_category,
        train_identity,
        train_headcode,
        course_indicator,
        train_service_code,
        portion,
        power_type,
        timing_load,
        speed,
        operating_characteristic,
        seating_class,
        sleepers,
        reservations,
        connection_indicator,
        catering_code,
        service_branding,
        stp_indicator,
    })
}

/// The extra details of a basic schedule (`BX`).
#[derive(Debug, Clone)]
pub struct CIFBasicScheduleExtended {
    pub traction_class: Option<String>,
    pub uic_code: Option<i64>,
    pub atoc_code: String,
    pub performance_monitoring: String,
}

/// Every field of a `CIFBasicScheduleExtended` can be read from the record bytes.
pub open spec fn basic_schedule_extended_ok(b: Seq<u8>) -> bool {
    &&& field_text(b, 2, 6) is Some
    &&& int_field_text(b, 6, 11) is Some
    &&& field_text(b, 11, 13) is Some
    &&& field_text(b, 13, 14) is Some
}

/// The record holds every field as read from the record bytes.
pub open spec fn basic_schedule_extended_fields(r: CIFBasicScheduleExtended, b: Seq<u8>) -> bool {
    &&& r.traction_class.deep_view() == opt_text(field_text(b, 2, 6)->0)
    &&& Some(r.uic_code) == int_field_text(b, 6, 11)
    &&& r.atoc_code@ == field_text(b, 11, 13)->0
    &&& r.performance_monitoring@ == field_text(b, 13, 14)->0
}

/// Reads a `CIFBasicScheduleExtended` from the bytes of a record line; `None` where a field lies beyond
/// the line, is not UTF-8, or (for a number) does not read as one.
pub fn parse_basic_schedule_extended(b: &[u8]) -> (r: Option<CIFBasicScheduleExtended>)
    ensures
        r is Some <==> basic_schedule_extended_ok(b@),
        r matches Some(x) ==> basic_schedule_extended_fields(x, b@),
{
    let traction_class = match opt_field(b, 2, 6) {
        Some(v) => v,
        None => return None,
    };
    let uic_code = match int_field(b, 6, 11) {
        Some(v) => v,
        None => return None,
    };
    let atoc_code = match text_field(b, 11, 13) {
        Some(v) => v,
        None => return None,
    };
    let performance_monitoring = match text_field(b, 13, 14) {
        Some(v) => v,
        None => return None,
    };
    Some(CIFBasicScheduleExtended {
        traction_class,
        uic_code,
        atoc_code,
        performance_monitoring,
    })
}

/// The origin location record (`LO`) of a schedule.
#[derive(Debug, Clone)]
pub struct CIFOriginLocation {
    pub location: String,
    pub scheduled_departure_time: String,
    pub public_departure_time: String,
    pub platform: Option<String>,
    pub line: Option<String>,
    pub engineering_allowance: Option<String>,
    pub pathing_allowance: Option<String>,
    pub activity: String,
    pub performance_allowance: Option<String>,
}

/// Every field of a `CIFOriginLocation` can be read from the record bytes.
pub open spec fn origin_location_ok(b: Seq<u8>) -> bool {
    &&& field_text(b, 2, 10) is Some
    &&& field_text(b, 10, 15) is Some
    &&& field_text(b, 15, 19) is Some
    &&& field_text(b, 19, 21) is Some
    &&& field_text(b, 21, 24) is Some
    &&& field_text(b, 24, 26) is Some
    &&& field_text(b, 26, 28) is Some
    &&& field_text(b, 28, 40) is Some
    &&& field_text(b, 40, 42) is Some
}

/// The record holds every field as read from the record bytes.
pub open spec fn origin_location_fields(r: CIFOriginLocation, b: Seq<u8>) -> bool {
    &&& r.location@ == field_text(b, 2, 10)->0
    &&& r.scheduled_departure_time@ == field_text(b, 10, 15)->0
    &&& r.public_departure_time@ == field_text(b, 15, 19)->0
    &&& r.platform.deep_view() == opt_text(field_text(b, 19, 21)->0)
    &&& r.line.deep_view() == opt_text(field_text(b, 21, 24)->0)
    &&& r.engineering_allowance.deep_view() == opt_text(field_text(b, 24, 26)->0)
    &&& r.pathing_allowance.deep_view() == opt_text(field_text(b, 26, 28)->0)
    &&& r.activity@ == field_text(b, 28, 40)->0
    &&& r.performance_allowance.deep_view() == opt_text(field_text(b, 40, 42)->0)
}

/// The record holds every field but the location as read from the record bytes.
pub open spec fn origin_location_fields_but_location(r: CIFOriginLocation, b: Seq<u8>) -> bool {
    &&& r.scheduled_departure_time@ == field_text(b, 10, 15)->0
    &&& r.public_departure_time@ == field_text(b, 15, 19)->0
    &&& r.platform.deep_view() == opt_text(field_text(b, 19, 21)->0)
    &&& r.line.deep_view() == opt_text(field_text(b, 21, 24)->0)
    &&& r.engineering_allowance.deep_view() == opt_text(field_text(b, 24, 26)->0)
    &&& r.pathing_allowance.deep_view() == opt_text(field_text(b, 26, 28)->0)
    &&& r.activity@ == field_text(b, 28, 40)->0
    &&& r.performance_allowance.deep_view() == opt_text(field_text(b, 40, 42)->0)
}

/// Reads a `CIFOriginLocation` from the bytes of a record line; `None` where a field lies beyond
/// the line, is not UTF-8, or (for a number) does not read as one.
pub fn parse_origin_location(b: &[u8]) -> (r: Option<CIFOriginLocation>)
    ensures
        r is Some <==> origin_location_ok(b@),
        r matches Some(x) ==> origin_location_fields(x, b@),
{
    let location = match text_field(b, 2, 10) {
        Some(v) => v,
        None => return None,
    };
    let scheduled_departure_time = match text_field(b, 10, 15) {
        Some(v) => v,
        None => return None,
    };
    let public_departure_time = match text_field(b, 15, 19) {
        Some(v) => v,
        None => return None,
    };
    let platform = match opt_field(b, 19, 21) {
        Some(v) => v,
        None => return None,
    };
    let line = match opt_field(b, 21, 24) {
        Some(v) => v,
        None => return None,
    };
    let engineering_allowance = match opt_field(b, 24, 26) {
        Some(v) => v,
        None => return None,
    };
    let pathing_allowance = match opt_field(b, 26, 28) {
        Some(v) => v,
        None => return None,
    };
    let activity = match text_field(b, 28, 40) {
        Some(v) => v,
        None => return None,
    };
    let performance_allowance = match opt_field(b, 40, 42) {
        Some(v) => v,
        None => return None,
    };
    Some(CIFOriginLocation {
        location,
        scheduled_departure_time,
        public_departure_time,
        platform,
        line,
        engineering_allowance,
        pathing_allowance,
        activity,
        performance_allowance,
    })
}

/// An intermediate location record (`LI`) of a schedule.
#[derive(Debug, Clone)]
pub struct CIFIntermediateLocation {
    pub location: String,
    pub scheduled_arrival_time: Option<String>,
    pub scheduled_departure_time: Option<String>,
    pub scheduled_pass_time: Option<String>,
    pub public_arrival_time: String,
    pub public_departure_time: String,
    pub platform: Option<String>,
    pub line: Option<String>,
    pub path: Option<String>,
    pub activity: Option<String>,
    pub engineering_allowance: Option<String>,
    pub pathing_allowance: Option<String>,
    pub performance_allowance: Option<String>,
}

/// Every field of a `CIFIntermediateLocation` can be read from the record bytes.
pub open spec fn intermediate_location_ok(b: Seq<u8>) -> bool {
    &&& field_text(b, 2, 10) is Some
    &&& field_text(b, 10, 15) is Some
    &&& field_text(b, 15, 20) is Some
    &&& field_text(b, 20, 25) is Some
    &&& field_text(b, 25, 29) is Some
    &&& field_text(b, 29, 33) is Some
    &&& field_text(b, 33, 36) is Some
    &&& field_text(b, 36, 39) is Some
    &&& field_text(b, 39, 42) is Some
    &&& field_text(b, 42, 54) is Some
    &&& field_text(b, 54, 56) is Some
    &&& field_text(b, 56, 58) is Some
    &&& field_text(b, 58, 60) is Some
}

/// The record holds every field as read from the record bytes.
pub open spec fn intermediate_location_fields(r: CIFIntermediateLocation, b: Seq<u8>) -> bool {
    &&& r.location@ == field_text(b, 2, 10)->0
    &&& r.scheduled_arrival_time.deep_view() == opt_text(field_text(b, 10, 15)->0)
    &&& r.scheduled_departure_time.deep_view() == opt_text(field_text(b, 15, 20)->0)
    &&& r.scheduled_pass_time.deep_view() == opt_text(field_text(b, 20, 25)->0)
    &&& r.public_arrival_time@ == field_text(b, 25, 29)->0
    &&& r.public_departure_time@ == field_text(b, 29, 33)->0
    &&& r.platform.deep_view() == opt_text(field_text(b, 33, 36)->0)
    &&& r.line.deep_view() == opt_text(field_text(b, 36, 39)->0)
    &&& r.path.deep_view() == opt_text(field_text(b, 39, 42)->0)
    &&& r.activity.deep_view() == opt_text(field_text(b, 42, 54)->0)
    &&& r.engineering_allowance.deep_view() == opt_text(field_text(b, 54, 56)->0)
    &&& r.pathing_allowance.deep_view() == opt_text(field_text(b, 56, 58)->0)
    &&& r.performance_allowance.deep_view() == opt_text(field_text(b, 58, 60)->0)
}

/// The record holds every field but the location as read from the record bytes.
pub open spec fn intermediate_location_fields_but_location(r: CIFIntermediateLocation, b: Seq<u8>) -> bool {
    &&& r.scheduled_arrival_time.deep_view() == opt_text(field_text(b, 10, 15)->0)
    &&& r.scheduled_departure_time.deep_view() == opt_text(field_text(b, 15, 20)->0)
    &&& r.scheduled_pass_time.deep_view() == opt_text(field_text(b, 20, 25)->0)
    &&& r.public_arrival_time@ == field_text(b, 25, 29)->0
    &&& r.public_departure_time@ == field_text(b, 29, 33)->0
    &&& r.platform.deep_view() == opt_text(field_text(b, 33, 36)->0)
    &&& r.line.deep_view() == opt_text(field_text(b, 36, 39)->0)
    &&& r.path.deep_view() == opt_text(field_text(b, 39, 42)->0)
    &&& r.activity.deep_view() == opt_text(field_text(b, 42, 54)->0)
    &&& r.engineering_allowance.deep_view() == opt_text(field_text(b, 54, 56)->0)
    &&& r.pathing_allowance.deep_view() == opt_text(field_text(b, 56, 58)->0)
    &&& r.performance_allowance.deep_view() == opt_text(field_text(b, 58, 60)->0)
}

/// Reads a `CIFIntermediateLocation` from the bytes of a record line; `None` where a field lies beyond
/// the line, is not UTF-8, or (for a number) does not read as one.
pub fn parse_intermediate_location(b: &[u8]) -> (r: Option<CIFIntermediateLocation>)
    ensures
        r is Some <==> intermediate_location_ok(b@),
        r matches Some(x) ==> intermediate_location_fields(x, b@),
{
    let location = match text_field(b, 2, 10) {
        Some(v) => v,
        None => return None,
    };
    let scheduled_arrival_time = match opt_field(b, 10, 15) {
        Some(v) => v,
        None => return None,
    };
    let scheduled_departure_time = match opt_field(b, 15, 20) {
        Some(v) => v,
        None => return None,
    };
    let scheduled_pass_time = match opt_field(b, 20, 25) {
        Some(v) => v,
        None => return None,
    };
    let public_arrival_time = match text_field(b, 25, 29) {
        Some(v) => v,
        None => return None,
    };
    let public_departure_time = match text_field(b, 29, 33) {
        Some(v) => v,
        None => return None,
    };
    let platform = match opt_field(b, 33, 36) {
        Some(v) => v,
        None => return None,
    };
    let line = match opt_field(b, 36, 39) {
        Some(v) => v,
        None => return None,
    };
    let path = match opt_field(b, 39, 42) {
        Some(v) => v,
        None => return None,
    };
    let activity = match opt_field(b, 42, 54) {
        Some(v) => v,
        None => return None,
    };
    let engineering_allowance = match opt_field(b, 54, 56) {
        Some(v) => v,
        None => return None,
    };
    let pathing_allowance = match opt_field(b, 56, 58) {
        Some(v) => v,
        None => return None,
    };
    let performance_allowance = match opt_field(b, 58, 60) {
        Some(v) => v,
        None => return None,
    };
    Some(CIFIntermediateLocation {
        location,
        scheduled_arrival_time,
        scheduled_departure_time,
        scheduled_pass_time,
        public_arrival_time,
        public_departure_time,
        platform,
        line,
        path,
        activity,
        engineering_allowance,
        pathing_allowance,
        performance_allowance,
    })
}

/// The terminating location record (`LT`) of a schedule.
#[derive(Debug, Clone)]
pub struct CIFTerminatingLocation {
    pub location: String,
    pub scheduled_arrival_time: String,
    pub public_arrival_time: String,
    pub platform: Option<String>,
    pub path: Option<String>,
    pub activity: String,
}

/// Every field of a `CIFTerminatingLocation` can be read from the record bytes.
pub open spec fn terminating_location_ok(b: Seq<u8>) -> bool {
    &&& field_text(b, 2, 10) is Some
    &&& field_text(b, 10, 15) is Some
    &&& field_text(b, 15, 19) is Some
    &&& field_text(b, 19, 21) is Some
    &&& field_text(b, 21, 24) is Some
    &&& field_text(b, 24, 36) is Some
}

/// The record holds every field as read from the record bytes.
pub open spec fn terminating_location_fields(r: CIFTerminatingLocation, b: Seq<u8>) -> bool {
    &&& r.location@ == field_text(b, 2, 10)->0
    &&& r.scheduled_arrival_time@ == field_text(b, 10, 15)->0
    &&& r.public_arrival_time@ == field_text(b, 15, 19)->0
    &&& r.platform.deep_view() == opt_text(field_text(b, 19, 21)->0)
    &&& r.path.deep_view() == opt_text(field_text(b, 21, 24)->0)
    &&& r.activity@ == field_text(b, 24, 36)->0
}

/// The record holds every field but the location as read from the record bytes.
pub open spec fn terminating_location_fields_but_location(r: CIFTerminatingLocation, b: Seq<u8>) -> bool {
    &&& r.scheduled_arrival_time@ == field_text(b, 10, 15)->0
    &&& r.public_arrival_time@ == field_text(b, 15, 19)->0
    &&& r.platform.deep_view() == opt_text(field_text(b, 19, 21)->0)
    &&& r.path.deep_view() == opt_text(field_text(b, 21, 24)->0)
    &&& r.activity@ == field_text(b, 24, 36)->0
}

/// Reads a `CIFTerminatingLocation` from the bytes of a record line; `None` where a field lies beyond
/// the line, is not UTF-8, or (for a number) does not read as one.
pub fn parse_terminating_location(b: &[u8]) -> (r: Option<CIFTerminatingLocation>)
    ensures
        r is Some <==> terminating_location_ok(b@),
        r matches Some(x) ==> terminating_location_fields(x, b@),
{
    let location = match text_field(b, 2, 10) {
        Some(v) => v,
        None => return None,
    };
    let scheduled_arrival_time = match text_field(b, 10, 15) {
        Some(v) => v,
        None => return None,
    };
    let public_arrival_time = match text_field(b, 15, 19) {
        Some(v) => v,
        None => return None,
    };
    let platform = match opt_field(b, 19, 21) {
        Some(v) => v,
        None => return None,
    };
    let path = match opt_field(b, 21, 24) {
        Some(v) => v,
        None => return None,
    };
    let activity = match text_field(b, 24, 36) {
        Some(v) => v,
        None => return None,
    };
    Some(CIFTerminatingLocation {
        location,
        scheduled_arrival_time,
        public_arrival_time,
        platform,
        path,
        activity,
    })
}
/// The uic of each tiploc, in the order they were added; a later entry for a tiploc
/// replaces an earlier one.
pub struct TiplocTable {
    pub entries: Vec<(String, String)>,
}

impl View for TiplocTable {
    type V = Seq<(Seq<char>, Seq<char>)>;

    open spec fn view(&self) -> Seq<(Seq<char>, Seq<char>)> {
        self.entries@.map_values(|e: (String, String)| (e.0@, e.1@))
    }
}

/// The uic that the last entry for `key` gives.
pub open spec fn table_get(es: Seq<(Seq<char>, Seq<char>)>, key: Seq<char>) -> Option<Seq<char>>
    decreases es.len(),
{
    if es.len() == 0 {
        None
    } else if es.last().0 == key {
        Some(es.last().1)
    } else {
        table_get(es.drop_last(), key)
    }
}

impl TiplocTable {
    /// An empty table.
    pub fn new() -> (t: Self)
        ensures
            t@ == Seq::<(Seq<char>, Seq<char>)>::empty(),
    {
        TiplocTable { entries: Vec::new() }
    }

    /// Records the uic of a tiploc.
    pub fn insert(&mut self, tiploc: String, uic: String)
        ensures
            final(self)@ == old(self)@.push((tiploc@, uic@)),
    {
        self.entries.push((tiploc, uic));
        assert(self@ =~= old(self)@.push((tiploc@, uic@)));
    }

    /// The table of the stored locations: each location's tiploc mapped to its uic, in
    /// order; `None` where a location lacks either.
    pub fn from_locations(rows: &[Location]) -> (r: Option<Self>)
        ensures
            r is None <==> exists|k: int|
                0 <= k < rows@.len() && (#[trigger] rows@[k].tiploc is None || rows@[k].uic is None),
            r matches Some(t) ==> t@.len() == rows@.len() && forall|k: int|
                0 <= k < rows@.len() ==> #[trigger] t@[k] == (rows@[k].tiploc->0@, rows@[k].uic->0@),
    {
        let mut t = TiplocTable::new();
        let n = rows.len();
        for i in 0..n
            invariant
                n == rows@.len(),
                t@.len() == i,
                forall|k: int| 0 <= k < i ==> rows@[k].tiploc is Some && rows@[k].uic is Some,
                forall|k: int|
                    0 <= k < i ==> #[trigger] t@[k] == (rows@[k].tiploc->0@, rows@[k].uic->0@),
        {
            match (&rows[i].tiploc, &rows[i].uic) {
                (Some(tiploc), Some(uic)) => {
                    t.insert(tiploc.clone(), uic.clone());
                },
                _ => {
                    return None;
                },
            }
        }
        Some(t)
    }

    /// The uic recorded for a tiploc.
    pub fn get(&self, key: &String) -> (r: Option<String>)
        ensures
            r.deep_view() == table_get(self@, key@),
    {
        let mut i = self.entries.len();
        assert(self@.take(i as int) =~= self@);
        while i > 0
            invariant
                i <= self.entries@.len(),
                table_get(self@, key@) == table_get(self@.take(i as int), key@),
            decreases i,
        {
            let ghost pre = self@.take(i as int);
            assert(pre.last() == (self.entries@[i - 1].0@, self.entries@[i - 1].1@));
            if self.entries[i - 1].0 == *key {
                return Some(self.entries[i - 1].1.clone());
            }
            assert(pre.drop_last() =~= self@.take(i - 1));
            i = i - 1;
        }
        None
    }
}

/// The tiploc that a location field names: at most its first seven characters, trimmed.
pub open spec fn tiploc_key(location: Seq<char>) -> Seq<char> {
    let t = trim(location);
    trim(
        if t.len() > 7 {
            t.take(7)
        } else {
            t
        },
    )
}

/// The tiploc that a location field names (its suffix stripped).
pub fn tiploc_of(location: &String) -> (key: String)
    ensures
        key@ == tiploc_key(location@),
{
    let cs = chars_of(location.as_str());
    let t = trim_chars(cs.as_slice());
    let mut first: Vec<char> = Vec::new();
    let mut i: usize = 0;
    while i < t.len() && i < 7
        invariant
            i <= t@.len(),
            i <= 7,
            first@ == t@.take(i as int),
        decreases t@.len() - i,
    {
        first.push(t[i]);
        i = i + 1;
        assert(first@ =~= t@.take(i as int));
    }
    if t.len() <= 7 {
        assert(t@.take(t@.len() as int) =~= t@);
    }
    let k = trim_chars(first.as_slice());
    string_of(k.as_slice())
}

/// One parsed line of a CIF extract.
pub enum CIFRowTypes {
    Header(CIFHeader),
    BasicSchedule(CIFBasicSchedule),
    BasicScheduleExtended(CIFBasicScheduleExtended),
    OriginLocation(CIFOriginLocation),
    IntermediateLocation(CIFIntermediateLocation),
    TerminatingLocation(CIFTerminatingLocation),
    Unknown,
}

/// The line's first two bytes are the record type `c0 c1`.
pub open spec fn kind(b: Seq<u8>, c0: u8, c1: u8) -> bool {
    b.len() >= 2 && b[0] == c0 && b[1] == c1
}

/// The record is an origin, intermediate or terminating location that reads in full.
pub open spec fn location_line(b: Seq<u8>) -> bool {
    ||| kind(b, 76, 79) && origin_location_ok(b)
    ||| kind(b, 76, 73) && intermediate_location_ok(b)
    ||| kind(b, 76, 84) && terminating_location_ok(b)
}

/// `parse_line` can take the line: it is empty or its first two bytes end on a character
/// boundary, and a location record names a tiploc that the table knows.
pub open spec fn line_accepted(b: Seq<u8>, t: Seq<(Seq<char>, Seq<char>)>) -> bool {
    &&& b.len() == 0 || is_char_boundary(b, 2)
    &&& location_line(b) ==> table_get(t, tiploc_key(field_text(b, 2, 10)->0)) is Some
}

/// The uic that a location record's tiploc maps to.
pub open spec fn location_uic(b: Seq<u8>, t: Seq<(Seq<char>, Seq<char>)>) -> Seq<char> {
    table_get(t, tiploc_key(field_text(b, 2, 10)->0))->0
}

/// `r` is what a line with bytes `b` parses to: the record its type names, with the
/// location of a location record replaced by its uic; `Unknown` for an empty line, another
/// record type, or a record whose fields do not all read.
pub open spec fn row_of(r: CIFRowTypes, b: Seq<u8>, t: Seq<(Seq<char>, Seq<char>)>) -> bool {
    if kind(b, 72, 68) && header_ok(b) {
        r matches CIFRowTypes::Header(h) && header_fields(h, b)
    } else if kind(b, 66, 83) && basic_schedule_ok(b) {
        r matches CIFRowTypes::BasicSchedule(s) && basic_schedule_fields(s, b)
    } else if kind(b, 66, 88) && basic_schedule_extended_ok(b) {
        r matches CIFRowTypes::BasicScheduleExtended(x) && basic_schedule_extended_fields(x, b)
    } else if kind(b, 76, 79) && origin_location_ok(b) {
        &&& r matches CIFRowTypes::OriginLocation(o)
        &&& origin_location_fields_but_location(o, b)
        &&& o.location@ == location_uic(b, t)
    } else if kind(b, 76, 73) && intermediate_location_ok(b) {
        &&& r matches CIFRowTypes::IntermediateLocation(o)
        &&& intermediate_location_fields_but_location(o, b)
        &&& o.location@ == location_uic(b, t)
    } else if kind(b, 76, 84) && terminating_location_ok(b) {
        &&& r matches CIFRowTypes::TerminatingLocation(o)
        &&& terminating_location_fields_but_location(o, b)
        &&& o.location@ == location_uic(b, t)
    } else {
        r is Unknown
    }
}

/// Parses one line of a CIF extract, mapping the tiploc of a location record to its uic.
pub fn parse_line(line: &str, locations: &TiplocTable) -> (r: CIFRowTypes)
    requires
        line_accepted(line.spec_bytes(), locations@),
    ensures
        row_of(r, line.spec_bytes(), locations@),
{
    let b = line.as_bytes();
    if line.is_empty() {
        return CIFRowTypes::Unknown;
    }
    proof {
        vstd::utf8::encode_utf8_valid_utf8(line@);
        assert(line.spec_bytes().len() > 0);
        if line.spec_bytes().len() < 2 {
            assert(!is_char_boundary(line.spec_bytes(), 2));
        }
    }
    let c0 = b[0];
    let c1 = b[1];
    if c0 == 72 && c1 == 68 {
        match parse_header(b) {
            Some(data) => CIFRowTypes::Header(data),
            None => CIFRowTypes::Unknown,
        }
    } else if c0 == 66 && c1 == 83 {
        match parse_basic_schedule(b) {
            Some(data) => CIFRowTypes::BasicSchedule(data),
            None => CIFRowTypes::Unknown,
        }
    } else if c0 == 66 && c1 == 88 {
        match parse_basic_schedule_extended(b) {
            Some(data) => CIFRowTypes::BasicScheduleExtended(data),
            None => CIFRowTypes::Unknown,
        }
    } else if c0 == 76 && c1 == 79 {
        match parse_origin_location(b) {
            Some(mut data) => {
                let key = tiploc_of(&data.location);
                let uic = locations.get(&key).unwrap();
                data.location = uic;
                CIFRowTypes::OriginLocation(data)
            },
            None => CIFRowTypes::Unknown,
        }
    } else if c0 == 76 && c1 == 73 {
        match parse_intermediate_location(b) {
            Some(mut data) => {
                let key = tiploc_of(&data.location);
                let uic = locations.get(&key).unwrap();
                data.location = uic;
                CIFRowTypes::IntermediateLocation(data)
            },
            None => CIFRowTypes::Unknown,
        }
    } else if c0 == 76 && c1 == 84 {
        match parse_terminating_location(b) {
            Some(mut data) => {
                let key = tiploc_of(&data.location);
                let uic = locations.get(&key).unwrap();
                data.location = uic;
                CIFRowTypes::TerminatingLocation(data)
            },
            None => CIFRowTypes::Unknown,
        }
    } else {
        CIFRowTypes::Unknown
    }
}

} // verus!
