//! Rows of the Postgres-backed service: what the ingest jobs write and the API reads.
use vstd::prelude::*;

verus! {

/// One allocation of a resource group to a train, with its four locations.
#[derive(Debug, Clone)]
pub struct Allocation {
    pub id: Option<i64>,
    pub origin_datetime: String,
    pub origin_location: String,
    pub origin_country_code_iso: Option<String>,
    pub origin_subsidiary_information_code: Option<String>,
    pub origin_subsidiary_information_company: Option<String>,
    pub date: Option<String>,
    pub dest_location: String,
    pub dest_country_code_iso: Option<String>,
    pub dest_subsidiary_information_code: Option<String>,
    pub dest_subsidiary_information_company: Option<String>,
    pub dest_datetime: String,
    pub allocation_origin_datetime: String,
    pub allocation_origin_location: String,
    pub allocation_origin_country_code_iso: Option<String>,
    pub allocation_origin_subsidiary_information_code: Option<String>,
    pub allocation_origin_subsidiary_information_company: Option<String>,
    pub allocation_dest_datetime: String,
    pub allocation_dest_location: String,
    pub allocation_dest_country_code_iso: Option<String>,
    pub allocation_dest_subsidiary_information_code: Option<String>,
    pub allocation_dest_subsidiary_information_company: Option<String>,
    pub resource_group_id: String,
    pub sequence_number: Option<i64>,
    pub resource_group_position: Option<i64>,
    pub diagram_no: Option<String>,
    pub origin_miles: Option<i64>,
    pub destination_miles: Option<i64>,
    pub reversed: Option<String>,
}

/// One vehicle of a resource group.
#[derive(Debug, Clone)]
pub struct Vehicle {
    pub id: Option<i64>,
    pub livery: String,
    pub decor: Option<String>,
    pub vehicle_type: String,
    pub specific_type: String,
    pub resource_group_id: String,
    pub resource_position: Option<i64>,
    pub planned_resource_group: Option<String>,
    pub length_value: Option<String>,
    pub length_measure: Option<String>,
    pub weight: Option<i32>,
    pub special_characteristics: Option<String>,
    pub seat_count: Option<i32>,
    pub cab_count: Option<i32>,
    pub date_entered_service: Option<String>,
    pub date_registered: Option<String>,
    pub category: Option<String>,
    pub brake_type: Option<String>,
    pub max_speed: Option<String>,
}

/// A resource group (a unit of coupled vehicles) of a fleet.
#[derive(Debug, Clone)]
pub struct ResourceGroup {
    pub id: String,
    pub fleet: String,
    pub resource_type: Option<String>,
    pub status: Option<String>,
    pub end_of_day_miles: Option<String>,
}

/// A location row, keyed by its NLC, with the value chosen for display.
#[derive(Debug, Clone)]
pub struct Location {
    pub id: Option<i64>,
    pub nlc: String,
    pub stanox: Option<String>,
    pub tiploc: Option<String>,
    pub crs: Option<String>,
    pub uic: Option<String>,
    pub nlcdesc: Option<String>,
    pub axis: Option<String>,
    pub nlcdesc16: Option<String>,
    pub display: String,
    pub display_type: String,
}

/// An allocation archive file that has been imported.
#[derive(Debug, Clone)]
pub struct AllocArchiveLog {
    pub id: Option<i64>,
    pub file_name: String,
}

/// The header of an imported BPLAN file.
#[derive(Debug, Clone)]
pub struct BplanLog {
    pub id: Option<i64>,
    pub file_version: String,
    pub source_system: String,
    pub toc_id: String,
    pub timetable_start_date: String,
    pub timetable_end_date: String,
    pub cycle_type: String,
    pub cycle_stage: String,
    pub creation_date: String,
    pub sequence_number: i32,
}

/// A BPLAN reference code with its description.
#[derive(Debug, Clone)]
pub struct ReferenceCode {
    pub id: Option<i64>,
    pub action_code: String,
    pub code_type: String,
    pub code: Option<String>,
    pub description: String,
}

/// The header of an imported CIF schedule extract.
#[derive(Debug, Clone)]
pub struct CifScheduleLog {
    pub id: Option<i64>,
    pub mainframe_identity: String,
    pub extract_date: String,
    pub extract_time: String,
    pub file_reference: String,
    pub version: String,
}

/// One train schedule of the CIF extract.
#[derive(Debug, Clone)]
pub struct Schedule {
    pub id: Option<i64>,
    pub uid: String,
    pub identity: String,
    pub headcode: Option<String>,
    pub indicator: String,
    pub atoc_code: String,
    pub performance_monitoring: bool,
    pub origin_location: String,
    pub dest_location: String,
    pub start_date: String,
    pub end_date: String,
}

/// One calling point of a schedule.
#[derive(Debug, Clone)]
pub struct ScheduleLocation {
    pub id: Option<i64>,
    pub location: String,
    pub scheduled_departure_time: Option<String>,
    pub scheduled_arrival_time: Option<String>,
    pub scheduled_pass_time: Option<String>,
    pub public_departure_time: Option<String>,
    pub public_arrival_time: Option<String>,
    pub platform: Option<String>,
    pub line: Option<String>,
    pub engineering_allowance: Option<String>,
    pub pathing_allowance: Option<String>,
    pub performance_allowance: Option<String>,
    pub activity: Option<String>,
    pub schedule_id: i64,
}

} // verus!
