//! Passenger train consist messages, and the rows that the archive import and the live
//! feed write for them.
use vstd::prelude::*;
use crate::lite_schema;
use crate::schema;
use crate::text::copy_opt;

verus! {

/// The length of a vehicle, as a value and its unit.
#[derive(Debug, Clone)]
pub struct Length {
    pub value: String,
    pub measure: String,
}

/// The finer identification of a location.
#[derive(Debug, Clone)]
pub struct LocationSubsidiaryIdentification {
    pub location_sibsidiary_code: String,
    pub allocation_company: String,
}

/// A location of a consist message.
#[derive(Debug, Clone)]
pub struct TrainLocation {
    pub country_code_iso: String,
    pub location_primary_code: String,
    pub location_subsidiary_identification: LocationSubsidiaryIdentification,
}

/// One vehicle of an allocated resource group.
#[derive(Debug, Clone)]
pub struct Vehicle {
    pub vehicle_id: i64,
    pub type_of_vehicle: String,
    pub resource_position: i64,
    pub planned_resource_group: String,
    pub specific_type: String,
    pub length: Length,
    pub weight: i32,
    pub livery: String,
    pub decor: String,
    pub special_characteristics: Option<String>,
    pub number_of_seats: i32,
    pub registered_status: String,
    pub cabs: Option<i32>,
    pub date_entered_service: String,
    pub date_registered: String,
    pub registered_category: String,
    pub train_brake_type: String,
    pub maximum_speed: String,
}

/// The resource group (a unit of coupled vehicles) that an allocation names.
#[derive(Debug, Clone)]
pub struct ResourceGroup {
    pub resource_group_id: String,
    pub type_of_resource: String,
    pub fleet_id: String,
    pub resource_group_status: String,
    pub end_of_day_miles: String,
    pub vehicle: Vec<Vehicle>,
}

/// One allocation of a resource group to a train.
#[derive(Debug, Clone)]
pub struct Allocation {
    pub allocation_sequence_number: i64,
    pub train_origin_date_time: String,
    pub train_origin_location: TrainLocation,
    pub resource_group_position: i64,
    pub diagram_date: String,
    pub diagram_no: Option<String>,
    pub train_dest_location: TrainLocation,
    pub train_dest_date_time: String,
    pub allocation_origin_location: TrainLocation,
    pub allocation_origin_date_time: String,
    pub allocation_origin_miles: i64,
    pub allocation_destination_location: TrainLocation,
    pub allocation_destination_date_time: String,
    pub allocation_destination_miles: i64,
    pub reversed: String,
    pub resource_group: ResourceGroup,
}

/// A passenger train consist message: the allocations it carries, if any.
#[derive(Debug, Clone)]
pub struct PassengerTrainConsistMessage {
    pub allocation: Option<Vec<Allocation>>,
}

/// `row` is the resource group row written for `g` by an archive import.
pub open spec fn archive_resource_group_of(row: schema::ResourceGroup, g: ResourceGroup) -> bool {
    &&& row.id == g.resource_group_id
    &&& row.fleet == g.fleet_id
    &&& row.resource_type == Some(g.type_of_resource)
    &&& row.status == Some(g.resource_group_status)
    &&& row.end_of_day_miles == Some(g.end_of_day_miles)
}

/// The resource group row that an archive import writes.
pub fn archive_resource_group(g: &ResourceGroup) -> (row: schema::ResourceGroup)
    ensures
        archive_resource_group_of(row, *g),
{
    schema::ResourceGroup {
        id: g.resource_group_id.clone(),
        fleet: g.fleet_id.clone(),
        resource_type: Some(g.type_of_resource.clone()),
        status: Some(g.resource_group_status.clone()),
        end_of_day_miles: Some(g.end_of_day_miles.clone()),
    }
}

/// `row` is the allocation row written for `a` by an archive import, under resource group `group_id`.
pub open spec fn archive_allocation_of(
    row: schema::Allocation,
    a: Allocation,
    group_id: String,
) -> bool {
    &&& row.id is None
    &&& row.origin_datetime == a.train_origin_date_time
    &&& row.origin_location == a.train_origin_location.location_primary_code
    &&& row.origin_country_code_iso == Some(a.train_origin_location.country_code_iso)
    &&& row.origin_subsidiary_information_code == Some(a.train_origin_location.location_subsidiary_identification.location_sibsidiary_code)
    &&& row.origin_subsidiary_information_company == Some(a.train_origin_location.location_subsidiary_identification.allocation_company)
    &&& row.date == Some(a.diagram_date)
    &&& row.dest_location == a.train_dest_location.location_primary_code
    &&& row.dest_country_code_iso == Some(a.train_dest_location.country_code_iso)
    &&& row.dest_subsidiary_information_code == Some(a.train_dest_location.location_subsidiary_identification.location_sibsidiary_code)
    &&& row.dest_subsidiary_information_company == Some(a.train_dest_location.location_subsidiary_identification.allocation_company)
    &&& row.dest_datetime == a.train_dest_date_time
    &&& row.allocation_origin_datetime == a.allocation_origin_date_time
    &&& row.allocation_origin_location == a.allocation_origin_location.location_primary_code
    &&& row.allocation_origin_country_code_iso == Some(a.allocation_origin_location.country_code_iso)
    &&& row.allocation_origin_subsidiary_information_code == Some(a.allocation_origin_location.location_subsidiary_identification.location_sibsidiary_code)
    &&& row.allocation_origin_subsidiary_information_company == Some(a.allocation_origin_location.location_subsidiary_identification.allocation_company)
    &&& row.allocation_dest_datetime == a.allocation_destination_date_time
    &&& row.allocation_dest_location == a.allocation_destination_location.location_primary_code
    &&& row.allocation_dest_country_code_iso == Some(a.allocation_destination_location.country_code_iso)
    &&& row.allocation_dest_subsidiary_information_code == Some(a.allocation_destination_location.location_subsidiary_identification.location_sibsidiary_code)
    &&& row.allocation_dest_subsidiary_information_company == Some(a.allocation_destination_location.location_subsidiary_identification.allocation_company)
    &&& row.resource_group_id == group_id
    &&& row.sequence_number == Some(a.allocation_sequence_number)
    &&& row.resource_group_position == Some(a.resource_group_position)
    &&& row.diagram_no == a.diagram_no
    &&& row.origin_miles == Some(a.allocation_origin_miles)
    &&& row.destination_miles == Some(a.allocation_destination_miles)
    &&& row.reversed == Some(a.reversed)
}

/// The allocation row that an archive import writes, for the resource group stored under `group_id`.
pub fn archive_allocation(a: &Allocation, group_id: &String) -> (row: schema::Allocation)
    ensures
        archive_allocation_of(row, *a, *group_id),
{
    schema::Allocation {
        id: None,
        origin_datetime: a.train_origin_date_time.clone(),
        origin_location: a.train_origin_location.location_primary_code.clone(),
        origin_country_code_iso: Some(a.train_origin_location.country_code_iso.clone()),
        origin_subsidiary_information_code: Some(a.train_origin_location.location_subsidiary_identification.location_sibsidiary_code.clone()),
        origin_subsidiary_information_company: Some(a.train_origin_location.location_subsidiary_identification.allocation_company.clone()),
        date: Some(a.diagram_date.clone()),
        dest_location: a.train_dest_location.location_primary_code.clone(),
        dest_country_code_iso: Some(a.train_dest_location.country_code_iso.clone()),
        dest_subsidiary_information_code: Some(a.train_dest_location.location_subsidiary_identification.location_sibsidiary_code.clone()),
        dest_subsidiary_information_company: Some(a.train_dest_location.location_subsidiary_identification.allocation_company.clone()),
        dest_datetime: a.train_dest_date_time.clone(),
        allocation_origin_datetime: a.allocation_origin_date_time.clone(),
        allocation_origin_location: a.allocation_origin_location.location_primary_code.clone(),
        allocation_origin_country_code_iso: Some(a.allocation_origin_location.country_code_iso.clone()),
        allocation_origin_subsidiary_information_code: Some(a.allocation_origin_location.location_subsidiary_identification.location_sibsidiary_code.clone()),
        allocation_origin_subsidiary_information_company: Some(a.allocation_origin_location.location_subsidiary_identification.allocation_company.clone()),
        allocation_dest_datetime: a.allocation_destination_date_time.clone(),
        allocation_dest_location: a.allocation_destination_location.location_primary_code.clone(),
        allocation_dest_country_code_iso: Some(a.allocation_destination_location.country_code_iso.clone()),
        allocation_dest_subsidiary_information_code: Some(a.allocation_destination_location.location_subsidiary_identification.location_sibsidiary_code.clone()),
        allocation_dest_subsidiary_information_company: Some(a.allocation_destination_location.location_subsidiary_identification.allocation_company.clone()),
        resource_group_id: group_id.clone(),
        sequence_number: Some(a.allocation_sequence_number),
        resource_group_position: Some(a.resource_group_position),
        diagram_no: copy_opt(&a.diagram_no),
        origin_miles: Some(a.allocation_origin_miles),
        destination_miles: Some(a.allocation_destination_miles),
        reversed: Some(a.reversed.clone()),
    }
}

/// `row` is the vehicle row written for `v` by an archive import, under resource group `group_id`.
pub open spec fn archive_vehicle_of(row: schema::Vehicle, v: Vehicle, group_id: String) -> bool {
    &&& row.id == Some(v.vehicle_id)
    &&& row.livery == v.livery
    &&& row.decor == Some(v.decor)
    &&& row.vehicle_type == v.type_of_vehicle
    &&& row.specific_type == v.specific_type
    &&& row.resource_group_id == group_id
    &&& row.resource_position == Some(v.resource_position)
    &&& row.planned_resource_group == Some(v.planned_resource_group)
    &&& row.length_value == Some(v.length.value)
    &&& row.length_measure == Some(v.length.measure)
    &&& row.weight == Some(v.weight)
    &&& row.special_characteristics == v.special_characteristics
    &&& row.seat_count == Some(v.number_of_seats)
    &&& row.cab_count == v.cabs
    &&& row.date_entered_service == Some(v.date_entered_service)
    &&& row.date_registered == Some(v.date_registered)
    &&& row.category == Some(v.registered_category)
    &&& row.brake_type == Some(v.train_brake_type)
    &&& row.max_speed == Some(v.maximum_speed)
}

/// The vehicle row that an archive import writes, for the resource group stored under `group_id`.
pub fn archive_vehicle(v: &Vehicle, group_id: &String) -> (row: schema::Vehicle)
    ensures
        archive_vehicle_of(row, *v, *group_id),
{
    schema::Vehicle {
        id: Some(v.vehicle_id),
        livery: v.livery.clone(),
        decor: Some(v.decor.clone()),
        vehicle_type: v.type_of_vehicle.clone(),
        specific_type: v.specific_type.clone(),
        resource_group_id: group_id.clone(),
        resource_position: Some(v.resource_position),
        planned_resource_group: Some(v.planned_resource_group.clone()),
        length_value: Some(v.length.value.clone()),
        length_measure: Some(v.length.measure.clone()),
        weight: Some(v.weight),
        special_characteristics: copy_opt(&v.special_characteristics),
        seat_count: Some(v.number_of_seats),
        cab_count: v.cabs,
        date_entered_service: Some(v.date_entered_service.clone()),
        date_registered: Some(v.date_registered.clone()),
        category: Some(v.registered_category.clone()),
        brake_type: Some(v.train_brake_type.clone()),
        max_speed: Some(v.maximum_speed.clone()),
    }
}

/// `row` is the resource group row written for `g` by the live feed.
pub open spec fn consist_resource_group_of(row: lite_schema::ResourceGroup, g: ResourceGroup) -> bool {
    &&& row.id == g.resource_group_id
    &&& row.fleet == g.fleet_id
}

/// The resource group row that the live consist feed writes.
pub fn consist_resource_group(g: &ResourceGroup) -> (row: lite_schema::ResourceGroup)
    ensures
        consist_resource_group_of(row, *g),
{
    lite_schema::ResourceGroup {
        id: g.resource_group_id.clone(),
        fleet: g.fleet_id.clone(),
    }
}

/// `row` is the allocation row written for `a` by the live feed, under resource group `group_id`.
pub open spec fn consist_allocation_of(
    row: lite_schema::Allocation,
    a: Allocation,
    group_id: String,
) -> bool {
    &&& row.id is None
    &&& row.origin_datetime == a.train_origin_date_time
    &&& row.origin_location == a.train_origin_location.location_primary_code
    &&& row.date == Some(a.diagram_date)
    &&& row.dest_location == a.train_dest_location.location_primary_code
    &&& row.dest_datetime == a.train_dest_date_time
    &&& row.allocation_origin_datetime == a.allocation_origin_date_time
    &&& row.allocation_origin_location == a.allocation_origin_location.location_primary_code
    &&& row.allocation_dest_datetime == a.allocation_destination_date_time
    &&& row.allocation_dest_location == a.allocation_destination_location.location_primary_code
    &&& row.resource_group_id == group_id
}

/// The allocation row that the live consist feed writes, for the resource group stored under `group_id`.
pub fn consist_allocation(a: &Allocation, group_id: &String) -> (row: lite_schema::Allocation)
    ensures
        consist_allocation_of(row, *a, *group_id),
{
    lite_schema::Allocation {
        id: None,
        origin_datetime: a.train_origin_date_time.clone(),
        origin_location: a.train_origin_location.location_primary_code.clone(),
        date: Some(a.diagram_date.clone()),
        dest_location: a.train_dest_location.location_primary_code.clone(),
        dest_datetime: a.train_dest_date_time.clone(),
        allocation_origin_datetime: a.allocation_origin_date_time.clone(),
        allocation_origin_location: a.allocation_origin_location.location_primary_code.clone(),
        allocation_dest_datetime: a.allocation_destination_date_time.clone(),
        allocation_dest_location: a.allocation_destination_location.location_primary_code.clone(),
        resource_group_id: group_id.clone(),
    }
}

/// `row` is the vehicle row written for `v` by the live feed, under resource group `group_id`.
pub open spec fn consist_vehicle_of(row: lite_schema::Vehicle, v: Vehicle, group_id: String) -> bool {
    &&& row.id == Some(v.vehicle_id)
    &&& row.livery == v.livery
    &&& row.decor == Some(v.decor)
    &&& row.vehicle_type == v.type_of_vehicle
    &&& row.specific_type == v.specific_type
    &&& row.resource_group_id == group_id
}

/// The vehicle row that the live consist feed writes, for the resource group stored under `group_id`.
pub fn consist_vehicle(v: &Vehicle, group_id: &String) -> (row: lite_schema::Vehicle)
    ensures
        consist_vehicle_of(row, *v, *group_id),
{
    lite_schema::Vehicle {
        id: Some(v.vehicle_id),
        livery: v.livery.clone(),
        decor: Some(v.decor.clone()),
        vehicle_type: v.type_of_vehicle.clone(),
        specific_type: v.specific_type.clone(),
        resource_group_id: group_id.clone(),
    }
}

/// The allocations that a message carries (none where it has no allocation element).
pub open spec fn message_allocations(m: PassengerTrainConsistMessage) -> Seq<Allocation> {
    match m.allocation {
        Some(v) => v@,
        None => Seq::empty(),
    }
}

/// The rows that the archive import writes for one allocation, in the order it writes them.
pub struct ArchiveRows {
    pub resource_group: schema::ResourceGroup,
    pub allocation: schema::Allocation,
    pub vehicles: Vec<schema::Vehicle>,
}

/// `r` holds the rows written for allocation `a` by the archive import.
pub open spec fn archive_rows_of(r: ArchiveRows, a: Allocation) -> bool {
    let group_id = a.resource_group.resource_group_id;
    &&& archive_resource_group_of(r.resource_group, a.resource_group)
    &&& archive_allocation_of(r.allocation, a, group_id)
    &&& r.vehicles@.len() == a.resource_group.vehicle@.len()
    &&& forall|k: int|
        0 <= k < r.vehicles@.len() ==> archive_vehicle_of(
            #[trigger] r.vehicles@[k],
            a.resource_group.vehicle@[k],
            group_id,
        )
}

/// The rows that the archive import writes for one allocation.
pub fn archive_allocation_rows(a: &Allocation) -> (r: ArchiveRows)
    ensures
        archive_rows_of(r, *a),
{
    let group = &a.resource_group;
    let resource_group = archive_resource_group(group);
    let allocation = archive_allocation(a, &group.resource_group_id);
    let mut vehicles: Vec<schema::Vehicle> = Vec::new();
    let n = group.vehicle.len();
    for i in 0..n
        invariant
            n == group.vehicle@.len(),
            vehicles@.len() == i,
            forall|k: int|
                0 <= k < i ==> archive_vehicle_of(
                    #[trigger] vehicles@[k],
                    group.vehicle@[k],
                    group.resource_group_id,
                ),
    {
        vehicles.push(archive_vehicle(&group.vehicle[i], &group.resource_group_id));
    }
    ArchiveRows { resource_group, allocation, vehicles }
}

/// The rows that the archive import writes for a message: those of each allocation, in order.
pub fn archive_message_rows(m: &PassengerTrainConsistMessage) -> (rows: Vec<ArchiveRows>)
    ensures
        rows@.len() == message_allocations(*m).len(),
        forall|k: int|
            0 <= k < rows@.len() ==> archive_rows_of(#[trigger] rows@[k], message_allocations(*m)[k]),
{
    let mut rows: Vec<ArchiveRows> = Vec::new();
    match &m.allocation {
        Some(allocations) => {
            let n = allocations.len();
            for i in 0..n
                invariant
                    n == allocations@.len(),
                    m.allocation == Some(*allocations),
                    rows@.len() == i,
                    forall|k: int|
                        0 <= k < i ==> archive_rows_of(#[trigger] rows@[k], allocations@[k]),
            {
                rows.push(archive_allocation_rows(&allocations[i]));
            }
        },
        None => {},
    }
    rows
}

/// The rows that the live consist feed writes for one allocation, in the order it writes them.
pub struct ConsistRows {
    pub resource_group: lite_schema::ResourceGroup,
    pub allocation: lite_schema::Allocation,
    pub vehicles: Vec<lite_schema::Vehicle>,
}

/// `r` holds the rows written for allocation `a` by the live consist feed.
pub open spec fn consist_rows_of(r: ConsistRows, a: Allocation) -> bool {
    let group_id = a.resource_group.resource_group_id;
    &&& consist_resource_group_of(r.resource_group, a.resource_group)
    &&& consist_allocation_of(r.allocation, a, group_id)
    &&& r.vehicles@.len() == a.resource_group.vehicle@.len()
    &&& forall|k: int|
        0 <= k < r.vehicles@.len() ==> consist_vehicle_of(
            #[trigger] r.vehicles@[k],
            a.resource_group.vehicle@[k],
            group_id,
        )
}

/// The rows that the live consist feed writes for one allocation.
pub fn consist_allocation_rows(a: &Allocation) -> (r: ConsistRows)
    ensures
        consist_rows_of(r, *a),
{
    let group = &a.resource_group;
    let resource_group = consist_resource_group(group);
    let allocation = consist_allocation(a, &group.resource_group_id);
    let mut vehicles: Vec<lite_schema::Vehicle> = Vec::new();
    let n = group.vehicle.len();
    for i in 0..n
        invariant
            n == group.vehicle@.len(),
            vehicles@.len() == i,
            forall|k: int|
                0 <= k < i ==> consist_vehicle_of(
                    #[trigger] vehicles@[k],
                    group.vehicle@[k],
                    group.resource_group_id,
                ),
    {
        vehicles.push(consist_vehicle(&group.vehicle[i], &group.resource_group_id));
    }
    ConsistRows { resource_group, allocation, vehicles }
}

/// The rows that the live consist feed writes for a message: those of each allocation, in order.
pub fn consist_message_rows(m: &PassengerTrainConsistMessage) -> (rows: Vec<ConsistRows>)
    ensures
        rows@.len() == message_allocations(*m).len(),
        forall|k: int|
            0 <= k < rows@.len() ==> consist_rows_of(#[trigger] rows@[k], message_allocations(*m)[k]),
{
    let mut rows: Vec<ConsistRows> = Vec::new();
    match &m.allocation {
        Some(allocations) => {
            let n = allocations.len();
            for i in 0..n
                invariant
                    n == allocations@.len(),
                    m.allocation == Some(*allocations),
                    rows@.len() == i,
                    forall|k: int|
                        0 <= k < i ==> consist_rows_of(#[trigger] rows@[k], allocations@[k]),
            {
                rows.push(consist_allocation_rows(&allocations[i]));
            }
        },
        None => {},
    }
    rows
}

/// The archive import and the live feed write the same values into the columns their rows
/// share, for the same allocation, vehicle and resource group.
pub proof fn lemma_imports_agree(
    a: Allocation,
    v: Vehicle,
    group_id: String,
    ga: schema::ResourceGroup,
    gl: lite_schema::ResourceGroup,
    ra: schema::Allocation,
    rl: lite_schema::Allocation,
    va: schema::Vehicle,
    vl: lite_schema::Vehicle,
)
    requires
        archive_resource_group_of(ga, a.resource_group),
        consist_resource_group_of(gl, a.resource_group),
        archive_allocation_of(ra, a, group_id),
        consist_allocation_of(rl, a, group_id),
        archive_vehicle_of(va, v, group_id),
        consist_vehicle_of(vl, v, group_id),
    ensures
        ga.id == gl.id && ga.fleet == gl.fleet,
        ra.id == rl.id,
        ra.origin_datetime == rl.origin_datetime,
        ra.origin_location == rl.origin_location,
        ra.date == rl.date,
        ra.dest_location == rl.dest_location,
        ra.dest_datetime == rl.dest_datetime,
        ra.allocation_origin_datetime == rl.allocation_origin_datetime,
        ra.allocation_origin_location == rl.allocation_origin_location,
        ra.allocation_dest_datetime == rl.allocation_dest_datetime,
        ra.allocation_dest_location == rl.allocation_dest_location,
        ra.resource_group_id == rl.resource_group_id,
        va.id == vl.id,
        va.livery == vl.livery,
        va.decor == vl.decor,
        va.vehicle_type == vl.vehicle_type,
        va.specific_type == vl.specific_type,
        va.resource_group_id == vl.resource_group_id,
{
}

/// What the shared columns hold: the train's own origin and destination (not those of the
/// allocation, which have columns of their own), the vehicle's livery and decor, its type
/// and specific type, and the resource group the rows are filed under.
pub proof fn lemma_shared_columns(
    a: Allocation,
    v: Vehicle,
    group_id: String,
    rl: lite_schema::Allocation,
    vl: lite_schema::Vehicle,
    gl: lite_schema::ResourceGroup,
)
    requires
        consist_allocation_of(rl, a, group_id),
        consist_vehicle_of(vl, v, group_id),
        consist_resource_group_of(gl, a.resource_group),
    ensures
        gl.id == a.resource_group.resource_group_id,
        gl.fleet == a.resource_group.fleet_id,
        rl.origin_location == a.train_origin_location.location_primary_code,
        rl.origin_datetime == a.train_origin_date_time,
        rl.dest_location == a.train_dest_location.location_primary_code,
        rl.dest_datetime == a.train_dest_date_time,
        rl.allocation_origin_location == a.allocation_origin_location.location_primary_code,
        rl.allocation_origin_datetime == a.allocation_origin_date_time,
        rl.allocation_dest_location == a.allocation_destination_location.location_primary_code,
        rl.allocation_dest_datetime == a.allocation_destination_date_time,
        rl.date == Some(a.diagram_date),
        rl.resource_group_id == group_id,
        vl.id == Some(v.vehicle_id),
        vl.livery == v.livery,
        vl.decor == Some(v.decor),
        vl.vehicle_type == v.type_of_vehicle,
        vl.specific_type == v.specific_type,
        vl.resource_group_id == group_id,
{
}

/// What the columns that only the archive import writes hold: each location's country and
/// subsidiary codes under that location's columns, the origin and destination miles, the
/// sequence and position, and the vehicle's own details.
pub proof fn lemma_archive_columns(
    a: Allocation,
    v: Vehicle,
    group_id: String,
    ga: schema::ResourceGroup,
    ra: schema::Allocation,
    va: schema::Vehicle,
)
    requires
        archive_resource_group_of(ga, a.resource_group),
        archive_allocation_of(ra, a, group_id),
        archive_vehicle_of(va, v, group_id),
    ensures
        ga.resource_type == Some(a.resource_group.type_of_resource),
        ga.status == Some(a.resource_group.resource_group_status),
        ga.end_of_day_miles == Some(a.resource_group.end_of_day_miles),
        ra.origin_country_code_iso == Some(a.train_origin_location.country_code_iso),
        ra.origin_subsidiary_information_code == Some(
            a.train_origin_location.location_subsidiary_identification.location_sibsidiary_code,
        ),
        ra.dest_country_code_iso == Some(a.train_dest_location.country_code_iso),
        ra.dest_subsidiary_information_company == Some(
            a.train_dest_location.location_subsidiary_identification.allocation_company,
        ),
        ra.allocation_origin_country_code_iso == Some(a.allocation_origin_location.country_code_iso),
        ra.allocation_dest_country_code_iso == Some(
            a.allocation_destination_location.country_code_iso,
        ),
        ra.sequence_number == Some(a.allocation_sequence_number),
        ra.resource_group_position == Some(a.resource_group_position),
        ra.diagram_no == a.diagram_no,
        ra.origin_miles == Some(a.allocation_origin_miles),
        ra.destination_miles == Some(a.allocation_destination_miles),
        ra.reversed == Some(a.reversed),
        va.resource_position == Some(v.resource_position),
        va.planned_resource_group == Some(v.planned_resource_group),
        va.length_value == Some(v.length.value),
        va.length_measure == Some(v.length.measure),
        va.weight == Some(v.weight),
        va.special_characteristics == v.special_characteristics,
        va.seat_count == Some(v.number_of_seats),
        va.cab_count == v.cabs,
        va.date_entered_service == Some(v.date_entered_service),
        va.date_registered == Some(v.date_registered),
        va.category == Some(v.registered_category),
        va.brake_type == Some(v.train_brake_type),
        va.max_speed == Some(v.maximum_speed),
{
}

} // verus!
