use train_viewer::payload::{
    archive_message_rows, consist_message_rows, Allocation, Length,
    LocationSubsidiaryIdentification, PassengerTrainConsistMessage, ResourceGroup, TrainLocation,
    Vehicle,
};

fn location(code: &str) -> TrainLocation {
    TrainLocation {
        country_code_iso: "GB".to_string(),
        location_primary_code: code.to_string(),
        location_subsidiary_identification: LocationSubsidiaryIdentification {
            location_sibsidiary_code: format!("{code}-S"),
            allocation_company: "0070".to_string(),
        },
    }
}

fn vehicle(id: i64, position: i64) -> Vehicle {
    Vehicle {
        vehicle_id: id,
        type_of_vehicle: "DMS".to_string(),
        resource_position: position,
        planned_resource_group: "390001".to_string(),
        specific_type: "390/0".to_string(),
        length: Length { value: "24.5".to_string(), measure: "m".to_string() },
        weight: 52,
        livery: "Avanti".to_string(),
        decor: "None".to_string(),
        special_characteristics: None,
        number_of_seats: 76,
        registered_status: "R".to_string(),
        cabs: Some(1),
        date_entered_service: "2002-07-01".to_string(),
        date_registered: "2002-06-01".to_string(),
        registered_category: "A".to_string(),
        train_brake_type: "EP".to_string(),
        maximum_speed: "125".to_string(),
    }
}

fn allocation() -> Allocation {
    Allocation {
        allocation_sequence_number: 3,
        train_origin_date_time: "2024-05-01T10:00:00".to_string(),
        train_origin_location: location("EUS"),
        resource_group_position: 1,
        diagram_date: "2024-05-01".to_string(),
        diagram_no: Some("D12".to_string()),
        train_dest_location: location("GLC"),
        train_dest_date_time: "2024-05-01T14:30:00".to_string(),
        allocation_origin_location: location("EUS"),
        allocation_origin_date_time: "2024-05-01T10:00:00".to_string(),
        allocation_origin_miles: 0,
        allocation_destination_location: location("PRE"),
        allocation_destination_date_time: "2024-05-01T12:10:00".to_string(),
        allocation_destination_miles: 209,
        reversed: "N".to_string(),
        resource_group: ResourceGroup {
            resource_group_id: "390001".to_string(),
            type_of_resource: "U".to_string(),
            fleet_id: "390".to_string(),
            resource_group_status: "A".to_string(),
            end_of_day_miles: "1200".to_string(),
            vehicle: vec![vehicle(69101, 1), vehicle(69401, 2)],
        },
    }
}

#[test]
fn archive_rows_of_one_allocation() {
    let message = PassengerTrainConsistMessage { allocation: Some(vec![allocation()]) };
    let rows = archive_message_rows(&message);
    assert_eq!(rows.len(), 1);
    let r = &rows[0];
    assert_eq!(r.resource_group.id, "390001");
    assert_eq!(r.resource_group.fleet, "390");
    assert_eq!(r.resource_group.resource_type.as_deref(), Some("U"));
    assert_eq!(r.resource_group.end_of_day_miles.as_deref(), Some("1200"));
    let a = &r.allocation;
    assert_eq!(a.id, None);
    assert_eq!(a.origin_location, "EUS");
    assert_eq!(a.origin_subsidiary_information_code.as_deref(), Some("EUS-S"));
    assert_eq!(a.dest_location, "GLC");
    assert_eq!(a.allocation_dest_location, "PRE");
    assert_eq!(a.allocation_dest_country_code_iso.as_deref(), Some("GB"));
    assert_eq!(a.date.as_deref(), Some("2024-05-01"));
    assert_eq!(a.resource_group_id, "390001");
    assert_eq!(a.sequence_number, Some(3));
    assert_eq!(a.destination_miles, Some(209));
    assert_eq!(a.diagram_no.as_deref(), Some("D12"));
    assert_eq!(a.reversed.as_deref(), Some("N"));
    assert_eq!(r.vehicles.len(), 2);
    assert_eq!(r.vehicles[0].id, Some(69101));
    assert_eq!(r.vehicles[1].resource_position, Some(2));
    assert_eq!(r.vehicles[0].seat_count, Some(76));
    assert_eq!(r.vehicles[0].cab_count, Some(1));
    assert_eq!(r.vehicles[0].length_value.as_deref(), Some("24.5"));
    assert_eq!(r.vehicles[0].vehicle_type, "DMS");
    assert_eq!(r.vehicles[0].resource_group_id, "390001");
}

#[test]
fn live_rows_of_one_allocation() {
    let message = PassengerTrainConsistMessage { allocation: Some(vec![allocation(), allocation()]) };
    let rows = consist_message_rows(&message);
    assert_eq!(rows.len(), 2);
    let r = &rows[1];
    assert_eq!(r.resource_group.id, "390001");
    assert_eq!(r.resource_group.fleet, "390");
    assert_eq!(r.allocation.allocation_origin_location, "EUS");
    assert_eq!(r.allocation.date.as_deref(), Some("2024-05-01"));
    assert_eq!(r.vehicles.len(), 2);
    assert_eq!(r.vehicles[1].id, Some(69401));
    assert_eq!(r.vehicles[1].decor.as_deref(), Some("None"));
}

#[test]
fn message_without_allocations_gives_no_rows() {
    let message = PassengerTrainConsistMessage { allocation: None };
    assert!(archive_message_rows(&message).is_empty());
    assert!(consist_message_rows(&message).is_empty());
    let empty = PassengerTrainConsistMessage { allocation: Some(vec![]) };
    assert!(consist_message_rows(&empty).is_empty());
}
