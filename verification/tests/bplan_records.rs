use train_viewer::bplan::{
    bplan_lines, gzipped_text, header_log, record_kind, reference_code, split_record_type,
    unique_reference_codes, BplanHeader, BplanRecordKind, BplanReference, BplanScan, BplanStep,
    HeaderCycleTypeEnum, ReferenceCodeTypeEnum,
};
use train_viewer::schema::ReferenceCode;

#[test]
fn cycle_codes_read_as_serde_names_them() {
    assert_eq!(HeaderCycleTypeEnum::from_code("S"), Some(HeaderCycleTypeEnum::Supplimental));
    assert_eq!(HeaderCycleTypeEnum::from_code("I"), Some(HeaderCycleTypeEnum::Iterative));
    assert_eq!(HeaderCycleTypeEnum::from_code("Unknown"), Some(HeaderCycleTypeEnum::Unknown));
    assert_eq!(HeaderCycleTypeEnum::from_code("X"), None);
    assert_eq!(HeaderCycleTypeEnum::from_code("s"), None);
    assert_eq!(HeaderCycleTypeEnum::Supplimental.name(), "Supplimental");
}

#[test]
fn reference_codes_read_back() {
    let table = [
        ("ACC", ReferenceCodeTypeEnum::Accomodation, "Accomodation"),
        ("OPC", ReferenceCodeTypeEnum::OperatingCharacteristic, "OperatingCharacteristic"),
        ("TOC", ReferenceCodeTypeEnum::TrainOperator, "TrainOperator"),
        ("ZNE", ReferenceCodeTypeEnum::NetworkRailZone, "NetworkRailZone"),
        ("REF", ReferenceCodeTypeEnum::ReferenceCodeTypes, "ReferenceCodeTypes"),
        ("Unknown", ReferenceCodeTypeEnum::Unknown, "Unknown"),
    ];
    for (code, value, name) in table {
        assert_eq!(ReferenceCodeTypeEnum::from_code(code), Some(value));
        assert_eq!(value.name(), name);
    }
    assert_eq!(ReferenceCodeTypeEnum::from_code("XYZ"), None);
    assert_eq!(ReferenceCodeTypeEnum::from_code(""), None);
}

#[test]
fn record_type_is_split_at_the_first_tab() {
    let (t, rest) = split_record_type("REF\tA\tOPC\tD\tDiesel");
    assert_eq!((t.as_str(), rest.as_str()), ("REF", "A\tOPC\tD\tDiesel"));
    assert_eq!(format!("{}\t{}", t, rest), "REF\tA\tOPC\tD\tDiesel");
    let (t, rest) = split_record_type("PIF");
    assert_eq!((t.as_str(), rest.as_str()), ("PIF", ""));
    let (t, rest) = split_record_type("\tx");
    assert_eq!((t.as_str(), rest.as_str()), ("", "x"));
    assert_eq!(record_kind("PIF"), BplanRecordKind::Header);
    assert_eq!(record_kind("REF"), BplanRecordKind::Reference);
    assert_eq!(record_kind("LOC"), BplanRecordKind::Other);
}

fn reference(description: &str, code: Option<&str>) -> BplanReference {
    BplanReference {
        action_code: "A".to_string(),
        code_type: ReferenceCodeTypeEnum::OperatingCharacteristic,
        code: code.map(|c| c.to_string()),
        description: description.to_string(),
    }
}

#[test]
fn scan_stops_at_a_known_header() {
    let text = "PIF\t1\nREF\tA\tOPC\tD\tDiesel\nPIF\t2\nREF\tA\tOPC\tE\tElectric";
    let lines = bplan_lines(text);
    assert_eq!(lines.len(), 4);
    let mut scan = BplanScan::new();
    let mut headers = 0;
    for (i, line) in lines.iter().enumerate() {
        match scan.next_step(line) {
            BplanStep::Header(rest) => {
                headers += 1;
                assert_eq!(scan.header_seen(i == 2), i != 2);
                assert!(rest == "1" || rest == "2");
            }
            BplanStep::Reference(rest) => {
                assert_eq!(rest, "A\tOPC\tD\tDiesel");
                scan.add_reference(&reference("Diesel", Some("D")));
            }
            BplanStep::Skip => {}
        }
    }
    assert_eq!(headers, 2);
    assert!(!scan.reading);
    assert_eq!(scan.references.len(), 1);
    assert!(matches!(scan.next_step("REF\tA\tOPC\tE\tElectric"), BplanStep::Skip));
    let row = &scan.references[0];
    assert_eq!(row.code_type, "OperatingCharacteristic");
    assert_eq!(row.code.as_deref(), Some("D"));
    assert_eq!(row.description, "Diesel");
}

#[test]
fn header_becomes_its_log_row() {
    let h = BplanHeader {
        file_version: "1.0".to_string(),
        source_system: "BPLAN".to_string(),
        toc_id: "ZZ".to_string(),
        timetable_start_date: "20240101".to_string(),
        timetable_end_date: "20241231".to_string(),
        cycle_type: HeaderCycleTypeEnum::Iterative,
        cycle_stage: "1".to_string(),
        creation_date: "20240105".to_string(),
        sequence_number: 7,
    };
    let log = header_log(&h);
    assert_eq!(log.id, None);
    assert_eq!(log.cycle_type, "Iterative");
    assert_eq!(log.toc_id, "ZZ");
    assert_eq!(log.creation_date, "20240105");
    assert_eq!(log.sequence_number, 7);
}

#[test]
fn bulk_rows_keep_the_last_code_per_description() {
    let rows: Vec<ReferenceCode> = vec![
        reference_code(&reference("Diesel", Some("D"))),
        reference_code(&reference("Electric", Some("E"))),
        reference_code(&reference("Diesel", Some("DD"))),
    ];
    let unique = unique_reference_codes(&rows);
    assert_eq!(unique.len(), 2);
    assert_eq!(unique[0].description, "Electric");
    assert_eq!(unique[1].description, "Diesel");
    assert_eq!(unique[1].code.as_deref(), Some("DD"));
    assert!(unique_reference_codes(&[]).is_empty());
}

#[test]
fn only_gzipped_text_entries_are_read() {
    assert!(gzipped_text("BPLAN_LOC.txt.gz"));
    assert!(gzipped_text(".txt.gz"));
    assert!(!gzipped_text("README.txt"));
    assert!(!gzipped_text("txt.gz"));
}
