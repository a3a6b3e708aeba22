use train_viewer::cif::{parse_line, tiploc_of, CIFRowTypes, TiplocTable};
use train_viewer::schedule::{
    assemble_schedules, schedule_is_ready, schedule_location_rows, schedule_row,
    schedule_text_problem, ScheduleTextProblem,
};

/// A line of `len` spaces with the given record type and fields written at their offsets.
fn record(kind: &str, fields: &[(usize, &str)], len: usize) -> String {
    let mut line: Vec<u8> = vec![b' '; len];
    line[..2].copy_from_slice(kind.as_bytes());
    for (at, text) in fields {
        line[*at..*at + text.len()].copy_from_slice(text.as_bytes());
    }
    String::from_utf8(line).unwrap()
}

fn header() -> String {
    record(
        "HD",
        &[(2, "TPS.UDFROC1.PD2405"), (20, "180524"), (26, "1954"), (30, "DFROC1E"), (37, "DFROC1D"), (44, "U"), (45, "A"), (46, "180524"), (52, "170525")],
        80,
    )
}

fn basic_schedule(uid: &str) -> String {
    record(
        "BS",
        &[(2, "N"), (3, uid), (9, "240519"), (15, "241207"), (21, "0000001"), (29, "P"), (30, "XX"), (32, "1S01"), (41, "22215000"), (50, "EMU"), (53, "390 "), (57, "125"), (79, "P")],
        80,
    )
}

fn extended() -> String {
    record("BX", &[(11, "VT"), (13, "Y")], 80)
}

fn origin() -> String {
    record("LO", &[(2, "EUSTON  "), (10, "0930 "), (15, "0930"), (19, "15"), (28, "TB")], 80)
}

fn intermediate() -> String {
    record("LI", &[(2, "WATFJ   "), (10, "0945 "), (15, "0946 "), (25, "0945"), (29, "0946"), (42, "T")], 80)
}

fn terminating() -> String {
    record("LT", &[(2, "GLGC    "), (10, "1430 "), (15, "1430"), (19, "1"), (24, "TF")], 80)
}

fn table() -> TiplocTable {
    let mut t = TiplocTable::new();
    t.insert("EUSTON".to_string(), "70012".to_string());
    t.insert("WATFJ".to_string(), "70113".to_string());
    t.insert("GLGC".to_string(), "72000".to_string());
    t
}

fn stored(tiploc: Option<&str>, uic: Option<&str>) -> train_viewer::schema::Location {
    train_viewer::schema::Location {
        id: Some(1),
        nlc: "1".to_string(),
        stanox: None,
        tiploc: tiploc.map(|t| t.to_string()),
        crs: None,
        uic: uic.map(|u| u.to_string()),
        nlcdesc: None,
        axis: None,
        nlcdesc16: None,
        display: "1".to_string(),
        display_type: "nlc".to_string(),
    }
}

#[test]
fn table_from_stored_locations() {
    let rows = vec![stored(Some("EUSTON"), Some("1")), stored(Some("EUSTON"), Some("2"))];
    let t = TiplocTable::from_locations(&rows).unwrap();
    assert_eq!(t.get(&"EUSTON".to_string()), Some("2".to_string()));
    assert_eq!(t.get(&"GLGC".to_string()), None);
    assert!(TiplocTable::from_locations(&[stored(Some("X"), None)]).is_none());
    assert!(TiplocTable::from_locations(&[]).is_some());
}

#[test]
fn header_line_reads_its_fields() {
    match parse_line(&header(), &table()) {
        CIFRowTypes::Header(h) => {
            assert_eq!(h.mainframe_identity, "TPS.UDFROC1.PD2405");
            assert_eq!(h.extract_date, "180524");
            assert_eq!(h.current_file_reference, "DFROC1E");
            assert_eq!(h.version, "A");
        }
        _ => panic!("not a header"),
    }
}

#[test]
fn location_line_gets_its_uic() {
    match parse_line(&origin(), &table()) {
        CIFRowTypes::OriginLocation(o) => {
            assert_eq!(o.location, "70012");
            assert_eq!(o.scheduled_departure_time, "0930");
            assert_eq!(o.platform.as_deref(), Some("15"));
            assert_eq!(o.line, None);
            assert_eq!(o.activity, "TB");
        }
        _ => panic!("not an origin"),
    }
    assert_eq!(tiploc_of(&"EUSTON2 ".to_string()), "EUSTON2");
    assert_eq!(tiploc_of(&" WATFJ   X".to_string()), "WATFJ");
}

#[test]
fn other_and_short_lines_are_unknown() {
    let t = table();
    assert!(matches!(parse_line("", &t), CIFRowTypes::Unknown));
    assert!(matches!(parse_line("ZZ trailer", &t), CIFRowTypes::Unknown));
    assert!(matches!(parse_line("HD too short", &t), CIFRowTypes::Unknown));
}

#[test]
fn schedules_are_assembled_from_the_records() {
    let text = [header(), basic_schedule("C12345"), extended(), origin(), intermediate(), terminating()].join("\n");
    let t = table();
    assert!(schedule_text_problem(&text, &t).is_none());
    let (headers, schedules) = assemble_schedules(&text, &t);
    assert_eq!(headers.len(), 1);
    assert_eq!(headers[0].file_reference, "DFROC1E");
    assert_eq!(schedules.len(), 1);
    let m = &schedules[0];
    assert!(schedule_is_ready(m));
    let row = schedule_row(m);
    assert_eq!(row.uid, "C12345");
    assert_eq!(row.identity, "1S01");
    assert_eq!(row.atoc_code, "VT");
    assert!(row.performance_monitoring);
    assert_eq!(row.origin_location, "70012");
    assert_eq!(row.dest_location, "72000");
    assert_eq!(row.end_date, "241207");
    let locs = schedule_location_rows(m, 9);
    assert_eq!(locs.len(), 3);
    assert_eq!(locs[1].location, "70113");
    assert_eq!(locs[1].scheduled_arrival_time.as_deref(), Some("0945"));
    assert_eq!(locs[2].public_arrival_time.as_deref(), Some("1430"));
    assert!(locs.iter().all(|l| l.schedule_id == 9));
}

#[test]
fn calling_points_carry_over_to_the_next_schedule() {
    let text = [basic_schedule("A00001"), extended(), origin(), terminating(), basic_schedule("A00002"), extended(), origin(), terminating()].join("\n");
    let (_, schedules) = assemble_schedules(&text, &table());
    assert_eq!(schedules.len(), 2);
    assert_eq!(schedules[0].locs.len(), 2);
    assert_eq!(schedules[1].locs.len(), 4);
}

#[test]
fn problems_are_reported_before_assembly() {
    let t = table();
    let unknown = record("LO", &[(2, "NOWHERE "), (10, "0930 "), (15, "0930"), (28, "TB")], 80);
    let text = [basic_schedule("C1"), unknown].join("\n");
    assert!(matches!(schedule_text_problem(&text, &t), Some(ScheduleTextProblem::UnknownTiploc(k)) if k == "NOWHERE"));
    let early = [extended()].join("\n");
    assert!(matches!(schedule_text_problem(&early, &t), Some(ScheduleTextProblem::OutsideSchedule)));
    assert!(matches!(schedule_text_problem("aé", &t), Some(ScheduleTextProblem::SplitCharacter)));
}
