use std::io::Write;
use train_viewer::archive::archive_file_messages;
use train_viewer::bplan::bplan_entry_lines;
use train_viewer::cif::{parse_line, CIFRowTypes, TiplocTable};
use train_viewer::gzip::decompress_text;
use train_viewer::schedule::{schedule_extract, ScheduleFileProblem, ScheduleTextProblem};

fn gz(text: &[u8]) -> Vec<u8> {
    let mut e = flate2::write::GzEncoder::new(Vec::new(), flate2::Compression::default());
    e.write_all(text).unwrap();
    e.finish().unwrap()
}

#[test]
fn gzipped_text_is_read_back() {
    assert_eq!(decompress_text(&gz(b"hello\nworld")), Some("hello\nworld".to_string()));
    assert_eq!(decompress_text(&gz(b"")), Some(String::new()));
    assert_eq!(decompress_text(b"hello"), None);
    assert_eq!(decompress_text(&gz(&[0xff, 0xfe])), None);
}

#[test]
fn archive_file_gives_its_messages() {
    let file = gz(b"17$<?xml version=\"1.0\"?>\n<Body/>\n18$<?xml?><B/>\n");
    let messages = archive_file_messages(&file).unwrap();
    assert_eq!(messages, vec!["<?xml version=\"1.0\"?>\n<Body/>", "<?xml?><B/>"]);
    assert!(archive_file_messages(b"not gzip").is_none());
}

#[test]
fn bplan_entry_gives_its_lines() {
    let lines = bplan_entry_lines(&gz(b"PIF\t1\nREF\tx\n")).unwrap();
    assert_eq!(lines, vec!["PIF\t1", "REF\tx", ""]);
    assert!(bplan_entry_lines(b"").is_none());
}

#[test]
fn schedule_file_problems() {
    let t = TiplocTable::new();
    assert!(matches!(schedule_extract(b"plain", &t), Err(ScheduleFileProblem::NotText)));
    let early = gz(b"BX          VTY");
    assert!(matches!(
        schedule_extract(&early, &t),
        Err(ScheduleFileProblem::Text(ScheduleTextProblem::OutsideSchedule))
    ));
    let (headers, schedules) = schedule_extract(&gz(b"ZZ\n\n"), &t).ok().unwrap();
    assert!(headers.is_empty() && schedules.is_empty());
}

#[test]
fn field_ending_inside_a_character_fails_the_record() {
    let mut line = String::from("HD");
    line.push_str(&" ".repeat(17));
    line.push('é');
    line.push_str(&" ".repeat(60));
    assert!(matches!(parse_line(&line, &TiplocTable::new()), CIFRowTypes::Unknown));
}
