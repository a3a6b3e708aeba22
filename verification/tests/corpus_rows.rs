use train_viewer::corpus::{get_display_value, location_rows, LocationEntry};

fn entry(nlc: i64) -> LocationEntry {
    LocationEntry {
        nlc,
        stanox: None,
        tiploc: None,
        crs: None,
        uic: None,
        nlcdesc: None,
        axis: None,
        nlcdesc16: None,
    }
}

#[test]
fn display_prefers_the_description() {
    let mut e = entry(999078);
    e.nlcdesc = Some("AXIS/ACRES".to_string());
    e.crs = Some("AXS".to_string());
    let (v, t) = get_display_value(&e);
    assert_eq!((v.as_str(), t), ("AXIS/ACRES", "nlcdesc"));
}

#[test]
fn display_skips_empty_fields() {
    let mut e = entry(5);
    e.nlcdesc = Some(String::new());
    e.nlcdesc16 = Some(String::new());
    e.tiploc = Some("EUSTON".to_string());
    e.uic = Some("70012".to_string());
    let (v, t) = get_display_value(&e);
    assert_eq!((v.as_str(), t), ("EUSTON", "tiploc"));
}

#[test]
fn display_falls_back_to_the_nlc() {
    let (v, t) = get_display_value(&entry(-42));
    assert_eq!((v.as_str(), t), ("-42", "nlc"));
}

#[test]
fn rows_keep_the_last_entry_of_each_nlc() {
    let mut first = entry(1);
    first.crs = Some("AAA".to_string());
    let mut second = entry(2);
    second.stanox = Some("123".to_string());
    let mut again = entry(1);
    again.crs = Some("BBB".to_string());
    let rows = location_rows(&[first, second, again]);
    assert_eq!(rows.len(), 2);
    assert_eq!(rows[0].nlc, "2");
    assert_eq!(rows[0].display, "123");
    assert_eq!(rows[0].display_type, "stanox");
    assert_eq!(rows[1].nlc, "1");
    assert_eq!(rows[1].crs.as_deref(), Some("BBB"));
    assert_eq!(rows[1].display_type, "crs");
    assert!(rows.iter().all(|r| r.id.is_none()));
}
