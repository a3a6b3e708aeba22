use train_viewer::archive::parse_xml_messages;

#[test]
fn messages_after_an_id_and_dollar() {
    let content = "1$<?xml version=\"1.0\"?>\n<A>\n</A>\n2$<?xml version=\"1.0\"?><B/>\n";
    let messages = parse_xml_messages(content);
    assert_eq!(
        messages,
        vec!["<?xml version=\"1.0\"?>\n<A>\n</A>", "<?xml version=\"1.0\"?><B/>"]
    );
}

#[test]
fn messages_starting_on_their_own_line() {
    let content = "junk before\n  <PassengerTrainConsistMessage>\n<x/>\n</PassengerTrainConsistMessage>\n";
    let messages = parse_xml_messages(content);
    assert_eq!(
        messages,
        vec!["<PassengerTrainConsistMessage>\n<x/>\n</PassengerTrainConsistMessage>"]
    );
}

#[test]
fn text_without_a_message_gives_none() {
    assert!(parse_xml_messages("").is_empty());
    assert!(parse_xml_messages("a$b\nplain\n").is_empty());
}

#[test]
fn every_message_is_non_empty_and_starts_with_a_tag() {
    let content = "x$  <?xml?>\r\nbody\n\n7$<PassengerTrainConsistMessage/>\n  <?xml a?>  \n";
    let messages = parse_xml_messages(content);
    assert_eq!(messages.len(), 3);
    for m in &messages {
        assert!(!m.is_empty());
        assert!(m.starts_with("<?xml") || m.starts_with("<PassengerTrainConsistMessage"));
    }
    assert_eq!(messages[0], "<?xml?>\nbody");
}

#[test]
fn joined_archives_join_their_messages() {
    let pairs = [
        ("1$<?xml?>\nbody", "2$<?xml?><B/>\ntail"),
        ("1$<?xml?>\nbody\r", "  <PassengerTrainConsistMessage/>"),
        ("", "<?xml?>"),
        ("1$<?xml?>\n", "3$<?xml?>x"),
    ];
    for (c1, c2) in pairs {
        let joined = parse_xml_messages(&format!("{c1}\n{c2}"));
        let mut apart = parse_xml_messages(c1);
        apart.extend(parse_xml_messages(c2));
        assert_eq!(joined, apart);
    }
}

#[test]
fn text_before_the_first_message_is_ignored() {
    let preamble = "header line\nid$no message here\r";
    let content = "9$<?xml?>\n<body/>";
    assert_eq!(
        parse_xml_messages(&format!("{preamble}\n{content}")),
        parse_xml_messages(content)
    );
    assert_eq!(parse_xml_messages(&format!("{preamble}\n{content}")), vec!["<?xml?>\n<body/>"]);
}
