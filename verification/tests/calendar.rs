use chrono::NaiveDate;
use navigatum::calendar::{collect_events, source_code_link, Event, EventType, XMLEvent};

fn entry(single_id: &str, general_id: &str, kind_name: Option<&str>, course: Option<&str>) -> XMLEvent {
    let start = NaiveDate::from_ymd_opt(2024, 4, 15).unwrap().and_hms_opt(8, 0, 0).unwrap();
    let end = NaiveDate::from_ymd_opt(2024, 4, 15).unwrap().and_hms_opt(10, 0, 0).unwrap();
    XMLEvent {
        dtstart: start,
        dtend: end,
        event_title: "Analysis 1".to_string(),
        single_event_type_id: single_id.to_string(),
        single_event_type_name: "Termin".to_string(),
        event_type_id: general_id.to_string(),
        event_type_name: kind_name.map(|s| s.to_string()),
        course_type_name: course.map(|s| s.to_string()),
    }
}

#[test]
fn single_event_type_decides_first() {
    assert!(matches!(EventType::from(&entry("SPERRE", "LV", None, None)), EventType::Barred));
    assert!(matches!(EventType::from(&entry("PT", "EX", None, None)), EventType::Exam));
    match EventType::from(&entry("P", "EX", None, Some("Vorlesung"))) {
        EventType::Lecture(name) => assert_eq!(name, "Vorlesung"),
        other => panic!("unexpected {:?}", other),
    }
}

#[test]
fn event_type_decides_next() {
    match EventType::from(&entry("X", "LV", None, None)) {
        EventType::Lecture(name) => assert_eq!(name, "Course type is unknown"),
        other => panic!("unexpected {:?}", other),
    }
    assert!(matches!(EventType::from(&entry("X", "PT", None, None)), EventType::Exam));
    assert!(matches!(EventType::from(&entry("X", "EX", None, None)), EventType::Exercise));
}

#[test]
fn other_entries_are_described() {
    match EventType::from(&entry("X", "Y", Some("Sonstiges"), None)) {
        EventType::Other(text) => assert_eq!(text, "Termin: Sonstiges"),
        other => panic!("unexpected {:?}", other),
    }
    match EventType::from(&entry("X", "Y", None, None)) {
        EventType::Other(text) => assert_eq!(text, "Termin"),
        other => panic!("unexpected {:?}", other),
    }
}

#[test]
fn events_keep_title_and_times() {
    let xml = entry("X", "EX", None, None);
    let start = xml.dtstart;
    let event = Event::from_xml_event(xml);
    assert_eq!(event.title, "Analysis 1");
    assert_eq!(event.start, start);
    assert!(matches!(event.entry_type, EventType::Exercise));
}

#[test]
fn collected_events_keep_their_order() {
    let sync = NaiveDate::from_ymd_opt(2024, 4, 14).unwrap().and_hms_opt(3, 0, 0).unwrap();
    let events = collect_events(vec![entry("PT", "", None, None), entry("SPERRE", "", None, None)], sync);
    assert_eq!(events.last_sync, sync);
    assert_eq!(events.events.len(), 2);
    assert!(matches!(events.events[0].entry_type, EventType::Exam));
    assert!(matches!(events.events[1].entry_type, EventType::Barred));
    assert!(collect_events(vec![], sync).events.is_empty());
}

#[test]
fn source_code_link_names_the_commit() {
    assert_eq!(source_code_link(None), "https://github.com/TUM-Dev/navigatum");
    assert_eq!(
        source_code_link(Some("abc123")),
        "https://github.com/TUM-Dev/navigatum/tree/abc123"
    );
}
