use whenis::calendar::Calendar;
use whenis::corpus::App;
use whenis::event::Property;

fn prop(name: &str, value: Option<&str>) -> Property {
    Property { name: name.to_string(), value: value.map(|v| v.to_string()) }
}

#[test]
fn add_cal_reads_events_in_order() {
    let text = "BEGIN:VCALENDAR\nBEGIN:VEVENT\nSUMMARY:First\nDTSTART:20230304T150000Z\nEND:VEVENT\n\
BEGIN:VEVENT\nDTSTART:20230305T150000Z\nEND:VEVENT\n\
BEGIN:VEVENT\nSUMMARY:Third\nEND:VEVENT\nEND:VCALENDAR\n\
BEGIN:VCALENDAR\nBEGIN:VEVENT\nSUMMARY:Fourth\nDTSTART;VALUE=DATE:20230306\nEND:VEVENT\nEND:VCALENDAR\n";
    let mut app = App::new();
    let failures = app.add_cal(text);
    assert!(failures.is_empty());
    let held = app.all_events();
    assert_eq!(held.len(), 3);
    assert_eq!(held[0].title, "First");
    assert_eq!(held[0].start, Some(1_677_942_000));
    assert_eq!(held[1].title, "Third");
    assert_eq!(held[1].start, None);
    assert_eq!(held[2].title, "Fourth");
    assert_eq!(held[2].start, None);
}

#[test]
fn add_cal_appends_and_never_merges() {
    let text = "BEGIN:VCALENDAR\nBEGIN:VEVENT\nSUMMARY:Race\nDTSTART:20230304T150000Z\nEND:VEVENT\nEND:VCALENDAR\n";
    let mut app = App::new();
    app.add_cal(text);
    app.add_cal(text);
    let held = app.all_events();
    assert_eq!(held.len(), 2);
    assert_eq!(held[0].title, "Race");
    assert_eq!(held[1].title, "Race");
    assert_eq!(held[0].start, held[1].start);
}

#[test]
fn add_cal_reports_a_calendar_that_cannot_be_read() {
    let text = "BEGIN:VCALENDAR\nBEGIN:VEVENT\nSUMMARY:Race\nDTSTART:20230304T150000Z\nEND:VEVENT\n";
    let mut app = App::new();
    let failures = app.add_cal(text);
    assert_eq!(failures, vec!["incomplete object".to_string()]);
    assert!(app.all_events().is_empty());

    let failures = app.add_cal("SUMMARY:Race\n");
    assert_eq!(failures, vec!["missing header".to_string()]);
    assert!(app.all_events().is_empty());

    let failures = app.add_cal("");
    assert!(failures.is_empty());
    assert!(app.all_events().is_empty());
}

#[test]
fn add_parsed_skips_failures_and_keeps_the_rest() {
    let first = Calendar {
        events: vec![
            vec![prop("SUMMARY", Some("One")), prop("DTSTART", Some("20230304T150000Z"))],
            vec![prop("DTSTART", Some("20230304T150000Z"))],
        ],
    };
    let second = Calendar { events: vec![vec![prop("SUMMARY", Some("Two"))]] };
    let parsed = vec![Ok(first), Err("broken".to_string()), Ok(second), Err("again".to_string())];
    let mut app = App::new();
    app.add_events(vec![whenis::event::Event { title: "Zero".to_string(), start: Some(0) }]);
    let failures = app.add_parsed(&parsed);
    assert_eq!(failures, vec!["broken".to_string(), "again".to_string()]);
    let held = app.all_events();
    assert_eq!(held.len(), 3);
    assert_eq!(held[0].title, "Zero");
    assert_eq!(held[1].title, "One");
    assert_eq!(held[1].start, Some(1_677_942_000));
    assert_eq!(held[2].title, "Two");
    assert_eq!(held[2].start, None);
}

#[test]
fn calendar_lists_only_titled_components() {
    let calendar = Calendar {
        events: vec![
            vec![prop("DTSTART", Some("20230304T150000Z"))],
            vec![prop("SUMMARY", Some("Kept")), prop("DTSTART", Some("20230304T150000Z"))],
            vec![prop("SUMMARY", None)],
        ],
    };
    let events = calendar.to_events();
    assert_eq!(events.len(), 1);
    assert_eq!(events[0].title, "Kept");
    assert_eq!(events[0].start, Some(1_677_942_000));
    assert!(Calendar { events: vec![] }.to_events().is_empty());
}
