use whenis::corpus::App;
use whenis::dispatch::{extract_query, span_until, Action, Inbound, REPLY_DELAY_MILLIS};
use whenis::event::Event;

const T: i64 = 1_677_934_800;
const HOUR: i64 = 3600;

fn qualifying_corpus() -> App {
    let mut app = App::new();
    app.add_events(vec![
        Event { title: "Qualifying".to_string(), start: Some(T + 2 * HOUR) },
        Event { title: "Qualifying".to_string(), start: Some(T + 26 * HOUR) },
    ]);
    app
}

#[test]
fn two_qualifyings_scenario() {
    let app = qualifying_corpus();
    let (title, start) = app.search("quali".to_string(), T).unwrap();
    assert_eq!(title, "Qualifying");
    assert_eq!(start, T + 2 * HOUR);
    assert_eq!(App::format_duration(span_until(T, start)), "2 Hours");

    let now = T + 3 * HOUR;
    let (title, start) = app.search("quali".to_string(), now).unwrap();
    assert_eq!(title, "Qualifying");
    assert_eq!(start, T + 26 * HOUR);
    assert_eq!(App::format_duration(span_until(now, start)), "23 Hours");
}

#[test]
fn reply_names_span_and_title() {
    let app = qualifying_corpus();
    let reply = app.respond("whenis", "whenis quali", T).unwrap();
    assert_eq!(reply.text, "2 Hours until Qualifying");
    assert_eq!(reply.delay_millis, 500);
    assert_eq!(REPLY_DELAY_MILLIS, 500);
    let reply = app.respond("whenis", "whenis QUALIFYING", T + 3 * HOUR + 60).unwrap();
    assert_eq!(reply.text, "22 Hours and 59 Minutes until Qualifying");
    let reply = app.respond("whenis", "whenis quali", T + 2 * HOUR).unwrap();
    assert_eq!(reply.text, "0 Minutes until Qualifying");
}

#[test]
fn message_without_the_command_gets_no_reply() {
    let app = qualifying_corpus();
    assert!(app.respond("whenis", "quali", T).is_none());
    assert!(app.respond("whenis", "", T).is_none());
    assert!(app.respond("whenis", "hello whenis quali", T).is_none());
    assert!(app.respond("whenis", " whenis quali", T).is_none());
    assert!(app.respond("whenis", "Whenis quali", T).is_none());
}

#[test]
fn command_without_a_separator_gets_no_reply() {
    let app = qualifying_corpus();
    assert!(app.respond("whenis", "whenis", T).is_none());
    assert!(app.respond("whenis", "whenisquali", T).is_none());
    assert!(app.respond("whenis", "whenis\tquali", T).is_none());
}

#[test]
fn query_without_an_answer_gets_no_reply() {
    let app = qualifying_corpus();
    assert!(app.respond("whenis", "whenis race", T).is_none());
    assert!(app.respond("whenis", "whenis quali", T + 27 * HOUR).is_none());
    assert!(app.respond("whenis", "whenis  quali", T).is_none());
    assert!(App::new().respond("whenis", "whenis quali", T).is_none());
}

#[test]
fn query_is_everything_behind_the_separator() {
    assert_eq!(extract_query("whenis quali", "whenis"), Some("quali".to_string()));
    assert_eq!(extract_query("whenis grand prix ", "whenis"), Some("grand prix ".to_string()));
    assert_eq!(extract_query("whenis  quali", "whenis"), Some(" quali".to_string()));
    assert_eq!(extract_query("whenis ", "whenis"), Some("".to_string()));
    assert_eq!(extract_query("whenis", "whenis"), None);
    assert_eq!(extract_query("when quali", "whenis"), None);
    assert_eq!(extract_query("!next race", "!next"), Some("race".to_string()));
    assert_eq!(extract_query(" x", ""), Some("x".to_string()));
}

#[test]
fn span_is_the_distance_in_seconds() {
    assert_eq!(span_until(T, T), 0);
    assert_eq!(span_until(T, T + 2 * HOUR), 7200);
    assert_eq!(span_until(-5, 5), 10);
    assert_eq!(span_until(i64::MIN, i64::MAX), u64::MAX);
}

#[test]
fn step_answers_a_query_after_the_delay() {
    let app = qualifying_corpus();
    match app.step("whenis", &Inbound::Message("whenis quali".to_string()), T) {
        Action::Send(reply) => {
            assert_eq!(reply.text, "2 Hours until Qualifying");
            assert_eq!(reply.delay_millis, 500);
        }
        _ => panic!("a reply was owed"),
    }
}

#[test]
fn step_stays_silent_on_other_messages() {
    let app = qualifying_corpus();
    assert!(matches!(app.step("whenis", &Inbound::Message("hello there".to_string()), T), Action::Wait));
    assert!(matches!(app.step("whenis", &Inbound::Message("whenis race".to_string()), T), Action::Wait));
    assert!(matches!(app.step("whenis", &Inbound::Message("whenisquali".to_string()), T), Action::Wait));
}

#[test]
fn step_reports_failures_and_goes_on() {
    let app = qualifying_corpus();
    match app.step("whenis", &Inbound::ReceiveFailed("connection reset".to_string()), T) {
        Action::Report(line) => assert_eq!(line, "Error: connection reset"),
        _ => panic!("a report was owed"),
    }
    match app.step("whenis", &Inbound::SendFailed("throttled".to_string()), T) {
        Action::Report(line) => assert_eq!(line, "Error while sending: throttled"),
        _ => panic!("a report was owed"),
    }
    assert!(matches!(app.step("whenis", &Inbound::Message("whenis quali".to_string()), T), Action::Send(_)));
}
