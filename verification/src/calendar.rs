use vstd::prelude::*;
use vstd::string::*;
use crate::corpus::App;
use crate::event::{event_of, event_views, property_views, Event, EventView, Property, PropertyView};

verus! {

/// What was read of one calendar: its event components in the order in which
/// the calendar lists them, each as its properties.
pub struct Calendar {
    pub events: Vec<Vec<Property>>,
}

impl View for Calendar {
    type V = Seq<Seq<PropertyView>>;

    open spec fn view(&self) -> Seq<Seq<PropertyView>> {
        self.events@.map_values(|component: Vec<Property>| property_views(component@))
    }
}

/// One entry of a parsed text as contracts see it: the components of a
/// calendar, or the message of a failure.
pub open spec fn outcome_view(outcome: Result<Calendar, String>) -> Result<Seq<Seq<PropertyView>>, Seq<char>> {
    match outcome {
        Ok(calendar) => Ok(calendar@),
        Err(message) => Err(message@),
    }
}

/// The entries of a parsed text as contracts see them.
pub open spec fn outcome_views(parsed: Seq<Result<Calendar, String>>) -> Seq<Result<Seq<Seq<PropertyView>>, Seq<char>>> {
    parsed.map_values(|outcome: Result<Calendar, String>| outcome_view(outcome))
}

/// The texts of a list of strings.
pub open spec fn texts(strings: Seq<String>) -> Seq<Seq<char>> {
    strings.map_values(|s: String| s@)
}

/// The calendars that a text in iCalendar form holds, in order: of each its
/// event components. A calendar that could not be read stands as the message
/// that says why.
pub uninterp spec fn calendars_of(text: Seq<char>) -> Seq<Result<Seq<Seq<PropertyView>>, Seq<char>>>;

/// `ical::IcalParser` run over the whole of a text held in memory: one entry
/// for each item that the parser yields. Of a calendar the event components
/// are kept, of each its properties, of each property name and value; a
/// parser error is kept as its message. The result is only named: it
/// depends on the text alone.
#[verifier::external_body]
pub(crate) fn parse_calendars(text: &str) -> (r: Vec<Result<Calendar, String>>)
    ensures
        outcome_views(r@) == calendars_of(text@),
{
    ical::IcalParser::new(text.as_bytes()).map(|item| match item {
        Ok(calendar) => Ok(Calendar {
            events: calendar.events.into_iter().map(|event|
                event.properties.into_iter().map(|p| Property { name: p.name, value: p.value }).collect()
            ).collect(),
        }),
        Err(error) => Err(error.to_string()),
    }).collect()
}

/// The events that the first `n` components describe, in order. A component
/// that describes none is passed over.
pub open spec fn events_of(components: Seq<Seq<PropertyView>>, n: int) -> Seq<EventView>
    decreases n,
{
    if n <= 0 {
        Seq::empty()
    } else {
        match event_of(components[n - 1]) {
            Some(event) => events_of(components, n - 1).push(event),
            None => events_of(components, n - 1),
        }
    }
}

/// The events that a calendar with these components lists.
pub open spec fn listed(components: Seq<Seq<PropertyView>>) -> Seq<EventView> {
    events_of(components, components.len() as int)
}

/// The events of the first `n` entries of a parsed text, calendar after
/// calendar. An entry that failed gives none.
pub open spec fn events_in(parsed: Seq<Result<Seq<Seq<PropertyView>>, Seq<char>>>, n: int) -> Seq<EventView>
    decreases n,
{
    if n <= 0 {
        Seq::empty()
    } else {
        match parsed[n - 1] {
            Ok(components) => events_in(parsed, n - 1) + listed(components),
            Err(_) => events_in(parsed, n - 1),
        }
    }
}

/// The messages of the entries that failed among the first `n`, in order.
pub open spec fn failures_in(parsed: Seq<Result<Seq<Seq<PropertyView>>, Seq<char>>>, n: int) -> Seq<Seq<char>>
    decreases n,
{
    if n <= 0 {
        Seq::empty()
    } else {
        match parsed[n - 1] {
            Ok(_) => failures_in(parsed, n - 1),
            Err(message) => failures_in(parsed, n - 1).push(message),
        }
    }
}

impl Calendar {
    /// Reads the events that the calendar lists.
    pub fn to_events(&self) -> (r: Vec<Event>)
        ensures
            event_views(r@) == listed(self@),
    {
        let mut found: Vec<Event> = Vec::new();
        let mut i: usize = 0;
        assert(event_views(found@) =~= events_of(self@, 0));
        while i < self.events.len()
            invariant
                i <= self.events.len(),
                event_views(found@) == events_of(self@, i as int),
            decreases self.events.len() - i,
        {
            let ghost before = found@;
            match Event::from_properties(&self.events[i]) {
                Some(event) => {
                    found.push(event);
                    assert(event_views(found@) =~= event_views(before).push(event@));
                },
                None => {},
            }
            i += 1;
        }
        found
    }
}

impl App {
    /// Takes in what was read of a text: the events of every calendar that
    /// was read go behind those already held, and the messages of those that
    /// failed are handed back. A failed calendar changes nothing else.
    pub fn add_parsed(&mut self, parsed: &Vec<Result<Calendar, String>>) -> (failures: Vec<String>)
        ensures
            final(self)@ == old(self)@ + events_in(outcome_views(parsed@), parsed@.len() as int),
            texts(failures@) == failures_in(outcome_views(parsed@), parsed@.len() as int),
    {
        let mut failures: Vec<String> = Vec::new();
        let mut i: usize = 0;
        assert(self@ =~= old(self)@ + events_in(outcome_views(parsed@), 0));
        assert(texts(failures@) =~= failures_in(outcome_views(parsed@), 0));
        while i < parsed.len()
            invariant
                i <= parsed.len(),
                self@ == old(self)@ + events_in(outcome_views(parsed@), i as int),
                texts(failures@) == failures_in(outcome_views(parsed@), i as int),
            decreases parsed.len() - i,
        {
            let ghost told = failures@;
            match &parsed[i] {
                Ok(calendar) => {
                    self.add_events(calendar.to_events());
                    assert(self@ =~= old(self)@ + events_in(outcome_views(parsed@), i + 1));
                },
                Err(message) => {
                    failures.push(message.clone());
                    assert(texts(failures@) =~= texts(told).push(message@));
                },
            }
            i += 1;
        }
        failures
    }

    /// Reads the calendars of a text in iCalendar form and takes in their
    /// events. Hands back the messages of the calendars that could not be
    /// read; their events are absent, the others are all there.
    pub fn add_cal(&mut self, text: &str) -> (failures: Vec<String>)
        ensures
            final(self)@ == old(self)@ + events_in(calendars_of(text@), calendars_of(text@).len() as int),
            texts(failures@) == failures_in(calendars_of(text@), calendars_of(text@).len() as int),
    {
        let parsed = parse_calendars(text);
        self.add_parsed(&parsed)
    }
}

} // verus!
