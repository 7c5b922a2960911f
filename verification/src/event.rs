use vstd::prelude::*;
use vstd::string::*;

verus! {

/// One line of a calendar component: a name and, where the line carries one,
/// a value.
pub struct Property {
    pub name: String,
    pub value: Option<String>,
}

/// A property as contracts see it.
pub struct PropertyView {
    pub name: Seq<char>,
    pub value: Option<Seq<char>>,
}

impl View for Property {
    type V = PropertyView;

    open spec fn view(&self) -> PropertyView {
        PropertyView {
            name: self.name@,
            value: match self.value {
                Some(text) => Some(text@),
                None => None,
            },
        }
    }
}

/// A calendar occurrence. `start` counts whole seconds from the Unix epoch,
/// in UTC; an event whose start could not be read has none.
pub struct Event {
    pub title: String,
    pub start: Option<i64>,
}

/// An event as contracts see it.
pub struct EventView {
    pub title: Seq<char>,
    pub start: Option<i64>,
}

impl View for Event {
    type V = EventView;

    open spec fn view(&self) -> EventView {
        EventView { title: self.title@, start: self.start }
    }
}

/// The properties of a list as contracts see them.
pub open spec fn property_views(props: Seq<Property>) -> Seq<PropertyView> {
    props.map_values(|p: Property| p@)
}

/// The events of a list as contracts see them.
pub open spec fn event_views(events: Seq<Event>) -> Seq<EventView> {
    events.map_values(|e: Event| e@)
}

/// The instant that a text denotes under a format of chrono's `strftime`
/// syntax, as whole seconds from the Unix epoch; `None` where the text does
/// not fit the format or names no valid date and time.
pub uninterp spec fn instant_of(text: Seq<char>, format: Seq<char>) -> Option<i64>;

/// `chrono::NaiveDateTime::parse_from_str`, the parsed date and time then
/// read as UTC (`and_utc`) and turned into seconds from the Unix epoch
/// (`timestamp`). The result is only named: it depends on the two texts
/// alone. A text or a format that cannot be parsed gives `None`.
#[verifier::external_body]
pub(crate) fn parse_instant(text: &str, format: &str) -> (r: Option<i64>)
    ensures
        r == instant_of(text@, format@),
{
    match chrono::NaiveDateTime::parse_from_str(text, format) {
        Ok(parsed) => Some(parsed.and_utc().timestamp()),
        Err(_) => None,
    }
}

/// The format in which calendars write the start of an event: a basic
/// ISO 8601 date and time in UTC, such as `20230304T150000Z`.
pub open spec fn start_format() -> Seq<char> {
    "%Y%m%dT%H%M%SZ"@
}

/// The start instant that a calendar's start value denotes, if any.
pub open spec fn start_of(value: Option<Seq<char>>) -> Option<i64> {
    match value {
        Some(text) => instant_of(text, start_format()),
        None => None,
    }
}

/// Position of the first property among the first `n` that is called `name`,
/// if there is one.
pub open spec fn first_named(props: Seq<PropertyView>, name: Seq<char>, n: int) -> Option<int>
    decreases n,
{
    if n <= 0 {
        None
    } else {
        match first_named(props, name, n - 1) {
            Some(i) => Some(i),
            None => if props[n - 1].name == name {
                Some(n - 1)
            } else {
                None
            },
        }
    }
}

/// Once a position is found, looking at more properties changes nothing.
proof fn lemma_first_found(props: Seq<PropertyView>, name: Seq<char>, i: int, n: int)
    requires
        0 <= i < n <= props.len(),
        first_named(props, name, i) is None,
        props[i].name == name,
    ensures
        first_named(props, name, n) == Some(i),
    decreases n,
{
    if n > i + 1 {
        lemma_first_found(props, name, i, n - 1);
    }
}

/// The value of the first property called `name`: none where no property is
/// called so, and none where the first that is carries none.
pub open spec fn value_of(props: Seq<PropertyView>, name: Seq<char>) -> Option<Seq<char>> {
    match first_named(props, name, props.len() as int) {
        Some(i) => props[i].value,
        None => None,
    }
}

/// Finds the value of the first property called `name`.
pub fn find_value<'a>(props: &'a Vec<Property>, name: &str) -> (r: Option<&'a String>)
    ensures
        match r {
            Some(text) => value_of(property_views(props@), name@) == Some(text@),
            None => value_of(property_views(props@), name@) is None,
        },
{
    let wanted = String::from_str(name);
    let mut i: usize = 0;
    while i < props.len()
        invariant
            i <= props.len(),
            wanted@ == name@,
            first_named(property_views(props@), name@, i as int) is None,
        decreases props.len() - i,
    {
        if props[i].name == wanted {
            proof {
                lemma_first_found(property_views(props@), name@, i as int, props@.len() as int);
            }
            return match &props[i].value {
                Some(text) => Some(text),
                None => None,
            };
        }
        i += 1;
    }
    None
}

/// The event that a calendar component with these properties describes. The
/// title is the value of the first `SUMMARY`; without a `SUMMARY`, or where
/// the first carries no value, the component describes no event. The start
/// is read from the value of the first `DTSTART`, and is absent where there
/// is none, where it carries no value or where the value does not denote an
/// instant.
pub open spec fn event_of(props: Seq<PropertyView>) -> Option<EventView> {
    match value_of(props, "SUMMARY"@) {
        Some(title) => Some(EventView { title, start: start_of(value_of(props, "DTSTART"@)) }),
        None => None,
    }
}

impl Event {
    /// Reads an event from the properties of a calendar component.
    pub fn from_properties(props: &Vec<Property>) -> (r: Option<Event>)
        ensures
            match r {
                Some(event) => event_of(property_views(props@)) == Some(event@),
                None => event_of(property_views(props@)) is None,
            },
    {
        match find_value(props, "SUMMARY") {
            Some(title) => {
                let start = match find_value(props, "DTSTART") {
                    Some(text) => parse_instant(text.as_str(), "%Y%m%dT%H%M%SZ"),
                    None => None,
                };
                Some(Event { title: title.clone(), start })
            },
            None => None,
        }
    }
}

} // verus!
