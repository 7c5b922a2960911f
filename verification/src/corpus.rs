use vstd::prelude::*;
use vstd::string::*;
use crate::event::{event_views, Event, EventView};
use crate::text::{contains, lowercase, str_contains, to_lowercase};

verus! {

/// Whether a title answers a query: the lowercase form of the title holds
/// the lowercase form of the query as a contiguous run.
pub open spec fn title_matches(title: Seq<char>, query: Seq<char>) -> bool {
    contains(lowercase(title), lowercase(query))
}

/// Whether an event may be the answer to a query asked at `now`: its title
/// matches, it has a start, and that start is not before `now`.
pub open spec fn is_candidate(event: EventView, query: Seq<char>, now: i64) -> bool {
    &&& title_matches(event.title, query)
    &&& event.start is Some
    &&& event.start.unwrap() >= now
}

/// Whether position `at` holds the soonest candidate among the first `n`
/// events: no candidate there starts earlier, and of those that start at the
/// same instant it is the first.
pub open spec fn soonest_among(events: Seq<EventView>, query: Seq<char>, now: i64, n: int, at: int) -> bool {
    &&& 0 <= at < n <= events.len()
    &&& is_candidate(events[at], query, now)
    &&& forall|j: int|
        0 <= j < n && #[trigger] is_candidate(events[j], query, now) ==> {
            ||| events[at].start.unwrap() < events[j].start.unwrap()
            ||| (events[at].start.unwrap() == events[j].start.unwrap() && at <= j)
        }
}

/// Whether position `at` holds the answer to a query asked at `now`.
pub open spec fn is_next(events: Seq<EventView>, query: Seq<char>, now: i64, at: int) -> bool {
    soonest_among(events, query, now, events.len() as int, at)
}

/// The position of the answer, if there is one.
pub open spec fn next_index(events: Seq<EventView>, query: Seq<char>, now: i64) -> Option<int> {
    if exists|at: int| is_next(events, query, now, at) {
        Some(choose|at: int| is_next(events, query, now, at))
    } else {
        None
    }
}

/// The answer to a query asked at `now`: title and start of the soonest
/// event that matches and has not begun, the first of them in the corpus if
/// several start together; `None` if no event qualifies.
pub open spec fn next_match(events: Seq<EventView>, query: Seq<char>, now: i64) -> Option<(Seq<char>, i64)> {
    match next_index(events, query, now) {
        Some(at) => Some((events[at].title, events[at].start.unwrap())),
        None => None,
    }
}

/// At most one position holds the answer.
pub proof fn lemma_next_unique(events: Seq<EventView>, query: Seq<char>, now: i64, a: int, b: int)
    requires
        is_next(events, query, now, a),
        is_next(events, query, now, b),
    ensures
        a == b,
{
}

/// A position that holds the answer is the one that `next_index` names.
pub proof fn lemma_next_index_is(events: Seq<EventView>, query: Seq<char>, now: i64, at: int)
    requires
        is_next(events, query, now, at),
    ensures
        next_index(events, query, now) == Some(at),
{
    let chosen = choose|c: int| is_next(events, query, now, c);
    lemma_next_unique(events, query, now, chosen, at);
}

/// Without a candidate there is no answer.
pub proof fn lemma_next_index_none(events: Seq<EventView>, query: Seq<char>, now: i64)
    requires
        forall|j: int| 0 <= j < events.len() ==> !#[trigger] is_candidate(events[j], query, now),
    ensures
        next_index(events, query, now) is None,
{
}

/// The collection of events that queries are answered from. Events are only
/// ever added: none is changed, merged or taken out.
pub struct App {
    events: Vec<Event>,
}

impl App {
    /// The events held, in the order in which they were added.
    pub closed spec fn view(&self) -> Seq<EventView> {
        event_views(self.events@)
    }

    /// A collection without events.
    pub fn new() -> (r: App)
        ensures
            r@ == Seq::<EventView>::empty(),
    {
        App { events: Vec::new() }
    }

    /// Adds events behind those already held. Nothing is merged or dropped:
    /// an event that is added twice is held twice.
    pub fn add_events(&mut self, events: Vec<Event>)
        ensures
            final(self)@ == old(self)@ + event_views(events@),
    {
        let ghost added = event_views(events@);
        let mut events = events;
        self.events.append(&mut events);
        assert(self@ =~= old(self)@ + added);
    }

    /// The events held, for reading.
    pub fn all_events(&self) -> (r: &Vec<Event>)
        ensures
            event_views(r@) == self@,
    {
        &self.events
    }

    /// Position of the soonest event whose title matches `search_term` and
    /// that does not start before `time`.
    pub fn search_index(&self, search_term: &str, time: i64) -> (r: Option<usize>)
        ensures
            match r {
                Some(at) => next_index(self@, search_term@, time) == Some(at as int),
                None => next_index(self@, search_term@, time) is None,
            },
    {
        let needle = to_lowercase(search_term);
        let mut best: Option<usize> = None;
        let mut i: usize = 0;
        while i < self.events.len()
            invariant
                i <= self.events.len(),
                needle@ == lowercase(search_term@),
                match best {
                    Some(b) => soonest_among(self@, search_term@, time, i as int, b as int),
                    None => forall|j: int|
                        0 <= j < i ==> !#[trigger] is_candidate(self@[j], search_term@, time),
                },
            decreases self.events.len() - i,
        {
            let event = &self.events[i];
            let fits = match event.start {
                Some(start) => start >= time && str_contains(
                    to_lowercase(event.title.as_str()).as_str(),
                    needle.as_str(),
                ),
                None => false,
            };
            assert(fits == is_candidate(self@[i as int], search_term@, time));
            if fits {
                let sooner = match best {
                    Some(b) => match (event.start, self.events[b].start) {
                        (Some(start), Some(first)) => start < first,
                        _ => false,
                    },
                    None => true,
                };
                if sooner {
                    best = Some(i);
                }
            }
            i += 1;
        }
        proof {
            match best {
                Some(b) => lemma_next_index_is(self@, search_term@, time, b as int),
                None => lemma_next_index_none(self@, search_term@, time),
            }
        }
        best
    }

    /// Answers a query asked at `time`: title and start of the soonest event
    /// whose title holds `search_term`, letter case set aside, and that does
    /// not start before `time`.
    pub fn search(&self, search_term: String, time: i64) -> (r: Option<(String, i64)>)
        ensures
            match r {
                Some((title, start)) => next_match(self@, search_term@, time) == Some((title@, start)),
                None => next_match(self@, search_term@, time) is None,
            },
    {
        match self.search_index(search_term.as_str(), time) {
            Some(at) => {
                let event = &self.events[at];
                match event.start {
                    Some(start) => Some((event.title.clone(), start)),
                    None => None,
                }
            },
            None => None,
        }
    }
}

} // verus!
