use vstd::prelude::*;
use crate::corpus::{
    is_candidate, is_next, lemma_next_index_is, lemma_next_index_none, next_index, next_match,
    soonest_among, title_matches,
};
use crate::dispatch::{query_of, reply_to};
use crate::event::{first_named, EventView, PropertyView};
use crate::span::{span_days, span_hours, span_minutes};
use crate::text::{contains, lowercase, occurs_at};

verus! {

/// An answer is always an event of the corpus: one whose title matches the
/// query and whose start is not before `now`. No instant that no event
/// carries is ever reported.
pub proof fn law_answer_is_an_event(events: Seq<EventView>, query: Seq<char>, now: i64)
    ensures
        match next_match(events, query, now) {
            Some((title, start)) => exists|at: int|
                0 <= at < events.len() && #[trigger] is_candidate(events[at], query, now)
                    && events[at].title == title && events[at].start == Some(start)
                    && is_next(events, query, now, at),
            None => forall|at: int|
                0 <= at < events.len() ==> !#[trigger] is_candidate(events[at], query, now),
        },
{
    match next_index(events, query, now) {
        Some(at) => {
            assert(is_next(events, query, now, at));
            assert(is_candidate(events[at], query, now));
        },
        None => {
            if exists|at: int| 0 <= at < events.len() && #[trigger] is_candidate(events[at], query, now) {
                let some = choose|at: int| 0 <= at < events.len() && #[trigger] is_candidate(events[at], query, now);
                lemma_candidate_gives_answer(events, query, now, events.len() as int, some);
                let found = choose|at: int| soonest_among(events, query, now, events.len() as int, at);
                assert(is_next(events, query, now, found));
            }
        },
    }
}

/// Where a candidate stands among the first `n` events, one of them is the
/// soonest.
proof fn lemma_candidate_gives_answer(events: Seq<EventView>, query: Seq<char>, now: i64, n: int, some: int)
    requires
        0 <= some < n <= events.len(),
        is_candidate(events[some], query, now),
    ensures
        exists|at: int| soonest_among(events, query, now, n, at),
    decreases n,
{
    let last = n - 1;
    if exists|j: int| 0 <= j < last && #[trigger] is_candidate(events[j], query, now) {
        let j = choose|j: int| 0 <= j < last && #[trigger] is_candidate(events[j], query, now);
        lemma_candidate_gives_answer(events, query, now, last, j);
        let before = choose|at: int| soonest_among(events, query, now, last, at);
        if is_candidate(events[last], query, now) && events[last].start.unwrap() < events[before].start.unwrap() {
            assert(soonest_among(events, query, now, n, last));
        } else {
            assert(soonest_among(events, query, now, n, before));
        }
    } else {
        assert(some == last);
        assert(soonest_among(events, query, now, n, last));
    }
}

/// A query that no title in the corpus matches has no answer.
pub proof fn law_no_matching_title_no_answer(events: Seq<EventView>, query: Seq<char>, now: i64)
    requires
        forall|at: int| 0 <= at < events.len() ==> !title_matches(#[trigger] events[at].title, query),
    ensures
        next_match(events, query, now) is None,
{
    assert forall|at: int| 0 <= at < events.len() implies !#[trigger] is_candidate(events[at], query, now) by {
        assert(!title_matches(events[at].title, query));
    }
    lemma_next_index_none(events, query, now);
}

/// An event that starts before `now` is never the answer, whatever its
/// title, and neither is one without a start.
pub proof fn law_past_event_never_answers(events: Seq<EventView>, query: Seq<char>, now: i64, at: int)
    requires
        0 <= at < events.len(),
        events[at].start is None || events[at].start.unwrap() < now,
    ensures
        next_index(events, query, now) != Some(at),
        next_match(events, query, now) matches Some((_, start)) ==> start >= now,
{
    law_answer_is_an_event(events, query, now);
}

/// Of two events that both match and both start at or after `now`, the one
/// that starts later is not the answer, and the answer starts no later than
/// the earlier of them.
pub proof fn law_sooner_event_wins(events: Seq<EventView>, query: Seq<char>, now: i64, early: int, late: int)
    requires
        0 <= early < events.len(),
        0 <= late < events.len(),
        is_candidate(events[early], query, now),
        is_candidate(events[late], query, now),
        events[early].start.unwrap() < events[late].start.unwrap(),
    ensures
        next_index(events, query, now) != Some(late),
        next_match(events, query, now) matches Some((_, start)) && start <= events[early].start.unwrap(),
{
    law_answer_is_an_event(events, query, now);
}

/// In a corpus of exactly two events with matching titles and different
/// starts at or after `now`, the answer is the one that starts first,
/// whichever way round they were added.
pub proof fn law_sooner_of_two(a: EventView, b: EventView, query: Seq<char>, now: i64)
    requires
        is_candidate(a, query, now),
        is_candidate(b, query, now),
        a.start.unwrap() < b.start.unwrap(),
    ensures
        next_match(seq![a, b], query, now) == Some((a.title, a.start.unwrap())),
        next_match(seq![b, a], query, now) == Some((a.title, a.start.unwrap())),
{
    assert(is_next(seq![a, b], query, now, 0));
    lemma_next_index_is(seq![a, b], query, now, 0);
    assert(is_next(seq![b, a], query, now, 1));
    lemma_next_index_is(seq![b, a], query, now, 1);
}

/// Letter case does not count: titles and queries that agree in lowercase
/// form match alike, and two queries that agree in lowercase form have the
/// same answer from every corpus at every instant.
pub proof fn law_case_is_ignored(events: Seq<EventView>, title: Seq<char>, other_title: Seq<char>, query: Seq<char>, other_query: Seq<char>, now: i64)
    requires
        lowercase(title) == lowercase(other_title),
        lowercase(query) == lowercase(other_query),
    ensures
        title_matches(title, query) == title_matches(other_title, other_query),
        next_index(events, query, now) == next_index(events, other_query, now),
        next_match(events, query, now) == next_match(events, other_query, now),
{
    assert forall|at: int| 0 <= at < events.len() implies is_candidate(events[at], query, now) == is_candidate(events[at], other_query, now) by {}
    match next_index(events, query, now) {
        Some(at) => {
            assert(is_next(events, query, now, at));
            assert(is_next(events, other_query, now, at));
            lemma_next_index_is(events, other_query, now, at);
        },
        None => {
            law_answer_is_an_event(events, query, now);
            lemma_next_index_none(events, other_query, now);
        },
    }
}

/// Matching is by containment: a title that matches a query also matches
/// every query whose lowercase form is a contiguous run of the first one's.
pub proof fn law_part_of_a_matching_query_matches(title: Seq<char>, query: Seq<char>, part: Seq<char>)
    requires
        title_matches(title, query),
        contains(lowercase(query), lowercase(part)),
    ensures
        title_matches(title, part),
{
    let hay = lowercase(title);
    let whole = lowercase(query);
    let piece = lowercase(part);
    let i = choose|i: int| occurs_at(hay, whole, i);
    let j = choose|j: int| occurs_at(whole, piece, j);
    assert(hay.subrange(i + j, i + j + piece.len()) =~= hay.subrange(i, i + whole.len()).subrange(j, j + piece.len()));
    assert(occurs_at(hay, piece, i + j));
}

/// A message that does not begin with the command word and a space gets no
/// reply, from any corpus at any instant.
pub proof fn law_other_messages_get_no_reply(events: Seq<EventView>, command: Seq<char>, message: Seq<char>, now: i64)
    requires
        !command.push(' ').is_prefix_of(message),
    ensures
        query_of(message, command) is None,
        reply_to(events, command, message, now) is None,
{
}

/// The parts of a span: fewer than 24 hours, fewer than 60 minutes, and days,
/// hours and minutes together are the whole minutes of the span, so that less
/// than a minute of it goes unsaid.
pub proof fn law_span_parts(seconds: nat)
    ensures
        span_hours(seconds) < 24,
        span_minutes(seconds) < 60,
        (span_days(seconds) * 1440 + span_hours(seconds) * 60 + span_minutes(seconds)) * 60 <= seconds,
        seconds < (span_days(seconds) * 1440 + span_hours(seconds) * 60 + span_minutes(seconds)) * 60 + 60,
{
}

/// What `first_named` finds: the earliest position with that name, or
/// nothing when no position has it.
pub proof fn law_first_named_is_earliest(props: Seq<PropertyView>, name: Seq<char>, n: int)
    requires
        0 <= n <= props.len(),
    ensures
        match first_named(props, name, n) {
            Some(i) => {
                &&& 0 <= i < n
                &&& props[i].name == name
                &&& forall|j: int| 0 <= j < i ==> props[j].name != name
            },
            None => forall|j: int| 0 <= j < n ==> props[j].name != name,
        },
    decreases n,
{
    if n > 0 {
        law_first_named_is_earliest(props, name, n - 1);
    }
}

} // verus!
