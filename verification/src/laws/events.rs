//! How events are collected page by page.
use crate::client::KakarotClient;
use crate::error::{EthApiError, ProviderError};
use crate::events::{EmittedEvent, EventFilterWithPage, EventsPage, GetEvents};
use crate::step::Step;
use vstd::prelude::*;

verus! {

/// The first page is asked for by the filter, the token and the number of events that were given.
pub proof fn first_page_is_the_one_named<P>(
    client: &KakarotClient<P>,
    filter: EventFilterWithPage,
    request: GetEvents,
)
    requires
        call_ensures(KakarotClient::<P>::filter_events, (client, filter), request),
    ensures
        request.filter == filter.event_filter,
        request.continuation_token == filter.result_page_request.continuation_token,
        request.chunk_size == filter.result_page_request.chunk_size,
        request.events@.len() == 0,
{
}

/// A page leaves the events before it in place and appends all of its own, in order. A page that
/// names another leads to the request for that one under the same filter, and any other ends the
/// operation. A failure is the outcome.
pub proof fn page_is_appended<E>(
    request: GetEvents,
    reply: Result<EventsPage, ProviderError<E>>,
    step: Step<GetEvents, Vec<EmittedEvent>, E>,
)
    requires
        call_ensures(GetEvents::resume::<E>, (request, reply), step),
    ensures
        reply matches Err(e) ==> step == Step::<GetEvents, Vec<EmittedEvent>, E>::Done(
            Err(EthApiError::RequestError(e)),
        ),
        reply matches Ok(page) ==> {
            let n = request.events@.len();
            let m = page.events@.len();
            &&& page.continuation_token is None ==> (step matches Step::Done(Ok(events)) && {
                &&& events@.len() == n + m
                &&& forall|i: int| 0 <= i < n ==> #[trigger] events@[i] == request.events@[i]
                &&& forall|j: int| 0 <= j < m ==> events@[n + j] == #[trigger] page.events@[j]
            })
            &&& page.continuation_token is Some ==> (step matches Step::Pending(next) && {
                &&& next.filter == request.filter
                &&& next.chunk_size == request.chunk_size
                &&& next.continuation_token == page.continuation_token
                &&& next.events@.len() == n + m
                &&& forall|i: int| 0 <= i < n ==> #[trigger] next.events@[i] == request.events@[i]
                &&& forall|j: int| 0 <= j < m ==> next.events@[n + j] == #[trigger] page.events@[j]
            })
        },
{
}

/// One page that names no other gives exactly its events.
pub proof fn single_page_gives_its_events<P, E>(
    client: &KakarotClient<P>,
    filter: EventFilterWithPage,
    request: GetEvents,
    page: EventsPage,
    step: Step<GetEvents, Vec<EmittedEvent>, E>,
)
    requires
        call_ensures(KakarotClient::<P>::filter_events, (client, filter), request),
        page.continuation_token is None,
        call_ensures(GetEvents::resume::<E>, (request, Ok(page)), step),
    ensures
        step matches Step::Done(Ok(events)) && events@ == page.events@,
{
    first_page_is_the_one_named(client, filter, request);
    page_is_appended(request, Ok(page), step);
    let events = step->Done_0->Ok_0;
    assert forall|j: int| 0 <= j < page.events@.len() implies events@[j] == page.events@[j] by {
        assert(events@[0 + j] == page.events@[j]);
    }
    assert(events@ =~= page.events@);
}

/// What has been collected before the request at `n`, of which `offsets` counts the events.
proof fn lemma_pages_are_collected<E>(
    requests: Seq<GetEvents>,
    pages: Seq<EventsPage>,
    offsets: Seq<int>,
    n: int,
)
    requires
        0 <= n < requests.len(),
        n <= pages.len(),
        requests[0].events@.len() == 0,
        offsets.len() == pages.len() + 1,
        offsets[0] == 0,
        forall|i: int|
            #![trigger pages[i]]
            0 <= i < pages.len() ==> offsets[i + 1] == offsets[i] + pages[i].events@.len(),
        forall|i: int|
            #![trigger pages[i]]
            0 <= i < n ==> call_ensures(
                GetEvents::resume::<E>,
                (requests[i], Ok(pages[i])),
                Step::Pending(requests[i + 1]),
            ),
    ensures
        requests[n].filter == requests[0].filter,
        requests[n].chunk_size == requests[0].chunk_size,
        n > 0 ==> requests[n].continuation_token == pages[n - 1].continuation_token,
        requests[n].events@.len() == offsets[n],
        forall|i: int|
            #![trigger offsets[i]]
            0 <= i < n ==> 0 <= offsets[i] && offsets[i] + pages[i].events@.len() <= offsets[n],
        forall|i: int, j: int|
            0 <= i < n && 0 <= j < pages[i].events@.len() ==> requests[n].events@[offsets[i] + j]
                == #[trigger] pages[i].events@[j],
    decreases n,
{
    if n > 0 {
        let m = n - 1;
        lemma_pages_are_collected::<E>(requests, pages, offsets, m);
        let before = requests[m];
        let page = pages[m];
        assert(requests[m + 1] == requests[n]);
        page_is_appended::<E>(before, Ok(page), Step::Pending(requests[n]));
        assert(offsets[m + 1] == offsets[m] + page.events@.len());
        assert forall|i: int, j: int| 0 <= i < n && 0 <= j < pages[i].events@.len() implies
            requests[n].events@[offsets[i] + j] == #[trigger] pages[i].events@[j] by {
            if i < m {
                assert(before.events@[offsets[i] + j] == pages[i].events@[j]);
                assert(requests[n].events@[offsets[i] + j] == before.events@[offsets[i] + j]);
            } else {
                assert(requests[n].events@[offsets[m] + j] == page.events@[j]);
            }
        }
    }
}

/// All events of all pages are returned, in order: with `offsets` counting the events of the pages
/// before each page, the event at `j` of the page at `i` stands at `offsets[i] + j`, and there are
/// no other events. Every page after the first is asked for by the token of the one before it,
/// under the filter and the number of events that were given.
pub proof fn all_events_of_all_pages_are_returned<P, E>(
    client: &KakarotClient<P>,
    filter: EventFilterWithPage,
    requests: Seq<GetEvents>,
    pages: Seq<EventsPage>,
    offsets: Seq<int>,
    step: Step<GetEvents, Vec<EmittedEvent>, E>,
)
    requires
        pages.len() > 0,
        requests.len() == pages.len(),
        offsets.len() == pages.len() + 1,
        offsets[0] == 0,
        forall|i: int|
            #![trigger pages[i]]
            0 <= i < pages.len() ==> offsets[i + 1] == offsets[i] + pages[i].events@.len(),
        call_ensures(KakarotClient::<P>::filter_events, (client, filter), requests[0]),
        forall|i: int|
            #![trigger pages[i]]
            0 <= i < pages.len() - 1 ==> call_ensures(
                GetEvents::resume::<E>,
                (requests[i], Ok(pages[i])),
                Step::Pending(requests[i + 1]),
            ),
        pages.last().continuation_token is None,
        call_ensures(GetEvents::resume::<E>, (requests.last(), Ok(pages.last())), step),
    ensures
        forall|i: int|
            #![trigger requests[i]]
            0 <= i < requests.len() ==> requests[i].filter == filter.event_filter
                && requests[i].chunk_size == filter.result_page_request.chunk_size,
        requests[0].continuation_token == filter.result_page_request.continuation_token,
        forall|i: int|
            #![trigger pages[i]]
            0 <= i < pages.len() - 1 ==> requests[i + 1].continuation_token
                == pages[i].continuation_token,
        step matches Step::Done(Ok(events)) && {
            &&& events@.len() == offsets.last()
            &&& forall|i: int|
                #![trigger offsets[i]]
                0 <= i < pages.len() ==> 0 <= offsets[i] && offsets[i] + pages[i].events@.len()
                    <= events@.len()
            &&& forall|i: int, j: int|
                0 <= i < pages.len() && 0 <= j < pages[i].events@.len() ==> events@[offsets[i] + j]
                    == #[trigger] pages[i].events@[j]
        },
{
    let m = pages.len() - 1;
    first_page_is_the_one_named(client, filter, requests[0]);
    assert forall|i: int| #![trigger requests[i]] 0 <= i < requests.len() implies requests[i].filter
        == filter.event_filter && requests[i].chunk_size
        == filter.result_page_request.chunk_size by {
        lemma_pages_are_collected::<E>(requests, pages, offsets, i);
    }
    assert forall|i: int| #![trigger pages[i]] 0 <= i < pages.len() - 1 implies requests[i
        + 1].continuation_token == pages[i].continuation_token by {
        lemma_pages_are_collected::<E>(requests, pages, offsets, i + 1);
    }
    lemma_pages_are_collected::<E>(requests, pages, offsets, m);
    page_is_appended::<E>(requests[m], Ok(pages[m]), step);
    assert(offsets[m + 1] == offsets[m] + pages[m].events@.len());
    let events = step->Done_0->Ok_0;
    assert forall|i: int, j: int| 0 <= i < pages.len() && 0 <= j < pages[i].events@.len() implies
        events@[offsets[i] + j] == #[trigger] pages[i].events@[j] by {
        if i < m {
            assert(requests[m].events@[offsets[i] + j] == pages[i].events@[j]);
            assert(events@[offsets[i] + j] == requests[m].events@[offsets[i] + j]);
        } else {
            assert(events@[offsets[m] + j] == pages[m].events@[j]);
        }
    }
}

} // verus!
