//! The events of the Starknet chain, page by page.
use crate::block::StarknetBlockId;
use crate::client::KakarotClient;
use crate::error::{EthApiError, ProviderError};
use crate::felt::Felt;
use crate::step::Step;
use vstd::prelude::*;

verus! {

/// Which events are looked for.
#[derive(Debug)]
pub struct EventFilter {
    pub from_block: Option<StarknetBlockId>,
    pub to_block: Option<StarknetBlockId>,
    pub address: Option<Felt>,
    pub keys: Option<Vec<Vec<Felt>>>,
}

/// Where to go on, and how many events a page holds.
#[derive(Debug)]
pub struct ResultPageRequest {
    pub continuation_token: Option<String>,
    pub chunk_size: u64,
}

/// Which events are looked for, and from which page on.
#[derive(Debug)]
pub struct EventFilterWithPage {
    pub event_filter: EventFilter,
    pub result_page_request: ResultPageRequest,
}

/// An event of the Starknet chain.
#[derive(Debug)]
pub struct EmittedEvent {
    pub from_address: Felt,
    pub keys: Vec<Felt>,
    pub data: Vec<Felt>,
    pub block_hash: Felt,
    pub block_number: u64,
    pub transaction_hash: Felt,
}

/// A page of events, and the token of the page after it.
#[derive(Debug)]
pub struct EventsPage {
    pub events: Vec<EmittedEvent>,
    pub continuation_token: Option<String>,
}

/// The request for a page of events: those that `filter` lets through, from `continuation_token`
/// on, at most `chunk_size` of them. The pages before it gave `events`.
#[derive(Debug)]
pub struct GetEvents {
    pub filter: EventFilter,
    pub continuation_token: Option<String>,
    pub chunk_size: u64,
    pub events: Vec<EmittedEvent>,
}

impl<P> KakarotClient<P> {
    /// Returns all events that a filter lets through, from a page on.
    pub fn filter_events(&self, filter: EventFilterWithPage) -> (request: GetEvents)
        ensures
            request.filter == filter.event_filter,
            request.continuation_token == filter.result_page_request.continuation_token,
            request.chunk_size == filter.result_page_request.chunk_size,
            request.events@ == Seq::<EmittedEvent>::empty(),
    {
        GetEvents {
            filter: filter.event_filter,
            continuation_token: filter.result_page_request.continuation_token,
            chunk_size: filter.result_page_request.chunk_size,
            events: Vec::new(),
        }
    }
}

impl GetEvents {
    /// Whether `step` is what follows the reply: the page's events join those before them, and
    /// the page after it is requested, unless it was the last.
    pub open spec fn leads_to<E>(
        self,
        reply: Result<EventsPage, ProviderError<E>>,
        step: Step<GetEvents, Vec<EmittedEvent>, E>,
    ) -> bool {
        match reply {
            Err(e) => step == Step::<GetEvents, Vec<EmittedEvent>, E>::Done(
                Err(EthApiError::RequestError(e)),
            ),
            Ok(page) => if page.continuation_token is None {
                step matches Step::Done(Ok(events)) && events@ == self.events@ + page.events@
            } else {
                step matches Step::Pending(next) && {
                    &&& next.filter == self.filter
                    &&& next.continuation_token == page.continuation_token
                    &&& next.chunk_size == self.chunk_size
                    &&& next.events@ == self.events@ + page.events@
                }
            },
        }
    }

    /// Goes on to the page after the one in the reply, or ends with the last.
    pub fn resume<E>(self, reply: Result<EventsPage, ProviderError<E>>) -> (step: Step<
        GetEvents,
        Vec<EmittedEvent>,
        E,
    >)
        ensures
            self.leads_to(reply, step),
    {
        match reply {
            Err(e) => Step::Done(Err(EthApiError::RequestError(e))),
            Ok(mut page) => {
                let mut events = self.events;
                events.append(&mut page.events);
                if page.continuation_token.is_none() {
                    Step::Done(Ok(events))
                } else {
                    Step::Pending(
                        GetEvents {
                            filter: self.filter,
                            continuation_token: page.continuation_token,
                            chunk_size: self.chunk_size,
                            events,
                        },
                    )
                }
            },
        }
    }
}

/// The events of `pages`, in order.
pub open spec fn events_of(pages: Seq<EventsPage>) -> Seq<EmittedEvent>
    decreases pages.len(),
{
    if pages.len() == 0 {
        Seq::empty()
    } else {
        events_of(pages.drop_last()) + pages.last().events@
    }
}

/// Whether `requests` are the requests of one operation to which `pages` were the replies: each
/// page but the last led from its request to the next.
pub open spec fn pages_lead_through<E>(requests: Seq<GetEvents>, pages: Seq<EventsPage>) -> bool {
    &&& requests.len() == pages.len() + 1
    &&& forall|i: int|
        0 <= i < pages.len() ==> (#[trigger] requests[i]).leads_to(
            Ok::<EventsPage, ProviderError<E>>(pages[i]),
            Step::<GetEvents, Vec<EmittedEvent>, E>::Pending(requests[i + 1]),
        )
}

/// While an operation goes from page to page it asks for the same filter and the same number of
/// events, each time from the token of the page before, and it has collected the events of the
/// pages so far, in order, none twice and none left out.
pub proof fn pages_are_collected_in_order<E>(requests: Seq<GetEvents>, pages: Seq<EventsPage>)
    requires
        pages_lead_through::<E>(requests, pages),
    ensures
        requests.last().filter == requests[0].filter,
        requests.last().chunk_size == requests[0].chunk_size,
        requests.last().events@ == requests[0].events@ + events_of(pages),
        forall|i: int|
            0 <= i < pages.len() ==> (#[trigger] pages[i]).continuation_token is Some
                && requests[i + 1].continuation_token == pages[i].continuation_token,
    decreases pages.len(),
{
    if pages.len() == 0 {
        assert(requests[0].events@ =~= requests[0].events@ + events_of(pages));
    } else {
        let n = pages.len() - 1;
        let before = requests.drop_last();
        assert forall|i: int| 0 <= i < pages.drop_last().len() implies (
        #[trigger] before[i]).leads_to(
            Ok::<EventsPage, ProviderError<E>>(pages.drop_last()[i]),
            Step::<GetEvents, Vec<EmittedEvent>, E>::Pending(before[i + 1]),
        ) by {
            assert(requests[i] == before[i]);
        }
        pages_are_collected_in_order::<E>(before, pages.drop_last());
        assert(requests[n].leads_to(
            Ok::<EventsPage, ProviderError<E>>(pages[n]),
            Step::<GetEvents, Vec<EmittedEvent>, E>::Pending(requests[n + 1]),
        ));
        assert(requests.last().events@ =~= requests[0].events@ + events_of(pages));
        assert forall|i: int| 0 <= i < pages.len() implies (
        #[trigger] pages[i]).continuation_token is Some && requests[i + 1].continuation_token
            == pages[i].continuation_token by {
            assert(requests[i].leads_to(
                Ok::<EventsPage, ProviderError<E>>(pages[i]),
                Step::<GetEvents, Vec<EmittedEvent>, E>::Pending(requests[i + 1]),
            ));
        }
    }
}

/// An operation that starts with no events ends with the events of all its pages, in order, as
/// soon as a page names no other, and not before.
pub proof fn filter_events_returns_all_pages<E>(
    requests: Seq<GetEvents>,
    pages: Seq<EventsPage>,
    last: EventsPage,
    step: Step<GetEvents, Vec<EmittedEvent>, E>,
)
    requires
        pages_lead_through::<E>(requests, pages),
        requests[0].events@.len() == 0,
        requests.last().leads_to(Ok::<EventsPage, ProviderError<E>>(last), step),
    ensures
        step is Done <==> last.continuation_token is None,
        step matches Step::Done(r) ==> r matches Ok(events) && events@ == events_of(
            pages.push(last),
        ),
{
    pages_are_collected_in_order::<E>(requests, pages);
    assert(pages.push(last).drop_last() =~= pages);
    assert(requests.last().events@ + last.events@ =~= events_of(pages.push(last)));
}

} // verus!
