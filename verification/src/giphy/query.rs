//! A search of Giphy, step by step. The state of a search says what has to be done
//! outside for it to go on, and an event says what came of that.

use crate::gateway::{
    answer_view, first_records, record_views, send_error, to_send_error, DiscoveryRecord,
    ErrorView, Exchange, ExchangeView, GatewayError, RecordView,
};
use crate::giphy::gifs::{all_search_records, into_search_records, GiphyResponse};
use crate::giphy::{missing_key, search_address, GiphyPlugin, GiphyView};
use vstd::prelude::*;

verus! {

/// How far a search has come.
pub enum QueryState {
    /// The key to the API and the text to search for have to be encoded for use in an
    /// address.
    Encode { key: String, text: String },
    /// The API has to be asked at this address.
    Search { url: String },
    /// The search is over.
    Done(Result<Vec<DiscoveryRecord>, GatewayError>),
}

/// What came of what a state asked for.
pub enum QueryEvent {
    /// The encoded key and the encoded text.
    Encoded { key: String, text: String },
    /// How asking the API went.
    Answered(Exchange<GiphyResponse>),
}

/// What a [`QueryState`] says.
#[verifier::ext_equal]
pub enum QueryView {
    Encode(Seq<char>, Seq<char>),
    Search(Seq<char>),
    Done(Result<Seq<RecordView>, ErrorView>),
}

impl View for QueryState {
    type V = QueryView;

    open spec fn view(&self) -> QueryView {
        match self {
            QueryState::Encode { key, text } => QueryView::Encode(key@, text@),
            QueryState::Search { url } => QueryView::Search(url@),
            QueryState::Done(answer) => QueryView::Done(answer_view(*answer)),
        }
    }
}

/// What a [`QueryEvent`] says.
#[verifier::ext_equal]
pub enum QueryEventView {
    Encoded(Seq<char>, Seq<char>),
    Answered(ExchangeView<GiphyResponse>),
}

impl View for QueryEvent {
    type V = QueryEventView;

    open spec fn view(&self) -> QueryEventView {
        match self {
            QueryEvent::Encoded { key, text } => QueryEventView::Encoded(key@, text@),
            QueryEvent::Answered(exchange) => QueryEventView::Answered(exchange@),
        }
    }
}

/// Where a search begins. A query that the plugin cannot serve is answered at once
/// with no records, and without a key there is no search.
pub open spec fn query_start(
    plugin: GiphyView,
    accepted: bool,
    free_text: Seq<char>,
) -> QueryView {
    if !accepted {
        QueryView::Done(Ok(seq![]))
    } else {
        match plugin.api_key {
            Some(key) => QueryView::Encode(key, free_text),
            None => QueryView::Done(Err(missing_key())),
        }
    }
}

/// The answer to a search whose request to the API went as `exchange` says.
pub open spec fn query_answer(
    url: Seq<char>,
    exchange: ExchangeView<GiphyResponse>,
    max_results: nat,
) -> Result<Seq<RecordView>, ErrorView> {
    match exchange {
        ExchangeView::SendFailed(cause) => Err(send_error(url, cause)),
        ExchangeView::Refused(e) => Err(e),
        ExchangeView::Unreadable(cause) => Err(
            ErrorView::Permanent("decode giphy search response: "@ + cause),
        ),
        ExchangeView::Received(response) => Ok(
            first_records(all_search_records(response.data@), max_results),
        ),
    }
}

/// Where a search goes from a state when an event comes in. An event that the state
/// did not ask for changes nothing.
pub open spec fn query_next(
    plugin: GiphyView,
    max_results: nat,
    state: QueryView,
    event: QueryEventView,
) -> QueryView {
    match (state, event) {
        (QueryView::Encode(_, _), QueryEventView::Encoded(key, text)) => match plugin.api_key {
            Some(_) => QueryView::Search(
                search_address(plugin.base_url, key, text, max_results),
            ),
            None => QueryView::Done(Err(missing_key())),
        },
        (QueryView::Search(url), QueryEventView::Answered(exchange)) => QueryView::Done(
            query_answer(url, exchange, max_results),
        ),
        _ => state,
    }
}

impl GiphyPlugin {
    /// Begins a search. `accepted` says whether the kinds that the query asks for are
    /// among those that the plugin serves, and `free_text` is the free text of the
    /// query.
    pub fn handle_query(&self, accepted: bool, free_text: &str) -> (r: QueryState)
        ensures
            r@ == query_start(self@, accepted, free_text@),
    {
        if !accepted {
            let none: Vec<DiscoveryRecord> = Vec::new();
            assert(record_views(none@) =~= seq![]);
            return QueryState::Done(Ok(none));
        }
        match self.api_key() {
            Ok(key) => QueryState::Encode { key: key.to_owned(), text: free_text.to_owned() },
            Err(e) => QueryState::Done(Err(e)),
        }
    }

    /// Takes a search one step further.
    pub fn resume_query(&self, max_results: usize, state: QueryState, event: QueryEvent) -> (r:
        QueryState)
        ensures
            r@ == query_next(self@, max_results as nat, state@, event@),
    {
        match (state, event) {
            (QueryState::Encode { .. }, QueryEvent::Encoded { key, text }) => {
                match self.search_url(key.as_str(), text.as_str(), max_results) {
                    Ok(url) => QueryState::Search { url },
                    Err(e) => QueryState::Done(Err(e)),
                }
            },
            (QueryState::Search { url }, QueryEvent::Answered(exchange)) => {
                let answer: Result<Vec<DiscoveryRecord>, GatewayError> = match exchange {
                    Exchange::SendFailed(cause) => Err(to_send_error(url.as_str(), cause.as_str())),
                    Exchange::Refused(e) => Err(e),
                    Exchange::Unreadable(cause) => {
                        let mut m: String = "decode giphy search response: ".to_owned();
                        m.append(cause.as_str());
                        Err(GatewayError::Permanent(m))
                    },
                    Exchange::Received(response) => Ok(
                        into_search_records(response.data, max_results),
                    ),
                };
                QueryState::Done(answer)
            },
            (state, _) => state,
        }
    }
}

} // verus!
