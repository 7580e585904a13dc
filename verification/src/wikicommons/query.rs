//! A search of Commons, step by step. The state of a search says what has to be done
//! outside for it to go on, and an event says what came of that.

use crate::gateway::{
    answer_view, first_records, record_views, send_error, to_send_error, DiscoveryRecord,
    ErrorView, Exchange, ExchangeView, GatewayError, GatewayQuery, RecordView,
};
use crate::wikicommons::filetype::{filetype_clause, mediawiki_filetype_clause};
use crate::wikicommons::pages::{ordered_pages, MediawikiResponse};
use crate::wikicommons::record::{all_search_records, into_search_records};
use crate::wikicommons::{search_address, WikicommonsPlugin};
use vstd::prelude::*;

verus! {

/// How far a search has come.
pub enum QueryState {
    /// The text to search for has to be encoded for use in an address.
    Encode { text: String },
    /// The API has to be asked at this address.
    Search { url: String },
    /// The search is over.
    Done(Result<Vec<DiscoveryRecord>, GatewayError>),
}

/// What came of what a state asked for.
pub enum QueryEvent {
    /// The encoded text.
    Encoded(String),
    /// How asking the API went.
    Answered(Exchange<MediawikiResponse>),
}

/// What a [`QueryState`] says.
#[verifier::ext_equal]
pub enum QueryView {
    Encode(Seq<char>),
    Search(Seq<char>),
    Done(Result<Seq<RecordView>, ErrorView>),
}

impl View for QueryState {
    type V = QueryView;

    open spec fn view(&self) -> QueryView {
        match self {
            QueryState::Encode { text } => QueryView::Encode(text@),
            QueryState::Search { url } => QueryView::Search(url@),
            QueryState::Done(answer) => QueryView::Done(answer_view(*answer)),
        }
    }
}

/// What a [`QueryEvent`] says.
#[verifier::ext_equal]
pub enum QueryEventView {
    Encoded(Seq<char>),
    Answered(ExchangeView<MediawikiResponse>),
}

impl View for QueryEvent {
    type V = QueryEventView;

    open spec fn view(&self) -> QueryEventView {
        match self {
            QueryEvent::Encoded(text) => QueryEventView::Encoded(text@),
            QueryEvent::Answered(exchange) => QueryEventView::Answered(exchange@),
        }
    }
}

/// What asking the API at an address came to.
pub open spec fn api_answer(url: Seq<char>, exchange: ExchangeView<MediawikiResponse>) -> Result<
    MediawikiResponse,
    ErrorView,
> {
    match exchange {
        ExchangeView::SendFailed(cause) => Err(send_error(url, cause)),
        ExchangeView::Refused(e) => Err(e),
        ExchangeView::Unreadable(cause) => Err(
            ErrorView::Permanent("decode mediawiki response: "@ + cause),
        ),
        ExchangeView::Received(response) => Ok(response),
    }
}

/// Tells what asking the API at an address came to.
pub fn to_api_answer(url: &str, exchange: Exchange<MediawikiResponse>) -> (r: Result<
    MediawikiResponse,
    GatewayError,
>)
    ensures
        r is Ok <==> api_answer(url@, exchange@) is Ok,
        r matches Ok(response) ==> response == api_answer(url@, exchange@)->Ok_0,
        r matches Err(e) ==> e@ == api_answer(url@, exchange@)->Err_0,
{
    match exchange {
        Exchange::SendFailed(cause) => Err(to_send_error(url, cause.as_str())),
        Exchange::Refused(e) => Err(e),
        Exchange::Unreadable(cause) => {
            let mut m: String = "decode mediawiki response: ".to_owned();
            m.append(cause.as_str());
            Err(GatewayError::Permanent(m))
        },
        Exchange::Received(response) => Ok(response),
    }
}

/// The text that a query searches for: its free text, then the clause for the file
/// types that it asks for, where there is one.
pub open spec fn search_text(
    free_text: Seq<char>,
    filters: Map<Seq<char>, Seq<Seq<char>>>,
) -> Seq<char> {
    match filetype_clause(filters) {
        Some(clause) => free_text + " "@ + clause,
        None => free_text,
    }
}

/// Where a search begins. A query that the plugin cannot serve is answered at once
/// with no records.
pub open spec fn query_start(
    accepted: bool,
    free_text: Seq<char>,
    filters: Map<Seq<char>, Seq<Seq<char>>>,
) -> QueryView {
    if accepted {
        QueryView::Encode(search_text(free_text, filters))
    } else {
        QueryView::Done(Ok(seq![]))
    }
}

/// The answer to a search whose request to the API went as `exchange` says.
pub open spec fn query_answer(
    url: Seq<char>,
    exchange: ExchangeView<MediawikiResponse>,
    max_results: nat,
) -> Result<Seq<RecordView>, ErrorView> {
    match api_answer(url, exchange) {
        Ok(response) => Ok(first_records(all_search_records(ordered_pages(response)), max_results)),
        Err(e) => Err(e),
    }
}

/// Where a search goes from a state when an event comes in. An event that the state
/// did not ask for changes nothing.
pub open spec fn query_next(
    base_url: Seq<char>,
    max_results: nat,
    state: QueryView,
    event: QueryEventView,
) -> QueryView {
    match (state, event) {
        (QueryView::Encode(_), QueryEventView::Encoded(encoded)) => QueryView::Search(
            search_address(base_url, encoded, max_results),
        ),
        (QueryView::Search(url), QueryEventView::Answered(exchange)) => QueryView::Done(
            query_answer(url, exchange, max_results),
        ),
        _ => state,
    }
}

impl WikicommonsPlugin {
    /// Begins a search. `accepted` says whether the kinds that the query asks for
    /// are among those that the plugin serves, and `free_text` is the free text of
    /// the query.
    pub fn handle_query(&self, query: &GatewayQuery, accepted: bool, free_text: &str) -> (r:
        QueryState)
        ensures
            r@ == query_start(accepted, free_text@, query.filters@),
    {
        if !accepted {
            let none: Vec<DiscoveryRecord> = Vec::new();
            assert(record_views(none@) =~= seq![]);
            return QueryState::Done(Ok(none));
        }
        let mut text: String = free_text.to_owned();
        if let Some(clause) = mediawiki_filetype_clause(query) {
            text.append(" ");
            text.append(clause.as_str());
        }
        QueryState::Encode { text }
    }

    /// Takes a search one step further.
    pub fn resume_query(&self, max_results: usize, state: QueryState, event: QueryEvent) -> (r:
        QueryState)
        ensures
            r@ == query_next(self@.base_url, max_results as nat, state@, event@),
    {
        match (state, event) {
            (QueryState::Encode { .. }, QueryEvent::Encoded(encoded)) => QueryState::Search {
                url: self.search_url(encoded.as_str(), max_results),
            },
            (QueryState::Search { url }, QueryEvent::Answered(exchange)) => {
                match to_api_answer(url.as_str(), exchange) {
                    Ok(response) => QueryState::Done(
                        Ok(into_search_records(response.into_ordered_pages(), max_results)),
                    ),
                    Err(e) => QueryState::Done(Err(e)),
                }
            },
            (state, _) => state,
        }
    }
}

} // verus!
