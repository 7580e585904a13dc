//! Fetching and hashing the file of a record, step by step. The state says what has
//! to be done outside for the work to go on, and an event says what came of that.

use crate::gateway::{
    lookup_view, outcome_view, ErrorView, Exchange, ExchangeView, FreshOutcome, FreshView,
    GatewayError, HashOutcome, OutcomeView,
};
use crate::text::{decimal, to_decimal};
use crate::wikicommons::pages::{ordered_pages, MediawikiPage, MediawikiResponse};
use crate::wikicommons::query::{api_answer, to_api_answer};
use crate::wikicommons::record::{file_info, file_info_of, into_discovery_record, page_record};
use crate::wikicommons::title::{extension, file_extension_for};
use crate::wikicommons::{page_address, WikicommonsPlugin, MAX_FILE_BYTES};
use vstd::prelude::*;

verus! {

/// How far the work on a record has come.
pub enum ComputeState {
    /// The name of the record has to be encoded for use in an address.
    Encode { text: String },
    /// The API has to be asked at this address for the page of the record.
    Page { url: String },
    /// The file has to be fetched from this address.
    File { page: MediawikiPage, url: String },
    /// The bytes of the file have to be hashed.
    Hash { page: MediawikiPage, body: Vec<u8> },
    /// The hash has to be put into the cache.
    Store { page: MediawikiPage, body: Vec<u8>, hash: String },
    /// The work is over.
    Done(Result<HashOutcome, GatewayError>),
}

/// What came of what a state asked for.
pub enum ComputeEvent {
    /// The encoded text.
    Encoded(String),
    /// How asking the API went.
    Answered(Exchange<MediawikiResponse>),
    /// The bytes of the file, or why they could not be had.
    Downloaded(Result<Vec<u8>, GatewayError>),
    /// The hash of the bytes.
    Hashed(String),
    /// The hash has been put into the cache.
    Stored,
}

/// What a [`ComputeState`] says.
#[verifier::ext_equal]
pub enum ComputeView {
    Encode(Seq<char>),
    Page(Seq<char>),
    File(MediawikiPage, Seq<char>),
    Hash(MediawikiPage, Seq<u8>),
    Store(MediawikiPage, Seq<u8>, Seq<char>),
    Done(Result<OutcomeView, ErrorView>),
}

impl View for ComputeState {
    type V = ComputeView;

    open spec fn view(&self) -> ComputeView {
        match self {
            ComputeState::Encode { text } => ComputeView::Encode(text@),
            ComputeState::Page { url } => ComputeView::Page(url@),
            ComputeState::File { page, url } => ComputeView::File(*page, url@),
            ComputeState::Hash { page, body } => ComputeView::Hash(*page, body@),
            ComputeState::Store { page, body, hash } => ComputeView::Store(*page, body@, hash@),
            ComputeState::Done(outcome) => ComputeView::Done(outcome_view(*outcome)),
        }
    }
}

/// What a [`ComputeEvent`] says.
#[verifier::ext_equal]
pub enum ComputeEventView {
    Encoded(Seq<char>),
    Answered(ExchangeView<MediawikiResponse>),
    Downloaded(Result<Seq<u8>, ErrorView>),
    Hashed(Seq<char>),
    Stored,
}

impl View for ComputeEvent {
    type V = ComputeEventView;

    open spec fn view(&self) -> ComputeEventView {
        match self {
            ComputeEvent::Encoded(text) => ComputeEventView::Encoded(text@),
            ComputeEvent::Answered(exchange) => ComputeEventView::Answered(exchange@),
            ComputeEvent::Downloaded(Ok(body)) => ComputeEventView::Downloaded(Ok(body@)),
            ComputeEvent::Downloaded(Err(e)) => ComputeEventView::Downloaded(Err(e@)),
            ComputeEvent::Hashed(hash) => ComputeEventView::Hashed(hash@),
            ComputeEvent::Stored => ComputeEventView::Stored,
        }
    }
}

/// The page that the lookup of one record found. A first page with neither a file
/// nor a number stands for a title that does not exist.
pub open spec fn found_page(pages: Seq<MediawikiPage>) -> Result<MediawikiPage, ErrorView> {
    if pages.len() == 0 || (file_info(pages[0]) is None && pages[0].pageid is None) {
        Err(ErrorView::NotFound)
    } else {
        Ok(pages[0])
    }
}

/// Picks the page that the lookup of one record found.
pub fn to_found_page(pages: Vec<MediawikiPage>) -> (r: Result<MediawikiPage, GatewayError>)
    ensures
        r is Ok <==> found_page(pages@) is Ok,
        r matches Ok(page) ==> page == found_page(pages@)->Ok_0,
        r matches Err(e) ==> e@ == found_page(pages@)->Err_0,
{
    let mut pages: Vec<MediawikiPage> = pages;
    if pages.len() == 0 {
        return Err(GatewayError::NotFound);
    }
    let page: MediawikiPage = pages.swap_remove(0);
    if file_info_of(&page).is_none() && page.pageid.is_none() {
        return Err(GatewayError::NotFound);
    }
    Ok(page)
}

/// The beginning of an error about a record.
pub open spec fn about(record_id: Seq<char>) -> Seq<char> {
    "wikicommons record `"@ + record_id + "`"@
}

fn about_record(record_id: &str) -> (r: String)
    ensures
        r@ == about(record_id@),
{
    let mut m: String = "wikicommons record `".to_owned();
    m.append(record_id);
    m.append("`");
    m
}

/// The error for a file whose stated size is above the ceiling.
pub open spec fn oversized(record_id: Seq<char>, size: nat) -> ErrorView {
    ErrorView::Permanent(
        about(record_id) + " is "@ + decimal(size)
            + " bytes — exceeds gateway plugin's "@ + decimal(MAX_FILE_BYTES as nat)
            + "-byte ceiling. Streaming auto-store would lift this; not in v0."@,
    )
}

/// The error for a file whose bytes turned out to be above the ceiling.
pub open spec fn oversized_body(record_id: Seq<char>, size: nat) -> ErrorView {
    ErrorView::Permanent(
        about(record_id) + " body was "@ + decimal(size) + " bytes — exceeds "@ + decimal(
            MAX_FILE_BYTES as nat,
        ) + " ceiling"@,
    )
}

/// Where the file of a page is to be fetched from. A page without a file, and one
/// whose file says that it is above the ceiling, is refused.
pub open spec fn download_address(record_id: Seq<char>, page: MediawikiPage) -> Result<
    Seq<char>,
    ErrorView,
> {
    match file_info(page) {
        None => Err(ErrorView::Permanent(about(record_id) + " has no imageinfo"@)),
        Some(info) => match info.size {
            Some(size) => if size > MAX_FILE_BYTES {
                Err(oversized(record_id, size as nat))
            } else {
                Ok(info.url@)
            },
            None => Ok(info.url@),
        },
    }
}

/// Tells where the file of a page is to be fetched from.
pub fn to_download_address(record_id: &str, page: &MediawikiPage) -> (r: Result<
    String,
    GatewayError,
>)
    ensures
        r is Ok <==> download_address(record_id@, *page) is Ok,
        r matches Ok(url) ==> url@ == download_address(record_id@, *page)->Ok_0,
        r matches Err(e) ==> e@ == download_address(record_id@, *page)->Err_0,
{
    match file_info_of(page) {
        None => {
            let mut m: String = about_record(record_id);
            m.append(" has no imageinfo");
            Err(GatewayError::Permanent(m))
        },
        Some(info) => {
            if let Some(size) = info.size {
                if size > MAX_FILE_BYTES {
                    let mut m: String = about_record(record_id);
                    m.append(" is ");
                    m.append(to_decimal(size).as_str());
                    m.append(" bytes — exceeds gateway plugin's ");
                    m.append(to_decimal(MAX_FILE_BYTES).as_str());
                    m.append("-byte ceiling. Streaming auto-store would lift this; not in v0.");
                    return Err(GatewayError::Permanent(m));
                }
            }
            Ok(info.url.clone())
        },
    }
}

fn to_oversized_body(record_id: &str, size: u64) -> (r: GatewayError)
    ensures
        r@ == oversized_body(record_id@, size as nat),
{
    let mut m: String = about_record(record_id);
    m.append(" body was ");
    m.append(to_decimal(size).as_str());
    m.append(" bytes — exceeds ");
    m.append(to_decimal(MAX_FILE_BYTES).as_str());
    m.append(" ceiling");
    GatewayError::Permanent(m)
}

/// What a record comes to whose file has been fetched and hashed.
pub open spec fn fresh_outcome(
    record_id: Seq<char>,
    page: MediawikiPage,
    body: Seq<u8>,
    hash: Seq<char>,
) -> Result<OutcomeView, ErrorView> {
    match page_record(page) {
        Some(record) => Ok(
            OutcomeView::Fresh(
                FreshView { hash, bytes: body, record, file_extension: extension(record_id) },
            ),
        ),
        None => Err(
            ErrorView::Permanent(about(record_id) + " lost imageinfo between calls"@),
        ),
    }
}

/// Tells what a record comes to whose file has been fetched and hashed.
pub fn to_fresh_outcome(record_id: &str, page: MediawikiPage, body: Vec<u8>, hash: String) -> (r:
    Result<HashOutcome, GatewayError>)
    ensures
        outcome_view(r) == fresh_outcome(record_id@, page, body@, hash@),
{
    match into_discovery_record(page) {
        Some(record) => Ok(
            HashOutcome::Fresh(
                FreshOutcome {
                    hash,
                    bytes: body,
                    record,
                    file_extension: file_extension_for(record_id),
                },
            ),
        ),
        None => {
            let mut m: String = about_record(record_id);
            m.append(" lost imageinfo between calls");
            Err(GatewayError::Permanent(m))
        },
    }
}

/// Where the work on a record begins. A cache that is not there or cannot be asked ends it
/// at once, and what the cache knows is the outcome.
pub open spec fn compute_start(
    record_id: Seq<char>,
    looked_up: Result<Option<Seq<char>>, ErrorView>,
) -> ComputeView {
    match looked_up {
        Err(e) => ComputeView::Done(Err(e)),
        Ok(Some(hash)) => ComputeView::Done(Ok(OutcomeView::Cached(hash))),
        Ok(None) => ComputeView::Encode(record_id),
    }
}

/// Where the work goes once the API has been asked for the page of the record.
pub open spec fn after_page(
    record_id: Seq<char>,
    url: Seq<char>,
    exchange: ExchangeView<MediawikiResponse>,
) -> ComputeView {
    match api_answer(url, exchange) {
        Err(e) => ComputeView::Done(Err(e)),
        Ok(response) => match found_page(ordered_pages(response)) {
            Err(e) => ComputeView::Done(Err(e)),
            Ok(page) => match download_address(record_id, page) {
                Err(e) => ComputeView::Done(Err(e)),
                Ok(file) => ComputeView::File(page, file),
            },
        },
    }
}

/// Where the work goes once the file has been fetched.
pub open spec fn after_file(
    record_id: Seq<char>,
    page: MediawikiPage,
    download: Result<Seq<u8>, ErrorView>,
) -> ComputeView {
    match download {
        Err(e) => ComputeView::Done(Err(e)),
        Ok(body) => if body.len() > MAX_FILE_BYTES {
            ComputeView::Done(Err(oversized_body(record_id, body.len())))
        } else {
            ComputeView::Hash(page, body)
        },
    }
}

/// Where the work on a record goes from a state when an event comes in. An event
/// that the state did not ask for changes nothing.
pub open spec fn compute_next(
    base_url: Seq<char>,
    record_id: Seq<char>,
    state: ComputeView,
    event: ComputeEventView,
) -> ComputeView {
    match (state, event) {
        (ComputeView::Encode(_), ComputeEventView::Encoded(encoded)) => ComputeView::Page(
            page_address(base_url, encoded),
        ),
        (ComputeView::Page(url), ComputeEventView::Answered(exchange)) => after_page(
            record_id,
            url,
            exchange,
        ),
        (ComputeView::File(page, _), ComputeEventView::Downloaded(download)) => after_file(
            record_id,
            page,
            download,
        ),
        (ComputeView::Hash(page, body), ComputeEventView::Hashed(hash)) => ComputeView::Store(
            page,
            body,
            hash,
        ),
        (ComputeView::Store(page, body, hash), ComputeEventView::Stored) => ComputeView::Done(
            fresh_outcome(record_id, page, body, hash),
        ),
        _ => state,
    }
}

fn to_after_page(record_id: &str, url: &str, exchange: Exchange<MediawikiResponse>) -> (r:
    ComputeState)
    ensures
        r@ == after_page(record_id@, url@, exchange@),
{
    let response: MediawikiResponse = match to_api_answer(url, exchange) {
        Ok(response) => response,
        Err(e) => {
            return ComputeState::Done(Err(e));
        },
    };
    let page: MediawikiPage = match to_found_page(response.into_ordered_pages()) {
        Ok(page) => page,
        Err(e) => {
            return ComputeState::Done(Err(e));
        },
    };
    match to_download_address(record_id, &page) {
        Ok(url) => ComputeState::File { page, url },
        Err(e) => ComputeState::Done(Err(e)),
    }
}

impl WikicommonsPlugin {
    /// Begins the work on a record. `looked_up` is the hash that the cache knows of
    /// it, where it knows one, or why the cache could not be asked.
    pub fn compute_outcomes(
        &self,
        record_id: &str,
        looked_up: Result<Option<String>, GatewayError>,
    ) -> (r: ComputeState)
        ensures
            r@ == compute_start(record_id@, lookup_view(looked_up)),
    {
        match looked_up {
            Err(e) => ComputeState::Done(Err(e)),
            Ok(Some(hash)) => ComputeState::Done(Ok(HashOutcome::Cached { hash })),
            Ok(None) => ComputeState::Encode { text: record_id.to_owned() },
        }
    }

    /// Takes the work on a record one step further.
    pub fn resume_compute(&self, record_id: &str, state: ComputeState, event: ComputeEvent) -> (r:
        ComputeState)
        ensures
            r@ == compute_next(self@.base_url, record_id@, state@, event@),
    {
        match (state, event) {
            (ComputeState::Encode { .. }, ComputeEvent::Encoded(encoded)) => ComputeState::Page {
                url: self.page_url(encoded.as_str()),
            },
            (ComputeState::Page { url }, ComputeEvent::Answered(exchange)) => to_after_page(
                record_id,
                url.as_str(),
                exchange,
            ),
            (ComputeState::File { page, .. }, ComputeEvent::Downloaded(download)) => {
                match download {
                    Err(e) => ComputeState::Done(Err(e)),
                    Ok(body) => if body.len() as u64 > MAX_FILE_BYTES {
                        ComputeState::Done(
                            Err(to_oversized_body(record_id, body.len() as u64)),
                        )
                    } else {
                        ComputeState::Hash { page, body }
                    },
                }
            },
            (ComputeState::Hash { page, body }, ComputeEvent::Hashed(hash)) => {
                ComputeState::Store { page, body, hash }
            },
            (ComputeState::Store { page, body, hash }, ComputeEvent::Stored) => {
                ComputeState::Done(to_fresh_outcome(record_id, page, body, hash))
            },
            (state, _) => state,
        }
    }
}

} // verus!
