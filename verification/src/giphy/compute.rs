//! Fetching and hashing a picture, step by step. The state says what has to be done
//! outside for the work to go on, and an event says what came of that.

use crate::gateway::{
    lookup_view, outcome_view, send_error, to_send_error, ErrorView, Exchange, ExchangeView,
    FreshOutcome, FreshView, GatewayError, HashOutcome, OutcomeView,
};
use crate::giphy::gifs::{
    gif_record, into_discovery_record, original_form, GiphyGif,
    GiphySingleResponse,
};
use crate::giphy::{detail_address, missing_key, GiphyPlugin, GiphyView};
use vstd::prelude::*;

verus! {

/// How far the work on a picture has come.
pub enum ComputeState {
    /// The key to the API and the identifier of the picture have to be encoded for use
    /// in an address.
    Encode { key: String, text: String },
    /// The API has to be asked at this address for the picture.
    Detail { url: String },
    /// The picture has to be fetched from this address.
    File { gif: GiphyGif, url: String },
    /// The bytes of the picture have to be hashed.
    Hash { gif: GiphyGif, body: Vec<u8> },
    /// The hash has to be put into the cache.
    Store { gif: GiphyGif, body: Vec<u8>, hash: String },
    /// The work is over.
    Done(Result<HashOutcome, GatewayError>),
}

/// What came of what a state asked for.
pub enum ComputeEvent {
    /// The encoded key and the encoded identifier.
    Encoded { key: String, text: String },
    /// How asking the API went.
    Answered(Exchange<GiphySingleResponse>),
    /// How fetching the picture went.
    Downloaded(Exchange<Vec<u8>>),
    /// The hash of the bytes.
    Hashed(String),
    /// The hash has been put into the cache.
    Stored,
}

/// What a [`ComputeState`] says.
#[verifier::ext_equal]
pub enum ComputeView {
    Encode(Seq<char>, Seq<char>),
    Detail(Seq<char>),
    File(GiphyGif, Seq<char>),
    Hash(GiphyGif, Seq<u8>),
    Store(GiphyGif, Seq<u8>, Seq<char>),
    Done(Result<OutcomeView, ErrorView>),
}

impl View for ComputeState {
    type V = ComputeView;

    open spec fn view(&self) -> ComputeView {
        match self {
            ComputeState::Encode { key, text } => ComputeView::Encode(key@, text@),
            ComputeState::Detail { url } => ComputeView::Detail(url@),
            ComputeState::File { gif, url } => ComputeView::File(*gif, url@),
            ComputeState::Hash { gif, body } => ComputeView::Hash(*gif, body@),
            ComputeState::Store { gif, body, hash } => ComputeView::Store(*gif, body@, hash@),
            ComputeState::Done(outcome) => ComputeView::Done(outcome_view(*outcome)),
        }
    }
}

/// What a [`ComputeEvent`] says.
#[verifier::ext_equal]
pub enum ComputeEventView {
    Encoded(Seq<char>, Seq<char>),
    Answered(ExchangeView<GiphySingleResponse>),
    Downloaded(ExchangeView<Vec<u8>>),
    Hashed(Seq<char>),
    Stored,
}

impl View for ComputeEvent {
    type V = ComputeEventView;

    open spec fn view(&self) -> ComputeEventView {
        match self {
            ComputeEvent::Encoded { key, text } => ComputeEventView::Encoded(key@, text@),
            ComputeEvent::Answered(exchange) => ComputeEventView::Answered(exchange@),
            ComputeEvent::Downloaded(exchange) => ComputeEventView::Downloaded(exchange@),
            ComputeEvent::Hashed(hash) => ComputeEventView::Hashed(hash@),
            ComputeEvent::Stored => ComputeEventView::Stored,
        }
    }
}

/// What asking the API for one picture came to.
pub open spec fn detail_answer(url: Seq<char>, exchange: ExchangeView<GiphySingleResponse>) -> Result<
    GiphyGif,
    ErrorView,
> {
    match exchange {
        ExchangeView::SendFailed(cause) => Err(send_error(url, cause)),
        ExchangeView::Refused(e) => Err(e),
        ExchangeView::Unreadable(cause) => Err(
            ErrorView::Permanent("decode giphy detail response: "@ + cause),
        ),
        ExchangeView::Received(response) => match response.data {
            Some(gif) => Ok(gif),
            None => Err(ErrorView::NotFound),
        },
    }
}

/// Tells what asking the API for one picture came to.
pub fn to_detail_answer(url: &str, exchange: Exchange<GiphySingleResponse>) -> (r: Result<
    GiphyGif,
    GatewayError,
>)
    ensures
        r is Ok <==> detail_answer(url@, exchange@) is Ok,
        r matches Ok(gif) ==> gif == detail_answer(url@, exchange@)->Ok_0,
        r matches Err(e) ==> e@ == detail_answer(url@, exchange@)->Err_0,
{
    match exchange {
        Exchange::SendFailed(cause) => Err(to_send_error(url, cause.as_str())),
        Exchange::Refused(e) => Err(e),
        Exchange::Unreadable(cause) => {
            let mut m: String = "decode giphy detail response: ".to_owned();
            m.append(cause.as_str());
            Err(GatewayError::Permanent(m))
        },
        Exchange::Received(response) => match response.data {
            Some(gif) => Ok(gif),
            None => Err(GatewayError::NotFound),
        },
    }
}

/// Whether bytes begin as those of a GIF do.
pub open spec fn is_gif(body: Seq<u8>) -> bool {
    body.len() >= 4 && body[0] == 0x47 && body[1] == 0x49 && body[2] == 0x46 && body[3] == 0x38
}

/// What fetching a picture came to. Bytes that do not begin as those of a GIF are
/// refused.
pub open spec fn gif_bytes(url: Seq<char>, exchange: ExchangeView<Vec<u8>>) -> Result<
    Seq<u8>,
    ErrorView,
> {
    match exchange {
        ExchangeView::SendFailed(cause) => Err(send_error(url, cause)),
        ExchangeView::Refused(e) => Err(e),
        ExchangeView::Unreadable(cause) => Err(
            ErrorView::Transient("read body "@ + url + ": "@ + cause),
        ),
        ExchangeView::Received(body) => if is_gif(body@) {
            Ok(body@)
        } else {
            Err(
                ErrorView::Permanent(
                    "giphy returned non-GIF body for "@ + url
                        + " (CDN may have replaced the file)"@,
                ),
            )
        },
    }
}

/// Tells what fetching a picture came to.
pub fn to_gif_bytes(url: &str, exchange: Exchange<Vec<u8>>) -> (r: Result<Vec<u8>, GatewayError>)
    ensures
        r is Ok <==> gif_bytes(url@, exchange@) is Ok,
        r matches Ok(body) ==> body@ == gif_bytes(url@, exchange@)->Ok_0,
        r matches Err(e) ==> e@ == gif_bytes(url@, exchange@)->Err_0,
{
    match exchange {
        Exchange::SendFailed(cause) => Err(to_send_error(url, cause.as_str())),
        Exchange::Refused(e) => Err(e),
        Exchange::Unreadable(cause) => {
            let mut m: String = "read body ".to_owned();
            m.append(url);
            m.append(": ");
            m.append(cause.as_str());
            Err(GatewayError::Transient(m))
        },
        Exchange::Received(body) => {
            if body.len() >= 4 && body[0] == 0x47 && body[1] == 0x49 && body[2] == 0x46 && body[3]
                == 0x38 {
                Ok(body)
            } else {
                let mut m: String = "giphy returned non-GIF body for ".to_owned();
                m.append(url);
                m.append(" (CDN may have replaced the file)");
                Err(GatewayError::Permanent(m))
            }
        },
    }
}

/// The beginning of an error about a picture.
pub open spec fn about(record_id: Seq<char>) -> Seq<char> {
    "giphy record `"@ + record_id + "`"@
}

fn about_record(record_id: &str) -> (r: String)
    ensures
        r@ == about(record_id@),
{
    let mut m: String = "giphy record `".to_owned();
    m.append(record_id);
    m.append("`");
    m
}

/// Where a picture is to be fetched from.
pub open spec fn download_address(record_id: Seq<char>, gif: GiphyGif) -> Result<
    Seq<char>,
    ErrorView,
> {
    match original_form(gif) {
        Some(form) => Ok(form.url@),
        None => Err(ErrorView::Permanent(about(record_id) + " has no images.original.url"@)),
    }
}

/// Tells where a picture is to be fetched from.
pub fn to_download_address(record_id: &str, gif: &GiphyGif) -> (r: Result<String, GatewayError>)
    ensures
        r is Ok <==> download_address(record_id@, *gif) is Ok,
        r matches Ok(url) ==> url@ == download_address(record_id@, *gif)->Ok_0,
        r matches Err(e) ==> e@ == download_address(record_id@, *gif)->Err_0,
{
    if let Some(images) = &gif.images {
        if let Some(form) = &images.original {
            return Ok(form.url.clone());
        }
    }
    let mut m: String = about_record(record_id);
    m.append(" has no images.original.url");
    Err(GatewayError::Permanent(m))
}

/// What a picture comes to that has been fetched and hashed.
pub open spec fn fresh_outcome(
    record_id: Seq<char>,
    gif: GiphyGif,
    body: Seq<u8>,
    hash: Seq<char>,
) -> Result<OutcomeView, ErrorView> {
    match gif_record(gif) {
        Some(record) => Ok(
            OutcomeView::Fresh(
                FreshView { hash, bytes: body, record, file_extension: Some("gif"@) },
            ),
        ),
        None => Err(ErrorView::Permanent(about(record_id) + " lost fields between calls"@)),
    }
}

/// Tells what a picture comes to that has been fetched and hashed.
pub fn to_fresh_outcome(record_id: &str, gif: GiphyGif, body: Vec<u8>, hash: String) -> (r: Result<
    HashOutcome,
    GatewayError,
>)
    ensures
        outcome_view(r) == fresh_outcome(record_id@, gif, body@, hash@),
{
    match into_discovery_record(gif) {
        Some(record) => Ok(
            HashOutcome::Fresh(
                FreshOutcome { hash, bytes: body, record, file_extension: Some("gif".to_owned()) },
            ),
        ),
        None => {
            let mut m: String = about_record(record_id);
            m.append(" lost fields between calls");
            Err(GatewayError::Permanent(m))
        },
    }
}

/// Where the work on a picture begins. A cache that is not there or cannot be asked ends it
/// at once, and what the cache knows is the outcome, and needs no key.
pub open spec fn compute_start(
    plugin: GiphyView,
    record_id: Seq<char>,
    looked_up: Result<Option<Seq<char>>, ErrorView>,
) -> ComputeView {
    match looked_up {
        Err(e) => ComputeView::Done(Err(e)),
        Ok(Some(hash)) => ComputeView::Done(Ok(OutcomeView::Cached(hash))),
        Ok(None) => match plugin.api_key {
            Some(key) => ComputeView::Encode(key, record_id),
            None => ComputeView::Done(Err(missing_key())),
        },
    }
}

/// Where the work goes once the API has been asked for the picture.
pub open spec fn after_detail(
    record_id: Seq<char>,
    url: Seq<char>,
    exchange: ExchangeView<GiphySingleResponse>,
) -> ComputeView {
    match detail_answer(url, exchange) {
        Err(e) => ComputeView::Done(Err(e)),
        Ok(gif) => match download_address(record_id, gif) {
            Err(e) => ComputeView::Done(Err(e)),
            Ok(file) => ComputeView::File(gif, file),
        },
    }
}

/// Where the work goes once the picture has been fetched.
pub open spec fn after_file(
    gif: GiphyGif,
    url: Seq<char>,
    exchange: ExchangeView<Vec<u8>>,
) -> ComputeView {
    match gif_bytes(url, exchange) {
        Err(e) => ComputeView::Done(Err(e)),
        Ok(body) => ComputeView::Hash(gif, body),
    }
}

/// Where the work on a picture goes from a state when an event comes in. An event that
/// the state did not ask for changes nothing.
pub open spec fn compute_next(
    plugin: GiphyView,
    record_id: Seq<char>,
    state: ComputeView,
    event: ComputeEventView,
) -> ComputeView {
    match (state, event) {
        (ComputeView::Encode(_, _), ComputeEventView::Encoded(key, text)) => match plugin.api_key {
            Some(_) => ComputeView::Detail(detail_address(plugin.base_url, key, text)),
            None => ComputeView::Done(Err(missing_key())),
        },
        (ComputeView::Detail(url), ComputeEventView::Answered(exchange)) => after_detail(
            record_id,
            url,
            exchange,
        ),
        (ComputeView::File(gif, url), ComputeEventView::Downloaded(exchange)) => after_file(
            gif,
            url,
            exchange,
        ),
        (ComputeView::Hash(gif, body), ComputeEventView::Hashed(hash)) => ComputeView::Store(
            gif,
            body,
            hash,
        ),
        (ComputeView::Store(gif, body, hash), ComputeEventView::Stored) => ComputeView::Done(
            fresh_outcome(record_id, gif, body, hash),
        ),
        _ => state,
    }
}

impl GiphyPlugin {
    /// Begins the work on a picture. `looked_up` is the hash that the cache knows of
    /// it, where it knows one, or why the cache could not be asked.
    pub fn compute_outcomes(
        &self,
        record_id: &str,
        looked_up: Result<Option<String>, GatewayError>,
    ) -> (r: ComputeState)
        ensures
            r@ == compute_start(self@, record_id@, lookup_view(looked_up)),
    {
        match looked_up {
            Err(e) => {
                return ComputeState::Done(Err(e));
            },
            Ok(Some(hash)) => {
                return ComputeState::Done(Ok(HashOutcome::Cached { hash }));
            },
            Ok(None) => {},
        }
        match self.api_key() {
            Ok(key) => ComputeState::Encode { key: key.to_owned(), text: record_id.to_owned() },
            Err(e) => ComputeState::Done(Err(e)),
        }
    }

    /// Takes the work on a picture one step further.
    pub fn resume_compute(&self, record_id: &str, state: ComputeState, event: ComputeEvent) -> (r:
        ComputeState)
        ensures
            r@ == compute_next(self@, record_id@, state@, event@),
    {
        match (state, event) {
            (ComputeState::Encode { .. }, ComputeEvent::Encoded { key, text }) => {
                match self.detail_url(key.as_str(), text.as_str()) {
                    Ok(url) => ComputeState::Detail { url },
                    Err(e) => ComputeState::Done(Err(e)),
                }
            },
            (ComputeState::Detail { url }, ComputeEvent::Answered(exchange)) => {
                match to_detail_answer(url.as_str(), exchange) {
                    Err(e) => ComputeState::Done(Err(e)),
                    Ok(gif) => match to_download_address(record_id, &gif) {
                        Err(e) => ComputeState::Done(Err(e)),
                        Ok(file) => ComputeState::File { gif, url: file },
                    },
                }
            },
            (ComputeState::File { gif, url }, ComputeEvent::Downloaded(exchange)) => {
                match to_gif_bytes(url.as_str(), exchange) {
                    Err(e) => ComputeState::Done(Err(e)),
                    Ok(body) => ComputeState::Hash { gif, body },
                }
            },
            (ComputeState::Hash { gif, body }, ComputeEvent::Hashed(hash)) => {
                ComputeState::Store { gif, body, hash }
            },
            (ComputeState::Store { gif, body, hash }, ComputeEvent::Stored) => {
                ComputeState::Done(to_fresh_outcome(record_id, gif, body, hash))
            },
            (state, _) => state,
        }
    }
}

} // verus!
