//! Wikimedia Commons, through the MediaWiki Action API.

pub mod compute;
pub mod field_laws;
pub mod filetype;
pub mod filetype_laws;
pub mod page_laws;
pub mod pages;
pub mod query;
pub mod record;
pub mod record_laws;
pub mod run_laws;
pub mod step_laws;
pub mod title;
pub mod title_laws;

use crate::gateway::{HealthView, PluginHealth};
use crate::text::{decimal, to_decimal, trim_end, without_trailing};
use vstd::prelude::*;

verus! {

/// Where the API of Commons stands.
pub const DEFAULT_BASE_URL: &'static str = "https://commons.wikimedia.org";

/// How long a request to Commons may take, in seconds.
pub const HTTP_TIMEOUT_SECS: u64 = 60;

/// The most bytes that a file may have to be fetched.
pub const MAX_FILE_BYTES: u64 = 50 * 1024 * 1024;

/// The width of the small pictures that a search asks for, in pixels.
pub const PREVIEW_WIDTH_PX: u32 = 400;

/// The plugin for Wikimedia Commons.
pub struct WikicommonsPlugin {
    base_url: String,
    configured: bool,
}

/// What a [`WikicommonsPlugin`] holds: where the API stands, and whether the cache
/// of hashes has been opened.
#[verifier::ext_equal]
pub struct WikicommonsView {
    pub base_url: Seq<char>,
    pub configured: bool,
}

impl View for WikicommonsPlugin {
    type V = WikicommonsView;

    closed spec fn view(&self) -> WikicommonsView {
        WikicommonsView { base_url: self.base_url@, configured: self.configured }
    }
}

/// The name by which the feeder makes itself known to Commons.
pub fn user_agent(version: &str) -> (r: String)
    ensures
        r@ == "meta-share/"@ + version@ + " (gateway:wikicommons)"@,
{
    let mut r: String = "meta-share/".to_owned();
    r.append(version);
    r.append(" (gateway:wikicommons)");
    r
}

/// The kinds of medium that Commons has; the last takes in whatever is none of the
/// others.
pub open spec fn file_types() -> Seq<Seq<char>> {
    seq!["image"@, "audio"@, "video"@, "document"@, "other"@]
}

/// The address of a query to an API: what every query asks for, and then `extra`.
pub open spec fn api_address(base_url: Seq<char>, extra: Seq<char>) -> Seq<char> {
    without_trailing(base_url, '/')
        + "/w/api.php?action=query&prop=imageinfo&iiprop=url%7Cmime%7Csize%7Cextmetadata&iiurlwidth="@
        + decimal(PREVIEW_WIDTH_PX as nat) + "&format=json&formatversion=1&"@ + extra
}

/// The address of a search among files for an encoded text.
pub open spec fn search_address(
    base_url: Seq<char>,
    encoded: Seq<char>,
    max_results: nat,
) -> Seq<char> {
    api_address(
        base_url,
        "generator=search&gsrsearch="@ + encoded + "&gsrnamespace=6&gsrlimit="@ + decimal(
            max_results,
        ),
    )
}

/// The address of the page of one file, whose name is encoded.
pub open spec fn page_address(base_url: Seq<char>, encoded: Seq<char>) -> Seq<char> {
    api_address(base_url, "titles=File:"@ + encoded)
}

impl WikicommonsPlugin {
    /// The plugin for Commons itself.
    pub fn new() -> (r: Self)
        ensures
            r@ == (WikicommonsView { base_url: DEFAULT_BASE_URL@, configured: false }),
            r@.base_url == "https://commons.wikimedia.org"@,
    {
        Self::with_base_url(DEFAULT_BASE_URL.to_owned())
    }

    /// The plugin for an API that stands elsewhere.
    pub fn with_base_url(base_url: String) -> (r: Self)
        ensures
            r@ == (WikicommonsView { base_url: base_url@, configured: false }),
    {
        WikicommonsPlugin { base_url, configured: false }
    }

    /// Takes note that the cache of hashes has been opened.
    pub fn cache_opened(&mut self)
        ensures
            final(self)@ == (WikicommonsView { configured: true, ..old(self)@ }),
    {
        self.configured = true;
    }

    /// How the plugin is doing: it is in order once its cache is open.
    pub fn health(&self) -> (r: PluginHealth)
        ensures
            r@ == (if self@.configured {
                HealthView::Healthy
            } else {
                HealthView::Degraded("configure() not yet called"@)
            }),
    {
        if self.configured {
            PluginHealth::Healthy
        } else {
            PluginHealth::Degraded { reason: "configure() not yet called".to_owned() }
        }
    }

    /// The name of the upstream.
    pub fn upstream_id(&self) -> (r: &'static str)
        ensures
            r@ == "wikicommons"@,
    {
        "wikicommons"
    }

    /// The kinds of medium that Commons has.
    pub fn served_file_types(&self) -> (r: Vec<&'static str>)
        ensures
            r.deep_view() == file_types(),
            r.deep_view() == seq!["image"@, "audio"@, "video"@, "document"@, "other"@],
    {
        let r: Vec<&'static str> = vec!["image", "audio", "video", "document", "other"];
        assert(r.deep_view() =~= file_types());
        r
    }

    /// The finer kinds of content that records of Commons tell apart: none.
    pub fn served_content_kinds(&self) -> (r: Vec<&'static str>)
        ensures
            r.deep_view() == Seq::<Seq<char>>::empty(),
    {
        let r: Vec<&'static str> = Vec::new();
        assert(r.deep_view() =~= Seq::<Seq<char>>::empty());
        r
    }

    /// Writes the address of a query.
    pub fn api_url(&self, extra: &str) -> (r: String)
        ensures
            r@ == api_address(self@.base_url, extra@),
    {
        let mut r: String = trim_end(self.base_url.as_str(), '/');
        r.append(
            "/w/api.php?action=query&prop=imageinfo&iiprop=url%7Cmime%7Csize%7Cextmetadata&iiurlwidth=",
        );
        r.append(to_decimal(PREVIEW_WIDTH_PX as u64).as_str());
        r.append("&format=json&formatversion=1&");
        r.append(extra);
        r
    }

    /// Writes the address of a search among files for a text that is encoded
    /// already.
    pub fn search_url(&self, encoded: &str, max_results: usize) -> (r: String)
        ensures
            r@ == search_address(self@.base_url, encoded@, max_results as nat),
    {
        let mut extra: String = "generator=search&gsrsearch=".to_owned();
        extra.append(encoded);
        extra.append("&gsrnamespace=6&gsrlimit=");
        extra.append(to_decimal(max_results as u64).as_str());
        self.api_url(extra.as_str())
    }

    /// Writes the address of the page of one file, whose name is encoded already.
    pub fn page_url(&self, encoded: &str) -> (r: String)
        ensures
            r@ == page_address(self@.base_url, encoded@),
    {
        let mut extra: String = "titles=File:".to_owned();
        extra.append(encoded);
        self.api_url(extra.as_str())
    }
}

impl Default for WikicommonsPlugin {
    fn default() -> (r: Self)
        ensures
            r@ == (WikicommonsView { base_url: DEFAULT_BASE_URL@, configured: false }),
            r@.base_url == "https://commons.wikimedia.org"@,
    {
        Self::new()
    }
}

} // verus!
