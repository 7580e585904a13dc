//! Giphy, through its API.

pub mod compute;
pub mod field_laws;
pub mod gifs;
pub mod laws;
pub mod query;
pub mod step_laws;

use crate::gateway::{ConfigError, ErrorView, GatewayError, HealthView, PluginHealth};
use crate::text::{chars_of, decimal, to_decimal, trim_end, without_trailing};
use vstd::prelude::*;

verus! {

/// Where the API of Giphy stands.
pub const DEFAULT_BASE_URL: &'static str = "https://api.giphy.com";

/// How long a request to Giphy may take, in seconds.
pub const HTTP_TIMEOUT_SECS: u64 = 30;

/// The plugin for Giphy.
pub struct GiphyPlugin {
    base_url: String,
    api_key: Option<String>,
    configured: bool,
}

/// What a [`GiphyPlugin`] holds: where the API stands, the key to it, and whether the
/// cache of hashes has been opened.
#[verifier::ext_equal]
pub struct GiphyView {
    pub base_url: Seq<char>,
    pub api_key: Option<Seq<char>>,
    pub configured: bool,
}

impl View for GiphyPlugin {
    type V = GiphyView;

    closed spec fn view(&self) -> GiphyView {
        GiphyView {
            base_url: self.base_url@,
            api_key: self.api_key.deep_view(),
            configured: self.configured,
        }
    }
}

/// How a plugin is doing: it is in order once its cache is open and it has a key.
pub open spec fn health_of(plugin: GiphyView) -> HealthView {
    if !plugin.configured {
        HealthView::Degraded("configure() not yet called"@)
    } else if plugin.api_key is None {
        HealthView::Degraded("no api key — set GIPHY_API_KEY"@)
    } else {
        HealthView::Healthy
    }
}

/// The name by which the feeder makes itself known to Giphy.
pub fn user_agent(version: &str) -> (r: String)
    ensures
        r@ == "meta-share/"@ + version@ + " (gateway:giphy)"@,
{
    let mut r: String = "meta-share/".to_owned();
    r.append(version);
    r.append(" (gateway:giphy)");
    r
}

/// Whether a character is white space, as Unicode has it.
pub open spec fn is_white_space(c: char) -> bool {
    ||| '\u{9}' <= c <= '\u{d}'
    ||| c == ' '
    ||| c == '\u{85}'
    ||| c == '\u{a0}'
    ||| c == '\u{1680}'
    ||| '\u{2000}' <= c <= '\u{200a}'
    ||| c == '\u{2028}'
    ||| c == '\u{2029}'
    ||| c == '\u{202f}'
    ||| c == '\u{205f}'
    ||| c == '\u{3000}'
}

/// Whether a text is nothing but white space.
pub open spec fn is_blank(s: Seq<char>) -> bool {
    forall|i: int| 0 <= i < s.len() ==> is_white_space(#[trigger] s[i])
}

/// Tells whether a key can be one: a blank key is as good as none.
pub fn is_usable_api_key(key: &str) -> (r: bool)
    ensures
        r == !is_blank(key@),
{
    let chars: Vec<char> = chars_of(key);
    let mut i: usize = 0;
    while i < chars.len()
        invariant
            i <= chars@.len(),
            chars@ == key@,
            forall|k: int| 0 <= k < i ==> is_white_space(#[trigger] chars@[k]),
        decreases chars@.len() - i,
    {
        let c: char = chars[i];
        let white: bool = ('\u{9}' <= c && c <= '\u{d}') || c == ' ' || c == '\u{85}' || c
            == '\u{a0}' || c == '\u{1680}' || ('\u{2000}' <= c && c <= '\u{200a}') || c
            == '\u{2028}' || c == '\u{2029}' || c == '\u{202f}' || c == '\u{205f}' || c
            == '\u{3000}';
        if !white {
            assert(!is_white_space(key@[i as int]));
            return true;
        }
        i += 1;
    }
    false
}

/// The error for a plugin without a key.
pub open spec fn missing_key() -> ErrorView {
    ErrorView::Internal("giphy plugin api_key missing (configure() never called)"@)
}

/// The address of a request to an API, with the encoded key in it.
pub open spec fn api_address(
    base_url: Seq<char>,
    path: Seq<char>,
    encoded_key: Seq<char>,
    extra: Seq<char>,
) -> Seq<char> {
    let address = without_trailing(base_url, '/') + path + "?api_key="@ + encoded_key;
    if extra.len() == 0 {
        address
    } else {
        address + "&"@ + extra
    }
}

/// The address of a search for an encoded text.
pub open spec fn search_address(
    base_url: Seq<char>,
    encoded_key: Seq<char>,
    encoded: Seq<char>,
    max_results: nat,
) -> Seq<char> {
    api_address(
        base_url,
        "/v1/gifs/search"@,
        encoded_key,
        "q="@ + encoded + "&limit="@ + decimal(max_results),
    )
}

/// The address of one picture, whose identifier is encoded.
pub open spec fn detail_address(
    base_url: Seq<char>,
    encoded_key: Seq<char>,
    encoded: Seq<char>,
) -> Seq<char> {
    api_address(base_url, "/v1/gifs/"@ + encoded, encoded_key, Seq::empty())
}

/// The text of the status of an HTTP response, as `reqwest::StatusCode` displays it
/// (`StatusCode::from_u16`, then its `Display`): the number of the status, a space and
/// its reason phrase. Claimed of the two statuses that refuse a key, whose phrases are
/// `Unauthorized` and `Forbidden`.
#[verifier::external_body]
fn status_text(code: u16) -> (r: String)
    requires
        code == 401 || code == 403,
    ensures
        code == 401 ==> r@ == "401 Unauthorized"@,
        code == 403 ==> r@ == "403 Forbidden"@,
{
    reqwest::StatusCode::from_u16(code).unwrap().to_string()
}

/// The error for a status that refuses the key.
pub open spec fn auth_error(code: u16) -> ErrorView {
    ErrorView::Permanent(
        "giphy auth failed ("@ + (if code == 401 {
            "401 Unauthorized"@
        } else {
            "403 Forbidden"@
        }) + ") — check the GIPHY_API_KEY"@,
    )
}

/// Tells what the status of a response stands for. One that refuses the key is an
/// error that stays; of any other, `verdict` says what it stands for.
pub fn map_status(code: u16, verdict: Result<(), GatewayError>) -> (r: Result<(), GatewayError>)
    ensures
        code == 401 || code == 403 ==> r is Err && r->Err_0@ == auth_error(code),
        code != 401 && code != 403 ==> r == verdict,
{
    if code == 401 || code == 403 {
        let mut m: String = "giphy auth failed (".to_owned();
        m.append(status_text(code).as_str());
        m.append(") — check the GIPHY_API_KEY");
        return Err(GatewayError::Permanent(m));
    }
    verdict
}

impl GiphyPlugin {
    /// The plugin for Giphy itself, without a key.
    pub fn new() -> (r: Self)
        ensures
            r@ == (GiphyView {
                base_url: DEFAULT_BASE_URL@,
                api_key: None,
                configured: false,
            }),
            r@.base_url == "https://api.giphy.com"@,
    {
        Self::with_base_url(DEFAULT_BASE_URL.to_owned())
    }

    /// The plugin for an API that stands elsewhere, without a key.
    pub fn with_base_url(base_url: String) -> (r: Self)
        ensures
            r@ == (GiphyView { base_url: base_url@, api_key: None, configured: false }),
    {
        GiphyPlugin { base_url, api_key: None, configured: false }
    }

    /// Gives the plugin the key to the API.
    pub fn set_api_key(&mut self, key: String)
        ensures
            final(self)@ == (GiphyView { api_key: Some(key@), ..old(self)@ }),
    {
        self.api_key = Some(key);
    }

    /// The plugin for an API that stands elsewhere, with the key to it.
    pub fn with_api_key_and_base(api_key: String, base_url: String) -> (r: Self)
        ensures
            r@ == (GiphyView {
                base_url: base_url@,
                api_key: Some(api_key@),
                configured: false,
            }),
    {
        let mut p: GiphyPlugin = Self::with_base_url(base_url);
        p.set_api_key(api_key);
        p
    }

    /// Tells whether the plugin can be started, and with that whether its cache of
    /// hashes is to be opened: without a key, or with an empty one, it cannot.
    pub fn configure(&self) -> (r: Result<(), ConfigError>)
        ensures
            r is Ok <==> self@.api_key is Some && self@.api_key->0.len() > 0,
            r matches Err(ConfigError::MissingConfig { plugin, what }) ==> plugin@ == "giphy"@
                && what@ == "api_key (set it via the GIPHY_API_KEY env on the common-feeder)"@,
    {
        let usable: bool = match &self.api_key {
            Some(key) => !key.as_str().is_empty(),
            None => false,
        };
        if !usable {
            return Err(
                ConfigError::MissingConfig {
                    plugin: "giphy",
                    what: "api_key (set it via the GIPHY_API_KEY env on the common-feeder)",
                },
            );
        }
        Ok(())
    }

    /// Takes note that the cache of hashes has been opened.
    pub fn cache_opened(&mut self)
        ensures
            final(self)@ == (GiphyView { configured: true, ..old(self)@ }),
    {
        self.configured = true;
    }

    /// Tells how the plugin is doing.
    pub fn health(&self) -> (r: PluginHealth)
        ensures
            r@ == health_of(self@),
    {
        if !self.configured {
            PluginHealth::Degraded { reason: "configure() not yet called".to_owned() }
        } else if self.api_key.is_none() {
            PluginHealth::Degraded { reason: "no api key — set GIPHY_API_KEY".to_owned() }
        } else {
            PluginHealth::Healthy
        }
    }

    /// The name of the upstream.
    pub fn upstream_id(&self) -> (r: &'static str)
        ensures
            r@ == "giphy"@,
    {
        "giphy"
    }

    /// The kinds of medium that Giphy has.
    pub fn served_file_types(&self) -> (r: Vec<&'static str>)
        ensures
            r.deep_view() == seq!["image"@],
    {
        let r: Vec<&'static str> = vec!["image"];
        assert(r.deep_view() =~= seq!["image"@]);
        r
    }

    /// The finer kinds of content that Giphy has.
    pub fn served_content_kinds(&self) -> (r: Vec<&'static str>)
        ensures
            r.deep_view() == seq!["gif"@],
    {
        let r: Vec<&'static str> = vec!["gif"];
        assert(r.deep_view() =~= seq!["gif"@]);
        r
    }

    /// The key to the API.
    pub fn api_key(&self) -> (r: Result<&str, GatewayError>)
        ensures
            r is Ok <==> self@.api_key is Some,
            r matches Ok(key) ==> key@ == self@.api_key->0,
            r matches Err(e) ==> e@ == missing_key(),
    {
        match &self.api_key {
            Some(key) => Ok(key.as_str()),
            None => Err(
                GatewayError::Internal(
                    "giphy plugin api_key missing (configure() never called)".to_owned(),
                ),
            ),
        }
    }

    /// Writes the address of a request. The key goes in as it is encoded for use in an
    /// address; without a key there is no request.
    pub fn api_url(&self, path: &str, encoded_key: &str, extra: &str) -> (r: Result<
        String,
        GatewayError,
    >)
        ensures
            r is Ok <==> self@.api_key is Some,
            r matches Ok(url) ==> url@ == api_address(
                self@.base_url,
                path@,
                encoded_key@,
                extra@,
            ),
            r matches Err(e) ==> e@ == missing_key(),
    {
        match self.api_key() {
            Ok(_) => {},
            Err(e) => {
                return Err(e);
            },
        }
        let mut r: String = trim_end(self.base_url.as_str(), '/');
        r.append(path);
        r.append("?api_key=");
        r.append(encoded_key);
        if !extra.is_empty() {
            r.append("&");
            r.append(extra);
        }
        Ok(r)
    }

    /// Writes the address of a search for a text that is encoded already.
    pub fn search_url(&self, encoded_key: &str, encoded: &str, max_results: usize) -> (r: Result<
        String,
        GatewayError,
    >)
        ensures
            r is Ok <==> self@.api_key is Some,
            r matches Ok(url) ==> url@ == search_address(
                self@.base_url,
                encoded_key@,
                encoded@,
                max_results as nat,
            ),
            r matches Err(e) ==> e@ == missing_key(),
    {
        let mut extra: String = "q=".to_owned();
        extra.append(encoded);
        extra.append("&limit=");
        extra.append(to_decimal(max_results as u64).as_str());
        self.api_url("/v1/gifs/search", encoded_key, extra.as_str())
    }

    /// Writes the address of one picture, whose identifier is encoded already.
    pub fn detail_url(&self, encoded_key: &str, encoded: &str) -> (r: Result<String, GatewayError>)
        ensures
            r is Ok <==> self@.api_key is Some,
            r matches Ok(url) ==> url@ == detail_address(self@.base_url, encoded_key@, encoded@),
            r matches Err(e) ==> e@ == missing_key(),
    {
        let mut path: String = "/v1/gifs/".to_owned();
        path.append(encoded);
        proof {
            reveal_strlit("");
            assert(""@ =~= Seq::empty());
        }
        self.api_url(path.as_str(), encoded_key, "")
    }
}

impl Default for GiphyPlugin {
    fn default() -> (r: Self)
        ensures
            r@ == (GiphyView {
                base_url: DEFAULT_BASE_URL@,
                api_key: None,
                configured: false,
            }),
            r@.base_url == "https://api.giphy.com"@,
    {
        Self::new()
    }
}

} // verus!
