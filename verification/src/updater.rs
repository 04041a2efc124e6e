use vstd::prelude::*;
use url::Url;

verus! {

/// A parsed URL. Verus sees nothing inside it: the library hands it on.
#[verifier::external_type_specification]
#[verifier::external_body]
pub struct ExUrl(url::Url);

/// Why a text is no URL.
#[verifier::external_type_specification]
#[verifier::external_body]
pub struct ExUrlParseError(url::ParseError);

/// What `url::Url::parse` gives for a text: the parsed URL or the reason the
/// text is none. It depends on the text alone.
pub uninterp spec fn url_parse(text: Seq<char>) -> Result<Url, url::ParseError>;

/// Parses an absolute URL (`url::Url::parse`). Its result is `url_parse` of
/// the text: what the URL holds is not stated here.
#[verifier::external_body]
fn parse_url(text: &str) -> (r: Result<Url, url::ParseError>)
    ensures
        r == url_parse(text@),
{
    Url::parse(text)
}

/// Where the update manifest of a release channel lives.
pub open spec fn endpoint_text(channel: Seq<char>) -> Seq<char> {
    "https://releases.mon4ssi.com/yt-music/"@ + channel + "/update.json"@
}

/// Where the update manifest of a release channel lives, as text.
pub fn channel_endpoint_text(channel: &str) -> (t: String)
    ensures
        t@ == endpoint_text(channel@),
{
    let mut t = String::from_str("https://releases.mon4ssi.com/yt-music/");
    t.append(channel);
    t.append("/update.json");
    t
}

/// The endpoints the updater asks for a release channel: the one manifest
/// URL of that channel.
pub fn channel_endpoints(channel: &str) -> (urls: Vec<Url>)
    requires
        url_parse(endpoint_text(channel@)) is Ok,
    ensures
        urls@ == seq![url_parse(endpoint_text(channel@))->Ok_0],
{
    let text = channel_endpoint_text(channel);
    match parse_url(text.as_str()) {
        Ok(u) => {
            let mut urls: Vec<Url> = Vec::new();
            urls.push(u);
            urls
        },
        Err(_) => {
            proof {
                assert(false);
            }
            Vec::new()
        },
    }
}

/// The endpoints for a release channel, or `None` when the channel name
/// makes the manifest address no URL.
pub fn try_channel_endpoints(channel: &str) -> (urls: Option<Vec<Url>>)
    ensures
        urls is Some <==> url_parse(endpoint_text(channel@)) is Ok,
        urls matches Some(v) ==> v@ == seq![url_parse(endpoint_text(channel@))->Ok_0],
{
    let text = channel_endpoint_text(channel);
    match parse_url(text.as_str()) {
        Ok(_) => Some(channel_endpoints(channel)),
        Err(_) => None,
    }
}

/// An update that the updater found.
pub struct FoundUpdate {
    pub version: String,
    pub body: Option<String>,
}

/// What a check for updates tells the user.
pub struct UpdateInfo {
    pub available: bool,
    pub version: Option<String>,
    pub body: Option<String>,
}

/// What a check for updates tells, given what the updater found.
pub fn update_info_from(found: Option<FoundUpdate>) -> (info: UpdateInfo)
    ensures
        match found {
            Some(u) => info.available && info.version == Some(u.version) && info.body == u.body,
            None => !info.available && info.version is None && info.body is None,
        },
{
    match found {
        Some(u) => UpdateInfo { available: true, version: Some(u.version), body: u.body },
        None => UpdateInfo { available: false, version: None, body: None },
    }
}

} // verus!
