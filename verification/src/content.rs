//! Resolving what a tab should show for a URL: internal pages are produced
//! here, network schemes are handed to the hosting shell as a fetch plan,
//! and unparsable or unknown URLs get their stable fallback text.

use vstd::prelude::*;
use crate::strutil::str_eq;

verus! {

/// What `url::Url::parse` extracts from a URL string: `None` when parsing
/// fails, otherwise the scheme and the optional host. The result depends on
/// the input string alone.
pub uninterp spec fn url_parts_of(s: Seq<char>) -> Option<(Seq<char>, Option<Seq<char>>)>;

/// The scheme and host of a parsed URL, as plain strings.
pub struct UrlParts {
    pub scheme: String,
    pub host: Option<String>,
}

/// Relies on url::Url::parse, url::Url::scheme and url::Url::host_str: a
/// URL string either fails to parse or yields a scheme and an optional
/// host, all functions of the string alone.
#[verifier::external_body]
fn parse_url(url: &str) -> (r: Option<UrlParts>)
    ensures
        r is Some <==> url_parts_of(url@) is Some,
        r is Some ==> r->0.scheme@ == (url_parts_of(url@)->0).0 && r->0.host.deep_view() == (
        url_parts_of(url@)->0).1,
{
    match url::Url::parse(url) {
        Ok(u) => Some(
            UrlParts { scheme: u.scheme().to_string(), host: u.host_str().map(|h| h.to_string()) },
        ),
        Err(_) => None,
    }
}

/// The help page served for the internal help address.
pub open spec fn gosub_help_text() -> Seq<char> {
    GOSUB_HELP_PAGE@
}

pub const GOSUB_HELP_PAGE: &'static str = r#"<h1>gosub://help</h1>

    <p>This is the help page for the gosub engine</p>

    <p>The following special gosub pages are supported:</p>

    <table>
      <tr><td><a target="_blank"href="gosub://blank">gosub://blank</td><td>Opens a blank page</td></tr>
      <tr><td><a target="_blank"href="gosub://help">gosub://help</td><td>Displays this help page</td></tr>
      <tr><td><a target="_blank" href="gosub://credits">gosub://credits</td><td>Displays credits of the Dive Browser and the Gosub Engine</td></tr>
      <tr><td><a target="_blank" href="gosub://settings">gosub://settings</td><td>Displays the settings page</td></tr>
    </table>
    "#;

/// The body of the internal help page.
pub fn gosub_help() -> (r: String)
    ensures
        r@ == gosub_help_text(),
{
    GOSUB_HELP_PAGE.to_owned()
}

/// The page shown for an internal-scheme URL, by host.
pub open spec fn spec_gosub_content(host: Option<Seq<char>>) -> Seq<char> {
    match host {
        Some(h) => if h == "blank"@ {
            "This page is left intentionally blank"@
        } else if h == "help"@ {
            gosub_help_text()
        } else if h == "credits"@ {
            "Here be credits for the gosub engine"@
        } else if h == "settings"@ {
            "Here you can tinker with all kinds of dive and gosub settings"@
        } else {
            "Unknown gosub protocol"@
        },
        None => "Unknown gosub protocol"@,
    }
}

/// The static pages of the internal scheme: blank, help, credits, settings;
/// anything else reports an unknown internal address.
pub fn process_gosub_protocol(host: &Option<String>) -> (r: String)
    ensures
        r@ == spec_gosub_content(host.deep_view()),
{
    match host {
        Some(h) => {
            if str_eq(h.as_str(), "blank") {
                "This page is left intentionally blank".to_owned()
            } else if str_eq(h.as_str(), "help") {
                gosub_help()
            } else if str_eq(h.as_str(), "credits") {
                "Here be credits for the gosub engine".to_owned()
            } else if str_eq(h.as_str(), "settings") {
                "Here you can tinker with all kinds of dive and gosub settings".to_owned()
            } else {
                "Unknown gosub protocol".to_owned()
            }
        },
        None => "Unknown gosub protocol".to_owned(),
    }
}

/// How a URL resolves: content produced locally, a network fetch the
/// hosting shell must perform, or a parse failure.
pub enum Resolution {
    Local { content: String },
    Remote,
    Invalid { message: String },
}

/// Ghost mirror of `Resolution`, without the free-form failure text.
pub enum ResolutionV {
    Local { content: Seq<char> },
    Remote,
    Invalid,
}

/// How a URL resolves, at the specification level.
pub open spec fn spec_resolve(url: Seq<char>) -> ResolutionV {
    match url_parts_of(url) {
        None => ResolutionV::Invalid,
        Some(parts) => if parts.0 == "file"@ {
            ResolutionV::Local { content: "File content is not yet supported"@ }
        } else if parts.0 == "data"@ {
            ResolutionV::Local { content: "Data content is not yet supported"@ }
        } else if parts.0 == "gosub"@ {
            ResolutionV::Local { content: spec_gosub_content(parts.1) }
        } else if parts.0 == ""@ || parts.0 == "https"@ || parts.0 == "http"@ {
            ResolutionV::Remote
        } else {
            ResolutionV::Local { content: "Unknown protocol"@ }
        },
    }
}

/// Resolves a URL: internal schemes produce their page directly, plain and
/// encrypted network schemes ask for a fetch, anything else falls back to
/// stable text. An unparsable URL resolves to a stable failure message.
pub fn resolve_url(url: &str) -> (r: Resolution)
    ensures
        match spec_resolve(url@) {
            ResolutionV::Local { content } => r is Local && r->Local_content@ == content,
            ResolutionV::Remote => r is Remote,
            ResolutionV::Invalid => r is Invalid && r->Invalid_message@ == "Invalid URL"@,
        },
{
    let parts = match parse_url(url) {
        Some(p) => p,
        None => {
            return Resolution::Invalid { message: "Invalid URL".to_owned() };
        },
    };
    if str_eq(parts.scheme.as_str(), "file") {
        Resolution::Local { content: "File content is not yet supported".to_owned() }
    } else if str_eq(parts.scheme.as_str(), "data") {
        Resolution::Local { content: "Data content is not yet supported".to_owned() }
    } else if str_eq(parts.scheme.as_str(), "gosub") {
        Resolution::Local { content: process_gosub_protocol(&parts.host) }
    } else if str_eq(parts.scheme.as_str(), "") || str_eq(parts.scheme.as_str(), "https") || str_eq(
        parts.scheme.as_str(),
        "http",
    ) {
        Resolution::Remote
    } else {
        Resolution::Local { content: "Unknown protocol".to_owned() }
    }
}

} // verus!
