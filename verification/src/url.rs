//! A request URL, parsed once and held as plain values.
use vstd::prelude::*;
use vstd::string::*;

#[allow(unused_imports)]
use crate::text::{option_view, stands_at};

verus! {

/// The components of a parsed URL. `href` is the canonical text of the whole
/// URL; the other fields are read from the same parse.
pub struct ParsedUrl {
    pub href: String,
    pub scheme: String,
    /// The scheme is followed by `//` and an authority.
    pub has_authority: bool,
    pub username: String,
    pub password: Option<String>,
    /// The host as it stands in `href`, be it a name or an address.
    pub host: Option<String>,
    /// The host where it is a name; absent for IP addresses.
    pub domain: Option<String>,
    /// The port where it is not the scheme's own.
    pub port: Option<u16>,
    pub path: String,
    pub query: Option<String>,
    pub fragment: Option<String>,
}

/// The mathematical value of a `ParsedUrl`.
pub struct UrlView {
    pub href: Seq<char>,
    pub scheme: Seq<char>,
    pub has_authority: bool,
    pub username: Seq<char>,
    pub password: Option<Seq<char>>,
    pub host: Option<Seq<char>>,
    pub domain: Option<Seq<char>>,
    pub port: Option<u16>,
    pub path: Seq<char>,
    pub query: Option<Seq<char>>,
    pub fragment: Option<Seq<char>>,
}

impl View for ParsedUrl {
    type V = UrlView;

    open spec fn view(&self) -> UrlView {
        UrlView {
            href: self.href@,
            scheme: self.scheme@,
            has_authority: self.has_authority,
            username: self.username@,
            password: option_view(self.password),
            host: option_view(self.host),
            domain: option_view(self.domain),
            port: self.port,
            path: self.path@,
            query: option_view(self.query),
            fragment: option_view(self.fragment),
        }
    }
}

/// What a text parses to as an absolute URL: its components, or the words in
/// which the parser refuses it.
pub uninterp spec fn parsed_url(text: Seq<char>) -> Result<UrlView, Seq<char>>;

/// The outcome of a parse as a mathematical value.
pub open spec fn parse_view(parsed: Result<ParsedUrl, String>) -> Result<UrlView, Seq<char>> {
    match parsed {
        Ok(url) => Ok(url@),
        Err(e) => Err(e@),
    }
}

/// Calls `url::Url::parse`, through `reqwest`, and reads the components off the
/// parsed URL with its accessors. What comes back depends on the text alone and
/// is named `parsed_url`. The canonical text starts with the scheme and a colon.
#[verifier::external_body]
pub(crate) fn parse_url(text: &str) -> (parsed: Result<ParsedUrl, String>)
    ensures
        parse_view(parsed) == parsed_url(text@),
        parsed matches Ok(url) ==> stands_at(url.href@, url.scheme@.push(':'), 0),
{
    let url = reqwest::Url::parse(text).map_err(|e| e.to_string())?;
    Ok(ParsedUrl {
        href: url.as_str().to_string(),
        scheme: url.scheme().to_string(),
        has_authority: url.has_authority(),
        username: url.username().to_string(),
        password: url.password().map(str::to_string),
        host: url.host_str().map(str::to_string),
        domain: url.domain().map(str::to_string),
        port: url.port(),
        path: url.path().to_string(),
        query: url.query().map(str::to_string),
        fragment: url.fragment().map(str::to_string),
    })
}

} // verus!
