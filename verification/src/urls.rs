//! The library's model of a parsed URL.
//!
//! The resolver reads three things of a broker service URL: whether it is a
//! valid absolute URL at all, its host, and its explicit port. Parsing is
//! done by the `url` crate; this module names what that parser returns and
//! carries the result as plain values.

use vstd::prelude::*;

verus! {

/// Whether `url::Url::parse` accepts `s` as an absolute URL.
pub uninterp spec fn url_parse_ok(s: Seq<char>) -> bool;

/// The host of the URL that `s` parses to, if the URL has one.
pub uninterp spec fn url_host(s: Seq<char>) -> Option<Seq<char>>;

/// The explicit port of the URL that `s` parses to, if one is present
/// (a port equal to the scheme's default counts as absent).
pub uninterp spec fn url_port(s: Seq<char>) -> Option<u16>;

/// A URL as this library reads it: the text it was parsed from, and the
/// host and explicit port that the parser found in that text.
pub struct LookupUrl {
    pub text: String,
    pub host: Option<String>,
    pub port: Option<u16>,
}

#[verifier::ext_equal]
pub struct LookupUrlView {
    pub text: Seq<char>,
    pub host: Option<Seq<char>>,
    pub port: Option<u16>,
}

impl View for LookupUrl {
    type V = LookupUrlView;

    open spec fn view(&self) -> LookupUrlView {
        LookupUrlView {
            text: self.text@,
            host: match self.host {
                Some(h) => Some(h@),
                None => None,
            },
            port: self.port,
        }
    }
}

/// The model of the URL that `s` parses to.
pub open spec fn spec_url_of(s: Seq<char>) -> LookupUrlView {
    LookupUrlView { text: s, host: url_host(s), port: url_port(s) }
}

/// Relies on `url::Url::parse` to decide whether `s` is a valid absolute
/// URL, and on `Url::host_str` and `Url::port` to read the host and the
/// explicit port of the parsed URL; all three depend on `s` alone.
#[verifier::external_body]
fn parse_url_parts(s: &str) -> (r: Option<(Option<String>, Option<u16>)>)
    ensures
        r is Some <==> url_parse_ok(s@),
        r matches Some(p) ==> (match p.0 {
            Some(h) => url_host(s@) == Some(h@),
            None => url_host(s@) is None,
        }),
        r matches Some(p) ==> p.1 == url_port(s@),
{
    match url::Url::parse(s) {
        Ok(u) => Some((u.host_str().map(|h| h.to_string()), u.port())),
        Err(_) => None,
    }
}

impl LookupUrl {
    /// Parses `text` as an absolute URL; `None` when the parser rejects it.
    pub fn parse(text: &str) -> (r: Option<LookupUrl>)
        ensures
            r is Some <==> url_parse_ok(text@),
            r matches Some(u) ==> u@ == spec_url_of(text@),
    {
        match parse_url_parts(text) {
            Some((host, port)) => {
                let u = LookupUrl { text: text.to_owned(), host, port };
                proof {
                    assert(u@ =~= spec_url_of(text@));
                }
                Some(u)
            },
            None => None,
        }
    }
}

impl Clone for LookupUrl {
    /// The copy carries the same text, host and port.
    fn clone(&self) -> (r: Self)
        ensures
            r@ == self@,
    {
        LookupUrl {
            text: self.text.clone(),
            host: match &self.host {
                Some(h) => Some(h.clone()),
                None => None,
            },
            port: self.port,
        }
    }
}

} // verus!
