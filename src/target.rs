use vstd::prelude::*;

verus! {

/// The scheme, host and explicit port that the url crate reads from a URL
/// text, or `None` when the text is not a URL.
pub uninterp spec fn url_parts(url: Seq<char>) -> Option<(Seq<char>, Option<Seq<char>>, Option<u16>)>;

/// The text of an optional string.
pub open spec fn opt_text(o: Option<String>) -> Option<Seq<char>> {
    match o {
        Some(s) => Some(s@),
        None => None,
    }
}

/// Relies on `url::Url::parse` (as `reqwest::Url`) with `Url::scheme`,
/// `Url::host_str` and `Url::port`: the parts depend on the text alone.
#[verifier::external_body]
fn parse_url_parts(url: &str) -> (r: Option<(String, Option<String>, Option<u16>)>)
    ensures
        r is Some <==> url_parts(url@) is Some,
        r matches Some(p) ==> url_parts(url@) == Some((p.0@, opt_text(p.1), p.2)),
{
    match reqwest::Url::parse(url) {
        Ok(u) => Some((u.scheme().to_string(), u.host_str().map(|h| h.to_string()), u.port())),
        Err(_) => None,
    }
}

/// The port a scheme uses when the URL names none: 80 for plain HTTP, 443
/// for HTTPS. Other schemes are not served.
pub open spec fn default_port(scheme: Seq<char>) -> Option<u16> {
    if scheme == "http"@ {
        Some(80)
    } else if scheme == "https"@ {
        Some(443)
    } else {
        None
    }
}

/// Where a request to `url` connects: the host, and the explicit port or the
/// scheme's default. `None` for a text that is not a URL, a URL without a
/// host, or a scheme other than HTTP and HTTPS.
pub open spec fn target_of(url: Seq<char>) -> Option<(Seq<char>, u16)> {
    match url_parts(url) {
        Some((scheme, Some(host), port)) => match default_port(scheme) {
            Some(d) => Some((host, if port is Some { port->0 } else { d })),
            None => None,
        },
        _ => None,
    }
}

/// Resolves the host and port that a request to `url` connects to.
pub fn connect_target(url: &str) -> (r: Option<(String, u16)>)
    ensures
        r is Some <==> target_of(url@) is Some,
        r matches Some(t) ==> target_of(url@) == Some((t.0@, t.1)),
{
    let (scheme, host, port) = match parse_url_parts(url) {
        Some(p) => p,
        None => {
            return None;
        },
    };
    let host = match host {
        Some(h) => h,
        None => {
            return None;
        },
    };
    proof {
        reveal_strlit("http");
        reveal_strlit("https");
    }
    let default: u16 = if crate::method::str_eq(scheme.as_str(), "http") {
        80
    } else if crate::method::str_eq(scheme.as_str(), "https") {
        443
    } else {
        return None;
    };
    let port = match port {
        Some(p) => p,
        None => default,
    };
    Some((host, port))
}

} // verus!
