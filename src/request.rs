//! The request to the weather provider and the reading of its status.
use vstd::prelude::*;
use vstd::string::*;

verus! {

/// The provider's address; the location goes in the path.
pub const SERVICE_BASE: &'static str = "https://wttr.in";

/// What url::Url::parse makes of an absolute URL text: its serialization, or
/// `None` where it reports an error.
pub uninterp spec fn parsed_url(text: Seq<char>) -> Option<Seq<char>>;

/// What url::Url::set_path makes of the URL `url` (as text) and `path`.
pub uninterp spec fn url_with_path(url: Seq<char>, path: Seq<char>) -> Option<Seq<char>>;

/// What url::Url::query_pairs_mut().append_pair makes of the URL `url` (as text)
/// and one `name=value` pair.
pub uninterp spec fn url_with_pair(url: Seq<char>, name: Seq<char>, value: Seq<char>) -> Option<
    Seq<char>,
>;

/// Relies on url::Url::parse (re-exported by reqwest) to read an absolute URL
/// and give back its serialization; `None` where it reports a parse error. The
/// provider's address is a well-formed absolute URL, which it accepts.
#[verifier::external_body]
fn parse_url(text: &str) -> (r: Option<String>)
    ensures
        match r {
            Some(t) => parsed_url(text@) == Some(t@),
            None => parsed_url(text@) is None,
        },
        text@ == "https://wttr.in"@ ==> r is Some,
{
    reqwest::Url::parse(text).ok().map(String::from)
}

/// Relies on url::Url::set_path to replace the path of a URL, percent-encoding
/// what needs it; the URL comes and goes as text (`None` where it is no URL).
#[verifier::external_body]
fn set_url_path(url: &str, path: &str) -> (r: Option<String>)
    ensures
        match r {
            Some(t) => url_with_path(url@, path@) == Some(t@),
            None => url_with_path(url@, path@) is None,
        },
{
    let mut u = reqwest::Url::parse(url).ok()?;
    u.set_path(path);
    Some(String::from(u))
}

/// Relies on url::Url::query_pairs_mut and its serializer's append_pair to add
/// one form-encoded `name=value` pair to the query of a URL; the URL comes and
/// goes as text (`None` where it is no URL).
#[verifier::external_body]
fn append_query_pair(url: &str, name: &str, value: &str) -> (r: Option<String>)
    ensures
        match r {
            Some(t) => url_with_pair(url@, name@, value@) == Some(t@),
            None => url_with_pair(url@, name@, value@) is None,
        },
{
    let mut u = reqwest::Url::parse(url).ok()?;
    u.query_pairs_mut().append_pair(name, value);
    Some(String::from(u))
}

/// `s` with every space replaced by `+`.
pub open spec fn spaces_to_plus(s: Seq<char>) -> Seq<char> {
    s.map_values(|c: char| if c == ' ' { '+' } else { c })
}

/// The path that asks for `location`: `~` followed by the location with its
/// spaces written as `+`.
pub open spec fn location_path_of(location: Seq<char>) -> Seq<char> {
    seq!['~'] + spaces_to_plus(location)
}

/// The request path for a location.
pub fn location_path(location: &str) -> (r: String)
    ensures
        r@ == location_path_of(location@),
{
    proof {
        reveal_strlit("~");
        reveal_strlit("+");
    }
    let mut r = String::from_str("~");
    let n = location.unicode_len();
    let mut i: usize = 0;
    while i < n
        invariant
            i <= n,
            n == location@.len(),
            r@ == seq!['~'] + spaces_to_plus(location@.take(i as int)),
            "+"@ == seq!['+'],
        decreases n - i,
    {
        let c = location.get_char(i);
        if c == ' ' {
            r.append("+");
        } else {
            r.append(location.substring_char(i, i + 1));
        }
        assert(spaces_to_plus(location@.take(i + 1)) =~= spaces_to_plus(location@.take(i as int)).push(
            if c == ' ' {
                '+'
            } else {
                c
            },
        ));
        i = i + 1;
    }
    assert(location@.take(n as int) =~= location@);
    r
}

/// What the request asks for, besides the provider's address: the path, when a
/// location is given, and the query pairs in order.
pub struct RequestParts {
    pub path: Option<String>,
    pub query: Vec<(String, String)>,
}

/// The path and query of the request for `location`: the path `~` followed by
/// the location with spaces written as `+`, or none (the provider then uses the
/// caller's own location); the query `format=j1` then `lang=en`, whatever the
/// location holds.
pub fn request_parts(location: Option<&str>) -> (r: RequestParts)
    ensures
        match location {
            Some(l) => r.path matches Some(p) && p@ == location_path_of(l@),
            None => r.path is None,
        },
        r.query@.len() == 2,
        r.query@[0].0@ == "format"@,
        r.query@[0].1@ == "j1"@,
        r.query@[1].0@ == "lang"@,
        r.query@[1].1@ == "en"@,
{
    let path = match location {
        Some(loc) => Some(location_path(loc)),
        None => None,
    };
    let mut query: Vec<(String, String)> = Vec::new();
    query.push((String::from_str("format"), String::from_str("j1")));
    query.push((String::from_str("lang"), String::from_str("en")));
    RequestParts { path, query }
}

/// The URL for `location`, as text: the provider's address, then the path for
/// the location if there is one, then `format=j1` and `lang=en`, each step as
/// the url crate takes it.
pub open spec fn request_url_of(location: Option<Seq<char>>) -> Option<Seq<char>> {
    let base = match location {
        Some(l) => match parsed_url("https://wttr.in"@) {
            Some(b) => url_with_path(b, location_path_of(l)),
            None => None,
        },
        None => parsed_url("https://wttr.in"@),
    };
    match base {
        Some(u) => match url_with_pair(u, "format"@, "j1"@) {
            Some(v) => url_with_pair(v, "lang"@, "en"@),
            None => None,
        },
        None => None,
    }
}

/// The provider URL for `location`, as text: the parts of `request_parts`
/// applied in order to the provider's address.
pub fn request_url(location: Option<&str>) -> (r: Option<String>)
    ensures
        match r {
            Some(t) => request_url_of(
                match location {
                    Some(l) => Some(l@),
                    None => None,
                },
            ) == Some(t@),
            None => request_url_of(
                match location {
                    Some(l) => Some(l@),
                    None => None,
                },
            ) is None,
        },
{
    let parts = request_parts(location);
    proof {
        reveal_strlit("https://wttr.in");
    }
    let mut url = parse_url(SERVICE_BASE).unwrap();
    match &parts.path {
        Some(p) => {
            url = match set_url_path(url.as_str(), p.as_str()) {
                Some(u) => u,
                None => return None,
            };
        },
        None => {},
    }
    let with_format = match append_query_pair(
        url.as_str(),
        parts.query[0].0.as_str(),
        parts.query[0].1.as_str(),
    ) {
        Some(u) => u,
        None => return None,
    };
    append_query_pair(with_format.as_str(), parts.query[1].0.as_str(), parts.query[1].1.as_str())
}

/// Why the provider's answer was not used.
#[derive(Clone, Copy, Debug, PartialEq, Eq, Structural)]
pub enum StatusError {
    LocationNotFound,
    ServiceFailed,
}

/// The message for each status error: it tells an unknown location apart from
/// a failing service.
pub open spec fn status_message(e: StatusError) -> Seq<char> {
    match e {
        StatusError::LocationNotFound => "Location not found"@,
        StatusError::ServiceFailed => "Request to weather service returned unsuccessful"@,
    }
}

impl StatusError {
    /// The message reported for this error.
    pub fn message(&self) -> (r: &'static str)
        ensures
            r@ == status_message(*self),
    {
        match self {
            StatusError::LocationNotFound => "Location not found",
            StatusError::ServiceFailed => "Request to weather service returned unsuccessful",
        }
    }
}

/// 404 means the location is unknown; any other status but 200 is a failure of
/// the service.
pub fn check_status(code: u16) -> (r: Result<(), StatusError>)
    ensures
        code == 200 <==> r is Ok,
        code == 404 <==> r == Err::<(), StatusError>(StatusError::LocationNotFound),
        code != 200 && code != 404 <==> r == Err::<(), StatusError>(StatusError::ServiceFailed),
{
    if code == 404 {
        Err(StatusError::LocationNotFound)
    } else if code != 200 {
        Err(StatusError::ServiceFailed)
    } else {
        Ok(())
    }
}

} // verus!
