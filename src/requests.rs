//! The decisions behind the plain request endpoints: which sleeps are
//! allowed, which headers are reflected, and where the client address comes from.
//!
//! Request headers come in as `(name, value)` pairs in the order of the
//! request, names in lower case; a value is `None` when it is not visible
//! ASCII text.
use vstd::prelude::*;

verus! {

/// The longest sleep, in milliseconds, that a request may ask for.
pub const MAX_SLEEP_MS: u64 = 30_000;

/// Whether a request may sleep for `duration_ms` milliseconds.
pub fn sleep_allowed(duration_ms: u64) -> (r: bool)
    ensures
        r == (duration_ms <= MAX_SLEEP_MS),
{
    duration_ms <= MAX_SLEEP_MS
}

/// Headers that a reverse proxy adds, which the header reflection leaves out.
pub open spec fn is_proxy_header(name: Seq<char>) -> bool {
    ||| name == "x-forwarded-for"@
    ||| name == "x-forwarded-host"@
    ||| name == "x-forwarded-port"@
    ||| name == "x-forwarded-proto"@
    ||| name == "x-forwarded-scheme"@
    ||| name == "x-real-ip"@
    ||| name == "x-request-id"@
    ||| name == "x-scheme"@
}

/// What stands in for a header value that is not visible ASCII text.
pub open spec fn invalid_value() -> Seq<char> {
    "invalid string"@
}

/// The headers reflected back: those not added by a proxy, in request order,
/// an unreadable value replaced by [`invalid_value`].
pub open spec fn reflect(hs: Seq<(Seq<char>, Option<Seq<char>>)>) -> Seq<(Seq<char>, Seq<char>)>
    decreases hs.len(),
{
    if hs.len() == 0 {
        Seq::empty()
    } else {
        let rest = reflect(hs.drop_last());
        let (name, value) = hs.last();
        if is_proxy_header(name) {
            rest
        } else {
            rest.push(
                (
                    name,
                    match value {
                        Some(v) => v,
                        None => invalid_value(),
                    },
                ),
            )
        }
    }
}

/// The client address: the value of the first `x-real-ip` header, or empty
/// when there is none or its value is unreadable.
pub open spec fn real_ip(hs: Seq<(Seq<char>, Option<Seq<char>>)>) -> Seq<char>
    decreases hs.len(),
{
    if hs.len() == 0 {
        Seq::empty()
    } else if hs[0].0 == "x-real-ip"@ {
        match hs[0].1 {
            Some(v) => v,
            None => Seq::empty(),
        }
    } else {
        real_ip(hs.drop_first())
    }
}

fn equals_str(a: &String, b: &str) -> (r: bool)
    ensures
        r == (a@ == b@),
{
    *a == String::from_str(b)
}

/// Whether `name` is a header that a reverse proxy adds.
pub fn proxy_header(name: &String) -> (r: bool)
    ensures
        r == is_proxy_header(name@),
{
    equals_str(name, "x-forwarded-for") || equals_str(name, "x-forwarded-host") || equals_str(
        name,
        "x-forwarded-port",
    ) || equals_str(name, "x-forwarded-proto") || equals_str(name, "x-forwarded-scheme")
        || equals_str(name, "x-real-ip") || equals_str(name, "x-request-id") || equals_str(
        name,
        "x-scheme",
    )
}

/// The headers to reflect back to the client.
pub fn reflected_headers(headers: &Vec<(String, Option<String>)>) -> (r: Vec<(String, String)>)
    ensures
        r.deep_view() == reflect(headers.deep_view()),
{
    let mut out: Vec<(String, String)> = Vec::new();
    let mut i: usize = 0;
    while i < headers.len()
        invariant
            i <= headers.len(),
            out.deep_view() == reflect(headers.deep_view().subrange(0, i as int)),
        decreases headers.len() - i,
    {
        let ghost hs = headers.deep_view();
        assert(hs.subrange(0, i + 1).drop_last() =~= hs.subrange(0, i as int));
        let name = &headers[i].0;
        if !proxy_header(name) {
            let value = match &headers[i].1 {
                Some(v) => v.clone(),
                None => String::from_str("invalid string"),
            };
            out.push((name.clone(), value));
            assert(out.deep_view() =~= reflect(hs.subrange(0, i + 1)));
        }
        i = i + 1;
    }
    assert(headers.deep_view().subrange(0, headers.len() as int) =~= headers.deep_view());
    out
}

/// The client address that a proxy reported, or an empty string.
pub fn client_ip(headers: &Vec<(String, Option<String>)>) -> (r: String)
    ensures
        r@ == real_ip(headers.deep_view()),
{
    let mut i: usize = 0;
    assert(headers.deep_view().subrange(0, headers.len() as int) =~= headers.deep_view());
    while i < headers.len()
        invariant
            i <= headers.len(),
            real_ip(headers.deep_view()) == real_ip(headers.deep_view().subrange(i as int, headers.len() as int)),
        decreases headers.len() - i,
    {
        let ghost hs = headers.deep_view();
        let ghost tail = hs.subrange(i as int, hs.len() as int);
        assert(tail.drop_first() =~= hs.subrange(i + 1, hs.len() as int));
        assert(tail[0] == hs[i as int]);
        if equals_str(&headers[i].0, "x-real-ip") {
            return match &headers[i].1 {
                Some(v) => v.clone(),
                None => String::new(),
            };
        }
        i = i + 1;
    }
    String::new()
}

/// The state that the request handlers share: when the service started.
#[derive(Clone)]
pub struct AppState {
    start_date: String,
}

impl View for AppState {
    type V = Seq<char>;

    closed spec fn view(&self) -> Seq<char> {
        self.start_date@
    }
}

impl AppState {
    /// The shared state of a service that started at `start_date`.
    pub fn new(start_date: String) -> (r: AppState)
        ensures
            r@ == start_date@,
    {
        AppState { start_date }
    }

    /// When the service started.
    pub fn start_date(&self) -> (r: &str)
        ensures
            r@ == self@,
    {
        self.start_date.as_str()
    }
}

} // verus!
