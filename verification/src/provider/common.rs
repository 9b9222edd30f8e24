//! What the three providers share: the shape of a request, the reading of a
//! response's status, and the year of a date.

use vstd::prelude::*;
use crate::error::{concat, ScraperError, ScraperErrorView};
use crate::text::{chars_of, decimal, decimal_text, parse_i32, parsed_i32, string_of};

verus! {

/// The text up to the first occurrence of `stop`, or all of it where `stop`
/// does not occur.
pub open spec fn field_before(s: Seq<char>, stop: char) -> Seq<char>
    decreases s.len(),
{
    if s.len() == 0 || s.first() == stop {
        Seq::empty()
    } else {
        seq![s.first()] + field_before(s.drop_first(), stop)
    }
}

/// The year of a date: the number in front of its first hyphen.
pub open spec fn date_year(date: Option<Seq<char>>) -> Option<i32> {
    match date {
        Some(d) => parsed_i32(field_before(d, '-')),
        None => None,
    }
}

/// The text up to the first occurrence of `stop`.
pub fn take_field(s: &[char], stop: char) -> (r: Vec<char>)
    ensures
        r@ == field_before(s@, stop),
{
    let mut out: Vec<char> = Vec::new();
    let mut i: usize = 0;
    assert(s@.skip(0) == s@);
    assert(out@ + field_before(s@, stop) =~= field_before(s@, stop));
    while i < s.len() && s[i] != stop
        invariant
            i <= s.len(),
            field_before(s@, stop) == out@ + field_before(s@.skip(i as int), stop),
        decreases s.len() - i,
    {
        proof {
            let rest = s@.skip(i as int);
            assert(rest.first() == s@[i as int]);
            assert(rest.drop_first() == s@.skip(i + 1));
            assert(out@.push(s@[i as int]) + field_before(s@.skip(i + 1), stop) =~= out@ + (
            seq![s@[i as int]] + field_before(s@.skip(i + 1), stop)));
        }
        out.push(s[i]);
        i = i + 1;
    }
    proof {
        let rest = s@.skip(i as int);
        if i < s.len() {
            assert(rest.first() == s@[i as int]);
        }
        assert(out@ + Seq::<char>::empty() =~= out@);
    }
    out
}

/// The year of a date: the number in front of its first hyphen.
pub fn year_of_date(date: &Option<String>) -> (r: Option<i32>)
    ensures
        r == date_year(date.deep_view()),
{
    match date {
        Some(d) => {
            let chars = chars_of(d.as_str());
            let field = take_field(chars.as_slice(), '-');
            parse_i32(field.as_slice())
        },
        None => None,
    }
}

/// A request to a provider: the endpoint below the provider's base address,
/// and the query parameters in the order in which they are sent.
#[derive(Debug)]
pub struct Request {
    pub endpoint: String,
    pub params: Vec<(String, String)>,
}

/// The parameters of a request as mathematical values.
pub open spec fn param_views(params: Seq<(String, String)>) -> Seq<(Seq<char>, Seq<char>)> {
    params.map_values(|p: (String, String)| (p.0@, p.1@))
}

/// What a `Request` holds, as mathematical values.
pub struct RequestView {
    pub endpoint: Seq<char>,
    pub params: Seq<(Seq<char>, Seq<char>)>,
}

impl View for Request {
    type V = RequestView;

    open spec fn view(&self) -> RequestView {
        RequestView { endpoint: self.endpoint@, params: param_views(self.params@) }
    }
}

/// Adds a parameter behind those that are there.
pub fn push_param(params: &mut Vec<(String, String)>, key: &str, value: &str)
    ensures
        param_views(final(params)@) == param_views(old(params)@).push((key@, value@)),
{
    let ghost before = param_views(params@);
    params.push((key.to_owned(), value.to_owned()));
    assert(param_views(params@) =~= before.push((key@, value@)));
}

/// The address of an endpoint: the base address with the endpoint behind it.
pub fn url(base_url: &str, endpoint: &str) -> (r: String)
    ensures
        r@ == base_url@ + endpoint@,
{
    concat(base_url, endpoint)
}

/// What `User-Agent` every request carries.
pub const USER_AGENT: &'static str = "Ayiah/0.1.0";

/// After how many seconds a request is given up.
pub const REQUEST_TIMEOUT: u64 = 30;

/// Whether a status is a success: 200 to 299.
pub open spec fn is_success(status: u16) -> bool {
    200 <= status <= 299
}

/// The status with which a provider asks for fewer requests.
pub const TOO_MANY_REQUESTS: u16 = 429;

/// What a response is worth before its body is decoded: the body of a
/// success; for the status 429 with a time to wait, given in seconds, the
/// error that carries that time; and for any other status the error that
/// carries the status and the body as its message.
pub open spec fn response_outcome(status: u16, retry_after: Option<u64>, body: Seq<char>)
    -> Result<Seq<char>, ScraperErrorView> {
    if is_success(status) {
        Ok(body)
    } else if status == TOO_MANY_REQUESTS && retry_after is Some {
        Err(ScraperErrorView::RateLimit(retry_after->0))
    } else {
        Err(ScraperErrorView::Api { status, message: body })
    }
}

/// Reads the status of a response: a success hands on the body to be
/// decoded, any other status is an error. `retry_after` is the number of
/// seconds that the response asks to wait, if it names one.
pub fn handle_response(status: u16, retry_after: Option<u64>, body: String) -> (r: Result<
    String,
    ScraperError,
>)
    ensures
        match r {
            Ok(b) => response_outcome(status, retry_after, body@) == Ok::<
                Seq<char>,
                ScraperErrorView,
            >(b@),
            Err(e) => response_outcome(status, retry_after, body@) == Err::<
                Seq<char>,
                ScraperErrorView,
            >(e@),
        },
{
    if 200 <= status && status <= 299 {
        return Ok(body);
    }
    match retry_after {
        Some(seconds) => if status == TOO_MANY_REQUESTS {
            Err(ScraperError::RateLimit(seconds))
        } else {
            Err(ScraperError::Api { status, message: body })
        },
        None => Err(ScraperError::Api { status, message: body }),
    }
}

/// The error for a body that could not be decoded; `reason` says why.
pub fn decode_error(reason: &str) -> (r: ScraperError)
    ensures
        r@ == ScraperErrorView::Parse("JSON parse error: "@ + reason@),
{
    ScraperError::Parse(concat("JSON parse error: ", reason))
}

/// A number in decimal, as a string.
pub fn decimal_string(n: i64) -> (r: String)
    ensures
        r@ == decimal_text(n as int),
{
    let digits = decimal(n);
    string_of(digits.as_slice())
}

/// The decimal form of a number, where there is one.
pub open spec fn decimal_of(n: Option<i64>) -> Option<Seq<char>> {
    match n {
        Some(v) => Some(decimal_text(v as int)),
        None => None,
    }
}

/// A copy of a list of strings.
pub fn clone_names(v: &Vec<String>) -> (r: Vec<String>)
    ensures
        r.deep_view() == v.deep_view(),
{
    crate::types::clone_strings(v)
}

/// The strings of a list as mathematical values.
pub open spec fn strings(v: Seq<String>) -> Seq<Seq<char>> {
    v.map_values(|s: String| s@)
}

} // verus!
