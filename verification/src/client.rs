//! Deciding the one URL each page fetch must use, the authorization header
//! text, and the classification of HTTP status codes. The network call
//! itself is made by the surrounding binary with exactly these values.

use vstd::prelude::*;
use vstd::string::*;

use crate::digits::{append_i64, append_u64, i64_dec_str, u64_dec_str};
use crate::error::Error;
use crate::types::{timespan_name, AggregateRequest};
use crate::types::Timespan;

verus! {

/// Declares url::Url, the parsed form a validated target is returned in;
/// opaque here, only its existence matters to the contracts.
#[verifier::external_type_specification]
#[verifier::external_body]
pub struct ExUrl(url::Url);

/// Declares url::ParseError, what url::Url::parse reports for a rejected
/// string; opaque here.
#[verifier::external_type_specification]
#[verifier::external_body]
pub struct ExParseError(url::ParseError);

/// Whether `url::Url::parse` accepts this text as an absolute URL.
pub uninterp spec fn url_parse_ok(s: Seq<char>) -> bool;

/// Relies on url::Url::parse: a pure parser that returns Ok exactly when
/// its input is a valid absolute URL, and depends on the input alone.
pub assume_specification[ url::Url::parse ](input: &str) -> (r: Result<
    url::Url,
    url::ParseError,
>)
    ensures
        r is Ok <==> url_parse_ok(input@),
;

/// The fetch target synthesized for a first page: the aggregate endpoint
/// with the symbol, a multiplier of one, the bucket name, the millisecond
/// range, and the page limit.
pub open spec fn first_page_target(
    ticker: Seq<char>,
    timespan: Timespan,
    from_millis: i64,
    to_millis: i64,
    limit: u32,
) -> Seq<char> {
    "https://api.polygon.io/v2/aggs/ticker/"@ + ticker + "/range/1/"@ + timespan_name(timespan)
        + "/"@ + i64_dec_str(from_millis as int) + "/"@ + i64_dec_str(to_millis as int)
        + "?limit="@ + u64_dec_str(limit as nat)
}

/// The target of a request: the server's continuation verbatim when one is
/// set, else a freshly synthesized first-page target.
pub open spec fn target_model(r: AggregateRequest) -> Seq<char> {
    match r.next_url {
        Some(u) => u@,
        None => first_page_target(r.ticker@, r.timespan, r.from_millis, r.to_millis, r.limit),
    }
}

/// The exact target text for a request. The request is only read, never
/// altered.
pub fn build_target(r: &AggregateRequest) -> (t: String)
    ensures
        t@ == target_model(*r),
{
    match &r.next_url {
        Some(u) => u.clone(),
        None => {
            let mut s = String::from_str("https://api.polygon.io/v2/aggs/ticker/");
            s.append(r.ticker);
            s.append("/range/1/");
            s.append(r.timespan.as_str());
            s.append("/");
            append_i64(&mut s, r.from_millis);
            s.append("/");
            append_i64(&mut s, r.to_millis);
            s.append("?limit=");
            append_u64(&mut s, r.limit as u64);
            proof {
                assert(s@ =~= target_model(*r));
            }
            s
        },
    }
}

/// Decides the URL of the next page fetch: the continuation verbatim, else
/// the synthesized first-page target. Fails exactly when that text is not
/// a valid URL, and then reports the rejected text.
pub fn fetch_target(r: &AggregateRequest) -> (t: Result<String, Error>)
    ensures
        t is Ok <==> url_parse_ok(target_model(*r)),
        t matches Ok(s) ==> s@ == target_model(*r),
        t matches Err(e) ==> e matches Error::InvalidUrl(u) && u@ == target_model(*r),
{
    let s = build_target(r);
    match url::Url::parse(s.as_str()) {
        Ok(_) => Ok(s),
        Err(_) => Err(Error::InvalidUrl(s)),
    }
}

/// Law: building a target never alters the request — it is taken by shared
/// reference — and is a pure function of the request's fields: requests
/// built alike, with the same continuation, always aim at the same URL.
pub proof fn lemma_target_deterministic(a: AggregateRequest, b: AggregateRequest)
    requires
        a.ticker@ == b.ticker@,
        a.timespan == b.timespan,
        a.from_millis == b.from_millis,
        a.to_millis == b.to_millis,
        a.limit == b.limit,
        a.next_url == b.next_url,
    ensures
        target_model(a) == target_model(b),
{
}

/// The authorization header text carried on every fetch.
pub fn bearer_value(api_key: &str) -> (s: String)
    ensures
        s@ == "Bearer "@ + api_key@,
{
    let mut s = String::from_str("Bearer ");
    s.append(api_key);
    proof {
        assert(s@ =~= "Bearer "@ + api_key@);
    }
    s
}

/// Classifies an HTTP status: a code of at least 400 ends the symbol's
/// pipeline with the status the server gave; anything below passes.
pub fn status_outcome(status: u16) -> (r: Result<(), Error>)
    ensures
        r is Ok <==> status < 400,
        status >= 400 ==> r == Err::<(), Error>(Error::UnexpectedStatus(status)),
{
    if status < 400 {
        Ok(())
    } else {
        Err(Error::UnexpectedStatus(status))
    }
}

} // verus!
