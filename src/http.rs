//! Requests to remote services, described as plain values: the library
//! decides what to send, and the caller sends it.

use crate::fingerprint::{digit_char, hex_digit, FingerprintError};
use vstd::prelude::*;

verus! {

/// Why one step of one provider failed.
#[derive(Clone, Copy, Debug, PartialEq, Eq, Structural)]
pub enum ProviderError {
    /// Local filesystem access failed.
    Io,
    /// The network request failed or timed out.
    Transport,
    /// The remote response could not be understood.
    Decode,
    /// No candidate was left after filtering.
    NoMatch,
    /// The provider has no token for the requested language.
    UnsupportedLanguage,
    /// The provider's credential was not supplied.
    CredentialMissing,
    /// The media file has no fingerprint.
    Fingerprint(FingerprintError),
}

#[derive(Clone, Copy, Debug, PartialEq, Eq, Structural)]
pub enum Method {
    Get,
    Post,
}

/// One HTTP request, with the provider's credential header.
pub struct HttpRequest {
    pub method: Method,
    pub url: String,
    pub header_name: String,
    pub header_value: String,
    /// A JSON body, sent with POST.
    pub body: Option<String>,
}

/// The views of the keys and values of a list of query parameters.
pub open spec fn pair_views(pairs: Seq<(String, String)>) -> Seq<(Seq<char>, Seq<char>)> {
    pairs.map_values(|p: (String, String)| (p.0@, p.1@))
}

/// A query string: `key=value&` for each pair, in order, nothing escaped.
pub open spec fn query_text(pairs: Seq<(Seq<char>, Seq<char>)>) -> Seq<char>
    decreases pairs.len(),
{
    if pairs.len() == 0 {
        Seq::empty()
    } else {
        query_text(pairs.drop_last()) + pairs.last().0 + seq!['='] + pairs.last().1 + seq!['&']
    }
}

/// Relies on `querystring::stringify`: it folds the pairs in order into
/// `key=value&` pieces and escapes nothing.
#[verifier::external_body]
pub(crate) fn stringify(pairs: &Vec<(String, String)>) -> (r: String)
    ensures
        r@ == query_text(pair_views(pairs@)),
{
    querystring::stringify(pairs.iter().map(|p| (p.0.as_str(), p.1.as_str())).collect())
}

/// The decimal digits of `n`, most significant first.
pub open spec fn digits(n: nat) -> Seq<char>
    decreases n,
{
    if n < 10 {
        seq![hex_digit(n as int)]
    } else {
        digits(n / 10).push(hex_digit((n % 10) as int))
    }
}

/// `n` written in decimal, with a leading '-' when negative.
pub open spec fn decimal(n: int) -> Seq<char> {
    if n < 0 {
        seq!['-'] + digits((-n) as nat)
    } else {
        digits(n as nat)
    }
}

fn push_digits(out: &mut String, v: u64)
    ensures
        final(out)@ == old(out)@ + digits(v as nat),
    decreases v,
{
    if v >= 10 {
        push_digits(out, v / 10);
    }
    out.push(digit_char(v % 10));
    assert(out@ =~= old(out)@ + digits(v as nat));
}

/// `n` written in decimal.
pub fn decimal_text(n: i32) -> (r: String)
    ensures
        r@ == decimal(n as int),
{
    let mut out = String::new();
    if n < 0 {
        out.push('-');
        let magnitude = (0 - (n as i64)) as u64;
        push_digits(&mut out, magnitude);
    } else {
        push_digits(&mut out, n as u64);
    }
    assert(out@ =~= decimal(n as int));
    out
}

} // verus!
