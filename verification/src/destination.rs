//! From the raw `destination` value to a URL that may be fetched.
//!
//! Resolution goes presence, then percent-decoding, then URL parsing, and
//! reports the first step that fails. Decoding is done by `urlencoding` and
//! parsing by `url`; what they return is taken on trust and named here, and
//! everything that is decided from their answers is proved.

use vstd::prelude::*;
use crate::error::RelayError;

verus! {

/// What `urlencoding::decode` makes of `text`: the decoded text, or `None`
/// where the decoded bytes are not UTF-8.
pub uninterp spec fn percent_decoded(text: Seq<char>) -> Option<Seq<char>>;

/// What `url::Url::parse` makes of `text`: the serialization of the absolute
/// URL that it reads, or `None` where it reads none.
pub uninterp spec fn parsed_url(text: Seq<char>) -> Option<Seq<char>>;

/// `std::string::FromUtf8Error`, the error of `urlencoding::decode`. Nothing
/// is read from it.
#[verifier::external_type_specification]
#[verifier::external_body]
pub struct ExFromUtf8Error(std::string::FromUtf8Error);

/// `url::ParseError`, the error of `url::Url::parse`. Nothing is read from it.
#[verifier::external_type_specification]
#[verifier::external_body]
pub struct ExParseError(url::ParseError);

/// Calls `urlencoding::decode`.
///
/// Trusted: the answer depends on `raw` alone, so it is `percent_decoded(raw)`;
/// and a text that holds no `%` comes back as it went in, which is the first
/// thing the decoder checks.
#[verifier::external_body]
fn percent_decode(raw: &str) -> (decoded: Result<String, std::string::FromUtf8Error>)
    ensures
        match decoded {
            Ok(text) => percent_decoded(raw@) == Some(text@),
            Err(_) => percent_decoded(raw@) is None,
        },
        !raw@.contains('%') ==> decoded is Ok && decoded->Ok_0@ == raw@,
{
    match urlencoding::decode(raw) {
        Ok(text) => Ok(text.into_owned()),
        Err(error) => Err(error),
    }
}

/// Calls `url::Url::parse` and takes the URL's serialization.
///
/// Trusted: the answer depends on `text` alone, so it is `parsed_url(text)`.
#[verifier::external_body]
fn parse_url(text: &str) -> (parsed: Result<String, url::ParseError>)
    ensures
        match parsed {
            Ok(href) => parsed_url(text@) == Some(href@),
            Err(_) => parsed_url(text@) is None,
        },
{
    match url::Url::parse(text) {
        Ok(url) => Ok(String::from(url)),
        Err(error) => Err(error),
    }
}

/// What resolving the raw `destination` value comes to: the URL to fetch, or
/// the first of the three steps that failed.
pub open spec fn resolution(raw: Option<Seq<char>>) -> Result<Seq<char>, RelayError> {
    match raw {
        None => Err(RelayError::MissingDestination),
        Some(value) => match percent_decoded(value) {
            None => Err(RelayError::InvalidDestination),
            Some(text) => match parsed_url(text) {
                None => Err(RelayError::InvalidDestination),
                Some(href) => Ok(href),
            },
        },
    }
}

/// Whether `href` is what some raw value resolves to.
pub open spec fn is_resolved(href: Seq<char>) -> bool {
    exists|raw: Seq<char>| #[trigger] resolution(Some(raw)) == Ok::<Seq<char>, RelayError>(href)
}

/// An absolute URL that came out of [`resolve_destination`].
///
/// There is no other way to make one: a value of this type was decoded and
/// parsed, always.
#[derive(Debug, PartialEq, Eq)]
pub struct ResolvedDestination {
    href: String,
}

impl View for ResolvedDestination {
    type V = Seq<char>;

    closed spec fn view(&self) -> Seq<char> {
        self.href@
    }
}

impl ResolvedDestination {
    #[verifier::type_invariant]
    spec fn resolved(&self) -> bool {
        is_resolved(self.href@)
    }

    /// The URL as text, in the form in which the parser wrote it.
    pub fn as_str(&self) -> (href: &str)
        ensures
            href@ == self@,
            is_resolved(self@),
    {
        proof {
            use_type_invariant(self);
        }
        self.href.as_str()
    }
}

/// The rule that follows both outside calls: whatever went wrong in decoding
/// or in parsing, the destination is invalid, and the client is not told which.
pub fn invalid_unless_ok<E>(outcome: Result<String, E>) -> (checked: Result<String, RelayError>)
    ensures
        match outcome {
            Ok(text) => checked == Ok::<String, RelayError>(text),
            Err(_) => checked == Err::<String, RelayError>(RelayError::InvalidDestination),
        },
{
    match outcome {
        Ok(text) => Ok(text),
        Err(_) => Err(RelayError::InvalidDestination),
    }
}

/// The view of an optional text.
pub open spec fn text_model(text: Option<&str>) -> Option<Seq<char>> {
    match text {
        Some(s) => Some(s@),
        None => None,
    }
}

/// Resolves the raw `destination` value of a request, or its absence.
///
/// No network is touched. The value must be present, must percent-decode, and
/// the decoded text must parse as an absolute URL, in that order. A value that
/// holds no `%` is its own decoding, so it resolves to whatever it parses to
/// as it stands.
pub fn resolve_destination(raw: Option<&str>) -> (resolved: Result<ResolvedDestination, RelayError>)
    ensures
        match resolved {
            Ok(destination) => resolution(text_model(raw)) == Ok::<Seq<char>, RelayError>(
                destination@,
            ),
            Err(error) => resolution(text_model(raw)) == Err::<Seq<char>, RelayError>(error),
        },
        raw is None ==> resolved == Err::<ResolvedDestination, RelayError>(
            RelayError::MissingDestination,
        ),
        raw matches Some(value) ==> (!value@.contains('%') ==> percent_decoded(value@) == Some(
            value@,
        ) && match resolved {
            Ok(destination) => parsed_url(value@) == Some(destination@),
            Err(error) => error == RelayError::InvalidDestination && parsed_url(value@) is None,
        }),
{
    let value = match raw {
        Some(value) => value,
        None => { return Err(RelayError::MissingDestination); },
    };
    let text = match invalid_unless_ok(percent_decode(value)) {
        Ok(text) => text,
        Err(error) => { return Err(error); },
    };
    let href = match invalid_unless_ok(parse_url(text.as_str())) {
        Ok(href) => href,
        Err(error) => { return Err(error); },
    };
    assert(resolution(Some(value@)) == Ok::<Seq<char>, RelayError>(href@));
    Ok(ResolvedDestination { href })
}

} // verus!
