//! Deciding whether a candidate text is an endpoint. The `url` crate's parser
//! has the last word on what an absolute URL is; this module holds the
//! boundary to it and the rule that the library lays on top.

use vstd::prelude::*;
use crate::endpoint::{contains_space_or_control, has_space_or_control, opens_with_authority};
use crate::error::Error;

verus! {

/// `url::ParseError`, the reason the parser gives for turning a text down.
#[verifier::external_type_specification]
#[verifier::external_body]
pub struct ExParseError(url::ParseError);

/// What `url::Url::parse` makes of `text`: the serialization of the URL it
/// returns, or `None` where it returns an error.
pub uninterp spec fn parsed_url(text: Seq<char>) -> Option<Seq<char>>;

/// Calls `url::Url::parse` on `text` and hands back the serialization of the
/// URL (`Url::into_string`) or the parser's error. Nothing is claimed of the
/// outcome but that it is the one `parsed_url` names for this text.
///
/// The text must open with the authority. On a host of its own choosing the
/// parser can be made to overflow a counter while it encodes a long label
/// that is not ASCII, and a build that checks overflow then panics; with the
/// host fixed, and ASCII, that encoding is never entered.
#[verifier::external_body]
pub(crate) fn parse_url(text: &str) -> (outcome: Result<String, url::ParseError>)
    requires
        opens_with_authority(text@),
    ensures
        match outcome {
            Ok(url) => parsed_url(text@) == Some(url@),
            Err(_) => parsed_url(text@) is None,
        },
{
    url::Url::parse(text).map(url::Url::into_string)
}

/// The endpoint that `text`, a text on the authority, stands for, if it
/// stands for one.
///
/// The parser is lenient: it drops tabs and line breaks, trims blanks at
/// either end and escapes the rest. A text that holds raw white space or a
/// control character is therefore turned down before the parser sees it; any
/// other text is an endpoint exactly when the parser accepts it, and the
/// endpoint is the URL in its serialized form.
pub open spec fn endpoint_of(text: Seq<char>) -> Option<Seq<char>>
    recommends
        opens_with_authority(text),
{
    if has_space_or_control(text) {
        None
    } else {
        parsed_url(text)
    }
}

/// Turns the parser's outcome into the library's: the URL as it is, any
/// parser error as `MalformedEndpoint`.
pub fn from_outcome(outcome: Result<String, url::ParseError>) -> (r: Result<String, Error>)
    ensures
        match outcome {
            Ok(url) => r == Ok::<String, Error>(url),
            Err(_) => r == Err::<String, Error>(Error::MalformedEndpoint),
        },
{
    match outcome {
        Ok(url) => Ok(url),
        Err(_) => Err(Error::MalformedEndpoint),
    }
}

/// Resolves a text on the authority to the endpoint it stands for, in
/// serialized form, or fails with `MalformedEndpoint` where it stands for
/// none.
pub fn parse_endpoint(text: &str) -> (r: Result<String, Error>)
    requires
        opens_with_authority(text@),
    ensures
        match r {
            Ok(url) => endpoint_of(text@) == Some(url@),
            Err(e) => endpoint_of(text@) is None && e == Error::MalformedEndpoint,
        },
{
    if contains_space_or_control(text) {
        return Err(Error::MalformedEndpoint);
    }
    from_outcome(parse_url(text))
}

} // verus!
