//! The pluggable content checks that `contentMediaType` and
//! `contentEncoding` look up by name, and the default set of them.
use vstd::prelude::*;

verus! {

/// Why an encoded string could not be converted.
#[derive(Debug)]
pub struct ConversionError {
    pub message: String,
}

/// What converting an encoded string gave, over plain values.
pub open spec fn spec_conversion_view(r: Result<Option<String>, ConversionError>) -> Result<Option<Seq<char>>, Seq<char>> {
    match r {
        Ok(Some(s)) => Ok(Some(s@)),
        Ok(None) => Ok(None),
        Err(e) => Err(e.message@),
    }
}

/// A registry of content functions, looked up by media-type or encoding
/// name. An unknown name resolves to "absent".
pub trait ContentFunctions {
    /// Whether a media-type check is registered under `name`.
    spec fn knows_media_type(&self, name: Seq<char>) -> bool;

    /// Whether the media-type check under `name` accepts `text`.
    spec fn media_type_accepts(&self, name: Seq<char>, text: Seq<char>) -> bool;

    /// Whether an encoding check and converter are registered under `name`.
    spec fn knows_encoding(&self, name: Seq<char>) -> bool;

    /// Whether the encoding check under `name` accepts `text`.
    spec fn encoding_accepts(&self, name: Seq<char>, text: Seq<char>) -> bool;

    /// What the converter under `name` makes of `text`: the decoded text,
    /// `None` where `text` is not validly encoded, or the message of a
    /// conversion error.
    spec fn converted(&self, name: Seq<char>, text: Seq<char>) -> Result<Option<Seq<char>>, Seq<char>>;

    fn has_media_type(&self, name: &str) -> (r: bool)
        ensures
            r == self.knows_media_type(name@),
    ;

    fn check_media_type(&self, name: &str, text: &str) -> (r: bool)
        ensures
            r == self.media_type_accepts(name@, text@),
    ;

    fn has_encoding(&self, name: &str) -> (r: bool)
        ensures
            r == self.knows_encoding(name@),
    ;

    fn check_encoding(&self, name: &str, text: &str) -> (r: bool)
        ensures
            r == self.encoding_accepts(name@, text@),
    ;

    fn convert(&self, name: &str, text: &str) -> (r: Result<Option<String>, ConversionError>)
        ensures
            spec_conversion_view(r) == self.converted(name@, text@),
    ;
}

/// Whether `serde_json` parses `text` as a JSON document.
pub uninterp spec fn json_text_parses(text: Seq<char>) -> bool;

/// The bytes that standard base64 decoding makes of `text`, or `None` where
/// `text` is not valid base64.
pub uninterp spec fn base64_decoded(text: Seq<char>) -> Option<Seq<u8>>;

/// The text that `bytes` hold as UTF-8, or `None` where they are not UTF-8.
pub uninterp spec fn utf8_text(bytes: Seq<u8>) -> Option<Seq<char>>;

/// Relies on serde_json::from_str: whether `text` parses as a JSON value.
#[verifier::external_body]
fn parses_as_json(text: &str) -> (r: bool)
    ensures
        r == json_text_parses(text@),
{
    serde_json::from_str::<serde_json::Value>(text).is_ok()
}

/// Relies on base64::decode: the standard-alphabet decoding of `text`.
#[verifier::external_body]
fn decode_base64(text: &str) -> (r: Option<Vec<u8>>)
    ensures
        match r {
            Some(bytes) => base64_decoded(text@) == Some(bytes@),
            None => base64_decoded(text@) is None,
        },
{
    base64::decode(text).ok()
}

/// Relies on String::from_utf8: the text that `bytes` hold as UTF-8.
#[verifier::external_body]
fn text_from_utf8(bytes: Vec<u8>) -> (r: Option<String>)
    ensures
        match r {
            Some(s) => utf8_text(bytes@) == Some(s@),
            None => utf8_text(bytes@) is None,
        },
{
    String::from_utf8(bytes).ok()
}

/// The default content functions: the media type `application/json` and
/// the encoding `base64`.
#[derive(Clone, Copy, Debug)]
pub struct DefaultContentFunctions;

/// The message of a conversion that decoded to bytes that are not UTF-8.
pub open spec fn spec_not_utf8_message() -> Seq<char> {
    "decoded content is not valid UTF-8"@
}

fn same_text(a: &str, b: &str) -> (r: bool)
    ensures
        r == (a@ == b@),
{
    let x = a.to_owned();
    let y = b.to_owned();
    x == y
}

impl ContentFunctions for DefaultContentFunctions {
    open spec fn knows_media_type(&self, name: Seq<char>) -> bool {
        name == "application/json"@
    }

    open spec fn media_type_accepts(&self, name: Seq<char>, text: Seq<char>) -> bool {
        name == "application/json"@ && json_text_parses(text)
    }

    open spec fn knows_encoding(&self, name: Seq<char>) -> bool {
        name == "base64"@
    }

    open spec fn encoding_accepts(&self, name: Seq<char>, text: Seq<char>) -> bool {
        name == "base64"@ && base64_decoded(text) is Some
    }

    open spec fn converted(&self, name: Seq<char>, text: Seq<char>) -> Result<Option<Seq<char>>, Seq<char>> {
        if name == "base64"@ {
            match base64_decoded(text) {
                None => Ok(None),
                Some(bytes) => match utf8_text(bytes) {
                    Some(s) => Ok(Some(s)),
                    None => Err(spec_not_utf8_message()),
                },
            }
        } else {
            Ok(None)
        }
    }

    fn has_media_type(&self, name: &str) -> (r: bool) {
        same_text(name, "application/json")
    }

    fn check_media_type(&self, name: &str, text: &str) -> (r: bool) {
        same_text(name, "application/json") && parses_as_json(text)
    }

    fn has_encoding(&self, name: &str) -> (r: bool) {
        same_text(name, "base64")
    }

    fn check_encoding(&self, name: &str, text: &str) -> (r: bool) {
        same_text(name, "base64") && decode_base64(text).is_some()
    }

    fn convert(&self, name: &str, text: &str) -> (r: Result<Option<String>, ConversionError>) {
        if !same_text(name, "base64") {
            return Ok(None);
        }
        match decode_base64(text) {
            None => Ok(None),
            Some(bytes) => match text_from_utf8(bytes) {
                Some(s) => Ok(Some(s)),
                None => {
                    proof {
                        reveal_strlit("decoded content is not valid UTF-8");
                    }
                    Err(ConversionError { message: "decoded content is not valid UTF-8".to_owned() })
                },
            },
        }
    }
}

} // verus!
