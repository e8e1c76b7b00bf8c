use vstd::prelude::*;
use vstd::utf8::{decode_utf8, valid_utf8};

verus! {

/// A lowercase hexadecimal digit.
pub open spec fn is_lower_hex(c: char) -> bool {
    ('0' <= c <= '9') || ('a' <= c <= 'f')
}

/// The text of a random (version 4) UUID in its hyphenated lowercase form,
/// such as `67e55044-10b1-426f-9247-bb680e5fe0c8`.
pub open spec fn is_uuid_v4_text(s: Seq<char>) -> bool {
    &&& s.len() == 36
    &&& forall|i: int|
        0 <= i < 36 ==> if i == 8 || i == 13 || i == 18 || i == 23 {
            #[trigger] s[i] == '-'
        } else {
            is_lower_hex(s[i])
        }
    &&& s[14] == '4'
    &&& (s[19] == '8' || s[19] == '9' || s[19] == 'a' || s[19] == 'b')
}

/// A fresh random identifier.
///
/// Calls `uuid::Uuid::new_v4` and renders it with `Display`. The contract claims
/// only the shape of the text that `Display` writes for a version 4 UUID; the
/// value itself is random, so nothing ties two calls together.
#[verifier::external_body]
pub(crate) fn fresh_uuid() -> (res: String)
    ensures
        is_uuid_v4_text(res@),
{
    uuid::Uuid::new_v4().to_string()
}

/// What `url::Url::parse` reports for `text`: `None` where it accepts the text as a
/// URL, else the text of its error.
pub uninterp spec fn url_parse_failure(text: Seq<char>) -> Option<Seq<char>>;

/// Checks a URL with `url::Url::parse`.
///
/// The contract claims that the result is the text of the parse error (rendered
/// with `Display`) or `None` where the parse succeeds, and that it depends on the
/// input text alone.
#[verifier::external_body]
pub(crate) fn url_error(text: &str) -> (res: Option<String>)
    ensures
        match res {
            None => url_parse_failure(text@) is None,
            Some(m) => url_parse_failure(text@) == Some(m@),
        },
{
    match url::Url::parse(text) {
        Ok(_) => None,
        Err(e) => Some(e.to_string()),
    }
}

/// The text that `String::from_utf8_lossy` makes of `bytes`.
pub uninterp spec fn utf8_lossy(bytes: Seq<u8>) -> Seq<char>;

/// Decodes bytes as UTF-8 with `String::from_utf8_lossy`.
///
/// The contract claims that the result is a function of the bytes alone and, as the
/// documentation of `from_utf8_lossy` states, that valid UTF-8 is decoded as it is;
/// what replaces invalid sequences is left unstated.
#[verifier::external_body]
pub(crate) fn decode_lossy(bytes: &[u8]) -> (res: String)
    ensures
        res@ == utf8_lossy(bytes@),
        valid_utf8(bytes@) ==> res@ == decode_utf8(bytes@),
{
    String::from_utf8_lossy(bytes).into_owned()
}

} // verus!
