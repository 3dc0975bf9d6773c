//! Bytes and text: UTF-8 in both directions, and MessagePack for a pair of texts.

use vstd::prelude::*;
use vstd::utf8::*;

verus! {

/// The text that a lossy UTF-8 reading of `data` gives, as
/// `String::from_utf8_lossy` produces it.
pub uninterp spec fn lossy_text(data: Seq<u8>) -> Seq<char>;

/// The MessagePack bytes of a pair of texts, as `rmp_serde::to_vec` writes a
/// two-element tuple of strings; `None` where it reports an error.
pub uninterp spec fn pair_encoding(first: Seq<char>, second: Seq<char>) -> Option<Seq<u8>>;

/// The pair of texts that MessagePack bytes hold, as `rmp_serde::from_slice`
/// reads a two-element tuple of strings; `None` where it reports an error.
pub uninterp spec fn pair_decoding(data: Seq<u8>) -> Option<(Seq<char>, Seq<char>)>;

/// Calls `String::from_utf8_lossy`. Well-formed UTF-8 is decoded as it stands;
/// what comes back for other bytes is only named.
#[verifier::external_body]
pub(crate) fn utf8_lossy(data: &[u8]) -> (r: String)
    ensures
        r@ == lossy_text(data@),
        valid_utf8(data@) ==> r@ == decode_utf8(data@),
{
    String::from_utf8_lossy(data).into_owned()
}

/// Calls `String::from_utf8` on a copy of `data`: the decoded text for
/// well-formed UTF-8, nothing otherwise.
#[verifier::external_body]
pub(crate) fn utf8_strict(data: &[u8]) -> (r: Option<String>)
    ensures
        match r {
            Some(s) => valid_utf8(data@) && s@ == decode_utf8(data@),
            None => !valid_utf8(data@),
        },
{
    String::from_utf8(data.to_vec()).ok()
}

/// Calls `rmp_serde::to_vec` on the tuple `(first, second)`; the bytes, or the
/// failure, are named by [`pair_encoding`].
#[verifier::external_body]
pub(crate) fn encode_pair(first: &String, second: &String) -> (r: Option<Vec<u8>>)
    ensures
        match r {
            Some(bytes) => pair_encoding(first@, second@) == Some(bytes@),
            None => pair_encoding(first@, second@) is None,
        },
{
    rmp_serde::to_vec(&(first, second)).ok()
}

/// Calls `rmp_serde::from_slice` for a tuple of two strings; the pair, or the
/// failure, is named by [`pair_decoding`].
#[verifier::external_body]
pub(crate) fn decode_pair(data: &[u8]) -> (r: Option<(String, String)>)
    ensures
        match r {
            Some((a, b)) => pair_decoding(data@) == Some((a@, b@)),
            None => pair_decoding(data@) is None,
        },
{
    rmp_serde::from_slice::<(String, String)>(data).ok()
}

/// The words with which `serde_json::from_str` turns a text down; `None` where
/// the text is JSON.
pub uninterp spec fn json_error(text: Seq<char>) -> Option<Seq<char>>;

/// The MessagePack bytes of a JSON text: what `rmp_serde::to_vec` writes for
/// the value that `serde_json::from_str` reads from the text, or the words of
/// the failure.
pub uninterp spec fn json_msgpack(text: Seq<char>) -> Result<Seq<u8>, Seq<char>>;

/// Calls `serde_json::from_str` for a MessagePack value and keeps the words of
/// its failure, which [`json_error`] names; none where the text is JSON.
#[verifier::external_body]
pub(crate) fn json_problem(text: &str) -> (r: Option<String>)
    ensures
        match r {
            Some(e) => json_error(text@) == Some(e@),
            None => json_error(text@) is None,
        },
{
    serde_json::from_str::<rmpv::Value>(text).err().map(|e| e.to_string())
}

/// Calls `rmp_serde::to_vec` on the MessagePack value that
/// `serde_json::from_str` reads from the text. The bytes, or the words of the
/// failure, are named by [`json_msgpack`]; a text that is no JSON fails with
/// the words that [`json_error`] names.
#[verifier::external_body]
pub(crate) fn json_to_msgpack(text: &str) -> (r: Result<Vec<u8>, String>)
    ensures
        match r {
            Ok(bytes) => json_msgpack(text@) == Ok::<Seq<u8>, Seq<char>>(bytes@),
            Err(e) => json_msgpack(text@) == Err::<Seq<u8>, Seq<char>>(e@),
        },
        json_error(text@) is Some ==> r is Err && r->Err_0@ == json_error(text@)->Some_0,
{
    let value = serde_json::from_str::<rmpv::Value>(text).map_err(|e| e.to_string())?;
    rmp_serde::to_vec(&value).map_err(|e| e.to_string())
}

} // verus!
