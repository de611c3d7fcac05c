//! The outside functions the stages compute with, each behind one trusted wrapper.
//!
//! Where what a call returns takes more than a few lines to state, the result has a name (a spec
//! function without a body) and the wrapper says that its result is that name of its arguments.

use vstd::prelude::*;

use vstd::utf8::{decode_utf8, encode_utf8, valid_utf8};
use base64::Engine;
use rand::RngCore;
use sha2::Digest;

use crate::json::{Doc, Json, is_plain};
use crate::text::{dec, starts};

verus! {

// ── serde_json ──────────────────────────────────────────────────────────────

/// What `serde_json::from_str::<serde_json::Value>` reads a text as; nothing where it refuses it.
pub uninterp spec fn json_of(text: Seq<char>) -> Option<Doc>;

/// What `serde_json::Value`'s `to_string` writes a document as.
pub uninterp spec fn json_text(doc: Doc) -> Seq<char>;

/// `serde_json::Value`, which [`parse`] and [`render`] pass through.
#[verifier::external_type_specification]
#[verifier::external_body]
pub struct ExValue(serde_json::Value);

/// A `serde_json::Value` as a [`Json`], variant for variant. Nothing is claimed of it on its own:
/// it is what [`parse`] hands its value through.
#[verifier::external_body]
fn from_value(v: serde_json::Value) -> Json {
    match v {
        serde_json::Value::Null => Json::Null,
        serde_json::Value::Bool(b) => Json::Bool(b),
        serde_json::Value::Number(n) => match n.as_i128() {
            Some(i) => Json::Int(i),
            None => Json::Other(n.to_string()),
        },
        serde_json::Value::String(s) => Json::Str(s),
        serde_json::Value::Array(a) => Json::Arr(a.into_iter().map(from_value).collect()),
        serde_json::Value::Object(o) => Json::Obj(o.into_iter().map(|(k, v)| (k, from_value(v))).collect()),
    }
}

/// A [`Json`] as a `serde_json::Value`, variant for variant. Nothing is claimed of it on its own:
/// it is what [`render`] hands its document through. An integer out of serde_json's range becomes a
/// null.
#[verifier::external_body]
fn to_value(j: &Json) -> serde_json::Value {
    match j {
        Json::Null => serde_json::Value::Null,
        Json::Bool(b) => serde_json::Value::Bool(*b),
        Json::Int(i) => serde_json::Number::from_i128(*i).map_or(serde_json::Value::Null, serde_json::Value::Number),
        Json::Other(t) => serde_json::from_str(t).unwrap_or(serde_json::Value::Null),
        Json::Str(s) => serde_json::Value::String(s.clone()),
        Json::Arr(a) => serde_json::Value::Array(a.iter().map(to_value).collect()),
        Json::Obj(o) => serde_json::Value::Object(o.iter().map(|(k, v)| (k.clone(), to_value(v))).collect()),
    }
}

/// `serde_json::from_str`, into a JSON value: what it reads depends on the text alone.
#[verifier::external_body]
pub(crate) fn parse(text: &str) -> (r: Option<Json>)
    ensures
        (match r { Some(j) => Some(j@), None => None }) == json_of(text@),
{
    serde_json::from_str::<serde_json::Value>(text).ok().map(from_value)
}

/// `serde_json::Value::to_string`, the compact text of a document: it depends on the document
/// alone, and a document that serde_json holds as it is (see [`is_plain`]) is read back from it by
/// `from_str`.
#[verifier::external_body]
pub(crate) fn render(j: &Json) -> (r: String)
    ensures
        r@ == json_text(j@),
        is_plain(j@, 64) ==> json_of(r@) == Some(j@),
{
    to_value(j).to_string()
}

/// Why `serde_json::from_str::<serde_json::Value>` refuses a text; nothing where it reads it.
pub uninterp spec fn json_error(text: Seq<char>) -> Option<Seq<char>>;

/// The error of `serde_json::from_str`, into a JSON value: it depends on the text alone, and there is
/// one exactly where the text is not read.
#[verifier::external_body]
pub(crate) fn parse_error(text: &str) -> (r: Option<String>)
    ensures
        (match r { Some(t) => Some(t@), None => None }) == json_error(text@),
        r is Some <==> json_of(text@) is None,
{
    serde_json::from_str::<serde_json::Value>(text).err().map(|e| e.to_string())
}

// ── http ────────────────────────────────────────────────────────────────────

/// How `reqwest::StatusCode` writes itself: the number and its canonical reason. A number that is
/// no status is written as it is.
pub uninterp spec fn status_line(code: u16) -> Seq<char>;

/// `reqwest::StatusCode::from_u16` and its `to_string`: they depend on the number alone, and the text
/// begins with the number in decimal.
#[verifier::external_body]
pub(crate) fn status_text(code: u16) -> (r: String)
    ensures
        r@ == status_line(code),
        starts(r@, dec(code as nat)),
{
    match reqwest::StatusCode::from_u16(code) {
        Ok(status) => status.to_string(),
        Err(_) => code.to_string(),
    }
}

// ── base64 ──────────────────────────────────────────────────────────────────

/// What base64's `STANDARD` engine writes the UTF-8 bytes of a text as.
pub uninterp spec fn base64_text(text: Seq<char>) -> Seq<char>;

/// What base64's `STANDARD` engine reads a text as; nothing where it refuses it.
pub uninterp spec fn base64_bytes(text: Seq<char>) -> Option<Seq<u8>>;

/// `Engine::encode` of base64's `STANDARD`: what it writes depends on the text alone, and the same
/// engine reads it back as the text's bytes.
#[verifier::external_body]
pub(crate) fn encode64(text: &str) -> (r: String)
    ensures
        r@ == base64_text(text@),
        base64_bytes(r@) == Some(encode_utf8(text@)),
{
    base64::engine::general_purpose::STANDARD.encode(text)
}

/// `Engine::decode` of base64's `STANDARD`: what it reads depends on the text alone.
#[verifier::external_body]
pub(crate) fn decode64(text: &str) -> (r: Option<Vec<u8>>)
    ensures
        (match r { Some(b) => Some(b@), None => None }) == base64_bytes(text@),
{
    base64::engine::general_purpose::STANDARD.decode(text).ok()
}

/// Why base64's `STANDARD` engine refuses a text, as its error is shown; nothing where it does not.
pub uninterp spec fn base64_error(text: Seq<char>) -> Option<Seq<char>>;

/// The error of `Engine::decode` of base64's `STANDARD`, shown: there is one exactly where the text is
/// refused.
#[verifier::external_body]
pub(crate) fn why_no_base64(text: &str) -> (r: Option<String>)
    ensures
        crate::wire::opt(r) == base64_error(text@),
        r is Some <==> base64_bytes(text@) is None,
{
    base64::engine::general_purpose::STANDARD.decode(text).err().map(|e| e.to_string())
}

// ── std ─────────────────────────────────────────────────────────────────────

/// What `String::from_utf8_lossy` reads bytes as.
pub uninterp spec fn lossy_text(bytes: Seq<u8>) -> Seq<char>;

/// `String::from_utf8_lossy`: bytes that are UTF-8 are read as the text they encode; what stands
/// in the place of the others is left to std.
#[verifier::external_body]
pub(crate) fn lossy(bytes: &Vec<u8>) -> (r: String)
    ensures
        r@ == lossy_text(bytes@),
        valid_utf8(bytes@) ==> r@ == decode_utf8(bytes@),
{
    String::from_utf8_lossy(bytes).into_owned()
}

/// How `{:?}` writes a text: in quotes, with std's escapes.
pub uninterp spec fn debug_text(text: Seq<char>) -> Seq<char>;

/// `str`'s `Debug`: it depends on the text alone.
#[verifier::external_body]
pub(crate) fn debug(text: &str) -> (r: String)
    ensures
        r@ == debug_text(text@),
{
    format!("{text:?}")
}

// ── sha2 ────────────────────────────────────────────────────────────────────

/// The SHA-256 digest of some bytes, in lower-case hex.
pub uninterp spec fn sha256_hex(bytes: Seq<u8>) -> Seq<char>;

/// `sha2::Sha256::digest`, written in hex: it depends on the bytes alone, and is as long as two
/// characters for each of the digest's thirty-two bytes.
#[verifier::external_body]
pub(crate) fn digest(bytes: &Vec<u8>) -> (r: String)
    ensures
        r@ == sha256_hex(bytes@),
        r@.len() == 64,
{
    format!("{:x}", sha2::Sha256::digest(bytes))
}

// ── rand ────────────────────────────────────────────────────────────────────

/// `rand::RngCore::fill_bytes` of the thread's generator: as many bytes as were asked for, and
/// nothing else is known of them.
#[verifier::external_body]
pub(crate) fn random_bytes(n: usize) -> (r: Vec<u8>)
    ensures
        r@.len() == n,
{
    let mut bytes = vec![0u8; n];
    rand::thread_rng().fill_bytes(&mut bytes);
    bytes
}

// ── chrono ──────────────────────────────────────────────────────────────────

/// The instant `chrono::DateTime::parse_from_rfc3339` reads a text as, in seconds of Unix time and
/// the nanoseconds after them; nothing where it refuses the text.
pub uninterp spec fn instant_of(text: Seq<char>) -> Option<(i64, u32)>;

/// `chrono::DateTime::parse_from_rfc3339`: what it reads depends on the text alone.
#[verifier::external_body]
pub(crate) fn parse_instant(text: &str) -> (r: Option<(i64, u32)>)
    ensures
        r == instant_of(text@),
{
    chrono::DateTime::parse_from_rfc3339(text).ok().map(|t| (t.timestamp(), t.timestamp_subsec_nanos()))
}

/// Why `chrono::DateTime::parse_from_rfc3339` refuses a text, as its error is shown; nothing where it
/// does not.
pub uninterp spec fn instant_error(text: Seq<char>) -> Option<Seq<char>>;

/// The error of `chrono::DateTime::parse_from_rfc3339`, shown: there is one exactly where the text is
/// refused.
#[verifier::external_body]
pub(crate) fn why_no_instant(text: &str) -> (r: Option<String>)
    ensures
        crate::wire::opt(r) == instant_error(text@),
        r is Some <==> instant_of(text@) is None,
{
    chrono::DateTime::parse_from_rfc3339(text).err().map(|e| e.to_string())
}

/// How an instant is shown once `chrono::DateTime::parse_from_rfc3339` has read it; nothing where it
/// refuses the text.
pub uninterp spec fn instant_shown(text: Seq<char>) -> Option<Seq<char>>;

/// The `Display` of a `chrono::DateTime` read by `parse_from_rfc3339`.
#[verifier::external_body]
pub(crate) fn show_instant(text: &str) -> (r: Option<String>)
    ensures
        crate::wire::opt(r) == instant_shown(text@),
        r is Some <==> instant_of(text@) is Some,
{
    chrono::DateTime::parse_from_rfc3339(text).ok().map(|t| t.to_string())
}

} // verus!
