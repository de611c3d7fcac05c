//! Stage 4 · Registry: an OCI round trip through the same front door `docker push` uses.
//!
//! The two images are built here, as OCI layout directories, from one layer: so that the check of
//! the shared layer is "image A still pulls that blob after image B was deleted".

use vstd::prelude::*;

use vstd::utf8::{encode_utf8, encode_utf8_decode_utf8};

use crate::json::{
    Doc, Json, any_text, arr1, array_of, doc_str, field_named, int_doc, is_plain, member, member2, obj1, obj2, obj3, obj4,
    rows_of, some_text, text_of, txt,
};
use crate::outside::{base64_text, digest, encode64, json_of, json_text, parse, random_bytes, render, sha256_hex};
use crate::reply::{
    ODD, call_failed, doc, doc_of, failed, in_turn, is_success, lost_in, lost_within, raw, raw_of, said, said_of, success,
    take_turns, tell, told, tool_error, tool_error_in, tool_failed, tool_failed_in, turns_view, undo_failed,
};
use crate::run::{Run, RunV, State, StateV, api, api_at, below, joined_path, name, named, tmp, tmp_at};
use crate::stages::identity::{minted_id, token_id_of};
use crate::text::{cat2, cat3, cat4, cat5, cat6, chars_of, no_slash, not_after, same, starts, starts_with, strip_prefix, trim_slash};
use crate::turn::{
    Move, MoveV, Outcome, OutcomeV, failure_or_empty, look, one, one_move, outcomes, passed, passed_with, reports,
    reports_exactly, skip, step,
};
use crate::wait::{Wait, WaitV, less};
use crate::want::{Want, WantV};
use crate::wire::{
    Ask, AskV, CraneOp, CraneOpV, Log, LogV, Next, NextV, Payload, PayloadV, Reply, ReplyV, Verb, afterwards, also, bearer,
    bearer_header, came_at, close_after, closing, deleting, end, erase, err_of, finally, inside, link, opt, post, posting, seen,
    within,
};

verus! {

/// The bound on a tag's appearance is the wait: a tag that took longer has failed whether the
/// probe keeps looking or not.
pub const TAGS_CAP_MS: u64 = 5_000;

/// Big enough that a push is a real transfer, small enough for the fast suite's deadline.
pub const LAYER_BYTES: usize = 1_048_576;

/// Every id behind the push. A precondition that fails skips the tail of this list.
pub const AFTER_PUSH: [&'static str; 4] = ["reg.manifest.p95", "reg.tags.visible", "reg.shared.layer", "reg.visibility"];

pub const MANIFEST_ACCEPT: &'static str = "application/vnd.oci.image.manifest.v1+json,application/vnd.oci.image.index.v1+json,application/vnd.docker.distribution.manifest.v2+json,application/vnd.docker.distribution.manifest.list.v2+json";

// ── addresses ───────────────────────────────────────────────────────────────

/// The registry as an HTTP base: a bare host is given a scheme, one that has a scheme keeps it.
pub open spec fn base_of(c: RunV) -> Seq<char> {
    let r = no_slash(c.registry);
    if starts(r, "http://"@) || starts(r, "https://"@) { r } else { "https://"@ + r }
}

pub fn base(c: &Run) -> (r: String)
    ensures
        r@ == base_of(c@),
{
    let t = trim_slash(c.registry.as_str());
    if starts_with(t.as_str(), "http://") || starts_with(t.as_str(), "https://") {
        t
    } else {
        cat2("https://", t.as_str())
    }
}

/// `s` without the prefix `p`, as often as it stands there.
pub open spec fn without_all(s: Seq<char>, p: Seq<char>) -> Seq<char>
    decreases s.len(),
{
    if p.len() > 0 && starts(s, p) { without_all(s.skip(p.len() as int), p) } else { s }
}

pub fn trim_start_matches(s: &str, p: &str) -> (r: String)
    ensures
        r@ == without_all(s@, p@),
    decreases s@.len(),
{
    if p.is_empty() {
        return s.to_owned();
    }
    match strip_prefix(s, p) {
        Some(rest) => trim_start_matches(rest.as_str(), p),
        None => s.to_owned(),
    }
}

/// The registry as an image-reference prefix: a host, never a url.
pub open spec fn host_of(c: RunV) -> Seq<char> {
    without_all(without_all(base_of(c), "https://"@), "http://"@)
}

pub fn host(c: &Run) -> (r: String)
    ensures
        r@ == host_of(c@),
{
    trim_start_matches(trim_start_matches(base(c).as_str(), "https://").as_str(), "http://")
}

pub open spec fn pull_scope_of(c: RunV, image: Seq<char>) -> Seq<char> {
    "repository:"@ + c.tenant + "/"@ + image + ":pull,push"@
}

pub fn pull_scope(c: &Run, image: &str) -> (r: String)
    ensures
        r@ == pull_scope_of(c@, image@),
{
    cat5("repository:", c.tenant.as_str(), "/", image, ":pull,push")
}

/// How one character of a scope stands in a query string.
pub open spec fn escaped(ch: char) -> Seq<char> {
    if ch == ':' {
        "%3A"@
    } else if ch == ',' {
        "%2C"@
    } else if ch == '*' {
        "%2A"@
    } else if ch == ' ' {
        "+"@
    } else {
        seq![ch]
    }
}

/// A scope in a query string, character by character.
pub open spec fn urlencoded(s: Seq<char>) -> Seq<char>
    decreases s.len(),
{
    if s.len() == 0 { seq![] } else { urlencoded(s.drop_last()) + escaped(s.last()) }
}

/// Enough encoding for a scope: only these characters in one have to be escaped.
pub fn urlencoding(s: &str) -> (r: String)
    ensures
        r@ == urlencoded(s@),
{
    let v = chars_of(s);
    let mut r = String::new();
    let mut i: usize = 0;
    proof {
        assert(s@.take(0) =~= Seq::<char>::empty());
    }
    while i < v.len()
        invariant
            v@ == s@,
            i <= v@.len(),
            r@ == urlencoded(s@.take(i as int)),
        decreases v.len() - i,
    {
        proof {
            assert(s@.take(i + 1).drop_last() =~= s@.take(i as int));
            assert(s@.take(i + 1).last() == v@[i as int]);
        }
        let ch = v[i];
        if ch == ':' {
            r = r.concat("%3A");
        } else if ch == ',' {
            r = r.concat("%2C");
        } else if ch == '*' {
            r = r.concat("%2A");
        } else if ch == ' ' {
            r = r.concat("+");
        } else {
            let ghost before = r@;
            r.push(ch);
            proof {
                assert(r@ =~= before + seq![ch]);
            }
        }
        i = i + 1;
    }
    proof {
        assert(s@.take(s@.len() as int) =~= s@);
    }
    r
}

/// No character that would end or split a query value is left in an encoded scope.
pub proof fn law_a_scope_survives_the_query(s: Seq<char>)
    ensures
        forall|i: int| 0 <= i < urlencoded(s).len() ==> !(#[trigger] urlencoded(s)[i] == ':' || urlencoded(s)[i] == ',' || urlencoded(s)[i] == '*'
            || urlencoded(s)[i] == ' '),
    decreases s.len(),
{
    if s.len() > 0 {
        law_a_scope_survives_the_query(s.drop_last());
        reveal_strlit("%3A");
        reveal_strlit("%2C");
        reveal_strlit("%2A");
        reveal_strlit("+");
        let head = urlencoded(s.drop_last());
        let tail = escaped(s.last());
        assert forall|i: int| 0 <= i < urlencoded(s).len() implies !(#[trigger] urlencoded(s)[i] == ':' || urlencoded(s)[i] == ','
            || urlencoded(s)[i] == '*' || urlencoded(s)[i] == ' ') by {
            if i < head.len() {
                assert(urlencoded(s)[i] == head[i]);
            } else {
                assert(urlencoded(s)[i] == tail[i - head.len()]);
            }
        }
    }
}

/// A registry client: the directory its credentials are in.
pub struct Crane {
    pub config: String,
}

pub fn authed(c: &Run) -> (r: Crane)
    ensures
        r.config@ == tmp_at(c@, "docker"@),
{
    Crane { config: tmp(c, "docker") }
}

/// A client with a directory of its own that holds no credential: an anonymous one.
pub fn anonymous(c: &Run) -> (r: Crane)
    ensures
        r.config@ == tmp_at(c@, "docker-anon"@),
{
    Crane { config: tmp(c, "docker-anon") }
}

pub open spec fn crane_login(c: RunV, secret: Seq<char>) -> AskV {
    AskV::Crane { config: tmp_at(c, "docker"@), op: CraneOpV::Login { host: host_of(c), user: c.tenant, secret } }
}

pub fn login(c: &Run, secret: &str) -> (r: Ask)
    ensures
        r@ == crane_login(c@, secret@),
{
    Ask::Crane { config: authed(c).config, op: CraneOp::Login { host: host(c), user: c.tenant.clone(), secret: secret.to_owned() } }
}

/// An image's reference.
pub open spec fn reference_of(c: RunV, image: Seq<char>) -> Seq<char> {
    host_of(c) + "/"@ + c.tenant + "/"@ + image + ":latest"@
}

pub fn reference(c: &Run, image: &str) -> (r: String)
    ensures
        r@ == reference_of(c@, image@),
{
    cat6(host(c).as_str(), "/", c.tenant.as_str(), "/", image, ":latest")
}

pub open spec fn crane_push(c: RunV, dir: Seq<char>, image: Seq<char>) -> AskV {
    AskV::Crane { config: tmp_at(c, "docker"@), op: CraneOpV::Push { dir, reference: reference_of(c, image) } }
}

pub fn push_image(c: &Run, dir: String, image: &str) -> (r: Ask)
    ensures
        r@ == crane_push(c@, dir@, image@),
{
    Ask::Crane { config: authed(c).config, op: CraneOp::Push { dir, reference: reference(c, image) } }
}

pub open spec fn crane_pull(c: RunV, config: Seq<char>, image: Seq<char>, dest: Seq<char>) -> AskV {
    AskV::Crane { config: tmp_at(c, config), op: CraneOpV::Pull { reference: reference_of(c, image), dest } }
}

pub open spec fn crane_digest(c: RunV, image: Seq<char>) -> AskV {
    AskV::Crane { config: tmp_at(c, "docker"@), op: CraneOpV::Digest { reference: reference_of(c, image) } }
}

pub fn digest_of_image(c: &Run, image: &str) -> (r: Ask)
    ensures
        r@ == crane_digest(c@, image@),
{
    Ask::Crane { config: authed(c).config, op: CraneOp::Digest { reference: reference(c, image) } }
}

// ── the registry's own token ────────────────────────────────────────────────

/// The question for a bearer of `scope`.
pub open spec fn bearer_asks(c: RunV, secret: Seq<char>, scope: Seq<char>) -> AskV {
    AskV::Call {
        verb: Verb::Get,
        url: base_of(c) + "/v2/token?service="@ + host_of(c) + "&scope="@ + urlencoded(scope),
        auth: "Basic "@ + base64_text(c.tenant + ":"@ + secret),
        accept: seq![],
        load: PayloadV::Empty,
        bound_ms: 0,
    }
}

pub fn ask_bearer(c: &Run, secret: &str, scope: &str) -> (r: Ask)
    ensures
        r@ == bearer_asks(c@, secret@, scope@),
{
    Ask::Call {
        verb: Verb::Get,
        url: cat5(base(c).as_str(), "/v2/token?service=", host(c).as_str(), "&scope=", urlencoding(scope).as_str()),
        auth: cat2("Basic ", encode64(cat3(c.tenant.as_str(), ":", secret).as_str()).as_str()),
        accept: String::new(),
        load: Payload::Empty,
        bound_ms: 0,
    }
}

/// The bearer in an answer of the token endpoint.
pub open spec fn bearer_in(r: ReplyV) -> Result<Seq<char>, Seq<char>> {
    match raw_of(r) {
        Err(why) => Err(why),
        Ok((status, body)) => if !is_success(status) {
            Err(told(status, body, 200))
        } else {
            match json_of(body) {
                None => Err("the token endpoint answered no token"@),
                Some(d) => match text_of(d, "token"@) {
                    Some(t) => if t.len() == 0 { Err("the token endpoint answered no token"@) } else { Ok(t) },
                    None => Err("the token endpoint answered no token"@),
                },
            }
        },
    }
}

pub fn bearer_of(r: &Reply) -> (o: Result<String, String>)
    ensures
        (match o { Ok(t) => Ok(t@), Err(e) => Err(e@) }) == bearer_in(r@),
{
    match raw(r) {
        Err(why) => Err(why),
        Ok((status, body)) => {
            if !success(status) {
                return Err(tell(status, body.as_str(), 200));
            }
            match parse(body.as_str()) {
                None => Err("the token endpoint answered no token".to_owned()),
                Some(d) => match d.text_at("token") {
                    Some(t) => {
                        if t.as_str().is_empty() { Err("the token endpoint answered no token".to_owned()) } else { Ok(t) }
                    },
                    None => Err("the token endpoint answered no token".to_owned()),
                },
            }
        },
    }
}

/// Whether the list in the field `field` holds the text `want`.
pub open spec fn held(v: Doc, field: Seq<char>, want: Seq<char>) -> bool {
    some_text(rows_of(member(v, field)), want)
}

pub fn has(v: &Json, field: &str, want: &str) -> (r: bool)
    ensures
        r == held(v@, field@, want@),
{
    match array_of(v.get(field)) {
        Some(rows) => any_text(rows, want),
        None => false,
    }
}

// ── an image on disk ────────────────────────────────────────────────────────

/// The digest of a blob, as a reference writes it.
pub open spec fn sha256_of(bytes: Seq<u8>) -> Seq<char> {
    "sha256:"@ + sha256_hex(bytes)
}

pub fn sha256(bytes: &Vec<u8>) -> (r: String)
    ensures
        r@ == sha256_of(bytes@),
{
    cat2("sha256:", digest(bytes).as_str())
}

/// One layer's worth of bytes nothing else has.
pub fn random_layer() -> (r: Vec<u8>)
    ensures
        r@.len() == LAYER_BYTES,
{
    random_bytes(LAYER_BYTES)
}

/// A file of a layout.
pub struct File {
    pub path: String,
    pub bytes: Vec<u8>,
}

pub struct FileV {
    pub path: Seq<char>,
    pub bytes: Seq<u8>,
}

impl View for File {
    type V = FileV;

    open spec fn view(&self) -> FileV {
        FileV { path: self.path@, bytes: self.bytes@ }
    }
}

pub open spec fn files_view(v: Seq<File>) -> Seq<FileV> {
    Seq::new(v.len(), |i: int| v[i]@)
}

/// Where a layout keeps its blobs.
pub open spec fn blobs_dir(dir: Seq<char>) -> Seq<char> {
    joined_path(dir, "blobs/sha256"@)
}

/// A blob, under its own digest.
pub open spec fn blob_file(dir: Seq<char>, bytes: Seq<u8>) -> FileV {
    FileV { path: joined_path(blobs_dir(dir), sha256_hex(bytes)), bytes }
}

pub fn blob(dir: &str, bytes: Vec<u8>) -> (r: (File, String))
    ensures
        r.0@ == blob_file(dir@, bytes@),
        r.1@ == sha256_of(bytes@),
{
    let hex = digest(&bytes);
    let path = below(below(dir, "blobs/sha256").as_str(), hex.as_str());
    (File { path, bytes }, cat2("sha256:", hex.as_str()))
}

/// The config: it names the image, so two images differ in every blob but the layer.
pub open spec fn config_doc(layer: Seq<u8>, image: Seq<char>) -> Doc {
    Doc::Obj(seq![
        ("architecture"@, Doc::Str("amd64"@)),
        ("config"@, Doc::Obj(seq![("Labels"@, Doc::Obj(seq![("io.kloudlite.slo"@, Doc::Str(image))]))])),
        ("os"@, Doc::Str("linux"@)),
        ("rootfs"@, Doc::Obj(seq![("diff_ids"@, Doc::Arr(seq![Doc::Str(sha256_of(layer))])), ("type"@, Doc::Str("layers"@))])),
    ])
}

proof fn lemma_config_is_plain(layer: Seq<u8>, image: Seq<char>)
    ensures
        is_plain(config_doc(layer, image), 64),
{
    reveal_with_fuel(is_plain, 5);
    reveal_strlit("architecture");
    reveal_strlit("config");
    reveal_strlit("os");
    reveal_strlit("rootfs");
    reveal_strlit("diff_ids");
    reveal_strlit("type");
    assert(not_after("architecture"@, "config"@) && "architecture"@[0] != "config"@[0]);
    assert(not_after("config"@, "os"@) && "config"@[0] != "os"@[0]);
    assert(not_after("os"@, "rootfs"@) && "os"@[0] != "rootfs"@[0]);
    assert(not_after("diff_ids"@, "type"@) && "diff_ids"@[0] != "type"@[0]);
    let labels = Doc::Obj(seq![("io.kloudlite.slo"@, Doc::Str(image))]);
    assert(is_plain(labels, 62));
    assert(is_plain(Doc::Obj(seq![("Labels"@, labels)]), 63));
    let ids = Doc::Arr(seq![Doc::Str(sha256_of(layer))]);
    assert(is_plain(ids, 62));
    assert(is_plain(Doc::Obj(seq![("diff_ids"@, ids), ("type"@, Doc::Str("layers"@))]), 63));
}

pub open spec fn config_bytes(layer: Seq<u8>, image: Seq<char>) -> Seq<u8> {
    encode_utf8(json_text(config_doc(layer, image)))
}

/// One blob as a manifest names it.
pub open spec fn descriptor(media: Seq<char>, bytes: Seq<u8>) -> Doc {
    Doc::Obj(seq![
        ("mediaType"@, Doc::Str(media)),
        ("digest"@, Doc::Str(sha256_of(bytes))),
        ("size"@, Doc::Int(bytes.len() as int)),
    ])
}

pub open spec fn manifest_doc(layer: Seq<u8>, image: Seq<char>) -> Doc {
    Doc::Obj(seq![
        ("schemaVersion"@, Doc::Int(2)),
        ("mediaType"@, Doc::Str("application/vnd.oci.image.manifest.v1+json"@)),
        ("config"@, descriptor("application/vnd.oci.image.config.v1+json"@, config_bytes(layer, image))),
        ("layers"@, Doc::Arr(seq![descriptor("application/vnd.oci.image.layer.v1.tar"@, layer)])),
    ])
}

pub open spec fn manifest_bytes(layer: Seq<u8>, image: Seq<char>) -> Seq<u8> {
    encode_utf8(json_text(manifest_doc(layer, image)))
}

pub open spec fn index_doc(layer: Seq<u8>, image: Seq<char>) -> Doc {
    Doc::Obj(seq![
        ("schemaVersion"@, Doc::Int(2)),
        ("mediaType"@, Doc::Str("application/vnd.oci.image.index.v1+json"@)),
        ("manifests"@, Doc::Arr(seq![Doc::Obj(seq![
            ("mediaType"@, Doc::Str("application/vnd.oci.image.manifest.v1+json"@)),
            ("digest"@, Doc::Str(sha256_of(manifest_bytes(layer, image)))),
            ("size"@, Doc::Int(manifest_bytes(layer, image).len() as int)),
            ("annotations"@, Doc::Obj(seq![("org.opencontainers.image.ref.name"@, Doc::Str("latest"@))])),
        ])])),
    ])
}

/// A minimal OCI layout: the shared layer, a config that names the image, a manifest, and an index
/// tagged `latest`.
pub open spec fn layout(dir: Seq<char>, layer: Seq<u8>, image: Seq<char>) -> Seq<FileV> {
    seq![
        blob_file(dir, layer),
        blob_file(dir, config_bytes(layer, image)),
        blob_file(dir, manifest_bytes(layer, image)),
        FileV { path: joined_path(dir, "oci-layout"@), bytes: encode_utf8("{\"imageLayoutVersion\":\"1.0.0\"}"@) },
        FileV { path: joined_path(dir, "index.json"@), bytes: encode_utf8(json_text(index_doc(layer, image))) },
    ]
}

fn size_doc(n: usize) -> (r: Json)
    ensures
        r@ == Doc::Int(n as int),
{
    Json::Int(n as i128)
}

/// Whether the text of an image's config reads back as the config.
pub open spec fn config_reads_back(layer: Seq<u8>, image: Seq<char>) -> bool {
    json_of(json_text(config_doc(layer, image))) == Some(config_doc(layer, image))
}

pub fn write_layout(dir: &str, layer: &Vec<u8>, image: &str) -> (r: (Vec<File>, String))
    ensures
        config_reads_back(layer@, image@),
        files_view(r.0@) == layout(dir@, layer@, image@),
        r.1@ == sha256_of(manifest_bytes(layer@, image@)),
{
    let (layer_file, layer_digest) = blob(dir, layer.clone());
    proof {
        assert(layer_file@.bytes =~= layer@);
    }
    let config = render(&obj4(
        "architecture", txt("amd64"),
        "config", obj1("Labels", obj1("io.kloudlite.slo", txt(image))),
        "os", txt("linux"),
        "rootfs", obj2("diff_ids", arr1(txt(layer_digest.as_str())), "type", txt("layers")),
    )).as_str().as_bytes_vec();
    proof {
        lemma_config_is_plain(layer@, image@);
    }
    let config_size: usize = config.len();
    let (config_file, config_digest) = blob(dir, config);
    let manifest = render(&obj4(
        "schemaVersion", int_doc(2),
        "mediaType", txt("application/vnd.oci.image.manifest.v1+json"),
        "config", obj3(
            "mediaType", txt("application/vnd.oci.image.config.v1+json"),
            "digest", txt(config_digest.as_str()),
            "size", size_doc(config_size),
        ),
        "layers", arr1(obj3(
            "mediaType", txt("application/vnd.oci.image.layer.v1.tar"),
            "digest", txt(layer_digest.as_str()),
            "size", size_doc(layer.len()),
        )),
    )).as_str().as_bytes_vec();
    let manifest_size: usize = manifest.len();
    let (manifest_file, manifest_digest) = blob(dir, manifest);
    let index = render(&obj3(
        "schemaVersion", int_doc(2),
        "mediaType", txt("application/vnd.oci.image.index.v1+json"),
        "manifests", arr1(obj4(
            "mediaType", txt("application/vnd.oci.image.manifest.v1+json"),
            "digest", txt(manifest_digest.as_str()),
            "size", size_doc(manifest_size),
            "annotations", obj1("org.opencontainers.image.ref.name", txt("latest")),
        )),
    )).as_str().as_bytes_vec();
    let mut files: Vec<File> = Vec::new();
    files.push(layer_file);
    files.push(config_file);
    files.push(manifest_file);
    files.push(File { path: below(dir, "oci-layout"), bytes: "{\"imageLayoutVersion\":\"1.0.0\"}".as_bytes_vec() });
    files.push(File { path: below(dir, "index.json"), bytes: index });
    proof {
        assert(files_view(files@) =~= layout(dir@, layer@, image@));
    }
    (files, manifest_digest)
}

/// The digest a manifest names its first layer by.
pub open spec fn first_layer(manifest: Doc) -> Option<Seq<char>> {
    match member(manifest, "layers"@) {
        Some(Doc::Arr(v)) => if v.len() > 0 { text_of(v[0], "digest"@) } else { None },
        _ => None,
    }
}

/// The digest a manifest names its config by.
pub open spec fn config_named(manifest: Doc) -> Option<Seq<char>> {
    doc_str(member2(manifest, "config"@, "digest"@))
}

proof fn lemma_named(layer: Seq<u8>, image: Seq<char>)
    ensures
        first_layer(manifest_doc(layer, image)) == Some(sha256_of(layer)),
        config_named(manifest_doc(layer, image)) == Some(sha256_of(config_bytes(layer, image))),
{
    reveal_strlit("schemaVersion");
    reveal_strlit("mediaType");
    reveal_strlit("config");
    reveal_strlit("layers");
    reveal_strlit("digest");
    assert("schemaVersion"@.len() != "layers"@.len() && "schemaVersion"@.len() != "config"@.len());
    assert("mediaType"@.len() != "layers"@.len() && "mediaType"@.len() != "config"@.len() && "mediaType"@.len() != "digest"@.len());
    assert("config"@[0] != "layers"@[0]);
    reveal_with_fuel(field_named, 5);
    let fields = manifest_doc(layer, image)->Obj_0;
    assert(fields.drop_first()[0] == fields[1]);
    assert(fields.drop_first().drop_first()[0] == fields[2]);
    assert(fields.drop_first().drop_first().drop_first()[0] == fields[3]);
    let c = fields[2].1->Obj_0;
    assert(c.drop_first()[0] == c[1]);
    let l = fields[3].1->Arr_0[0]->Obj_0;
    assert(l.drop_first()[0] == l[1]);
}

/// Two images that were built of one layer share it: both manifests name it by its digest, and under
/// that each layout holds exactly its bytes. They share nothing else: their configs are two texts, each
/// named by its own digest, and where those were one, one digest would be two texts'.
pub proof fn law_two_images_share_one_layer(dir_a: Seq<char>, dir_b: Seq<char>, layer: Seq<u8>, a: Seq<char>, b: Seq<char>)
    requires
        config_reads_back(layer, a),
        config_reads_back(layer, b),
    ensures
        first_layer(manifest_doc(layer, a)) == Some(sha256_of(layer)),
        first_layer(manifest_doc(layer, b)) == Some(sha256_of(layer)),
        layout(dir_a, layer, a)[0] == (FileV { path: joined_path(blobs_dir(dir_a), sha256_hex(layer)), bytes: layer }),
        layout(dir_b, layer, b)[0] == (FileV { path: joined_path(blobs_dir(dir_b), sha256_hex(layer)), bytes: layer }),
        config_named(manifest_doc(layer, a)) == Some(sha256_of(config_bytes(layer, a))),
        config_named(manifest_doc(layer, b)) == Some(sha256_of(config_bytes(layer, b))),
        a != b ==> config_bytes(layer, a) != config_bytes(layer, b),
        a != b && config_named(manifest_doc(layer, a)) == config_named(manifest_doc(layer, b)) ==> sha256_hex(config_bytes(layer, a))
            == sha256_hex(config_bytes(layer, b)),
{
    lemma_named(layer, a);
    lemma_named(layer, b);
    if a != b {
        let ca = config_doc(layer, a)->Obj_0;
        let cb = config_doc(layer, b)->Obj_0;
        assert(ca[1].1->Obj_0[0].1->Obj_0[0].1 == Doc::Str(a));
        assert(cb[1].1->Obj_0[0].1->Obj_0[0].1 == Doc::Str(b));
        assert(json_text(config_doc(layer, a)) != json_text(config_doc(layer, b)));
        encode_utf8_decode_utf8(json_text(config_doc(layer, a)));
        encode_utf8_decode_utf8(json_text(config_doc(layer, b)));
    }
    if sha256_of(config_bytes(layer, a)) == sha256_of(config_bytes(layer, b)) {
        let n = "sha256:"@.len() as int;
        assert(sha256_of(config_bytes(layer, a)).skip(n) =~= sha256_hex(config_bytes(layer, a)));
        assert(sha256_of(config_bytes(layer, b)).skip(n) =~= sha256_hex(config_bytes(layer, b)));
    }
}

/// The digest of the manifest is the one its index names, and the manifest is under it.
pub proof fn law_the_index_names_the_manifest(dir: Seq<char>, layer: Seq<u8>, image: Seq<char>)
    ensures
        member(index_doc(layer, image), "manifests"@) matches Some(Doc::Arr(v)) && v.len() == 1 && text_of(v[0], "digest"@) == Some(
            sha256_of(manifest_bytes(layer, image)),
        ),
        layout(dir, layer, image)[2] == (FileV {
            path: joined_path(blobs_dir(dir), sha256_hex(manifest_bytes(layer, image))),
            bytes: manifest_bytes(layer, image),
        }),
{
    reveal_strlit("schemaVersion");
    reveal_strlit("mediaType");
    reveal_strlit("manifests");
    reveal_strlit("digest");
    assert("schemaVersion"@.len() != "manifests"@.len());
    assert("mediaType"@[1] != "manifests"@[1]);
    assert("mediaType"@.len() != "digest"@.len());
    reveal_with_fuel(field_named, 5);
    let ms = index_doc(layer, image)->Obj_0;
    assert(ms.drop_first().drop_first()[0] == ms[2]);
    let one = ms[2].1->Arr_0[0]->Obj_0;
    assert(one.drop_first()[0] == one[1]);
}

// ── the bodies ──────────────────────────────────────────────────────────────

pub enum Body {
    Token { secret: String, image: String },
    /// Both layouts, written before the push: a full disk is no failure of the registry.
    Build { layer: Vec<u8>, a: String, b: String },
    Push { secret: String, a: String, b: String },
    /// A bearer for the step behind it: the token call has an id of its own.
    Bearer { secret: String, scope: String },
    Manifest { bearer: String, image: String },
    Tags { bearer: String, image: String },
    SharedLayer { a: String, b: String, layer: String },
    Visibility { image: String },
    Canary { want: String },
    /// The long-lived image, pushed where it is not there yet.
    EnsureCanary,
}

pub enum BodyV {
    Token { secret: Seq<char>, image: Seq<char> },
    Build { layer: Seq<u8>, a: Seq<char>, b: Seq<char> },
    Push { secret: Seq<char>, a: Seq<char>, b: Seq<char> },
    Bearer { secret: Seq<char>, scope: Seq<char> },
    Manifest { bearer: Seq<char>, image: Seq<char> },
    Tags { bearer: Seq<char>, image: Seq<char> },
    SharedLayer { a: Seq<char>, b: Seq<char>, layer: Seq<char> },
    Visibility { image: Seq<char> },
    Canary { want: Seq<char> },
    EnsureCanary,
}

impl View for Body {
    type V = BodyV;

    open spec fn view(&self) -> BodyV {
        match self {
            Body::Token { secret, image } => BodyV::Token { secret: secret@, image: image@ },
            Body::Build { layer, a, b } => BodyV::Build { layer: layer@, a: a@, b: b@ },
            Body::Push { secret, a, b } => BodyV::Push { secret: secret@, a: a@, b: b@ },
            Body::Bearer { secret, scope } => BodyV::Bearer { secret: secret@, scope: scope@ },
            Body::Manifest { bearer, image } => BodyV::Manifest { bearer: bearer@, image: image@ },
            Body::Tags { bearer, image } => BodyV::Tags { bearer: bearer@, image: image@ },
            Body::SharedLayer { a, b, layer } => BodyV::SharedLayer { a: a@, b: b@, layer: layer@ },
            Body::Visibility { image } => BodyV::Visibility { image: image@ },
            Body::Canary { want } => BodyV::Canary { want: want@ },
            Body::EnsureCanary => BodyV::EnsureCanary,
        }
    }
}

pub open spec fn bearer_next(c: RunV, secret: Seq<char>, scope: Seq<char>, rs: Seq<ReplyV>) -> NextV {
    link(rs, 0, bearer_asks(c, secret, scope), err_of(bearer_in(rs[0])), NextV::Pass)
}

fn bearer_body(c: &Run, secret: &str, scope: &str, log: &Log) -> (n: Next)
    ensures
        n@ == bearer_next(c@, secret@, scope@, log@.rs),
{
    if log.rs.len() <= 0 {
        return Next::Ask(ask_bearer(c, secret, scope));
    }
    match bearer_of(&log.rs[0]) {
        Ok(_) => Next::Pass,
        Err(why) => Next::Fail(why),
    }
}

/// Words in a context, where there is one.
pub open spec fn widened(context: Seq<char>, words: Seq<char>) -> Seq<char> {
    if context.len() == 0 { words } else { within(context, words) }
}

fn widen(context: &str, words: String) -> (r: String)
    ensures
        r@ == widened(context@, words@),
{
    if context.is_empty() { words } else { inside(context, words.as_str()) }
}

/// What a layout's files are written with, in order, each in its context.
pub open spec fn layout_asks(dir: Seq<char>, layer: Seq<u8>, image: Seq<char>, context: Seq<char>) -> Seq<(AskV, Seq<char>)> {
    let files = layout(dir, layer, image);
    seq![(AskV::Mkdir { path: blobs_dir(dir) }, context)] + Seq::new(
        files.len(),
        |i: int| (AskV::WriteBytes { path: files[i].path, bytes: files[i].bytes }, widened(context, "could not create "@ + files[i].path)),
    )
}

pub fn write_asks(dir: &str, layer: &Vec<u8>, image: &str, context: &str) -> (r: Vec<(Ask, String)>)
    ensures
        turns_view(r@) == layout_asks(dir@, layer@, image@, context@),
{
    let mut r: Vec<(Ask, String)> = Vec::new();
    r.push((Ask::Mkdir { path: below(dir, "blobs/sha256") }, context.to_owned()));
    let (files, _) = write_layout(dir, layer, image);
    let ghost all = layout(dir@, layer@, image@);
    let mut i: usize = 0;
    while i < files.len()
        invariant
            i <= files@.len(),
            files_view(files@) == all,
            all == layout(dir@, layer@, image@),
            r@.len() == i + 1,
            turns_view(r@)[0] == (AskV::Mkdir { path: blobs_dir(dir@) }, context@),
            forall|k: int| 0 <= k < i ==> #[trigger] turns_view(r@)[k + 1] == (
                AskV::WriteBytes { path: all[k].path, bytes: all[k].bytes },
                widened(context@, "could not create "@ + all[k].path),
            ),
        decreases files.len() - i,
    {
        proof {
            assert(files_view(files@)[i as int] == files@[i as int]@);
        }
        let bytes = files[i].bytes.clone();
        proof {
            assert(bytes@ =~= files@[i as int].bytes@);
        }
        let words = widen(context, cat2("could not create ", files[i].path.as_str()));
        let ghost before = r@;
        r.push((Ask::WriteBytes { path: files[i].path.clone(), bytes }, words));
        proof {
            assert(turns_view(r@) =~= turns_view(before).push(turns_view(r@)[i + 1]));
            assert forall|k: int| 0 <= k < i + 1 implies #[trigger] turns_view(r@)[k + 1] == (
                AskV::WriteBytes { path: all[k].path, bytes: all[k].bytes },
                widened(context@, "could not create "@ + all[k].path),
            ) by {
                if k < i {
                    assert(turns_view(r@)[k + 1] == turns_view(before)[k + 1]);
                }
            }
        }
        i = i + 1;
    }
    proof {
        let want = layout_asks(dir@, layer@, image@, context@);
        assert forall|k: int| 0 <= k < want.len() implies turns_view(r@)[k] == want[k] by {
            if k > 0 {
                let j = k - 1;
                assert(turns_view(r@)[j + 1] == want[k]);
            }
        }
        assert(turns_view(r@) =~= want);
    }
    r
}

pub open spec fn build_next(c: RunV, layer: Seq<u8>, a: Seq<char>, b: Seq<char>, rs: Seq<ReplyV>) -> NextV {
    in_turn(
        layout_asks(tmp_at(c, "img-a"@), layer, a, "could not build image a"@) + layout_asks(
            tmp_at(c, "img-b"@), layer, b, "could not build image b"@,
        ),
        rs,
        0,
    )
}

fn build_body(c: &Run, layer: &Vec<u8>, a: &str, b: &str, log: &Log) -> (n: Next)
    ensures
        n@ == build_next(c@, layer@, a@, b@, log@.rs),
{
    let mut asks = write_asks(tmp(c, "img-a").as_str(), layer, a, "could not build image a");
    let ghost first = asks@;
    let mut second = write_asks(tmp(c, "img-b").as_str(), layer, b, "could not build image b");
    let ghost last = second@;
    asks.append(&mut second);
    proof {
        assert(turns_view(asks@) =~= turns_view(first) + turns_view(last));
        assert(seen(log.rs@).skip(0) =~= seen(log.rs@));
    }
    take_turns(asks, &log.rs, 0)
}

/// Both images are pushed with the run's own token: the second push is there for the shared layer.
pub open spec fn push_next(c: RunV, secret: Seq<char>, a: Seq<char>, b: Seq<char>, rs: Seq<ReplyV>) -> NextV {
    link(
        rs, 0, crane_login(c, secret), tool_error_in("could not log in"@, rs[0]),
        link(
            rs, 1, crane_push(c, tmp_at(c, "img-a"@), a), tool_error(rs[1]),
            link(rs, 2, crane_push(c, tmp_at(c, "img-b"@), b), tool_error(rs[2]), NextV::Pass),
        ),
    )
}

fn push_body(c: &Run, secret: &str, a: &str, b: &str, log: &Log) -> (n: Next)
    ensures
        n@ == push_next(c@, secret@, a@, b@, log@.rs),
{
    if log.rs.len() <= 0 {
        return Next::Ask(login(c, secret));
    }
    if let Some(why) = tool_failed_in("could not log in", &log.rs[0]) {
        return Next::Fail(why);
    }
    if log.rs.len() <= 1 {
        return Next::Ask(push_image(c, tmp(c, "img-a"), a));
    }
    if let Some(why) = tool_failed(&log.rs[1]) {
        return Next::Fail(why);
    }
    if log.rs.len() <= 2 {
        return Next::Ask(push_image(c, tmp(c, "img-b"), b));
    }
    end(tool_failed(&log.rs[2]))
}

/// Why an answer is no success, with the first 200 characters of its text.
pub open spec fn not_success(r: ReplyV) -> Option<Seq<char>> {
    match raw_of(r) {
        Err(why) => Some(why),
        Ok((status, body)) => if is_success(status) { None } else { Some(told(status, body, 200)) },
    }
}

pub fn unsuccessful(r: &Reply) -> (o: Option<String>)
    ensures
        opt(o) == not_success(r@),
{
    match raw(r) {
        Err(why) => Some(why),
        Ok((status, body)) => {
            if success(status) { None } else { Some(tell(status, body.as_str(), 200)) }
        },
    }
}

pub open spec fn manifest_next(c: RunV, bearer: Seq<char>, image: Seq<char>, rs: Seq<ReplyV>) -> NextV {
    link(
        rs, 0,
        AskV::Call {
            verb: Verb::Get,
            url: base_of(c) + "/v2/"@ + c.tenant + "/"@ + image + "/manifests/latest"@,
            auth: bearer_header(bearer),
            accept: MANIFEST_ACCEPT@,
            load: PayloadV::Empty,
            bound_ms: 0,
        },
        not_success(rs[0]),
        NextV::Pass,
    )
}

fn manifest_body(c: &Run, token: &str, image: &str, log: &Log) -> (n: Next)
    ensures
        n@ == manifest_next(c@, token@, image@, log@.rs),
{
    if log.rs.len() <= 0 {
        return Next::Ask(Ask::Call {
            verb: Verb::Get,
            url: cat6(base(c).as_str(), "/v2/", c.tenant.as_str(), "/", image, "/manifests/latest"),
            auth: bearer(token),
            accept: MANIFEST_ACCEPT.to_owned(),
            load: Payload::Empty,
            bound_ms: 0,
        });
    }
    end(unsuccessful(&log.rs[0]))
}

/// The tag in the image's own list and the image in the catalogue, sharing one budget: two waits
/// of their own would report twice the bound as a pass.
pub open spec fn tags_next(c: RunV, bearer: Seq<char>, image: Seq<char>, log: LogV) -> NextV {
    link(
        log.rs, 0,
        AskV::Wait(WaitV::Doc {
            url: base_of(c) + "/v2/"@ + c.tenant + "/"@ + image + "/tags/list"@,
            token: bearer,
            want: WantV::Holds { field: "tags"@, value: "latest"@ },
            cap_ms: TAGS_CAP_MS,
        }),
        lost_in("the tag never appeared"@, log.rs[0]),
        link(
            log.rs, 1,
            AskV::Wait(WaitV::Doc {
                url: base_of(c) + "/v2/_catalog"@,
                token: bearer,
                want: WantV::Holds { field: "repositories"@, value: c.tenant + "/"@ + image },
                cap_ms: less(TAGS_CAP_MS, came_at(log, 0)),
            }),
            lost_in("the image never appeared in the catalogue"@, log.rs[1]),
            NextV::Pass,
        ),
    )
}

fn tags_body(c: &Run, token: &str, image: &str, log: &Log) -> (n: Next)
    ensures
        n@ == tags_next(c@, token@, image@, log@),
{
    if log.rs.len() <= 0 {
        return Next::Ask(Ask::Wait(Wait::Doc {
            url: cat6(base(c).as_str(), "/v2/", c.tenant.as_str(), "/", image, "/tags/list"),
            token: token.to_owned(),
            want: Want::Holds { field: "tags".to_owned(), value: "latest".to_owned() },
            cap_ms: TAGS_CAP_MS,
        }));
    }
    if let Some(why) = lost_within("the tag never appeared", &log.rs[0]) {
        return Next::Fail(why);
    }
    if log.rs.len() <= 1 {
        return Next::Ask(Ask::Wait(Wait::Doc {
            url: cat2(base(c).as_str(), "/v2/_catalog"),
            token: token.to_owned(),
            want: Want::Holds { field: "repositories".to_owned(), value: cat3(c.tenant.as_str(), "/", image) },
            cap_ms: TAGS_CAP_MS.saturating_sub(log.came(0)),
        }));
    }
    end(lost_within("the image never appeared in the catalogue", &log.rs[1]))
}

/// The bytes of a file that was read.
pub open spec fn bytes_in(context: Seq<char>, r: ReplyV) -> Result<Seq<u8>, Seq<char>> {
    match r {
        ReplyV::Bytes(b) => Ok(b),
        ReplyV::Lost(why) => Err(within(context, why)),
        _ => Err(within(context, ODD@)),
    }
}

pub fn bytes_of(context: &str, r: &Reply) -> (o: Result<Vec<u8>, String>)
    ensures
        (match o { Ok(b) => Ok(b@), Err(e) => Err(e@) }) == bytes_in(context@, r@),
{
    match r {
        Reply::Bytes(b) => {
            let copy = b.clone();
            proof {
                assert(copy@ =~= b@);
            }
            Ok(copy)
        },
        Reply::Lost(why) => Err(inside(context, why.as_str())),
        _ => Err(inside(context, ODD)),
    }
}

/// Where a pulled image keeps the blob of a digest.
pub open spec fn pulled_blob(dest: Seq<char>, layer: Seq<char>) -> Seq<char> {
    joined_path(blobs_dir(dest), without_all(layer, "sha256:"@))
}

/// The sibling is deleted, the survivor pulled, and the shared blob has to have come back as it
/// was: a delete that took the blob with it fails here.
pub open spec fn shared_layer_next(c: RunV, a: Seq<char>, b: Seq<char>, layer: Seq<char>, rs: Seq<ReplyV>) -> NextV {
    let dest = tmp_at(c, "pull-a"@);
    let lacking = "the shared layer is not in the pulled image"@;
    link(
        rs, 0, posting(api_at(c, "/api/"@ + c.tenant + "/"@ + b + "/imagedelete"@), c.probe_jwt, Doc::Null),
        call_failed("could not delete the sibling"@, rs[0]),
        also(
            rs, 1, AskV::Discard { path: dest },
            link(
                rs, 2, crane_pull(c, "docker"@, a, dest), tool_error_in("could not pull"@, rs[2]),
                link(
                    rs, 3, AskV::ReadBytes { path: pulled_blob(dest, layer) }, err_of(bytes_in(lacking, rs[3])),
                    if sha256_of(bytes_in(lacking, rs[3])->Ok_0) == layer {
                        NextV::Pass
                    } else {
                        NextV::Fail("the shared layer came back with different bytes"@)
                    },
                ),
            ),
        ),
    )
}

fn shared_layer_body(c: &Run, a: &str, b: &str, layer: &str, log: &Log) -> (n: Next)
    ensures
        n@ == shared_layer_next(c@, a@, b@, layer@, log@.rs),
{
    let dest = tmp(c, "pull-a");
    if log.rs.len() <= 0 {
        let path = cat5("/api/", c.tenant.as_str(), "/", b, "/imagedelete");
        return Next::Ask(post(api(c, path.as_str()), c.probe_jwt.as_str(), Json::Null));
    }
    if let Some(why) = failed("could not delete the sibling", &log.rs[0]) {
        return Next::Fail(why);
    }
    if log.rs.len() <= 1 {
        return Next::Ask(Ask::Discard { path: dest });
    }
    if log.rs.len() <= 2 {
        return Next::Ask(Ask::Crane { config: authed(c).config, op: CraneOp::Pull { reference: reference(c, a), dest } });
    }
    if let Some(why) = tool_failed_in("could not pull", &log.rs[2]) {
        return Next::Fail(why);
    }
    if log.rs.len() <= 3 {
        let hex = trim_start_matches(layer, "sha256:");
        return Next::Ask(Ask::ReadBytes { path: below(below(dest.as_str(), "blobs/sha256").as_str(), hex.as_str()) });
    }
    match bytes_of("the shared layer is not in the pulled image", &log.rs[3]) {
        Err(why) => Next::Fail(why),
        Ok(got) => {
            if same(sha256(&got).as_str(), layer) {
                Next::Pass
            } else {
                Next::Fail("the shared layer came back with different bytes".to_owned())
            }
        },
    }
}

/// A change of an image's visibility.
pub open spec fn image_visibility_asks(c: RunV, image: Seq<char>, to: Seq<char>) -> AskV {
    posting(api_at(c, "/api/"@ + c.tenant + "/"@ + image + "/imagevisibility?visibility="@ + to), c.probe_jwt, Doc::Null)
}

fn image_visibility(c: &Run, image: &str, to: &str) -> (r: Ask)
    ensures
        r@ == image_visibility_asks(c@, image@, to@),
{
    let path = cat6("/api/", c.tenant.as_str(), "/", image, "/imagevisibility?visibility=", to);
    post(api(c, path.as_str()), c.probe_jwt.as_str(), Json::Null)
}

/// The image is made public, and admits an anonymous pull.
pub open spec fn published_next(c: RunV, image: Seq<char>, rs: Seq<ReplyV>) -> NextV {
    let dest = tmp_at(c, "pull-anon"@);
    link(
        rs, 2, image_visibility_asks(c, image, "public"@), call_failed("could not make it public"@, rs[2]),
        also(
            rs, 3, AskV::Discard { path: dest },
            link(
                rs, 4, crane_pull(c, "docker-anon"@, image, dest),
                tool_error_in("a public image refused an anonymous pull"@, rs[4]), NextV::Pass,
            ),
        ),
    )
}

fn published_body(c: &Run, image: &str, log: &Log) -> (n: Next)
    ensures
        n@ == published_next(c@, image@, log@.rs),
{
    let dest = tmp(c, "pull-anon");
    if log.rs.len() <= 2 {
        return Next::Ask(image_visibility(c, image, "public"));
    }
    if let Some(why) = failed("could not make it public", &log.rs[2]) {
        return Next::Fail(why);
    }
    if log.rs.len() <= 3 {
        return Next::Ask(Ask::Discard { path: dest });
    }
    if log.rs.len() <= 4 {
        return Next::Ask(Ask::Crane { config: anonymous(c).config, op: CraneOp::Pull { reference: reference(c, image), dest } });
    }
    end(tool_failed_in("a public image refused an anonymous pull", &log.rs[4]))
}

/// Private refuses an anonymous pull, public admits one: either half alone would be passed by a
/// registry that answered everything, or nothing. Once the image was asked to be public it is asked to
/// be private again, whatever became of either.
pub open spec fn visibility_next(c: RunV, image: Seq<char>, log: LogV) -> NextV {
    let dest = tmp_at(c, "pull-anon"@);
    also(
        log.rs, 0, AskV::Discard { path: dest },
        link(
            log.rs, 1, crane_pull(c, "docker-anon"@, image, dest),
            if tool_error(log.rs[1]) is None { Some("a private image pulled anonymously"@) } else { None },
            closing(
                log, published_next(c, image, log.rs), image_visibility_asks(c, image, "private"@),
                call_failed("the image was left PUBLIC"@, log.us[0]),
            ),
        ),
    )
}

fn visibility_body(c: &Run, image: &str, log: &Log) -> (n: Next)
    ensures
        n@ == visibility_next(c@, image@, log@),
{
    let dest = tmp(c, "pull-anon");
    if log.rs.len() <= 0 {
        return Next::Ask(Ask::Discard { path: dest });
    }
    if log.rs.len() <= 1 {
        return Next::Ask(Ask::Crane { config: anonymous(c).config, op: CraneOp::Pull { reference: reference(c, image), dest } });
    }
    if tool_failed(&log.rs[1]).is_none() {
        return Next::Fail("a private image pulled anonymously".to_owned());
    }
    close_after(
        log, published_body(c, image, log), image_visibility(c, image, "private"), undo_failed("the image was left PUBLIC", log),
    )
}

/// Once an image was asked to be public, the body is not over before it was asked to be private again,
/// whatever was answered.
pub proof fn law_a_published_image_is_hidden_again(c: RunV, image: Seq<char>, log: LogV)
    requires
        log.rs.len() > 2,
        log.us.len() == 0,
        tool_error(log.rs[1]) is Some,
    ensures
        !(visibility_next(c, image, log) is Pass),
        !(visibility_next(c, image, log) is Fail),
        visibility_next(c, image, log) matches NextV::Undo(ask) ==> ask == image_visibility_asks(c, image, "private"@),
{
}

/// The long-lived image still pulls, and is still the pinned one.
pub open spec fn canary_next(c: RunV, want: Seq<char>, rs: Seq<ReplyV>) -> NextV {
    link(
        rs, 0, crane_digest(c, "canary"@),
        (match said_of(rs[0]) {
            Err(why) => Some(why),
            Ok(got) => if got == want { None } else { Some("the canary is "@ + got + ", not the pinned "@ + want) },
        }),
        NextV::Pass,
    )
}

fn canary_body(c: &Run, want: &str, log: &Log) -> (n: Next)
    ensures
        n@ == canary_next(c@, want@, log@.rs),
{
    if log.rs.len() <= 0 {
        return Next::Ask(digest_of_image(c, "canary"));
    }
    match said(&log.rs[0]) {
        Err(why) => Next::Fail(why),
        Ok(got) => {
            if same(got.as_str(), want) {
                Next::Pass
            } else {
                Next::Fail(cat4("the canary is ", got.as_str(), ", not the pinned ", want))
            }
        },
    }
}

/// The canary's layer is always the same bytes: a digest that moved would fail its check until
/// somebody pinned it anew.
pub open spec fn canary_layer() -> Seq<u8> {
    Seq::new(LAYER_BYTES as nat, |i: int| 0x5cu8)
}

fn fixed_layer() -> (r: Vec<u8>)
    ensures
        r@ == canary_layer(),
{
    let mut r: Vec<u8> = Vec::new();
    while r.len() < LAYER_BYTES
        invariant
            r@.len() <= LAYER_BYTES,
            forall|k: int| 0 <= k < r@.len() ==> r@[k] == 0x5cu8,
        decreases LAYER_BYTES - r.len(),
    {
        r.push(0x5cu8);
    }
    proof {
        assert(r@ =~= canary_layer());
    }
    r
}

/// How the canary is pushed, once there is a credential.
pub open spec fn canary_asks(c: RunV, secret: Seq<char>) -> Seq<(AskV, Seq<char>)> {
    let dir = tmp_at(c, "canary"@);
    seq![(crane_login(c, secret), "could not log in"@), (AskV::Mkdir { path: c.tmp }, ""@)] + layout_asks(
        dir, canary_layer(), "canary"@, ""@,
    ) + seq![(crane_push(c, dir, "canary"@), "could not push the canary"@), (crane_digest(c, "canary"@), ""@)]
}

fn push_canary(c: &Run, secret: &str) -> (r: Vec<(Ask, String)>)
    ensures
        turns_view(r@) == canary_asks(c@, secret@),
{
    let dir = tmp(c, "canary");
    let mut r: Vec<(Ask, String)> = Vec::new();
    r.push((login(c, secret), "could not log in".to_owned()));
    r.push((Ask::Mkdir { path: c.tmp.clone() }, "".to_owned()));
    let ghost first = r@;
    let mut files = write_asks(dir.as_str(), &fixed_layer(), "canary", "");
    let ghost second = files@;
    r.append(&mut files);
    r.push((push_image(c, dir, "canary"), "could not push the canary".to_owned()));
    r.push((digest_of_image(c, "canary"), "".to_owned()));
    proof {
        assert(turns_view(first) =~= seq![
            (crane_login(c@, secret@), "could not log in"@), (AskV::Mkdir { path: c@.tmp }, ""@),
        ]);
        assert(turns_view(r@) =~= turns_view(first) + turns_view(second) + seq![
            (crane_push(c@, tmp_at(c@, "canary"@), "canary"@), "could not push the canary"@), (crane_digest(c@, "canary"@), ""@),
        ]);
    }
    r
}

/// The secret of the credential the canary is pushed with.
pub open spec fn canary_secret(r: ReplyV) -> Result<Seq<char>, Seq<char>> {
    match doc_of(r) {
        Err(why) => Err(within("could not mint a registry credential"@, why)),
        Ok(d) => match text_of(d, "token"@) {
            Some(t) => Ok(t),
            None => Err("the answer carried no token"@),
        },
    }
}

fn canary_secret_of(r: &Reply) -> (o: Result<String, String>)
    ensures
        (match o { Ok(t) => Ok(t@), Err(e) => Err(e@) }) == canary_secret(r@),
{
    match doc(r) {
        Err(why) => Err(inside("could not mint a registry credential", why.as_str())),
        Ok(d) => match d.text_at("token") {
            Some(t) => Ok(t),
            None => Err("the answer carried no token".to_owned()),
        },
    }
}

/// The push of the canary, and the end of the credential it was made with.
pub open spec fn canary_pushed(c: RunV, log: LogV) -> NextV {
    let pushed = in_turn(canary_asks(c, canary_secret(log.rs[1])->Ok_0), log.rs.skip(2), 0);
    match minted_id(log.rs[1]) {
        Some(id) => finally(log, pushed, deleting(api_at(c, "/v1/tokens/"@ + id), c.probe_jwt)),
        None => pushed,
    }
}

/// The canary as it is, or pushed with a credential of its own, which is revoked whatever became
/// of the push: left behind it would be a standing credential nobody owns.
pub open spec fn ensure_canary_next(c: RunV, log: LogV) -> NextV {
    let rs = log.rs;
    if rs.len() == 0 {
        NextV::Ask(crane_digest(c, "canary"@))
    } else if tool_error(rs[0]) is None {
        NextV::Pass
    } else {
        link(
            rs, 1,
            posting(
                api_at(c, "/v1/tokens"@),
                c.probe_jwt,
                Doc::Obj(seq![("owner"@, Doc::Str(c.tenant)), ("name"@, Doc::Str("slo-bootstrap-canary"@))]),
            ),
            err_of(canary_secret(rs[1])),
            canary_pushed(c, log),
        )
    }
}

pub fn ensure_canary(c: &Run, log: &Log) -> (n: Next)
    ensures
        n@ == ensure_canary_next(c@, log@),
{
    if log.rs.len() <= 0 {
        return Next::Ask(digest_of_image(c, "canary"));
    }
    if tool_failed(&log.rs[0]).is_none() {
        return Next::Pass;
    }
    if log.rs.len() <= 1 {
        let body = obj2("owner", txt(c.tenant.as_str()), "name", txt("slo-bootstrap-canary"));
        return Next::Ask(post(api(c, "/v1/tokens"), c.probe_jwt.as_str(), body));
    }
    let secret = match canary_secret_of(&log.rs[1]) {
        Err(why) => {
            return Next::Fail(why);
        },
        Ok(t) => t,
    };
    let pushed = take_turns(push_canary(c, secret.as_str()), &log.rs, 2);
    match token_id_of(&log.rs[1]) {
        Some(id) => afterwards(log, pushed, erase(api(c, cat2("/v1/tokens/", id.as_str()).as_str()), c.probe_jwt.as_str())),
        None => pushed,
    }
}

/// The digest of the canary, where the last reply gives it.
pub open spec fn canary_digest_in(rs: Seq<ReplyV>) -> Option<Seq<char>> {
    if rs.len() == 1 || rs.len() == 12 {
        match said_of(rs.last()) {
            Ok(t) => Some(t),
            Err(_) => None,
        }
    } else {
        None
    }
}

fn digest_found(rs: &Vec<Reply>) -> (r: Option<String>)
    ensures
        opt(r) == canary_digest_in(seen(rs@)),
{
    if rs.len() == 1 || rs.len() == 12 {
        match said(&rs[rs.len() - 1]) {
            Ok(t) => Some(t),
            Err(_) => None,
        }
    } else {
        None
    }
}

/// The digest is told exactly when the body has passed, and a credential that was minted for the
/// push is revoked before the body is over.
pub proof fn law_the_canary_leaves_no_credential(c: RunV, log: LogV)
    requires
        log.rs.len() > 0,
        tool_error(log.rs[0]) is Some,
    ensures
        ensure_canary_next(c, log) is Pass && log.rs.len() == 12 ==> canary_digest_in(log.rs) is Some,
        log.rs.len() > 1 && minted_id(log.rs[1]) is Some && canary_secret(log.rs[1]) is Ok && (ensure_canary_next(c, log) is Pass
            || ensure_canary_next(c, log) is Fail) ==> log.us.len() > 0,
{
    let rs = log.rs;
    if ensure_canary_next(c, log) is Pass && rs.len() == 12 {
        let asks = canary_asks(c, canary_secret(rs[1])->Ok_0);
        assert(asks.len() == 10);
        reveal_with_fuel(in_turn, 11);
        assert(rs.skip(2)[9] == rs[11]);
        assert(asks[9].1 == ""@);
        reveal_strlit("");
    }
}

pub open spec fn body_next(c: RunV, b: BodyV, log: LogV) -> NextV {
    match b {
        BodyV::Token { secret, image } => bearer_next(c, secret, pull_scope_of(c, image), log.rs),
        BodyV::Build { layer, a, b } => build_next(c, layer, a, b, log.rs),
        BodyV::Push { secret, a, b } => push_next(c, secret, a, b, log.rs),
        BodyV::Bearer { secret, scope } => bearer_next(c, secret, scope, log.rs),
        BodyV::Manifest { bearer, image } => manifest_next(c, bearer, image, log.rs),
        BodyV::Tags { bearer, image } => tags_next(c, bearer, image, log),
        BodyV::SharedLayer { a, b, layer } => shared_layer_next(c, a, b, layer, log.rs),
        BodyV::Visibility { image } => visibility_next(c, image, log),
        BodyV::Canary { want } => canary_next(c, want, log.rs),
        BodyV::EnsureCanary => ensure_canary_next(c, log),
    }
}

/// What a body has learned: a bearer, or the digest of the layer both images are built of.
pub open spec fn body_found(b: BodyV, log: LogV) -> Option<Seq<char>> {
    match b {
        BodyV::Bearer { .. } => if log.rs.len() > 0 {
            match bearer_in(log.rs[0]) {
                Ok(t) => Some(t),
                Err(_) => None,
            }
        } else {
            None
        },
        BodyV::Build { layer, .. } => Some(sha256_of(layer)),
        BodyV::EnsureCanary => canary_digest_in(log.rs),
        _ => None,
    }
}

impl Body {
    pub fn next(&self, c: &Run, log: &Log) -> (n: Next)
        ensures
            n@ == body_next(c@, self@, log@),
    {
        match self {
            Body::Token { secret, image } => bearer_body(c, secret.as_str(), pull_scope(c, image.as_str()).as_str(), log),
            Body::Build { layer, a, b } => build_body(c, layer, a.as_str(), b.as_str(), log),
            Body::Push { secret, a, b } => push_body(c, secret.as_str(), a.as_str(), b.as_str(), log),
            Body::Bearer { secret, scope } => bearer_body(c, secret.as_str(), scope.as_str(), log),
            Body::Manifest { bearer, image } => manifest_body(c, bearer.as_str(), image.as_str(), log),
            Body::Tags { bearer, image } => tags_body(c, bearer.as_str(), image.as_str(), log),
            Body::SharedLayer { a, b, layer } => shared_layer_body(c, a.as_str(), b.as_str(), layer.as_str(), log),
            Body::Visibility { image } => visibility_body(c, image.as_str(), log),
            Body::Canary { want } => canary_body(c, want.as_str(), log),
            Body::EnsureCanary => ensure_canary(c, log),
        }
    }

    pub fn found(&self, log: &Log) -> (r: Option<String>)
        ensures
            opt(r) == body_found(self@, log@),
    {
        match self {
            Body::Bearer { .. } => {
                if log.rs.len() > 0 {
                    match bearer_of(&log.rs[0]) {
                        Ok(t) => Some(t),
                        Err(_) => None,
                    }
                } else {
                    None
                }
            },
            Body::Build { layer, .. } => Some(sha256(layer)),
            Body::EnsureCanary => digest_found(&log.rs),
            _ => None,
        }
    }
}

// ── the stage ───────────────────────────────────────────────────────────────

/// What the stage's parts know: the token's secret, the two images, the layer they are built of
/// and, once they are built, its digest.
pub struct Known {
    pub secret: String,
    pub a: String,
    pub b: String,
    pub layer: Vec<u8>,
    pub digest: String,
}

pub struct KnownV {
    pub secret: Seq<char>,
    pub a: Seq<char>,
    pub b: Seq<char>,
    pub layer: Seq<u8>,
    pub digest: Seq<char>,
}

impl View for Known {
    type V = KnownV;

    open spec fn view(&self) -> KnownV {
        KnownV { secret: self.secret@, a: self.a@, b: self.b@, layer: self.layer@, digest: self.digest@ }
    }
}

/// The two images of a run, built of one layer.
pub fn images(c: &Run, secret: &str, layer: Vec<u8>) -> (r: Known)
    ensures
        r@ == (KnownV { secret: secret@, a: named(c@, "-a"@), b: named(c@, "-b"@), layer: layer@, digest: sha256_of(layer@) }),
{
    let digest = sha256(&layer);
    Known { secret: secret.to_owned(), a: name(c, "-a"), b: name(c, "-b"), layer, digest }
}

/// The stage with a credential, up to the push: a layout that could not be built ends it there.
pub open spec fn run_move(c: RunV, k: KnownV, os: Seq<OutcomeV>) -> MoveV<BodyV> {
    if os.len() == 0 {
        MoveV::Step { id: "reg.token.p95"@, ceiling_ms: c.step_ms, body: BodyV::Token { secret: k.secret, image: k.a } }
    } else if os.len() == 1 {
        MoveV::Look { body: BodyV::Build { layer: k.layer, a: k.a, b: k.b } }
    } else if os.len() == 2 && passed(os[1]) {
        MoveV::Step { id: "reg.push.ok"@, ceiling_ms: 180_000, body: BodyV::Push { secret: k.secret, a: k.a, b: k.b } }
    } else {
        MoveV::End
    }
}

pub fn run(c: &Run, k: &Known, os: &Vec<Outcome>) -> (m: Move<Body>)
    ensures
        m@ == run_move(c@, k@, outcomes(os@)),
{
    if os.len() == 0 {
        step("reg.token.p95", c.step_ms, Body::Token { secret: k.secret.clone(), image: k.a.clone() })
    } else if os.len() == 1 {
        let layer = k.layer.clone();
        proof {
            assert(layer@ =~= k.layer@);
        }
        look(Body::Build { layer, a: k.a.clone(), b: k.b.clone() })
    } else if os.len() == 2 && os[1].passed() {
        step("reg.push.ok", 180_000, Body::Push { secret: k.secret.clone(), a: k.a.clone(), b: k.b.clone() })
    } else {
        Move::End
    }
}

/// Why nothing was pushed, once the moves up to the push are made.
pub open spec fn unpushed(os: Seq<OutcomeV>) -> Option<Seq<char>> {
    if os.len() > 2 {
        if passed(os[2]) { None } else { Some("nothing was pushed: the push failed"@) }
    } else {
        Some("nothing was pushed: "@ + (if os.len() == 2 { failure_or_empty(os[1]) } else { seq![] }))
    }
}

pub fn push(os: &Vec<Outcome>) -> (r: Option<String>)
    ensures
        opt(r) == unpushed(outcomes(os@)),
{
    if os.len() > 2 {
        if os[2].passed() { None } else { Some("nothing was pushed: the push failed".to_owned()) }
    } else {
        let why = if os.len() == 2 { os[1].failure_or_empty() } else { String::new() };
        Some(cat2("nothing was pushed: ", why.as_str()))
    }
}

/// The stage without a credential: every id before the canary is skipped.
pub open spec fn untokened_move(os: Seq<OutcomeV>) -> MoveV<BodyV> {
    let why = "no registry credential: the token was never minted"@;
    if os.len() == 0 {
        MoveV::Skip { id: "reg.token.p95"@, why }
    } else if os.len() == 1 {
        MoveV::Skip { id: "reg.push.ok"@, why }
    } else if os.len() < 6 {
        MoveV::Skip { id: AFTER_PUSH[os.len() - 2]@, why }
    } else {
        MoveV::End
    }
}

pub fn without_token(os: &Vec<Outcome>) -> (m: Move<Body>)
    ensures
        m@ == untokened_move(outcomes(os@)),
{
    let why = "no registry credential: the token was never minted";
    if os.len() == 0 {
        skip("reg.token.p95", why)
    } else if os.len() == 1 {
        skip("reg.push.ok", why)
    } else if os.len() < 6 {
        skip(AFTER_PUSH[os.len() - 2], why)
    } else {
        Move::End
    }
}

/// A read behind a bearer of its own, which is fetched before the step: the token call has an id
/// of its own, and one slow token is no slow read.
pub open spec fn tokened_move(id: Seq<char>, ceiling_ms: u64, secret: Seq<char>, scope: Seq<char>, body: spec_fn(Seq<char>) -> BodyV, os: Seq<OutcomeV>) -> MoveV<BodyV> {
    if os.len() == 0 {
        MoveV::Look { body: BodyV::Bearer { secret, scope } }
    } else if os.len() == 1 {
        match passed_with(os[0]) {
            Some(bearer) => MoveV::Step { id, ceiling_ms, body: body(bearer) },
            None => MoveV::Skip { id, why: "no registry token: "@ + failure_or_empty(os[0]) },
        }
    } else {
        MoveV::End
    }
}

pub open spec fn manifest_move(c: RunV, k: KnownV, os: Seq<OutcomeV>) -> MoveV<BodyV> {
    tokened_move(
        "reg.manifest.p95"@, c.step_ms, k.secret, pull_scope_of(c, k.a), |bearer: Seq<char>| BodyV::Manifest { bearer, image: k.a }, os,
    )
}

pub fn manifest(c: &Run, k: &Known, os: &Vec<Outcome>) -> (m: Move<Body>)
    ensures
        m@ == manifest_move(c@, k@, outcomes(os@)),
{
    let id = "reg.manifest.p95";
    if os.len() == 0 {
        look(Body::Bearer { secret: k.secret.clone(), scope: pull_scope(c, k.a.as_str()) })
    } else if os.len() == 1 {
        match os[0].passed_with() {
            Some(bearer) => step(id, c.step_ms, Body::Manifest { bearer, image: k.a.clone() }),
            None => skip(id, cat2("no registry token: ", os[0].failure_or_empty().as_str()).as_str()),
        }
    } else {
        Move::End
    }
}

pub open spec fn tags_move(c: RunV, k: KnownV, os: Seq<OutcomeV>) -> MoveV<BodyV> {
    tokened_move(
        "reg.tags.visible"@, (TAGS_CAP_MS + 10_000) as u64, k.secret, pull_scope_of(c, k.a) + " registry:catalog:*"@,
        |bearer: Seq<char>| BodyV::Tags { bearer, image: k.a }, os,
    )
}

pub fn tags(c: &Run, k: &Known, os: &Vec<Outcome>) -> (m: Move<Body>)
    ensures
        m@ == tags_move(c@, k@, outcomes(os@)),
{
    let id = "reg.tags.visible";
    if os.len() == 0 {
        look(Body::Bearer { secret: k.secret.clone(), scope: cat2(pull_scope(c, k.a.as_str()).as_str(), " registry:catalog:*") })
    } else if os.len() == 1 {
        match os[0].passed_with() {
            Some(bearer) => step(id, TAGS_CAP_MS + 10_000, Body::Tags { bearer, image: k.a.clone() }),
            None => skip(id, cat2("no registry token: ", os[0].failure_or_empty().as_str()).as_str()),
        }
    } else {
        Move::End
    }
}

pub open spec fn shared_layer_move(k: KnownV, os: Seq<OutcomeV>) -> MoveV<BodyV> {
    one_move("reg.shared.layer"@, 120_000, ""@, Some(BodyV::SharedLayer { a: k.a, b: k.b, layer: k.digest }), os)
}

/// `reg.shared.layer`.
pub fn shared_layer(k: &Known, os: &Vec<Outcome>) -> (m: Move<Body>)
    ensures
        m@ == shared_layer_move(k@, outcomes(os@)),
{
    one("reg.shared.layer", 120_000, "", Some(Body::SharedLayer { a: k.a.clone(), b: k.b.clone(), layer: k.digest.clone() }), os)
}

pub open spec fn visibility_move(k: KnownV, os: Seq<OutcomeV>) -> MoveV<BodyV> {
    one_move("reg.visibility"@, 120_000, ""@, Some(BodyV::Visibility { image: k.a }), os)
}

/// `reg.visibility`.
pub fn visibility(k: &Known, os: &Vec<Outcome>) -> (m: Move<Body>)
    ensures
        m@ == visibility_move(k@, outcomes(os@)),
{
    one("reg.visibility", 120_000, "", Some(Body::Visibility { image: k.a.clone() }), os)
}

/// The ids behind a push that did not work, skipped for one reason.
pub open spec fn after_push_move(why: Seq<char>, os: Seq<OutcomeV>) -> MoveV<BodyV> {
    if os.len() < 4 { MoveV::Skip { id: AFTER_PUSH[os.len() as int]@, why } } else { MoveV::End }
}

pub fn skip_after_push(why: &str, os: &Vec<Outcome>) -> (m: Move<Body>)
    ensures
        m@ == after_push_move(why@, outcomes(os@)),
{
    if os.len() < 4 { skip(AFTER_PUSH[os.len()], why) } else { Move::End }
}

pub open spec fn canary_move(c: RunV, os: Seq<OutcomeV>) -> MoveV<BodyV> {
    one_move(
        "reg.canary"@, c.step_ms, "KLOUDLITE_GIT_SLO_CANARY_DIGEST is not set"@,
        (match c.canary_digest { Some(want) => Some(BodyV::Canary { want }), None => None }), os,
    )
}

/// `reg.canary`: checked against a digest that is pinned, never against what the registry says of
/// itself; without a pin it is skipped.
pub fn canary(c: &Run, os: &Vec<Outcome>) -> (m: Move<Body>)
    ensures
        m@ == canary_move(c@, outcomes(os@)),
{
    let body = match &c.canary_digest {
        Some(want) => Some(Body::Canary { want: want.clone() }),
        None => None,
    };
    one("reg.canary", c.step_ms, "KLOUDLITE_GIT_SLO_CANARY_DIGEST is not set", body, os)
}

/// The parts of the stage.
pub enum Part {
    /// Without a credential.
    Untokened,
    /// Up to the push.
    Push,
    Manifest,
    Tags,
    SharedLayer,
    Visibility,
    /// What a push that did not work leaves to skip.
    Unpushed { why: String },
    Canary,
}

pub enum PartV {
    Untokened,
    Push,
    Manifest,
    Tags,
    SharedLayer,
    Visibility,
    Unpushed { why: Seq<char> },
    Canary,
}

impl View for Part {
    type V = PartV;

    open spec fn view(&self) -> PartV {
        match self {
            Part::Untokened => PartV::Untokened,
            Part::Push => PartV::Push,
            Part::Manifest => PartV::Manifest,
            Part::Tags => PartV::Tags,
            Part::SharedLayer => PartV::SharedLayer,
            Part::Visibility => PartV::Visibility,
            Part::Unpushed { why } => PartV::Unpushed { why: why@ },
            Part::Canary => PartV::Canary,
        }
    }
}

pub open spec fn part_move(p: PartV, c: RunV, k: KnownV, os: Seq<OutcomeV>) -> MoveV<BodyV> {
    match p {
        PartV::Untokened => untokened_move(os),
        PartV::Push => run_move(c, k, os),
        PartV::Manifest => manifest_move(c, k, os),
        PartV::Tags => tags_move(c, k, os),
        PartV::SharedLayer => shared_layer_move(k, os),
        PartV::Visibility => visibility_move(k, os),
        PartV::Unpushed { why } => after_push_move(why, os),
        PartV::Canary => canary_move(c, os),
    }
}

/// The part the stage begins with.
pub open spec fn first_part(s: StateV) -> PartV {
    if s.token_value is Some { PartV::Push } else { PartV::Untokened }
}

/// The part behind one that is over, `os` being how its moves went. The canary is checked whatever
/// became of the push, and last.
pub open spec fn next_part(p: PartV, os: Seq<OutcomeV>) -> Option<PartV> {
    match p {
        PartV::Untokened => Some(PartV::Canary),
        PartV::Push => match unpushed(os) {
            Some(why) => Some(PartV::Unpushed { why }),
            None => Some(PartV::Manifest),
        },
        PartV::Manifest => Some(PartV::Tags),
        PartV::Tags => Some(PartV::SharedLayer),
        PartV::SharedLayer => Some(PartV::Visibility),
        PartV::Visibility => Some(PartV::Canary),
        PartV::Unpushed { .. } => Some(PartV::Canary),
        PartV::Canary => None,
    }
}

pub fn first(s: &State) -> (p: Part)
    ensures
        p@ == first_part(s@),
{
    match &s.token_value {
        Some(_) => Part::Push,
        None => Part::Untokened,
    }
}

impl Part {
    pub fn next(&self, c: &Run, k: &Known, os: &Vec<Outcome>) -> (m: Move<Body>)
        ensures
            m@ == part_move(self@, c@, k@, outcomes(os@)),
    {
        match self {
            Part::Untokened => without_token(os),
            Part::Push => run(c, k, os),
            Part::Manifest => manifest(c, k, os),
            Part::Tags => tags(c, k, os),
            Part::SharedLayer => shared_layer(k, os),
            Part::Visibility => visibility(k, os),
            Part::Unpushed { why } => skip_after_push(why.as_str(), os),
            Part::Canary => canary(c, os),
        }
    }

    pub fn after(&self, os: &Vec<Outcome>) -> (r: Option<Part>)
        ensures
            (match r {
                Some(p) => Some(p@),
                None => None,
            }) == next_part(self@, outcomes(os@)),
    {
        match self {
            Part::Untokened => Some(Part::Canary),
            Part::Push => match push(os) {
                Some(why) => Some(Part::Unpushed { why }),
                None => Some(Part::Manifest),
            },
            Part::Manifest => Some(Part::Tags),
            Part::Tags => Some(Part::SharedLayer),
            Part::SharedLayer => Some(Part::Visibility),
            Part::Visibility => Some(Part::Canary),
            Part::Unpushed { .. } => Some(Part::Canary),
            Part::Canary => None,
        }
    }
}

/// The stage's ids, in order.
pub open spec fn ids() -> Seq<Seq<char>> {
    seq!["reg.token.p95"@, "reg.push.ok"@, AFTER_PUSH[0]@, AFTER_PUSH[1]@, AFTER_PUSH[2]@, AFTER_PUSH[3]@, "reg.canary"@]
}

/// The ids a part owes.
pub open spec fn ids_of(p: PartV) -> Seq<Seq<char>> {
    match p {
        PartV::Untokened => seq!["reg.token.p95"@, "reg.push.ok"@, AFTER_PUSH[0]@, AFTER_PUSH[1]@, AFTER_PUSH[2]@, AFTER_PUSH[3]@],
        PartV::Push => seq!["reg.token.p95"@, "reg.push.ok"@],
        PartV::Manifest => seq![AFTER_PUSH[0]@],
        PartV::Tags => seq![AFTER_PUSH[1]@],
        PartV::SharedLayer => seq![AFTER_PUSH[2]@],
        PartV::Visibility => seq![AFTER_PUSH[3]@],
        PartV::Unpushed { .. } => seq![AFTER_PUSH[0]@, AFTER_PUSH[1]@, AFTER_PUSH[2]@, AFTER_PUSH[3]@],
        PartV::Canary => seq!["reg.canary"@],
    }
}

/// What is owed from a part on, where `os` is how the moves up to the push went.
pub open spec fn owed_from(p: PartV, os: Seq<OutcomeV>) -> Seq<Seq<char>>
    decreases steps_left(p),
{
    match next_part(p, os) {
        Some(next) => ids_of(p) + owed_from(next, os),
        None => ids_of(p),
    }
}

/// How many parts can stand behind one.
pub open spec fn steps_left(p: PartV) -> nat {
    match p {
        PartV::Push => 5,
        PartV::Manifest => 4,
        PartV::Tags => 3,
        PartV::SharedLayer => 2,
        PartV::Untokened | PartV::Visibility | PartV::Unpushed { .. } => 1,
        PartV::Canary => 0,
    }
}

/// Every part reports each id it owes exactly once, in order. The one part that can end before that
/// is the push: a layout that could not be built leaves no push to report.
pub proof fn law_every_part_reports_what_it_owes(p: PartV, c: RunV, k: KnownV, os: Seq<OutcomeV>)
    requires
        p is Push ==> os.len() > 1 && passed(os[1]),
    ensures
        reports_exactly(|o: Seq<OutcomeV>| part_move(p, c, k, o), os, ids_of(p), 6),
    decreases os.len(),
{
    reveal_with_fuel(reports, 7);
    if os.len() > 6 || (os.len() > 3 && !(p is Untokened)) {
        law_every_part_reports_what_it_owes(p, c, k, os.drop_last());
    }
}

/// With or without a credential, and whether the push worked or not, the stage owes the same ids in
/// the same order, and ends with the canary.
pub proof fn law_no_id_is_left_out(s: StateV, os: Seq<OutcomeV>)
    ensures
        owed_from(first_part(s), os) =~= ids(),
{
    reveal_with_fuel(owed_from, 6);
}

/// The two waits for a tag share one budget: however long the first took, both together are given
/// no more than the bound.
pub proof fn law_the_tag_waits_share_one_budget(first_came: u64)
    ensures
        less(TAGS_CAP_MS, first_came) + (if first_came < TAGS_CAP_MS { first_came } else { TAGS_CAP_MS }) == TAGS_CAP_MS,
{
}

/// What a part leaves for the next stage: the two images, once they are pushed.
pub open spec fn left(s: StateV, p: PartV, k: KnownV, os: Seq<OutcomeV>) -> StateV {
    if p is Push && unpushed(os) is None { StateV { image: Some(k.a), sibling_image: Some(k.b), ..s } } else { s }
}

pub fn leaves(s: &State, p: &Part, k: &Known, os: &Vec<Outcome>) -> (t: State)
    ensures
        t@ == left(s@, p@, k@, outcomes(os@)),
{
    let mut t = s.copy();
    if let Part::Push = p {
        if push(os).is_none() {
            t.image = Some(k.a.clone());
            t.sibling_image = Some(k.b.clone());
        }
    }
    t
}

} // verus!
