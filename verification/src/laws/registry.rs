//! Of the registry: a token, two images that share a layer, tags, visibility and the canary.

use vstd::prelude::*;

use crate::json::{Doc, member, rows_of, text_of};
use crate::laws::{came, doc_in, waits_until, went_well};
use crate::outside::{base64_text, sha256_hex};
use crate::run::{RunV, StateV, api_at, tmp_at};
use crate::stages::registry::{
    BodyV, KnownV, PartV, base_of, blobs_dir, body_found, body_next, canary_asks, canary_move, first_part, host_of, layout_asks, manifest_move,
    next_part, pulled_blob, run_move, sha256_of, shared_layer_move, tags_move, urlencoded, visibility_move, without_all,
};
use crate::text::{no_slash, starts};
use crate::turn::{MoveV, OutcomeV, passed, passed_with};
use crate::wire::{AskV, CraneOpV, LogV, NextV, ReplyV, Verb, posting};

verus! {

/// A layer is survived exactly where the sibling was deleted, the other image still pulls, and the bytes under the layer's
/// own digest, in the image that was pulled, have just that digest.
pub proof fn law_a_shared_layer_comes_back_as_it_was(c: RunV, a: Seq<char>, b: Seq<char>, layer: Seq<char>, log: LogV)
    ensures
        ({
            let n = body_next(c, BodyV::SharedLayer { a, b, layer }, log);
            let rs = log.rs;
            &&& n is Pass <==> {
                &&& rs.len() > 3
                &&& went_well(rs[0]) && rs[2] is Said
                &&& rs[3] matches ReplyV::Bytes(got) && "sha256:"@ + sha256_hex(got) == layer
            }
            &&& rs.len() == 0 ==> n == NextV::Ask(
                posting(api_at(c, "/api/"@ + c.tenant + "/"@ + b + "/imagedelete"@), c.probe_jwt, Doc::Null),
            )
            &&& rs.len() == 2 && n is Ask ==> n == NextV::Ask(
                AskV::Crane {
                    config: tmp_at(c, "docker"@),
                    op: CraneOpV::Pull { reference: host_of(c) + "/"@ + c.tenant + "/"@ + a + ":latest"@, dest: tmp_at(c, "pull-a"@) },
                },
            )
            &&& rs.len() == 3 && n is Ask ==> n == NextV::Ask(
                AskV::ReadBytes { path: crate::run::joined_path(blobs_dir(tmp_at(c, "pull-a"@)), without_all(layer, "sha256:"@)) },
            )
        }),
{
}

/// Whatever comes back, bytes with another digest are never taken for the layer.
pub proof fn law_other_bytes_are_another_layer(c: RunV, a: Seq<char>, b: Seq<char>, layer: Seq<u8>, got: Seq<u8>, log: LogV)
    requires
        log.rs.len() == 4,
        log.rs[3] == ReplyV::Bytes(got),
        sha256_hex(got) != sha256_hex(layer),
    ensures
        !(body_next(c, BodyV::SharedLayer { a, b, layer: sha256_of(layer) }, log) is Pass),
{
    let p = "sha256:"@;
    if p + sha256_hex(got) == p + sha256_hex(layer) {
        assert((p + sha256_hex(got)).skip(p.len() as int) =~= sha256_hex(got));
        assert((p + sha256_hex(layer)).skip(p.len() as int) =~= sha256_hex(layer));
    }
}

/// The blob of a digest is kept under the digest's own letters.
pub proof fn law_a_blob_is_kept_under_its_digest(dest: Seq<char>, layer: Seq<u8>)
    requires
        !starts(sha256_hex(layer), "sha256:"@),
    ensures
        pulled_blob(dest, sha256_of(layer)) == crate::run::joined_path(blobs_dir(dest), sha256_hex(layer)),
{
    reveal_strlit("sha256:");
    let p = "sha256:"@;
    let s = p + sha256_hex(layer);
    assert(s.subrange(0, p.len() as int) =~= p);
    assert(s.skip(p.len() as int) =~= sha256_hex(layer));
    reveal_with_fuel(without_all, 3);
}

/// A bearer is had exactly where the token endpoint answered well with one; it is asked for with the run's own credential,
/// and for just the scope.
pub proof fn law_a_bearer_is_asked_for_with_the_runs_own_token(c: RunV, secret: Seq<char>, scope: Seq<char>, image: Seq<char>, t: Seq<char>, log: LogV)
    ensures
        ({
            let n = body_next(c, BodyV::Bearer { secret, scope }, log);
            let rs = log.rs;
            &&& rs.len() == 0 ==> (n matches NextV::Ask(AskV::Call { verb, url, auth, .. }) && verb == Verb::Get && url == base_of(c)
                + "/v2/token?service="@ + host_of(c) + "&scope="@ + urlencoded(scope) && auth == "Basic "@ + base64_text(
                c.tenant + ":"@ + secret,
            ))
            &&& n is Pass <==> rs.len() > 0 && went_well(rs[0]) && (text_of(doc_in(rs[0]), "token"@) matches Some(t) && t.len() > 0)
            &&& n is Pass ==> body_found(BodyV::Bearer { secret, scope }, log) == text_of(doc_in(rs[0]), "token"@)
            &&& body_next(c, BodyV::Token { secret, image }, log) == body_next(
                c, BodyV::Bearer { secret, scope: "repository:"@ + c.tenant + "/"@ + image + ":pull,push"@ }, log,
            )
        }),
{
}

/// Both images are pushed exactly where the login and both pushes were done, each under its own name.
pub proof fn law_both_images_are_pushed(c: RunV, secret: Seq<char>, a: Seq<char>, b: Seq<char>, log: LogV)
    ensures
        ({
            let n = body_next(c, BodyV::Push { secret, a, b }, log);
            let rs = log.rs;
            &&& n is Pass <==> rs.len() > 2 && rs[0] is Said && rs[1] is Said && rs[2] is Said
            &&& rs.len() == 0 ==> (n matches NextV::Ask(AskV::Crane { op, .. }) && op == (CraneOpV::Login {
                host: host_of(c), user: c.tenant, secret,
            }))
            &&& rs.len() == 1 && n is Ask ==> (n matches NextV::Ask(AskV::Crane { op, .. }) && op == (CraneOpV::Push {
                dir: tmp_at(c, "img-a"@), reference: host_of(c) + "/"@ + c.tenant + "/"@ + a + ":latest"@,
            }))
            &&& rs.len() == 2 && n is Ask ==> (n matches NextV::Ask(AskV::Crane { op, .. }) && op == (CraneOpV::Push {
                dir: tmp_at(c, "img-b"@), reference: host_of(c) + "/"@ + c.tenant + "/"@ + b + ":latest"@,
            }))
        }),
{
}

/// Both layouts are built exactly where each of their files was written; the first into each is the layer.
pub proof fn law_both_layouts_are_written(c: RunV, layer: Seq<u8>, a: Seq<char>, b: Seq<char>, log: LogV)
    ensures
        ({
            let n = body_next(c, BodyV::Build { layer, a, b }, log);
            let rs = log.rs;
            &&& n is Pass <==> forall|i: int| 0 <= i < 12 ==> i < rs.len() && (#[trigger] rs[i]) is Said
            &&& rs.len() == 1 && rs[0] is Said ==> n == NextV::Ask(
                AskV::WriteBytes { path: crate::run::joined_path(blobs_dir(tmp_at(c, "img-a"@)), sha256_hex(layer)), bytes: layer },
            )
            &&& rs.len() == 7 && (forall|i: int| 0 <= i < 7 ==> (#[trigger] rs[i]) is Said) ==> n == NextV::Ask(
                AskV::WriteBytes { path: crate::run::joined_path(blobs_dir(tmp_at(c, "img-b"@)), sha256_hex(layer)), bytes: layer },
            )
            &&& body_found(BodyV::Build { layer, a, b }, log) == Some("sha256:"@ + sha256_hex(layer))
        }),
{
    let asks = layout_asks(tmp_at(c, "img-a"@), layer, a, "could not build image a"@) + layout_asks(
        tmp_at(c, "img-b"@), layer, b, "could not build image b"@,
    );
    assert(asks.len() == 12);
    crate::laws::basics::law_asks_in_turn_are_all_made(asks, log.rs, 0);
    assert(asks[1].0 == (AskV::WriteBytes {
        path: crate::run::joined_path(blobs_dir(tmp_at(c, "img-a"@)), sha256_hex(layer)), bytes: layer,
    }));
    assert(asks[7].0 == (AskV::WriteBytes {
        path: crate::run::joined_path(blobs_dir(tmp_at(c, "img-b"@)), sha256_hex(layer)), bytes: layer,
    }));
}

/// A manifest is had exactly where it was answered well; a tag is visible exactly where it came into the image's own list
/// and the image into the catalogue, both within the five seconds.
pub proof fn law_a_tag_is_in_the_list_and_in_the_catalogue(c: RunV, bearer: Seq<char>, image: Seq<char>, log: LogV)
    requires
        bearer.len() > 0,
    ensures
        ({
            let n = body_next(c, BodyV::Manifest { bearer, image }, log);
            &&& log.rs.len() == 0 ==> (n matches NextV::Ask(AskV::Call { verb, url, auth, .. }) && verb == Verb::Get && url == base_of(c)
                + "/v2/"@ + c.tenant + "/"@ + image + "/manifests/latest"@ && auth == "Bearer "@ + bearer)
            &&& n is Pass <==> log.rs.len() > 0 && went_well(log.rs[0])
        }),
        ({
            let n = body_next(c, BodyV::Tags { bearer, image }, log);
            let rs = log.rs;
            let took: u64 = if log.at.len() > 0 { log.at[0] } else { 0 };
            &&& n is Pass <==> rs.len() > 1 && came(rs[0]) && came(rs[1])
            &&& rs.len() == 0 ==> waits_until(
                n, base_of(c) + "/v2/"@ + c.tenant + "/"@ + image + "/tags/list"@, bearer, 5_000, |d: Doc| lists(d, "tags"@, "latest"@),
            )
            &&& rs.len() == 1 && came(rs[0]) ==> waits_until(
                n, base_of(c) + "/v2/_catalog"@, bearer, if took < 5_000 { (5_000 - took) as u64 } else { 0 },
                |d: Doc| lists(d, "repositories"@, c.tenant + "/"@ + image),
            )
        }),
{
    assert forall|d: Doc, f: Seq<char>, t: Seq<char>| #[trigger] lists(d, f, t) == crate::stages::registry::held(d, f, t) by {
        crate::laws::basics::law_some_row_is_one_of_them(rows_of(member(d, f)), t, t, t, t);
    }
}

/// The list in the field has the text.
pub open spec fn lists(d: Doc, field: Seq<char>, t: Seq<char>) -> bool {
    exists|i: int| 0 <= i < rows_of(member(d, field)).len() && #[trigger] rows_of(member(d, field))[i] == Doc::Str(t)
}

/// An image's visibility is right exactly where an anonymous pull of the private one failed, it was made public, an anonymous
/// pull then worked, and it was made private again.
pub proof fn law_private_refuses_and_public_admits(c: RunV, image: Seq<char>, log: LogV)
    ensures
        ({
            let n = body_next(c, BodyV::Visibility { image }, log);
            let rs = log.rs;
            let reference = host_of(c) + "/"@ + c.tenant + "/"@ + image + ":latest"@;
            let pull = AskV::Crane {
                config: tmp_at(c, "docker-anon"@), op: CraneOpV::Pull { reference, dest: tmp_at(c, "pull-anon"@) },
            };
            &&& n is Pass <==> {
                &&& rs.len() > 4 && log.us.len() > 0
                &&& !(rs[1] is Said) && went_well(rs[2]) && rs[4] is Said && went_well(log.us[0])
            }
            &&& rs.len() == 1 ==> n == NextV::Ask(pull)
            &&& rs.len() == 2 && n is Ask ==> n == NextV::Ask(
                posting(api_at(c, "/api/"@ + c.tenant + "/"@ + image + "/imagevisibility?visibility="@ + "public"@), c.probe_jwt, Doc::Null),
            )
            &&& rs.len() == 4 && n is Ask ==> n == NextV::Ask(pull)
            &&& n matches NextV::Undo(u) ==> u == posting(
                api_at(c, "/api/"@ + c.tenant + "/"@ + image + "/imagevisibility?visibility="@ + "private"@), c.probe_jwt, Doc::Null,
            )
        }),
{
}

/// The canary is well exactly where its digest is the pinned one; where it cannot be read it is pushed anew, with a credential
/// of its own.
pub proof fn law_the_canary_is_the_pinned_one(c: RunV, want: Seq<char>, log: LogV)
    ensures
        ({
            let n = body_next(c, BodyV::Canary { want }, log);
            let digest = AskV::Crane {
                config: tmp_at(c, "docker"@), op: CraneOpV::Digest { reference: host_of(c) + "/"@ + c.tenant + "/canary:latest"@ },
            };
            &&& log.rs.len() == 0 ==> (n matches NextV::Ask(AskV::Crane { op, .. }) && op == (CraneOpV::Digest {
                reference: host_of(c) + "/"@ + c.tenant + "/"@ + "canary"@ + ":latest"@,
            }))
            &&& n is Pass <==> log.rs.len() > 0 && log.rs[0] == ReplyV::Said(want)
        }),
        ({
            let n = body_next(c, BodyV::EnsureCanary, log);
            let rs = log.rs;
            &&& rs.len() == 0 ==> (n matches NextV::Ask(AskV::Crane { op, .. }) && op is Digest)
            &&& rs.len() > 0 && rs[0] is Said ==> n is Pass
            &&& n is Pass ==> rs.len() > 0 && (rs[0] is Said || {
                &&& rs.len() > 11 && went_well(rs[1]) && text_of(doc_in(rs[1]), "token"@) is Some
                &&& forall|i: int| 2 <= i < 12 ==> (#[trigger] rs[i]) is Said
            })
            &&& n matches NextV::Undo(u) ==> u == crate::wire::deleting(
                api_at(c, "/v1/tokens/"@ + text_of(doc_in(rs[1]), "_id"@)->0), c.probe_jwt,
            )
        }),
{
    let rs = log.rs;
    if rs.len() > 1 && !(rs[0] is Said) {
        let asks = canary_asks(c, text_of(doc_in(rs[1]), "token"@)->0);
        assert(asks.len() == 10);
        let rest = rs.skip(2);
        crate::laws::basics::law_asks_in_turn_are_all_made(asks, rest, 0);
        if body_next(c, BodyV::EnsureCanary, log) is Pass {
            assert(went_well(rs[1]) && text_of(doc_in(rs[1]), "token"@) is Some);
            assert(crate::reply::in_turn(asks, rest, 0) is Pass);
            assert(rest[9] is Said && 9 < rest.len());
            assert forall|i: int| 2 <= i < 12 implies (#[trigger] rs[i]) is Said by {
                assert(rest[i - 2] is Said);
            }
        }
    }
}

/// The registry is asked by url with a scheme, its own or else the secure one, and named in a reference without.
pub proof fn law_a_registry_has_one_scheme(c: RunV)
    ensures
        starts(base_of(c), "http://"@) || starts(base_of(c), "https://"@),
        starts(no_slash(c.registry), "http://"@) || starts(no_slash(c.registry), "https://"@) ==> base_of(c) == no_slash(c.registry),
{
    let r = no_slash(c.registry);
    let s = "https://"@;
    assert((s + r).subrange(0, s.len() as int) =~= s);
}

/// The stage is walked on its own two images and with its own credential; a part behind the push is walked only once both were
/// pushed, and the read behind a bearer only once there is one.
pub proof fn law_the_registry_stage_is_on_its_own_images(c: RunV, s: StateV, k: KnownV, os: Seq<OutcomeV>)
    ensures
        run_move(c, k, os) matches MoveV::Step { id, body, .. } ==> {
            ||| id == "reg.token.p95"@ && body == (BodyV::Token { secret: k.secret, image: k.a })
            ||| id == "reg.push.ok"@ && body == (BodyV::Push { secret: k.secret, a: k.a, b: k.b }) && passed(os[1])
        },
        run_move(c, k, os) matches MoveV::Look { body } ==> body == (BodyV::Build { layer: k.layer, a: k.a, b: k.b }),
        manifest_move(c, k, os) matches MoveV::Step { id, body, .. } ==> id == "reg.manifest.p95"@ && (body matches BodyV::Manifest {
            bearer, image,
        } && image == k.a && passed_with(os[0]) == Some(bearer)),
        tags_move(c, k, os) matches MoveV::Step { id, body, .. } ==> id == "reg.tags.visible"@ && (body matches BodyV::Tags { bearer, image }
            && image == k.a && passed_with(os[0]) == Some(bearer)),
        shared_layer_move(k, os) matches MoveV::Step { id, body, .. } ==> id == "reg.shared.layer"@ && body == (BodyV::SharedLayer {
            a: k.a, b: k.b, layer: k.digest,
        }),
        visibility_move(k, os) matches MoveV::Step { id, body, .. } ==> id == "reg.visibility"@ && body == (BodyV::Visibility { image: k.a }),
        canary_move(c, os) matches MoveV::Step { id, body, .. } ==> id == "reg.canary"@ && (body matches BodyV::Canary { want }
            && c.canary_digest == Some(want)),
        first_part(s) is Push <==> s.token_value is Some,
        next_part(PartV::Push, os) == Some(PartV::Manifest) <==> os.len() > 2 && passed(os[2]),
{
}

} // verus!
