//! Of the texts and documents that are handed over: an image's manifest, and a call of a tool.

use vstd::prelude::*;

use crate::json::{Doc, field_named, member, member2};
use crate::outside::json_text;
use crate::stages::monthly::nodes::label;
use crate::stages::monthly::older;
use crate::stages::registry::{config_bytes, config_doc, index_doc, manifest_bytes, manifest_doc, sha256_of};
use crate::stages::ws;

verus! {

/// The field `i` of an object is found under its name where none before it has that name.
proof fn lemma_field_at(fields: Seq<(Seq<char>, Doc)>, i: int)
    requires
        0 <= i < fields.len(),
        forall|j: int| 0 <= j < i ==> (#[trigger] fields[j]).0 != fields[i].0,
    ensures
        field_named(fields, fields[i].0) == Some(fields[i].1),
    decreases i,
{
    if i > 0 {
        let rest = fields.drop_first();
        assert(rest[i - 1] == fields[i]);
        assert forall|j: int| 0 <= j < i - 1 implies (#[trigger] rest[j]).0 != rest[i - 1].0 by {
            assert(rest[j] == fields[j + 1]);
        }
        lemma_field_at(rest, i - 1);
    }
}

/// A manifest gives its config's size and its layer's as the sizes of those very bytes, and says which kind each is of.
pub proof fn law_a_manifest_gives_the_size_of_each_blob(layer: Seq<u8>, image: Seq<char>)
    ensures
        ({
            let m = manifest_doc(layer, image);
            &&& member(m, "schemaVersion"@) == Some(Doc::Int(2))
            &&& member(m, "mediaType"@) == Some(Doc::Str("application/vnd.oci.image.manifest.v1+json"@))
            &&& member2(m, "config"@, "size"@) == Some(Doc::Int(config_bytes(layer, image).len() as int))
            &&& member2(m, "config"@, "mediaType"@) == Some(Doc::Str("application/vnd.oci.image.config.v1+json"@))
            &&& (member(m, "layers"@) matches Some(Doc::Arr(v)) && v.len() == 1 && member(v[0], "size"@) == Some(Doc::Int(layer.len() as int))
                && member(v[0], "mediaType"@) == Some(Doc::Str("application/vnd.oci.image.layer.v1.tar"@)))
        }),
{
    reveal_strlit("schemaVersion");
    reveal_strlit("mediaType");
    reveal_strlit("config");
    reveal_strlit("layers");
    reveal_strlit("digest");
    reveal_strlit("size");
    let f = manifest_doc(layer, image)->Obj_0;
    assert("config"@[0] != "layers"@[0]);
    assert(f[0].0.len() == 13 && f[1].0.len() == 9 && f[2].0.len() == 6 && f[3].0.len() == 6);
    lemma_field_at(f, 0);
    lemma_field_at(f, 1);
    lemma_field_at(f, 2);
    lemma_field_at(f, 3);
    let c = f[2].1->Obj_0;
    assert(c[0].0.len() == 9 && c[1].0.len() == 6 && c[2].0.len() == 4);
    lemma_field_at(c, 0);
    lemma_field_at(c, 2);
    let l = f[3].1->Arr_0[0]->Obj_0;
    assert(l[0].0.len() == 9 && l[1].0.len() == 6 && l[2].0.len() == 4);
    lemma_field_at(l, 0);
    lemma_field_at(l, 2);
}

/// A config says what it runs on, names its image, and lists the one layer by its digest.
pub proof fn law_a_config_names_its_image_and_its_layer(layer: Seq<u8>, image: Seq<char>)
    ensures
        ({
            let d = config_doc(layer, image);
            &&& member(d, "architecture"@) == Some(Doc::Str("amd64"@))
            &&& member(d, "os"@) == Some(Doc::Str("linux"@))
            &&& (member2(d, "config"@, "Labels"@) matches Some(labels) && member(labels, "io.kloudlite.slo"@) == Some(Doc::Str(image)))
            &&& member2(d, "rootfs"@, "type"@) == Some(Doc::Str("layers"@))
            &&& member2(d, "rootfs"@, "diff_ids"@) == Some(Doc::Arr(seq![Doc::Str(sha256_of(layer))]))
        }),
{
    reveal_strlit("architecture");
    reveal_strlit("config");
    reveal_strlit("os");
    reveal_strlit("rootfs");
    reveal_strlit("diff_ids");
    reveal_strlit("type");
    let f = config_doc(layer, image)->Obj_0;
    assert("config"@[0] != "rootfs"@[0]);
    assert(f[0].0.len() == 12 && f[1].0.len() == 6 && f[2].0.len() == 2 && f[3].0.len() == 6);
    lemma_field_at(f, 0);
    lemma_field_at(f, 1);
    lemma_field_at(f, 2);
    lemma_field_at(f, 3);
    let labels = f[1].1->Obj_0;
    lemma_field_at(labels, 0);
    lemma_field_at(labels[0].1->Obj_0, 0);
    let r = f[3].1->Obj_0;
    assert(r[0].0.len() == 8 && r[1].0.len() == 4);
    lemma_field_at(r, 0);
    lemma_field_at(r, 1);
}

/// An index gives its manifest's size, and tags it `latest`.
pub proof fn law_an_index_tags_its_manifest(layer: Seq<u8>, image: Seq<char>)
    ensures
        member(index_doc(layer, image), "manifests"@) matches Some(Doc::Arr(v)) && v.len() == 1 && member(v[0], "size"@) == Some(
            Doc::Int(manifest_bytes(layer, image).len() as int),
        ) && member(v[0], "mediaType"@) == Some(Doc::Str("application/vnd.oci.image.manifest.v1+json"@)) && member2(
            v[0], "annotations"@, "org.opencontainers.image.ref.name"@,
        ) == Some(Doc::Str("latest"@)),
{
    reveal_strlit("schemaVersion");
    reveal_strlit("mediaType");
    reveal_strlit("manifests");
    reveal_strlit("digest");
    reveal_strlit("size");
    reveal_strlit("annotations");
    let f = index_doc(layer, image)->Obj_0;
    assert(f[0].0.len() == 13 && f[1].0.len() == 9 && f[2].0.len() == 9);
    assert("mediaType"@[1] != "manifests"@[1]);
    lemma_field_at(f, 2);
    let one = f[2].1->Arr_0[0]->Obj_0;
    assert(one[0].0.len() == 9 && one[1].0.len() == 6 && one[2].0.len() == 4 && one[3].0.len() == 11);
    lemma_field_at(one, 0);
    lemma_field_at(one, 2);
    lemma_field_at(one, 3);
    lemma_field_at(one[3].1->Obj_0, 0);
}

/// Inside single quotes every character stands for itself, but a quote: it ends the quotes, stands escaped, and opens them again.
pub proof fn law_a_quoted_text_is_read_back_by_a_shell(a: Seq<char>, b: Seq<char>, ch: char)
    ensures
        ws::quoted(seq![]) == Seq::<char>::empty(),
        ws::quoted(seq!['\'']) == seq!['\'', '\\', '\'', '\''],
        ch != '\'' ==> ws::quoted(seq![ch]) == seq![ch],
        ws::quoted(a + b) == ws::quoted(a) + ws::quoted(b),
    decreases b.len(),
{
    reveal_strlit("'\\''");
    assert("'\\''"@ =~= seq!['\'', '\\', '\'', '\'']);
    assert(seq!['\''].drop_last() =~= Seq::<char>::empty());
    assert(seq![ch].drop_last() =~= Seq::<char>::empty());
    reveal_with_fuel(ws::quoted, 2);
    if b.len() == 0 {
        assert(a + b =~= a);
        assert(ws::quoted(a) + ws::quoted(b) =~= ws::quoted(a));
    } else {
        assert((a + b).drop_last() =~= a + b.drop_last());
        assert((a + b).last() == b.last());
        law_a_quoted_text_is_read_back_by_a_shell(a, b.drop_last(), ch);
        assert((ws::quoted(a) + ws::quoted(b.drop_last())) + ws::quoted_char(b.last()) =~= ws::quoted(a) + (ws::quoted(b.drop_last())
            + ws::quoted_char(b.last())));
    }
}

/// A call of a tool names the tool, carries the pod's token and the quoted arguments, and prints the status before the answer.
pub proof fn law_a_tool_is_called_with_its_arguments(tool: Seq<char>, args: Doc)
    ensures
        ({
            let before = "curl -s -o /tmp/kl-tool.out -w '%{http_code}' -X POST http://127.0.0.1:7788/tools/"@ + tool
                + " -H 'content-type: application/json' -H \"authorization: Bearer $(cat "@ + ws::WS_TOKEN_FILE@ + ")\" -d '"@;
            ws::tool_script(tool, args) == before + ws::quoted(json_text(args)) + "'; echo; cat /tmp/kl-tool.out"@
        }),
{
}

/// A node of the older fleet has a role where it is labelled for sessions or for environments, and else none.
pub proof fn law_a_node_of_either_role_is_one(d: Doc)
    ensures
        older::has_role(d) <==> label(d, "kloudlite.io/session"@) == Some("true"@) || label(d, "kloudlite.io/env"@) == Some("true"@),
{
}

} // verus!
