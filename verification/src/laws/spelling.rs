//! Of how addresses, names and scripts are spelled, and of what is picked out of a listing.

use vstd::prelude::*;

use crate::json::{Doc, rows_of, text_of};
use crate::laws::{doc_in, went_well};
use crate::outside::debug_text;
use crate::run::{RunV, api_at, tmp_at};
use crate::stages::gaps::env_ns;
use crate::stages::gaps::surface;
use crate::stages::git;
use crate::stages::lifecycle;
use crate::stages::registry::urlencoded;
use crate::stages::teams::paused;
use crate::stages::trees;
use crate::stages::weekly;
use crate::text::{dec, holds, starts};
use crate::wire::ReplyV;

verus! {

/// A scope stands in a query as it is, but for the four characters that would split or end it.
pub proof fn law_a_scope_is_escaped_where_it_has_to_be(s: Seq<char>, ch: char)
    ensures
        urlencoded(Seq::empty()) == Seq::<char>::empty(),
        urlencoded(s.push(ch)) == urlencoded(s) + (if ch == ':' {
            "%3A"@
        } else if ch == ',' {
            "%2C"@
        } else if ch == '*' {
            "%2A"@
        } else if ch == ' ' {
            "+"@
        } else {
            seq![ch]
        }),
{
    assert(s.push(ch).drop_last() =~= s);
    assert(s.push(ch).last() == ch);
}

/// A repo is reached over ssh as the user git, on the run's own host and port, under its owner's name.
pub proof fn law_a_repo_has_one_address_over_ssh(c: RunV, name: Seq<char>, key: Seq<char>, hosts: Seq<char>)
    ensures
        git::ssh_at(c, name) == "ssh://git@"@ + c.ssh_host + ":"@ + dec(c.ssh_port as nat) + "/"@ + c.tenant + "/"@ + name + ".git"@,
        git::hosts_path(c) == tmp_at(c, "known_hosts"@),
        git::ssh_command_of(c, key, hosts) == "ssh -i "@ + key + " -o IdentitiesOnly=yes -o StrictHostKeyChecking=yes -o UserKnownHostsFile="@ + hosts
            + " -o BatchMode=yes -p "@ + dec(c.ssh_port as nat),
        git::ssh_env_of(c, key).len() == git::git_env_of(c).len() + 1,
        git::ssh_env_of(c, key).last() == ("GIT_SSH_COMMAND"@, key),
        git::ssh_env_of(c, key).drop_last() =~= git::git_env_of(c),
        git::git_env_of(c).contains(("GIT_AUTHOR_NAME"@, "kloudlite slo probe"@)) && git::git_env_of(c).contains(
            ("GIT_COMMITTER_NAME"@, "kloudlite slo probe"@),
        ) && git::git_env_of(c).contains(("GIT_CONFIG_GLOBAL"@, tmp_at(c, "gitconfig"@))),
{
    let env = git::git_env_of(c);
    assert(env[0] == ("GIT_AUTHOR_NAME"@, "kloudlite slo probe"@));
    assert(env[2] == ("GIT_COMMITTER_NAME"@, "kloudlite slo probe"@));
    assert(env[5] == ("GIT_CONFIG_GLOBAL"@, tmp_at(c, "gitconfig"@)));
}

/// An environment's namespace, a weekly image and a bench are each spelled from the one name they are of.
pub proof fn law_a_name_spells_its_address(c: RunV, id: Seq<char>, path: Seq<char>, script: Seq<char>)
    ensures
        env_ns(id) == "env-"@ + id,
        weekly::image_at(c, id) == crate::stages::registry::host_of(c) + "/"@ + c.probe_user + "/"@ + id + ":latest"@,
        paused::bench_at(c, path, id) == api_at(c, "/v1/bench"@ + path + "?team="@ + id),
        paused::canary_script(script)
            == "const w=process.env.HOME;if(!w){console.error(\"no HOME in the bench container\");process.exit(2)}const p=require(\"path\").join(w,"@
            + debug_text(paused::BENCH_SUBDIR@) + ",\".slo-canary\");"@ + script,
{
}

/// What is the run's own in a listing is what has an id and a name under the run's prefix, in the order of the listing; of one that
/// cannot be read nothing is.
pub proof fn law_the_runs_own_are_listed_under_its_prefix(prefix: Seq<char>, rows: Seq<Doc>, last: Doc, r: ReplyV)
    ensures
        lifecycle::prefixed_ids(Seq::empty(), prefix) == Seq::<Seq<char>>::empty(),
        lifecycle::prefixed_ids(rows.push(last), prefix) == (if text_of(last, "id"@) is Some && (text_of(last, "name"@) matches Some(n) && starts(
            n, prefix,
        )) {
            lifecycle::prefixed_ids(rows, prefix).push(text_of(last, "id"@)->0)
        } else {
            lifecycle::prefixed_ids(rows, prefix)
        }),
        went_well(r) ==> lifecycle::ours_in(prefix, r) == lifecycle::prefixed_ids(rows_of(Some(doc_in(r))), prefix),
        !went_well(r) ==> lifecycle::ours_in(prefix, r).len() == 0,
{
    assert(rows.push(last).drop_last() =~= rows);
    assert(rows.push(last).last() == last);
}

/// The texts of a list are its texts, in order, and what is no text is left out.
pub proof fn law_the_texts_of_a_list_are_its_texts(rows: Seq<Doc>, last: Doc)
    ensures
        trees::strings_in(Seq::empty()) == Seq::<Seq<char>>::empty(),
        trees::strings_in(rows.push(last)) == (match last {
            Doc::Str(t) => trees::strings_in(rows).push(t),
            _ => trees::strings_in(rows),
        }),
{
    assert(rows.push(last).drop_last() =~= rows);
    assert(rows.push(last).last() == last);
}

/// A team that there is not is answered where the tool did well, or failed in words that say so.
pub proof fn law_a_missing_team_is_said_to_be_missing(r: ReplyV)
    ensures
        r is Said ==> surface::team_unanswered(r) is None,
        r matches ReplyV::Lost(why) ==> (surface::team_unanswered(r) is None <==> holds(why, "no such team"@) || holds(why, "not a member"@)),
{
}

} // verus!
