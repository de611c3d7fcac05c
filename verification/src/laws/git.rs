//! Of the git and identity stages: who the run is, and what it pushes, clones and shows.

use vstd::prelude::*;

use crate::json::{Doc, row_named, rows_of, text_of};
use crate::laws::{came, doc_in, waits_until, went_well};
use crate::run::{RunV, StateV, api_at, tmp_at};
use crate::stages::git;
use crate::stages::git::{
    KnownV, PartV, Pin, authed_args, browse_move, git_asks, hosts_path, http_remote, known_after, known_first, oid_in, opening_move, part_move,
    parts_after, pin_of, ssh_at, ssh_clone_move, ssh_command_of, ssh_env_of, unregistered_move, work_tree,
};
use crate::stages::identity;
use crate::text::{dec, holds, no_slash, starts, trimmed, words_of};
use crate::turn::{MoveV, OutcomeV, failure};
use crate::wire::{AskV, LogV, NextV, Program, ReplyV, getting, patching, posting};

verus! {

/// A repo is made private, and under the run's own name; it is pushed to exactly where each step of that was done, the last
/// of them the push of the branch with the run's own token.
pub proof fn law_a_push_is_done_step_by_step(c: RunV, name: Seq<char>, log: LogV)
    ensures
        ({
            let n = git::body_next(c, git::BodyV::Create { name }, log);
            &&& log.rs.len() == 0 ==> n == NextV::Ask(
                posting(
                    api_at(c, "/v1/repos"@), c.probe_jwt,
                    Doc::Obj(seq![("owner"@, Doc::Str(c.tenant)), ("name"@, Doc::Str(name)), ("visibility"@, Doc::Str("private"@))]),
                ),
            )
            &&& n is Pass <==> log.rs.len() > 0 && went_well(log.rs[0])
        }),
        ({
            let n = git::body_next(c, git::BodyV::PushBase { name }, log);
            let rs = log.rs;
            &&& n is Pass <==> rs.len() > 5 && rs[0] is Said && rs[1] is Said && rs[2] is Said && rs[3] is Said && rs[4] is Said && rs[5] is Said
            &&& rs.len() == 5 && n is Ask ==> n == NextV::Ask(
                git_asks(c, authed_args(c, seq!["push"@, "-q"@, http_remote(c, c.tenant, name), "main"@]), work_tree(c, name)),
            )
            &&& n is Ask ==> rs.len() < 6
        }),
        ({
            let n = git::body_next(c, git::BodyV::PushHead { name }, log);
            let rs = log.rs;
            &&& n is Pass <==> rs.len() > 4 && rs[0] is Said && rs[1] is Said && rs[2] is Said && rs[3] is Said && rs[4] is Said
            &&& rs.len() == 0 ==> n == NextV::Ask(git_asks(c, seq!["checkout"@, "-q"@, "-b"@, "slo"@], work_tree(c, name)))
            &&& rs.len() == 4 && n is Ask ==> n == NextV::Ask(
                git_asks(c, authed_args(c, seq!["push"@, "-q"@, http_remote(c, c.tenant, name), "slo"@]), work_tree(c, name)),
            )
        }),
        ({
            let n = git::body_next(c, git::BodyV::RevParse { name }, log);
            &&& log.rs.len() == 0 ==> n == NextV::Ask(git_asks(c, seq!["rev-parse"@, "main"@], work_tree(c, name)))
            &&& n is Pass <==> log.rs.len() > 0 && log.rs[0] is Said
            &&& log.rs.len() > 0 ==> (log.rs[0] matches ReplyV::Said(t) ==> git::body_found(git::BodyV::RevParse { name }, log) == Some(trimmed(t)))
        }),
{
}

/// Git runs with the run's own token, in its own environment, and never asks anybody.
pub proof fn law_git_carries_the_runs_own_token(c: RunV, rest: Seq<Seq<char>>, argv: Seq<Seq<char>>, dir: Seq<char>)
    ensures
        authed_args(c, rest) == seq!["-c"@, "http.extraHeader=Authorization: Bearer "@ + c.probe_jwt] + rest,
        git_asks(c, argv, dir) matches AskV::Tool { program, argv: a, env, dir: d, bound_ms } && program == Program::Git && a == argv && d == dir
            && bound_ms == 60_000 && env.contains(("GIT_TERMINAL_PROMPT"@, "0"@)) && env.contains(("GIT_CONFIG_SYSTEM"@, "/dev/null"@)) && env.contains(
            ("GIT_AUTHOR_EMAIL"@, c.git_email),
        ) && env.contains(("GIT_COMMITTER_EMAIL"@, c.git_email)),
        http_remote(c, rest[0], rest[1]) == no_slash(c.git_url) + "/"@ + rest[0] + "/"@ + rest[1] + ".git"@,
{
    let env = git::git_env_of(c);
    assert(env[4] == ("GIT_TERMINAL_PROMPT"@, "0"@));
    assert(env[6] == ("GIT_CONFIG_SYSTEM"@, "/dev/null"@));
    assert(env[1] == ("GIT_AUTHOR_EMAIL"@, c.git_email));
    assert(env[3] == ("GIT_COMMITTER_EMAIL"@, c.git_email));
}

/// A clone is done exactly where git did it: over http with the token, over ssh with the registered key, and with a host
/// that is checked against the pinned one.
pub proof fn law_a_clone_is_gits_own_word(c: RunV, name: Seq<char>, into: Seq<char>, log: LogV)
    ensures
        ({
            let n = git::body_next(c, git::BodyV::CloneHttp { name, into }, log);
            let rs = log.rs;
            &&& n is Pass <==> rs.len() > 1 && rs[1] is Said
            &&& rs.len() == 1 ==> n == NextV::Ask(
                git_asks(c, authed_args(c, seq!["clone"@, "-q"@, http_remote(c, c.tenant, name), tmp_at(c, into)]), seq![]),
            )
        }),
        ({
            let n = git::body_next(c, git::BodyV::SshClone { name }, log);
            let rs = log.rs;
            &&& n is Pass <==> rs.len() > 1 && rs[1] is Said
            &&& rs.len() == 1 ==> (n matches NextV::Ask(AskV::Tool { program, argv, env, .. }) && program == Program::Git && argv
                == seq!["clone"@, "-q"@, ssh_at(c, name), tmp_at(c, "clone-ssh"@)] && env.last() == ("GIT_SSH_COMMAND"@, "ssh -i "@
                + c.ssh_key_path + " -o IdentitiesOnly=yes -o StrictHostKeyChecking=yes -o UserKnownHostsFile="@ + tmp_at(c, "known_hosts"@)
                + " -o BatchMode=yes -p "@ + dec(c.ssh_port as nat)))
        }),
{
}

/// An unregistered key is refused exactly where git fails saying that permission was denied: to read is a failure, and so is
/// any other trouble.
pub proof fn law_an_unregistered_key_is_denied(c: RunV, name: Seq<char>, log: LogV)
    ensures
        ({
            let n = git::body_next(c, git::BodyV::Unregistered { name }, log);
            let rs = log.rs;
            &&& rs.len() > 0 && rs[0] is Said ==> n is Fail
            &&& rs.len() > 0 ==> (rs[0] matches ReplyV::Lost(why) ==> (n is Pass <==> holds(why, "Permission denied"@)))
            &&& rs.len() == 0 ==> (n matches NextV::Ask(AskV::Tool { argv, env, .. }) && argv == seq!["ls-remote"@, ssh_at(c, name)] && env
                == ssh_env_of(c, ssh_command_of(c, tmp_at(c, "unregistered"@), hosts_path(c))))
        }),
        ({
            let n = git::body_next(c, git::BodyV::Throwaway, log);
            &&& n is Pass <==> log.rs.len() > 2 && log.rs[2] is Said
            &&& log.rs.len() == 2 ==> (n matches NextV::Ask(AskV::Tool { program, argv, .. }) && program == Program::SshKeygen && argv.last()
                == tmp_at(c, "unregistered"@))
        }),
{
}

/// The served host key is the pinned one exactly where it is: a fingerprint is a word of the served keys' fingerprints, and a
/// key's long word stands in what was served.
pub proof fn law_the_served_host_key_is_the_pinned_one(c: RunV, log: LogV)
    ensures
        ({
            let n = git::body_next(c, git::BodyV::HostKey, log);
            let rs = log.rs;
            let pin = trimmed(c.ssh_hostkey);
            &&& rs.len() == 0 ==> (n matches NextV::Ask(AskV::Tool { program, argv, .. }) && program == Program::SshKeyscan && argv
                == seq!["-p"@, dec(c.ssh_port as nat), c.ssh_host])
            &&& starts(pin, "SHA256:"@) ==> (n is Pass <==> rs.len() > 2 && rs[0] is Said && rs[1] is Said && (rs[2] matches ReplyV::Said(t)
                && words_of(t).contains(pin)))
            &&& !starts(pin, "SHA256:"@) ==> (n is Pass <==> rs.len() > 0 && (rs[0] matches ReplyV::Said(t) && exists|i: int|
                0 <= i < words_of(pin).len() && vstd::utf8::encode_utf8(#[trigger] words_of(pin)[i]).len() > 40 && holds(t, words_of(pin)[i])))
            &&& rs.len() == 1 && n is Ask ==> (n matches NextV::Ask(AskV::Write { text, .. }) && rs[0] == ReplyV::Said(text))
        }),
{
    let pin = trimmed(c.ssh_hostkey);
    if log.rs.len() > 0 {
        if let ReplyV::Said(t) = log.rs[0] {
            assert forall|i: int|
                0 <= i < words_of(pin).len() && vstd::utf8::encode_utf8(#[trigger] words_of(pin)[i]).len() > 40 && holds(t, words_of(pin)[i]) implies git::blob_served(
                pin, t,
            ) by {
                assert(git::long_word(words_of(pin)[i]));
            }
        }
    }
}

/// The known hosts are written from the pin: a bare key behind the host, a line as it is, and only where the pin is a
/// fingerprint, from what is served; without a pin nothing is.
pub proof fn law_known_hosts_come_from_the_pin(c: RunV, log: LogV)
    ensures
        ({
            let n = git::body_next(c, git::BodyV::KnownHosts, log);
            let rs = log.rs;
            let pin = trimmed(c.ssh_hostkey);
            &&& pin.len() == 0 ==> n is Fail
            &&& pin.len() > 0 && !starts(pin, "SHA256:"@) ==> {
                &&& n is Pass <==> rs.len() > 0 && rs[0] is Said
                &&& rs.len() == 0 ==> (n matches NextV::Ask(AskV::Write { path, text }) && path == tmp_at(c, "known_hosts"@) && text == (
                if pin_of(pin) == Pin::Key {
                    (if c.ssh_port == 22 { c.ssh_host } else { "["@ + c.ssh_host + "]:"@ + dec(c.ssh_port as nat) }) + " "@ + pin + "\n"@
                } else {
                    pin + "\n"@
                }))
            }
            &&& pin.len() > 0 && starts(pin, "SHA256:"@) ==> {
                &&& n is Pass <==> rs.len() > 1 && rs[0] is Said && rs[1] is Said
                &&& rs.len() == 1 && n is Ask ==> (n matches NextV::Ask(AskV::Write { text, .. }) && rs[0] == ReplyV::Said(text))
            }
        }),
{
}

/// A pin is a fingerprint, a line with an algorithm for its second word, a key that begins with one, or else a line.
pub proof fn law_a_pin_is_told_by_its_words(pin: Seq<char>)
    ensures
        pin_of(pin) == Pin::Fingerprint <==> starts(pin, "SHA256:"@),
        !starts(pin, "SHA256:"@) && words_of(pin).len() > 1 && (starts(words_of(pin)[1], "ssh-"@) || starts(words_of(pin)[1], "ecdsa-"@)
            || starts(words_of(pin)[1], "sk-"@)) ==> pin_of(pin) == Pin::Line,
        pin_of(pin) == Pin::Key ==> starts(pin, "ssh-"@) || starts(pin, "ecdsa-"@) || starts(pin, "sk-"@),
        words_of(pin).len() <= 1 && starts(pin, "ssh-"@) && !starts(pin, "SHA256:"@) ==> pin_of(pin) == Pin::Key,
{
}

/// A commit is visible exactly where the refs came to show the base branch at it; the tree at it is then read; and the page is
/// right where it carries the repo's files, with the repo made private again.
pub proof fn law_a_commit_is_seen_where_it_was_pushed(c: RunV, name: Seq<char>, head: Seq<char>, log: LogV)
    ensures
        ({
            let n = git::body_next(c, git::BodyV::Visible { name, head }, log);
            &&& log.rs.len() == 0 ==> waits_until(
                n, api_at(c, "/api/"@ + c.tenant + "/"@ + name + "/refs"@), c.probe_jwt, 20_000, |d: Doc| oid_in(d, "main"@) == Some(head),
            )
            &&& n is Pass <==> log.rs.len() > 0 && came(log.rs[0])
        }),
        ({
            let n = git::body_next(c, git::BodyV::TreePage { name, head }, log);
            &&& log.rs.len() == 0 ==> n == NextV::Ask(
                getting(api_at(c, "/api/"@ + c.tenant + "/"@ + name + ("/tree/"@ + head)), c.probe_jwt),
            )
            &&& n is Pass <==> log.rs.len() > 0 && went_well(log.rs[0])
        }),
        ({
            let n = git::body_next(c, git::BodyV::WebPage { name }, log);
            let rs = log.rs;
            &&& n is Pass <==> rs.len() > 2 && went_well(rs[0]) && went_well(rs[1]) && went_well(rs[2]) && (rs[1] matches ReplyV::Answer {
                text, ..
            } && holds(text, "README.md"@))
            &&& rs.len() == 0 ==> n == NextV::Ask(
                patching(
                    api_at(c, "/v1/repos/"@ + c.tenant + "/"@ + name + ""@), c.probe_jwt, Doc::Obj(seq![("visibility"@, Doc::Str("public"@))]),
                ),
            )
            &&& rs.len() == 1 && went_well(rs[0]) ==> (n matches NextV::Ask(AskV::Call { url, auth, .. }) && url == no_slash(c.web_url) + "/"@
                + c.tenant + "/"@ + name && auth.len() == 0)
            &&& rs.len() == 2 && went_well(rs[0]) ==> n == NextV::Ask(
                patching(
                    api_at(c, "/v1/repos/"@ + c.tenant + "/"@ + name + ""@), c.probe_jwt, Doc::Obj(seq![("visibility"@, Doc::Str("private"@))]),
                ),
            )
        }),
{
    reveal_strlit("");
    assert(""@.len() == 0);
}

/// A branch's commit is the one of the row with just its full name.
pub proof fn law_a_branch_is_at_the_commit_of_its_row(d: Doc, branch: Seq<char>, oid: Seq<char>)
    ensures
        oid_in(d, branch) == Some(oid) <==> (row_named(rows_of(Some(d)), "name"@, "refs/heads/"@ + branch) matches Some(row) && text_of(
            row, "oid"@,
        ) == Some(oid)),
{
}

/// One token is taken by all three tiers exactly where each of them did what was asked with it.
pub proof fn law_one_token_is_taken_by_every_tier(c: RunV, name: Seq<char>, log: LogV)
    ensures
        ({
            let n = git::body_next(c, git::BodyV::Tiers { name }, log);
            let rs = log.rs;
            &&& n is Pass <==> rs.len() > 2 && went_well(rs[0]) && went_well(rs[1]) && rs[2] is Said
            &&& rs.len() == 0 ==> n == NextV::Ask(getting(api_at(c, "/v1/repos?owner="@ + c.probe_user), c.probe_jwt))
            &&& rs.len() == 1 && n is Ask ==> n == NextV::Ask(
                getting(api_at(c, "/api/"@ + c.probe_user + "/"@ + name + "/refs"@), c.probe_jwt),
            )
            &&& rs.len() == 2 && n is Ask ==> (n matches NextV::Ask(AskV::Tool { program, argv, .. }) && program == Program::Git && argv
                == authed_args(c, seq!["ls-remote"@, http_remote(c, c.probe_user, name)]))
        }),
{
}

/// Each part of the stage is about the run's own repo and commit, and is walked only once what it needs was done.
pub proof fn law_a_git_part_is_on_the_runs_own(c: RunV, s: StateV, k: KnownV, p: PartV, os: Seq<OutcomeV>)
    ensures
        opening_move(c, os) matches MoveV::Step { id, body, .. } ==> id == "git.push.ok"@ && body == (git::BodyV::PushBase {
            name: "run-"@ + c.run_id,
        }) && failure(os[0]) is None,
        opening_move(c, os) matches MoveV::Look { body } ==> body == (git::BodyV::Create { name: "run-"@ + c.run_id }),
        part_move(c, k, p, os) matches MoveV::Step { id, body, .. } ==> {
            &&& p is Tiers ==> id == "id.jwt.tiers"@ && body == (git::BodyV::Tiers { name: k.name })
            &&& p is PushHead ==> id == "git.push.p95"@ && body == (git::BodyV::PushHead { name: k.name })
            &&& p is CloneOk ==> id == "git.clone.ok"@ && body == (git::BodyV::CloneHttp { name: k.name, into: "clone-a"@ })
            &&& p is CloneP95 ==> id == "git.clone.p95"@ && body == (git::BodyV::CloneHttp { name: k.name, into: "clone-b"@ })
            &&& p is HostKey ==> id == "ssh.hostkey"@ && body == git::BodyV::HostKey
            &&& p is WebPage ==> id == "web.repo.page"@ && body == (git::BodyV::WebPage { name: k.name })
            &&& !(p is Skip)
        },
        ssh_clone_move(k, os) matches MoveV::Step { id, body, .. } ==> id == "ssh.clone.ok"@ && k.key is Some && body == (git::BodyV::SshClone {
            name: k.name,
        }) && failure(os[0]) is None,
        unregistered_move(k, os) matches MoveV::Step { id, body, .. } ==> id == "ssh.unregistered.refused"@ && body == (
        git::BodyV::Unregistered { name: k.name }) && failure(os[0]) is None && failure(os[1]) is None,
        browse_move(c, k, os) matches MoveV::Step { id, body, .. } ==> k.head is Some && {
            ||| id == "browse.commit.visible"@ && body == (git::BodyV::Visible { name: k.name, head: k.head->0 })
            ||| id == "browse.p95"@ && body == (git::BodyV::TreePage { name: k.name, head: k.head->0 })
        },
        known_first(c, s).name == "run-"@ + c.run_id && known_first(c, s).key == s.key && known_first(c, s).head is None,
        known_after(k, p, os).name == k.name && known_after(k, p, os).key == k.key,
        !(p is RevParse) ==> known_after(k, p, os) == k,
{
}

/// What becomes of the stage is decided by the create and the first push: without the one only the host key is left, without
/// the other the tiers too, and with both every part.
pub proof fn law_the_git_parts_follow_the_first_push(created: OutcomeV, pushed: bool)
    ensures
        failure(created) is None && pushed ==> parts_after(created, pushed) =~= seq![
            PartV::Tiers, PartV::PushHead, PartV::RevParse, PartV::CloneOk, PartV::CloneP95, PartV::HostKey, PartV::SshClone,
            PartV::Unregistered, PartV::Browse, PartV::WebPage,
        ],
        failure(created) is None && !pushed ==> parts_after(created, pushed).len() == 10 && forall|i: int|
            0 <= i < 8 ==> (#[trigger] parts_after(created, pushed)[i]) is Skip,
{
}

/// A sign-in is good where the listing was answered; a token is minted where the answer carries one that holds something; both
/// are asked for with the run's own session.
pub proof fn law_a_token_is_minted_with_its_secret(c: RunV, name: Seq<char>, t: Seq<char>, log: LogV)
    ensures
        ({
            let n = identity::body_next(c, identity::BodyV::SignIn, log);
            &&& log.rs.len() == 0 ==> n == NextV::Ask(getting(api_at(c, "/v1/cli/tokens"@), c.probe_jwt))
            &&& n is Pass <==> log.rs.len() > 0 && went_well(log.rs[0])
        }),
        ({
            let n = identity::body_next(c, identity::BodyV::PlatformKey, log);
            &&& log.rs.len() == 0 ==> n == NextV::Ask(getting(api_at(c, "/v1/platform-key?owner="@ + c.probe_user), c.probe_jwt))
            &&& n is Pass <==> log.rs.len() > 0 && went_well(log.rs[0])
        }),
        ({
            let n = identity::body_next(c, identity::BodyV::Mint { name }, log);
            let rs = log.rs;
            &&& rs.len() == 0 ==> n == NextV::Ask(
                posting(
                    api_at(c, "/v1/tokens"@), c.probe_jwt,
                    Doc::Obj(seq![("owner"@, Doc::Str(c.probe_user)), ("name"@, Doc::Str(name))]),
                ),
            )
            &&& n is Pass <==> rs.len() > 0 && went_well(rs[0]) && (text_of(doc_in(rs[0]), "token"@) matches Some(t) && t.len() > 0)
            &&& identity::body_found(identity::BodyV::Mint { name }, log) == Some(t) <==> rs.len() > 0 && went_well(rs[0]) && text_of(
                doc_in(rs[0]), "token"@,
            ) == Some(t) && t.len() > 0
        }),
{
}

/// A key is usable exactly where its public half was read, was registered under the run's name, and is then listed.
pub proof fn law_a_key_is_usable_once_it_is_listed(c: RunV, name: Seq<char>, log: LogV)
    ensures
        ({
            let n = identity::body_next(c, identity::BodyV::Key { name }, log);
            let rs = log.rs;
            &&& n is Pass <==> rs.len() > 2 && rs[0] is Said && went_well(rs[1]) && went_well(rs[2]) && row_named(
                rows_of(Some(doc_in(rs[2]))), "name"@, name,
            ) is Some
            &&& rs.len() == 1 && rs[0] is Said ==> n == NextV::Ask(
                posting(
                    api_at(c, "/v1/keys"@), c.probe_jwt,
                    Doc::Obj(seq![
                        ("owner"@, Doc::Str(c.probe_user)),
                        ("name"@, Doc::Str(name)),
                        ("key"@, Doc::Str(trimmed(rs[0]->Said_0))),
                    ]),
                ),
            )
            &&& rs.len() == 2 && n is Ask ==> n == NextV::Ask(getting(api_at(c, "/v1/keys?owner="@ + c.probe_user), c.probe_jwt))
            &&& n is Pass ==> identity::body_found(identity::BodyV::Key { name }, log) == Some(name)
        }),
{
}

/// A login is walked to its end exactly where a code and a poll were answered to nobody, the code was approved by the run's own
/// session, and the poll then gave a token; its id is the one that is listed under its name.
pub proof fn law_a_login_is_approved_and_collected(c: RunV, name: Seq<char>, log: LogV)
    ensures
        ({
            let n = identity::body_next(c, identity::BodyV::CliFlow { name }, log);
            let rs = log.rs;
            let code = text_of(doc_in(rs[0]), "code"@);
            let poll = text_of(doc_in(rs[0]), "poll"@);
            &&& n is Pass <==> {
                &&& rs.len() > 3 && went_well(rs[0]) && went_well(rs[1]) && went_well(rs[2])
                &&& code is Some && code->0.len() > 0 && poll is Some && poll->0.len() > 0
                &&& text_of(doc_in(rs[2]), "token"@) matches Some(t) && t.len() > 0
            }
            &&& rs.len() == 0 ==> (n matches NextV::Ask(AskV::Call { url, auth, .. }) && url == api_at(c, "/v1/cli/code"@) && auth.len() == 0)
            &&& rs.len() == 1 && n is Ask ==> n == NextV::Ask(
                posting(api_at(c, "/v1/cli/approve"@), c.probe_jwt, Doc::Obj(seq![("code"@, Doc::Str(code->0))])),
            )
            &&& rs.len() == 2 && n is Ask ==> (n matches NextV::Ask(AskV::Call { url, auth, .. }) && url == api_at(
                c, "/v1/cli/token?poll="@ + poll->0,
            ) && auth.len() == 0)
            &&& rs.len() > 3 && went_well(rs[3]) ==> identity::body_found(identity::BodyV::CliFlow { name }, log) == (match row_named(
                rows_of(Some(doc_in(rs[3]))), "name"@, name,
            ) {
                Some(row) => text_of(row, "id"@),
                None => None,
            })
        }),
{
    reveal_strlit("");
    assert(""@.len() == 0);
}

/// Each step of the stage is about the run's own name.
pub proof fn law_an_identity_step_is_the_runs_own(c: RunV, os: Seq<OutcomeV>)
    ensures
        identity::run_move(c, os) matches MoveV::Step { id, body, .. } ==> {
            ||| id == "id.signin"@ && body == identity::BodyV::SignIn
            ||| id == "id.token.mint"@ && body == (identity::BodyV::Mint { name: "run-"@ + c.run_id })
            ||| id == "id.key.usable"@ && body == (identity::BodyV::Key { name: "run-"@ + c.run_id })
            ||| id == "id.cli.flow"@ && body == (identity::BodyV::CliFlow { name: "run-"@ + c.run_id })
        },
{
}

} // verus!
