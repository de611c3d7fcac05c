//! Stage 2 · Git: the product's front door, over both protocols.
//!
//! The repo is created first and unreported: it is not an SLO of its own, but every step here
//! needs it, so a create that fails skips the whole stage rather than reporting ten separate
//! failures for one broken thing.

use vstd::prelude::*;

use vstd::utf8::encode_utf8;

use crate::json::{Doc, Json, obj1, obj3, row_in, row_named, rows_of, text_of, txt};
use crate::reply::{
    call_error, call_failed, error, failed, is_success, lost, lost_of, raw, raw_of, said, said_of, success, tell, told,
    tool_error, tool_error_in, tool_failed, tool_failed_in,
};
use crate::run::{Run, RunV, State, StateV, api, api_at, below, joined_path, prefix, prefix_of, tmp, tmp_at};
use crate::stages::{GIT, IDENTITY};
use crate::text::{
    cat2, cat3, cat4, cat5, cat6, contains, dec, decimal, has_text, holds, list2, list3, list4, list9, no_slash, starts,
    starts_with, texts, trim, trim_slash, trimmed, words, words_of,
};
use crate::turn::{
    Move, MoveV, Outcome, OutcomeV, did_pass, failure, learned, learned_by, look, one, one_move, outcomes, passed_by, reports,
    reports_exactly, skip, step,
};
use crate::wait::{Wait, WaitV};
use crate::want::{Want, WantV};
use crate::wire::{
    Ask, AskV, Log, LogV, Next, NextV, Program, Reply, ReplyV, also, end, ending, get, getting, inside, link, opt, pairs, patch,
    patching, post, posting,
};

verus! {

/// The branch the pull request stage opens its change from.
pub const HEAD_BRANCH: &'static str = "slo";

pub const BASE_BRANCH: &'static str = "main";

/// How long a pushed commit has to show in the browse API. A slow answer is a breach with a
/// number; a cut-off one could not be told from the tier being down.
pub const VISIBLE_CAP_MS: u64 = 20_000;

pub const GIT_MS: u64 = 60_000;

/// Every id after the first push. A precondition that fails skips exactly this list.
pub const AFTER_PUSH: [&'static str; 8] = [
    "git.push.p95",
    "git.clone.ok",
    "git.clone.p95",
    "ssh.clone.ok",
    "ssh.unregistered.refused",
    "browse.p95",
    "browse.commit.visible",
    "web.repo.page",
];

// ── running git ─────────────────────────────────────────────────────────────

pub open spec fn git_env_of(c: RunV) -> Seq<(Seq<char>, Seq<char>)> {
    seq![
        ("GIT_AUTHOR_NAME"@, "kloudlite slo probe"@),
        ("GIT_AUTHOR_EMAIL"@, c.git_email),
        ("GIT_COMMITTER_NAME"@, "kloudlite slo probe"@),
        ("GIT_COMMITTER_EMAIL"@, c.git_email),
        ("GIT_TERMINAL_PROMPT"@, "0"@),
        ("GIT_CONFIG_GLOBAL"@, tmp_at(c, "gitconfig"@)),
        ("GIT_CONFIG_SYSTEM"@, "/dev/null"@),
    ]
}

/// The environment every git call runs under: an identity, because the pod has none, and no
/// prompt, so that a rejected credential is an exit code.
pub fn git_env(c: &Run) -> (r: Vec<(String, String)>)
    ensures
        pairs(r@) == git_env_of(c@),
{
    let mut r: Vec<(String, String)> = Vec::new();
    r.push(("GIT_AUTHOR_NAME".to_owned(), "kloudlite slo probe".to_owned()));
    r.push(("GIT_AUTHOR_EMAIL".to_owned(), c.git_email.clone()));
    r.push(("GIT_COMMITTER_NAME".to_owned(), "kloudlite slo probe".to_owned()));
    r.push(("GIT_COMMITTER_EMAIL".to_owned(), c.git_email.clone()));
    r.push(("GIT_TERMINAL_PROMPT".to_owned(), "0".to_owned()));
    r.push(("GIT_CONFIG_GLOBAL".to_owned(), tmp(c, "gitconfig")));
    r.push(("GIT_CONFIG_SYSTEM".to_owned(), "/dev/null".to_owned()));
    proof {
        assert(pairs(r@) =~= git_env_of(c@));
    }
    r
}

/// The same, with the ssh command git is to use.
pub open spec fn ssh_env_of(c: RunV, command: Seq<char>) -> Seq<(Seq<char>, Seq<char>)> {
    git_env_of(c).push(("GIT_SSH_COMMAND"@, command))
}

pub fn ssh_env(c: &Run, command: String) -> (r: Vec<(String, String)>)
    ensures
        pairs(r@) == ssh_env_of(c@, command@),
{
    let mut r = git_env(c);
    let ghost before = r@;
    r.push(("GIT_SSH_COMMAND".to_owned(), command));
    proof {
        assert(pairs(r@) =~= pairs(before).push(("GIT_SSH_COMMAND"@, command@)));
    }
    r
}

/// A git command that carries the probe's token, ahead of the subcommand.
pub open spec fn authed_args(c: RunV, rest: Seq<Seq<char>>) -> Seq<Seq<char>> {
    seq!["-c"@, "http.extraHeader=Authorization: Bearer "@ + c.probe_jwt] + rest
}

pub fn authed(c: &Run, rest: Vec<String>) -> (r: Vec<String>)
    ensures
        texts(r@) == authed_args(c@, texts(rest@)),
{
    let mut r = list2("-c", cat2("http.extraHeader=Authorization: Bearer ", c.probe_jwt.as_str()).as_str());
    let ghost before = r@;
    let mut tail = rest;
    r.append(&mut tail);
    proof {
        assert(texts(r@) =~= texts(before) + texts(rest@));
    }
    r
}

pub open spec fn git_asks(c: RunV, argv: Seq<Seq<char>>, dir: Seq<char>) -> AskV {
    AskV::Tool { program: Program::Git, argv, env: git_env_of(c), dir, bound_ms: GIT_MS }
}

pub fn git(c: &Run, argv: Vec<String>, dir: String) -> (r: Ask)
    ensures
        r@ == git_asks(c@, texts(argv@), dir@),
{
    Ask::Tool { program: Program::Git, argv, env: git_env(c), dir, bound_ms: GIT_MS }
}

/// The repo's address over HTTP.
pub open spec fn http_remote(c: RunV, owner: Seq<char>, name: Seq<char>) -> Seq<char> {
    no_slash(c.git_url) + "/"@ + owner + "/"@ + name + ".git"@
}

pub fn http_url(c: &Run, owner: &str, name: &str) -> (r: String)
    ensures
        r@ == http_remote(c@, owner@, name@),
{
    cat6(trim_slash(c.git_url.as_str()).as_str(), "/", owner, "/", name, ".git")
}

/// The repo's working tree.
pub open spec fn work_tree(c: RunV, name: Seq<char>) -> Seq<char> {
    joined_path(tmp_at(c, "git"@), name)
}

pub fn work(c: &Run, name: &str) -> (r: String)
    ensures
        r@ == work_tree(c@, name@),
{
    below(tmp(c, "git").as_str(), name)
}

/// A file of a working tree.
pub open spec fn writing(dir: Seq<char>, name: Seq<char>, body: Seq<char>) -> AskV {
    AskV::Write { path: joined_path(dir, name), text: body }
}

pub fn write(dir: &str, name: &str, body: String) -> (r: Ask)
    ensures
        r@ == writing(dir@, name@, body@),
{
    Ask::Write { path: below(dir, name), text: body }
}

// ── ssh ─────────────────────────────────────────────────────────────────────

/// What the operator pinned. Three shapes, because all three are things people paste.
#[derive(Clone, Copy, PartialEq, Eq, Structural)]
pub enum Pin {
    /// What a fingerprint check prints.
    Fingerprint,
    /// A key with no host in front of it.
    Key,
    /// A whole known_hosts line: the host, then the algorithm and the key.
    Line,
}

/// How the name of a key algorithm begins.
pub open spec fn names_algorithm(word: Seq<char>) -> bool {
    starts(word, "ssh-"@) || starts(word, "ecdsa-"@) || starts(word, "sk-"@)
}

fn algorithm(word: &str) -> (r: bool)
    ensures
        r == names_algorithm(word@),
{
    starts_with(word, "ssh-") || starts_with(word, "ecdsa-") || starts_with(word, "sk-")
}

/// A host may be named as an algorithm is, but no key is: what has an algorithm for its second word
/// is a line.
pub open spec fn pin_of(pin: Seq<char>) -> Pin {
    if starts(pin, "SHA256:"@) {
        Pin::Fingerprint
    } else if words_of(pin).len() > 1 && names_algorithm(words_of(pin)[1]) {
        Pin::Line
    } else if names_algorithm(pin) {
        Pin::Key
    } else {
        Pin::Line
    }
}

pub fn pin_kind(pin: &str) -> (r: Pin)
    ensures
        r == pin_of(pin@),
{
    let all = words(pin);
    proof {
        assert(texts(all@).len() == all@.len());
        if all@.len() > 1 {
            assert(texts(all@)[1] == all@[1]@);
        }
    }
    if starts_with(pin, "SHA256:") {
        Pin::Fingerprint
    } else if all.len() > 1 && algorithm(all[1].as_str()) {
        Pin::Line
    } else if algorithm(pin) {
        Pin::Key
    } else {
        Pin::Line
    }
}

pub const NO_PIN: &'static str = "no host key is pinned (KLOUDLITE_GIT_SLO_SSH_HOSTKEY)";

/// How ssh names a host in known_hosts: with its port, where that is not the usual one.
pub open spec fn ssh_subject(host: Seq<char>, port: u16) -> Seq<char> {
    if port == 22 { host } else { "["@ + host + "]:"@ + dec(port as nat) }
}

/// The known_hosts line that a pinned key or line makes.
pub open spec fn pinned_line(c: RunV) -> Seq<char> {
    let pin = trimmed(c.ssh_hostkey);
    match pin_of(pin) {
        Pin::Key => ssh_subject(c.ssh_host, c.ssh_port) + " "@ + pin + "\n"@,
        _ => pin + "\n"@,
    }
}

fn known_line(c: &Run) -> (r: String)
    ensures
        r@ == pinned_line(c@),
{
    let pin = trim(c.ssh_hostkey.as_str());
    match pin_kind(pin.as_str()) {
        Pin::Key => {
            let subject = if c.ssh_port == 22 {
                c.ssh_host.clone()
            } else {
                cat4("[", c.ssh_host.as_str(), "]:", decimal(c.ssh_port as u64).as_str())
            };
            cat4(subject.as_str(), " ", pin.as_str(), "\n")
        },
        _ => cat2(pin.as_str(), "\n"),
    }
}

/// The question what host key the listener serves.
pub open spec fn keyscan_asks(c: RunV) -> AskV {
    AskV::Tool {
        program: Program::SshKeyscan,
        argv: seq!["-p"@, dec(c.ssh_port as nat), c.ssh_host],
        env: seq![],
        dir: seq![],
        bound_ms: 20_000,
    }
}

fn no_env() -> (r: Vec<(String, String)>)
    ensures
        pairs(r@) == Seq::<(Seq<char>, Seq<char>)>::empty(),
{
    let r: Vec<(String, String)> = Vec::new();
    proof {
        assert(pairs(r@) =~= Seq::<(Seq<char>, Seq<char>)>::empty());
    }
    r
}

/// A local program in its own environment.
pub open spec fn plainly(program: Program, argv: Seq<Seq<char>>, bound_ms: u64) -> AskV {
    AskV::Tool { program, argv, env: seq![], dir: seq![], bound_ms }
}

pub fn plain(program: Program, argv: Vec<String>, bound_ms: u64) -> (r: Ask)
    ensures
        r@ == plainly(program, texts(argv@), bound_ms),
{
    Ask::Tool { program, argv, env: no_env(), dir: String::new(), bound_ms }
}

pub fn keyscan(c: &Run) -> (r: Ask)
    ensures
        r@ == keyscan_asks(c@),
{
    plain(Program::SshKeyscan, list3("-p", decimal(c.ssh_port as u64).as_str(), c.ssh_host.as_str()), 20_000)
}

pub open spec fn hosts_path(c: RunV) -> Seq<char> {
    tmp_at(c, "known_hosts"@)
}

/// The known_hosts file the ssh steps run against, written from the pinned key. A fingerprint
/// names a key but cannot be written down as one, so there the listener's own keys are, and
/// `ssh.hostkey` is what judges them.
pub open spec fn known_hosts_next(c: RunV, rs: Seq<ReplyV>) -> NextV {
    let pin = trimmed(c.ssh_hostkey);
    if pin.len() == 0 {
        NextV::Fail(NO_PIN@)
    } else if pin_of(pin) == Pin::Fingerprint {
        link(
            rs, 0, keyscan_asks(c), tool_error_in("could not read the served host key"@, rs[0]),
            link(
                rs, 1, AskV::Write { path: hosts_path(c), text: said_of(rs[0])->Ok_0 },
                tool_error_in("could not write known_hosts"@, rs[1]),
                NextV::Pass,
            ),
        )
    } else {
        link(
            rs, 0, AskV::Write { path: hosts_path(c), text: pinned_line(c) },
            tool_error_in("could not write known_hosts"@, rs[0]),
            NextV::Pass,
        )
    }
}

pub fn known_hosts(c: &Run, log: &Log) -> (n: Next)
    ensures
        n@ == known_hosts_next(c@, log@.rs),
{
    let pin = trim(c.ssh_hostkey.as_str());
    if pin.as_str().is_empty() {
        return Next::Fail(NO_PIN.to_owned());
    }
    match pin_kind(pin.as_str()) {
        Pin::Fingerprint => {
            if log.rs.len() <= 0 {
                return Next::Ask(keyscan(c));
            }
            match said(&log.rs[0]) {
                Err(why) => Next::Fail(inside("could not read the served host key", why.as_str())),
                Ok(served) => {
                    if log.rs.len() <= 1 {
                        return Next::Ask(Ask::Write { path: tmp(c, "known_hosts"), text: served });
                    }
                    end(tool_failed_in("could not write known_hosts", &log.rs[1]))
                },
            }
        },
        _ => {
            if log.rs.len() <= 0 {
                return Next::Ask(Ask::Write { path: tmp(c, "known_hosts"), text: known_line(c) });
            }
            end(tool_failed_in("could not write known_hosts", &log.rs[0]))
        },
    }
}

/// The ssh command line: the given key only, and a host that is not in `hosts` is refused.
pub open spec fn ssh_command_of(c: RunV, key: Seq<char>, hosts: Seq<char>) -> Seq<char> {
    "ssh -i "@ + key + " -o IdentitiesOnly=yes -o StrictHostKeyChecking=yes -o UserKnownHostsFile="@ + hosts + " -o BatchMode=yes -p "@
        + dec(c.ssh_port as nat)
}

pub fn ssh_command(c: &Run, key: &str, hosts: &str) -> (r: String)
    ensures
        r@ == ssh_command_of(c@, key@, hosts@),
{
    cat6(
        "ssh -i ",
        key,
        " -o IdentitiesOnly=yes -o StrictHostKeyChecking=yes -o UserKnownHostsFile=",
        hosts,
        " -o BatchMode=yes -p ",
        decimal(c.ssh_port as u64).as_str(),
    )
}

/// The repo's address over ssh.
pub open spec fn ssh_at(c: RunV, name: Seq<char>) -> Seq<char> {
    "ssh://git@"@ + c.ssh_host + ":"@ + dec(c.ssh_port as nat) + "/"@ + c.tenant + "/"@ + name + ".git"@
}

pub fn ssh_url(c: &Run, name: &str) -> (r: String)
    ensures
        r@ == ssh_at(c@, name@),
{
    let head = cat6("ssh://git@", c.ssh_host.as_str(), ":", decimal(c.ssh_port as u64).as_str(), "/", c.tenant.as_str());
    cat4(head.as_str(), "/", name, ".git")
}

/// A git command over ssh.
pub open spec fn ssh_git_asks(c: RunV, argv: Seq<Seq<char>>, key: Seq<char>, hosts: Seq<char>, bound_ms: u64) -> AskV {
    AskV::Tool { program: Program::Git, argv, env: ssh_env_of(c, ssh_command_of(c, key, hosts)), dir: seq![], bound_ms }
}

pub fn ssh_git(c: &Run, argv: Vec<String>, key: &str, hosts: &str, bound_ms: u64) -> (r: Ask)
    ensures
        r@ == ssh_git_asks(c@, texts(argv@), key@, hosts@, bound_ms),
{
    Ask::Tool { program: Program::Git, argv, env: ssh_env(c, ssh_command(c, key, hosts)), dir: String::new(), bound_ms }
}

/// A word long enough to be a key's blob: more than forty bytes.
pub open spec fn long_word(w: Seq<char>) -> bool {
    encode_utf8(w).len() > 40
}

/// Some long word of the pin stands in what was served.
pub open spec fn blob_served(pin: Seq<char>, served: Seq<char>) -> bool {
    exists|i: int| 0 <= i < words_of(pin).len() && long_word(#[trigger] words_of(pin)[i]) && holds(served, words_of(pin)[i])
}

fn serves_blob(pin: &str, served: &str) -> (r: bool)
    ensures
        r == blob_served(pin@, served@),
{
    let ws = words(pin);
    let mut i: usize = 0;
    while i < ws.len()
        invariant
            i <= ws@.len(),
            texts(ws@) == words_of(pin@),
            forall|k: int| 0 <= k < i ==> !(long_word(#[trigger] words_of(pin@)[k]) && holds(served@, words_of(pin@)[k])),
        decreases ws.len() - i,
    {
        proof {
            assert(texts(ws@)[i as int] == ws@[i as int]@);
        }
        if ws[i].as_str().as_bytes().len() > 40 && contains(served, ws[i].as_str()) {
            return true;
        }
        i = i + 1;
    }
    false
}

pub const WRONG_KEY: &'static str = "the served host key does not match the pinned one";

/// What the listener serves, compared against the pin: a fingerprint against the fingerprints of
/// the served keys, a key by its blob.
pub open spec fn hostkey_next(c: RunV, rs: Seq<ReplyV>) -> NextV {
    let pin = trimmed(c.ssh_hostkey);
    link(
        rs, 0, keyscan_asks(c), tool_error_in("could not read the served host key"@, rs[0]),
        if pin_of(pin) == Pin::Fingerprint {
            link(
                rs, 1, AskV::Write { path: tmp_at(c, "served_hostkeys"@), text: said_of(rs[0])->Ok_0 },
                tool_error_in("could not stage the served keys"@, rs[1]),
                link(
                    rs, 2, plainly(Program::SshKeygen, seq!["-lf"@, tmp_at(c, "served_hostkeys"@)], 10_000),
                    tool_error_in("could not fingerprint the served host key"@, rs[2]),
                    if words_of(said_of(rs[2])->Ok_0).contains(pin) { NextV::Pass } else { NextV::Fail(WRONG_KEY@) },
                ),
            )
        } else if blob_served(pin, said_of(rs[0])->Ok_0) {
            NextV::Pass
        } else {
            NextV::Fail(WRONG_KEY@)
        },
    )
}

fn hostkey_body(c: &Run, log: &Log) -> (n: Next)
    ensures
        n@ == hostkey_next(c@, log@.rs),
{
    let pin = trim(c.ssh_hostkey.as_str());
    if log.rs.len() <= 0 {
        return Next::Ask(keyscan(c));
    }
    let served = match said(&log.rs[0]) {
        Err(why) => {
            return Next::Fail(inside("could not read the served host key", why.as_str()));
        },
        Ok(t) => t,
    };
    match pin_kind(pin.as_str()) {
        Pin::Fingerprint => {
            if log.rs.len() <= 1 {
                return Next::Ask(Ask::Write { path: tmp(c, "served_hostkeys"), text: served });
            }
            if let Some(why) = tool_failed_in("could not stage the served keys", &log.rs[1]) {
                return Next::Fail(why);
            }
            if log.rs.len() <= 2 {
                return Next::Ask(plain(Program::SshKeygen, list2("-lf", tmp(c, "served_hostkeys").as_str()), 10_000));
            }
            match said(&log.rs[2]) {
                Err(why) => Next::Fail(inside("could not fingerprint the served host key", why.as_str())),
                Ok(listed) => {
                    if has_text(&words(listed.as_str()), pin.as_str()) { Next::Pass } else { Next::Fail(WRONG_KEY.to_owned()) }
                },
            }
        },
        _ => {
            if serves_blob(pin.as_str(), served.as_str()) { Next::Pass } else { Next::Fail(WRONG_KEY.to_owned()) }
        },
    }
}

// ── pushing and cloning ─────────────────────────────────────────────────────

/// The first push: make the tree, commit, push `main`. All of it in one step, so that a local
/// failure is that step failing with the reason.
pub open spec fn push_base_next(c: RunV, name: Seq<char>, rs: Seq<ReplyV>) -> NextV {
    let dir = work_tree(c, name);
    link(
        rs, 0, AskV::Mkdir { path: dir }, tool_error_in("could not make "@ + dir, rs[0]),
        link(
            rs, 1, git_asks(c, seq!["init"@, "-q"@, "--initial-branch="@ + BASE_BRANCH@], dir), tool_error(rs[1]),
            link(
                rs, 2, writing(dir, "README.md"@, "# "@ + name + "\n"@), tool_error_in("could not write README.md"@, rs[2]),
                link(
                    rs, 3, git_asks(c, seq!["add"@, "-A"@], dir), tool_error(rs[3]),
                    link(
                        rs, 4, git_asks(c, seq!["commit"@, "-q"@, "-m"@, "seed"@], dir), tool_error(rs[4]),
                        link(
                            rs, 5,
                            git_asks(c, authed_args(c, seq!["push"@, "-q"@, http_remote(c, c.tenant, name), BASE_BRANCH@]), dir),
                            tool_error(rs[5]),
                            NextV::Pass,
                        ),
                    ),
                ),
            ),
        ),
    )
}

fn push_base_body(c: &Run, name: &str, log: &Log) -> (n: Next)
    ensures
        n@ == push_base_next(c@, name@, log@.rs),
{
    let dir = work(c, name);
    if log.rs.len() <= 0 {
        return Next::Ask(Ask::Mkdir { path: dir });
    }
    if let Some(why) = tool_failed_in(cat2("could not make ", dir.as_str()).as_str(), &log.rs[0]) {
        return Next::Fail(why);
    }
    if log.rs.len() <= 1 {
        return Next::Ask(git(c, list3("init", "-q", cat2("--initial-branch=", BASE_BRANCH).as_str()), dir));
    }
    if let Some(why) = tool_failed(&log.rs[1]) {
        return Next::Fail(why);
    }
    if log.rs.len() <= 2 {
        return Next::Ask(write(dir.as_str(), "README.md", cat3("# ", name, "\n")));
    }
    if let Some(why) = tool_failed_in("could not write README.md", &log.rs[2]) {
        return Next::Fail(why);
    }
    if log.rs.len() <= 3 {
        return Next::Ask(git(c, list2("add", "-A"), dir));
    }
    if let Some(why) = tool_failed(&log.rs[3]) {
        return Next::Fail(why);
    }
    if log.rs.len() <= 4 {
        return Next::Ask(git(c, list4("commit", "-q", "-m", "seed"), dir));
    }
    if let Some(why) = tool_failed(&log.rs[4]) {
        return Next::Fail(why);
    }
    if log.rs.len() <= 5 {
        let url = http_url(c, c.tenant.as_str(), name);
        return Next::Ask(git(c, authed(c, list4("push", "-q", url.as_str(), BASE_BRANCH)), dir));
    }
    end(tool_failed(&log.rs[5]))
}

/// The second push, onto the branch the pull request stage opens its change from.
pub open spec fn push_head_next(c: RunV, name: Seq<char>, rs: Seq<ReplyV>) -> NextV {
    let dir = work_tree(c, name);
    link(
        rs, 0, git_asks(c, seq!["checkout"@, "-q"@, "-b"@, HEAD_BRANCH@], dir), tool_error(rs[0]),
        link(
            rs, 1, writing(dir, "change.txt"@, c.run_id + "\n"@), tool_error_in("could not write change.txt"@, rs[1]),
            link(
                rs, 2, git_asks(c, seq!["add"@, "-A"@], dir), tool_error(rs[2]),
                link(
                    rs, 3, git_asks(c, seq!["commit"@, "-q"@, "-m"@, "change"@], dir), tool_error(rs[3]),
                    link(
                        rs, 4,
                        git_asks(c, authed_args(c, seq!["push"@, "-q"@, http_remote(c, c.tenant, name), HEAD_BRANCH@]), dir),
                        tool_error(rs[4]),
                        NextV::Pass,
                    ),
                ),
            ),
        ),
    )
}

fn push_head_body(c: &Run, name: &str, log: &Log) -> (n: Next)
    ensures
        n@ == push_head_next(c@, name@, log@.rs),
{
    let dir = work(c, name);
    if log.rs.len() <= 0 {
        return Next::Ask(git(c, list4("checkout", "-q", "-b", HEAD_BRANCH), dir));
    }
    if let Some(why) = tool_failed(&log.rs[0]) {
        return Next::Fail(why);
    }
    if log.rs.len() <= 1 {
        return Next::Ask(write(dir.as_str(), "change.txt", cat2(c.run_id.as_str(), "\n")));
    }
    if let Some(why) = tool_failed_in("could not write change.txt", &log.rs[1]) {
        return Next::Fail(why);
    }
    if log.rs.len() <= 2 {
        return Next::Ask(git(c, list2("add", "-A"), dir));
    }
    if let Some(why) = tool_failed(&log.rs[2]) {
        return Next::Fail(why);
    }
    if log.rs.len() <= 3 {
        return Next::Ask(git(c, list4("commit", "-q", "-m", "change"), dir));
    }
    if let Some(why) = tool_failed(&log.rs[3]) {
        return Next::Fail(why);
    }
    if log.rs.len() <= 4 {
        let url = http_url(c, c.tenant.as_str(), name);
        return Next::Ask(git(c, authed(c, list4("push", "-q", url.as_str(), HEAD_BRANCH)), dir));
    }
    end(tool_failed(&log.rs[4]))
}

/// A clone over HTTP. A leftover of a run that died mid-clone is taken away first.
pub open spec fn clone_http_next(c: RunV, name: Seq<char>, into: Seq<char>, rs: Seq<ReplyV>) -> NextV {
    also(
        rs, 0, AskV::Discard { path: tmp_at(c, into) },
        link(
            rs, 1,
            git_asks(c, authed_args(c, seq!["clone"@, "-q"@, http_remote(c, c.tenant, name), tmp_at(c, into)]), seq![]),
            tool_error(rs[1]),
            NextV::Pass,
        ),
    )
}

fn clone_http_body(c: &Run, name: &str, into: &str, log: &Log) -> (n: Next)
    ensures
        n@ == clone_http_next(c@, name@, into@, log@.rs),
{
    let dest = tmp(c, into);
    if log.rs.len() <= 0 {
        return Next::Ask(Ask::Discard { path: dest });
    }
    if log.rs.len() <= 1 {
        let url = http_url(c, c.tenant.as_str(), name);
        return Next::Ask(git(c, authed(c, list4("clone", "-q", url.as_str(), dest.as_str())), String::new()));
    }
    end(tool_failed(&log.rs[1]))
}

/// A clone over ssh, with the probe's registered key.
pub open spec fn ssh_clone_next(c: RunV, name: Seq<char>, rs: Seq<ReplyV>) -> NextV {
    also(
        rs, 0, AskV::Discard { path: tmp_at(c, "clone-ssh"@) },
        link(
            rs, 1,
            ssh_git_asks(c, seq!["clone"@, "-q"@, ssh_at(c, name), tmp_at(c, "clone-ssh"@)], c.ssh_key_path, hosts_path(c), GIT_MS),
            tool_error(rs[1]),
            NextV::Pass,
        ),
    )
}

fn ssh_clone_body(c: &Run, name: &str, log: &Log) -> (n: Next)
    ensures
        n@ == ssh_clone_next(c@, name@, log@.rs),
{
    let dest = tmp(c, "clone-ssh");
    if log.rs.len() <= 0 {
        return Next::Ask(Ask::Discard { path: dest });
    }
    if log.rs.len() <= 1 {
        let argv = list4("clone", "-q", ssh_url(c, name).as_str(), dest.as_str());
        return Next::Ask(ssh_git(c, argv, c.ssh_key_path.as_str(), tmp(c, "known_hosts").as_str(), GIT_MS));
    }
    end(tool_failed(&log.rs[1]))
}

/// A key that nobody registered, made for one question.
pub open spec fn throwaway_next(c: RunV, file: Seq<char>, comment: Seq<char>, rs: Seq<ReplyV>) -> NextV {
    also(
        rs, 0, AskV::Discard { path: tmp_at(c, file) },
        also(
            rs, 1, AskV::Discard { path: tmp_at(c, file) + ".pub"@ },
            link(
                rs, 2,
                plainly(
                    Program::SshKeygen,
                    seq!["-q"@, "-t"@, "ed25519"@, "-N"@, ""@, "-C"@, comment, "-f"@, tmp_at(c, file)],
                    20_000,
                ),
                tool_error_in("no throwaway key"@, rs[2]),
                NextV::Pass,
            ),
        ),
    )
}

pub fn throwaway(c: &Run, file: &str, comment: &str, log: &Log) -> (n: Next)
    ensures
        n@ == throwaway_next(c@, file@, comment@, log@.rs),
{
    let path = tmp(c, file);
    if log.rs.len() <= 0 {
        return Next::Ask(Ask::Discard { path });
    }
    if log.rs.len() <= 1 {
        return Next::Ask(Ask::Discard { path: cat2(path.as_str(), ".pub") });
    }
    if log.rs.len() <= 2 {
        let argv = list9("-q", "-t", "ed25519", "-N", "", "-C", comment, "-f", path.as_str());
        return Next::Ask(plain(Program::SshKeygen, argv, 20_000));
    }
    end(tool_failed_in("no throwaway key", &log.rs[2]))
}

/// How the attempt of an unregistered key is judged: only a refusal passes. A name that does not
/// resolve, a wrong port or a wrong host key fail the command too, and refuse nothing.
pub open spec fn unregistered_bad(r: ReplyV) -> Option<Seq<char>> {
    match said_of(r) {
        Ok(_) => Some("an unregistered key was allowed to read the repo"@),
        Err(detail) => if holds(detail, "Permission denied"@) {
            None
        } else {
            Some("ssh failed for some other reason than a refusal: "@ + detail)
        },
    }
}

pub open spec fn unregistered_next(c: RunV, name: Seq<char>, rs: Seq<ReplyV>) -> NextV {
    link(
        rs, 0,
        ssh_git_asks(c, seq!["ls-remote"@, ssh_at(c, name)], tmp_at(c, "unregistered"@), hosts_path(c), GIT_MS),
        unregistered_bad(rs[0]),
        NextV::Pass,
    )
}

fn unregistered_body(c: &Run, name: &str, log: &Log) -> (n: Next)
    ensures
        n@ == unregistered_next(c@, name@, log@.rs),
{
    if log.rs.len() <= 0 {
        let argv = list2("ls-remote", ssh_url(c, name).as_str());
        return Next::Ask(ssh_git(c, argv, tmp(c, "unregistered").as_str(), tmp(c, "known_hosts").as_str(), GIT_MS));
    }
    match said(&log.rs[0]) {
        Ok(_) => Next::Fail("an unregistered key was allowed to read the repo".to_owned()),
        Err(detail) => {
            if contains(detail.as_str(), "Permission denied") {
                Next::Pass
            } else {
                Next::Fail(cat2("ssh failed for some other reason than a refusal: ", detail.as_str()))
            }
        },
    }
}

// ── browsing ────────────────────────────────────────────────────────────────

/// The oid of one branch out of a refs answer, whose names are full.
pub open spec fn oid_in(refs: Doc, branch: Seq<char>) -> Option<Seq<char>> {
    match row_named(rows_of(Some(refs)), "name"@, "refs/heads/"@ + branch) {
        Some(row) => text_of(row, "oid"@),
        None => None,
    }
}

pub fn oid_of(refs: &Json, branch: &str) -> (r: Option<String>)
    ensures
        opt(r) == oid_in(refs@, branch@),
{
    match row_in(Some(refs), "name", cat2("refs/heads/", branch).as_str()) {
        Some(row) => row.text_at("oid"),
        None => None,
    }
}

/// The browse API's path of one thing of a repo.
pub open spec fn browse_at(c: RunV, owner: Seq<char>, name: Seq<char>, rest: Seq<char>) -> Seq<char> {
    api_at(c, "/api/"@ + owner + "/"@ + name + rest)
}

pub fn browse_url(c: &Run, owner: &str, name: &str, rest: &str) -> (r: String)
    ensures
        r@ == browse_at(c@, owner@, name@, rest@),
{
    api(c, cat5("/api/", owner, "/", name, rest).as_str())
}

/// The `/v1` path of one thing of a repo.
pub open spec fn repo_at(c: RunV, owner: Seq<char>, name: Seq<char>, rest: Seq<char>) -> Seq<char> {
    api_at(c, "/v1/repos/"@ + owner + "/"@ + name + rest)
}

pub fn repo_url(c: &Run, owner: &str, name: &str, rest: &str) -> (r: String)
    ensures
        r@ == repo_at(c@, owner@, name@, rest@),
{
    api(c, cat5("/v1/repos/", owner, "/", name, rest).as_str())
}

pub open spec fn visible_next(c: RunV, name: Seq<char>, head: Seq<char>, rs: Seq<ReplyV>) -> NextV {
    link(
        rs, 0,
        AskV::Wait(WaitV::Doc {
            url: browse_at(c, c.tenant, name, "/refs"@),
            token: c.probe_jwt,
            want: WantV::Branch { branch: BASE_BRANCH@, oid: head },
            cap_ms: VISIBLE_CAP_MS,
        }),
        lost_of(rs[0]),
        NextV::Pass,
    )
}

fn visible_body(c: &Run, name: &str, head: &str, log: &Log) -> (n: Next)
    ensures
        n@ == visible_next(c@, name@, head@, log@.rs),
{
    if log.rs.len() <= 0 {
        return Next::Ask(Ask::Wait(Wait::Doc {
            url: browse_url(c, c.tenant.as_str(), name, "/refs"),
            token: c.probe_jwt.clone(),
            want: Want::Branch { branch: BASE_BRANCH.to_owned(), oid: head.to_owned() },
            cap_ms: VISIBLE_CAP_MS,
        }));
    }
    end(lost(&log.rs[0]))
}

pub open spec fn tree_page_next(c: RunV, name: Seq<char>, head: Seq<char>, rs: Seq<ReplyV>) -> NextV {
    link(rs, 0, getting(browse_at(c, c.tenant, name, "/tree/"@ + head), c.probe_jwt), call_error(rs[0]), NextV::Pass)
}

fn tree_page_body(c: &Run, name: &str, head: &str, log: &Log) -> (n: Next)
    ensures
        n@ == tree_page_next(c@, name@, head@, log@.rs),
{
    if log.rs.len() <= 0 {
        return Next::Ask(get(browse_url(c, c.tenant.as_str(), name, cat2("/tree/", head).as_str()), c.probe_jwt.as_str()));
    }
    end(error(&log.rs[0]))
}

/// The page must carry the repo's content, not merely answer: a shell without it answers 200 too.
pub open spec fn unrendered(r: ReplyV) -> Option<Seq<char>> {
    match raw_of(r) {
        Err(why) => Some(why),
        Ok((status, body)) => if !is_success(status) {
            Some(told(status, body, 200))
        } else if !holds(body, "README.md"@) {
            Some("the page rendered without the repo's files"@)
        } else {
            None
        },
    }
}

pub fn rendered(r: &Reply) -> (o: Option<String>)
    ensures
        opt(o) == unrendered(r@),
{
    match raw(r) {
        Err(why) => Some(why),
        Ok((status, body)) => {
            if !success(status) {
                Some(tell(status, body.as_str(), 200))
            } else if !contains(body.as_str(), "README.md") {
                Some("the page rendered without the repo's files".to_owned())
            } else {
                None
            }
        },
    }
}

/// A change of a repo's visibility.
pub open spec fn visibility_asks(c: RunV, name: Seq<char>, to: Seq<char>) -> AskV {
    patching(repo_at(c, c.tenant, name, ""@), c.probe_jwt, Doc::Obj(seq![("visibility"@, Doc::Str(to))]))
}

pub fn visibility(c: &Run, name: &str, to: &str) -> (r: Ask)
    ensures
        r@ == visibility_asks(c@, name@, to@),
{
    patch(repo_url(c, c.tenant.as_str(), name, ""), c.probe_jwt.as_str(), obj1("visibility", txt(to)))
}

/// The repo is public for the length of one request, and private again before the page is judged,
/// so that a failing page never leaves it public.
pub open spec fn web_page_next(c: RunV, name: Seq<char>, rs: Seq<ReplyV>) -> NextV {
    link(
        rs, 0, visibility_asks(c, name, "public"@), call_failed("could not publish the repo"@, rs[0]),
        also(
            rs, 1, getting(no_slash(c.web_url) + "/"@ + c.tenant + "/"@ + name, ""@),
            also(
                rs, 2, visibility_asks(c, name, "private"@),
                match unrendered(rs[1]) {
                    Some(why) => NextV::Fail(why),
                    None => ending(call_failed("the repo was left PUBLIC"@, rs[2])),
                },
            ),
        ),
    )
}

fn web_page_body(c: &Run, name: &str, log: &Log) -> (n: Next)
    ensures
        n@ == web_page_next(c@, name@, log@.rs),
{
    if log.rs.len() <= 0 {
        return Next::Ask(visibility(c, name, "public"));
    }
    if let Some(why) = failed("could not publish the repo", &log.rs[0]) {
        return Next::Fail(why);
    }
    if log.rs.len() <= 1 {
        let url = cat5(trim_slash(c.web_url.as_str()).as_str(), "/", c.tenant.as_str(), "/", name);
        return Next::Ask(get(url, ""));
    }
    if log.rs.len() <= 2 {
        return Next::Ask(visibility(c, name, "private"));
    }
    if let Some(why) = rendered(&log.rs[1]) {
        return Next::Fail(why);
    }
    end(failed("the repo was left PUBLIC", &log.rs[2]))
}

/// Once the repo was published, no reply to the page keeps the body from asking for it to be made
/// private again, and no other thing is asked for in between.
pub proof fn law_a_published_repo_is_hidden_again(c: RunV, name: Seq<char>, rs: Seq<ReplyV>)
    requires
        rs.len() == 2,
        call_error(rs[0]) is None,
    ensures
        web_page_next(c, name, rs) == NextV::Ask(visibility_asks(c, name, "private"@)),
{
}

// ── the bodies ──────────────────────────────────────────────────────────────

pub enum Body {
    Create { name: String },
    PushBase { name: String },
    PushHead { name: String },
    RevParse { name: String },
    CloneHttp { name: String, into: String },
    HostKey,
    KnownHosts,
    SshClone { name: String },
    Throwaway,
    Unregistered { name: String },
    Visible { name: String, head: String },
    TreePage { name: String, head: String },
    WebPage { name: String },
    Tiers { name: String },
}

pub enum BodyV {
    Create { name: Seq<char> },
    PushBase { name: Seq<char> },
    PushHead { name: Seq<char> },
    RevParse { name: Seq<char> },
    CloneHttp { name: Seq<char>, into: Seq<char> },
    HostKey,
    KnownHosts,
    SshClone { name: Seq<char> },
    Throwaway,
    Unregistered { name: Seq<char> },
    Visible { name: Seq<char>, head: Seq<char> },
    TreePage { name: Seq<char>, head: Seq<char> },
    WebPage { name: Seq<char> },
    Tiers { name: Seq<char> },
}

impl View for Body {
    type V = BodyV;

    open spec fn view(&self) -> BodyV {
        match self {
            Body::Create { name } => BodyV::Create { name: name@ },
            Body::PushBase { name } => BodyV::PushBase { name: name@ },
            Body::PushHead { name } => BodyV::PushHead { name: name@ },
            Body::RevParse { name } => BodyV::RevParse { name: name@ },
            Body::CloneHttp { name, into } => BodyV::CloneHttp { name: name@, into: into@ },
            Body::HostKey => BodyV::HostKey,
            Body::KnownHosts => BodyV::KnownHosts,
            Body::SshClone { name } => BodyV::SshClone { name: name@ },
            Body::Throwaway => BodyV::Throwaway,
            Body::Unregistered { name } => BodyV::Unregistered { name: name@ },
            Body::Visible { name, head } => BodyV::Visible { name: name@, head: head@ },
            Body::TreePage { name, head } => BodyV::TreePage { name: name@, head: head@ },
            Body::WebPage { name } => BodyV::WebPage { name: name@ },
            Body::Tiers { name } => BodyV::Tiers { name: name@ },
        }
    }
}

/// Private, because a public probe repo is a namespace anybody can watch, and named for the run.
pub open spec fn create_next(c: RunV, name: Seq<char>, rs: Seq<ReplyV>) -> NextV {
    link(
        rs, 0,
        posting(
            api_at(c, "/v1/repos"@),
            c.probe_jwt,
            Doc::Obj(seq![("owner"@, Doc::Str(c.tenant)), ("name"@, Doc::Str(name)), ("visibility"@, Doc::Str("private"@))]),
        ),
        call_error(rs[0]),
        NextV::Pass,
    )
}

fn create_body(c: &Run, name: &str, log: &Log) -> (n: Next)
    ensures
        n@ == create_next(c@, name@, log@.rs),
{
    if log.rs.len() <= 0 {
        let body = obj3("owner", txt(c.tenant.as_str()), "name", txt(name), "visibility", txt("private"));
        return Next::Ask(post(api(c, "/v1/repos"), c.probe_jwt.as_str(), body));
    }
    end(error(&log.rs[0]))
}

pub open spec fn rev_parse_next(c: RunV, name: Seq<char>, rs: Seq<ReplyV>) -> NextV {
    link(rs, 0, git_asks(c, seq!["rev-parse"@, BASE_BRANCH@], work_tree(c, name)), tool_error(rs[0]), NextV::Pass)
}

fn rev_parse_body(c: &Run, name: &str, log: &Log) -> (n: Next)
    ensures
        n@ == rev_parse_next(c@, name@, log@.rs),
{
    if log.rs.len() <= 0 {
        return Next::Ask(git(c, list2("rev-parse", BASE_BRANCH), work(c, name)));
    }
    end(tool_failed(&log.rs[0]))
}

pub open spec fn body_next(c: RunV, b: BodyV, log: LogV) -> NextV {
    match b {
        BodyV::Create { name } => create_next(c, name, log.rs),
        BodyV::PushBase { name } => push_base_next(c, name, log.rs),
        BodyV::PushHead { name } => push_head_next(c, name, log.rs),
        BodyV::RevParse { name } => rev_parse_next(c, name, log.rs),
        BodyV::CloneHttp { name, into } => clone_http_next(c, name, into, log.rs),
        BodyV::HostKey => hostkey_next(c, log.rs),
        BodyV::KnownHosts => known_hosts_next(c, log.rs),
        BodyV::SshClone { name } => ssh_clone_next(c, name, log.rs),
        BodyV::Throwaway => throwaway_next(c, "unregistered"@, "unregistered"@, log.rs),
        BodyV::Unregistered { name } => unregistered_next(c, name, log.rs),
        BodyV::Visible { name, head } => visible_next(c, name, head, log.rs),
        BodyV::TreePage { name, head } => tree_page_next(c, name, head, log.rs),
        BodyV::WebPage { name } => web_page_next(c, name, log.rs),
        BodyV::Tiers { name } => crate::stages::identity::tiers_next(c, name, log.rs),
    }
}

/// What a body has learned: the commit `main` is at.
pub open spec fn body_found(b: BodyV, log: LogV) -> Option<Seq<char>> {
    match b {
        BodyV::RevParse { .. } => if log.rs.len() > 0 {
            match said_of(log.rs[0]) {
                Ok(t) => Some(trimmed(t)),
                Err(_) => None,
            }
        } else {
            None
        },
        _ => None,
    }
}

impl Body {
    pub fn next(&self, c: &Run, log: &Log) -> (n: Next)
        ensures
            n@ == body_next(c@, self@, log@),
    {
        match self {
            Body::Create { name } => create_body(c, name.as_str(), log),
            Body::PushBase { name } => push_base_body(c, name.as_str(), log),
            Body::PushHead { name } => push_head_body(c, name.as_str(), log),
            Body::RevParse { name } => rev_parse_body(c, name.as_str(), log),
            Body::CloneHttp { name, into } => clone_http_body(c, name.as_str(), into.as_str(), log),
            Body::HostKey => hostkey_body(c, log),
            Body::KnownHosts => known_hosts(c, log),
            Body::SshClone { name } => ssh_clone_body(c, name.as_str(), log),
            Body::Throwaway => throwaway(c, "unregistered", "unregistered", log),
            Body::Unregistered { name } => unregistered_body(c, name.as_str(), log),
            Body::Visible { name, head } => visible_body(c, name.as_str(), head.as_str(), log),
            Body::TreePage { name, head } => tree_page_body(c, name.as_str(), head.as_str(), log),
            Body::WebPage { name } => web_page_body(c, name.as_str(), log),
            Body::Tiers { name } => crate::stages::identity::tiers_body(c, name.as_str(), log),
        }
    }

    pub fn found(&self, log: &Log) -> (r: Option<String>)
        ensures
            opt(r) == body_found(self@, log@),
    {
        match self {
            Body::RevParse { .. } => {
                if log.rs.len() > 0 {
                    match said(&log.rs[0]) {
                        Ok(t) => Some(trim(t.as_str())),
                        Err(_) => None,
                    }
                } else {
                    None
                }
            },
            _ => None,
        }
    }
}

// ── the stage ───────────────────────────────────────────────────────────────

/// One part of the stage, once it is known whether there is a repo and a first push.
pub enum Part {
    Skip { id: &'static str, why: String },
    Tiers,
    PushHead,
    RevParse,
    CloneOk,
    CloneP95,
    HostKey,
    SshClone,
    Unregistered,
    Browse,
    WebPage,
}

pub enum PartV {
    Skip { id: Seq<char>, why: Seq<char> },
    Tiers,
    PushHead,
    RevParse,
    CloneOk,
    CloneP95,
    HostKey,
    SshClone,
    Unregistered,
    Browse,
    WebPage,
}

impl View for Part {
    type V = PartV;

    open spec fn view(&self) -> PartV {
        match self {
            Part::Skip { id, why } => PartV::Skip { id: id@, why: why@ },
            Part::Tiers => PartV::Tiers,
            Part::PushHead => PartV::PushHead,
            Part::RevParse => PartV::RevParse,
            Part::CloneOk => PartV::CloneOk,
            Part::CloneP95 => PartV::CloneP95,
            Part::HostKey => PartV::HostKey,
            Part::SshClone => PartV::SshClone,
            Part::Unregistered => PartV::Unregistered,
            Part::Browse => PartV::Browse,
            Part::WebPage => PartV::WebPage,
        }
    }
}

pub open spec fn parts_view(v: Seq<Part>) -> Seq<PartV> {
    Seq::new(v.len(), |i: int| v[i]@)
}

/// Every id after the first push, skipped for one reason.
pub open spec fn all_skipped(why: Seq<char>) -> Seq<PartV> {
    Seq::new(8, |i: int| PartV::Skip { id: AFTER_PUSH[i]@, why })
}

/// The parts that follow the create and, where the create worked, the first push (`git.push.ok`,
/// which that push reports itself). Without a repo only the host key still means something.
pub open spec fn parts_after(created: OutcomeV, pushed: bool) -> Seq<PartV> {
    match failure(created) {
        Some(e) => {
            let why = "no repo: "@ + e;
            seq![PartV::Skip { id: "id.jwt.tiers"@, why }, PartV::Skip { id: "git.push.ok"@, why }] + all_skipped(why) + seq![PartV::HostKey]
        },
        None => if !pushed {
            all_skipped("the first push failed"@) + seq![PartV::Tiers, PartV::HostKey]
        } else {
            seq![
                PartV::Tiers, PartV::PushHead, PartV::RevParse, PartV::CloneOk, PartV::CloneP95, PartV::HostKey, PartV::SshClone,
                PartV::Unregistered, PartV::Browse, PartV::WebPage,
            ]
        },
    }
}

fn skip_all(parts: &mut Vec<Part>, why: &str)
    ensures
        parts_view(final(parts)@) == parts_view(old(parts)@) + all_skipped(why@),
{
    let ghost before = parts@;
    let mut i: usize = 0;
    proof {
        assert(parts_view(parts@) =~= parts_view(before) + all_skipped(why@).take(0));
    }
    while i < 8
        invariant
            i <= 8,
            parts_view(parts@) == parts_view(before) + all_skipped(why@).take(i as int),
        decreases 8 - i,
    {
        let ghost mid = parts@;
        parts.push(Part::Skip { id: AFTER_PUSH[i], why: why.to_owned() });
        proof {
            assert(parts_view(parts@) =~= parts_view(mid).push(all_skipped(why@)[i as int]));
            assert(all_skipped(why@).take(i + 1) =~= all_skipped(why@).take(i as int).push(all_skipped(why@)[i as int]));
            assert(parts_view(parts@) =~= parts_view(before) + all_skipped(why@).take(i + 1));
        }
        i = i + 1;
    }
    proof {
        assert(all_skipped(why@).take(8) =~= all_skipped(why@));
    }
}

/// What the stage does after the create and the first push.
pub fn run(created: &Outcome, pushed: bool) -> (r: Vec<Part>)
    ensures
        parts_view(r@) == parts_after(created@, pushed),
{
    let mut r: Vec<Part> = Vec::new();
    match created.failure() {
        Some(e) => {
            let why = cat2("no repo: ", e.as_str());
            r.push(Part::Skip { id: "id.jwt.tiers", why: why.clone() });
            r.push(Part::Skip { id: "git.push.ok", why: why.clone() });
            proof {
                assert(parts_view(r@) =~= seq![
                    PartV::Skip { id: "id.jwt.tiers"@, why: why@ }, PartV::Skip { id: "git.push.ok"@, why: why@ },
                ]);
            }
            skip_all(&mut r, why.as_str());
            let ghost before = r@;
            r.push(Part::HostKey);
            proof {
                assert(parts_view(r@) =~= parts_view(before) + seq![PartV::HostKey]);
            }
        },
        None => {
            if !pushed {
                skip_all(&mut r, "the first push failed");
                let ghost before = r@;
                r.push(Part::Tiers);
                r.push(Part::HostKey);
                proof {
                    assert(parts_view(before) =~= all_skipped("the first push failed"@));
                    assert(parts_view(r@) =~= parts_view(before) + seq![PartV::Tiers, PartV::HostKey]);
                }
            } else {
                r.push(Part::Tiers);
                r.push(Part::PushHead);
                r.push(Part::RevParse);
                r.push(Part::CloneOk);
                r.push(Part::CloneP95);
                r.push(Part::HostKey);
                r.push(Part::SshClone);
                r.push(Part::Unregistered);
                r.push(Part::Browse);
                r.push(Part::WebPage);
                proof {
                    assert(parts_view(r@) =~= parts_after(created@, pushed));
                }
            }
        },
    }
    r
}

/// What a part knows: the repo's name, whether the probe's key was registered, and the commit
/// `main` is at.
pub struct Known {
    pub name: String,
    pub key: Option<String>,
    pub head: Option<String>,
}

pub struct KnownV {
    pub name: Seq<char>,
    pub key: Option<Seq<char>>,
    pub head: Option<Seq<char>>,
}

impl View for Known {
    type V = KnownV;

    open spec fn view(&self) -> KnownV {
        KnownV { name: self.name@, key: opt(self.key), head: opt(self.head) }
    }
}

pub open spec fn hostkey_move(c: RunV, os: Seq<OutcomeV>) -> MoveV<BodyV> {
    one_move("ssh.hostkey"@, 30_000, NO_PIN@, if trimmed(c.ssh_hostkey).len() == 0 { None } else { Some(BodyV::HostKey) }, os)
}

pub open spec fn ssh_clone_move(k: KnownV, os: Seq<OutcomeV>) -> MoveV<BodyV> {
    let id = "ssh.clone.ok"@;
    if k.key is None {
        if os.len() == 0 { MoveV::Skip { id, why: "the probe's key was never registered"@ } } else { MoveV::End }
    } else if os.len() == 0 {
        MoveV::Look { body: BodyV::KnownHosts }
    } else if os.len() == 1 {
        match failure(os[0]) {
            Some(why) => MoveV::Skip { id, why },
            None => MoveV::Step { id, ceiling_ms: GIT_MS, body: BodyV::SshClone { name: k.name } },
        }
    } else {
        MoveV::End
    }
}

pub open spec fn unregistered_move(k: KnownV, os: Seq<OutcomeV>) -> MoveV<BodyV> {
    let id = "ssh.unregistered.refused"@;
    if os.len() == 0 {
        MoveV::Look { body: BodyV::KnownHosts }
    } else {
        match failure(os[0]) {
            Some(why) => if os.len() == 1 { MoveV::Skip { id, why } } else { MoveV::End },
            None => if os.len() == 1 {
                MoveV::Look { body: BodyV::Throwaway }
            } else if os.len() == 2 {
                match failure(os[1]) {
                    Some(why) => MoveV::Skip { id, why },
                    None => MoveV::Step { id, ceiling_ms: GIT_MS, body: BodyV::Unregistered { name: k.name } },
                }
            } else {
                MoveV::End
            },
        }
    }
}

pub open spec fn browse_move(c: RunV, k: KnownV, os: Seq<OutcomeV>) -> MoveV<BodyV> {
    match k.head {
        None => if os.len() == 0 {
            MoveV::Skip { id: "browse.p95"@, why: "nothing was pushed"@ }
        } else if os.len() == 1 {
            MoveV::Skip { id: "browse.commit.visible"@, why: "nothing was pushed"@ }
        } else {
            MoveV::End
        },
        Some(head) => if os.len() == 0 {
            MoveV::Step {
                id: "browse.commit.visible"@,
                ceiling_ms: (VISIBLE_CAP_MS + 10_000) as u64,
                body: BodyV::Visible { name: k.name, head },
            }
        } else if os.len() == 1 {
            MoveV::Step { id: "browse.p95"@, ceiling_ms: c.step_ms, body: BodyV::TreePage { name: k.name, head } }
        } else {
            MoveV::End
        },
    }
}

/// The move a part makes next.
pub open spec fn part_move(c: RunV, k: KnownV, p: PartV, os: Seq<OutcomeV>) -> MoveV<BodyV> {
    match p {
        PartV::Skip { id, why } => one_move(id, 0, why, None, os),
        PartV::Tiers => one_move("id.jwt.tiers"@, c.step_ms, ""@, Some(BodyV::Tiers { name: k.name }), os),
        PartV::PushHead => one_move("git.push.p95"@, GIT_MS, ""@, Some(BodyV::PushHead { name: k.name }), os),
        PartV::RevParse => if os.len() == 0 { MoveV::Look { body: BodyV::RevParse { name: k.name } } } else { MoveV::End },
        PartV::CloneOk => one_move("git.clone.ok"@, GIT_MS, ""@, Some(BodyV::CloneHttp { name: k.name, into: "clone-a"@ }), os),
        PartV::CloneP95 => one_move("git.clone.p95"@, GIT_MS, ""@, Some(BodyV::CloneHttp { name: k.name, into: "clone-b"@ }), os),
        PartV::HostKey => hostkey_move(c, os),
        PartV::SshClone => ssh_clone_move(k, os),
        PartV::Unregistered => unregistered_move(k, os),
        PartV::Browse => browse_move(c, k, os),
        PartV::WebPage => one_move("web.repo.page"@, c.step_ms, ""@, Some(BodyV::WebPage { name: k.name }), os),
    }
}

/// `ssh.hostkey`: the pinned key is the one that is served.
pub fn hostkey(c: &Run, os: &Vec<Outcome>) -> (m: Move<Body>)
    ensures
        m@ == hostkey_move(c@, outcomes(os@)),
{
    let body = if trim(c.ssh_hostkey.as_str()).as_str().is_empty() { None } else { Some(Body::HostKey) };
    one("ssh.hostkey", 30_000, NO_PIN, body, os)
}

/// `ssh.clone.ok`: the registered key clones the repo.
pub fn ssh_clone(k: &Known, os: &Vec<Outcome>) -> (m: Move<Body>)
    ensures
        m@ == ssh_clone_move(k@, outcomes(os@)),
{
    let id = "ssh.clone.ok";
    if k.key.is_none() {
        if os.len() == 0 { skip(id, "the probe's key was never registered") } else { Move::End }
    } else if os.len() == 0 {
        look(Body::KnownHosts)
    } else if os.len() == 1 {
        match os[0].failure() {
            Some(why) => skip(id, why.as_str()),
            None => step(id, GIT_MS, Body::SshClone { name: k.name.clone() }),
        }
    } else {
        Move::End
    }
}

/// `ssh.unregistered.refused`: a key the fleet has never seen is refused.
pub fn unregistered_refused(k: &Known, os: &Vec<Outcome>) -> (m: Move<Body>)
    ensures
        m@ == unregistered_move(k@, outcomes(os@)),
{
    let id = "ssh.unregistered.refused";
    if os.len() == 0 {
        look(Body::KnownHosts)
    } else {
        match os[0].failure() {
            Some(why) => {
                if os.len() == 1 { skip(id, why.as_str()) } else { Move::End }
            },
            None => {
                if os.len() == 1 {
                    look(Body::Throwaway)
                } else if os.len() == 2 {
                    match os[1].failure() {
                        Some(why) => skip(id, why.as_str()),
                        None => step(id, GIT_MS, Body::Unregistered { name: k.name.clone() }),
                    }
                } else {
                    Move::End
                }
            },
        }
    }
}

/// `browse.commit.visible` and `browse.p95`: the browse API, through the api tier.
pub fn browse(c: &Run, k: &Known, os: &Vec<Outcome>) -> (m: Move<Body>)
    ensures
        m@ == browse_move(c@, k@, outcomes(os@)),
{
    match &k.head {
        None => {
            if os.len() == 0 {
                skip("browse.p95", "nothing was pushed")
            } else if os.len() == 1 {
                skip("browse.commit.visible", "nothing was pushed")
            } else {
                Move::End
            }
        },
        Some(head) => {
            if os.len() == 0 {
                step("browse.commit.visible", VISIBLE_CAP_MS + 10_000, Body::Visible { name: k.name.clone(), head: head.clone() })
            } else if os.len() == 1 {
                step("browse.p95", c.step_ms, Body::TreePage { name: k.name.clone(), head: head.clone() })
            } else {
                Move::End
            }
        },
    }
}

/// The stage a part is reported under: the tiers need the repository that this one makes, and are
/// an answer about the identity all the same.
pub open spec fn stage_of(p: PartV) -> Seq<char> {
    if p is Tiers { IDENTITY@ } else { GIT@ }
}

impl Part {
    pub fn stage(&self) -> (r: &'static str)
        ensures
            r@ == stage_of(self@),
    {
        match self {
            Part::Tiers => IDENTITY,
            _ => GIT,
        }
    }

    pub fn next(&self, c: &Run, k: &Known, os: &Vec<Outcome>) -> (m: Move<Body>)
        ensures
            m@ == part_move(c@, k@, self@, outcomes(os@)),
    {
        match self {
            Part::Skip { id, why } => one(id, 0, why.as_str(), None, os),
            Part::Tiers => one("id.jwt.tiers", c.step_ms, "", Some(Body::Tiers { name: k.name.clone() }), os),
            Part::PushHead => one("git.push.p95", GIT_MS, "", Some(Body::PushHead { name: k.name.clone() }), os),
            Part::RevParse => {
                if os.len() == 0 { look(Body::RevParse { name: k.name.clone() }) } else { Move::End }
            },
            Part::CloneOk => one(
                "git.clone.ok", GIT_MS, "", Some(Body::CloneHttp { name: k.name.clone(), into: "clone-a".to_owned() }), os,
            ),
            Part::CloneP95 => one(
                "git.clone.p95", GIT_MS, "", Some(Body::CloneHttp { name: k.name.clone(), into: "clone-b".to_owned() }), os,
            ),
            Part::HostKey => hostkey(c, os),
            Part::SshClone => ssh_clone(k, os),
            Part::Unregistered => unregistered_refused(k, os),
            Part::Browse => browse(c, k, os),
            Part::WebPage => one("web.repo.page", c.step_ms, "", Some(Body::WebPage { name: k.name.clone() }), os),
        }
    }
}

/// How the stage begins: a repo named after the run, and the first push into it.
pub open spec fn opening_move(c: RunV, os: Seq<OutcomeV>) -> MoveV<BodyV> {
    if os.len() == 0 {
        MoveV::Look { body: BodyV::Create { name: prefix_of(c) } }
    } else if os.len() == 1 && failure(os[0]) is None {
        MoveV::Step { id: "git.push.ok"@, ceiling_ms: GIT_MS, body: BodyV::PushBase { name: prefix_of(c) } }
    } else {
        MoveV::End
    }
}

/// The create and, where it worked, `git.push.ok`. What is done locally is in that step: a tree that
/// cannot be written is a push that did not happen.
pub fn opening(c: &Run, os: &Vec<Outcome>) -> (m: Move<Body>)
    ensures
        m@ == opening_move(c@, outcomes(os@)),
{
    if os.len() == 0 {
        look(Body::Create { name: prefix(c) })
    } else if os.len() == 1 && os[0].failure().is_none() {
        step("git.push.ok", GIT_MS, Body::PushBase { name: prefix(c) })
    } else {
        Move::End
    }
}

/// The ids a part owes.
pub open spec fn ids_of(k: KnownV, p: PartV) -> Seq<Seq<char>> {
    match p {
        PartV::Skip { id, .. } => seq![id],
        PartV::Tiers => seq!["id.jwt.tiers"@],
        PartV::PushHead => seq!["git.push.p95"@],
        PartV::RevParse => seq![],
        PartV::CloneOk => seq!["git.clone.ok"@],
        PartV::CloneP95 => seq!["git.clone.p95"@],
        PartV::HostKey => seq!["ssh.hostkey"@],
        PartV::SshClone => seq!["ssh.clone.ok"@],
        PartV::Unregistered => seq!["ssh.unregistered.refused"@],
        PartV::Browse => if k.head is None {
            seq!["browse.p95"@, "browse.commit.visible"@]
        } else {
            seq!["browse.commit.visible"@, "browse.p95"@]
        },
        PartV::WebPage => seq!["web.repo.page"@],
    }
}

/// The ids that some parts owe, one part after the other.
pub open spec fn all_ids_of(k: KnownV, ps: Seq<PartV>) -> Seq<Seq<char>>
    decreases ps.len(),
{
    if ps.len() == 0 { seq![] } else { all_ids_of(k, ps.drop_last()) + ids_of(k, ps.last()) }
}

/// Every part reports its ids exactly once, and the beginning reports the push where there is a repo.
pub proof fn law_every_part_is_reported_once(c: RunV, k: KnownV, p: PartV, os: Seq<OutcomeV>)
    ensures
        reports_exactly(|o: Seq<OutcomeV>| part_move(c, k, p, o), os, ids_of(k, p), 3),
        reports_exactly(
            |o: Seq<OutcomeV>| opening_move(c, o), os,
            if os.len() > 0 && failure(os[0]) is None { seq!["git.push.ok"@] } else { Seq::<Seq<char>>::empty() }, 3,
        ),
    decreases os.len(),
{
    reveal_with_fuel(reports, 4);
    if os.len() > 3 {
        law_every_part_is_reported_once(c, k, p, os.drop_last());
    }
}

/// The ids the stage owes.
pub open spec fn owed() -> Seq<Seq<char>> {
    seq![
        "id.jwt.tiers"@, "git.push.ok"@, "git.push.p95"@, "git.clone.ok"@, "git.clone.p95"@, "ssh.clone.ok"@,
        "ssh.unregistered.refused"@, "browse.p95"@, "browse.commit.visible"@, "web.repo.page"@, "ssh.hostkey"@,
    ]
}

proof fn lemma_one(k: KnownV, p: PartV)
    ensures
        all_ids_of(k, seq![p]) == ids_of(k, p),
{
    reveal_with_fuel(all_ids_of, 2);
    assert(seq![p].drop_last() =~= Seq::<PartV>::empty());
    assert(all_ids_of(k, seq![p]) =~= ids_of(k, p));
}

proof fn lemma_joined_ids(k: KnownV, a: Seq<PartV>, b: Seq<PartV>)
    ensures
        all_ids_of(k, a + b) == all_ids_of(k, a) + all_ids_of(k, b),
    decreases b.len(),
{
    if b.len() == 0 {
        assert(a + b =~= a);
        assert(all_ids_of(k, a) + all_ids_of(k, b) =~= all_ids_of(k, a));
    } else {
        lemma_joined_ids(k, a, b.drop_last());
        assert((a + b).drop_last() =~= a + b.drop_last());
        assert(all_ids_of(k, a + b) =~= all_ids_of(k, a) + all_ids_of(k, b));
    }
}

proof fn lemma_two(k: KnownV, p: PartV, q: PartV)
    ensures
        all_ids_of(k, seq![p, q]) == ids_of(k, p) + ids_of(k, q),
{
    lemma_one(k, p);
    lemma_one(k, q);
    lemma_joined_ids(k, seq![p], seq![q]);
    assert(seq![p] + seq![q] =~= seq![p, q]);
}

proof fn lemma_skipped_ids(k: KnownV, why: Seq<char>, n: int)
    requires
        0 <= n <= 8,
    ensures
        all_ids_of(k, all_skipped(why).take(n)) == Seq::new(n as nat, |i: int| AFTER_PUSH[i]@),
    decreases n,
{
    let ps = all_skipped(why).take(n);
    if n > 0 {
        lemma_skipped_ids(k, why, n - 1);
        assert(ps.drop_last() =~= all_skipped(why).take(n - 1));
        assert(ps.last() == PartV::Skip { id: AFTER_PUSH[n - 1]@, why });
    }
    assert(all_ids_of(k, ps) =~= Seq::new(n as nat, |i: int| AFTER_PUSH[i]@));
}

/// Whether there is a repo, and whether the first push worked, the same eleven ids are reported: those of
/// the beginning, and those of the parts that follow it.
#[verifier::spinoff_prover]
#[verifier::rlimit(60)]
pub proof fn law_no_id_is_dropped(k: KnownV, created: OutcomeV, pushed: bool)
    ensures
        ({
            let first = if failure(created) is None { seq!["git.push.ok"@] } else { Seq::<Seq<char>>::empty() };
            let all = first + all_ids_of(k, parts_after(created, pushed));
            &&& all.len() == owed().len()
            &&& forall|i: int| 0 <= i < owed().len() ==> all.contains(#[trigger] owed()[i])
        }),
{
    let ps = parts_after(created, pushed);
    let first = if failure(created) is None { seq!["git.push.ok"@] } else { Seq::<Seq<char>>::empty() };
    let all = first + all_ids_of(k, ps);
    match failure(created) {
        Some(e) => {
            let why = "no repo: "@ + e;
            let head = seq![PartV::Skip { id: "id.jwt.tiers"@, why }, PartV::Skip { id: "git.push.ok"@, why }];
            lemma_two(k, head[0], head[1]);
            assert(head =~= seq![head[0], head[1]]);
            lemma_joined_ids(k, head, all_skipped(why));
            lemma_skipped_ids(k, why, 8);
            assert(all_skipped(why).take(8) =~= all_skipped(why));
            lemma_one(k, PartV::HostKey);
            lemma_joined_ids(k, head + all_skipped(why), seq![PartV::HostKey]);
            assert(all[0] == owed()[0] && all[1] == owed()[1] && all[10] == owed()[10]);
            assert(forall|i: int| 2 <= i < 10 ==> all[i] == #[trigger] owed()[i]);
        },
        None => if !pushed {
            let why = "the first push failed"@;
            lemma_skipped_ids(k, why, 8);
            assert(all_skipped(why).take(8) =~= all_skipped(why));
            lemma_two(k, PartV::Tiers, PartV::HostKey);
            lemma_joined_ids(k, all_skipped(why), seq![PartV::Tiers, PartV::HostKey]);
            assert(all[9] == owed()[0] && all[0] == owed()[1] && all[10] == owed()[10]);
            assert(forall|i: int| 2 <= i < 10 ==> all[i - 1] == #[trigger] owed()[i]);
        } else {
            lemma_two(k, PartV::Tiers, PartV::PushHead);
            lemma_two(k, PartV::RevParse, PartV::CloneOk);
            lemma_two(k, PartV::CloneP95, PartV::HostKey);
            lemma_two(k, PartV::SshClone, PartV::Unregistered);
            lemma_two(k, PartV::Browse, PartV::WebPage);
            let a = seq![PartV::Tiers, PartV::PushHead];
            let b = a + seq![PartV::RevParse, PartV::CloneOk];
            let d = b + seq![PartV::CloneP95, PartV::HostKey];
            let e = d + seq![PartV::SshClone, PartV::Unregistered];
            lemma_joined_ids(k, a, seq![PartV::RevParse, PartV::CloneOk]);
            lemma_joined_ids(k, b, seq![PartV::CloneP95, PartV::HostKey]);
            lemma_joined_ids(k, d, seq![PartV::SshClone, PartV::Unregistered]);
            lemma_joined_ids(k, e, seq![PartV::Browse, PartV::WebPage]);
            assert(ps =~= e + seq![PartV::Browse, PartV::WebPage]);
            assert(all[0] == owed()[1]);
            assert(all[1] == owed()[0]);
            assert(all[2] == owed()[2]);
            assert(all[3] == owed()[3]);
            assert(all[4] == owed()[4]);
            assert(all[5] == owed()[10]);
            assert(all[6] == owed()[5]);
            assert(all[7] == owed()[6]);
            assert(all[10] == owed()[9]);
            if k.head is None {
                assert(all[8] == owed()[7] && all[9] == owed()[8]);
            } else {
                assert(all[9] == owed()[7] && all[8] == owed()[8]);
            }
        },
    }
}

/// A create that failed is one failure, which is counted where it happened: all that follows is skipped
/// but the host key, which is served whether there is a repo or not.
pub proof fn law_without_a_repo_everything_is_skipped(c: RunV, k: KnownV, created: OutcomeV, pushed: bool, i: int)
    requires
        failure(created) is Some,
        0 <= i < parts_after(created, pushed).len() - 1,
    ensures
        part_move(c, k, parts_after(created, pushed)[i], seq![]) is Skip,
        parts_after(created, pushed).last() == PartV::HostKey,
{
}

/// What the stage leaves for the next: its repo, unless the create of it failed.
pub open spec fn left(c: RunV, s: StateV, os: Seq<OutcomeV>) -> StateV {
    if os.len() > 0 && failure(os[0]) is None { StateV { repo: Some(prefix_of(c)), ..s } } else { s }
}

/// `os` is how the opening went.
pub fn leaves(c: &Run, s: &State, os: &Vec<Outcome>) -> (t: State)
    ensures
        t@ == left(c@, s@, outcomes(os@)),
{
    let mut t = s.copy();
    if os.len() > 0 && os[0].failure().is_none() {
        t.repo = Some(prefix(c));
    }
    t
}

/// Whether the opening came to a first push.
pub fn was_pushed(os: &Vec<Outcome>) -> (r: bool)
    ensures
        r == passed_by(outcomes(os@), 1),
{
    did_pass(os, 1)
}

/// What the parts know to begin with: the repo's name, and the key that was registered.
pub open spec fn known_first(c: RunV, s: StateV) -> KnownV {
    KnownV { name: prefix_of(c), key: s.key, head: None }
}

/// What they know once a part is over: the commit that was pushed, from the part that reads it.
pub open spec fn known_after(k: KnownV, p: PartV, os: Seq<OutcomeV>) -> KnownV {
    if p is RevParse { KnownV { head: learned_by(os, 0), ..k } } else { k }
}

impl Known {
    pub fn first(c: &Run, s: &State) -> (k: Known)
        ensures
            k@ == known_first(c@, s@),
    {
        Known { name: prefix(c), key: s.key.clone(), head: None }
    }

    pub fn after(&self, p: &Part, os: &Vec<Outcome>) -> (k: Known)
        ensures
            k@ == known_after(self@, p@, outcomes(os@)),
    {
        let head = match p {
            Part::RevParse => learned(os, 0),
            _ => self.head.clone(),
        };
        Known { name: self.name.clone(), key: self.key.clone(), head }
    }
}

} // verus!
