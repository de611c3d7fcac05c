//! Of what is asked for on the way: each thing once what came before it was done, and nothing in its place.

use vstd::prelude::*;

use crate::json::{Doc, member, text_of};
use crate::laws::repos::{told_number, with_this_token};
use crate::laws::workspaces::{creates, in_pod, made_one, one_made, until_ready};
use crate::laws::{doc_in, waits_until};
use crate::outside::{base64_text, json_text};
use crate::run::{RunV, api_at, admin_at, joined_path, tmp_at};
use crate::stages::gaps::{console, identity as account, pulls, surface, teams as own_teams};
use crate::stages::git;
use crate::stages::git::{git_asks, http_remote, work_tree};
use crate::stages::identity;
use crate::stages::monthly::nodes;
use crate::stages::monthly::outages;
use crate::stages::monthly::removed;
use crate::stages::quota_usage;
use crate::stages::registry;
use crate::stages::security;
use crate::stages::teams::membership;
use crate::stages::teams::paused;
use crate::stages::teams::repos;
use crate::stages::teams::untimed;
use crate::stages::trees;
use crate::stages::weekly;
use crate::stages::ws;
use crate::wait::WaitV;
use crate::want::{WantV, says};
use crate::wire::{AskV, Cluster, Kind, LogV, NextV, PayloadV, Program, ReplyV, Verb, calling, deleting, getting, posting, posting_nothing};

verus! {

/// A body that asks asks for just this.
pub open spec fn asks_for(n: NextV, ask: AskV) -> bool {
    n is Ask ==> n == NextV::Ask(ask)
}

/// A program of the machine's own, run without anything around it.
pub open spec fn runs(n: NextV, program: Program, argv: Seq<Seq<char>>) -> bool {
    n is Ask ==> (n matches NextV::Ask(AskV::Tool { program: p, argv: a, .. }) && p == program && a == argv)
}

/// The first two pushes are made of a tree of the repo's own: it is made, begun, written to and committed in order.
pub proof fn law_a_tree_is_written_before_it_is_pushed(c: RunV, name: Seq<char>, into: Seq<char>, log: LogV)
    ensures
        ({
            let n = git::body_next(c, git::BodyV::PushBase { name }, log);
            let rs = log.rs;
            let dir = work_tree(c, name);
            &&& rs.len() == 0 ==> asks_for(n, AskV::Mkdir { path: dir })
            &&& rs.len() == 1 ==> asks_for(n, git_asks(c, seq!["init"@, "-q"@, "--initial-branch="@ + "main"@], dir))
            &&& rs.len() == 2 ==> asks_for(n, AskV::Write { path: joined_path(dir, "README.md"@), text: "# "@ + name + "\n"@ })
            &&& rs.len() == 3 ==> asks_for(n, git_asks(c, seq!["add"@, "-A"@], dir))
            &&& rs.len() == 4 ==> asks_for(n, git_asks(c, seq!["commit"@, "-q"@, "-m"@, "seed"@], dir))
        }),
        ({
            let n = git::body_next(c, git::BodyV::PushHead { name }, log);
            let rs = log.rs;
            let dir = work_tree(c, name);
            &&& rs.len() == 1 ==> asks_for(n, AskV::Write { path: joined_path(dir, "change.txt"@), text: c.run_id + "\n"@ })
            &&& rs.len() == 2 ==> asks_for(n, git_asks(c, seq!["add"@, "-A"@], dir))
            &&& rs.len() == 3 ==> asks_for(n, git_asks(c, seq!["commit"@, "-q"@, "-m"@, "change"@], dir))
        }),
        log.rs.len() == 0 ==> asks_for(git::body_next(c, git::BodyV::CloneHttp { name, into }, log), AskV::Discard { path: tmp_at(c, into) }),
        log.rs.len() == 0 ==> asks_for(git::body_next(c, git::BodyV::SshClone { name }, log), AskV::Discard { path: tmp_at(c, "clone-ssh"@) }),
        log.rs.len() == 2 ==> runs(
            git::body_next(c, git::BodyV::HostKey, log), Program::SshKeygen, seq!["-lf"@, tmp_at(c, "served_hostkeys"@)],
        ),
        work_tree(c, name) == joined_path(tmp_at(c, "git"@), name),
{
}

/// A key of one's own is made anew, both of its halves, and its public half is what its private one says.
pub proof fn law_a_key_is_made_anew(c: RunV, name: Seq<char>, log: LogV)
    ensures
        ({
            let n = git::body_next(c, git::BodyV::Throwaway, log);
            &&& log.rs.len() == 0 ==> asks_for(n, AskV::Discard { path: tmp_at(c, "unregistered"@) })
            &&& log.rs.len() == 1 ==> asks_for(n, AskV::Discard { path: tmp_at(c, "unregistered"@) + ".pub"@ })
        }),
        ({
            let n = account::body_next(c, account::BodyV::Throwaway, log);
            &&& log.rs.len() == 0 ==> asks_for(n, AskV::Discard { path: tmp_at(c, "lifecycle-key"@) })
            &&& log.rs.len() == 1 ==> asks_for(n, AskV::Discard { path: tmp_at(c, "lifecycle-key"@) + ".pub"@ })
            &&& log.rs.len() == 2 ==> runs(
                n, Program::SshKeygen,
                seq!["-q"@, "-t"@, "ed25519"@, "-N"@, ""@, "-C"@, "slo lifecycle"@, "-f"@, tmp_at(c, "lifecycle-key"@)],
            )
            &&& n is Pass <==> log.rs.len() > 2 && log.rs[2] is Said
        }),
        log.rs.len() == 0 ==> runs(
            account::body_next(c, account::BodyV::PublicKey, log), Program::SshKeygen, seq!["-y"@, "-f"@, tmp_at(c, "lifecycle-key"@)],
        ),
        log.rs.len() == 0 ==> runs(
            identity::body_next(c, identity::BodyV::Key { name }, log), Program::SshKeygen, seq!["-y"@, "-f"@, c.ssh_key_path],
        ),
        log.rs.len() == 3 ==> asks_for(
            identity::body_next(c, identity::BodyV::CliFlow { name }, log), getting(api_at(c, "/v1/cli/tokens"@), c.probe_jwt),
        ),
        account::body_next(c, account::BodyV::KnownHosts, log) == git::body_next(c, git::BodyV::KnownHosts, log),
{
}

/// A login is begun by nobody for the device's own name, approved by the run's session, and collected by nobody.
pub open spec fn logs_in(n: NextV, c: RunV, device: Seq<char>, rs: Seq<ReplyV>, k: int) -> bool {
    &&& rs.len() == k ==> asks_for(n, posting(api_at(c, "/v1/cli/code"@), ""@, Doc::Obj(seq![("device"@, Doc::Str(device))])))
    &&& rs.len() == k + 1 ==> asks_for(
        n, posting(api_at(c, "/v1/cli/approve"@), c.probe_jwt, Doc::Obj(seq![("code"@, Doc::Str(text_of(doc_in(rs[k]), "code"@)->0))])),
    )
    &&& rs.len() == k + 2 ==> asks_for(n, getting(api_at(c, "/v1/cli/token?poll="@ + text_of(doc_in(rs[k]), "poll"@)->0), ""@))
    &&& rs.len() == k + 3 ==> asks_for(n, getting(api_at(c, "/v1/cli/tokens"@), c.probe_jwt))
}

/// The login as the command line stores it, in a home of its own.
pub open spec fn stages_login(n: NextV, c: RunV, home: Seq<char>, rs: Seq<ReplyV>) -> bool {
    &&& rs.len() == 4 ==> asks_for(n, AskV::Mkdir { path: joined_path(tmp_at(c, home), ".config/kl-connect"@) })
    &&& rs.len() == 5 ==> asks_for(
        n,
        AskV::Write {
            path: joined_path(joined_path(tmp_at(c, home), ".config/kl-connect"@), "config.json"@),
            text: json_text(Doc::Obj(seq![
                ("api"@, Doc::Str(c.api_url)),
                ("token"@, Doc::Str(text_of(doc_in(rs[2]), "token"@)->0)),
                ("expires_at"@, Doc::Str("2099-01-01T00:00:00Z"@)),
                ("username"@, Doc::Str(c.probe_user)),
            ])),
        },
    )
    &&& rs.len() >= 6 ==> (n matches NextV::Ask(AskV::Tool { env, .. }) ==> env == seq![
        ("HOME"@, tmp_at(c, home)),
        ("KL_CONFIG_DIR"@, joined_path(tmp_at(c, home), ".config/kl-connect"@)),
    ])
}

/// Every login of the command line's is walked in one way, and staged where the program reads it.
pub proof fn law_a_login_is_walked_in_one_way(c: RunV, ws: Seq<char>, device: Seq<char>, team: Seq<char>, ns: Seq<char>, log: LogV)
    ensures
        logs_in(account::body_next(c, account::BodyV::CliTokens { device }, log), c, device, log.rs, 0),
        logs_in(account::body_next(c, account::BodyV::SshConfig { ws, device }, log), c, device, log.rs, 0),
        logs_in(surface::body_next(c, surface::BodyV::KlCommands { device }, log), c, device, log.rs, 0),
        logs_in(paused::body_next(c, paused::BodyV::Prepare { team, ns }, log), c, team + "-tool"@, log.rs, 7),
        stages_login(account::body_next(c, account::BodyV::SshConfig { ws, device }, log), c, "klhome"@, log.rs),
        stages_login(surface::body_next(c, surface::BodyV::KlCommands { device }, log), c, "klhome-cmd"@, log.rs),
{
}

/// What is pulled is pulled anew, and a credential for the canary is the tenant's own.
pub proof fn law_an_image_is_pulled_anew(c: RunV, a: Seq<char>, b: Seq<char>, layer: Seq<char>, secret: Seq<char>, log: LogV)
    ensures
        log.rs.len() == 1 ==> asks_for(
            registry::body_next(c, registry::BodyV::SharedLayer { a, b, layer }, log), AskV::Discard { path: tmp_at(c, "pull-a"@) },
        ),
        log.rs.len() == 0 || log.rs.len() == 3 ==> asks_for(
            registry::body_next(c, registry::BodyV::Visibility { image: a }, log), AskV::Discard { path: tmp_at(c, "pull-anon"@) },
        ),
        log.rs.len() == 1 ==> asks_for(
            registry::body_next(c, registry::BodyV::EnsureCanary, log),
            posting(
                api_at(c, "/v1/tokens"@), c.probe_jwt,
                Doc::Obj(seq![("owner"@, Doc::Str(c.tenant)), ("name"@, Doc::Str("slo-bootstrap-canary"@))]),
            ),
        ),
        log.rs.len() == 0 ==> asks_for(
            security::body_next(c, security::BodyV::AWorkspace { ours: Some(a) }, log),
            AskV::List { cluster: Cluster::Fleet, kind: Kind::Workspace, ns: seq![] },
        ),
        log.rs.len() == 0 ==> asks_for(
            security::body_next(c, security::BodyV::MayImpersonate, log),
            AskV::Put {
                cluster: Cluster::Fleet, kind: Kind::AccessReview, ns: seq![], name: seq![],
                body: Doc::Obj(seq![("spec"@, Doc::Obj(seq![("resourceAttributes"@, Doc::Obj(seq![
                    ("resource"@, Doc::Str("serviceaccounts"@)),
                    ("verb"@, Doc::Str("impersonate"@)),
                ]))]))]),
            },
        ),
{
}

/// Use is made by two hundred mebibytes that are written into the tree and flushed.
pub proof fn law_use_is_made_by_what_is_written(c: RunV, w: Seq<char>, beat_secs: u64, log: LogV)
    ensures
        log.rs.len() == 1 ==> asks_for(
            quota_usage::body_next(c, quota_usage::BodyV::Stamp { ws: w, beat_secs }, log),
            AskV::Exec {
                ws: w,
                script: ws::tool_script(
                    "exec"@,
                    Doc::Obj(seq![(
                        "cmd"@,
                        Doc::Str(
                            "dd if=/dev/urandom of="@ + "/home/kl/workspace"@ + "/slo-usage.bin bs=1M count="@ + crate::text::dec(200) + " conv=fsync"@,
                        ),
                    )]),
                ),
                bound_ms: 45_000,
            },
        ),
{
}

/// A tree is waited for by its own name, cut or gone, and what is written in it is written by the tool server.
pub proof fn law_a_tree_is_waited_for_by_its_name(c: RunV, name: Seq<char>, w: Seq<char>, copy: Seq<char>, log: LogV)
    ensures
        ({
            let n = trees::body_next(c, trees::BodyV::Cut { name }, log);
            let id = one_made(log.rs[0]);
            &&& log.rs.len() == 2 ==> asks_for(n, AskV::Wait(WaitV::Health { ws: id, cap_ms: 120_000 }))
            &&& log.rs.len() == 4 && n is Ask ==> waits_until(
                n, api_at(c, "/v1/workspaces/"@ + id), c.probe_jwt, 30_000, |d: Doc| says(WantV::TreeReady { name: "probe"@ }, d),
            )
        }),
        ({
            let n = trees::body_next(c, trees::BodyV::Ports { ws: w }, log);
            let holder = Doc::Str("ttyd -p 20001 -i 127.0.0.1 sleep 600"@);
            &&& log.rs.len() == 0 ==> asks_for(
                n, in_pod(w, "exec"@, seq![("cmd"@, Doc::Str("echo $PORT $KL_PORT_RANGE"@)), ("tree"@, Doc::Str("probe"@))]),
            )
            &&& log.rs.len() == 1 ==> asks_for(n, in_pod(w, "exec"@, seq![("cmd"@, holder), ("detach"@, Doc::Bool(true))]))
            &&& log.rs.len() == 2 || log.rs.len() == 4 ==> asks_for(n, AskV::Sleep { ms: 3_000 })
            &&& log.rs.len() == 3 ==> asks_for(
                n, in_pod(w, "exec"@, seq![("cmd"@, holder), ("detach"@, Doc::Bool(true)), ("tree"@, Doc::Str("probe"@))]),
            )
        }),
        ({
            let n = trees::body_next(c, trees::BodyV::NoTravel { ws: w, copy }, log);
            &&& log.rs.len() == 0 ==> asks_for(
                n,
                in_pod(w, "write"@, seq![
                    ("path"@, Doc::Str("only-here.txt"@)),
                    ("content"@, Doc::Str("a subagent's work"@)),
                    ("tree"@, Doc::Str("probe"@)),
                ]),
            )
            &&& log.rs.len() == 1 ==> asks_for(
                n, posting(api_at(c, "/v1/workspaces/"@ + w) + "/push"@, c.probe_jwt, Doc::Obj(seq![("message"@, Doc::Str("trees"@))])),
            )
            &&& log.rs.len() == 2 && n is Ask ==> waits_until(
                n, api_at(c, "/v1/volumes/"@ + w + "/history"@), c.probe_jwt, 145_000,
                |d: Doc| says(WantV::RowReady { id: one_made(log.rs[1]) }, d),
            )
            &&& log.rs.len() == 5 && n is Ask ==> (n matches NextV::Ask(AskV::Exec { script, .. }) && script == "d="@ + "/home/kl"@
                + "/.agents/probe; if [ -d \"$d\" ]; then echo PRESENT; ls -A \"$d\"; else echo ABSENT; fi"@)
        }),
        ({
            let n = trees::body_next(c, trees::BodyV::Closed { ws: w }, log);
            &&& log.rs.len() == 1 && n is Ask ==> waits_until(
                n, api_at(c, "/v1/workspaces/"@ + w), c.probe_jwt, 30_000, |d: Doc| says(WantV::TreeGone { name: "probe"@ }, d),
            )
            &&& log.rs.len() == 4 && n is Ask ==> waits_until(
                n, api_at(c, "/v1/workspaces/"@ + w), c.probe_jwt, 30_000, |d: Doc| says(WantV::TreeReady { name: "leftover"@ }, d),
            )
        }),
{
}

/// What travels is pushed under the run's own message, and each workspace goes once it is done with.
pub proof fn law_each_workspace_goes_once_it_is_done_with(c: RunV, a: Seq<char>, b: Seq<char>, fresh: Seq<char>, log: LogV)
    ensures
        ({
            let n = ws::body_next(c, ws::BodyV::HomeTravels { a, b, fresh }, log);
            let rs = log.rs;
            let well = crate::laws::ran_well(rs[0]) && made_one(rs[1]) && crate::laws::came(rs[2]) && made_one(rs[3]) && crate::laws::came(rs[4]);
            &&& rs.len() == 1 && crate::laws::ran_well(rs[0]) ==> asks_for(
                n, posting(api_at(c, "/v1/workspaces/"@ + a) + "/push"@, c.probe_jwt, Doc::Obj(seq![("message"@, Doc::Str(b))])),
            )
            &&& rs.len() == 1 && !crate::laws::ran_well(rs[0]) ==> asks_for(n, deleting(api_at(c, "/v1/workspaces/"@ + a), c.probe_jwt))
            &&& rs.len() == 5 && well ==> asks_for(n, deleting(api_at(c, "/v1/workspaces/"@ + a), c.probe_jwt))
            &&& rs.len() == 8 && well && crate::laws::ran_well(rs[6]) ==> asks_for(
                n, deleting(api_at(c, "/v1/workspaces/"@ + one_made(rs[3])), c.probe_jwt),
            )
            &&& rs.len() == 9 && n is Ask ==> creates(n, c, fresh, seq![])
            &&& rs.len() == 10 && n is Ask ==> until_ready(n, c, one_made(rs[9]), 240_000)
            &&& rs.len() == 13 ==> asks_for(n, deleting(api_at(c, "/v1/workspaces/"@ + one_made(rs[9])), c.probe_jwt))
        }),
        ({
            let n = ws::body_next(c, ws::BodyV::CacheTravels { name: b }, log);
            let rs = log.rs;
            let src = one_made(rs[0]);
            let well = made_one(rs[0]) && crate::laws::came(rs[1]) && crate::laws::ran_well(rs[2]);
            let all = well && made_one(rs[3]) && crate::laws::came(rs[4]) && made_one(rs[5]) && crate::laws::came(rs[6]);
            &&& rs.len() == 2 && n is Ask ==> (n matches NextV::Ask(AskV::Exec { script, .. }) && script
                == "set -e\nmkdir -p \"$CARGO_TARGET_DIR\"\nprintf %s "@ + c.run_id
                + " > \"$CARGO_TARGET_DIR/marker\"\nsync \"$CARGO_TARGET_DIR/marker\""@)
            &&& rs.len() == 3 && well ==> asks_for(
                n, posting(api_at(c, "/v1/workspaces/"@ + src) + "/push"@, c.probe_jwt, Doc::Obj(seq![("message"@, Doc::Str(b))])),
            )
            &&& rs.len() == 4 && well && made_one(rs[3]) ==> waits_until(
                n, api_at(c, "/v1/volumes/"@ + src + "/history"@), c.probe_jwt, 145_000, |d: Doc| says(WantV::RowReady { id: one_made(rs[3]) }, d),
            )
            &&& rs.len() == 7 && all ==> asks_for(n, deleting(api_at(c, "/v1/workspaces/"@ + src), c.probe_jwt))
            &&& rs.len() == 9 && all ==> asks_for(n, deleting(api_at(c, "/v1/workspaces/"@ + one_made(rs[5])), c.probe_jwt))
            &&& rs.len() == 10 && all ==> asks_for(n, deleting(api_at(c, "/v1/volumes/"@ + src), c.probe_jwt))
        }),
        log.rs.len() == 0 ==> asks_for(
            ws::body_next(c, ws::BodyV::Park { ws: a }, log), posting_nothing(api_at(c, "/v1/workspaces/"@ + a) + "/stop"@, c.probe_jwt),
        ),
        log.rs.len() == 0 ==> asks_for(
            ws::body_next(c, ws::BodyV::LockShape { ws: a }, log), getting(api_at(c, "/v1/workspaces/"@ + a), c.probe_jwt),
        ),
{
}

/// The console's own objects are made under the run's names, and a request's reason is the run's own.
pub proof fn law_the_consoles_objects_are_the_runs_own(c: RunV, slug: Seq<char>, name: Seq<char>, env: Seq<char>, log: LogV)
    ensures
        log.rs.len() == 1 ==> asks_for(
            console::body_next(c, console::BodyV::AdminDelete, log),
            posting(
                api_at(c, "/v1/environments"@), c.probe_jwt,
                Doc::Obj(seq![
                    ("name"@, Doc::Str("run-"@ + c.run_id + "-ad-e"@)),
                    ("region"@, Doc::Str(c.region)),
                    ("quota_gb"@, Doc::Int(1)),
                    ("services"@, Doc::Arr(seq![a_redis()])),
                ]),
            ),
        ),
        ({
            let n = console::body_next(c, console::BodyV::DecideKinds { slug }, log);
            &&& log.rs.len() == 0 ==> asks_for(
                n,
                posting(
                    api_at(c, "/v1/teams"@), c.probe_jwt, Doc::Obj(seq![("slug"@, Doc::Str(slug)), ("name"@, Doc::Str("slo probe requests"@))]),
                ),
            )
            &&& log.rs.len() == 4 ==> asks_for(
                n,
                posting(
                    api_at(c, "/v1/requests"@), c.other_jwt,
                    Doc::Obj(seq![
                        ("kind"@, Doc::Str("other"@)),
                        ("reason"@, Doc::Str("run-"@ + c.run_id + " slo probe deny"@)),
                        ("other"@, Doc::Obj(seq![("title"@, Doc::Str("slo probe"@)), ("body"@, Doc::Str("deny me"@))])),
                    ]),
                ),
            )
        }),
        ({
            let n = surface::body_next(c, surface::BodyV::SessionReads { name }, log);
            &&& log.rs.len() == 1 ==> asks_for(
                n,
                posting(
                    api_at(c, "/v1/passkeys"@), c.probe_jwt,
                    Doc::Obj(seq![("id"@, Doc::Str(name)), ("publicKey"@, Doc::Str(name)), ("name"@, Doc::Str(name))]),
                ),
            )
            &&& log.rs.len() == 4 ==> asks_for(
                n,
                posting(
                    api_at(c, "/v1/quota-requests"@), c.probe_jwt,
                    Doc::Obj(seq![
                        ("reason"@, Doc::Str("slo probe legacy create"@)),
                        ("requested"@, Doc::Obj(seq![("diskGb"@, Doc::Int(1))])),
                    ]),
                ),
            )
        }),
        log.rs.len() == 2 ==> asks_for(
            surface::body_next(c, surface::BodyV::Reads, log),
            calling(
                Verb::Put, admin_at(c, "/admin/clusters/"@ + c.region + "/status"@), c.admin_jwt,
                PayloadV::Doc(Doc::Obj(seq![("status"@, Doc::Str("active"@)), ("note"@, Doc::Str("slo probe status read"@))])),
            ),
        ),
        log.rs.len() == 0 ==> asks_for(
            own_teams::body_next(c, own_teams::BodyV::InviteRevoke { slug }, log),
            posting(
                api_at(c, "/v1/teams/"@ + slug + "/invites"@), c.probe_jwt,
                Doc::Obj(seq![("email"@, Doc::Str(c.other_email)), ("role"@, Doc::Str("member"@))]),
            ),
        ),
        log.rs.len() == 0 ==> asks_for(
            own_teams::body_next(c, own_teams::BodyV::TeamEnvironment { slug }, log),
            posting(
                api_at(c, "/v1/environments"@), c.probe_jwt,
                Doc::Obj(seq![
                    ("team"@, Doc::Str(slug)),
                    ("name"@, Doc::Str("run-"@ + c.run_id + "-teamenv"@)),
                    ("region"@, Doc::Str(c.region)),
                    ("quota_gb"@, Doc::Int(1)),
                    ("services"@, Doc::Arr(seq![a_redis()])),
                ]),
            ),
        ),
        ({
            let n = own_teams::body_next(c, own_teams::BodyV::AttachPair { env }, log);
            log.rs.len() == 1 && n is Ask ==> until_ready(n, c, one_made(log.rs[0]), 90_000)
        }),
{
}

/// A redis, as an environment is asked for with one.
pub open spec fn a_redis() -> Doc {
    Doc::Obj(seq![
        ("name"@, Doc::Str("redis"@)),
        ("image"@, Doc::Str("redis:7-alpine"@)),
        ("command"@, Doc::Arr(seq![])),
        ("env"@, Doc::Obj(seq![])),
        ("mounts"@, Doc::Arr(seq![])),
        ("ports"@, Doc::Arr(seq![Doc::Int(6379)])),
    ])
}

/// A change is opened from the branch that was made for it, into the base.
pub proof fn law_a_change_is_opened_from_its_own_branch(c: RunV, name: Seq<char>, branch: Seq<char>, log: LogV)
    ensures
        ({
            let n = pulls::body_next(c, pulls::BodyV::Mergeability { name }, log);
            &&& log.rs.len() == 2 ==> asks_for(n, opening(c, name, "slo clean "@ + c.run_id, "run-"@ + c.run_id + "-clean"@))
            &&& log.rs.len() == 6 ==> asks_for(n, opening(c, name, "slo dirty "@ + c.run_id, "run-"@ + c.run_id + "-dirty"@))
        }),
        log.rs.len() == 0 ==> asks_for(
            repos::body_next(c, repos::BodyV::Comment { name }, log),
            opening_bodied(c, name, "slo probe "@ + c.run_id, "run-"@ + c.run_id + "-patch"@),
        ),
        log.rs.len() == 0 ==> asks_for(
            repos::body_next(c, repos::BodyV::Close { name }, log),
            opening_bodied(c, name, "slo close "@ + c.run_id, "run-"@ + c.run_id + "-closed"@),
        ),
        log.rs.len() == 0 ==> asks_for(
            untimed::body_next(c, untimed::BodyV::Close { name }, log),
            opening_bodied(c, name, "slo close "@ + c.run_id, "run-"@ + c.run_id + "-closed"@),
        ),
        log.rs.len() == 0 ==> asks_for(
            repos::body_next(c, repos::BodyV::MakeChange { name }, log),
            posting(
                api_at(c, "/v1/repos/"@ + c.probe_user + "/"@ + name + "/commits"@), c.probe_jwt,
                Doc::Obj(seq![
                    ("branch"@, Doc::Str("main"@)),
                    ("newBranch"@, Doc::Str("run-"@ + c.run_id + "-closed"@)),
                    ("message"@, Doc::Str("slo close "@ + c.run_id)),
                    (
                        "changes"@,
                        Doc::Arr(seq![
                            Doc::Obj(seq![
                                ("path"@, Doc::Str("closed.txt"@)),
                                ("contentBase64"@, Doc::Str(base64_text(("slo close "@ + c.run_id) + "\n"@))),
                            ]),
                        ]),
                    ),
                ]),
            ),
        ),
        untimed::body_next(c, untimed::BodyV::MakeChange { name }, log) == repos::body_next(c, repos::BodyV::MakeChange { name }, log),
        untimed::body_next(c, untimed::BodyV::WorkTree { name }, log) == repos::body_next(c, repos::BodyV::WorkTree { name }, log),
        log.rs.len() == 0 ==> asks_for(
            repos::body_next(c, repos::BodyV::WorkTree { name }, log), AskV::IsDir { path: work_tree(c, name) },
        ),
        log.rs.len() == 0 ==> asks_for(
            repos::body_next(c, repos::BodyV::BranchOid { name, branch }, log),
            getting(api_at(c, "/api/"@ + c.probe_user + "/"@ + name + "/refs"@), c.probe_jwt),
        ),
{
}

/// A change of the run's own, into the base.
pub open spec fn opening(c: RunV, name: Seq<char>, title: Seq<char>, head: Seq<char>) -> AskV {
    posting(
        api_at(c, "/v1/repos/"@ + c.probe_user + "/"@ + name + "/pulls"@), c.probe_jwt,
        Doc::Obj(seq![("title"@, Doc::Str(title)), ("base"@, Doc::Str("main"@)), ("head"@, Doc::Str(head))]),
    )
}

/// The same, with an empty text.
pub open spec fn opening_bodied(c: RunV, name: Seq<char>, title: Seq<char>, head: Seq<char>) -> AskV {
    posting(
        api_at(c, "/v1/repos/"@ + c.probe_user + "/"@ + name + "/pulls"@), c.probe_jwt,
        Doc::Obj(seq![
            ("title"@, Doc::Str(title)),
            ("body"@, Doc::Str(""@)),
            ("base"@, Doc::Str("main"@)),
            ("head"@, Doc::Str(head)),
        ]),
    )
}

/// The team's repo is made private, its tree is made anew, begun, written and committed, and it is pushed with the credential
/// that was minted; then it is read by nobody.
pub proof fn law_a_teams_repo_is_written_before_it_is_pushed(c: RunV, slug: Seq<char>, name: Seq<char>, log: LogV)
    ensures
        ({
            let n = repos::body_next(c, repos::BodyV::MakeRepo { slug, name }, log);
            &&& log.rs.len() == 0 ==> asks_for(
                n,
                posting(
                    api_at(c, "/v1/repos"@), c.probe_jwt,
                    Doc::Obj(seq![("owner"@, Doc::Str(slug)), ("name"@, Doc::Str(name)), ("visibility"@, Doc::Str("private"@))]),
                ),
            )
            &&& log.rs.len() == 1 ==> asks_for(n, AskV::Discard { path: tmp_at(c, "team/"@ + name) })
            &&& log.rs.len() == 2 ==> asks_for(n, AskV::Discard { path: tmp_at(c, "team-clone"@) })
            &&& untimed::body_next(c, untimed::BodyV::MakeRepo { slug, name }, log) == n
        }),
        !log.cut ==> writes_the_teams_tree(repos::body_next(c, repos::BodyV::RepoShared { slug, name }, log), c, name, log.rs),
        ({
            let n = untimed::body_next(c, untimed::BodyV::RepoShared { slug, name }, log);
            let rs = log.rs;
            &&& writes_the_teams_tree(n, c, name, rs)
            &&& rs.len() == 0 ==> asks_for(
                n,
                posting(
                    api_at(c, "/v1/tokens"@), c.other_jwt,
                    Doc::Obj(seq![("owner"@, Doc::Str(slug)), ("name"@, Doc::Str(c.run_id + "-team"@))]),
                ),
            )
            &&& rs.len() == 6 ==> asks_for(
                n, git_asks(c, with_this_token(rs[0], seq!["push"@, "-q"@, http_remote(c, slug, name), "main"@]), tmp_at(c, "team/"@ + name)),
            )
            &&& rs.len() == 7 ==> asks_for(
                n,
                git_asks(c, with_this_token(rs[0], seq!["clone"@, "-q"@, http_remote(c, slug, name), tmp_at(c, "team-clone"@)]), seq![]),
            )
            &&& rs.len() == 8 ==> asks_for(n, getting(http_remote(c, slug, name) + "/info/refs?service=git-upload-pack"@, ""@))
            &&& n is Pass ==> {
                &&& rs.len() > 8 && crate::laws::went_well(rs[0]) && (text_of(doc_in(rs[0]), "token"@) matches Some(t) && t.len() > 0)
                &&& rs[1] is Said && rs[2] is Said && rs[3] is Said && rs[4] is Said && rs[5] is Said && rs[6] is Said && rs[7] is Said
                &&& crate::laws::turned_away(rs[8])
                &&& text_of(doc_in(rs[0]), "_id"@) is Some ==> log.us.len() > 0
            }
            &&& n matches NextV::Undo(u) ==> u == deleting(api_at(c, "/v1/tokens/"@ + text_of(doc_in(rs[0]), "_id"@)->0), c.other_jwt)
        }),
        log.rs.len() == 0 ==> asks_for(
            membership::body_next(c, membership::BodyV::DropRepo { slug }, log),
            deleting(api_at(c, "/v1/repos/"@ + slug + "/"@ + ("run-"@ + c.run_id + "-shared"@)), c.probe_jwt),
        ),
{
    let rs = log.rs;
    if rs.len() > 8 {
        crate::stages::teams::law_only_a_refusal_is_a_refusal("an anonymous read of a private team repo"@, rs[8]);
    }
}

/// The tree of the team's repo, in order.
pub open spec fn writes_the_teams_tree(n: NextV, c: RunV, name: Seq<char>, rs: Seq<ReplyV>) -> bool {
    let dir = tmp_at(c, "team/"@ + name);
    &&& rs.len() == 1 ==> asks_for(n, AskV::Mkdir { path: dir })
    &&& rs.len() == 2 ==> asks_for(n, git_asks(c, seq!["init"@, "-q"@, "--initial-branch="@ + "main"@], dir))
    &&& rs.len() == 3 ==> asks_for(n, AskV::Write { path: joined_path(dir, "README.md"@), text: "# shared\n"@ })
    &&& rs.len() == 4 ==> asks_for(n, git_asks(c, seq!["add"@, "-A"@], dir))
    &&& rs.len() == 5 ==> asks_for(n, git_asks(c, seq!["commit"@, "-q"@, "-m"@, "seed"@], dir))
}

/// The rewrite is a commit of its own that has nothing of the branch, and the change is a file that is committed.
pub proof fn law_a_rewrite_and_a_change_are_commits_of_their_own(c: RunV, name: Seq<char>, log: LogV)
    ensures
        commits_both(repos::body_next(c, repos::BodyV::Protection { name }, log), c, name, log.rs),
        commits_both(untimed::body_next(c, untimed::BodyV::Protection { name }, log), c, name, log.rs),
        ({
            let n = untimed::body_next(c, untimed::BodyV::Protection { name }, log);
            let dir = work_tree(c, name);
            &&& log.rs.len() == 1 ==> asks_for(n, getting(api_at(c, "/v1/repos/"@ + c.probe_user + "/"@ + name + "/protection"@), c.probe_jwt))
            &&& log.rs.len() == 5 ==> asks_for(n, git_asks(c, seq!["checkout"@, "-q"@, "main"@], dir))
            &&& log.rs.len() == 6 ==> asks_for(n, git_asks(c, seq!["checkout"@, "-q"@, "-b"@, "run-"@ + c.run_id + "-prot"@], dir))
        }),
{
}

/// The rewrite and the change.
pub open spec fn commits_both(n: NextV, c: RunV, name: Seq<char>, rs: Seq<ReplyV>) -> bool {
    let dir = work_tree(c, name);
    &&& rs.len() == 2 ==> asks_for(n, git_asks(c, seq!["checkout"@, "-q"@, "--orphan"@, "rewrite"@], dir))
    &&& rs.len() == 3 ==> asks_for(n, git_asks(c, seq!["commit"@, "-q"@, "--allow-empty"@, "-m"@, "rewrite"@], dir))
    &&& rs.len() == 7 ==> asks_for(n, AskV::Write { path: joined_path(dir, "protected.txt"@), text: c.run_id + "\n"@ })
    &&& rs.len() == 8 ==> asks_for(n, git_asks(c, seq!["add"@, "-A"@], dir))
    &&& rs.len() == 9 ==> asks_for(n, git_asks(c, seq!["commit"@, "-q"@, "-m"@, "through a pull request"@], dir))
}

/// A private repo of the probe's own.
pub open spec fn a_private_repo(c: RunV, name: Seq<char>) -> AskV {
    posting(
        api_at(c, "/v1/repos"@), c.probe_jwt,
        Doc::Obj(seq![("owner"@, Doc::Str(c.probe_user)), ("name"@, Doc::Str(name)), ("visibility"@, Doc::Str("private"@))]),
    )
}

/// The work of an outage is a repo of its own, with a base and a change, each a file that is committed.
pub proof fn law_the_work_of_an_outage_is_a_repo_of_its_own(c: RunV, ips: Seq<char>, name: Seq<char>, log: LogV)
    ensures
        ({
            let n = outages::body_next(c, outages::BodyV::RedisDown { ips, name }, log);
            let rs = log.rs;
            let dir = work_tree(c, name);
            &&& rs.len() == 2 ==> asks_for(n, a_private_repo(c, name))
            &&& rs.len() == 3 ==> asks_for(n, AskV::Mkdir { path: dir })
            &&& rs.len() == 4 ==> asks_for(n, git_asks(c, seq!["init"@, "-q"@, "--initial-branch=main"@], dir))
            &&& rs.len() == 5 ==> asks_for(n, AskV::Write { path: joined_path(dir, "README.md"@), text: "# "@ + name + "\n"@ })
            &&& rs.len() == 6 || rs.len() == 11 ==> asks_for(n, git_asks(c, seq!["add"@, "-A"@], dir))
            &&& rs.len() == 7 ==> asks_for(n, git_asks(c, seq!["commit"@, "-q"@, "-m"@, "seed"@], dir))
            &&& rs.len() == 9 ==> asks_for(n, git_asks(c, seq!["checkout"@, "-q"@, "-b"@, "slo"@], dir))
            &&& rs.len() == 10 ==> asks_for(n, AskV::Write { path: joined_path(dir, "change.txt"@), text: c.run_id + "\n"@ })
            &&& rs.len() == 12 ==> asks_for(n, git_asks(c, seq!["commit"@, "-q"@, "-m"@, "change"@], dir))
            &&& rs.len() == 14 ==> asks_for(n, getting(api_at(c, "/api/"@ + c.probe_user + "/"@ + name + "/refs"@), c.probe_jwt))
            &&& rs.len() == 15 ==> asks_for(n, opening(c, name, "slo redis drill"@, "slo"@))
            &&& rs.len() == 16 ==> asks_for(
                n,
                posting(
                    api_at(
                        c,
                        "/v1/repos/"@ + c.probe_user + "/"@ + name + "/pulls/"@ + crate::text::dec_int(told_number(rs[15])->0)
                            + "/merge?strategy=fast-forward"@,
                    ),
                    c.probe_jwt, Doc::Null,
                ),
            )
            &&& rs.len() == 19 ==> asks_for(n, getting(admin_at(c, "/admin/history/audit_events?range=1d&step=1h"@), c.admin_jwt))
        }),
        ({
            let n = outages::body_next(c, outages::BodyV::ClickhouseDown { ips, name }, log);
            &&& log.rs.len() == 1 ==> asks_for(n, AskV::Sleep { ms: 60_000 })
            &&& log.rs.len() == 3 ==> asks_for(n, a_private_repo(c, name))
        }),
{
}

/// What a look at the fleet reads.
pub proof fn law_a_look_reads_the_fleet(c: RunV, w: Seq<char>, avoid: Option<Seq<char>>, log: LogV)
    ensures
        log.rs.len() == 0 ==> asks_for(nodes::body_next(c, nodes::BodyV::OwnWorkspace, log), getting(api_at(c, "/v1/workspaces"@), c.probe_jwt)),
        log.rs.len() == 0 ==> asks_for(
            nodes::body_next(c, nodes::BodyV::NodeOf { ws: w }, log), getting(api_at(c, "/v1/workspaces/"@ + w), c.probe_jwt),
        ),
        log.rs.len() == 0 ==> asks_for(
            nodes::body_next(c, nodes::BodyV::Uid { ws: w }, log),
            AskV::Read { cluster: Cluster::Fleet, kind: Kind::Pod, ns: c.own_ns, name: w },
        ),
        ({
            let n = nodes::body_next(c, nodes::BodyV::Idle { avoid }, log);
            &&& log.rs.len() == 0 ==> asks_for(n, AskV::List { cluster: Cluster::Fleet, kind: Kind::Workspace, ns: ""@ })
            &&& log.rs.len() == 1 ==> asks_for(n, AskV::List { cluster: Cluster::Fleet, kind: Kind::Environment, ns: ""@ })
            &&& log.rs.len() == 2 ==> asks_for(n, AskV::List { cluster: Cluster::Fleet, kind: Kind::Node, ns: ""@ })
        }),
{
}

/// A removal is prepared under the team's own name, as the member who is to be removed, and their return is asked for as their
/// joining was.
pub proof fn law_a_removal_is_prepared_as_the_member(c: RunV, team: Seq<char>, bench: Seq<char>, w: Seq<char>, volume: Seq<char>, snap: Seq<char>, log: LogV)
    ensures
        ({
            let n = removed::body_next(c, removed::BodyV::Prepare { team }, log);
            let rs = log.rs;
            &&& rs.len() == 0 ==> asks_for(
                n,
                posting(
                    api_at(c, "/v1/teams"@), c.probe_jwt,
                    Doc::Obj(seq![
                        ("slug"@, Doc::Str(team)),
                        ("name"@, Doc::Str("kloudlite slo removal"@)),
                        ("region"@, Doc::Str(c.region)),
                    ]),
                ),
            )
            &&& rs.len() == 1 ==> asks_for(n, inviting(c, team, c.other_email, c.probe_jwt))
            &&& rs.len() == 3 ==> asks_for(
                n, posting(api_at(c, "/v1/bench"@), c.other_jwt, Doc::Obj(seq![("team"@, Doc::Str(team)), ("region"@, Doc::Str(c.region))])),
            )
            &&& rs.len() == 5 ==> asks_for(
                n,
                posting(
                    api_at(c, "/v1/workspaces"@), c.other_jwt,
                    Doc::Obj(seq![
                        ("team"@, Doc::Str(team)),
                        ("name"@, Doc::Str(team + "-ws"@)),
                        ("region"@, Doc::Str(c.region)),
                        ("quota_gb"@, Doc::Int(1)),
                        ("packages"@, Doc::Arr(seq![])),
                    ]),
                ),
            )
            &&& rs.len() == 7 ==> asks_for(n, AskV::Read { cluster: Cluster::Fleet, kind: Kind::Workspace, ns: ""@, name: one_made(rs[5]) })
            &&& rs.len() == 8 ==> asks_for(
                n,
                posting(
                    api_at(c, "/v1/workspaces/"@ + one_made(rs[5])) + "/push"@, c.other_jwt, Doc::Obj(seq![("message"@, Doc::Str(team))]),
                ),
            )
        }),
        ({
            let n = removed::body_next(c, removed::BodyV::Collected { team, bench, ws: w, volume, snap }, log);
            &&& log.rs.len() == 1 && n is Ask ==> waits_until(
                n, admin_at(c, "/admin/audit?action="@ + "member.removed.judged"@ + "&target="@ + team + "%2F"@ + c.other_user), c.admin_jwt, 30_000,
                |d: Doc| says(WantV::Rows, d),
            )
            &&& log.rs.len() == 2 && n is Ask ==> waits_until(
                n, admin_at(c, "/admin/audit?action="@ + "member.removed.delete_now"@ + "&target="@ + team + "%2F"@ + c.other_user), c.admin_jwt,
                30_000, |d: Doc| says(WantV::Rows, d),
            )
            &&& log.rs.len() == 3 ==> asks_for(n, inviting(c, team, c.other_email, c.probe_jwt))
        }),
{
}

/// An invitation into a team.
pub open spec fn inviting(c: RunV, team: Seq<char>, email: Seq<char>, token: Seq<char>) -> AskV {
    posting(
        api_at(c, "/v1/teams/"@ + team + "/invites"@), token,
        Doc::Obj(seq![("email"@, Doc::Str(email)), ("role"@, Doc::Str("member"@))]),
    )
}

/// A pause is prepared by the second user for the run's own: their team, its invitation, the bench, and the canary in it.
pub proof fn law_a_pause_is_prepared_for_the_runs_own_user(
    c: RunV, team: Seq<char>, ns: Seq<char>, bench: Seq<char>, tool: Seq<char>, gateway: Seq<char>, log: LogV,
)
    ensures
        ({
            let n = paused::body_next(c, paused::BodyV::Prepare { team, ns }, log);
            let rs = log.rs;
            &&& rs.len() == 0 ==> asks_for(
                n,
                posting(
                    api_at(c, "/v1/teams"@), c.other_jwt,
                    Doc::Obj(seq![
                        ("slug"@, Doc::Str(team)),
                        ("name"@, Doc::Str("kloudlite slo pause"@)),
                        ("region"@, Doc::Str(c.region)),
                    ]),
                ),
            )
            &&& rs.len() == 1 ==> asks_for(n, inviting(c, team, c.probe_email, c.other_jwt))
            &&& rs.len() == 3 ==> asks_for(
                n, posting(api_at(c, "/v1/bench"@), c.probe_jwt, Doc::Obj(seq![("team"@, Doc::Str(team)), ("region"@, Doc::Str(c.region))])),
            )
            &&& rs.len() == 5 ==> asks_for(n, AskV::BenchPod { team })
            &&& rs.len() == 6 && n is Ask ==> (n matches NextV::Ask(AskV::PodExec { ns: at, pod, container, argv, .. }) && at == ns && rs[5]
                == ReplyV::Said(pod) && container == c.bench_container && argv == seq![
                "node"@,
                "-e"@,
                paused::canary_script("require(\"fs\").writeFileSync(p,process.argv[1])"@),
                "kloudlite-slo-pause-canary"@,
            ])
            &&& rs.len() == 12 ==> asks_for(n, AskV::Wait(WaitV::ToolToken { ns, team, container: c.bench_container, cap_ms: 240_000 }))
            &&& rs.len() == 13 ==> asks_for(n, posting(api_at(c, "/v1/bench"@ + "/session"@ + "?team="@ + team), c.probe_jwt, Doc::Null))
        }),
        ({
            let n = paused::body_next(c, paused::BodyV::Paused { team, ns, bench, tool, gateway }, log);
            &&& log.rs.len() == 5 ==> asks_for(n, AskV::BenchPod { team })
            &&& log.rs.len() == 6 && n is Ask ==> (n matches NextV::Ask(AskV::PodExec { argv, .. }) && argv == seq![
                "node"@,
                "-e"@,
                paused::canary_script("process.stdout.write(require(\"fs\").readFileSync(p,\"utf8\"))"@),
                ""@,
            ])
        }),
        log.rs.len() == 0 ==> asks_for(
            paused::body_next(c, paused::BodyV::Teardown { team }, log),
            posting_nothing(api_at(c, "/v1/bench"@ + "/stop"@ + "?team="@ + team), c.probe_jwt),
        ),
{
}

/// A large push commits what it wrote; and a look at a workspace's node reads the workspace itself.
pub proof fn law_a_large_push_commits_what_it_wrote(c: RunV, name: Seq<char>, pinned: bool, url: Seq<char>, log: LogV)
    ensures
        ({
            let n = weekly::body_next(c, weekly::BodyV::LargePush { name, pinned }, log);
            let dir = work_tree(c, name);
            &&& log.rs.len() == 2 ==> asks_for(n, git_asks(c, seq!["add"@, "-A"@], dir))
            &&& log.rs.len() == 3 ==> asks_for(n, git_asks(c, seq!["commit"@, "-q"@, "-m"@, "large"@], dir))
        }),
        log.rs.len() == 0 ==> asks_for(weekly::body_next(c, weekly::BodyV::WorkTree { name }, log), AskV::IsDir { path: work_tree(c, name) }),
        log.rs.len() == 0 ==> asks_for(weekly::body_next(c, weekly::BodyV::Placement { url }, log), getting(url, c.probe_jwt)),
        weekly::body_next(c, weekly::BodyV::KnownHosts, log) == git::body_next(c, git::BodyV::KnownHosts, log),
{
}

} // verus!
