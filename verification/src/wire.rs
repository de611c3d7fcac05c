//! What a stage asks of the outside world, and what comes back.
//!
//! A step's body is a function from the replies it has had so far to what it does next: it asks
//! for one more thing, or it is over. Nothing here performs an [`Ask`]; the caller does, and hands
//! the [`Reply`] back.

use vstd::prelude::*;

use crate::json::{Doc, Json};
use crate::text::{cat2, cat3, dec, decimal, texts};
use crate::wait::{Wait, WaitV};

verus! {

/// An HTTP method.
#[derive(Clone, Copy, PartialEq, Eq, Structural)]
pub enum Verb {
    Get,
    Post,
    Put,
    Patch,
    Delete,
}

/// A local program the probe runs.
#[derive(Clone, Copy, PartialEq, Eq, Structural)]
pub enum Program {
    Git,
    Ssh,
    SshKeygen,
    SshKeyscan,
    Kl,
    Dig,
}

/// A kind of cluster object.
#[derive(Clone, Copy, PartialEq, Eq, Structural)]
pub enum Kind {
    Workspace,
    Environment,
    Pod,
    Namespace,
    Node,
    NetworkPolicy,
    ResourceQuota,
    Lease,
    Replica,
    Volume,
    Snapshot,
    Bench,
    Space,
    AccessReview,
    StatefulSet,
}

/// Which cluster an object is read from: the one the fleet's workspaces run in, or the one the
/// probe itself runs in.
#[derive(Clone, Copy, PartialEq, Eq, Structural)]
pub enum Cluster {
    Fleet,
    Home,
}

/// The body of an HTTP request.
pub enum Payload {
    Empty,
    Doc(Json),
    Form(String),
}

pub enum PayloadV {
    Empty,
    Doc(Doc),
    Form(Seq<char>),
}

impl View for Payload {
    type V = PayloadV;

    open spec fn view(&self) -> PayloadV {
        match self {
            Payload::Empty => PayloadV::Empty,
            Payload::Doc(d) => PayloadV::Doc(d@),
            Payload::Form(t) => PayloadV::Form(t@),
        }
    }
}

/// What a registry client is asked to do.
pub enum CraneOp {
    Login { host: String, user: String, secret: String },
    Push { dir: String, reference: String },
    Pull { reference: String, dest: String },
    Digest { reference: String },
}

pub enum CraneOpV {
    Login { host: Seq<char>, user: Seq<char>, secret: Seq<char> },
    Push { dir: Seq<char>, reference: Seq<char> },
    Pull { reference: Seq<char>, dest: Seq<char> },
    Digest { reference: Seq<char> },
}

impl View for CraneOp {
    type V = CraneOpV;

    open spec fn view(&self) -> CraneOpV {
        match self {
            CraneOp::Login { host, user, secret } => CraneOpV::Login { host: host@, user: user@, secret: secret@ },
            CraneOp::Push { dir, reference } => CraneOpV::Push { dir: dir@, reference: reference@ },
            CraneOp::Pull { reference, dest } => CraneOpV::Pull { reference: reference@, dest: dest@ },
            CraneOp::Digest { reference } => CraneOpV::Digest { reference: reference@ },
        }
    }
}

/// One thing a stage asks for.
pub enum Ask {
    /// One HTTP request. `auth` is the whole `authorization` header, `accept` the whole `accept`
    /// header; an empty one is not sent. It is given up after `bound_ms`, where that is not zero.
    Call { verb: Verb, url: String, auth: String, accept: String, load: Payload, bound_ms: u64 },
    /// The same probe, again and again, until it holds or its time is up.
    Wait(Wait),
    /// A shell script in a workspace's own container.
    Exec { ws: String, script: String, bound_ms: u64 },
    /// A command in one container of a pod.
    PodExec { ns: String, pod: String, container: String, argv: Vec<String>, bound_ms: u64 },
    /// A local program. One that is given up after `bound_ms` is lost in the words of [`out_of_time`].
    Tool { program: Program, argv: Vec<String>, env: Vec<(String, String)>, dir: String, bound_ms: u64 },
    /// One registry operation, with the credentials the directory `config` holds.
    Crane { config: String, op: CraneOp },
    /// One cluster object, as JSON; a missing one is a 404.
    Read { cluster: Cluster, kind: Kind, ns: String, name: String },
    /// Every cluster object of a kind, as a JSON list.
    List { cluster: Cluster, kind: Kind, ns: String },
    /// A merge patch of one cluster object, made as `who` where that is not empty; a dry run is
    /// judged by the cluster and written nowhere. Where `who` could not be acted as, that is said,
    /// and why.
    Change { cluster: Cluster, kind: Kind, ns: String, name: String, who: String, dry_run: bool, body: Json },
    /// A cluster object created or replaced, answered by the object as it then is.
    Put { cluster: Cluster, kind: Kind, ns: String, name: String, body: Json },
    /// A cluster object taken away.
    Remove { cluster: Cluster, kind: Kind, ns: String, name: String },
    /// The last lines a container logged.
    Logs { ns: String, pod: String, container: String, lines: u64, bound_ms: u64 },
    /// A WebSocket handshake; answered by its status, 101 when it opens. One that could not even be
    /// written is said, and why.
    Handshake { url: String, auth: String },
    Mkdir { path: String },
    Write { path: String, text: String },
    WriteBytes { path: String, bytes: Vec<u8> },
    /// A file of that many random bytes, written a piece at a time.
    Fill { path: String, bytes: u64 },
    ReadText { path: String },
    ReadBytes { path: String },
    /// A file or a directory tree, taken away if it is there.
    Discard { path: String },
    /// Whether a directory is there; answered by an empty text, or not to be had.
    IsDir { path: String },
    /// A ticket for a session on the bench `id`, as `user`, signed with the platform's own key.
    Ticket { user: String, id: String },
    /// The name of the pod that the probe's own bench in `team` runs in.
    BenchPod { team: String },
    /// What the platform keeps of the members of a team that is gone, deleted now.
    DropMembers { team: String },
    /// A page of the web app, as a visitor without a session gets it, wherever that leads.
    Page { url: String },
    /// Every blob of a container, as a JSON list of `name` and `modified`, which is in milliseconds of
    /// Unix time.
    Blobs { container: String },
    /// A variable of the environment.
    Variable { name: String },
    /// Whether the cluster the probe runs in enforces network policies; answered by `true` or `false`.
    Enforced,
    /// Every node a drill of an earlier run left changed, put back as it was.
    PutBack,
    Sleep { ms: u64 },
}

pub enum AskV {
    Call { verb: Verb, url: Seq<char>, auth: Seq<char>, accept: Seq<char>, load: PayloadV, bound_ms: u64 },
    Wait(WaitV),
    Exec { ws: Seq<char>, script: Seq<char>, bound_ms: u64 },
    PodExec { ns: Seq<char>, pod: Seq<char>, container: Seq<char>, argv: Seq<Seq<char>>, bound_ms: u64 },
    Tool { program: Program, argv: Seq<Seq<char>>, env: Seq<(Seq<char>, Seq<char>)>, dir: Seq<char>, bound_ms: u64 },
    Crane { config: Seq<char>, op: CraneOpV },
    Read { cluster: Cluster, kind: Kind, ns: Seq<char>, name: Seq<char> },
    List { cluster: Cluster, kind: Kind, ns: Seq<char> },
    Change { cluster: Cluster, kind: Kind, ns: Seq<char>, name: Seq<char>, who: Seq<char>, dry_run: bool, body: Doc },
    Put { cluster: Cluster, kind: Kind, ns: Seq<char>, name: Seq<char>, body: Doc },
    Remove { cluster: Cluster, kind: Kind, ns: Seq<char>, name: Seq<char> },
    Logs { ns: Seq<char>, pod: Seq<char>, container: Seq<char>, lines: u64, bound_ms: u64 },
    Handshake { url: Seq<char>, auth: Seq<char> },
    Mkdir { path: Seq<char> },
    Write { path: Seq<char>, text: Seq<char> },
    WriteBytes { path: Seq<char>, bytes: Seq<u8> },
    Fill { path: Seq<char>, bytes: u64 },
    ReadText { path: Seq<char> },
    ReadBytes { path: Seq<char> },
    Discard { path: Seq<char> },
    IsDir { path: Seq<char> },
    Ticket { user: Seq<char>, id: Seq<char> },
    BenchPod { team: Seq<char> },
    DropMembers { team: Seq<char> },
    Page { url: Seq<char> },
    Blobs { container: Seq<char> },
    Variable { name: Seq<char> },
    Enforced,
    PutBack,
    Sleep { ms: u64 },
}

/// The views of a list of pairs of texts.
pub open spec fn pairs(v: Seq<(String, String)>) -> Seq<(Seq<char>, Seq<char>)> {
    Seq::new(v.len(), |i: int| (v[i].0@, v[i].1@))
}

pub fn copy_pairs(v: &Vec<(String, String)>) -> (r: Vec<(String, String)>)
    ensures
        pairs(r@) == pairs(v@),
{
    let mut r: Vec<(String, String)> = Vec::new();
    let mut i: usize = 0;
    while i < v.len()
        invariant
            i <= v@.len(),
            r@.len() == i,
            forall|k: int| 0 <= k < i ==> (#[trigger] r@[k]).0@ == v@[k].0@ && r@[k].1@ == v@[k].1@,
        decreases v.len() - i,
    {
        r.push((v[i].0.clone(), v[i].1.clone()));
        i = i + 1;
    }
    proof {
        assert(pairs(r@) =~= pairs(v@));
    }
    r
}

/// An environment of two variables.
pub fn env2(k1: &str, v1: &str, k2: &str, v2: &str) -> (r: Vec<(String, String)>)
    ensures
        pairs(r@) == seq![(k1@, v1@), (k2@, v2@)],
{
    let r = vec![(k1.to_owned(), v1.to_owned()), (k2.to_owned(), v2.to_owned())];
    proof {
        assert(pairs(r@) =~= seq![(k1@, v1@), (k2@, v2@)]);
    }
    r
}

impl View for Ask {
    type V = AskV;

    open spec fn view(&self) -> AskV {
        match self {
            Ask::Call { verb, url, auth, accept, load, bound_ms } => AskV::Call {
                verb: *verb,
                url: url@,
                auth: auth@,
                accept: accept@,
                load: load@,
                bound_ms: *bound_ms,
            },
            Ask::Wait(w) => AskV::Wait(w@),
            Ask::Exec { ws, script, bound_ms } => AskV::Exec { ws: ws@, script: script@, bound_ms: *bound_ms },
            Ask::PodExec { ns, pod, container, argv, bound_ms } => AskV::PodExec {
                ns: ns@,
                pod: pod@,
                container: container@,
                argv: texts(argv@),
                bound_ms: *bound_ms,
            },
            Ask::Tool { program, argv, env, dir, bound_ms } => AskV::Tool {
                program: *program,
                argv: texts(argv@),
                env: pairs(env@),
                dir: dir@,
                bound_ms: *bound_ms,
            },
            Ask::Crane { config, op } => AskV::Crane { config: config@, op: op@ },
            Ask::Read { cluster, kind, ns, name } => AskV::Read {
                cluster: *cluster,
                kind: *kind,
                ns: ns@,
                name: name@,
            },
            Ask::List { cluster, kind, ns } => AskV::List { cluster: *cluster, kind: *kind, ns: ns@ },
            Ask::Change { cluster, kind, ns, name, who, dry_run, body } => AskV::Change {
                cluster: *cluster,
                kind: *kind,
                ns: ns@,
                name: name@,
                who: who@,
                dry_run: *dry_run,
                body: body@,
            },
            Ask::Put { cluster, kind, ns, name, body } => AskV::Put {
                cluster: *cluster,
                kind: *kind,
                ns: ns@,
                name: name@,
                body: body@,
            },
            Ask::Remove { cluster, kind, ns, name } => AskV::Remove {
                cluster: *cluster,
                kind: *kind,
                ns: ns@,
                name: name@,
            },
            Ask::Logs { ns, pod, container, lines, bound_ms } => AskV::Logs {
                ns: ns@,
                pod: pod@,
                container: container@,
                lines: *lines,
                bound_ms: *bound_ms,
            },
            Ask::Handshake { url, auth } => AskV::Handshake { url: url@, auth: auth@ },
            Ask::Mkdir { path } => AskV::Mkdir { path: path@ },
            Ask::Write { path, text } => AskV::Write { path: path@, text: text@ },
            Ask::WriteBytes { path, bytes } => AskV::WriteBytes { path: path@, bytes: bytes@ },
            Ask::Fill { path, bytes } => AskV::Fill { path: path@, bytes: *bytes },
            Ask::ReadText { path } => AskV::ReadText { path: path@ },
            Ask::ReadBytes { path } => AskV::ReadBytes { path: path@ },
            Ask::Discard { path } => AskV::Discard { path: path@ },
            Ask::IsDir { path } => AskV::IsDir { path: path@ },
            Ask::Ticket { user, id } => AskV::Ticket { user: user@, id: id@ },
            Ask::BenchPod { team } => AskV::BenchPod { team: team@ },
            Ask::DropMembers { team } => AskV::DropMembers { team: team@ },
            Ask::Page { url } => AskV::Page { url: url@ },
            Ask::Blobs { container } => AskV::Blobs { container: container@ },
            Ask::Variable { name } => AskV::Variable { name: name@ },
            Ask::Enforced => AskV::Enforced,
            Ask::PutBack => AskV::PutBack,
            Ask::Sleep { ms } => AskV::Sleep { ms: *ms },
        }
    }
}

/// What came back.
pub enum Reply {
    /// An HTTP answer, or a cluster object with 200 or 404 for its status.
    Answer { status: u16, text: String },
    /// A page: its status, the path it was answered from in the end, and its text.
    Page { status: u16, path: String, text: String },
    /// A command that ran: its exit code and what it wrote.
    Ran { code: i64, out: String, err: String },
    /// A local program that exited zero, or a file that was read.
    Said(String),
    /// A file that was read, as bytes.
    Bytes(Vec<u8>),
    /// It could not be had, and why.
    Lost(String),
}

pub enum ReplyV {
    Answer { status: u16, text: Seq<char> },
    Page { status: u16, path: Seq<char>, text: Seq<char> },
    Ran { code: i64, out: Seq<char>, err: Seq<char> },
    Said(Seq<char>),
    Bytes(Seq<u8>),
    Lost(Seq<char>),
}

impl View for Reply {
    type V = ReplyV;

    open spec fn view(&self) -> ReplyV {
        match self {
            Reply::Answer { status, text } => ReplyV::Answer { status: *status, text: text@ },
            Reply::Page { status, path, text } => ReplyV::Page { status: *status, path: path@, text: text@ },
            Reply::Ran { code, out, err } => ReplyV::Ran { code: *code, out: out@, err: err@ },
            Reply::Said(t) => ReplyV::Said(t@),
            Reply::Bytes(b) => ReplyV::Bytes(b@),
            Reply::Lost(w) => ReplyV::Lost(w@),
        }
    }
}

/// The views of the replies so far.
pub open spec fn seen(rs: Seq<Reply>) -> Seq<ReplyV> {
    Seq::new(rs.len(), |i: int| rs[i]@)
}

/// What a body has had so far: the replies to what it asked and when each came (in milliseconds
/// since the body began), the replies to its compensation, and whether it was cut off because its
/// time was up.
pub struct Log {
    pub rs: Vec<Reply>,
    pub at: Vec<u64>,
    pub us: Vec<Reply>,
    pub cut: bool,
}

pub struct LogV {
    pub rs: Seq<ReplyV>,
    pub at: Seq<u64>,
    pub us: Seq<ReplyV>,
    pub cut: bool,
}

/// When the reply `k` came; the beginning, where that was not kept.
pub open spec fn came_at(log: LogV, k: int) -> u64 {
    if 0 <= k < log.at.len() { log.at[k] } else { 0 }
}

impl Log {
    pub fn came(&self, k: usize) -> (r: u64)
        ensures
            r == came_at(self@, k as int),
    {
        if k < self.at.len() { self.at[k] } else { 0 }
    }
}

impl View for Log {
    type V = LogV;

    open spec fn view(&self) -> LogV {
        LogV { rs: seen(self.rs@), at: self.at@, us: seen(self.us@), cut: self.cut }
    }
}

/// What a body does next.
pub enum Next {
    Ask(Ask),
    /// The compensation a body owes whatever became of it; its reply goes to a list of its own.
    Undo(Ask),
    Pass,
    Fail(String),
}

pub enum NextV {
    Ask(AskV),
    Undo(AskV),
    Pass,
    Fail(Seq<char>),
}

impl View for Next {
    type V = NextV;

    open spec fn view(&self) -> NextV {
        match self {
            Next::Ask(a) => NextV::Ask(a@),
            Next::Undo(a) => NextV::Undo(a@),
            Next::Pass => NextV::Pass,
            Next::Fail(w) => NextV::Fail(w@),
        }
    }
}

/// One link of a body: it asks `ask`, and where the reply is a failure (`bad` gives its words) the
/// body fails; where it is not, the body goes on with `rest`. `k` is the link's place.
pub open spec fn link(rs: Seq<ReplyV>, k: nat, ask: AskV, bad: Option<Seq<char>>, rest: NextV) -> NextV {
    if rs.len() <= k {
        NextV::Ask(ask)
    } else {
        match bad {
            Some(why) => NextV::Fail(why),
            None => rest,
        }
    }
}

/// A link whose reply, whatever it is, lets the body go on.
pub open spec fn also(rs: Seq<ReplyV>, k: nat, ask: AskV, rest: NextV) -> NextV {
    link(rs, k, ask, None, rest)
}

/// A body that ends in a failure, or in success.
pub open spec fn ending(bad: Option<Seq<char>>) -> NextV {
    match bad {
        Some(why) => NextV::Fail(why),
        None => NextV::Pass,
    }
}

pub fn end(bad: Option<String>) -> (n: Next)
    ensures
        n@ == ending(opt(bad)),
{
    match bad {
        Some(why) => Next::Fail(why),
        None => Next::Pass,
    }
}

/// The failure in a result.
pub open spec fn err_of<T>(r: Result<T, Seq<char>>) -> Option<Seq<char>> {
    match r {
        Ok(_) => None,
        Err(why) => Some(why),
    }
}

/// A body with a compensation: whatever the body comes to, `undo` is asked for once it is over,
/// and a body that was cut off is over. The body's own failure is told before the compensation's.
pub open spec fn undoing(log: LogV, cap_ms: u64, body: NextV, undo: AskV, undo_bad: Option<Seq<char>>) -> NextV {
    let over = if log.cut { NextV::Fail(out_of_time(cap_ms)) } else { body };
    match over {
        NextV::Ask(a) => NextV::Ask(a),
        NextV::Undo(a) => NextV::Undo(a),
        _ => if log.us.len() == 0 {
            NextV::Undo(undo)
        } else {
            match over {
                NextV::Pass => ending(undo_bad),
                _ => over,
            }
        },
    }
}

/// A body with two compensations, one after the other, whatever either comes to. The body's own failure
/// is told first, then that of the first compensation, then that of the second.
pub open spec fn undoing2(
    log: LogV, cap_ms: u64, body: NextV, first: AskV, first_bad: Option<Seq<char>>, second: AskV, second_bad: Option<Seq<char>>,
) -> NextV {
    let over = if log.cut { NextV::Fail(out_of_time(cap_ms)) } else { body };
    match over {
        NextV::Ask(a) => NextV::Ask(a),
        NextV::Undo(a) => NextV::Undo(a),
        _ => if log.us.len() == 0 {
            NextV::Undo(first)
        } else if log.us.len() == 1 {
            NextV::Undo(second)
        } else {
            match over {
                NextV::Pass => judge(first_bad, ending(second_bad)),
                _ => over,
            }
        },
    }
}

/// What such a body does next, given what the body alone would do. Each `bad` is read off its
/// compensation's reply, and counts only once there is one.
pub fn undo_both(
    log: &Log, cap_ms: u64, body: Next, first: Ask, first_bad: Option<String>, second: Ask, second_bad: Option<String>,
) -> (n: Next)
    ensures
        forall|a: Option<Seq<char>>, b: Option<Seq<char>>| #![trigger undoing2(log@, cap_ms, body@, first@, a, second@, b)]
            (log@.us.len() > 1 ==> a == opt(first_bad) && b == opt(second_bad)) ==> n@ == undoing2(
                log@, cap_ms, body@, first@, a, second@, b,
            ),
{
    let over = if log.cut { Next::Fail(cat3("timed out after ", decimal(cap_ms).as_str(), " ms")) } else { body };
    match over {
        Next::Ask(a) => Next::Ask(a),
        Next::Undo(a) => Next::Undo(a),
        other => {
            if log.us.len() == 0 {
                return Next::Undo(first);
            }
            if log.us.len() == 1 {
                return Next::Undo(second);
            }
            match other {
                Next::Pass => match first_bad {
                    Some(why) => Next::Fail(why),
                    None => end(second_bad),
                },
                failed => failed,
            }
        },
    }
}

/// A body with something to end by, whatever it came to and however long it took: once the body is
/// over `ask` is asked for. The body's own failure is told first, then that of the ending.
pub open spec fn closing(log: LogV, body: NextV, ask: AskV, bad: Option<Seq<char>>) -> NextV {
    match body {
        NextV::Ask(a) => NextV::Ask(a),
        NextV::Undo(a) => NextV::Undo(a),
        _ => if log.us.len() == 0 {
            NextV::Undo(ask)
        } else {
            match body {
                NextV::Pass => ending(bad),
                _ => body,
            }
        },
    }
}

/// What such a body does next. `bad` is read off the reply to the ending, and counts only once
/// there is one.
pub fn close_after(log: &Log, body: Next, ask: Ask, bad: Option<String>) -> (n: Next)
    ensures
        forall|b: Option<Seq<char>>| #![trigger closing(log@, body@, ask@, b)]
            (log@.us.len() > 0 ==> b == opt(bad)) ==> n@ == closing(log@, body@, ask@, b),
{
    match body {
        Next::Ask(a) => Next::Ask(a),
        Next::Undo(a) => Next::Undo(a),
        Next::Pass => {
            if log.us.len() == 0 { Next::Undo(ask) } else { end(bad) }
        },
        Next::Fail(why) => {
            if log.us.len() == 0 { Next::Undo(ask) } else { Next::Fail(why) }
        },
    }
}

/// A body with something to put away where it fails: `ask` is asked for before it does.
pub open spec fn unless_passed(log: LogV, body: NextV, ask: AskV) -> NextV {
    match body {
        NextV::Fail(why) => if log.us.len() == 0 { NextV::Undo(ask) } else { NextV::Fail(why) },
        _ => body,
    }
}

pub fn or_first(log: &Log, body: Next, ask: Ask) -> (n: Next)
    ensures
        n@ == unless_passed(log@, body@, ask@),
{
    match body {
        Next::Fail(why) => {
            if log.us.len() == 0 { Next::Undo(ask) } else { Next::Fail(why) }
        },
        other => other,
    }
}

/// A body with a time of its own and nothing to compensate.
pub open spec fn timed(log: LogV, cap_ms: u64, body: NextV) -> NextV {
    if log.cut { NextV::Fail(out_of_time(cap_ms)) } else { body }
}

pub fn in_time(log: &Log, cap_ms: u64, body: Next) -> (n: Next)
    ensures
        n@ == timed(log@, cap_ms, body@),
{
    if log.cut { Next::Fail(cat3("timed out after ", decimal(cap_ms).as_str(), " ms")) } else { body }
}

/// A part of a body and what follows it once it has passed.
pub open spec fn and_on(part: NextV, rest: NextV) -> NextV {
    match part {
        NextV::Pass => rest,
        _ => part,
    }
}

/// The words for a body that was cut off.
pub open spec fn out_of_time(cap_ms: u64) -> Seq<char> {
    "timed out after "@ + dec(cap_ms as nat) + " ms"@
}

/// What a body with a compensation does next, given what the body alone would do. `undo_bad` is
/// read off the compensation's reply, and counts only once there is one.
pub fn undo_after(log: &Log, cap_ms: u64, body: Next, undo: Ask, undo_bad: Option<String>) -> (n: Next)
    ensures
        forall|bad: Option<Seq<char>>| #![trigger undoing(log@, cap_ms, body@, undo@, bad)]
            (log@.us.len() > 0 ==> bad == opt(undo_bad)) ==> n@ == undoing(log@, cap_ms, body@, undo@, bad),
{
    let over = if log.cut { Next::Fail(cat3("timed out after ", decimal(cap_ms).as_str(), " ms")) } else { body };
    match over {
        Next::Ask(a) => Next::Ask(a),
        Next::Undo(a) => Next::Undo(a),
        Next::Pass => {
            if log.us.len() == 0 { Next::Undo(undo) } else { end(undo_bad) }
        },
        Next::Fail(why) => {
            if log.us.len() == 0 { Next::Undo(undo) } else { Next::Fail(why) }
        },
    }
}

/// A body with something to put away: once the body is over `ask` is asked for, and whatever that
/// comes to, the body's own result stands.
pub open spec fn finally(log: LogV, body: NextV, ask: AskV) -> NextV {
    match body {
        NextV::Ask(a) => NextV::Ask(a),
        NextV::Undo(a) => NextV::Undo(a),
        _ => if log.us.len() == 0 { NextV::Undo(ask) } else { body },
    }
}

pub fn afterwards(log: &Log, body: Next, ask: Ask) -> (n: Next)
    ensures
        n@ == finally(log@, body@, ask@),
{
    match body {
        Next::Ask(a) => Next::Ask(a),
        Next::Undo(a) => Next::Undo(a),
        other => {
            if log.us.len() == 0 { Next::Undo(ask) } else { other }
        },
    }
}

/// A link with something to do where its reply is a failure, before the body fails.
pub open spec fn link_or(rs: Seq<ReplyV>, k: nat, ask: AskV, bad: Option<Seq<char>>, first: AskV, rest: NextV) -> NextV {
    if rs.len() <= k {
        NextV::Ask(ask)
    } else {
        match bad {
            Some(why) => also(rs, k + 1, first, NextV::Fail(why)),
            None => rest,
        }
    }
}

/// The same, with two things to do.
pub open spec fn link_or2(
    rs: Seq<ReplyV>,
    k: nat,
    ask: AskV,
    bad: Option<Seq<char>>,
    first: AskV,
    second: AskV,
    rest: NextV,
) -> NextV {
    if rs.len() <= k {
        NextV::Ask(ask)
    } else {
        match bad {
            Some(why) => also(rs, k + 1, first, also(rs, k + 2, second, NextV::Fail(why))),
            None => rest,
        }
    }
}

/// A judgement of what was already answered, with something to do before the body fails; `k` is the
/// place of that.
pub open spec fn unless(rs: Seq<ReplyV>, k: nat, bad: Option<Seq<char>>, first: AskV, rest: NextV) -> NextV {
    match bad {
        Some(why) => also(rs, k, first, NextV::Fail(why)),
        None => rest,
    }
}

/// The same, with two things to do.
pub open spec fn unless2(rs: Seq<ReplyV>, k: nat, bad: Option<Seq<char>>, first: AskV, second: AskV, rest: NextV) -> NextV {
    match bad {
        Some(why) => also(rs, k, first, also(rs, k + 1, second, NextV::Fail(why))),
        None => rest,
    }
}

/// A judgement of what was already answered.
pub open spec fn judge(bad: Option<Seq<char>>, rest: NextV) -> NextV {
    match bad {
        Some(why) => NextV::Fail(why),
        None => rest,
    }
}

/// The words of a failure, in a wider context.
pub open spec fn within(context: Seq<char>, why: Seq<char>) -> Seq<char> {
    context + ": "@ + why
}

pub fn inside(context: &str, why: &str) -> (r: String)
    ensures
        r@ == within(context@, why@),
{
    cat3(context, ": ", why)
}

/// The view of an optional text.
pub open spec fn opt(t: Option<String>) -> Option<Seq<char>> {
    match t {
        Some(s) => Some(s@),
        None => None,
    }
}

// ── asking ──────────────────────────────────────────────────────────────────

/// The `authorization` header of a bearer token; none for an empty one.
pub open spec fn bearer_header(token: Seq<char>) -> Seq<char> {
    if token.len() == 0 { seq![] } else { "Bearer "@ + token }
}

pub fn bearer(token: &str) -> (r: String)
    ensures
        r@ == bearer_header(token@),
{
    if token.is_empty() {
        String::new()
    } else {
        cat2("Bearer ", token)
    }
}

pub open spec fn calling(verb: Verb, url: Seq<char>, token: Seq<char>, load: PayloadV) -> AskV {
    AskV::Call { verb, url, auth: bearer_header(token), accept: seq![], load, bound_ms: 0 }
}

pub fn call(verb: Verb, url: String, token: &str, load: Payload) -> (r: Ask)
    ensures
        r@ == calling(verb, url@, token@, load@),
{
    Ask::Call { verb, url, auth: bearer(token), accept: String::new(), load, bound_ms: 0 }
}

pub open spec fn getting(url: Seq<char>, token: Seq<char>) -> AskV {
    calling(Verb::Get, url, token, PayloadV::Empty)
}

pub fn get(url: String, token: &str) -> (r: Ask)
    ensures
        r@ == getting(url@, token@),
{
    call(Verb::Get, url, token, Payload::Empty)
}

/// A read that is given up after `bound_ms`.
pub open spec fn getting_within(url: Seq<char>, token: Seq<char>, bound_ms: u64) -> AskV {
    AskV::Call { verb: Verb::Get, url, auth: bearer_header(token), accept: seq![], load: PayloadV::Empty, bound_ms }
}

pub fn get_within(url: String, token: &str, bound_ms: u64) -> (r: Ask)
    ensures
        r@ == getting_within(url@, token@, bound_ms),
{
    Ask::Call { verb: Verb::Get, url, auth: bearer(token), accept: String::new(), load: Payload::Empty, bound_ms }
}

pub open spec fn posting(url: Seq<char>, token: Seq<char>, body: Doc) -> AskV {
    calling(Verb::Post, url, token, PayloadV::Doc(body))
}

pub fn post(url: String, token: &str, body: Json) -> (r: Ask)
    ensures
        r@ == posting(url@, token@, body@),
{
    call(Verb::Post, url, token, Payload::Doc(body))
}

pub open spec fn patching(url: Seq<char>, token: Seq<char>, body: Doc) -> AskV {
    calling(Verb::Patch, url, token, PayloadV::Doc(body))
}

pub fn patch(url: String, token: &str, body: Json) -> (r: Ask)
    ensures
        r@ == patching(url@, token@, body@),
{
    call(Verb::Patch, url, token, Payload::Doc(body))
}

/// A post without a body.
pub open spec fn posting_nothing(url: Seq<char>, token: Seq<char>) -> AskV {
    calling(Verb::Post, url, token, PayloadV::Empty)
}

pub fn post_nothing(url: String, token: &str) -> (r: Ask)
    ensures
        r@ == posting_nothing(url@, token@),
{
    call(Verb::Post, url, token, Payload::Empty)
}

pub open spec fn deleting(url: Seq<char>, token: Seq<char>) -> AskV {
    calling(Verb::Delete, url, token, PayloadV::Empty)
}

pub fn erase(url: String, token: &str) -> (r: Ask)
    ensures
        r@ == deleting(url@, token@),
{
    call(Verb::Delete, url, token, Payload::Empty)
}

pub fn exec(ws: &str, script: String, bound_ms: u64) -> (r: Ask)
    ensures
        r@ == (AskV::Exec { ws: ws@, script: script@, bound_ms }),
{
    Ask::Exec { ws: ws.to_owned(), script, bound_ms }
}

// ── laws ────────────────────────────────────────────────────────────────────

/// A body with a compensation is not over before that was asked for and answered, whatever the body came
/// to and also where it was cut off.
pub proof fn law_a_compensation_is_owed(log: LogV, cap_ms: u64, body: NextV, undo: AskV, bad: Option<Seq<char>>)
    ensures
        undoing(log, cap_ms, body, undo, bad) is Pass ==> log.us.len() > 0 && bad is None,
        undoing(log, cap_ms, body, undo, bad) is Fail ==> log.us.len() > 0,
        log.cut && log.us.len() == 0 ==> undoing(log, cap_ms, body, undo, bad) == NextV::Undo(undo),
        log.cut && log.us.len() > 0 ==> undoing(log, cap_ms, body, undo, bad) == NextV::Fail(out_of_time(cap_ms)),
{
}

/// The same of two compensations: both are asked for, the first one first, and the body's own failure is
/// told before theirs.
pub proof fn law_both_compensations_are_owed(
    log: LogV, cap_ms: u64, why: Seq<char>, first: AskV, first_bad: Option<Seq<char>>, second: AskV, second_bad: Option<Seq<char>>,
)
    requires
        !log.cut,
    ensures
        log.us.len() == 0 ==> undoing2(log, cap_ms, NextV::Fail(why), first, first_bad, second, second_bad) == NextV::Undo(first),
        log.us.len() == 1 ==> undoing2(log, cap_ms, NextV::Fail(why), first, first_bad, second, second_bad) == NextV::Undo(second),
        log.us.len() >= 2 ==> undoing2(log, cap_ms, NextV::Fail(why), first, first_bad, second, second_bad) == NextV::Fail(why),
{
}

/// What a body asks for is decided by what it has been told: nothing later in it is asked for before the
/// reply to this, and nothing after a reply that was bad.
pub proof fn law_a_link_goes_on_only_from_a_good_reply(rs: Seq<ReplyV>, k: nat, ask: AskV, bad: Option<Seq<char>>, rest: NextV)
    ensures
        rs.len() <= k ==> link(rs, k, ask, bad, rest) == NextV::Ask(ask),
        rs.len() > k && bad is Some ==> link(rs, k, ask, bad, rest) == NextV::Fail(bad->0),
        rs.len() > k && bad is None ==> link(rs, k, ask, bad, rest) == rest,
{
}

} // verus!
