//! The session handle's lifecycle: creation, restart, stop and teardown.
//!
//! A session pairs one native engine session with one callback registry.
//! Each operation returns the engine calls it needs, as [`Action`]s in the
//! order in which they must be made; the embedder makes them and reports the
//! outcome of a creation back with [`PendingSession::finish`].
use vstd::prelude::*;
use crate::options::{build_options, entries_view, options_for, OptionEntry};
use crate::registry::{CallbackRegistry, HookKind, HookSet};
use crate::status::Error;

verus! {

/// How the engine replicates in one direction.
#[derive(Clone, Copy, Debug, PartialEq, Eq, Structural)]
pub enum ReplicatorMode {
    Disabled,
    Passive,
    OneShot,
    Continuous,
}

/// What the engine needs to create a session: the remote URL (the engine
/// parses it), the options mapping, both directions' modes and the hooks to
/// install. The callback registry itself travels beside it, untouched.
#[derive(Debug)]
pub struct CreateRequest {
    pub url: String,
    pub options: Vec<OptionEntry>,
    pub push: ReplicatorMode,
    pub pull: ReplicatorMode,
    pub hooks: HookSet,
}

/// One call into the engine, or the release of the callback registry.
/// Native sessions are named by the embedder's handle for them.
#[derive(Debug)]
pub enum Action {
    CreateSession(CreateRequest),
    StopSession(u64),
    FreeSession(u64),
    ReleaseRegistry,
}

/// A token as a mathematical value.
pub open spec fn token_view(token: Option<&str>) -> Option<Seq<char>> {
    match token {
        Some(t) => Some(t@),
        None => None,
    }
}

/// `req` asks for a continuous push-and-pull session with `url`, the options
/// for `token`, and the hooks `hooks`.
pub open spec fn requests(
    req: CreateRequest,
    url: Seq<char>,
    token: Option<Seq<char>>,
    hooks: HookSet,
) -> bool {
    &&& req.url@ == url
    &&& entries_view(req.options@) == options_for(token)
    &&& req.push == ReplicatorMode::Continuous
    &&& req.pull == ReplicatorMode::Continuous
    &&& req.hooks == hooks
}

/// The actions that start a session: one creation request.
pub open spec fn create_actions(
    acts: Seq<Action>,
    url: Seq<char>,
    token: Option<Seq<char>>,
    hooks: HookSet,
) -> bool {
    &&& acts.len() == 1
    &&& acts[0] matches Action::CreateSession(req) && requests(req, url, token, hooks)
}

/// The actions of a restart of native session `id`: stop it, free it, then
/// ask for a new session with the same hooks.
pub open spec fn restart_actions(
    acts: Seq<Action>,
    id: u64,
    url: Seq<char>,
    token: Option<Seq<char>>,
    hooks: HookSet,
) -> bool {
    &&& acts.len() == 3
    &&& acts[0] == Action::StopSession(id)
    &&& acts[1] == Action::FreeSession(id)
    &&& acts[2] matches Action::CreateSession(req) && requests(req, url, token, hooks)
}

/// The actions that tear down native session `id` and its registry: stop
/// it, free it, then release the registry.
pub open spec fn teardown_actions(id: u64) -> Seq<Action> {
    seq![Action::StopSession(id), Action::FreeSession(id), Action::ReleaseRegistry]
}

/// The actions after a failed creation: release the registry, which the
/// engine never took.
pub open spec fn failed_create_actions() -> Seq<Action> {
    seq![Action::ReleaseRegistry]
}

/// How many native sessions exist after a run of actions that began with
/// `held` of them, counting a creation from the moment it is asked for.
pub open spec fn outstanding(acts: Seq<Action>, held: int) -> int
    decreases acts.len(),
{
    if acts.len() == 0 {
        held
    } else {
        let before = outstanding(acts.drop_last(), held);
        match acts.last() {
            Action::CreateSession(_) => before + 1,
            Action::FreeSession(_) => before - 1,
            _ => before,
        }
    }
}

/// Every native session freed in `acts` is freed before the registry is
/// released.
pub open spec fn frees_precede_release(acts: Seq<Action>) -> bool {
    forall|i: int, j: int|
        0 <= i < acts.len() && 0 <= j < acts.len() && acts[i] is FreeSession
            && acts[j] is ReleaseRegistry ==> i < j
}

/// The registry is released exactly once in `acts`, as its last action.
pub open spec fn releases_once_last(acts: Seq<Action>) -> bool {
    &&& acts.len() > 0
    &&& acts.last() is ReleaseRegistry
    &&& forall|k: int| 0 <= k < acts.len() - 1 ==> !(acts[k] is ReleaseRegistry)
}

/// A restart is resource-neutral: at no point of it do two native sessions
/// exist, the old one is freed before the new one is asked for, the registry
/// is kept, and the new session installs the same hooks.
pub proof fn restart_is_resource_neutral(
    acts: Seq<Action>,
    id: u64,
    url: Seq<char>,
    token: Option<Seq<char>>,
    hooks: HookSet,
)
    requires
        restart_actions(acts, id, url, token, hooks),
    ensures
        forall|k: int| 0 <= k <= acts.len() ==> outstanding(#[trigger] acts.take(k), 1) <= 1,
        outstanding(acts, 1) == 1,
        forall|i: int|
            0 <= i < acts.len() && acts[i] is CreateSession ==> exists|j: int|
                0 <= j < i && acts[j] == Action::FreeSession(id),
        forall|i: int| 0 <= i < acts.len() ==> !(acts[i] is ReleaseRegistry),
        acts.last() matches Action::CreateSession(req) && req.hooks == hooks,
{
    assert(acts.take(0).len() == 0);
    assert(acts.take(1).drop_last() =~= acts.take(0));
    assert(acts.take(2).drop_last() =~= acts.take(1));
    assert(acts.take(3).drop_last() =~= acts.take(2));
    assert(acts.take(3) =~= acts);
    assert(outstanding(acts.take(0), 1) == 1);
    assert(acts.take(1).last() == acts[0]);
    assert(acts.take(2).last() == acts[1]);
    assert(acts.take(3).last() == acts[2]);
    assert(outstanding(acts.take(1), 1) == 1);
    assert(outstanding(acts.take(2), 1) == 0);
    assert(outstanding(acts.take(3), 1) == 1);
    assert forall|i: int| 0 <= i < acts.len() && acts[i] is CreateSession implies exists|j: int|
        0 <= j < i && acts[j] == Action::FreeSession(id) by {
        assert(acts[1] == Action::FreeSession(id));
    }
}

/// On every exit path the native session is freed before the registry is
/// released, and the registry is released exactly once, last: an explicit
/// stop, an implicit teardown, a failed creation, and a restart whose new
/// creation fails.
pub proof fn teardown_is_ordered(
    id: u64,
    restart: Seq<Action>,
    url: Seq<char>,
    token: Option<Seq<char>>,
    hooks: HookSet,
)
    requires
        restart_actions(restart, id, url, token, hooks),
    ensures
        teardown_actions(id).contains(Action::FreeSession(id)),
        frees_precede_release(teardown_actions(id)),
        releases_once_last(teardown_actions(id)),
        frees_precede_release(failed_create_actions()),
        releases_once_last(failed_create_actions()),
        (restart + failed_create_actions()).contains(Action::FreeSession(id)),
        frees_precede_release(restart + failed_create_actions()),
        releases_once_last(restart + failed_create_actions()),
{
    assert(teardown_actions(id)[1] == Action::FreeSession(id));
    let both = restart + failed_create_actions();
    assert(both[1] == Action::FreeSession(id));
    assert(both.len() == 4);
    assert(both[3] is ReleaseRegistry);
}

/// A session installs the entry point of a hook kind exactly when the
/// registry holds a closure for it, at creation and after any restart.
pub proof fn installed_hooks_are_registered<F, G, H>(
    reg: CallbackRegistry<F, G, H>,
    req: CreateRequest,
    url: Seq<char>,
    token: Option<Seq<char>>,
    kind: HookKind,
)
    requires
        requests(req, url, token, reg.spec_hooks()),
    ensures
        req.hooks.spec_installs(kind) <==> match kind {
            HookKind::StatusChanged => true,
            HookKind::BeforePush => reg.before_push is Some,
            HookKind::AfterPull => reg.after_pull is Some,
        },
{
}

/// A creation that was asked for and not yet answered. It owns the callback
/// registry; no native session exists.
pub struct PendingSession {
    hooks: HookSet,
}

/// A running session: it owns native session `native` and the callback
/// registry, and releases both together.
pub struct Session {
    native: u64,
    hooks: HookSet,
}

/// The creation request for a URL, a token and a set of hooks.
fn create_request(url: &str, token: Option<&str>, hooks: HookSet) -> (r: CreateRequest)
    ensures
        requests(r, url@, token_view(token), hooks),
{
    let options = build_options(token);
    CreateRequest {
        url: String::from_str(url),
        options,
        push: ReplicatorMode::Continuous,
        pull: ReplicatorMode::Continuous,
        hooks,
    }
}

impl PendingSession {
    pub closed spec fn spec_hooks(&self) -> HookSet {
        self.hooks
    }

    /// Starts the creation of a session whose registry calls for `hooks`.
    pub fn create(url: &str, token: Option<&str>, hooks: HookSet) -> (r: (PendingSession, Vec<
        Action,
    >))
        ensures
            r.0.spec_hooks() == hooks,
            create_actions(r.1@, url@, token_view(token), hooks),
    {
        let req = create_request(url, token, hooks);
        let mut acts: Vec<Action> = Vec::new();
        acts.push(Action::CreateSession(req));
        (PendingSession { hooks }, acts)
    }

    /// Takes the engine's answer to the creation request. On success the
    /// session owns the new native session and the registry; on failure the
    /// registry is released and the error is returned.
    pub fn finish(self, outcome: Result<u64, Error>) -> (r: (Result<Session, Error>, Vec<Action>))
        ensures
            outcome is Ok <==> r.0 is Ok,
            outcome matches Ok(id) ==> r.0 matches Ok(s) && s.spec_native() == id
                && s.spec_hooks() == self.spec_hooks() && r.1@ == Seq::<Action>::empty(),
            outcome matches Err(e) ==> r.0 matches Err(e2) && e2 == e && r.1@
                == failed_create_actions(),
    {
        match outcome {
            Ok(id) => (Ok(Session { native: id, hooks: self.hooks }), Vec::new()),
            Err(e) => {
                let mut acts: Vec<Action> = Vec::new();
                acts.push(Action::ReleaseRegistry);
                assert(acts@ =~= failed_create_actions());
                (Err(e), acts)
            },
        }
    }
}

impl Session {
    pub closed spec fn spec_native(&self) -> u64 {
        self.native
    }

    pub closed spec fn spec_hooks(&self) -> HookSet {
        self.hooks
    }

    /// The native session, for status queries.
    pub fn native(&self) -> (r: u64)
        ensures
            r == self.spec_native(),
    {
        self.native
    }

    /// The hooks installed for this session.
    pub fn hooks(&self) -> (r: HookSet)
        ensures
            r == self.spec_hooks(),
    {
        self.hooks
    }

    /// Replaces the native session: the current one is stopped and freed
    /// before a new one is asked for, with the same registry and hooks.
    pub fn restart(self, url: &str, token: Option<&str>) -> (r: (PendingSession, Vec<Action>))
        ensures
            r.0.spec_hooks() == self.spec_hooks(),
            restart_actions(r.1@, self.spec_native(), url@, token_view(token), self.spec_hooks()),
    {
        let req = create_request(url, token, self.hooks);
        let mut acts: Vec<Action> = Vec::new();
        acts.push(Action::StopSession(self.native));
        acts.push(Action::FreeSession(self.native));
        acts.push(Action::CreateSession(req));
        (PendingSession { hooks: self.hooks }, acts)
    }

    /// Stops the session and releases what it owns: the native session
    /// first, the registry last.
    pub fn stop(self) -> (r: Vec<Action>)
        ensures
            r@ == teardown_actions(self.spec_native()),
    {
        self.close()
    }

    /// Tears the session down when its owner lets go of it.
    pub fn close(self) -> (r: Vec<Action>)
        ensures
            r@ == teardown_actions(self.spec_native()),
    {
        let mut acts: Vec<Action> = Vec::new();
        acts.push(Action::StopSession(self.native));
        acts.push(Action::FreeSession(self.native));
        acts.push(Action::ReleaseRegistry);
        assert(acts@ =~= teardown_actions(self.native));
        acts
    }
}

} // verus!
