//! The callback registry: the user's closures, kept at one stable place for
//! as long as the engine may call them, and the hooks that follow from them.
use vstd::prelude::*;
use vstd::string::{StrSliceExecFns, StringSliceAdditionalSpecFns};

verus! {

/// Which engine hooks are installed for a session. The status hook is always
/// installed; a filter hook is installed only when its closure was given.
#[derive(Clone, Copy, Debug, PartialEq, Eq, Structural)]
pub struct HookSet {
    pub status_changed: bool,
    pub before_push: bool,
    pub after_pull: bool,
}

/// The kinds of callback the engine can make into the library.
#[derive(Clone, Copy, Debug, PartialEq, Eq, Structural)]
pub enum HookKind {
    StatusChanged,
    BeforePush,
    AfterPull,
}

impl HookSet {
    pub open spec fn spec_installs(&self, kind: HookKind) -> bool {
        match kind {
            HookKind::StatusChanged => self.status_changed,
            HookKind::BeforePush => self.before_push,
            HookKind::AfterPull => self.after_pull,
        }
    }

    /// Whether the entry point of a hook kind is handed to the engine.
    pub fn installs(&self, kind: HookKind) -> (r: bool)
        ensures
            r == self.spec_installs(kind),
    {
        match kind {
            HookKind::StatusChanged => self.status_changed,
            HookKind::BeforePush => self.before_push,
            HookKind::AfterPull => self.after_pull,
        }
    }
}

/// The user's closures: one for status changes, and optionally one filter
/// before a revision is pushed and one after a revision is pulled. Dropping
/// the registry releases every closure it holds.
pub struct CallbackRegistry<F, G, H> {
    pub status_changed: F,
    pub before_push: Option<G>,
    pub after_pull: Option<H>,
}

impl<F, G, H> CallbackRegistry<F, G, H> {
    /// The hooks that a registry's closures call for.
    pub open spec fn spec_hooks(&self) -> HookSet {
        HookSet {
            status_changed: true,
            before_push: self.before_push is Some,
            after_pull: self.after_pull is Some,
        }
    }

    /// Takes ownership of the closures.
    pub fn new(status_changed: F, before_push: Option<G>, after_pull: Option<H>) -> (r: Self)
        ensures
            r.status_changed == status_changed,
            r.before_push == before_push,
            r.after_pull == after_pull,
    {
        CallbackRegistry { status_changed, before_push, after_pull }
    }

    /// The hooks to install for this registry: exactly those whose closure is
    /// present.
    pub fn hooks(&self) -> (r: HookSet)
        ensures
            r == self.spec_hooks(),
    {
        HookSet {
            status_changed: true,
            before_push: self.before_push.is_some(),
            after_pull: self.after_pull.is_some(),
        }
    }
}

/// The buffer handed back to the engine for a filter's reply: a fresh copy of
/// the reply's UTF-8 bytes, which the engine then owns.
pub fn filter_reply(reply: &str) -> (r: Vec<u8>)
    ensures
        r@ == reply.spec_bytes(),
{
    reply.as_bytes_vec()
}

} // verus!
