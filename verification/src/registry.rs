//! When a session is created and who shares it.
//!
//! Two policies are offered, and a deployment picks one:
//!
//! * shared singleton: the first client makes the session, every later
//!   client gets the same one. What one client does to the subprocess, all
//!   clients feel.
//! * per connection: every client gets a session of its own, which ends with
//!   its connection. Clients do not feel each other; each costs a process.
//!
//! The registry holds finished sessions only. Creating one is the caller's
//! business, and is done while the caller holds the registry, so that of
//! several clients arriving at once only one creates.

use vstd::prelude::*;

verus! {

/// Who shares a session.
#[derive(Clone, Copy, Debug, PartialEq, Eq)]
pub enum SharingPolicy {
    /// One session for all clients, made on first use.
    SharedSingleton,
    /// One session for each connection.
    PerConnection,
}

/// What a client that needs a session is told.
#[derive(Clone, Copy, Debug, PartialEq, Eq)]
pub enum Admission {
    /// Use the session that the registry holds.
    Reuse,
    /// Create a session, then offer it to [`SessionRegistry::install`].
    Create,
}

/// The admission of a client under a policy, given whether a shared session
/// is held.
pub open spec fn admission_of(policy: SharingPolicy, holds_shared: bool) -> Admission {
    if policy == SharingPolicy::SharedSingleton && holds_shared {
        Admission::Reuse
    } else {
        Admission::Create
    }
}

/// The sessions of one bridge, under one sharing policy.
pub struct SessionRegistry<S> {
    policy: SharingPolicy,
    shared: Option<S>,
}

impl<S> SessionRegistry<S> {
    /// The policy that the registry was made with.
    pub closed spec fn policy(&self) -> SharingPolicy {
        self.policy
    }

    /// The session that every client shares, if one is held.
    pub closed spec fn shared(&self) -> Option<S> {
        self.shared
    }

    /// A registry that holds no session yet.
    pub fn new(policy: SharingPolicy) -> (registry: Self)
        ensures
            registry.policy() == policy,
            registry.shared() is None,
    {
        SessionRegistry { policy, shared: None }
    }

    /// Tells a client whether to use the held session or to create one.
    pub fn admission(&self) -> (admission: Admission)
        ensures
            admission == admission_of(self.policy(), self.shared() is Some),
    {
        match self.policy {
            SharingPolicy::SharedSingleton => {
                if self.shared.is_some() {
                    Admission::Reuse
                } else {
                    Admission::Create
                }
            },
            SharingPolicy::PerConnection => Admission::Create,
        }
    }

    /// The session that every client shares, if one is held.
    pub fn current(&self) -> (held: Option<&S>)
        ensures
            held is Some <==> self.shared() is Some,
            held matches Some(session) ==> self.shared() == Some(*session),
    {
        self.shared.as_ref()
    }

    /// Offers a session that was just created. Under the shared policy the
    /// first session offered is kept and nothing is handed back; a session
    /// offered while one is held is handed back, to be torn down by its
    /// maker. Under the per-connection policy every session is handed back:
    /// it belongs to the connection that made it.
    pub fn install(&mut self, session: S) -> (handed_back: Option<S>)
        ensures
            final(self).policy() == old(self).policy(),
            admission_of(old(self).policy(), old(self).shared() is Some) == Admission::Create
                && old(self).policy() == SharingPolicy::SharedSingleton ==> {
                &&& handed_back is None
                &&& final(self).shared() == Some(session)
            },
            !(admission_of(old(self).policy(), old(self).shared() is Some) == Admission::Create
                && old(self).policy() == SharingPolicy::SharedSingleton) ==> {
                &&& handed_back == Some(session)
                &&& final(self).shared() == old(self).shared()
            },
    {
        match self.policy {
            SharingPolicy::SharedSingleton => {
                if self.shared.is_some() {
                    Some(session)
                } else {
                    self.shared = Some(session);
                    None
                }
            },
            SharingPolicy::PerConnection => Some(session),
        }
    }

    /// Gives up the shared session, for one whose subprocess has exited: the
    /// next client creates a new one.
    pub fn retire(&mut self) -> (retired: Option<S>)
        ensures
            retired == old(self).shared(),
            final(self).shared() is None,
            final(self).policy() == old(self).policy(),
    {
        self.shared.take()
    }
}

} // verus!
