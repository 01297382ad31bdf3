//! The session registry.
//!
//! One client-visible session stands for a pair of downstream sessions, one
//! opened against the native driver and one against the embedded plugin.
//! The registry owns that correlation: it maps each client session id to the
//! two underlying ids, which are attached at most once and, once attached,
//! never change for the life of the entry.

use vstd::prelude::*;
use std::collections::HashMap;

verus! {

broadcast use vstd::std_specs::hash::group_hash_axioms;

/// One client-visible automation session: the two underlying session ids,
/// each absent until the corresponding remote end has opened its session.
pub struct Session {
    pub client_id: u64,
    pub native_id: Option<String>,
    pub plugin_id: Option<String>,
}

/// The mathematical content of a session record.
pub struct SessionView {
    pub client_id: u64,
    pub native_id: Option<Seq<char>>,
    pub plugin_id: Option<Seq<char>>,
}

/// The characters of an optional string.
pub open spec fn opt_str_view(o: Option<String>) -> Option<Seq<char>> {
    match o {
        Some(s) => Some(s@),
        None => None,
    }
}

impl View for Session {
    type V = SessionView;

    open spec fn view(&self) -> SessionView {
        SessionView {
            client_id: self.client_id,
            native_id: opt_str_view(self.native_id),
            plugin_id: opt_str_view(self.plugin_id),
        }
    }
}

/// The recoverable failures of registry operations.
#[derive(Clone, Copy, Debug, PartialEq, Eq, Structural)]
pub enum RegistryError {
    /// The client session id is already registered.
    DuplicateSession,
    /// The remote-end id in question was already attached to this session.
    AlreadyAttached,
    /// No session is registered under the client session id.
    UnknownSession,
}

/// Maps each open client session id to its session record.  Minted ids are
/// drawn from a counter that stays ahead of every registered id, so a fresh
/// id never collides with an open session.
pub struct SessionRegistry {
    sessions: HashMap<u64, Session>,
    next_id: u128,
}

impl View for SessionRegistry {
    type V = Map<u64, SessionView>;

    closed spec fn view(&self) -> Map<u64, SessionView> {
        Map::new(
            |k: u64| self.sessions@.contains_key(k),
            |k: u64| self.sessions@[k]@,
        )
    }
}

impl SessionRegistry {
    /// Every registered record carries its own key as client id, and the
    /// minting counter lies strictly above every registered id.
    pub closed spec fn wf(&self) -> bool {
        forall|k: u64|
            self.sessions@.contains_key(k) ==> (#[trigger] self.sessions@[k]).client_id == k && (
            k as u128) < self.next_id
    }

    /// Whether the id counter has run through the whole id space, so that
    /// no further client session id can be minted.
    pub closed spec fn exhausted(&self) -> bool {
        self.next_id > u64::MAX as u128
    }

    /// An empty registry.
    pub fn new() -> (r: SessionRegistry)
        ensures
            r.wf(),
            r@ == Map::<u64, SessionView>::empty(),
            !r.exhausted(),
    {
        let r = SessionRegistry { sessions: HashMap::new(), next_id: 1 };
        proof {
            assert(r@ =~= Map::<u64, SessionView>::empty());
        }
        r
    }

    /// Mints a client session id that no open session uses.  Yields nothing
    /// only once the id space is exhausted.
    pub fn mint_client_id(&mut self) -> (r: Option<u64>)
        requires
            old(self).wf(),
        ensures
            final(self).wf(),
            final(self)@ == old(self)@,
            match r {
                Some(id) => !old(self).exhausted() && !old(self)@.contains_key(id),
                None => old(self).exhausted(),
            },
    {
        if self.next_id > u64::MAX as u128 {
            None
        } else {
            let id = self.next_id as u64;
            proof {
                if old(self)@.contains_key(id) {
                    assert(old(self).sessions@.contains_key(id));
                    assert(old(self).sessions@[id].client_id == id);
                }
            }
            self.next_id = self.next_id + 1;
            Some(id)
        }
    }

    /// Registers a new session with both underlying ids unset.  Rejects a
    /// client session id that is already registered, and touches nothing in
    /// that case.
    pub fn create(&mut self, client_id: u64) -> (r: Result<(), RegistryError>)
        requires
            old(self).wf(),
        ensures
            final(self).wf(),
            old(self)@.contains_key(client_id) ==> r == Err::<(), RegistryError>(
                RegistryError::DuplicateSession,
            ) && final(self)@ == old(self)@,
            !old(self)@.contains_key(client_id) ==> r == Ok::<(), RegistryError>(()) && final(self)@ == old(self)@.insert(
                client_id,
                SessionView { client_id, native_id: None, plugin_id: None },
            ),
    {
        if self.sessions.contains_key(&client_id) {
            Err(RegistryError::DuplicateSession)
        } else {
            let entry = Session { client_id, native_id: None, plugin_id: None };
            self.sessions.insert(client_id, entry);
            if client_id as u128 >= self.next_id {
                self.next_id = client_id as u128 + 1;
            }
            proof {
                assert(final(self)@ =~= old(self)@.insert(
                    client_id,
                    SessionView { client_id, native_id: None, plugin_id: None },
                ));
            }
            Ok(())
        }
    }

    /// Attaches the native-driver session id, exactly once per session.
    pub fn attach_native(&mut self, client_id: u64, native_id: String) -> (r: Result<
        (),
        RegistryError,
    >)
        requires
            old(self).wf(),
        ensures
            final(self).wf(),
            !old(self)@.contains_key(client_id) ==> r == Err::<(), RegistryError>(
                RegistryError::UnknownSession,
            ) && final(self)@ == old(self)@,
            old(self)@.contains_key(client_id) && old(self)@[client_id].native_id is Some ==> r
                == Err::<(), RegistryError>(RegistryError::AlreadyAttached) && final(self)@ == old(self)@,
            old(self)@.contains_key(client_id) && old(self)@[client_id].native_id is None ==> r
                == Ok::<(), RegistryError>(()) && final(self)@ == old(self)@.insert(
                client_id,
                SessionView {
                    client_id,
                    native_id: Some(native_id@),
                    plugin_id: old(self)@[client_id].plugin_id,
                },
            ),
    {
        match self.sessions.remove(&client_id) {
            None => Err(RegistryError::UnknownSession),
            Some(entry) => {
                if entry.native_id.is_some() {
                    self.sessions.insert(client_id, entry);
                    proof {
                        assert(final(self)@ =~= old(self)@);
                    }
                    Err(RegistryError::AlreadyAttached)
                } else {
                    let updated = Session {
                        client_id: entry.client_id,
                        native_id: Some(native_id),
                        plugin_id: entry.plugin_id,
                    };
                    self.sessions.insert(client_id, updated);
                    proof {
                        assert(final(self)@ =~= old(self)@.insert(
                            client_id,
                            SessionView {
                                client_id,
                                native_id: Some(native_id@),
                                plugin_id: old(self)@[client_id].plugin_id,
                            },
                        ));
                    }
                    Ok(())
                }
            },
        }
    }

    /// Attaches the plugin session id, exactly once per session.
    pub fn attach_plugin(&mut self, client_id: u64, plugin_id: String) -> (r: Result<
        (),
        RegistryError,
    >)
        requires
            old(self).wf(),
        ensures
            final(self).wf(),
            !old(self)@.contains_key(client_id) ==> r == Err::<(), RegistryError>(
                RegistryError::UnknownSession,
            ) && final(self)@ == old(self)@,
            old(self)@.contains_key(client_id) && old(self)@[client_id].plugin_id is Some ==> r
                == Err::<(), RegistryError>(RegistryError::AlreadyAttached) && final(self)@ == old(self)@,
            old(self)@.contains_key(client_id) && old(self)@[client_id].plugin_id is None ==> r
                == Ok::<(), RegistryError>(()) && final(self)@ == old(self)@.insert(
                client_id,
                SessionView {
                    client_id,
                    native_id: old(self)@[client_id].native_id,
                    plugin_id: Some(plugin_id@),
                },
            ),
    {
        match self.sessions.remove(&client_id) {
            None => Err(RegistryError::UnknownSession),
            Some(entry) => {
                if entry.plugin_id.is_some() {
                    self.sessions.insert(client_id, entry);
                    proof {
                        assert(final(self)@ =~= old(self)@);
                    }
                    Err(RegistryError::AlreadyAttached)
                } else {
                    let updated = Session {
                        client_id: entry.client_id,
                        native_id: entry.native_id,
                        plugin_id: Some(plugin_id),
                    };
                    self.sessions.insert(client_id, updated);
                    proof {
                        assert(final(self)@ =~= old(self)@.insert(
                            client_id,
                            SessionView {
                                client_id,
                                native_id: old(self)@[client_id].native_id,
                                plugin_id: Some(plugin_id@),
                            },
                        ));
                    }
                    Ok(())
                }
            },
        }
    }

    /// Looks a session up by its client session id.
    pub fn lookup(&self, client_id: u64) -> (r: Result<&Session, RegistryError>)
        ensures
            match r {
                Ok(entry) => self@.contains_key(client_id) && entry@ == self@[client_id],
                Err(e) => !self@.contains_key(client_id) && e == RegistryError::UnknownSession,
            },
    {
        match self.sessions.get(&client_id) {
            Some(entry) => Ok(entry),
            None => Err(RegistryError::UnknownSession),
        }
    }

    /// Whether a session is registered under the client session id.
    pub fn contains(&self, client_id: u64) -> (r: bool)
        ensures
            r == self@.contains_key(client_id),
    {
        self.sessions.contains_key(&client_id)
    }

    /// Deletes the entry, and reports whether it was present.  Deleting an
    /// absent id is a no-op, so the call is safe to repeat.
    pub fn remove(&mut self, client_id: u64) -> (was_present: bool)
        requires
            old(self).wf(),
        ensures
            final(self).wf(),
            final(self)@ == old(self)@.remove(client_id),
            was_present == old(self)@.contains_key(client_id),
    {
        let r = self.sessions.remove(&client_id);
        proof {
            assert(final(self)@ =~= old(self)@.remove(client_id));
        }
        r.is_some()
    }
}

} // verus!
