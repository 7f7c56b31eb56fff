//! The registry of active sessions, found again by server or by owner.
use vstd::prelude::*;
use std::collections::HashMap;
use vstd::std_specs::iter::IteratorSpec;
use crate::text::{chars_of, into_string};

verus! {

broadcast use vstd::std_specs::hash::group_hash_axioms;

/// What identifies a session: the server it plays in, the user who started
/// it and the channels it uses.
#[derive(Debug, Clone, Copy, PartialEq, Eq, Structural)]
pub struct SessionHandle {
    pub guild_id: u64,
    pub owner: u64,
    pub voice_channel_id: u64,
    pub text_channel_id: u64,
}

/// How a session is looked up: by the server (guild) or by its owner.
#[derive(Debug, Clone, Copy, PartialEq, Eq, Structural)]
pub enum SessionQuery {
    Guild(u64),
    Owner(u64),
}

/// The registry shared by every session of the bot.
pub struct SessionManager {
    device_name: String,
    sessions: HashMap<u64, SessionHandle>,
    owners: HashMap<u64, SessionHandle>,
}

/// The session a query finds in the two indexes.
pub open spec fn lookup(
    sessions: Map<u64, SessionHandle>,
    owners: Map<u64, SessionHandle>,
    query: SessionQuery,
) -> Option<SessionHandle> {
    match query {
        SessionQuery::Guild(g) => if sessions.contains_key(g) {
            Some(sessions[g])
        } else {
            None
        },
        SessionQuery::Owner(o) => if owners.contains_key(o) {
            Some(owners[o])
        } else {
            None
        },
    }
}

impl SessionManager {
    /// Sessions by server.
    pub closed spec fn guilds(&self) -> Map<u64, SessionHandle> {
        self.sessions@
    }

    /// Sessions by owner.
    pub closed spec fn owners(&self) -> Map<u64, SessionHandle> {
        self.owners@
    }

    pub closed spec fn spec_device_name(&self) -> Seq<char> {
        self.device_name@
    }

    /// An empty registry for a bot advertising itself as `device_name`.
    pub fn new(device_name: &str) -> (m: Self)
        ensures
            m.guilds() == Map::<u64, SessionHandle>::empty(),
            m.owners() == Map::<u64, SessionHandle>::empty(),
            m.spec_device_name() == device_name@,
    {
        SessionManager {
            device_name: into_string(chars_of(device_name)),
            sessions: HashMap::new(),
            owners: HashMap::new(),
        }
    }

    /// Records a session that was started in `guild_id` by `owner`.
    pub fn create_session(
        &mut self,
        guild_id: u64,
        voice_channel_id: u64,
        text_channel_id: u64,
        owner: u64,
    ) -> (h: SessionHandle)
        ensures
            h == (SessionHandle { guild_id, owner, voice_channel_id, text_channel_id }),
            final(self).guilds() == old(self).guilds().insert(guild_id, h),
            final(self).owners() == old(self).owners().insert(owner, h),
            final(self).spec_device_name() == old(self).spec_device_name(),
    {
        let handle = SessionHandle { guild_id, owner, voice_channel_id, text_channel_id };
        self.sessions.insert(guild_id, handle);
        self.owners.insert(owner, handle);
        handle
    }

    /// The session a query finds.
    pub fn get_session(&self, query: SessionQuery) -> (r: Option<SessionHandle>)
        ensures
            r == lookup(self.guilds(), self.owners(), query),
    {
        match query {
            SessionQuery::Guild(guild) => match self.sessions.get(&guild) {
                Some(h) => Some(*h),
                None => None,
            },
            SessionQuery::Owner(owner) => match self.owners.get(&owner) {
                Some(h) => Some(*h),
                None => None,
            },
        }
    }

    /// Forgets the entry a query finds, in the index the query names only.
    pub fn remove_session(&mut self, query: SessionQuery)
        ensures
            match query {
                SessionQuery::Guild(g) => final(self).guilds() == old(self).guilds().remove(g)
                    && final(self).owners() == old(self).owners(),
                SessionQuery::Owner(o) => final(self).owners() == old(self).owners().remove(o)
                    && final(self).guilds() == old(self).guilds(),
            },
            final(self).spec_device_name() == old(self).spec_device_name(),
    {
        match query {
            SessionQuery::Guild(guild) => {
                self.sessions.remove(&guild);
            },
            SessionQuery::Owner(owner) => {
                self.owners.remove(&owner);
            },
        }
    }

    /// Every session of the server index, once per server.
    pub fn get_all_sessions(&self) -> (v: Vec<SessionHandle>)
        ensures
            v@.to_set() == self.guilds().values(),
            v@.len() == self.guilds().dom().len(),
    {
        let mut v: Vec<SessionHandle> = Vec::new();
        for h in it: self.sessions.values()
            invariant
                v@.len() == it.index(),
                forall|i: int| 0 <= i < it.index() ==> v@[i] == *(#[trigger] it.seq()[i]),
        {
            v.push(*h);
        }
        proof {
            let s = vstd::std_specs::hash::spec_values_iter(&self.sessions).remaining();
            assert(v@ =~= s.unref());
        }
        v
    }

    /// Forgets every session, in both indexes.
    pub fn shutdown_all(&mut self)
        ensures
            final(self).guilds() == Map::<u64, SessionHandle>::empty(),
            final(self).owners() == Map::<u64, SessionHandle>::empty(),
            final(self).spec_device_name() == old(self).spec_device_name(),
    {
        self.owners.clear();
        self.sessions.clear();
    }

    /// The Spotify Connect device name to advertise.
    pub fn device_name(&self) -> (s: String)
        ensures
            s@ == self.spec_device_name(),
    {
        self.device_name.clone()
    }
}


/// Right after a session is recorded it is found both by its server and by
/// its owner, and lookups of other servers and owners are unchanged.
pub proof fn lemma_create_then_get(
    sessions: Map<u64, SessionHandle>,
    owners: Map<u64, SessionHandle>,
    h: SessionHandle,
    q: SessionQuery,
)
    ensures
        lookup(sessions.insert(h.guild_id, h), owners.insert(h.owner, h), SessionQuery::Guild(h.guild_id))
            == Some(h),
        lookup(sessions.insert(h.guild_id, h), owners.insert(h.owner, h), SessionQuery::Owner(h.owner))
            == Some(h),
        q != SessionQuery::Guild(h.guild_id) && q != SessionQuery::Owner(h.owner) ==> lookup(
            sessions.insert(h.guild_id, h),
            owners.insert(h.owner, h),
            q,
        ) == lookup(sessions, owners, q),
{
}

/// After removing by a key, that key finds nothing, and every lookup in the
/// other index is unchanged.
pub proof fn lemma_remove_then_get(
    sessions: Map<u64, SessionHandle>,
    owners: Map<u64, SessionHandle>,
    g: u64,
    o: u64,
    q: SessionQuery,
)
    ensures
        lookup(sessions.remove(g), owners, SessionQuery::Guild(g)) is None,
        lookup(sessions, owners.remove(o), SessionQuery::Owner(o)) is None,
        q is Owner ==> lookup(sessions.remove(g), owners, q) == lookup(sessions, owners, q),
        q is Guild ==> lookup(sessions, owners.remove(o), q) == lookup(sessions, owners, q),
{
}

/// An emptied registry finds nothing.
pub proof fn lemma_shutdown_then_get(q: SessionQuery)
    ensures
        lookup(Map::<u64, SessionHandle>::empty(), Map::<u64, SessionHandle>::empty(), q) is None,
{
}

} // verus!
