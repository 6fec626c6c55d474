//! The network session and how it is kept in the persistent store.
//!
//! A session is written as three independent entries, network key first,
//! then application key, then device address. Writes are not atomic together:
//! a power loss between them leaves some entries missing, so a session is
//! loaded only when all three entries are there.
use vstd::prelude::*;

use crate::duty::record_view;
use crate::storage::Key;

verus! {

/// Length of a session key.
pub const SESSION_KEY_LEN: usize = 16;

/// Length of a device address.
pub const DEV_ADDR_LEN: usize = 4;

/// Credentials of a joined network session.
#[derive(Clone, Copy, Debug, PartialEq, Eq)]
pub struct Session {
    pub nwk_skey: [u8; 16],
    pub app_skey: [u8; 16],
    pub dev_addr: [u8; 4],
}

/// A session as three byte strings.
pub struct SessionView {
    pub nwk_skey: Seq<u8>,
    pub app_skey: Seq<u8>,
    pub dev_addr: Seq<u8>,
}

impl View for Session {
    type V = SessionView;

    open spec fn view(&self) -> SessionView {
        SessionView { nwk_skey: self.nwk_skey@, app_skey: self.app_skey@, dev_addr: self.dev_addr@ }
    }
}

/// Order in which the entries of a session are written.
pub const PERSIST_ORDER: [Key; 3] = [Key::NewSKey, Key::AppSKey, Key::DevAddr];

/// Value stored under `key` for session `s`.
pub open spec fn part_of(s: SessionView, key: Key) -> Seq<u8> {
    match key {
        Key::NewSKey => s.nwk_skey,
        Key::AppSKey => s.app_skey,
        Key::DevAddr => s.dev_addr,
    }
}

/// Length of the buffer that the entry under `key` is read into.
pub open spec fn part_len(key: Key) -> nat {
    match key {
        Key::NewSKey => SESSION_KEY_LEN as nat,
        Key::AppSKey => SESSION_KEY_LEN as nat,
        Key::DevAddr => DEV_ADDR_LEN as nat,
    }
}

/// Contents of a store: at most one value per key.
pub type StoreView = Map<Key, Seq<u8>>;

/// The store after the entries of session `s` are written in order.
pub open spec fn persist(store: StoreView, s: SessionView) -> StoreView {
    store.insert(PERSIST_ORDER[0], part_of(s, PERSIST_ORDER[0])).insert(
        PERSIST_ORDER[1],
        part_of(s, PERSIST_ORDER[1]),
    ).insert(PERSIST_ORDER[2], part_of(s, PERSIST_ORDER[2]))
}

/// What reading `key` into a zeroed buffer of `len` bytes leaves there: nothing
/// when the entry is missing or does not fit, else the value followed by zeros.
pub open spec fn read_into(store: StoreView, key: Key, len: nat) -> Option<Seq<u8>> {
    if store.contains_key(key) && store[key].len() <= len {
        Some(store[key] + Seq::new((len - store[key].len()) as nat, |i: int| 0u8))
    } else {
        None
    }
}

/// Session assembled from the three entries read: present only when all three are.
pub open spec fn session_from(
    nwk_skey: Option<Seq<u8>>,
    app_skey: Option<Seq<u8>>,
    dev_addr: Option<Seq<u8>>,
) -> Option<SessionView> {
    if nwk_skey is Some && app_skey is Some && dev_addr is Some {
        Some(
            SessionView {
                nwk_skey: nwk_skey->0,
                app_skey: app_skey->0,
                dev_addr: dev_addr->0,
            },
        )
    } else {
        None
    }
}

/// Session that loading from `store` gives.
pub open spec fn load(store: StoreView) -> Option<SessionView> {
    session_from(
        read_into(store, Key::NewSKey, part_len(Key::NewSKey)),
        read_into(store, Key::AppSKey, part_len(Key::AppSKey)),
        read_into(store, Key::DevAddr, part_len(Key::DevAddr)),
    )
}

impl Session {
    /// Value stored under `key` for this session.
    pub fn part(&self, key: Key) -> (r: &[u8])
        ensures
            r@ == part_of(self@, key),
            r@.len() == part_len(key),
    {
        match key {
            Key::NewSKey => self.nwk_skey.as_slice(),
            Key::AppSKey => self.app_skey.as_slice(),
            Key::DevAddr => self.dev_addr.as_slice(),
        }
    }
}

/// Session from the entries read from the store, each `None` when the store
/// had no value for it. A session missing any entry is absent, never partial.
pub fn get_session_keys(
    nwk_skey: Option<[u8; 16]>,
    app_skey: Option<[u8; 16]>,
    dev_addr: Option<[u8; 4]>,
) -> (r: Option<Session>)
    ensures
        r is Some <==> (nwk_skey is Some && app_skey is Some && dev_addr is Some),
        r is Some ==> r->0 == (Session {
            nwk_skey: nwk_skey->0,
            app_skey: app_skey->0,
            dev_addr: dev_addr->0,
        }),
        match r {
            Some(s) => session_from(record_view(nwk_skey), record_view(app_skey), record_view(dev_addr))
                == Some(s@),
            None => session_from(record_view(nwk_skey), record_view(app_skey), record_view(dev_addr))
                is None,
        },
{
    match (nwk_skey, app_skey, dev_addr) {
        (Some(nwk_skey), Some(app_skey), Some(dev_addr)) => Some(
            Session { nwk_skey, app_skey, dev_addr },
        ),
        _ => None,
    }
}

/// Session round trip: writing a session's entries into any store and reading
/// them back gives that session again.
pub proof fn lemma_session_round_trip(store: StoreView, s: Session)
    ensures
        load(persist(store, s@)) == Some(s@),
{
    let st = persist(store, s@);
    assert(st[Key::NewSKey] == s.nwk_skey@);
    assert(st[Key::AppSKey] == s.app_skey@);
    assert(st[Key::DevAddr] == s.dev_addr@);
    assert(read_into(st, Key::NewSKey, 16).unwrap() =~= s.nwk_skey@);
    assert(read_into(st, Key::AppSKey, 16).unwrap() =~= s.app_skey@);
    assert(read_into(st, Key::DevAddr, 4).unwrap() =~= s.dev_addr@);
}

/// A store that lacks any one of the three entries (never written, or
/// removed) loads no session at all, not a partial one.
pub proof fn lemma_session_absent(store: StoreView, missing: Key)
    requires
        !store.contains_key(missing),
    ensures
        load(store) is None,
{
}

/// Removing any one entry after a session was written leaves no session to load.
pub proof fn lemma_session_removed(store: StoreView, s: Session, removed: Key)
    ensures
        load(persist(store, s@).remove(removed)) is None,
{
    lemma_session_absent(persist(store, s@).remove(removed), removed);
}

} // verus!
