//! Keys of the persistent key-value store and the faults it reports.
//!
//! Each key is stored under a one-byte tag and maps to at most one value,
//! which a write replaces wholesale.
use vstd::prelude::*;

verus! {

/// Entries of the store.
#[derive(Clone, Copy, Debug, PartialEq, Eq, Structural)]
pub enum Key {
    /// Application session key.
    AppSKey,
    /// Network session key.
    NewSKey,
    /// Device address.
    DevAddr,
}

/// Tag byte under which a key is stored.
pub open spec fn key_tag(key: Key) -> u8 {
    match key {
        Key::AppSKey => 0x00,
        Key::NewSKey => 0x01,
        Key::DevAddr => 0x02,
    }
}

impl Key {
    /// Tag byte under which this key is stored.
    pub fn tag(&self) -> (r: u8)
        ensures
            r == key_tag(*self),
    {
        match self {
            Key::AppSKey => 0x00,
            Key::NewSKey => 0x01,
            Key::DevAddr => 0x02,
        }
    }
}

impl<'a> From<&'a Key> for [u8; 1] {
    fn from(value: &'a Key) -> (r: [u8; 1]) {
        [value.tag()]
    }
}

impl<'a> vstd::std_specs::convert::FromSpecImpl<&'a Key> for [u8; 1] {
    open spec fn obeys_from_spec() -> bool {
        true
    }

    open spec fn from_spec(value: &'a Key) -> [u8; 1] {
        [key_tag(*value)]
    }
}

/// A fault of the persistent store.
#[derive(Clone, Copy, Debug, PartialEq, Eq, Structural)]
pub enum StorageError {
    /// The store could not be mounted.
    Mount,
    /// The store could not be formatted.
    Format,
    /// A value could not be written.
    Write,
    /// A write could not be committed.
    Commit,
}

} // verus!
