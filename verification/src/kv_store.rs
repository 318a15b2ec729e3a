//! The key-value stores, seen from the service: what a read can give, and a
//! mathematical model of what the stores hold.

use crate::bean::{ShortUrlDataEntityView, UserEntityView};
use vstd::prelude::*;

verus! {

/// What reading one key gave, before anyone looks into the value.
#[derive(Clone, Copy, Debug, PartialEq, Eq, Structural)]
pub enum StoreRead {
    /// The store could not be asked.
    Failed,
    /// The store answered `null`.
    Null,
    /// The store answered `undefined`.
    Undefined,
    /// The store answered with a value.
    Present,
}

/// A JSON document read from a store, after decoding.
#[derive(Clone, Debug, PartialEq, Eq)]
pub enum Stored<T> {
    /// There is no text under the key.
    Absent,
    /// There is text, and it does not decode; the decoder's message is kept.
    Malformed(String),
    /// The decoded document.
    Found(T),
}

/// Mathematical value of a [`Stored`].
pub enum StoredView<V> {
    Absent,
    Malformed(Seq<char>),
    Found(V),
}

impl<T: View> View for Stored<T> {
    type V = StoredView<T::V>;

    open spec fn view(&self) -> StoredView<T::V> {
        match self {
            Stored::Absent => StoredView::Absent,
            Stored::Malformed(message) => StoredView::Malformed(message@),
            Stored::Found(document) => StoredView::Found(document@),
        }
    }
}

/// Whether a read of the record store shows that the key is taken. A store
/// that could not be asked counts as one without the key.
pub fn check_exists(read: StoreRead) -> (taken: bool)
    ensures
        taken == (read == StoreRead::Present),
{
    match read {
        StoreRead::Present => true,
        _ => false,
    }
}

/// Model of one store of JSON documents: the keys that hold text, each with
/// the document that its text decodes to, or with the decoder's message where
/// it does not decode.
pub struct Documents<V> {
    pub entries: Map<Seq<char>, Result<V, Seq<char>>>,
}

impl<V> Documents<V> {
    /// Whether there is text under `key`.
    pub open spec fn holds(self, key: Seq<char>) -> bool {
        self.entries.dom().contains(key)
    }

    /// What a read of `key` shows.
    pub open spec fn probe(self, key: Seq<char>) -> StoreRead {
        if self.holds(key) {
            StoreRead::Present
        } else {
            StoreRead::Null
        }
    }

    /// What a read of `key` gives after decoding.
    pub open spec fn get(self, key: Seq<char>) -> StoredView<V> {
        if self.holds(key) {
            match self.entries[key] {
                Ok(document) => StoredView::Found(document),
                Err(message) => StoredView::Malformed(message),
            }
        } else {
            StoredView::Absent
        }
    }

    /// The store after `document` was written under `key`.
    pub open spec fn put(self, key: Seq<char>, document: V) -> Documents<V> {
        Documents { entries: self.entries.insert(key, Ok(document)) }
    }
}

/// Model of the user store and the record store together.
pub struct World {
    pub users: Documents<UserEntityView>,
    pub records: Documents<ShortUrlDataEntityView>,
}

} // verus!
