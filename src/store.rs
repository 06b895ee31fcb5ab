use vstd::prelude::*;
use vstd::utf8::encode_utf8;

use crate::session::{decode, encode, Session, SessionView};

verus! {

/// sled's on-disk ordered map, held opaque; its contents are `tree_contents`.
#[verifier::external_type_specification]
#[verifier::external_body]
pub struct ExTree<const LEAF_FANOUT: usize>(sled::Tree<LEAF_FANOUT>);

/// The I/O error that sled reports, held opaque.
#[verifier::external_type_specification]
#[verifier::external_body]
pub struct ExIoError(std::io::Error);

/// The key-value pairs that a sled tree holds.
pub uninterp spec fn tree_contents(t: sled::Tree<1024>) -> Map<Seq<u8>, Seq<u8>>;

/// Relies on sled::Tree::get: on success, the value last stored under `key`,
/// or nothing where the key is absent.
#[verifier::external_body]
fn tree_get(t: &sled::Tree<1024>, key: &[u8]) -> (r: Result<Option<Vec<u8>>, std::io::Error>)
    ensures
        r matches Ok(v) ==> match v {
            Some(b) => tree_contents(*t).contains_key(key@) && tree_contents(*t)[key@] == b@,
            None => !tree_contents(*t).contains_key(key@),
        },
{
    t.get(key).map(|v| v.map(|a| a.to_vec()))
}

/// Relies on sled::Tree::insert: on success, `key` maps to `value`, replacing
/// what it held, and the other keys are kept.
#[verifier::external_body]
fn tree_insert(t: &mut sled::Tree<1024>, key: &[u8], value: Vec<u8>) -> (r: Result<
    (),
    std::io::Error,
>)
    ensures
        r is Ok ==> tree_contents(*final(t)) == tree_contents(*old(t)).insert(key@, value@),
{
    t.insert(key, value).map(|_| ())
}

/// Relies on sled::Tree::remove: on success, `key` is absent and the other keys
/// are kept.
#[verifier::external_body]
fn tree_remove(t: &mut sled::Tree<1024>, key: &[u8]) -> (r: Result<(), std::io::Error>)
    ensures
        r is Ok ==> tree_contents(*final(t)) == tree_contents(*old(t)).remove(key@),
{
    t.remove(key).map(|_| ())
}

/// Why a store operation did not complete.
#[derive(Clone, Copy, Debug, PartialEq, Eq, Structural)]
pub enum StoreFault {
    /// The storage layer reported an I/O error.
    Io,
    /// The key is present but its value is not a well-formed session record.
    Corrupt,
}

/// The key under which the record of `token` is stored.
pub open spec fn token_key(token: Seq<char>) -> Seq<u8> {
    encode_utf8(token)
}

/// The bytes stored for `token` in `contents`, if any.
pub open spec fn stored(contents: Map<Seq<u8>, Seq<u8>>, token: Seq<char>) -> Option<Seq<u8>> {
    if contents.contains_key(token_key(token)) {
        Some(contents[token_key(token)])
    } else {
        None
    }
}

/// The record that the bytes stored for `token` hold, if any.
pub open spec fn decoded(contents: Map<Seq<u8>, Seq<u8>>, token: Seq<char>) -> Option<SessionView> {
    match stored(contents, token) {
        Some(b) => decode(b),
        None => None,
    }
}

/// Whether bytes are stored for `token` that are not a session record.
pub open spec fn corrupt(contents: Map<Seq<u8>, Seq<u8>>, token: Seq<char>) -> bool {
    stored(contents, token) is Some && decoded(contents, token) is None
}

/// The durable map from bearer token to session record.
///
/// Exclusive access (`&mut`) stands for holding the store's guard: every
/// sequence of operations made through one `&mut` borrow is serialized.
/// The contracts treat the store as the sole writer of its tree; a clone of
/// the `sled::Tree` handle shares the same data, so writes made through such
/// a clone fall outside what they state. Values are session records in the
/// layout of `session::encode`; any other bytes read back as `Corrupt`.
pub struct SessionStore {
    tree: sled::Tree<1024>,
}

impl SessionStore {
    /// The raw key-value pairs of the store.
    pub closed spec fn contents(&self) -> Map<Seq<u8>, Seq<u8>> {
        tree_contents(self.tree)
    }

    /// A store backed by `tree`, with what the tree already holds.
    pub fn new(tree: sled::Tree<1024>) -> (r: SessionStore)
        ensures
            r.contents() == tree_contents(tree),
    {
        SessionStore { tree }
    }

    /// Persists `record` under `token`, replacing any earlier value.
    pub fn insert(&mut self, token: &str, record: &Session) -> (r: Result<(), StoreFault>)
        ensures
            r is Ok ==> final(self).contents() == old(self).contents().insert(
                token_key(token@),
                encode(record@),
            ),
            r is Err ==> r == Err::<(), StoreFault>(StoreFault::Io),
    {
        let bytes = record.to_bytes();
        match tree_insert(&mut self.tree, token.as_bytes(), bytes) {
            Ok(()) => Ok(()),
            Err(_) => Err(StoreFault::Io),
        }
    }

    /// The record stored under `token`: `Ok(None)` where the key is absent,
    /// `Err(Corrupt)` where its bytes are not a record.
    pub fn get(&self, token: &str) -> (r: Result<Option<Session>, StoreFault>)
        ensures
            r matches Ok(Some(s)) ==> decoded(self.contents(), token@) == Some(s@),
            r matches Ok(None) ==> stored(self.contents(), token@) is None,
            r == Err::<Option<Session>, StoreFault>(StoreFault::Corrupt) ==> corrupt(
                self.contents(),
                token@,
            ),
            corrupt(self.contents(), token@) ==> r is Err,
    {
        match tree_get(&self.tree, token.as_bytes()) {
            Err(_) => Err(StoreFault::Io),
            Ok(None) => Ok(None),
            Ok(Some(b)) => match Session::from_bytes(b.as_slice()) {
                Some(s) => Ok(Some(s)),
                None => Err(StoreFault::Corrupt),
            },
        }
    }

    /// Deletes the record of `token`; deleting an absent key is no error.
    pub fn remove(&mut self, token: &str) -> (r: Result<(), StoreFault>)
        ensures
            r is Ok ==> final(self).contents() == old(self).contents().remove(token_key(token@)),
            r is Err ==> r == Err::<(), StoreFault>(StoreFault::Io),
    {
        match tree_remove(&mut self.tree, token.as_bytes()) {
            Ok(()) => Ok(()),
            Err(_) => Err(StoreFault::Io),
        }
    }
}

} // verus!
