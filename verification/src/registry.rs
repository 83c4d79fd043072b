//! Key registry: the name-indexed store of key blobs and the operations on it.

use crate::codec::{
    decode, decoded, derive_public, encode, export_pem, generate, is_canonical_scalar,
    pkcs8_pem_of, public_point_of, SigningKey, VerifyingKey,
};
use crate::errors::{DeletionError, LoadingError};
use crate::gate::{confirmation_matches, confirms};
use vstd::prelude::*;
use vstd::slice::slice_to_vec;

verus! {

/// The registry's rows as contracts see them: each a name with its blob, oldest
/// first.
pub type Rows = Seq<(Seq<char>, Seq<u8>)>;

/// Whether some row carries `name`.
pub open spec fn has_name(rows: Rows, name: Seq<char>) -> bool {
    exists|i: int| 0 <= i < rows.len() && (#[trigger] rows[i]).0 == name
}

/// The position of a row that carries `name`, where there is one.
pub open spec fn row_of(rows: Rows, name: Seq<char>) -> int {
    choose|i: int| 0 <= i < rows.len() && (#[trigger] rows[i]).0 == name
}

/// The blob stored under `name`, where there is one.
pub open spec fn blob_of(rows: Rows, name: Seq<char>) -> Seq<u8> {
    rows[row_of(rows, name)].1
}

/// No two rows carry the same name.
pub open spec fn distinct_names(rows: Rows) -> bool {
    forall|i: int, j: int|
        0 <= i < j < rows.len() ==> (#[trigger] rows[i]).0 != (#[trigger] rows[j]).0
}

/// The names of the rows, in row order.
pub open spec fn names_of(rows: Rows) -> Seq<Seq<char>> {
    rows.map_values(|row: (Seq<char>, Seq<u8>)| row.0)
}

/// The rows without the one that carries `name`.
pub open spec fn without(rows: Rows, name: Seq<char>) -> Rows {
    if has_name(rows, name) {
        rows.remove(row_of(rows, name))
    } else {
        rows
    }
}

/// What reading the blob of `name` gives.
pub open spec fn read_outcome(rows: Rows, name: Seq<char>) -> Result<Seq<u8>, LoadingError> {
    if has_name(rows, name) {
        Ok(blob_of(rows, name))
    } else {
        Err(LoadingError::NameNotFound)
    }
}

/// What loading the key of `name` gives: its stored bytes where they are a
/// canonical scalar, `KeyFailedLoad` where they are not.
pub open spec fn load_outcome(rows: Rows, name: Seq<char>) -> Result<Seq<u8>, LoadingError> {
    match read_outcome(rows, name) {
        Ok(blob) => match decoded(blob) {
            Some(scalar) => Ok(scalar),
            None => Err(LoadingError::KeyFailedLoad),
        },
        Err(e) => Err(e),
    }
}

/// What exporting the key of `name` gives: the PEM text of the loaded scalar.
pub open spec fn pem_outcome(rows: Rows, name: Seq<char>) -> Result<Seq<char>, LoadingError> {
    match load_outcome(rows, name) {
        Ok(scalar) => Ok(pkcs8_pem_of(scalar)),
        Err(e) => Err(e),
    }
}

/// What asking for the verifying key of `name` gives: the public point of the
/// loaded scalar.
pub open spec fn public_outcome(rows: Rows, name: Seq<char>) -> Result<Seq<u8>, LoadingError> {
    match load_outcome(rows, name) {
        Ok(scalar) => Ok(public_point_of(scalar)),
        Err(e) => Err(e),
    }
}

/// Whether a row may be added under `name`: a taken name is a `NameCollision`.
pub open spec fn create_outcome(rows: Rows, name: Seq<char>) -> Result<(), LoadingError> {
    if has_name(rows, name) {
        Err(LoadingError::NameCollision)
    } else {
        Ok(())
    }
}

/// The rows after an attempt to add the row `(name, blob)`: a taken name leaves
/// them as they were.
pub open spec fn after_create(rows: Rows, name: Seq<char>, blob: Seq<u8>) -> Rows {
    if has_name(rows, name) {
        rows
    } else {
        rows.push((name, blob))
    }
}

/// The rows after an attempt to delete `name` with the re-entered text `input`:
/// without confirmation they are as they were.
pub open spec fn after_delete(rows: Rows, name: Seq<char>, input: Seq<char>) -> Rows {
    if confirms(name, input) {
        without(rows, name)
    } else {
        rows
    }
}

/// One stored row: the name and the key blob as written.
struct Entry {
    name: String,
    blob: Vec<u8>,
}

impl View for Entry {
    type V = (Seq<char>, Seq<u8>);

    closed spec fn view(&self) -> (Seq<char>, Seq<u8>) {
        (self.name@, self.blob@)
    }
}

/// The registry. Its view is its rows; no two of them carry the same name. Rows
/// enter through `insert_row`, `store_signing_key` and `create_signing_key`, and
/// leave through `delete_signing_key` alone.
pub struct KeyStore {
    rows: Vec<Entry>,
}

impl View for KeyStore {
    type V = Rows;

    closed spec fn view(&self) -> Rows {
        self.rows@.map_values(|entry: Entry| entry@)
    }
}

impl KeyStore {
    #[verifier::type_invariant]
    spec fn names_are_distinct(self) -> bool {
        distinct_names(self@)
    }

    /// A registry without rows.
    pub fn new() -> (store: KeyStore)
        ensures
            store@ == Rows::empty(),
            distinct_names(store@),
    {
        KeyStore { rows: Vec::new() }
    }

    /// The number of rows.
    pub fn len(&self) -> (count: usize)
        ensures
            count == self@.len(),
            distinct_names(self@),
    {
        proof {
            use_type_invariant(self);
        }
        self.rows.len()
    }

    /// Finds the row that carries `name`.
    fn position(&self, name: &str) -> (found: Option<usize>)
        ensures
            distinct_names(self@),
            match found {
                Some(i) => i < self@.len() && self@[i as int].0 == name@ && has_name(self@, name@)
                    && row_of(self@, name@) == i,
                None => !has_name(self@, name@),
            },
    {
        proof {
            use_type_invariant(self);
        }
        let wanted = name.to_owned();
        let mut i: usize = 0;
        while i < self.rows.len()
            invariant
                i <= self.rows.len(),
                wanted@ == name@,
                distinct_names(self@),
                forall|j: int| 0 <= j < i ==> (#[trigger] self@[j]).0 != name@,
            decreases self.rows.len() - i,
        {
            if self.rows[i].name == wanted {
                return Some(i);
            }
            i = i + 1;
        }
        None
    }

    /// Whether a row carries `name`. Names are compared character for character.
    pub fn contains(&self, name: &str) -> (present: bool)
        ensures
            present == has_name(self@, name@),
            distinct_names(self@),
    {
        self.position(name).is_some()
    }

    /// Appends the row `(name, blob)` as it is, unless the name is taken: then
    /// nothing changes and `NameCollision` comes back. This is how rows read back
    /// from persistent storage enter the registry; the blob is not examined.
    pub fn insert_row(&mut self, name: &str, blob: &[u8]) -> (outcome: Result<(), LoadingError>)
        ensures
            outcome == create_outcome(old(self)@, name@),
            final(self)@ == after_create(old(self)@, name@, blob@),
            distinct_names(final(self)@),
    {
        match self.position(name) {
            Some(_) => Err(LoadingError::NameCollision),
            None => {
                let entry = Entry { name: name.to_owned(), blob: slice_to_vec(blob) };
                let ghost before = self@;
                let mut rows: Vec<Entry> = Vec::new();
                std::mem::swap(&mut rows, &mut self.rows);
                rows.push(entry);
                assert(rows@.map_values(|entry: Entry| entry@) =~= before.push((name@, blob@)));
                self.rows = rows;
                Ok(())
            },
        }
    }

    /// Removes the row that carries `name`, if there is one.
    fn remove_row(&mut self, name: &str)
        ensures
            final(self)@ == without(old(self)@, name@),
            distinct_names(final(self)@),
    {
        match self.position(name) {
            Some(i) => {
                let ghost before = self@;
                let mut rows: Vec<Entry> = Vec::new();
                std::mem::swap(&mut rows, &mut self.rows);
                rows.remove(i);
                assert(rows@.map_values(|entry: Entry| entry@) =~= before.remove(i as int));
                self.rows = rows;
            },
            None => {},
        }
    }
}

/// Stores `key` under `name`. A taken name is refused with `NameCollision` and
/// nothing changes; otherwise the row is appended whole.
pub fn store_signing_key(store: &mut KeyStore, name: &str, key: &SigningKey) -> (outcome: Result<
    (),
    LoadingError,
>)
    ensures
        outcome == create_outcome(old(store)@, name@),
        final(store)@ == after_create(old(store)@, name@, key@),
        distinct_names(final(store)@),
{
    let scalar = encode(key);
    store.insert_row(name, scalar.as_slice())
}

/// Creates a fresh key and stores it under `name`. A taken name is refused with
/// `NameCollision` before any key is drawn, and nothing changes.
pub fn create_signing_key(store: &mut KeyStore, name: &str) -> (outcome: Result<
    SigningKey,
    LoadingError,
>)
    ensures
        match outcome {
            Ok(key) => create_outcome(old(store)@, name@) is Ok && is_canonical_scalar(key@)
                && final(store)@ == after_create(old(store)@, name@, key@),
            Err(e) => create_outcome(old(store)@, name@) == Err::<(), LoadingError>(e)
                && final(store)@ == old(store)@,
        },
        distinct_names(final(store)@),
{
    if store.contains(name) {
        proof {
            use_type_invariant(&*store);
        }
        return Err(LoadingError::NameCollision);
    }
    let key = generate();
    match store_signing_key(store, name, &key) {
        Ok(()) => Ok(key),
        Err(e) => Err(e),
    }
}

/// The stored bytes of `name`, verbatim: `NameNotFound` without such a row.
pub fn get_key_blob(store: &KeyStore, name: &str) -> (outcome: Result<Vec<u8>, LoadingError>)
    ensures
        match outcome {
            Ok(blob) => read_outcome(store@, name@) matches Ok(stored) && stored == blob@,
            Err(e) => read_outcome(store@, name@) matches Err(cause) && cause == e,
        },
{
    match store.position(name) {
        Some(i) => Ok(slice_to_vec(store.rows[i].blob.as_slice())),
        None => Err(LoadingError::NameNotFound),
    }
}

/// Loads the key stored under `name`: `NameNotFound` without such a row,
/// `KeyFailedLoad` where the stored bytes do not decode.
pub fn load_signing_key(store: &KeyStore, name: &str) -> (outcome: Result<
    SigningKey,
    LoadingError,
>)
    ensures
        match outcome {
            Ok(key) => load_outcome(store@, name@) matches Ok(scalar) && scalar == key@,
            Err(e) => load_outcome(store@, name@) matches Err(cause) && cause == e,
        },
{
    match store.position(name) {
        Some(i) => decode(store.rows[i].blob.as_slice()),
        None => Err(LoadingError::NameNotFound),
    }
}

/// The key stored under `name` as a PEM-armoured PKCS#8 document; fails as
/// `load_signing_key` does.
pub fn get_signing_key_pem(store: &KeyStore, name: &str) -> (outcome: Result<
    String,
    LoadingError,
>)
    ensures
        match outcome {
            Ok(pem) => pem_outcome(store@, name@) matches Ok(text) && text == pem@,
            Err(e) => pem_outcome(store@, name@) matches Err(cause) && cause == e,
        },
{
    match load_signing_key(store, name) {
        Ok(key) => Ok(export_pem(&key)),
        Err(e) => Err(e),
    }
}

/// The verifying key that belongs to the key stored under `name`; fails as
/// `load_signing_key` does.
pub fn load_verifying_key(store: &KeyStore, name: &str) -> (outcome: Result<
    VerifyingKey,
    LoadingError,
>)
    ensures
        match outcome {
            Ok(public) => public_outcome(store@, name@) matches Ok(point) && point == public@,
            Err(e) => public_outcome(store@, name@) matches Err(cause) && cause == e,
        },
{
    match load_signing_key(store, name) {
        Ok(key) => Ok(derive_public(&key)),
        Err(e) => Err(e),
    }
}

/// Every stored name, oldest row first.
pub fn get_wallet_names(store: &KeyStore) -> (names: Vec<String>)
    ensures
        names@.len() == store@.len(),
        forall|i: int| 0 <= i < names@.len() ==> (#[trigger] names@[i])@ == store@[i].0,
        names@.map_values(|name: String| name@) == names_of(store@),
{
    let mut names: Vec<String> = Vec::new();
    let mut i: usize = 0;
    while i < store.rows.len()
        invariant
            i <= store.rows.len(),
            names@.len() == i,
            forall|j: int| 0 <= j < i ==> (#[trigger] names@[j])@ == store@[j].0,
        decreases store.rows.len() - i,
    {
        names.push(store.rows[i].name.clone());
        i = i + 1;
    }
    names
}

/// Deletes the key stored under `name`, provided that `confirmation`, the text
/// that the user entered again, confirms it. Without confirmation nothing is
/// removed and `NameNotConfirmed` carries the name back. A confirmed delete of a
/// name that no row carries succeeds and changes nothing.
pub fn delete_signing_key(store: &mut KeyStore, name: &str, confirmation: &str) -> (outcome: Result<
    (),
    DeletionError,
>)
    ensures
        final(store)@ == after_delete(old(store)@, name@, confirmation@),
        outcome is Ok <==> confirms(name@, confirmation@),
        outcome matches Err(e) ==> (e matches DeletionError::NameNotConfirmed { name: refused }
            && refused@ == name@),
        distinct_names(final(store)@),
{
    if !confirmation_matches(name, confirmation) {
        proof {
            use_type_invariant(&*store);
        }
        return Err(DeletionError::NameNotConfirmed { name: name.to_owned() });
    }
    store.remove_row(name);
    Ok(())
}

} // verus!
