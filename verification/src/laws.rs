//! What holds across calls: each law is stated over the models that the
//! operations' contracts use, and proved for every registry and every input.

use crate::codec::{decoded, is_canonical_scalar, public_point_of, SCALAR_LEN};
use crate::errors::LoadingError;
use crate::gate::confirms;
use crate::registry::{
    after_create, after_delete, blob_of, create_outcome, distinct_names, has_name, load_outcome,
    names_of, pem_outcome, read_outcome, row_of, without, Rows,
};
use vstd::prelude::*;

verus! {

/// Whether every row holds a whole key: the canonical encoding of a scalar.
pub open spec fn holds_whole_keys(rows: Rows) -> bool {
    forall|i: int| 0 <= i < rows.len() ==> is_canonical_scalar((#[trigger] rows[i]).1)
}

/// With distinct names, a row that carries `name` is the row of that name.
pub proof fn lemma_row_of_is_unique(rows: Rows, name: Seq<char>, i: int)
    requires
        distinct_names(rows),
        0 <= i < rows.len(),
        rows[i].0 == name,
    ensures
        has_name(rows, name),
        row_of(rows, name) == i,
{
}

/// Removing the row of `name` leaves no row of that name, keeps every other row
/// with its blob, and keeps the names distinct.
pub proof fn lemma_without(rows: Rows, name: Seq<char>)
    requires
        distinct_names(rows),
    ensures
        distinct_names(without(rows, name)),
        !has_name(without(rows, name), name),
        forall|other: Seq<char>|
            other != name ==> #[trigger] read_outcome(without(rows, name), other) == read_outcome(
                rows,
                other,
            ),
{
    if has_name(rows, name) {
        let k = row_of(rows, name);
        let rest = rows.remove(k);
        assert forall|other: Seq<char>| other != name implies #[trigger] read_outcome(rest, other)
            == read_outcome(rows, other) by {
            if has_name(rows, other) {
                let j = row_of(rows, other);
                let i = if j < k {
                    j
                } else {
                    j - 1
                };
                lemma_row_of_is_unique(rest, other, i);
            }
        }
    }
}

/// A name is listed exactly when a row carries it.
pub proof fn lemma_listed_iff_present(rows: Rows, name: Seq<char>)
    ensures
        names_of(rows).contains(name) <==> has_name(rows, name),
{
    if has_name(rows, name) {
        assert(names_of(rows)[row_of(rows, name)] == name);
    }
}

/// Round trip. The encoding of a key decodes to that key again, hence to a key
/// with the same verifying key.
pub proof fn lemma_encoding_round_trips(scalar: Seq<u8>)
    requires
        is_canonical_scalar(scalar),
    ensures
        decoded(scalar) == Some(scalar),
        public_point_of(decoded(scalar).unwrap()) == public_point_of(scalar),
{
}

/// Loading gives the stored bytes. A name loads exactly when its stored bytes
/// are a canonical scalar, and the loaded key is then those very bytes: a blob of
/// any other length, a truncated one among them, never loads.
pub proof fn lemma_load_gives_stored_bytes(rows: Rows, name: Seq<char>)
    requires
        has_name(rows, name),
    ensures
        load_outcome(rows, name) is Ok <==> is_canonical_scalar(blob_of(rows, name)),
        load_outcome(rows, name) is Ok ==> blob_of(rows, name).len() == SCALAR_LEN && load_outcome(
            rows,
            name,
        ) == Ok::<Seq<u8>, LoadingError>(blob_of(rows, name)),
        load_outcome(rows, name) is Err ==> load_outcome(rows, name) == Err::<
            Seq<u8>,
            LoadingError,
        >(LoadingError::KeyFailedLoad),
{
}

/// Uniqueness of names. Once a key is stored under a fresh name, a second create
/// of that name is refused with `NameCollision`, whatever key it brings: the rows
/// stay as they are, and loading the name still gives the first key.
pub proof fn lemma_second_create_is_refused(
    rows: Rows,
    name: Seq<char>,
    first: Seq<u8>,
    second: Seq<u8>,
)
    requires
        distinct_names(rows),
        !has_name(rows, name),
        is_canonical_scalar(first),
    ensures
        create_outcome(rows, name) is Ok,
        distinct_names(after_create(rows, name, first)),
        create_outcome(after_create(rows, name, first), name) == Err::<(), LoadingError>(
            LoadingError::NameCollision,
        ),
        after_create(after_create(rows, name, first), name, second) == after_create(
            rows,
            name,
            first,
        ),
        load_outcome(after_create(rows, name, first), name) == Ok::<Seq<u8>, LoadingError>(first),
{
    lemma_row_of_is_unique(rows.push((name, first)), name, rows.len() as int);
}

/// A create, refused or not, leaves every other name as it was: present or
/// absent, and with the same blob.
pub proof fn lemma_create_keeps_others(
    rows: Rows,
    name: Seq<char>,
    blob: Seq<u8>,
    other: Seq<char>,
)
    requires
        distinct_names(rows),
        other != name,
    ensures
        read_outcome(after_create(rows, name, blob), other) == read_outcome(rows, other),
{
    if !has_name(rows, name) && has_name(rows, other) {
        lemma_row_of_is_unique(rows.push((name, blob)), other, row_of(rows, other));
    }
}

/// Confirmation integrity. Without confirmation a delete changes nothing, so the
/// name loads as before. With confirmation the row is gone: loading the name
/// gives `NameNotFound`. Either way every other name reads as before.
pub proof fn lemma_delete_needs_confirmation(
    rows: Rows,
    name: Seq<char>,
    input: Seq<char>,
    other: Seq<char>,
)
    requires
        distinct_names(rows),
        other != name,
    ensures
        distinct_names(after_delete(rows, name, input)),
        !confirms(name, input) ==> after_delete(rows, name, input) == rows && load_outcome(
            after_delete(rows, name, input),
            name,
        ) == load_outcome(rows, name),
        confirms(name, input) ==> load_outcome(after_delete(rows, name, input), name) == Err::<
            Seq<u8>,
            LoadingError,
        >(LoadingError::NameNotFound),
        read_outcome(after_delete(rows, name, input), other) == read_outcome(rows, other),
{
    lemma_without(rows, name);
}

/// Corruption handling. A row whose bytes are not a canonical scalar, be they
/// too short, too long, zero or not below the order, fails to load with
/// `KeyFailedLoad`, while its bytes still read back as they are.
pub proof fn lemma_corrupt_row_fails_to_load(rows: Rows, name: Seq<char>, blob: Seq<u8>)
    requires
        distinct_names(rows),
        !has_name(rows, name),
        !is_canonical_scalar(blob),
    ensures
        read_outcome(after_create(rows, name, blob), name) == Ok::<Seq<u8>, LoadingError>(blob),
        load_outcome(after_create(rows, name, blob), name) == Err::<Seq<u8>, LoadingError>(
            LoadingError::KeyFailedLoad,
        ),
{
    lemma_row_of_is_unique(rows.push((name, blob)), name, rows.len() as int);
}

/// Listing completeness. After a delete went through, the listing holds exactly
/// the names it held before, but for the deleted one, in their old order.
pub proof fn lemma_listing_after_delete(rows: Rows, name: Seq<char>, other: Seq<char>)
    requires
        distinct_names(rows),
    ensures
        has_name(rows, name) ==> names_of(without(rows, name)) == names_of(rows).remove(
            row_of(rows, name),
        ),
        !has_name(rows, name) ==> names_of(without(rows, name)) == names_of(rows),
        names_of(without(rows, name)).contains(other) <==> names_of(rows).contains(other) && other
            != name,
{
    lemma_without(rows, name);
    lemma_listed_iff_present(without(rows, name), other);
    lemma_listed_iff_present(rows, other);
    if other != name {
        assert(read_outcome(without(rows, name), other) == read_outcome(rows, other));
    }
}

/// A create that went through puts the new name at the end of the listing; a
/// refused one leaves the listing as it was.
pub proof fn lemma_listing_after_create(rows: Rows, name: Seq<char>, blob: Seq<u8>)
    ensures
        !has_name(rows, name) ==> names_of(after_create(rows, name, blob)) == names_of(rows).push(
            name,
        ),
        has_name(rows, name) ==> names_of(after_create(rows, name, blob)) == names_of(rows),
{
}

/// PEM determinism. What an export gives is fixed by the bytes stored under the
/// name: two registries that read the same for a name export the same for it.
pub proof fn lemma_pem_depends_on_stored_bytes(first: Rows, second: Rows, name: Seq<char>)
    requires
        read_outcome(first, name) == read_outcome(second, name),
    ensures
        load_outcome(first, name) == load_outcome(second, name),
        pem_outcome(first, name) == pem_outcome(second, name),
{
}

/// Keys are written whole. A registry whose rows all hold whole keys still does
/// after a create and after a delete, and every name in it loads.
pub proof fn lemma_whole_keys_stay_whole(
    rows: Rows,
    name: Seq<char>,
    scalar: Seq<u8>,
    input: Seq<char>,
)
    requires
        distinct_names(rows),
        holds_whole_keys(rows),
        is_canonical_scalar(scalar),
    ensures
        holds_whole_keys(after_create(rows, name, scalar)),
        holds_whole_keys(after_delete(rows, name, input)),
        has_name(rows, name) ==> load_outcome(rows, name) == Ok::<Seq<u8>, LoadingError>(
            blob_of(rows, name),
        ),
{
}

} // verus!
