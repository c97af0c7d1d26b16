use vstd::prelude::*;

use crate::digest::sha256_hex;
use crate::registry::{
    has_path, lemma_recorded_hash, lemma_without_drops, recorded_hash, without, File,
};
use crate::storage::{
    affirmative, from_plan, live_after_to, registry_after_from, storage_after_from, to_plan,
    FromAction, IgnoreLedger, SyncError, ToAction,
};

verus! {

/// A second sync from an unchanged live file, after one that succeeded,
/// finds the content unchanged: it copies nothing, and the registry keeps
/// the digest that the first sync left for the path, the live digest.
pub proof fn law_sync_from_idempotent(
    before: Seq<File>,
    after: Seq<File>,
    p: Seq<char>,
    content: Seq<u8>,
    stored: Option<Seq<u8>>,
)
    requires
        has_path(before, p),
        registry_after_from(
            before,
            after,
            p,
            Some(content),
            from_plan(true, Some(content), stored is Some, recorded_hash(before, p)),
        ),
    ensures
        has_path(after, p),
        recorded_hash(after, p) == sha256_hex(content),
        storage_after_from(
            from_plan(true, Some(content), stored is Some, recorded_hash(before, p)).unwrap(),
            Some(content),
            stored,
        ) is Some,
        from_plan(has_path(after, p), Some(content), true, recorded_hash(after, p)) == Ok::<
            FromAction,
            SyncError,
        >(FromAction::Unchanged),
        registry_after_from(
            after,
            after,
            p,
            Some(content),
            from_plan(has_path(after, p), Some(content), true, recorded_hash(after, p)),
        ),
{
    if !(stored is Some && sha256_hex(content) == recorded_hash(before, p)) {
        let k = choose|k: int| 0 <= k < before.len() && (#[trigger] before[k]).path@ == p;
        assert(after[k].path@ == before[k].path@);
        assert forall|i: int| 0 <= i < after.len() && (#[trigger] after[i]).path@ == p implies after[i].hash@
            == sha256_hex(content) by {
            assert(after[i].path@ == before[i].path@);
        }
        lemma_recorded_hash(after, p, sha256_hex(content));
    }
}

/// With a storage copy that agrees with the registry, a sync from the live
/// content `c1` followed by a sync to a live location that is empty, not
/// ignored and answered with `y`, puts `c1` back at the live location.
pub proof fn law_round_trip(
    c1: Seq<u8>,
    stored: Option<Seq<u8>>,
    recorded: Seq<char>,
    ignored: bool,
    answer: Seq<char>,
)
    requires
        stored is Some && sha256_hex(c1) == recorded ==> stored == Some(c1),
        !ignored,
        affirmative(answer),
    ensures
        ({
            let a = from_plan(true, Some(c1), stored is Some, recorded).unwrap();
            let s1 = storage_after_from(a, Some(c1), stored);
            &&& s1 == Some(c1)
            &&& to_plan(s1 is Some, None, ignored, sha256_hex(c1)) == Ok::<ToAction, SyncError>(
                ToAction::Prompt,
            )
            &&& live_after_to(ToAction::Copy, s1, None) == Some(c1)
        }),
{
}

/// Where the live content's digest equals the recorded one and the storage
/// copy exists, a sync from the live file leaves the storage copy and the
/// registry as they are: it writes nothing.
pub proof fn law_hash_skip(
    before: Seq<File>,
    after: Seq<File>,
    p: Seq<char>,
    content: Seq<u8>,
    stored: Seq<u8>,
)
    requires
        has_path(before, p),
        recorded_hash(before, p) == sha256_hex(content),
        registry_after_from(
            before,
            after,
            p,
            Some(content),
            from_plan(true, Some(content), true, recorded_hash(before, p)),
        ),
    ensures
        from_plan(true, Some(content), true, sha256_hex(content)) == Ok::<FromAction, SyncError>(
            FromAction::Unchanged,
        ),
        storage_after_from(FromAction::Unchanged, Some(content), Some(stored)) == Some(stored),
        after == before,
{
}

/// A sync from a live file that is gone drops its entry from the registry
/// and removes the storage copy.
pub proof fn law_deletion_untracks(before: Seq<File>, p: Seq<char>, recorded: Seq<char>, stored: Seq<u8>)
    requires
        has_path(before, p),
    ensures
        from_plan(true, None, true, recorded) == Ok::<FromAction, SyncError>(FromAction::Removed),
        !has_path(without(before, p), p),
        storage_after_from(FromAction::Removed, None, Some(stored)) is None,
{
    lemma_without_drops(before, p);
}

/// Once the operator declines to create a missing live file, the ledger
/// holds its path, and a later sync to it, still missing, is ignored
/// without a prompt.
pub proof fn law_ignore_persists(
    before: IgnoreLedger,
    after: IgnoreLedger,
    file: File,
    answer: Seq<char>,
    recorded: Seq<char>,
)
    requires
        !affirmative(answer),
        after.entries@ == before.entries@.push(file.path),
    ensures
        after.holds(file.path@),
        to_plan(true, None, after.holds(file.path@), recorded) == Ok::<ToAction, SyncError>(
            ToAction::Ignored,
        ),
{
    assert(after.entries@[before.entries@.len() as int] == file.path);
}

} // verus!
