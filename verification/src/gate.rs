use vstd::prelude::*;
use crate::codec::level;
use crate::codec::level_of;
use crate::engine::stored_bytes;
use crate::error::DbError;
use crate::error::DbErrorView;

verus! {

/// The level rule. A write at level `lv` is turned down when a record is
/// already stored under the key, the level that record carries is above
/// `lv`, and the caller did not force the write. A key without a record
/// takes any write.
pub open spec fn rejects(existing: Option<Seq<u8>>, lv: u8, force: bool) -> bool {
    match existing {
        Some(stored) => lv < level_of(stored) && !force,
        None => false,
    }
}

/// The error that a turned-down write reports: the level that was asked
/// for and the level of the record in the way.
pub open spec fn conflict(stored: Seq<u8>, lv: u8) -> DbErrorView {
    DbErrorView::LevelConflict { attempted: lv, existing: level_of(stored) }
}

/// Applies the level rule to what the store holds under a key.
pub fn check_overwrite(existing: &Option<Vec<u8>>, lv: u8, force: bool) -> (res: Result<
    (),
    DbError,
>)
    ensures
        res is Err <==> rejects(stored_bytes(*existing), lv, force),
        res matches Err(e) ==> e@ == conflict(existing->Some_0@, lv),
{
    match existing {
        Some(stored) => {
            let held = level(stored.as_slice());
            if lv < held && !force {
                Err(DbError::LevelConflict { attempted: lv, existing: held })
            } else {
                Ok(())
            }
        },
        None => Ok(()),
    }
}

/// A forced write is never turned down.
pub proof fn lemma_force_overrides(existing: Option<Seq<u8>>, lv: u8)
    ensures
        !rejects(existing, lv, true),
{
}

/// A key that holds no record takes a write at any level.
pub proof fn lemma_absent_accepts(lv: u8, force: bool)
    ensures
        !rejects(None, lv, force),
{
}

/// A write at or above the level of the stored record goes through
/// without force; one below it needs force.
pub proof fn lemma_rule_by_level(stored: Seq<u8>, lv: u8)
    ensures
        rejects(Some(stored), lv, false) <==> lv < level_of(stored),
{
}

} // verus!
