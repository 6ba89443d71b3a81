//! What is done about a cache that is damaged.

use super::{CacheRecovery, Opening};
use crate::text::{
    ascii_lower, concat2, concat3, contains, decimal, occurs_in, to_ascii_lower, to_decimal,
};
use vstd::prelude::*;

verus! {

/// Whether a failure is the damage of a database.
pub open spec fn says_corrupted(text: Seq<char>) -> bool {
    let text = ascii_lower(text);
    occurs_in(text, "file is not a database"@) || occurs_in(
        text,
        "database disk image is malformed"@,
    ) || occurs_in(text, "database corruption"@) || occurs_in(text, "database malformed"@)
}

/// Whether a failure is the damage of a database.
pub fn is_sqlite_corruption(error: &str) -> (r: bool)
    ensures
        r == says_corrupted(error@),
{
    let text = to_ascii_lower(error);
    contains(text.as_str(), "file is not a database") || contains(
        text.as_str(),
        "database disk image is malformed",
    ) || contains(text.as_str(), "database corruption") || contains(
        text.as_str(),
        "database malformed",
    )
}

/// Whether an opening failed with a text, and is told apart from damage.
pub open spec fn is_failure(opening: Opening, text: Seq<char>) -> bool {
    if says_corrupted(text) {
        opening is Corrupted && opening->Corrupted_0@ == text
    } else {
        opening is Failed && opening->Failed_0@ == text
    }
}

pub(crate) fn failure(text: String) -> (r: Opening)
    ensures
        is_failure(r, text@),
{
    if is_sqlite_corruption(text.as_str()) {
        Opening::Corrupted(text)
    } else {
        Opening::Failed(text)
    }
}

/// A name with a number behind it, but for the first.
pub open spec fn numbered(name: Seq<char>, duplicate: int) -> Seq<char> {
    if duplicate <= 0 {
        name
    } else {
        name + "."@ + decimal(duplicate as nat)
    }
}

pub(crate) fn number_name(name: String, duplicate: u32) -> (r: String)
    ensures
        r@ == numbered(name@, duplicate as int),
{
    if duplicate == 0 {
        name
    } else {
        concat3(name.as_str(), ".", to_decimal(duplicate as u64).as_str())
    }
}

/// The name under which a damaged file is put aside at a time. Where there is such a file already,
/// the next number is tried.
pub fn quarantine_name(file_name: &str, time: &str, duplicate: u32) -> (r: String)
    ensures
        r@ == numbered(file_name@ + ".corrupt."@ + time@, duplicate as int),
{
    number_name(concat3(file_name, ".corrupt.", time), duplicate)
}

/// The name of the copy that is made of a companion of the cache before it is opened.
pub fn backup_name(file_name: &str, time: &str, duplicate: u32) -> (r: String)
    ensures
        r@ == numbered("."@ + file_name@ + ".recovery-probe."@ + time@, duplicate as int),
{
    let head = concat2(".", file_name);
    number_name(concat3(head.as_str(), ".recovery-probe.", time), duplicate)
}

/// What becomes of a companion of a damaged cache.
#[derive(Clone, Copy, Debug, PartialEq, Eq, Structural)]
pub enum CompanionMove {
    /// The file is put aside, and its copy is dropped.
    Original,
    /// The copy is put aside, for the file is gone.
    Backup,
    Nothing,
}

/// What becomes of a companion of a damaged cache: none that is there is lost.
pub fn companion_move(original_exists: bool, backup_exists: bool) -> (r: CompanionMove)
    ensures
        r == CompanionMove::Original <==> original_exists,
        r == CompanionMove::Backup <==> !original_exists && backup_exists,
        r == CompanionMove::Nothing <==> !original_exists && !backup_exists,
{
    if original_exists {
        CompanionMove::Original
    } else if backup_exists {
        CompanionMove::Backup
    } else {
        CompanionMove::Nothing
    }
}

/// The files that were put aside. That there were none is an error.
pub fn finish_quarantine(paths: Vec<String>) -> (r: Result<CacheRecovery, String>)
    ensures
        if paths@.len() > 0 {
            r is Ok && r->Ok_0.quarantined_paths == paths
        } else {
            r is Err && r->Err_0@
                == "corrupted cache disappeared before it could be quarantined"@
        },
{
    if paths.len() > 0 {
        Ok(CacheRecovery { quarantined_paths: paths })
    } else {
        Err("corrupted cache disappeared before it could be quarantined".to_owned())
    }
}

} // verus!
