use vstd::prelude::*;

use crate::path::{is_within, join_path, declared_pathname, joined, strip_line_end, within};
use crate::sanitize::{sanitize_pathname, sanitized, Target};

verus! {

/// The lexically normalized form of path `p`, as `path_clean::clean` makes it.
pub uninterp spec fn cleaned(p: Seq<char>) -> Seq<char>;

/// Relies on `path_clean::clean`: it resolves `.` and `..` and repeated
/// separators by looking at the text of `p` alone, never at the filesystem.
#[verifier::external_body]
fn clean_path(p: &str) -> (r: String)
    ensures
        r@ == cleaned(p@),
{
    path_clean::clean(p).to_string_lossy().into_owned()
}

/// Whether `rel`, joined to `root` and normalized, stays at or below `root`.
pub fn is_contained(root: &str, rel: &str) -> (r: bool)
    ensures
        r == within(root@, cleaned(joined(root@, rel@))),
{
    let candidate = join_path(root, rel);
    let normal = clean_path(candidate.as_str());
    is_within(root, normal.as_str())
}

/// The pathname that an entry declares, once read and sanitized for `target`.
pub open spec fn entry_pathname(first_line: Seq<char>, target: Target) -> Seq<char> {
    sanitized(strip_line_end(first_line), target)
}

/// What to do with one well-formed entry.
pub struct EntryPlan {
    /// Whether the asset may be written: its resolved path stays inside the root.
    pub safe: bool,
    /// The sanitized declared pathname.
    pub pathname: String,
    /// Where the asset goes: the root joined with `pathname`, not normalized.
    pub out_path: String,
}

/// Decides where the asset of an entry goes, given the first line of its
/// `pathname` file, and whether that place is inside `root`.
pub fn plan_entry(root: &str, first_line: &str, target: Target) -> (r: EntryPlan)
    ensures
        r.pathname@ == entry_pathname(first_line@, target),
        r.out_path@ == joined(root@, r.pathname@),
        r.safe == within(root@, cleaned(joined(root@, r.pathname@))),
{
    let declared = declared_pathname(first_line);
    let pathname = sanitize_pathname(declared.as_str(), target);
    let out_path = join_path(root, pathname.as_str());
    let safe = is_contained(root, pathname.as_str());
    EntryPlan { safe, pathname, out_path }
}

/// Where one entry of the temporary tree ended up.
#[derive(Clone, Copy, Debug, PartialEq, Eq, Structural)]
pub enum EntryOutcome {
    /// Its asset was moved to its resolved place.
    Extracted,
    /// It lacked a `pathname` or an `asset` file, or was no directory.
    SkippedMalformed,
    /// Its declared pathname resolved outside the destination root.
    SkippedUnsafe,
}

/// An entry names an asset only if it is a directory holding both files.
pub open spec fn well_formed(is_dir: bool, has_pathname: bool, has_asset: bool) -> bool {
    is_dir && has_pathname && has_asset
}

/// Whether a member of the temporary tree is an asset entry.
pub fn is_asset_entry(is_dir: bool, has_pathname: bool, has_asset: bool) -> (r: bool)
    ensures
        r == well_formed(is_dir, has_pathname, has_asset),
{
    is_dir && has_pathname && has_asset
}

/// The outcome of an entry that was looked at, before any write: malformed
/// entries and unsafe ones are skipped, the rest are to be extracted.
pub open spec fn planned_outcome(well: bool, safe: bool) -> EntryOutcome {
    if !well {
        EntryOutcome::SkippedMalformed
    } else if !safe {
        EntryOutcome::SkippedUnsafe
    } else {
        EntryOutcome::Extracted
    }
}

/// A malformed entry is skipped whatever its pathname would resolve to: it
/// never leads to a write nor to a failure.
pub proof fn lemma_malformed_is_skipped(safe: bool)
    ensures
        planned_outcome(false, safe) == EntryOutcome::SkippedMalformed,
{
}

/// The outcome to record for an entry, from its shape and its plan's safety.
pub fn classify_entry(well: bool, safe: bool) -> (r: EntryOutcome)
    ensures
        r == planned_outcome(well, safe),
{
    if !well {
        EntryOutcome::SkippedMalformed
    } else if !safe {
        EntryOutcome::SkippedUnsafe
    } else {
        EntryOutcome::Extracted
    }
}

} // verus!
