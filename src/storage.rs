use vstd::prelude::*;

use crate::digest::{hash_content, sha256_hex, trim_text, trimmed};
use crate::paths::{is_below, join_path, joined, rest_below, strip_base};
use crate::registry::{
    has_path, lemma_without_unique, paths_unique, recorded_hash, rehashed, without, Config, File,
};

verus! {

/// Why an operation on the storage did not go through.
#[derive(Clone, Copy, Debug, PartialEq, Eq, Structural)]
pub enum SyncError {
    /// The storage directory does not exist.
    StorageMissing,
    /// The path to track does not exist.
    NotFound,
    /// The path to track is a directory.
    IsDirectory,
    /// The path to track is not below the base directory.
    OutsideBase,
    /// The path is tracked already.
    AlreadyTracked,
    /// A tracked file has no copy in the storage directory.
    MissingStorageCopy,
    /// The file is not in the registry.
    NotTracked,
}

/// What a caller does to the file system after a sync from the live file.
#[derive(Clone, Copy, Debug, PartialEq, Eq, Structural)]
pub enum FromAction {
    /// Delete the storage copy and save the registry.
    Removed,
    /// Nothing.
    Unchanged,
    /// Create the storage copy's parent directory if needed, then copy the
    /// live file over the storage copy.
    Copied,
}

/// What a caller does to the file system after a sync to the live file.
#[derive(Clone, Copy, Debug, PartialEq, Eq, Structural)]
pub enum ToAction {
    /// Nothing.
    Unchanged,
    /// Nothing: the missing live file was declined before.
    Ignored,
    /// Ask the operator whether to create the missing live file.
    Prompt,
    /// Append the path as a line of the ignore ledger file.
    NewlyIgnored,
    /// Create the live file's parent directory if needed, then copy the
    /// storage copy over the live file.
    Copy,
}

/// The content of an optional live file, as a sequence.
pub open spec fn content_of(live: Option<&[u8]>) -> Option<Seq<u8>> {
    match live {
        Some(c) => Some(c@),
        None => None,
    }
}

/// The outcome of a sync from the live file, for a file that the registry holds or
/// not, whose live content is `live` (`None`: the live file is missing),
/// whose storage copy exists or not, and whose recorded digest is `recorded`.
pub open spec fn from_plan(
    known: bool,
    live: Option<Seq<u8>>,
    storage_exists: bool,
    recorded: Seq<char>,
) -> Result<FromAction, SyncError> {
    if !known {
        Err(SyncError::NotTracked)
    } else {
        match live {
            None => if storage_exists {
                Ok(FromAction::Removed)
            } else {
                Err(SyncError::MissingStorageCopy)
            },
            Some(c) => if storage_exists && sha256_hex(c) == recorded {
                Ok(FromAction::Unchanged)
            } else {
                Ok(FromAction::Copied)
            },
        }
    }
}

/// How a sync from the live file, with the given outcome, leaves the
/// registry's entries `old` as `new`, for the path `p`.
pub open spec fn registry_after_from(
    old: Seq<File>,
    new: Seq<File>,
    p: Seq<char>,
    live: Option<Seq<u8>>,
    outcome: Result<FromAction, SyncError>,
) -> bool {
    match outcome {
        Ok(FromAction::Removed) => new == without(old, p),
        Ok(FromAction::Copied) => rehashed(old, new, p, sha256_hex(live.unwrap())),
        _ => new == old,
    }
}

/// The outcome of a sync to the live file, for a file whose storage copy
/// exists or not, whose live content is `live`, which the ignore ledger
/// holds or not, and whose recorded digest is `recorded`.
pub open spec fn to_plan(
    storage_exists: bool,
    live: Option<Seq<u8>>,
    ignored: bool,
    recorded: Seq<char>,
) -> Result<ToAction, SyncError> {
    if !storage_exists {
        Err(SyncError::MissingStorageCopy)
    } else {
        match live {
            Some(c) => if sha256_hex(c) == recorded {
                Ok(ToAction::Unchanged)
            } else {
                Ok(ToAction::Copy)
            },
            None => if ignored {
                Ok(ToAction::Ignored)
            } else {
                Ok(ToAction::Prompt)
            },
        }
    }
}

/// The operator's answer, once trimmed, is exactly `y`.
pub open spec fn affirmative(answer: Seq<char>) -> bool {
    trimmed(answer) == seq!['y']
}

/// The content of the storage copy after a caller performed `a`, given the
/// live content and the storage copy before.
pub open spec fn storage_after_from(a: FromAction, live: Option<Seq<u8>>, stored: Option<Seq<u8>>) -> Option<Seq<u8>> {
    match a {
        FromAction::Removed => None,
        FromAction::Unchanged => stored,
        FromAction::Copied => live,
    }
}

/// The content of the live file after a caller performed `a`, given the
/// storage copy and the live content before.
pub open spec fn live_after_to(a: ToAction, stored: Option<Seq<u8>>, live: Option<Seq<u8>>) -> Option<Seq<u8>> {
    match a {
        ToAction::Copy => stored,
        _ => live,
    }
}

/// The lines of `s`: the pieces between line breaks, the last one included.
pub open spec fn split_lines(s: Seq<char>) -> Seq<Seq<char>>
    decreases s.len(),
{
    if s.len() == 0 {
        seq![Seq::empty()]
    } else if s.last() == '\n' {
        split_lines(s.drop_last()).push(Seq::empty())
    } else {
        let l = split_lines(s.drop_last());
        l.update(l.len() - 1, l.last().push(s.last()))
    }
}

/// The paths that the operator declined to create at their live location.
pub struct IgnoreLedger {
    pub entries: Vec<String>,
}

impl IgnoreLedger {
    /// The ledger holds the path `p`, as a whole entry.
    pub open spec fn holds(&self, p: Seq<char>) -> bool {
        exists|i: int| 0 <= i < self.entries@.len() && (#[trigger] self.entries@[i])@ == p
    }

    /// The views of the entries.
    pub open spec fn paths(&self) -> Seq<Seq<char>> {
        self.entries@.map_values(|e: String| e@)
    }

    /// The ledger that a ledger file's text records: one entry per line.
    pub fn parse(text: &str) -> (r: IgnoreLedger)
        ensures
            r.paths() == split_lines(text@),
    {
        let n = text.unicode_len();
        let mut entries: Vec<String> = Vec::new();
        let mut start: usize = 0;
        let mut i: usize = 0;
        proof {
            assert(text@.subrange(0, 0) =~= Seq::<char>::empty());
            assert(entries@.map_values(|e: String| e@).push(text@.subrange(0, 0)) =~= seq![
                Seq::<char>::empty(),
            ]);
        }
        while i < n
            invariant
                n == text@.len(),
                start <= i <= n,
                split_lines(text@.subrange(0, i as int)) == entries@.map_values(|e: String| e@).push(
                    text@.subrange(start as int, i as int),
                ),
            decreases n - i,
        {
            let ghost prefix = text@.subrange(0, i + 1);
            proof {
                assert(prefix.drop_last() =~= text@.subrange(0, i as int));
                assert(prefix.last() == text@[i as int]);
            }
            if text.get_char(i) == '\n' {
                let line = String::from_str(text.substring_char(start, i));
                entries.push(line);
                start = i + 1;
                proof {
                    assert(text@.subrange(start as int, i + 1) =~= Seq::<char>::empty());
                    assert(entries@.map_values(|e: String| e@) =~= split_lines(text@.subrange(0, i as int)));
                }
            } else {
                proof {
                    assert(text@.subrange(start as int, i + 1) =~= text@.subrange(start as int, i as int).push(text@[i as int]));
                    assert(split_lines(prefix) =~= entries@.map_values(|e: String| e@).push(
                        text@.subrange(start as int, i + 1),
                    ));
                }
            }
            i = i + 1;
        }
        let last = String::from_str(text.substring_char(start, n));
        entries.push(last);
        proof {
            assert(text@.subrange(0, n as int) =~= text@);
            assert(entries@.map_values(|e: String| e@) =~= split_lines(text@));
        }
        IgnoreLedger { entries }
    }

    /// A ledger with no entry.
    pub fn new() -> (r: IgnoreLedger)
        ensures
            r.entries@.len() == 0,
    {
        IgnoreLedger { entries: Vec::new() }
    }

    /// Whether the ledger holds `p` as a whole entry.
    pub fn contains(&self, p: &String) -> (r: bool)
        ensures
            r == self.holds(p@),
    {
        let mut i: usize = 0;
        while i < self.entries.len()
            invariant
                i <= self.entries@.len(),
                forall|j: int| 0 <= j < i ==> (#[trigger] self.entries@[j])@ != p@,
            decreases self.entries@.len() - i,
        {
            if self.entries[i] == *p {
                return true;
            }
            i = i + 1;
        }
        false
    }

    /// Records the operator's answer on creating the missing live copy of
    /// `file`: an affirmative answer asks for the copy, any other answer adds
    /// the path to the ledger.
    pub fn answer(&mut self, file: &File, answer: &str) -> (r: ToAction)
        ensures
            affirmative(answer@) ==> r == ToAction::Copy && final(self).entries@ == old(self).entries@,
            !affirmative(answer@) ==> r == ToAction::NewlyIgnored && final(self).entries@ == old(
                self,
            ).entries@.push(file.path),
    {
        let t = trim_text(answer);
        if t.unicode_len() == 1 && t.get_char(0) == 'y' {
            assert(t@ =~= seq!['y']);
            ToAction::Copy
        } else {
            self.entries.push(file.path.clone());
            ToAction::NewlyIgnored
        }
    }
}

/// The home directory of live files, the storage directory that mirrors
/// them, and the registry of tracked files.
pub struct Storage {
    pub storage_dir: String,
    pub base_dir: String,
    pub config: Config,
}

impl Storage {
    /// A storage over the given directories; fails where the storage
    /// directory does not exist.
    pub fn new(config: Config, storage_dir: String, base_dir: String, storage_exists: bool) -> (r:
        Result<Storage, SyncError>)
        ensures
            storage_exists ==> (r matches Ok(s) && s.config == config && s.storage_dir == storage_dir
                && s.base_dir == base_dir),
            !storage_exists ==> r == Err::<Storage, SyncError>(SyncError::StorageMissing),
    {
        if !storage_exists {
            return Err(SyncError::StorageMissing);
        }
        Ok(Storage { storage_dir, base_dir, config })
    }

    /// The path of `abs_path` relative to the base directory.
    pub fn relative(&self, abs_path: &str) -> (r: Result<String, SyncError>)
        ensures
            r is Ok <==> is_below(self.base_dir@, abs_path@),
            r matches Ok(rel) ==> rel@ == rest_below(self.base_dir@, abs_path@) && (abs_path@ == joined(
                self.base_dir@,
                rel@,
            ) || abs_path@ == self.base_dir@.push('/')),
            r is Err ==> r == Err::<String, SyncError>(SyncError::OutsideBase),
    {
        match strip_base(self.base_dir.as_str(), abs_path) {
            Some(rel) => Ok(rel),
            None => Err(SyncError::OutsideBase),
        }
    }

    /// The live path of `file`.
    pub fn absolute(&self, file: &File) -> (r: String)
        ensures
            r@ == joined(self.base_dir@, file.path@),
    {
        join_path(self.base_dir.as_str(), file.path.as_str())
    }

    /// The path of the storage copy of `file`.
    pub fn stored(&self, file: &File) -> (r: String)
        ensures
            r@ == joined(self.storage_dir@, file.path@),
    {
        join_path(self.storage_dir.as_str(), file.path.as_str())
    }
    /// Starts tracking the file at `abs_path`, whose existence, kind and
    /// content the caller observed. Fails, changing nothing, where the path
    /// does not exist, is a directory, is not below the base directory, or
    /// is tracked already; otherwise appends an entry with the content's
    /// digest, and the caller saves the registry.
    pub fn add(&mut self, abs_path: &str, exists: bool, is_dir: bool, content: &[u8]) -> (r: Result<
        (),
        SyncError,
    >)
        ensures
            !exists ==> r == Err::<(), SyncError>(SyncError::NotFound),
            exists && is_dir ==> r == Err::<(), SyncError>(SyncError::IsDirectory),
            exists && !is_dir && !is_below(old(self).base_dir@, abs_path@) ==> r == Err::<
                (),
                SyncError,
            >(SyncError::OutsideBase),
            exists && !is_dir && is_below(old(self).base_dir@, abs_path@) && has_path(
                old(self).config.files@,
                rest_below(old(self).base_dir@, abs_path@),
            ) ==> r == Err::<(), SyncError>(SyncError::AlreadyTracked),
            r is Err ==> *final(self) == *old(self),
            r is Ok <==> exists && !is_dir && is_below(old(self).base_dir@, abs_path@) && !has_path(
                old(self).config.files@,
                rest_below(old(self).base_dir@, abs_path@),
            ),
            r is Ok ==> {
                let n = old(self).config.files@.len();
                let entry = final(self).config.files@[n as int];
                &&& final(self).config.files@.len() == n + 1
                &&& final(self).config.files@.subrange(0, n as int) == old(self).config.files@
                &&& entry.path@ == rest_below(old(self).base_dir@, abs_path@)
                &&& entry.hash@ == sha256_hex(content@)
                &&& final(self).storage_dir == old(self).storage_dir
                &&& final(self).base_dir == old(self).base_dir
                &&& final(self).config.git_url == old(self).config.git_url
            },
            paths_unique(old(self).config.files@) ==> paths_unique(final(self).config.files@),
    {
        if !exists {
            return Err(SyncError::NotFound);
        }
        if is_dir {
            return Err(SyncError::IsDirectory);
        }
        let rel = match self.relative(abs_path) {
            Ok(rel) => rel,
            Err(e) => return Err(e),
        };
        if self.config.is_tracked(&rel) {
            return Err(SyncError::AlreadyTracked);
        }
        let hash = hash_content(content);
        let ghost before = self.config.files@;
        self.config.files.push(File { path: rel, hash });
        proof {
            assert(self.config.files@.subrange(0, before.len() as int) =~= before);
            if paths_unique(before) {
                assert forall|i: int, j: int|
                    0 <= i < self.config.files@.len() && 0 <= j < self.config.files@.len() && i
                        != j implies (#[trigger] self.config.files@[i]).path@
                    != (#[trigger] self.config.files@[j]).path@ by {
                    if i < before.len() && j < before.len() {
                        assert(self.config.files@[i] == before[i]);
                        assert(self.config.files@[j] == before[j]);
                    } else if i < before.len() {
                        assert(self.config.files@[i] == before[i]);
                    } else {
                        assert(self.config.files@[j] == before[j]);
                    }
                }
            }
        }
        Ok(())
    }

    /// Drops `file` from the registry once its live copy is gone; the caller
    /// deletes the storage copy. Fails, changing nothing, where that storage
    /// copy does not exist.
    fn remove(&mut self, file: &File, storage_exists: bool) -> (r: Result<(), SyncError>)
        ensures
            storage_exists ==> r is Ok && final(self).config.files@ == without(
                old(self).config.files@,
                file.path@,
            ),
            !storage_exists ==> r == Err::<(), SyncError>(SyncError::MissingStorageCopy),
            !storage_exists ==> *final(self) == *old(self),
            final(self).storage_dir == old(self).storage_dir,
            final(self).base_dir == old(self).base_dir,
            final(self).config.git_url == old(self).config.git_url,
            paths_unique(old(self).config.files@) ==> paths_unique(final(self).config.files@),
    {
        if !storage_exists {
            return Err(SyncError::MissingStorageCopy);
        }
        let ghost before = self.config.files@;
        self.config.drop_path(&file.path);
        proof {
            if paths_unique(before) {
                lemma_without_unique(before, file.path@);
            }
        }
        Ok(())
    }

    /// Brings the live copy of the file at `file.path` into the storage
    /// directory, given the live content (`None`: the live file is missing)
    /// and whether the storage copy exists. The live digest is compared with
    /// the one that the registry records for the path. The registry changes
    /// as the outcome says: the entry goes where the live file is gone, takes
    /// the live digest where the content is copied, and stays otherwise.
    pub fn sync_from(&mut self, file: &File, live: Option<&[u8]>, storage_exists: bool) -> (r: Result<
        FromAction,
        SyncError,
    >)
        ensures
            r == from_plan(
                has_path(old(self).config.files@, file.path@),
                content_of(live),
                storage_exists,
                recorded_hash(old(self).config.files@, file.path@),
            ),
            registry_after_from(
                old(self).config.files@,
                final(self).config.files@,
                file.path@,
                content_of(live),
                r,
            ),
            final(self).storage_dir == old(self).storage_dir,
            final(self).base_dir == old(self).base_dir,
            final(self).config.git_url == old(self).config.git_url,
            paths_unique(old(self).config.files@) ==> paths_unique(final(self).config.files@),
    {
        let recorded = match self.config.hash_of(&file.path) {
            Some(h) => h,
            None => return Err(SyncError::NotTracked),
        };
        match live {
            None => {
                self.remove(file, storage_exists)?;
                Ok(FromAction::Removed)
            },
            Some(content) => {
                let h = hash_content(content);
                if storage_exists && h == recorded {
                    return Ok(FromAction::Unchanged);
                }
                self.config.set_hash(&file.path, &h);
                Ok(FromAction::Copied)
            },
        }
    }

    /// Decides how the storage copy of `file` reaches its live location,
    /// given whether the storage copy exists, the live content (`None`: the
    /// live file is missing) and the ignore ledger. The registry stays as it
    /// is.
    pub fn sync_to(&self, file: &File, storage_exists: bool, live: Option<&[u8]>, ledger: &IgnoreLedger) -> (r: Result<
        ToAction,
        SyncError,
    >)
        ensures
            r == to_plan(storage_exists, content_of(live), ledger.holds(file.path@), file.hash@),
    {
        if !storage_exists {
            return Err(SyncError::MissingStorageCopy);
        }
        match live {
            Some(content) => {
                let h = hash_content(content);
                if h == file.hash {
                    Ok(ToAction::Unchanged)
                } else {
                    Ok(ToAction::Copy)
                }
            },
            None => {
                if ledger.contains(&file.path) {
                    Ok(ToAction::Ignored)
                } else {
                    Ok(ToAction::Prompt)
                }
            },
        }
    }
}

} // verus!
