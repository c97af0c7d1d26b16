use vstd::prelude::*;

verus! {

/// A tracked file: its path relative to both the base and the storage
/// directory, and the hex digest of its content as last synchronised.
#[derive(Clone, Debug)]
pub struct File {
    pub path: String,
    pub hash: String,
}

/// The persisted registry: the remote of the storage repository and the
/// tracked files, in order.
#[derive(Clone, Debug, Default)]
pub struct Config {
    pub git_url: Option<String>,
    pub files: Vec<File>,
}

/// Some entry of `files` has the path `p`.
pub open spec fn has_path(files: Seq<File>, p: Seq<char>) -> bool {
    exists|i: int| 0 <= i < files.len() && (#[trigger] files[i]).path@ == p
}

/// No two entries share a path.
pub open spec fn paths_unique(files: Seq<File>) -> bool {
    forall|i: int, j: int|
        0 <= i < files.len() && 0 <= j < files.len() && i != j ==> (#[trigger] files[i]).path@
            != (#[trigger] files[j]).path@
}

/// `files` with every entry of path `p` taken out, the others in order.
pub open spec fn without(files: Seq<File>, p: Seq<char>) -> Seq<File>
    decreases files.len(),
{
    if files.len() == 0 {
        files
    } else {
        let rest = without(files.drop_last(), p);
        if files.last().path@ == p {
            rest
        } else {
            rest.push(files.last())
        }
    }
}

/// `old` and `new` agree but for the digest of the entries of path `p`,
/// which is `h` in `new`.
pub open spec fn rehashed(old: Seq<File>, new: Seq<File>, p: Seq<char>, h: Seq<char>) -> bool {
    &&& new.len() == old.len()
    &&& forall|i: int|
        0 <= i < old.len() ==> {
            &&& (#[trigger] new[i]).path@ == old[i].path@
            &&& new[i].hash@ == if old[i].path@ == p {
                h
            } else {
                old[i].hash@
            }
        }
}

/// The digest that the registry records for the path `p`: that of the
/// first entry of that path.
pub open spec fn recorded_hash(files: Seq<File>, p: Seq<char>) -> Seq<char>
    decreases files.len(),
{
    if files.len() == 0 {
        Seq::empty()
    } else if files[0].path@ == p {
        files[0].hash@
    } else {
        recorded_hash(files.drop_first(), p)
    }
}

/// Where every entry of path `p` has the digest `h`, the registry records
/// `h` for `p`.
pub proof fn lemma_recorded_hash(files: Seq<File>, p: Seq<char>, h: Seq<char>)
    requires
        has_path(files, p),
        forall|i: int| 0 <= i < files.len() && (#[trigger] files[i]).path@ == p ==> files[i].hash@ == h,
    ensures
        recorded_hash(files, p) == h,
    decreases files.len(),
{
    if files[0].path@ != p {
        let rest = files.drop_first();
        let k = choose|k: int| 0 <= k < files.len() && (#[trigger] files[k]).path@ == p;
        assert(rest[k - 1] == files[k]);
        assert forall|i: int| 0 <= i < rest.len() && (#[trigger] rest[i]).path@ == p implies rest[i].hash@ == h by {
            assert(rest[i] == files[i + 1]);
        }
        lemma_recorded_hash(rest, p, h);
    }
}

/// Taking the entries of path `p` out leaves none of that path, and only
/// paths that were there before.
pub proof fn lemma_without_drops(files: Seq<File>, p: Seq<char>)
    ensures
        !has_path(without(files, p), p),
        forall|i: int|
            0 <= i < without(files, p).len() ==> has_path(files, #[trigger] without(
                files,
                p,
            )[i].path@),
    decreases files.len(),
{
    if files.len() > 0 {
        lemma_without_drops(files.drop_last(), p);
        let rest = without(files.drop_last(), p);
        assert forall|i: int| 0 <= i < rest.len() implies has_path(files, #[trigger] rest[i].path@) by {
            let k = choose|k: int| 0 <= k < files.drop_last().len() && files.drop_last()[k].path@ == rest[i].path@;
            assert(files[k] == files.drop_last()[k]);
        }
        if files.last().path@ != p {
            let r = rest.push(files.last());
            assert forall|i: int| 0 <= i < r.len() implies has_path(files, #[trigger] r[i].path@) by {
                if i == rest.len() {
                    assert(files[files.len() - 1] == r[i]);
                } else {
                    assert(r[i] == rest[i]);
                }
            }
            assert forall|i: int| 0 <= i < r.len() implies (#[trigger] r[i]).path@ != p by {
                if i < rest.len() {
                    assert(r[i] == rest[i]);
                }
            }
        }
    }
}

/// Taking entries out keeps the paths unique.
pub proof fn lemma_without_unique(files: Seq<File>, p: Seq<char>)
    requires
        paths_unique(files),
    ensures
        paths_unique(without(files, p)),
    decreases files.len(),
{
    if files.len() > 0 {
        let init = files.drop_last();
        assert(paths_unique(init)) by {
            assert forall|i: int, j: int|
                0 <= i < init.len() && 0 <= j < init.len() && i != j implies (#[trigger] init[i]).path@
                != (#[trigger] init[j]).path@ by {
                assert(init[i] == files[i]);
                assert(init[j] == files[j]);
            }
        }
        lemma_without_unique(init, p);
        lemma_without_drops(init, files.last().path@);
        let rest = without(init, p);
        if files.last().path@ != p {
            let r = rest.push(files.last());
            assert forall|i: int, j: int|
                0 <= i < r.len() && 0 <= j < r.len() && i != j implies (#[trigger] r[i]).path@
                != (#[trigger] r[j]).path@ by {
                lemma_without_drops(init, p);
                if i < rest.len() && j < rest.len() {
                    assert(r[i] == rest[i]);
                    assert(r[j] == rest[j]);
                } else if i < rest.len() {
                    assert(r[i] == rest[i]);
                    let k = choose|k: int| 0 <= k < init.len() && init[k].path@ == rest[i].path@;
                    assert(init[k] == files[k]);
                } else {
                    assert(r[j] == rest[j]);
                    let k = choose|k: int| 0 <= k < init.len() && init[k].path@ == rest[j].path@;
                    assert(init[k] == files[k]);
                }
            }
        }
    }
}

impl Config {
    /// Whether the registry file can be found: the home directory is known,
    /// the storage directory exists, and the registry file exists in it.
    pub fn config_path_exists(home_known: bool, storage_exists: bool, config_file_exists: bool) -> (r: bool)
        ensures
            r == (home_known && storage_exists && config_file_exists),
    {
        if !home_known {
            return false;
        }
        if !storage_exists {
            return false;
        }
        config_file_exists
    }

    /// The digest recorded for the path `p`, if an entry has that path.
    pub fn hash_of(&self, p: &String) -> (r: Option<String>)
        ensures
            r.is_some() == has_path(self.files@, p@),
            r matches Some(h) ==> h@ == recorded_hash(self.files@, p@),
    {
        let mut i: usize = 0;
        assert(self.files@.subrange(0, self.files@.len() as int) =~= self.files@);
        while i < self.files.len()
            invariant
                i <= self.files@.len(),
                forall|j: int| 0 <= j < i ==> (#[trigger] self.files@[j]).path@ != p@,
                recorded_hash(self.files@, p@) == recorded_hash(
                    self.files@.subrange(i as int, self.files@.len() as int),
                    p@,
                ),
            decreases self.files@.len() - i,
        {
            let ghost rest = self.files@.subrange(i as int, self.files@.len() as int);
            assert(rest[0] == self.files@[i as int]);
            if self.files[i].path == *p {
                return Some(self.files[i].hash.clone());
            }
            assert(rest.drop_first() =~= self.files@.subrange(i + 1, self.files@.len() as int));
            i = i + 1;
        }
        None
    }

    /// Whether an entry has the path `p`.
    pub fn is_tracked(&self, p: &String) -> (r: bool)
        ensures
            r == has_path(self.files@, p@),
    {
        let mut i: usize = 0;
        while i < self.files.len()
            invariant
                i <= self.files@.len(),
                forall|j: int| 0 <= j < i ==> (#[trigger] self.files@[j]).path@ != p@,
            decreases self.files@.len() - i,
        {
            if self.files[i].path == *p {
                return true;
            }
            i = i + 1;
        }
        false
    }

    /// Sets the digest of the entries of path `p` to `h`.
    pub fn set_hash(&mut self, p: &String, h: &String)
        ensures
            rehashed(old(self).files@, final(self).files@, p@, h@),
            final(self).git_url == old(self).git_url,
    {
        let ghost start = self.files@;
        let mut i: usize = 0;
        while i < self.files.len()
            invariant
                i <= self.files@.len(),
                self.files@.len() == start.len(),
                self.git_url == old(self).git_url,
                start == old(self).files@,
                forall|j: int| i <= j < start.len() ==> self.files@[j] == start[j],
                forall|j: int|
                    0 <= j < i ==> {
                        &&& (#[trigger] self.files@[j]).path@ == start[j].path@
                        &&& self.files@[j].hash@ == if start[j].path@ == p@ {
                            h@
                        } else {
                            start[j].hash@
                        }
                    },
            decreases self.files@.len() - i,
        {
            if self.files[i].path == *p {
                let entry = File { path: self.files[i].path.clone(), hash: h.clone() };
                self.files.set(i, entry);
            }
            i = i + 1;
        }
    }

    /// Takes out the entries of path `p`, keeping the others in order.
    pub fn drop_path(&mut self, p: &String)
        ensures
            final(self).files@ == without(old(self).files@, p@),
            final(self).git_url == old(self).git_url,
    {
        let mut kept: Vec<File> = Vec::new();
        let mut i: usize = 0;
        while i < self.files.len()
            invariant
                i <= self.files@.len(),
                kept@ == without(self.files@.subrange(0, i as int), p@),
            decreases self.files@.len() - i,
        {
            assert(self.files@.subrange(0, i + 1).drop_last() =~= self.files@.subrange(0, i as int));
            if self.files[i].path != *p {
                kept.push(File { path: self.files[i].path.clone(), hash: self.files[i].hash.clone() });
            }
            i = i + 1;
        }
        assert(self.files@.subrange(0, i as int) =~= self.files@);
        self.files = kept;
    }
}

} // verus!
