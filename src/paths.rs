use vstd::prelude::*;

verus! {

/// `dir` ends in a separator (as the root directory `/` does).
pub open spec fn ends_in_sep(dir: Seq<char>) -> bool {
    dir.len() > 0 && dir.last() == '/'
}

/// `dir` and `rel` joined by one separator; no separator is added after a
/// directory that ends in one, nor before an empty `rel`.
pub open spec fn joined(dir: Seq<char>, rel: Seq<char>) -> Seq<char> {
    if rel.len() == 0 {
        dir
    } else if ends_in_sep(dir) {
        dir + rel
    } else {
        dir + seq!['/'] + rel
    }
}

/// `abs` is `base` itself or lies below it.
pub open spec fn is_below(base: Seq<char>, abs: Seq<char>) -> bool {
    ||| abs == base
    ||| !ends_in_sep(base) && abs == base.push('/')
    ||| ends_in_sep(base) && base.len() <= abs.len() && abs.subrange(0, base.len() as int) == base
    ||| !ends_in_sep(base) && base.len() < abs.len() && abs.subrange(0, base.len() as int) == base
        && abs[base.len() as int] == '/'
}

/// The part of `abs` that follows `base` and its separator.
pub open spec fn rest_below(base: Seq<char>, abs: Seq<char>) -> Seq<char> {
    if abs == base {
        Seq::empty()
    } else if ends_in_sep(base) {
        abs.subrange(base.len() as int, abs.len() as int)
    } else if abs == base.push('/') {
        Seq::empty()
    } else {
        abs.subrange(base.len() + 1int, abs.len() as int)
    }
}

/// The path of `rel` inside `dir`.
pub fn join_path(dir: &str, rel: &str) -> (r: String)
    ensures
        r@ == joined(dir@, rel@),
{
    proof {
        reveal_strlit("/");
    }
    let s = String::from_str(dir);
    let dl = dir.unicode_len();
    if rel.unicode_len() == 0 {
        return s;
    }
    if dl > 0 && dir.get_char(dl - 1) == '/' {
        return s.concat(rel);
    }
    let s = s.concat("/");
    s.concat(rel)
}

/// The path of `abs` relative to `base`, if `abs` is `base` or lies below it.
pub fn strip_base(base: &str, abs: &str) -> (r: Option<String>)
    ensures
        r.is_some() == is_below(base@, abs@),
        r.is_some() ==> r.unwrap()@ == rest_below(base@, abs@),
        r.is_some() ==> abs@ == joined(base@, r.unwrap()@) || abs@ == base@.push('/'),
{
    let bl = base.unicode_len();
    let al = abs.unicode_len();
    if bl > al {
        return None;
    }
    let mut i: usize = 0;
    while i < bl
        invariant
            bl == base@.len(),
            al == abs@.len(),
            bl <= al,
            i <= bl,
            forall|j: int| 0 <= j < i ==> abs@[j] == base@[j],
        decreases bl - i,
    {
        if base.get_char(i) != abs.get_char(i) {
            assert(abs@.subrange(0, bl as int)[i as int] != base@[i as int]);
            return None;
        }
        i = i + 1;
    }
    assert(abs@.subrange(0, bl as int) =~= base@);
    if bl == al {
        assert(abs@ =~= base@);
        return Some(String::new());
    }
    assert(abs@ != base@);
    let sep = bl > 0 && base.get_char(bl - 1) == '/';
    if sep {
        let rel = String::from_str(abs.substring_char(bl, al));
        assert(rel@.len() > 0);
        assert(abs@ =~= joined(base@, rel@));
        return Some(rel);
    }
    if abs.get_char(bl) != '/' {
        return None;
    }
    if bl + 1 == al {
        assert(abs@ =~= base@.push('/'));
        return Some(String::new());
    }
    let rel = String::from_str(abs.substring_char(bl + 1, al));
    assert(abs@ =~= joined(base@, rel@));
    Some(rel)
}

} // verus!
