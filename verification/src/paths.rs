//! Path text manipulation over plain strings.
//!
//! Paths are modelled as character sequences; a component boundary is the
//! `'/'` separator. The helpers here mirror the handful of path operations
//! the launcher needs: final component, stem, parent directory, joining,
//! and substituting a file extension.

use vstd::prelude::*;
use vstd::string::*;

verus! {

/// Index of the last occurrence of `c` in `s`, or -1 if `c` does not occur.
pub open spec fn spec_last_index(s: Seq<char>, c: char) -> int
    decreases s.len(),
{
    if s.len() == 0 {
        -1
    } else if s.last() == c {
        s.len() - 1
    } else {
        spec_last_index(s.drop_last(), c)
    }
}

/// The last-occurrence index is in range, and where it exists it points at
/// an occurrence of `c`.
pub proof fn lemma_last_index_bounds(s: Seq<char>, c: char)
    ensures
        -1 <= spec_last_index(s, c) < s.len(),
        spec_last_index(s, c) >= 0 ==> s[spec_last_index(s, c)] == c,
    decreases s.len(),
{
    if s.len() != 0 && s.last() != c {
        lemma_last_index_bounds(s.drop_last(), c);
    }
}

/// Finds the last occurrence of `c` in `s`.
pub fn last_index_of(s: &str, c: char) -> (r: Option<usize>)
    ensures
        r matches Some(i) ==> i == spec_last_index(s@, c) && i < s@.len(),
        r is None ==> spec_last_index(s@, c) == -1,
{
    let len = s.unicode_len();
    let mut i = len;
    proof {
        assert(s@.take(len as int) =~= s@);
    }
    while i > 0
        invariant
            i <= len,
            len == s@.len(),
            spec_last_index(s@, c) == spec_last_index(s@.take(i as int), c),
        decreases i,
    {
        let ch = s.get_char(i - 1);
        proof {
            assert(s@.take(i as int).last() == s@[i - 1]);
            assert(s@.take(i as int).drop_last() =~= s@.take(i - 1));
        }
        if ch == c {
            return Some(i - 1);
        }
        i = i - 1;
    }
    proof {
        assert(s@.take(0) =~= Seq::<char>::empty());
    }
    None
}

/// The final path component: the text after the last separator.
pub open spec fn spec_file_name(p: Seq<char>) -> Seq<char> {
    p.subrange(spec_last_index(p, '/') + 1, p.len() as int)
}

/// The final component up to its last `'.'`; a dot in first position does
/// not begin an extension.
pub open spec fn spec_stem_of_name(name: Seq<char>) -> Seq<char> {
    let d = spec_last_index(name, '.');
    if d <= 0 {
        name
    } else {
        name.take(d)
    }
}

/// Stem of the final path component of `p`.
pub open spec fn spec_file_stem(p: Seq<char>) -> Seq<char> {
    spec_stem_of_name(spec_file_name(p))
}

/// Everything before the final component: `""` when there is no separator,
/// `"/"` when the only separator is the leading one, otherwise the text up
/// to (excluding) the last separator.
pub open spec fn spec_parent(p: Seq<char>) -> Seq<char> {
    let i = spec_last_index(p, '/');
    if i < 0 {
        Seq::<char>::empty()
    } else if i == 0 {
        seq!['/']
    } else {
        p.take(i)
    }
}

/// Joining `a` and `b`: `b` alone when `b` is absolute or `a` is empty,
/// otherwise `a` and `b` with exactly one separator between them.
pub open spec fn spec_join(a: Seq<char>, b: Seq<char>) -> Seq<char> {
    if b.len() > 0 && b[0] == '/' {
        b
    } else if a.len() == 0 {
        b
    } else if a.last() == '/' {
        a + b
    } else {
        a + seq!['/'] + b
    }
}

/// `p` with its extension replaced by `ext`: the final component keeps its
/// stem and gains `"." + ext`; a `p` whose final component is empty is
/// returned unchanged.
pub open spec fn spec_with_extension(p: Seq<char>, ext: Seq<char>) -> Seq<char> {
    let name = spec_file_name(p);
    if name.len() == 0 {
        p
    } else {
        p.take(p.len() - name.len()) + spec_stem_of_name(name) + seq!['.'] + ext
    }
}

/// The final path component of `p`.
pub fn file_name(p: &str) -> (r: String)
    ensures
        r@ == spec_file_name(p@),
{
    let len = p.unicode_len();
    proof {
        lemma_last_index_bounds(p@, '/');
    }
    let start: usize = match last_index_of(p, '/') {
        Some(i) => i + 1,
        None => 0,
    };
    let r = p.substring_char(start, len).to_owned();
    r
}

/// Stem of the final path component of `p`.
pub fn file_stem(p: &str) -> (r: String)
    ensures
        r@ == spec_file_stem(p@),
{
    let name = file_name(p);
    let d = last_index_of(name.as_str(), '.');
    proof {
        lemma_last_index_bounds(name@, '.');
    }
    match d {
        Some(i) if i > 0 => name.as_str().substring_char(0, i).to_owned(),
        _ => name,
    }
}

/// The parent directory of `p`, as `spec_parent` describes.
pub fn parent(p: &str) -> (r: String)
    ensures
        r@ == spec_parent(p@),
{
    proof {
        lemma_last_index_bounds(p@, '/');
        reveal_strlit("/");
        reveal_strlit("");
    }
    match last_index_of(p, '/') {
        Some(i) => {
            if i == 0 {
                let r = "/".to_owned();
                proof {
                    assert(r@ =~= seq!['/']);
                }
                r
            } else {
                p.substring_char(0, i).to_owned()
            }
        },
        None => {
            let r = "".to_owned();
            proof {
                assert(r@ =~= Seq::<char>::empty());
            }
            r
        },
    }
}

/// Joins two path fragments, as `spec_join` describes.
pub fn join(a: &str, b: &str) -> (r: String)
    ensures
        r@ == spec_join(a@, b@),
{
    let alen = a.unicode_len();
    let blen = b.unicode_len();
    if blen > 0 && b.get_char(0) == '/' {
        b.to_owned()
    } else if alen == 0 {
        b.to_owned()
    } else if a.get_char(alen - 1) == '/' {
        let mut r = a.to_owned();
        r.append(b);
        r
    } else {
        let mut r = a.to_owned();
        r.append("/");
        r.append(b);
        proof {
            reveal_strlit("/");
            assert("/"@ =~= seq!['/']);
            assert(r@ =~= a@ + seq!['/'] + b@);
        }
        r
    }
}

/// Replaces the extension of `p` with `ext`, as `spec_with_extension`
/// describes.
pub fn with_extension(p: &str, ext: &str) -> (r: String)
    ensures
        r@ == spec_with_extension(p@, ext@),
{
    let len = p.unicode_len();
    proof {
        lemma_last_index_bounds(p@, '/');
    }
    let start: usize = match last_index_of(p, '/') {
        Some(i) => i + 1,
        None => 0,
    };
    proof {
        assert(spec_file_name(p@).len() == len - start);
    }
    if start == len {
        return p.to_owned();
    }
    let name = p.substring_char(start, len);
    proof {
        lemma_last_index_bounds(name@, '.');
    }
    let stem_end: usize = match last_index_of(name, '.') {
        Some(d) if d > 0 => start + d,
        _ => len,
    };
    proof {
        assert(p@.take(start as int) + spec_stem_of_name(name@) =~= p@.take(stem_end as int));
    }
    let mut r = p.substring_char(0, stem_end).to_owned();
    r.append(".");
    r.append(ext);
    proof {
        reveal_strlit(".");
        assert("."@ =~= seq!['.']);
        assert(r@ =~= spec_with_extension(p@, ext@));
    }
    r
}

} // verus!
