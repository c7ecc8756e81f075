//! A model of `/`-separated path strings: components, parent and file name,
//! component-wise suffix matching (as `Path::ends_with` does it), and file
//! extensions.

use vstd::prelude::*;
use crate::strutil::{
    find_char, first_ix, has_char, last_ix, lemma_first_ix, lemma_last_ix, rfind_char, str_eq,
};

verus! {

// ---------- splitting into pieces ----------

/// The pieces of `s` between occurrences of `c`, empty pieces included.
pub open spec fn split_parts(s: Seq<char>, c: char) -> Seq<Seq<char>>
    decreases s.len(),
{
    if !has_char(s, c) {
        seq![s]
    } else if 0 <= first_ix(s, c) && first_ix(s, c) + 1 <= s.len() {
        seq![s.take(first_ix(s, c))] + split_parts(s.skip(first_ix(s, c) + 1), c)
    } else {
        seq![s]
    }
}

pub proof fn lemma_split_parts_unfold(s: Seq<char>, c: char)
    requires
        has_char(s, c),
    ensures
        split_parts(s, c) == seq![s.take(first_ix(s, c))] + split_parts(
            s.skip(first_ix(s, c) + 1),
            c,
        ),
{
    lemma_first_ix(s, c);
}

/// The pieces with the empty ones dropped.
pub open spec fn nonempty_parts(parts: Seq<Seq<char>>) -> Seq<Seq<char>> {
    parts.filter(|x: Seq<char>| x.len() > 0)
}

pub proof fn lemma_nonempty_parts_push(parts: Seq<Seq<char>>, x: Seq<char>)
    ensures
        nonempty_parts(parts.push(x)) == if x.len() > 0 {
            nonempty_parts(parts).push(x)
        } else {
            nonempty_parts(parts)
        },
{
    assert(parts.push(x).drop_last() =~= parts);
    assert(parts.push(x).last() == x);
    reveal(Seq::filter);
}

/// The non-empty `/`-separated components of a path string.
pub open spec fn components_of(p: Seq<char>) -> Seq<Seq<char>> {
    nonempty_parts(split_parts(p, '/'))
}

/// The pieces of `s` between occurrences of `c`.
pub fn split_all(s: &str, c: char) -> (r: Vec<String>)
    ensures
        r.deep_view() == split_parts(s@, c),
{
    let mut out: Vec<String> = Vec::new();
    let mut rest = String::from_str(s);
    loop
        invariant
            split_parts(s@, c) == out.deep_view() + split_parts(rest@, c),
        decreases rest@.len(),
    {
        let n = rest.as_str().unicode_len();
        match find_char(rest.as_str(), c) {
            Some(i) => {
                proof {
                    lemma_split_parts_unfold(rest@, c);
                    lemma_first_ix(rest@, c);
                }
                let head = String::from_str(rest.as_str().substring_char(0, i));
                let tail = String::from_str(rest.as_str().substring_char(i + 1, n));
                proof {
                    assert(head@ =~= rest@.take(i as int));
                    assert(tail@ =~= rest@.skip(i + 1));
                }
                let ghost old_out = out.deep_view();
                let ghost old_rest = rest@;
                out.push(head);
                rest = tail;
                proof {
                    assert(out.deep_view() =~= old_out.push(old_rest.take(i as int)));
                    assert(out.deep_view() + split_parts(rest@, c) =~= old_out + (seq![
                        old_rest.take(i as int),
                    ] + split_parts(old_rest.skip(i + 1), c)));
                }
            },
            None => {
                let ghost old_out = out.deep_view();
                let ghost last = rest@;
                out.push(rest);
                proof {
                    assert(split_parts(last, c) == seq![last]);
                    assert(out.deep_view() =~= old_out.push(last));
                    assert(out.deep_view() =~= old_out + seq![last]);
                }
                return out;
            },
        }
    }
}

/// The non-empty `/`-separated components of a path string.
pub fn components(p: &str) -> (r: Vec<String>)
    ensures
        r.deep_view() == components_of(p@),
{
    let parts = split_all(p, '/');
    let mut out: Vec<String> = Vec::new();
    let n = parts.len();
    proof {
        assert(parts.deep_view().take(0) =~= Seq::<Seq<char>>::empty());
        assert(nonempty_parts(Seq::<Seq<char>>::empty()) =~= Seq::<Seq<char>>::empty()) by {
            reveal(Seq::filter);
        }
    }
    let mut i: usize = 0;
    while i < n
        invariant
            n == parts.len(),
            0 <= i <= n,
            out.deep_view() == nonempty_parts(parts.deep_view().take(i as int)),
        decreases n - i,
    {
        let ghost old_out = out.deep_view();
        if !parts[i].as_str().is_empty() {
            out.push(parts[i].clone());
            proof {
                assert(out.deep_view() =~= old_out.push(parts@[i as int]@));
            }
        }
        proof {
            assert(parts.deep_view().take(i + 1) =~= parts.deep_view().take(i as int).push(
                parts@[i as int]@,
            ));
            lemma_nonempty_parts_push(parts.deep_view().take(i as int), parts@[i as int]@);
        }
        i = i + 1;
    }
    proof {
        assert(parts.deep_view().take(n as int) =~= parts.deep_view());
    }
    out
}

// ---------- parent directory and file name ----------

/// Everything before the last `/`, or empty when there is none.
pub open spec fn parent_of(p: Seq<char>) -> Seq<char> {
    if has_char(p, '/') {
        p.take(last_ix(p, '/'))
    } else {
        Seq::empty()
    }
}

/// Everything after the last `/`, or all of `p` when there is none.
pub open spec fn name_of(p: Seq<char>) -> Seq<char> {
    if has_char(p, '/') {
        p.skip(last_ix(p, '/') + 1)
    } else {
        p
    }
}

pub proof fn lemma_parent_of_len(p: Seq<char>)
    ensures
        parent_of(p).len() <= p.len(),
        p.len() > 0 ==> parent_of(p).len() < p.len(),
{
    if has_char(p, '/') {
        lemma_last_ix(p, '/');
    }
}

/// The part of `p` before its last `/`, or empty.
pub fn path_parent(p: &str) -> (r: String)
    ensures
        r@ == parent_of(p@),
{
    match rfind_char(p, '/') {
        Some(i) => {
            proof {
                lemma_last_ix(p@, '/');
                assert(p@.subrange(0, i as int) =~= p@.take(i as int));
            }
            String::from_str(p.substring_char(0, i))
        },
        None => String::new(),
    }
}

/// The part of `p` after its last `/`, or all of `p`.
pub fn path_name(p: &str) -> (r: String)
    ensures
        r@ == name_of(p@),
{
    let n = p.unicode_len();
    match rfind_char(p, '/') {
        Some(i) => {
            proof {
                lemma_last_ix(p@, '/');
                assert(p@.subrange(i + 1, n as int) =~= p@.skip(i + 1));
            }
            String::from_str(p.substring_char(i + 1, n))
        },
        None => String::from_str(p),
    }
}

// ---------- component-wise suffix matching ----------

/// Is `suf` a suffix of `s`, element-wise?
pub open spec fn seq_suffix_of(s: Seq<Seq<char>>, suf: Seq<Seq<char>>) -> bool {
    suf.len() <= s.len() && s.skip(s.len() - suf.len()) == suf
}

/// Does the path `p` end with the relative path `suf`, component-wise, the
/// way `Path::ends_with` compares paths?  An absolute `suf` never matches.
pub open spec fn path_suffix_match(p: Seq<char>, suf: Seq<char>) -> bool {
    &&& !(suf.len() > 0 && suf[0] == '/')
    &&& seq_suffix_of(components_of(p), components_of(suf))
}

/// Component-wise path suffix test.
pub fn path_ends_with(p: &str, suf: &str) -> (r: bool)
    ensures
        r == path_suffix_match(p@, suf@),
{
    if suf.unicode_len() > 0 && suf.get_char(0) == '/' {
        return false;
    }
    let pc = components(p);
    let sc = components(suf);
    let pn = pc.len();
    let sn = sc.len();
    if sn > pn {
        return false;
    }
    let off = pn - sn;
    let ghost pv = pc.deep_view();
    let ghost sv = sc.deep_view();
    let mut j: usize = 0;
    while j < sn
        invariant
            pv == components_of(p@),
            sv == components_of(suf@),
            pc.deep_view() == pv,
            sc.deep_view() == sv,
            pn == pv.len(),
            sn == sv.len(),
            sn <= pn,
            off == pn - sn,
            0 <= j <= sn,
            forall|t: int| 0 <= t < j ==> pv[off + t] == sv[t],
        decreases sn - j,
    {
        if !str_eq(pc[off + j].as_str(), sc[j].as_str()) {
            proof {
                if seq_suffix_of(pv, sv) {
                    assert(pv.skip(off as int)[j as int] == pv[off + j]);
                }
            }
            return false;
        }
        j = j + 1;
    }
    proof {
        assert(pv.skip(off as int) =~= sv);
    }
    true
}

// ---------- file extensions ----------

/// The extension of the file name of `p`, following Rust's `Path::extension`
/// rule: the part of the file name after its last `.`, unless the only `.`
/// leads the name.
pub open spec fn extension_of(p: Seq<char>) -> Option<Seq<char>> {
    let name = name_of(p);
    if !has_char(name, '.') {
        None
    } else if last_ix(name, '.') == 0 {
        None
    } else {
        Some(name.skip(last_ix(name, '.') + 1))
    }
}

/// The extension of the file name of `p`, if any.
pub fn path_extension(p: &str) -> (r: Option<String>)
    ensures
        match r {
            Some(e) => extension_of(p@) == Some(e@),
            None => extension_of(p@) is None,
        },
{
    let name = path_name(p);
    let n = name.as_str().unicode_len();
    match rfind_char(name.as_str(), '.') {
        None => None,
        Some(i) => {
            if i == 0 {
                None
            } else {
                proof {
                    lemma_last_ix(name@, '.');
                    assert(name@.subrange(i + 1, n as int) =~= name@.skip(i + 1));
                }
                Some(String::from_str(name.as_str().substring_char(i + 1, n)))
            }
        },
    }
}

} // verus!
