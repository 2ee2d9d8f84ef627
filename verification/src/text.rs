//! Text utilities shared by the monitor and the toolchain prober:
//! substring search, lexicographic ordering of strings, and insertion
//! into a sorted, duplicate-free list of names.

use vstd::prelude::*;

verus! {

/// `needle` occurs as a contiguous run of characters inside `hay`.
pub open spec fn contains_seq(hay: Seq<char>, needle: Seq<char>) -> bool {
    exists|i: int|
        0 <= i && i + needle.len() <= hay.len() && #[trigger] hay.subrange(i, i + needle.len())
            == needle
}

/// Lexicographic order on character sequences, by character value.
pub open spec fn lex_le(a: Seq<char>, b: Seq<char>) -> bool
    decreases a.len(),
{
    if a.len() == 0 {
        true
    } else if b.len() == 0 {
        false
    } else if a[0] != b[0] {
        (a[0] as u32) < (b[0] as u32)
    } else {
        lex_le(a.skip(1), b.skip(1))
    }
}

/// Strict lexicographic order.
pub open spec fn lex_lt(a: Seq<char>, b: Seq<char>) -> bool {
    lex_le(a, b) && a != b
}

pub proof fn lemma_lex_le_reflexive(a: Seq<char>)
    ensures
        lex_le(a, a),
    decreases a.len(),
{
    if a.len() > 0 {
        lemma_lex_le_reflexive(a.skip(1));
    }
}

pub proof fn lemma_lex_le_total(a: Seq<char>, b: Seq<char>)
    ensures
        lex_le(a, b) || lex_le(b, a),
    decreases a.len(),
{
    if a.len() > 0 && b.len() > 0 {
        if a[0] == b[0] {
            lemma_lex_le_total(a.skip(1), b.skip(1));
        } else {
            vstd::utf8::char_u32_cast(a[0], a[0] as u32);
            vstd::utf8::char_u32_cast(b[0], b[0] as u32);
            assert((a[0] as u32) != (b[0] as u32));
        }
    }
}

pub proof fn lemma_lex_le_antisymmetric(a: Seq<char>, b: Seq<char>)
    requires
        lex_le(a, b),
        lex_le(b, a),
    ensures
        a == b,
    decreases a.len(),
{
    if a.len() == 0 {
        assert(b.len() == 0);
        assert(a =~= b);
    } else {
        assert(b.len() > 0);
        assert(a[0] == b[0]);
        lemma_lex_le_antisymmetric(a.skip(1), b.skip(1));
        assert(a =~= b) by {
            assert(forall|i: int|
                1 <= i < a.len() ==> a[i] == a.skip(1)[i - 1] && b[i] == b.skip(1)[i - 1]);
        }
    }
}

pub proof fn lemma_lex_le_transitive(a: Seq<char>, b: Seq<char>, c: Seq<char>)
    requires
        lex_le(a, b),
        lex_le(b, c),
    ensures
        lex_le(a, c),
    decreases a.len(),
{
    if a.len() == 0 {
    } else {
        assert(b.len() > 0);
        assert(c.len() > 0);
        if a[0] == b[0] && b[0] == c[0] {
            lemma_lex_le_transitive(a.skip(1), b.skip(1), c.skip(1));
        }
    }
}

/// Dropping an equal prefix does not change how two sequences
/// compare.
proof fn lemma_lex_le_common_prefix(a: Seq<char>, b: Seq<char>, i: int)
    requires
        0 <= i <= a.len(),
        i <= b.len(),
        forall|k: int| 0 <= k < i ==> a[k] == b[k],
    ensures
        lex_le(a, b) == lex_le(a.skip(i), b.skip(i)),
    decreases i,
{
    if i == 0 {
        assert(a.skip(0) =~= a);
        assert(b.skip(0) =~= b);
    } else {
        assert(a.len() > 0 && b.len() > 0 && a[0] == b[0]);
        lemma_lex_le_common_prefix(a.skip(1), b.skip(1), i - 1);
        assert(a.skip(1).skip(i - 1) =~= a.skip(i));
        assert(b.skip(1).skip(i - 1) =~= b.skip(i));
    }
}

/// Equality of string slices, character by character.
pub(crate) fn str_eq(a: &str, b: &str) -> (r: bool)
    ensures
        r == (a@ == b@),
{
    let la = a.unicode_len();
    let lb = b.unicode_len();
    if la != lb {
        return false;
    }
    let r = matches_at(a, b, 0);
    proof {
        assert(a@.subrange(0, 0 + b@.len() as int) =~= a@);
    }
    r
}

/// Lexicographic comparison of string slices, character by
/// character.
pub(crate) fn str_le(a: &str, b: &str) -> (r: bool)
    ensures
        r == lex_le(a@, b@),
{
    let la = a.unicode_len();
    let lb = b.unicode_len();
    let mut i: usize = 0;
    loop
        invariant
            la == a@.len(),
            lb == b@.len(),
            i <= la,
            i <= lb,
            forall|k: int| 0 <= k < i ==> a@[k] == b@[k],
        decreases la - i,
    {
        proof {
            lemma_lex_le_common_prefix(a@, b@, i as int);
        }
        if i == la {
            proof {
                assert(a@.skip(i as int).len() == 0);
            }
            return true;
        }
        if i == lb {
            proof {
                assert(b@.skip(i as int).len() == 0);
                assert(a@.skip(i as int).len() > 0);
            }
            return false;
        }
        let ca = a.get_char(i);
        let cb = b.get_char(i);
        if ca as u32 != cb as u32 {
            proof {
                assert(a@.skip(i as int)[0] == ca);
                assert(b@.skip(i as int)[0] == cb);
                assert(ca != cb);
            }
            return (ca as u32) < (cb as u32);
        }
        proof {
            vstd::utf8::char_u32_cast(ca, ca as u32);
            vstd::utf8::char_u32_cast(cb, cb as u32);
            assert(ca == cb);
        }
        i = i + 1;
    }
}

pub uninterp spec fn lower_of(s: Seq<char>) -> Seq<char>;

/// Relies on str::to_lowercase: the result depends on the characters
/// of the input alone.
#[verifier::external_body]
pub(crate) fn to_lower(s: &str) -> (r: String)
    ensures
        r@ == lower_of(s@),
{
    s.to_lowercase()
}

/// `needle` matches `hay` starting at character position `at`.
fn matches_at(hay: &str, needle: &str, at: usize) -> (r: bool)
    requires
        at + needle@.len() <= hay@.len(),
        hay@.len() <= usize::MAX,
    ensures
        r == (hay@.subrange(at as int, at + needle@.len()) == needle@),
{
    let n = needle.unicode_len();
    let mut j: usize = 0;
    while j < n
        invariant
            n == needle@.len(),
            at + n <= hay@.len(),
            hay@.len() <= usize::MAX,
            j <= n,
            forall|k: int| 0 <= k < j ==> hay@[at + k] == needle@[k],
        decreases n - j,
    {
        if hay.get_char(at + j) != needle.get_char(j) {
            proof {
                let sub = hay@.subrange(at as int, at + needle@.len());
                assert(sub[j as int] == hay@[at + j]);
                assert(sub != needle@);
            }
            return false;
        }
        j = j + 1;
    }
    proof {
        assert(hay@.subrange(at as int, at + needle@.len()) =~= needle@);
    }
    true
}

/// Substring search, character by character.
pub fn str_contains(hay: &str, needle: &str) -> (r: bool)
    ensures
        r == contains_seq(hay@, needle@),
{
    let h = hay.unicode_len();
    let n = needle.unicode_len();
    if n == 0 {
        proof {
            assert(hay@.subrange(0, 0) =~= needle@);
            assert(0 + needle@.len() <= hay@.len() && hay@.subrange(
                0,
                0 + needle@.len() as int,
            ) == needle@);
        }
        return true;
    }
    if n > h {
        proof {
            assert(!contains_seq(hay@, needle@));
        }
        return false;
    }
    let mut i: usize = 0;
    while i <= h - n
        invariant
            h == hay@.len(),
            n == needle@.len(),
            1 <= n <= h,
            i <= h - n + 1,
            forall|k: int|
                0 <= k < i ==> #[trigger] hay@.subrange(k, k + needle@.len()) != needle@,
        decreases h - i,
    {
        if matches_at(hay, needle, i) {
            return true;
        }
        i = i + 1;
    }
    proof {
        assert(forall|k: int|
            0 <= k && k + needle@.len() <= hay@.len() ==> #[trigger] hay@.subrange(
                k,
                k + needle@.len(),
            ) != needle@);
    }
    false
}

/// Case-insensitive substring match: the name matches the pattern
/// exactly when the lowercase form of the name contains the
/// lowercase form of the pattern.
pub fn name_matches(name: &str, pattern: &str) -> (r: bool)
    ensures
        r == contains_seq(lower_of(name@), lower_of(pattern@)),
{
    let n = to_lower(name);
    let p = to_lower(pattern);
    str_contains(n.as_str(), p.as_str())
}

/// `x` occurs among the views of the strings in `s`.
pub open spec fn has_str(s: Seq<String>, x: Seq<char>) -> bool {
    exists|k: int| 0 <= k < s.len() && s[k]@ == x
}

/// The strings are strictly increasing: sorted and duplicate-free.
pub open spec fn sorted_unique(s: Seq<String>) -> bool {
    forall|i: int, j: int| 0 <= i < j < s.len() ==> lex_lt(#[trigger] s[i]@, #[trigger] s[j]@)
}

/// Insert a name into a sorted, duplicate-free list, keeping it so;
/// a name already present is left alone.
#[verifier::rlimit(50)]
pub fn insert_sorted_unique(v: &mut Vec<String>, x: String)
    requires
        sorted_unique(old(v)@),
    ensures
        sorted_unique(final(v)@),
        forall|t: Seq<char>| has_str(final(v)@, t) <==> has_str(old(v)@, t) || t == x@,
{
    let mut i: usize = 0;
    loop
        invariant
            sorted_unique(v@),
            v@ == old(v)@,
            i <= v.len(),
            forall|k: int| 0 <= k < i ==> lex_lt(#[trigger] v@[k]@, x@),
        ensures
            i <= v.len(),
            forall|k: int| 0 <= k < i ==> lex_lt(#[trigger] v@[k]@, x@),
            i < v.len() ==> !lex_le(v@[i as int]@, x@),
        decreases v.len() - i,
    {
        if i == v.len() {
            break;
        }
        if str_eq(v[i].as_str(), x.as_str()) {
            proof {
                assert(has_str(v@, x@));
            }
            return;
        }
        if !str_le(v[i].as_str(), x.as_str()) {
            proof {
                lemma_lex_le_reflexive(x@);
            }
            break;
        }
        i = i + 1;
    }
    proof {
        if i < v@.len() {
            lemma_lex_le_total(v@[i as int]@, x@);
            lemma_lex_le_reflexive(x@);
            assert(lex_le(x@, v@[i as int]@));
            assert(v@[i as int]@ != x@);
        }
    }
    let ghost pre = v@;
    v.insert(i, x);
    proof {
        let iv = i as int;
        pre.insert_ensures(iv, x);
        assert(v@.len() == pre.len() + 1);
        assert(forall|k: int| 0 <= k < iv ==> #[trigger] v@[k] == pre[k]);
        assert(v@[iv] == x);
        assert(forall|k: int| iv < k < v@.len() ==> #[trigger] v@[k] == pre[k - 1]);
        assert forall|p: int, q: int| 0 <= p < q < v@.len() implies lex_lt(
            #[trigger] v@[p]@,
            #[trigger] v@[q]@,
        ) by {
            if p < iv && q == iv {
                assert(v@[p]@ == pre[p]@);
                assert(lex_lt(v@[p]@, x@));
            } else if p == iv && q > iv {
                assert(v@[q]@ == pre[q - 1]@);
                assert(lex_le(x@, pre[iv]@) && pre[iv]@ != x@);
                if q - 1 == iv {
                    assert(lex_lt(x@, pre[iv]@));
                } else {
                    assert(lex_lt(pre[iv]@, pre[q - 1]@));
                    lemma_lex_le_transitive(x@, pre[iv]@, pre[q - 1]@);
                    if x@ == pre[q - 1]@ {
                        lemma_lex_le_antisymmetric(pre[iv]@, pre[q - 1]@);
                        assert(false);
                    }
                }
            } else if p < iv && q > iv {
                assert(v@[p]@ == pre[p]@ && v@[q]@ == pre[q - 1]@);
                assert(lex_lt(pre[p]@, pre[q - 1]@));
            } else if q < iv {
                assert(v@[p]@ == pre[p]@ && v@[q]@ == pre[q]@);
            } else {
                assert(p > iv);
                assert(v@[p]@ == pre[p - 1]@ && v@[q]@ == pre[q - 1]@);
            }
        }
        assert forall|t: Seq<char>| has_str(v@, t) <==> has_str(pre, t) || t == x@ by {
            if has_str(pre, t) {
                let k = choose|k: int| 0 <= k < pre.len() && pre[k]@ == t;
                if k < iv {
                    assert(v@[k]@ == t);
                } else {
                    assert(v@[k + 1]@ == t);
                }
            }
            if t == x@ {
                assert(v@[iv]@ == t);
            }
            if has_str(v@, t) {
                let k = choose|k: int| 0 <= k < v@.len() && v@[k]@ == t;
                if k < iv {
                    assert(pre[k]@ == t);
                } else if k == iv {
                } else {
                    assert(pre[k - 1]@ == t);
                }
            }
        }
    }
}

} // verus!
