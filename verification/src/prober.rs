//! Classifier for toolchain version probes.
//!
//! At startup the host runs every dispatch entry's version-probe
//! command through the platform shell and hands the combined stdout
//! and stderr text here.  A probe whose output admits it could not
//! find the tool marks the language absent; otherwise the first
//! non-blank line, trimmed, is the version banner.

use vstd::prelude::*;
use crate::text::{contains_seq, str_contains};

verus! {

/// Unicode whitespace: the characters with the White_Space
/// property, the same set that str::trim strips.
pub open spec fn is_blank_char(c: char) -> bool {
    ||| 0x09 <= (c as u32) <= 0x0D
    ||| c == ' '
    ||| c == '\u{0085}'
    ||| c == '\u{00A0}'
    ||| c == '\u{1680}'
    ||| 0x2000 <= (c as u32) <= 0x200A
    ||| c == '\u{2028}'
    ||| c == '\u{2029}'
    ||| c == '\u{202F}'
    ||| c == '\u{205F}'
    ||| c == '\u{3000}'
}

/// Every character is blank.
pub open spec fn all_blank(s: Seq<char>) -> bool {
    forall|i: int| 0 <= i < s.len() ==> is_blank_char(#[trigger] s[i])
}

/// The text up to (not including) the first newline.
pub open spec fn first_line(s: Seq<char>) -> Seq<char>
    decreases s.len(),
{
    if s.len() == 0 {
        s
    } else if s[0] == '\n' {
        Seq::empty()
    } else {
        seq![s[0]] + first_line(s.drop_first())
    }
}

/// The text after the first newline; empty when there is none.
pub open spec fn rest_lines(s: Seq<char>) -> Seq<char>
    decreases s.len(),
{
    if s.len() == 0 {
        s
    } else if s[0] == '\n' {
        s.drop_first()
    } else {
        rest_lines(s.drop_first())
    }
}

pub proof fn lemma_rest_lines_shorter(s: Seq<char>)
    requires
        s.len() > 0,
    ensures
        rest_lines(s).len() < s.len(),
    decreases s.len(),
{
    if s[0] != '\n' {
        if s.len() > 1 {
            lemma_rest_lines_shorter(s.drop_first());
        } else {
            assert(rest_lines(s.drop_first()) == s.drop_first());
        }
    }
}

/// Leading blanks removed.
pub open spec fn trim_start_spec(s: Seq<char>) -> Seq<char>
    decreases s.len(),
{
    if s.len() > 0 && is_blank_char(s[0]) {
        trim_start_spec(s.drop_first())
    } else {
        s
    }
}

/// Trailing blanks removed.
pub open spec fn trim_end_spec(s: Seq<char>) -> Seq<char>
    decreases s.len(),
{
    if s.len() > 0 && is_blank_char(s.last()) {
        trim_end_spec(s.drop_last())
    } else {
        s
    }
}

/// Blanks removed from both ends.
pub open spec fn trim_spec(s: Seq<char>) -> Seq<char> {
    trim_end_spec(trim_start_spec(s))
}

/// The version banner of a probe's combined output: the first line
/// that is not all blank, trimmed; nothing when every line is blank.
pub open spec fn banner_spec(s: Seq<char>) -> Option<Seq<char>>
    decreases s.len(),
    via banner_spec_decreases
{
    if all_blank(first_line(s)) {
        if s.len() == 0 {
            None
        } else {
            banner_spec(rest_lines(s))
        }
    } else {
        Some(trim_spec(first_line(s)))
    }
}

#[via_fn]
proof fn banner_spec_decreases(s: Seq<char>) {
    if s.len() > 0 {
        lemma_rest_lines_shorter(s);
    }
}

proof fn lemma_first_line_shape(s: Seq<char>, j: int)
    requires
        0 <= j <= s.len(),
        forall|k: int| 0 <= k < j ==> s[k] != '\n',
        j < s.len() ==> s[j] == '\n',
    ensures
        first_line(s) == s.subrange(0, j),
        rest_lines(s) == if j < s.len() {
            s.skip(j + 1)
        } else {
            Seq::<char>::empty()
        },
    decreases j,
{
    if j == 0 {
        if s.len() == 0 {
            assert(first_line(s) =~= s.subrange(0, 0));
            assert(rest_lines(s) =~= Seq::<char>::empty());
        } else {
            assert(s[0] == '\n');
            assert(first_line(s) =~= s.subrange(0, 0));
            assert(rest_lines(s) =~= s.skip(1));
        }
    } else {
        assert(s.len() > 0 && s[0] != '\n');
        lemma_first_line_shape(s.drop_first(), j - 1);
        assert(first_line(s) =~= s.subrange(0, j)) by {
            assert(first_line(s.drop_first()) == s.drop_first().subrange(0, j - 1));
        }
        if j < s.len() {
            assert(rest_lines(s) == rest_lines(s.drop_first()));
            assert(s.drop_first().skip(j) =~= s.skip(j + 1));
        }
    }
}

proof fn lemma_trim_start_shape(s: Seq<char>, a: int)
    requires
        0 <= a <= s.len(),
        forall|k: int| 0 <= k < a ==> is_blank_char(#[trigger] s[k]),
        a < s.len() ==> !is_blank_char(s[a]),
    ensures
        trim_start_spec(s) == s.skip(a),
    decreases a,
{
    if a == 0 {
        assert(trim_start_spec(s) =~= s.skip(0));
    } else {
        assert(is_blank_char(s[0]));
        lemma_trim_start_shape(s.drop_first(), a - 1);
        assert(s.drop_first().skip(a - 1) =~= s.skip(a));
    }
}

proof fn lemma_trim_end_shape(s: Seq<char>, b: int)
    requires
        0 <= b <= s.len(),
        forall|k: int| b <= k < s.len() ==> is_blank_char(#[trigger] s[k]),
        b > 0 ==> !is_blank_char(s[b - 1]),
    ensures
        trim_end_spec(s) == s.subrange(0, b),
    decreases s.len(),
{
    if b == s.len() {
        assert(trim_end_spec(s) =~= s.subrange(0, b)) by {
            if s.len() > 0 {
                assert(!is_blank_char(s.last()));
            }
        }
    } else {
        assert(is_blank_char(s.last()));
        lemma_trim_end_shape(s.drop_last(), b);
        assert(s.drop_last().subrange(0, b) =~= s.subrange(0, b));
    }
}

/// Executable form of [`is_blank_char`].
fn is_blank(c: char) -> (r: bool)
    ensures
        r == is_blank_char(c),
{
    let u = c as u32;
    (0x09 <= u && u <= 0x0D) || c == ' ' || c == '\u{0085}' || c == '\u{00A0}' || c
        == '\u{1680}' || (0x2000 <= u && u <= 0x200A) || c == '\u{2028}' || c == '\u{2029}' || c
        == '\u{202F}' || c == '\u{205F}' || c == '\u{3000}'
}

/// Classify the combined output of one version probe.  Output that
/// admits the tool is missing (it contains "not found" or "not
/// recognized") yields nothing; otherwise the result is the version
/// banner of [`banner_spec`], when there is one.
pub fn classify_probe_output(combined: &str) -> (r: Option<String>)
    ensures
        (contains_seq(combined@, "not found"@) || contains_seq(combined@, "not recognized"@))
            ==> r is None,
        !(contains_seq(combined@, "not found"@) || contains_seq(combined@, "not recognized"@))
            ==> match r {
            Some(v) => banner_spec(combined@) == Some(v@),
            None => banner_spec(combined@) is None,
        },
{
    if str_contains(combined, "not found") {
        return None;
    }
    if str_contains(combined, "not recognized") {
        return None;
    }
    let len = combined.unicode_len();
    let mut pos: usize = 0;
    proof {
        assert(combined@.skip(0) =~= combined@);
    }
    loop
        invariant
            len == combined@.len(),
            pos <= len,
            !contains_seq(combined@, "not found"@),
            !contains_seq(combined@, "not recognized"@),
            banner_spec(combined@) == banner_spec(combined@.skip(pos as int)),
        decreases len - pos,
    {
        if pos == len {
            proof {
                assert(combined@.skip(pos as int) =~= Seq::<char>::empty());
            }
            return None;
        }
        let ghost tail = combined@.skip(pos as int);
        let mut j: usize = pos;
        loop
            invariant
                len == combined@.len(),
                pos <= j <= len,
                forall|k: int| pos <= k < j ==> combined@[k] != '\n',
            ensures
                pos <= j <= len,
                forall|k: int| pos <= k < j ==> combined@[k] != '\n',
                j < len ==> combined@[j as int] == '\n',
            decreases len - j,
        {
            if j == len {
                break;
            }
            if combined.get_char(j) == '\n' {
                break;
            }
            j = j + 1;
        }
        proof {
            lemma_first_line_shape(tail, j - pos);
            assert(tail.subrange(0, j - pos) =~= combined@.subrange(pos as int, j as int));
        }
        let ghost line = combined@.subrange(pos as int, j as int);
        let mut a: usize = pos;
        loop
            invariant
                len == combined@.len(),
                pos <= a <= j <= len,
                forall|k: int| pos <= k < a ==> is_blank_char(#[trigger] combined@[k]),
            ensures
                pos <= a <= j,
                forall|k: int| pos <= k < a ==> is_blank_char(#[trigger] combined@[k]),
                a < j ==> !is_blank_char(combined@[a as int]),
            decreases j - a,
        {
            if a == j {
                break;
            }
            if !is_blank(combined.get_char(a)) {
                break;
            }
            a = a + 1;
        }
        if a == j {
            proof {
                assert(all_blank(first_line(tail)));
                assert(tail.len() > 0);
                assert(banner_spec(tail) == banner_spec(rest_lines(tail)));
                if j < len {
                    assert(rest_lines(tail) =~= combined@.skip(j + 1));
                } else {
                    assert(rest_lines(tail) =~= Seq::<char>::empty());
                }
            }
            if j == len {
                return None;
            }
            pos = j + 1;
        } else {
            let mut b: usize = j;
            loop
                invariant
                    len == combined@.len(),
                    a <= b <= j <= len,
                    a < j,
                    forall|k: int| b <= k < j ==> is_blank_char(#[trigger] combined@[k]),
                ensures
                    a <= b <= j,
                    forall|k: int| b <= k < j ==> is_blank_char(#[trigger] combined@[k]),
                    b == a || !is_blank_char(combined@[b - 1]),
                decreases b,
            {
                if b == a {
                    break;
                }
                if !is_blank(combined.get_char(b - 1)) {
                    break;
                }
                b = b - 1;
            }
            proof {
                assert(!is_blank_char(combined@[a as int]));
                if b == a {
                    assert(is_blank_char(combined@[a as int]));
                }
                assert(b > a);
            }
            let banner = combined.substring_char(a, b).to_owned();
            proof {
                let av = a - pos;
                let bv = b - pos;
                assert(!all_blank(line)) by {
                    assert(line[av] == combined@[a as int]);
                }
                lemma_trim_start_shape(line, av);
                assert(trim_start_spec(line) == line.skip(av));
                let tailline = line.skip(av);
                assert(tailline.len() == line.len() - av);
                assert forall|k: int| bv - av <= k < tailline.len() implies is_blank_char(
                    #[trigger] tailline[k],
                ) by {
                    assert(tailline[k] == combined@[pos + av + k]);
                }
                assert(bv - av > 0 ==> !is_blank_char(tailline[bv - av - 1])) by {
                    assert(tailline[bv - av - 1] == combined@[b - 1]);
                }
                lemma_trim_end_shape(tailline, bv - av);
                assert(trim_spec(line) == tailline.subrange(0, bv - av));
                assert(tailline.subrange(0, bv - av) =~= combined@.subrange(a as int, b as int));
                assert(banner_spec(tail) == Some(trim_spec(line)));
            }
            return Some(banner);
        }
    }
}

} // verus!
