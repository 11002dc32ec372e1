//! What is wrong with a text that spells no identifier: a single scan from
//! the left that reports the first place at which the text leaves the
//! grammar.
//!
//! Groups are counted from zero. A group's fault names that group, the number
//! of digits read in it so far, and the number of digits its place demands.

use vstd::prelude::*;
use crate::hex::{hex_digit, is_hex, lemma_hex_value_range, NOT_HEX};
use crate::parser::{accepted, body, body_offset, digit_pos, is_hyphenated, is_simple, urn_prefix, HYPHEN};

verus! {

/// The first place at which a text leaves the grammar, by position alone.
#[derive(Clone, Copy, Debug, PartialEq, Eq, Structural, Hash)]
pub enum Fault {
    /// The text has a length, or a wrapping, of no spelling.
    Length {
        /// The length of the whole text.
        found: usize,
    },
    /// The byte at `index` of the whole text is neither digit nor hyphen.
    Character {
        /// The offset of the byte.
        index: usize,
    },
    /// Thirty-two digits were read while a group other than the last was open.
    GroupCount {
        /// The number of groups begun.
        found: usize,
    },
    /// A group ended, by a hyphen or by the end of the text, with the wrong
    /// number of digits.
    GroupLength {
        /// The group, counted from zero.
        group: usize,
        /// The number of digits read in it.
        found: usize,
        /// The number of digits it must hold.
        expected: usize,
    },
}

/// How many digits come before group `g`.
pub open spec fn group_start(g: int) -> int {
    if g <= 0 {
        0
    } else if g == 1 {
        8
    } else if g == 2 {
        12
    } else if g == 3 {
        16
    } else {
        20
    }
}

/// How many digits group `g` holds.
pub open spec fn group_len(g: int) -> int {
    if g <= 0 {
        8
    } else if g <= 3 {
        4
    } else {
        12
    }
}

/// How many hyphens stand among the first `i` bytes of `s`.
pub open spec fn hyphens_before(s: Seq<u8>, i: int) -> int
    decreases i,
{
    if i <= 0 {
        0
    } else {
        hyphens_before(s, i - 1) + (if s[i - 1] == HYPHEN {
            1int
        } else {
            0
        })
    }
}

/// What the scan reports on reaching byte `i` of the body `s`, if the bytes
/// before it were all digits and hyphens: nothing where the byte is a digit,
/// or a hyphen that closes a full group. `off` is the length of the wrapping
/// before `s`, `len` the length of the whole text.
pub open spec fn fault_at(s: Seq<u8>, i: int, off: int, len: int) -> Option<Fault> {
    let g = hyphens_before(s, i);
    let d = i - g;
    if d >= 32 && g != 4 {
        if g == 0 {
            Some(Fault::Length { found: len as usize })
        } else {
            Some(Fault::GroupCount { found: (g + 1) as usize })
        }
    } else if is_hex(s[i]) {
        None
    } else if s[i] == HYPHEN {
        if d == group_start(g) + group_len(g) {
            None
        } else {
            Some(
                Fault::GroupLength {
                    group: g as usize,
                    found: (d - group_start(g)) as usize,
                    expected: group_len(g) as usize,
                },
            )
        }
    } else {
        Some(Fault::Character { index: (i + off) as usize })
    }
}

/// The first report of the scan at or after byte `i`.
pub open spec fn first_fault(s: Seq<u8>, i: int, off: int, len: int) -> Option<Fault>
    decreases s.len() - i,
{
    if i < 0 || i >= s.len() {
        None
    } else if fault_at(s, i, off, len) is Some {
        fault_at(s, i, off, len)
    } else {
        first_fault(s, i + 1, off, len)
    }
}

/// What the scan reports at the end of a body that it read through: the
/// group left open, with the digits read in it.
pub open spec fn closing_fault(s: Seq<u8>) -> Fault {
    let g = hyphens_before(s, s.len() as int);
    let d = s.len() - g;
    Fault::GroupLength {
        group: g as usize,
        found: (d - group_start(g)) as usize,
        expected: group_len(g) as usize,
    }
}

/// The fault of a text that spells no identifier.
pub open spec fn diagnosis(t: Seq<u8>) -> Fault {
    match body_offset(t) {
        None => Fault::Length { found: t.len() as usize },
        Some(off) => match first_fault(body(t), 0, off, t.len() as int) {
            Some(f) => f,
            None => closing_fault(body(t)),
        },
    }
}

fn digits_before_group(g: usize) -> (r: usize)
    ensures
        r == group_start(g as int),
{
    if g == 0 {
        0
    } else if g == 1 {
        8
    } else if g == 2 {
        12
    } else if g == 3 {
        16
    } else {
        20
    }
}

fn digits_in_group(g: usize) -> (r: usize)
    ensures
        r == group_len(g as int),
{
    if g == 0 {
        8
    } else if g <= 3 {
        4
    } else {
        12
    }
}

/// Whether `t` begins with `urn:uuid:`.
pub fn has_urn_prefix(t: &[u8]) -> (r: bool)
    ensures
        r == (t@.len() >= 9 && t@.subrange(0, 9) == urn_prefix()),
{
    if t.len() < 9 {
        return false;
    }
    let r = t[0] == 0x75 && t[1] == 0x72 && t[2] == 0x6e && t[3] == 0x3a && t[4] == 0x75 && t[5]
        == 0x75 && t[6] == 0x69 && t[7] == 0x64 && t[8] == 0x3a;
    proof {
        let p = t@.subrange(0, 9);
        if r {
            assert(p =~= urn_prefix());
        } else {
            assert(p[0] == t@[0] && p[1] == t@[1] && p[2] == t@[2] && p[3] == t@[3] && p[4]
                == t@[4] && p[5] == t@[5] && p[6] == t@[6] && p[7] == t@[7] && p[8] == t@[8]);
        }
    }
    r
}

/// The length of the wrapping before the digits of `t`, if `t` has the
/// length and wrapping of a spelling.
pub fn wrapping_of(t: &[u8]) -> (r: Option<usize>)
    ensures
        r is Some <==> body_offset(t@) is Some,
        r matches Some(off) ==> off == body_offset(t@).unwrap(),
{
    let len = t.len();
    if len == 32 || len == 36 {
        Some(0)
    } else if len == 38 && t[0] == 0x7b && t[37] == 0x7d {
        Some(1)
    } else if len == 45 && has_urn_prefix(t) {
        Some(9)
    } else {
        None
    }
}

/// Scans `t` from the left and reports the first fault.
///
/// A reported character lies inside the text, after bytes that are all ASCII.
pub fn diagnose(t: &[u8]) -> (f: Fault)
    ensures
        f == diagnosis(t@),
        f matches Fault::Character { index } ==> index < t@.len() && forall|k: int|
            0 <= k < index ==> #[trigger] t@[k] < 0x80,
{
    let len = t.len();
    let off: usize = match wrapping_of(t) {
        Some(off) => off,
        None => {
            return Fault::Length { found: len };
        },
    };
    let n: usize = if len == 32 {
        32
    } else {
        36
    };
    let ghost s = body(t@);
    assert(s.len() == n);
    assert(forall|k: int| 0 <= k < n ==> s[k] == t@[k + off]);
    assert(forall|k: int| 0 <= k < off ==> #[trigger] t@[k] < 0x80) by {
        if off == 9 {
            let p = t@.subrange(0, 9);
            assert(forall|k: int| 0 <= k < 9 ==> p[k] == t@[k]);
        }
    }
    let mut i: usize = 0;
    let mut digit: usize = 0;
    let mut group: usize = 0;
    while i < n
        invariant
            i <= n,
            n == s.len(),
            s == body(t@),
            body_offset(t@) == Some(off as int),
            n == 32 || n == 36,
            off + n <= t@.len(),
            len == t@.len(),
            off <= 9,
            forall|k: int| 0 <= k < n ==> s[k] == t@[k + off],
            forall|k: int| 0 <= k < off + i ==> #[trigger] t@[k] < 0x80,
            first_fault(s, 0, off as int, len as int) == first_fault(s, i as int, off as int, len as int),
            group == hyphens_before(s, i as int),
            digit + group == i,
            group <= 4,
            group_start(group as int) <= digit,
        decreases n - i,
    {
        let chr: u8 = t[off + i];
        assert(chr == s[i as int]);
        if digit >= 32 && group != 4 {
            if group == 0 {
                return Fault::Length { found: len };
            }
            return Fault::GroupCount { found: group + 1 };
        }
        let v: u8 = hex_digit(chr);
        proof {
            lemma_hex_value_range(chr);
        }
        if v == NOT_HEX {
            if chr == HYPHEN {
                let start: usize = digits_before_group(group);
                let width: usize = digits_in_group(group);
                if digit != start + width {
                    return Fault::GroupLength { group, found: digit - start, expected: width };
                }
                group += 1;
            } else {
                return Fault::Character { index: i + off };
            }
        } else {
            digit += 1;
        }
        i += 1;
    }
    let start: usize = digits_before_group(group);
    Fault::GroupLength { group, found: digit - start, expected: digits_in_group(group) }
}

/// Whether the scan reads the whole of `t` without a report and finds
/// thirty-two digits.
pub open spec fn scan_clean(t: Seq<u8>) -> bool {
    match body_offset(t) {
        None => false,
        Some(off) => {
            let s = body(t);
            first_fault(s, 0, off, t.len() as int) is None && s.len() - hyphens_before(
                s,
                s.len() as int,
            ) == 32
        },
    }
}

/// The scan reports nothing from `i` on exactly when it has nothing to
/// report at any place from `i` on.
pub proof fn lemma_no_fault_from(s: Seq<u8>, i: int, off: int, len: int)
    requires
        0 <= i,
    ensures
        first_fault(s, i, off, len) is None <==> forall|k: int|
            i <= k < s.len() ==> (#[trigger] fault_at(s, k, off, len)) is None,
    decreases s.len() - i,
{
    if i < s.len() {
        lemma_no_fault_from(s, i + 1, off, len);
    }
}

/// Where the hyphens of a text stand, if `g` of them stand in their
/// places: at 8, 13, 18 and 23.
pub open spec fn hyphen_among(k: int, g: int) -> bool {
    (k == 8 && g > 0) || (k == 13 && g > 1) || (k == 18 && g > 2) || (k == 23 && g > 3)
}

proof fn lemma_scan_state(s: Seq<u8>, i: int, off: int, len: int)
    requires
        s.len() == 32 || s.len() == 36,
        0 <= i <= s.len(),
        forall|k: int| 0 <= k < i ==> (#[trigger] fault_at(s, k, off, len)) is None,
    ensures
        0 <= hyphens_before(s, i) <= 4,
        hyphens_before(s, i) > 0 ==> 8 < i,
        hyphens_before(s, i) > 1 ==> 13 < i,
        hyphens_before(s, i) > 2 ==> 18 < i,
        hyphens_before(s, i) > 3 ==> 23 < i,
        forall|k: int|
            0 <= k < i ==> (#[trigger] s[k] == HYPHEN) == hyphen_among(k, hyphens_before(s, i)),
        forall|k: int| 0 <= k < i && s[k] != HYPHEN ==> is_hex(#[trigger] s[k]),
    decreases i,
{
    if i > 0 {
        lemma_scan_state(s, i - 1, off, len);
        let g = hyphens_before(s, i - 1);
        assert(fault_at(s, i - 1, off, len) is None);
        if s[i - 1] == HYPHEN {
            assert(!is_hex(s[i - 1]));
            assert(i - 1 - g == group_start(g) + group_len(g));
        }
        assert forall|k: int| 0 <= k < i implies (#[trigger] s[k] == HYPHEN) == hyphen_among(
            k,
            hyphens_before(s, i),
        ) by {
            if k < i - 1 {
                assert((s[k] == HYPHEN) == hyphen_among(k, g));
            }
        }
    }
}

proof fn lemma_accepted_state(s: Seq<u8>, i: int)
    requires
        is_simple(s) || is_hyphenated(s),
        0 <= i <= s.len(),
    ensures
        is_simple(s) ==> hyphens_before(s, i) == 0,
        is_hyphenated(s) ==> hyphens_before(s, i) == (if i > 8 {
            1int
        } else {
            0
        }) + (if i > 13 {
            1int
        } else {
            0
        }) + (if i > 18 {
            1int
        } else {
            0
        }) + (if i > 23 {
            1int
        } else {
            0
        }),
        forall|k: int|
            0 <= k < i && !(is_hyphenated(s) && (k == 8 || k == 13 || k == 18 || k == 23))
                ==> is_hex(#[trigger] s[k]),
    decreases i,
{
    if i > 0 {
        lemma_accepted_state(s, i - 1);
        let k = i - 1;
        if is_hyphenated(s) && !(k == 8 || k == 13 || k == 18 || k == 23) {
            let j = if k < 8 {
                k / 2
            } else if k < 13 {
                (k - 1) / 2
            } else if k < 18 {
                (k - 2) / 2
            } else if k < 23 {
                (k - 3) / 2
            } else {
                (k - 4) / 2
            };
            assert(0 <= j < 16);
            assert(k == digit_pos(j) || k == digit_pos(j) + 1);
            assert(is_hex(s[digit_pos(j)]) && is_hex(s[digit_pos(j) + 1]));
        }
    }
}

/// The scan and the grammar agree: a text is one of the four spellings
/// exactly when the scan reads it through without a report and finds
/// thirty-two digits. So a rejected text has a fault to report, and a
/// reported group does not hold as many digits as its place demands.
pub proof fn lemma_accepted_iff_clean(t: Seq<u8>)
    ensures
        accepted(t) is Some <==> scan_clean(t),
        accepted(t) is None ==> (diagnosis(t) matches Fault::GroupLength { found, expected, .. }
            ==> found != expected),
{
    if body_offset(t) is Some {
        let off = body_offset(t).unwrap();
        let s = body(t);
        let len = t.len() as int;
        let n = s.len() as int;
        lemma_no_fault_from(s, 0, off, len);
        if accepted(t) is Some {
            assert(is_simple(s) || is_hyphenated(s)) by {
                if t.len() == 32 {
                    assert(s =~= t);
                }
            }
            lemma_accepted_state(s, n);
            assert forall|k: int| 0 <= k < n implies (#[trigger] fault_at(s, k, off, len))
                is None by {
                lemma_accepted_state(s, k);
                lemma_accepted_state(s, k + 1);
            }
        }
        if first_fault(s, 0, off, len) is None {
            lemma_scan_state(s, n, off, len);
            if n - hyphens_before(s, n) == 32 {
                if n == 32 {
                    assert(s =~= t);
                    assert forall|i: int| 0 <= i < 32 implies is_hex(#[trigger] s[i]) by {
                        assert((s[i] == HYPHEN) == hyphen_among(i, 0));
                    }
                    assert(is_simple(t));
                } else {
                    assert(hyphens_before(s, n) == 4);
                    assert((s[8] == HYPHEN) == hyphen_among(8, 4));
                    assert((s[13] == HYPHEN) == hyphen_among(13, 4));
                    assert((s[18] == HYPHEN) == hyphen_among(18, 4));
                    assert((s[23] == HYPHEN) == hyphen_among(23, 4));
                    assert forall|j: int| 0 <= j < 16 implies is_hex(#[trigger] s[digit_pos(j)])
                        && is_hex(s[digit_pos(j) + 1]) by {
                        let p = digit_pos(j);
                        assert((s[p] == HYPHEN) == hyphen_among(p, 4));
                        assert((s[p + 1] == HYPHEN) == hyphen_among(p + 1, 4));
                    }
                    assert(is_hyphenated(s));
                }
            }
            if n - hyphens_before(s, n) != 32 {
                let g = hyphens_before(s, n);
                if n == 36 {
                    let p = 32 + g;
                    lemma_scan_state(s, p, off, len);
                    lemma_no_hyphens_between(s, p, n);
                    assert(fault_at(s, p, off, len) is Some);
                }
            }
        } else {
            lemma_first_fault_genuine(s, 0, off, len);
        }
    }
}

proof fn lemma_no_hyphens_between(s: Seq<u8>, i: int, j: int)
    requires
        0 <= i <= j,
        forall|k: int| i <= k < j ==> #[trigger] s[k] != HYPHEN,
    ensures
        hyphens_before(s, j) == hyphens_before(s, i),
    decreases j - i,
{
    if i < j {
        lemma_no_hyphens_between(s, i, j - 1);
    }
}

proof fn lemma_first_fault_genuine(s: Seq<u8>, i: int, off: int, len: int)
    requires
        s.len() == 32 || s.len() == 36,
        0 <= i <= s.len(),
        forall|k: int| 0 <= k < i ==> (#[trigger] fault_at(s, k, off, len)) is None,
        first_fault(s, i, off, len) is Some,
    ensures
        first_fault(s, i, off, len) matches Some(Fault::GroupLength { found, expected, .. })
            ==> found != expected,
    decreases s.len() - i,
{
    if i < s.len() {
        if fault_at(s, i, off, len) is Some {
            lemma_scan_state(s, i, off, len);
        } else {
            lemma_first_fault_genuine(s, i + 1, off, len);
        }
    }
}

} // verus!
