//! Behavior flags embedded as a textual marker.
//!
//! A builtin declaration can opt into non-default rendering by carrying, in a
//! designated node of its declaration, a marker of the exact shape
//! `builtin_flags(` followed by sixteen `0`/`1` characters and `)`. The
//! sixteen characters are read as a binary number, leftmost character most
//! significant. A missing or malformed marker decodes to 0.

use vstd::prelude::*;

verus! {

/// The decoded 16-bit flag set of one declaration. All sixteen bits are kept
/// as decoded, including the currently unused ones.
#[derive(Clone, Copy, Debug, PartialEq, Eq, Structural)]
pub struct BuiltinFlags {
    pub bits: u16,
}

impl BuiltinFlags {
    /// Render as an operator-like call: no trailing terminator, the final
    /// cursor sits after the call behind a space.
    pub const IS_OPERATOR: u16 = 1;

    /// Snippets omit parameter names and emit bare placeholder values only.
    pub const IGNORE_PARAM_NAME: u16 = 1 << 1;

    pub open spec fn spec_is_operator(self) -> bool {
        self.bits & BuiltinFlags::IS_OPERATOR != 0
    }

    pub open spec fn spec_ignores_param_name(self) -> bool {
        self.bits & BuiltinFlags::IGNORE_PARAM_NAME != 0
    }

    /// Whether the operator-rendering bit is set.
    #[verifier::when_used_as_spec(spec_is_operator)]
    pub fn is_operator(self) -> (r: bool)
        ensures
            r == self.spec_is_operator(),
    {
        self.bits & BuiltinFlags::IS_OPERATOR != 0
    }

    /// Whether the name-hiding bit is set.
    #[verifier::when_used_as_spec(spec_ignores_param_name)]
    pub fn ignores_param_name(self) -> (r: bool)
        ensures
            r == self.spec_ignores_param_name(),
    {
        self.bits & BuiltinFlags::IGNORE_PARAM_NAME != 0
    }
}

/// The marker text starts at position `i` of `s`: the fixed prefix
/// `builtin_flags(`, then sixteen binary digit characters, then `)`.
pub open spec fn marker_at(s: Seq<char>, i: int) -> bool {
    &&& 0 <= i
    &&& i + 31 <= s.len()
    &&& (forall|k: int| 0 <= k < 14 ==> s[i + k] == "builtin_flags("@[k])
    &&& (forall|j: int| i + 14 <= j < i + 30 ==> s[j] == '0' || s[j] == '1')
    &&& s[i + 30] == ')'
}

/// Some well-formed marker occurs in `s`.
pub open spec fn has_marker(s: Seq<char>) -> bool {
    exists|i: int| marker_at(s, i)
}

/// The marker at `i` is the leftmost one in `s`.
pub open spec fn first_marker_at(s: Seq<char>, i: int) -> bool {
    &&& marker_at(s, i)
    &&& forall|j: int| 0 <= j < i ==> !marker_at(s, j)
}

/// The position of the leftmost marker of `s` (meaningful only when
/// `has_marker(s)` holds).
pub open spec fn marker_pos(s: Seq<char>) -> int {
    choose|i: int| first_marker_at(s, i)
}

/// The value of a sequence of binary digit characters, leftmost character
/// most significant.
pub open spec fn bin_val(bits: Seq<char>) -> nat
    decreases bits.len(),
{
    if bits.len() == 0 {
        0
    } else {
        2 * bin_val(bits.drop_last()) + (if bits.last() == '1' {
            1nat
        } else {
            0nat
        })
    }
}

/// 2 to the power `e`.
pub open spec fn pow2(e: nat) -> nat
    decreases e,
{
    if e == 0 {
        1
    } else {
        2 * pow2((e - 1) as nat)
    }
}

/// A sequence of binary digits is worth less than 2 to its length.
pub proof fn lemma_bin_val_bound(bits: Seq<char>)
    ensures
        bin_val(bits) < pow2(bits.len()),
    decreases bits.len(),
{
    if bits.len() > 0 {
        lemma_bin_val_bound(bits.drop_last());
    }
}

/// What the flag decoder yields on text `s`: the value of the sixteen digits
/// of the leftmost marker, or 0 when no marker occurs.
pub open spec fn flags_value(s: Seq<char>) -> nat {
    if has_marker(s) {
        bin_val(s.subrange(marker_pos(s) + 14, marker_pos(s) + 30))
    } else {
        0
    }
}

/// Two leftmost markers are the same marker.
pub proof fn lemma_first_marker_unique(s: Seq<char>, i: int, j: int)
    requires
        first_marker_at(s, i),
        first_marker_at(s, j),
    ensures
        i == j,
{
    if i < j {
        assert(!marker_at(s, i));
    }
    if j < i {
        assert(!marker_at(s, j));
    }
}

/// A marker with nothing to its left decides the decoded value: the sixteen
/// digits that follow its prefix are read as a binary number.
pub proof fn lemma_flags_value_embedded(s: Seq<char>, i: int)
    requires
        first_marker_at(s, i),
    ensures
        flags_value(s) == bin_val(s.subrange(i + 14, i + 30)),
{
    assert(has_marker(s));
    assert(first_marker_at(s, marker_pos(s)));
    lemma_first_marker_unique(s, i, marker_pos(s));
}

/// Text without a well-formed marker — absent, wrong digit count, or digits
/// outside `0`/`1` — decodes to 0.
pub proof fn lemma_flags_value_absent(s: Seq<char>)
    requires
        !has_marker(s),
    ensures
        flags_value(s) == 0,
{
}

/// Whether the marker text starts at character position `i` of `text`.
fn marker_check(text: &str, len: usize, i: usize) -> (r: bool)
    requires
        len == text@.len(),
        i + 31 <= len,
    ensures
        r == marker_at(text@, i as int),
{
    let pat = "builtin_flags(";
    proof {
        reveal_strlit("builtin_flags(");
    }
    for k in 0..14usize
        invariant
            len == text@.len(),
            i + 31 <= len,
            pat@ =~= "builtin_flags("@,
            pat@.len() == 14,
            forall|k2: int| 0 <= k2 < k ==> text@[i + k2] == "builtin_flags("@[k2],
    {
        if text.get_char(i + k) != pat.get_char(k) {
            return false;
        }
    }
    for k in 14..30usize
        invariant
            len == text@.len(),
            i + 31 <= len,
            forall|k2: int| 0 <= k2 < 14 ==> text@[i + k2] == "builtin_flags("@[k2],
            forall|j: int| i + 14 <= j < i + k ==> text@[j] == '0' || text@[j] == '1',
    {
        let c = text.get_char(i + k);
        if c != '0' && c != '1' {
            return false;
        }
    }
    text.get_char(i + 30) == ')'
}

/// Reads the sixteen digit characters of the marker at `i` as a binary
/// number, leftmost character most significant.
fn read_bits(text: &str, len: usize, i: usize) -> (v: u16)
    requires
        len == text@.len(),
        i + 31 <= len,
        marker_at(text@, i as int),
    ensures
        v == bin_val(text@.subrange(i + 14, i + 30)),
{
    let mut v: u16 = 0;
    for k in 0..16usize
        invariant
            len == text@.len(),
            i + 31 <= len,
            marker_at(text@, i as int),
            v == bin_val(text@.subrange(i + 14, i + 14 + k)),
            v < pow2(k as nat),
    {
        let c = text.get_char(i + 14 + k);
        proof {
            lemma_bin_val_bound(text@.subrange(i + 14, i + 14 + k));
            reveal_with_fuel(pow2, 17);
            assert(pow2(16) == 65536);
            assert(pow2(k as nat) <= pow2(15)) by {
                lemma_pow2_le(k as nat, 15);
            }
            assert(pow2(15) == 32768);
            assert(text@.subrange(i + 14, i + 14 + (k + 1)).drop_last() =~= text@.subrange(
                i + 14,
                i + 14 + k,
            ));
            assert(text@.subrange(i + 14, i + 14 + (k + 1)).last() == text@[i + 14 + k]);
        }
        v = 2 * v + (if c == '1' {
            1
        } else {
            0
        });
    }
    proof {
        assert(text@.subrange(i + 14, i + 14 + 16) =~= text@.subrange(i + 14, i + 30));
    }
    v
}

/// `pow2` grows with its exponent.
proof fn lemma_pow2_le(a: nat, b: nat)
    requires
        a <= b,
    ensures
        pow2(a) <= pow2(b),
    decreases b,
{
    if a < b {
        lemma_pow2_le(a, (b - 1) as nat);
    }
}

/// Decodes the behavior flags embedded in `text`: the binary value of the
/// sixteen digits of the leftmost well-formed marker, or 0 when the marker is
/// absent or malformed.
pub fn decode_flags(text: &str) -> (f: BuiltinFlags)
    ensures
        f.bits == flags_value(text@),
{
    let len = text.unicode_len();
    if len < 31 {
        proof {
            assert(forall|i: int| !marker_at(text@, i));
        }
        return BuiltinFlags { bits: 0 };
    }
    let end = len - 31;
    let mut i: usize = 0;
    while i <= end
        invariant
            len == text@.len(),
            31 <= len,
            end == len - 31,
            i <= end + 1,
            forall|j: int| 0 <= j < i ==> !marker_at(text@, j),
        decreases end + 1 - i,
    {
        if marker_check(text, len, i) {
            let v = read_bits(text, len, i);
            proof {
                assert(first_marker_at(text@, i as int));
                lemma_flags_value_embedded(text@, i as int);
            }
            return BuiltinFlags { bits: v };
        }
        i += 1;
    }
    proof {
        assert(forall|j: int| j > end ==> !marker_at(text@, j));
        assert(!has_marker(text@));
    }
    BuiltinFlags { bits: 0 }
}

} // verus!
