//! Arbiter identifiers: random version-4 UUIDs, held as their 128-bit value.

use vstd::prelude::*;
use vstd::arithmetic::div_mod::{
    lemma_basic_div, lemma_div_denominator, lemma_fundamental_div_mod, lemma_mod_bound,
};
use vstd::arithmetic::power::{lemma_pow0, lemma_pow1, lemma_pow_adds, lemma_pow_positive, pow};

verus! {

/// Bits of a UUID value that carry the version (one hex digit) and the
/// variant (two bits).
pub const VERSION_VARIANT_MASK: u128 = 0x0000_0000_0000_f000_c000_0000_0000_0000;

/// What those bits hold in a random (version 4), RFC 4122 variant UUID.
pub const RANDOM_V4_BITS: u128 = 0x0000_0000_0000_4000_8000_0000_0000_0000;

/// The lower-case hexadecimal digit for `d`, where `0 <= d < 16`.
pub open spec fn hex_digit(d: int) -> char {
    seq!['0', '1', '2', '3', '4', '5', '6', '7', '8', '9', 'a', 'b', 'c', 'd', 'e', 'f'][d]
}

/// The `i`-th hexadecimal digit of `v`, counted from the most significant
/// of its 32 digits.
pub open spec fn nibble(v: u128, i: int) -> int {
    (v as int / pow(16, (31 - i) as nat)) % 16
}

/// The "simple" text of a UUID value: its 32 lower-case hexadecimal digits,
/// most significant first, zero padded.
pub open spec fn simple_text(v: u128) -> Seq<char> {
    Seq::new(32, |i: int| hex_digit(nibble(v, i)))
}

/// The "hyphenated" text of a UUID value: the simple text in groups of
/// 8, 4, 4, 4 and 12 digits, joined by `-`.
pub open spec fn hyphenated_text(v: u128) -> Seq<char> {
    let s = simple_text(v);
    s.subrange(0, 8) + seq!['-'] + s.subrange(8, 12) + seq!['-'] + s.subrange(12, 16) + seq!['-']
        + s.subrange(16, 20) + seq!['-'] + s.subrange(20, 32)
}

/// Whether `v` has the version and variant bits of a random UUID.
pub open spec fn is_random_v4(v: u128) -> bool {
    v & VERSION_VARIANT_MASK == RANDOM_V4_BITS
}

/// Calls `uuid::Uuid::new_v4` and takes the value out with `Uuid::as_u128`.
///
/// Trusted: the result is random apart from the version and variant bits,
/// which `new_v4` forces to "4" and "10". The call panics if the operating
/// system cannot supply random bytes.
#[verifier::external_body]
fn uuid_new_v4() -> (v: u128)
    ensures
        is_random_v4(v),
{
    uuid::Uuid::new_v4().as_u128()
}

/// Calls `uuid::Uuid::simple` on the UUID with value `v` and renders it.
///
/// Trusted: the rendering is the 32 lower-case hexadecimal digits of `v`.
#[verifier::external_body]
fn uuid_simple(v: u128) -> (s: String)
    ensures
        s@ == simple_text(v),
{
    uuid::Uuid::from_u128(v).simple().to_string()
}

/// Calls `uuid::Uuid::hyphenated` on the UUID with value `v` and renders it.
///
/// Trusted: the rendering is the digits of `v` in the 8-4-4-4-12 grouping.
#[verifier::external_body]
fn uuid_hyphenated(v: u128) -> (s: String)
    ensures
        s@ == hyphenated_text(v),
{
    uuid::Uuid::from_u128(v).hyphenated().to_string()
}

/// The identifier of an arbiter.
#[derive(Clone, Copy, PartialEq, Eq, Structural, Debug)]
pub struct ArbiterId {
    value: u128,
}

impl View for ArbiterId {
    type V = u128;

    closed spec fn view(&self) -> u128 {
        self.value
    }
}

impl ArbiterId {
    /// The identifier with the given 128-bit value.
    pub fn from_u128(value: u128) -> (id: ArbiterId)
        ensures
            id@ == value,
    {
        ArbiterId { value }
    }

    /// The 128-bit value of this identifier.
    pub fn as_u128(&self) -> (value: u128)
        ensures
            value == self@,
    {
        self.value
    }

    /// A fresh random identifier.
    pub fn generate() -> (id: ArbiterId)
        ensures
            is_random_v4(id@),
    {
        ArbiterId { value: uuid_new_v4() }
    }

    /// The key under which the arbiter is registered with the system: the
    /// 32 hexadecimal digits of the identifier.
    pub fn simple(&self) -> (s: String)
        ensures
            s@ == simple_text(self@),
    {
        uuid_simple(self.value)
    }

    /// The identifier in the usual 8-4-4-4-12 grouping.
    pub fn hyphenated(&self) -> (s: String)
        ensures
            s@ == hyphenated_text(self@),
    {
        uuid_hyphenated(self.value)
    }

    /// Whether two identifiers are the same.
    pub fn same(&self, other: &ArbiterId) -> (b: bool)
        ensures
            b == (self@ == other@),
            b == (*self == *other),
    {
        self.value == other.value
    }
}

/// The number that the first `k` hexadecimal digits of `v` spell.
spec fn leading(v: u128, k: nat) -> int {
    v as int / pow(16, (32 - k) as nat)
}

proof fn lemma_hex_digit_injective(x: int, y: int)
    requires
        0 <= x < 16,
        0 <= y < 16,
        hex_digit(x) == hex_digit(y),
    ensures
        x == y,
{
}

proof fn lemma_sixteen_to_the_32()
    ensures
        pow(16, 32) == 0x1_0000_0000_0000_0000_0000_0000_0000_0000int,
{
    let x1 = pow(16, 1);
    let x2 = pow(16, 2);
    let x4 = pow(16, 4);
    let x8 = pow(16, 8);
    let x16 = pow(16, 16);
    let x32 = pow(16, 32);
    lemma_pow1(16);
    lemma_pow_adds(16, 1, 1);
    lemma_pow_adds(16, 2, 2);
    lemma_pow_adds(16, 4, 4);
    lemma_pow_adds(16, 8, 8);
    lemma_pow_adds(16, 16, 16);
    assert(x2 == 0x100) by (nonlinear_arith)
        requires
            x2 == x1 * x1,
            x1 == 16,
    ;
    assert(x4 == 0x1_0000) by (nonlinear_arith)
        requires
            x4 == x2 * x2,
            x2 == 0x100,
    ;
    assert(x8 == 0x1_0000_0000) by (nonlinear_arith)
        requires
            x8 == x4 * x4,
            x4 == 0x1_0000,
    ;
    assert(x16 == 0x1_0000_0000_0000_0000) by (nonlinear_arith)
        requires
            x16 == x8 * x8,
            x8 == 0x1_0000_0000,
    ;
    assert(x32 == 0x1_0000_0000_0000_0000_0000_0000_0000_0000) by (nonlinear_arith)
        requires
            x32 == x16 * x16,
            x16 == 0x1_0000_0000_0000_0000,
    ;
}

proof fn lemma_leading_step(v: u128, k: nat)
    requires
        k < 32,
    ensures
        leading(v, k + 1) == 16 * leading(v, k) + nibble(v, k as int),
        0 <= nibble(v, k as int) < 16,
{
    let e = (31 - k) as nat;
    let p = pow(16, e);
    lemma_pow_positive(16, e);
    let x = v as int / p;
    lemma_fundamental_div_mod(x, 16);
    lemma_div_denominator(v as int, p, 16);
    lemma_pow_adds(16, e, 1);
    lemma_pow1(16);
    lemma_mod_bound(x, 16);
    assert((32 - (k + 1)) as nat == e);
    assert((32 - k) as nat == e + 1);
}

proof fn lemma_digits_fix_leading(a: u128, b: u128, k: nat)
    requires
        k <= 32,
        forall|i: int| 0 <= i < k ==> nibble(a, i) == nibble(b, i),
    ensures
        leading(a, k) == leading(b, k),
    decreases k,
{
    if k == 0 {
        lemma_sixteen_to_the_32();
        lemma_basic_div(a as int, pow(16, 32));
        lemma_basic_div(b as int, pow(16, 32));
    } else {
        let j = (k - 1) as nat;
        lemma_digits_fix_leading(a, b, j);
        lemma_leading_step(a, j);
        lemma_leading_step(b, j);
        assert(nibble(a, j as int) == nibble(b, j as int));
    }
}

/// The simple text identifies the value: two values with the same 32
/// digits are the same value.
pub proof fn lemma_simple_text_identifies(a: u128, b: u128)
    requires
        simple_text(a) == simple_text(b),
    ensures
        a == b,
{
    assert forall|i: int| 0 <= i < 32 implies nibble(a, i) == nibble(b, i) by {
        lemma_leading_step(a, i as nat);
        lemma_leading_step(b, i as nat);
        assert(simple_text(a)[i] == hex_digit(nibble(a, i)));
        assert(simple_text(b)[i] == hex_digit(nibble(b, i)));
        lemma_hex_digit_injective(nibble(a, i), nibble(b, i));
    }
    lemma_digits_fix_leading(a, b, 32);
    lemma_pow0(16);
}

/// Arbiters with different identifiers register under different keys.
pub proof fn lemma_keys_differ(a: ArbiterId, b: ArbiterId)
    requires
        a != b,
    ensures
        simple_text(a@) != simple_text(b@),
{
    if simple_text(a@) == simple_text(b@) {
        lemma_simple_text_identifies(a@, b@);
    }
}

/// The hyphenated text identifies the value as well: it holds the digits of
/// the simple text at fixed places.
pub proof fn lemma_hyphenated_text_identifies(a: u128, b: u128)
    requires
        hyphenated_text(a) == hyphenated_text(b),
    ensures
        a == b,
{
    let ha = hyphenated_text(a);
    let hb = hyphenated_text(b);
    let sa = simple_text(a);
    let sb = simple_text(b);
    assert forall|i: int| 0 <= i < 32 implies sa[i] == sb[i] by {
        let at = if i < 8 {
            i
        } else if i < 12 {
            i + 1
        } else if i < 16 {
            i + 2
        } else if i < 20 {
            i + 3
        } else {
            i + 4
        };
        assert(ha[at] == sa[i]);
        assert(hb[at] == sb[i]);
    }
    assert(sa =~= sb);
    lemma_simple_text_identifies(a, b);
}

/// The shape of the two texts: 32 digits, and 36 characters with hyphens
/// after the 8th, 12th, 16th and 20th digit.
pub proof fn lemma_text_shape(v: u128)
    ensures
        simple_text(v).len() == 32,
        hyphenated_text(v).len() == 36,
        hyphenated_text(v)[8] == '-',
        hyphenated_text(v)[13] == '-',
        hyphenated_text(v)[18] == '-',
        hyphenated_text(v)[23] == '-',
{
}

} // verus!
