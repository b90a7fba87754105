use vstd::prelude::*;

verus! {

/// Two to the sixty-fourth.
pub open spec fn two_pow_64() -> int {
    0x1_0000_0000_0000_0000
}

/// A 128-bit identifier derived from a logical key; the nil identifier is zero.
#[derive(Clone, Copy, PartialEq, Eq, Structural, Debug, Hash)]
pub struct EntityId {
    pub value: u128,
}

/// What siphasher's 128-bit hash with keys (0, 0) yields for a text fed through
/// std's `Hash` impl for `str`, as its two 64-bit halves.
pub uninterp spec fn sip128_of(key: Seq<char>) -> (u64, u64);

/// The identifier whose high half is `hi` and whose low half is `lo`.
pub open spec fn id_from_halves(hi: u64, lo: u64) -> EntityId {
    EntityId { value: (hi as int * two_pow_64() + lo as int) as u128 }
}

/// The identifier of a logical key.
pub open spec fn key_id(key: Seq<char>) -> EntityId {
    id_from_halves(sip128_of(key).0, sip128_of(key).1)
}

/// The value of hexadecimal digit `k` (0 is the most significant) of `v`.
pub open spec fn nibble(v: u128, k: int) -> int {
    (v as int / pow16((31 - k) as nat)) % 16
}

pub open spec fn pow16(n: nat) -> int
    decreases n,
{
    if n == 0 {
        1
    } else {
        16 * pow16((n - 1) as nat)
    }
}

/// The lower-case hexadecimal digit of `d` (0 to 15).
pub open spec fn hex_char(d: int) -> char {
    if d < 10 {
        (('0' as int) + d) as char
    } else {
        (('a' as int) + d - 10) as char
    }
}

/// Which hexadecimal digit stands at position `i` of the hyphenated form.
pub open spec fn digit_at(i: int) -> int {
    if i < 8 {
        i
    } else if i < 13 {
        i - 1
    } else if i < 18 {
        i - 2
    } else if i < 23 {
        i - 3
    } else {
        i - 4
    }
}

/// The hyphenated text of an identifier: groups of 8, 4, 4, 4 and 12 lower-case
/// hexadecimal digits of its big-endian value, separated by '-'.
pub open spec fn hyphenated(v: u128) -> Seq<char> {
    Seq::new(
        36,
        |i: int|
            if i == 8 || i == 13 || i == 18 || i == 23 {
                '-'
            } else {
                hex_char(nibble(v, digit_at(i)))
            },
    )
}

/// Relies on siphasher's `SipHasher::new` (keys 0, 0) and `Hasher128::finish128`,
/// fed by std's `Hash` for `str`: the two halves depend on the text alone.
#[verifier::external_body]
fn sip_hash_128(key: &str) -> (r: (u64, u64))
    ensures
        r == sip128_of(key@),
{
    let mut hasher = siphasher::sip128::SipHasher::new();
    std::hash::Hash::hash(key, &mut hasher);
    let h = siphasher::sip128::Hasher128::finish128(&hasher);
    (h.h1, h.h2)
}

/// Relies on uuid's `Uuid::from_u128` and its `Display`, which writes the
/// hyphenated lower-case form of the big-endian value.
#[verifier::external_body]
fn uuid_text(value: u128) -> (r: String)
    ensures
        r@ == hyphenated(value),
{
    uuid::Uuid::from_u128(value).to_string()
}

impl EntityId {
    /// The reserved nil identifier.
    pub fn nil() -> (r: EntityId)
        ensures
            r.value == 0,
    {
        EntityId { value: 0 }
    }

    pub fn from_u64_pair(hi: u64, lo: u64) -> (r: EntityId)
        ensures
            r == id_from_halves(hi, lo),
    {
        proof {
            assert(0 <= hi as int * two_pow_64() <= 0xffff_ffff_ffff_ffff * two_pow_64())
                by (nonlinear_arith)
                requires
                    0 <= hi <= 0xffff_ffff_ffff_ffff,
            ;
        }
        EntityId { value: (hi as u128) * 0x1_0000_0000_0000_0000u128 + (lo as u128) }
    }

    pub fn is_nil(&self) -> (r: bool)
        ensures
            r == (self.value == 0),
    {
        self.value == 0
    }

    /// The hyphenated lower-case text of this identifier.
    pub fn to_text(&self) -> (r: String)
        ensures
            r@ == hyphenated(self.value),
    {
        uuid_text(self.value)
    }
}

/// The identifier of a logical key: a 128-bit SipHash of its text, the same in
/// every run and every process.
pub fn str_to_uuid(key: &str) -> (r: EntityId)
    ensures
        r == key_id(key@),
{
    let (hi, lo) = sip_hash_128(key);
    EntityId::from_u64_pair(hi, lo)
}

/// Identifiers are a function of the logical key alone: equal keys give equal
/// identifiers, whatever the run or the process.
pub proof fn lemma_identifier_stable(a: Seq<char>, b: Seq<char>)
    requires
        a == b,
    ensures
        key_id(a) == key_id(b),
{
}

} // verus!
