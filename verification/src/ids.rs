use vstd::prelude::*;
use crate::random::{random_bytes, RandomSourceFailure};

verus! {

/// The lowercase hexadecimal digits, indexed by their value.
pub open spec fn hex_digits() -> Seq<char> {
    seq!['0', '1', '2', '3', '4', '5', '6', '7', '8', '9', 'a', 'b', 'c', 'd', 'e', 'f']
}

/// The last `n` hexadecimal digits of `x`, most significant first.
pub open spec fn hex_text(x: nat, n: nat) -> Seq<char>
    decreases n,
{
    if n == 0 {
        seq![]
    } else {
        hex_text(x / 16, (n - 1) as nat).push(hex_digits()[(x % 16) as int])
    }
}

/// `16` to the power `n`.
pub open spec fn pow16(n: nat) -> nat
    decreases n,
{
    if n == 0 {
        1
    } else {
        16 * pow16((n - 1) as nat)
    }
}

/// The hyphenated text of a UUID: its 32 lowercase hexadecimal digits in
/// groups of 8, 4, 4, 4 and 12, separated by `-`.
pub open spec fn uuid_text(id: u128) -> Seq<char> {
    let h = hex_text(id as nat, 32);
    h.subrange(0, 8) + seq!['-'] + h.subrange(8, 12) + seq!['-'] + h.subrange(12, 16) + seq!['-']
        + h.subrange(16, 20) + seq!['-'] + h.subrange(20, 32)
}

/// Formats `id` as a UUID with `uuid::Uuid`'s `Display`, which writes the
/// hyphenated lowercase form (`67e55044-10b1-426f-9247-bb680e5fe0c8`) of the
/// UUID whose big-endian value is `id`.
#[verifier::external_body]
pub(crate) fn uuid_to_string(id: u128) -> (s: String)
    ensures
        s@ == uuid_text(id),
{
    uuid::Uuid::from_u128(id).to_string()
}

/// `uuid::Builder::from_random_bytes` on the big-endian bytes of `random`,
/// read back as a big-endian value: the random value with the version field
/// set to 4 and the variant field set to the RFC 4122 variant, all other bits
/// kept.
#[verifier::external_body]
fn uuid_v4_from_random(random: u128) -> (id: u128)
    ensures
        id & 0xF000_C000_0000_0000_0000u128 == 0x4000_8000_0000_0000_0000u128,
        id & 0xFFFF_FFFF_FFFF_0FFF_3FFF_FFFF_FFFF_FFFFu128 == random
            & 0xFFFF_FFFF_FFFF_0FFF_3FFF_FFFF_FFFF_FFFFu128,
{
    uuid::Builder::from_random_bytes(random.to_be_bytes()).into_uuid().as_u128()
}

/// A fresh random (version 4) UUID, by its big-endian value, made as
/// `uuid::Uuid::new_v4` makes one but from a random source that reports its
/// failure: an error only when the operating system's random source fails
/// (the error is the source's own evidence of it). The random bits are not
/// stated; the version field holds 4 and the variant field the RFC 4122
/// variant.
pub fn new_v4_id() -> (id: Result<u128, RandomSourceFailure>)
    ensures
        id matches Ok(id) ==> id & 0xF000_C000_0000_0000_0000u128 == 0x4000_8000_0000_0000_0000u128,
{
    let bytes = match random_bytes(16) {
        Ok(bytes) => bytes,
        Err(failure) => return Err(failure),
    };
    let mut random: u128 = 0;
    let mut i: usize = 0;
    while i < bytes.len()
        invariant
            i <= bytes@.len(),
        decreases bytes@.len() - i,
    {
        random = (random << 8u32) | (bytes[i] as u128);
        i = i + 1;
    }
    Ok(uuid_v4_from_random(random))
}

proof fn lemma_hex_text_len(x: nat, n: nat)
    ensures
        hex_text(x, n).len() == n,
    decreases n,
{
    if n > 0 {
        lemma_hex_text_len(x / 16, (n - 1) as nat);
    }
}

proof fn lemma_hex_text_injective(x: nat, y: nat, n: nat)
    requires
        x < pow16(n),
        y < pow16(n),
        hex_text(x, n) == hex_text(y, n),
    ensures
        x == y,
    decreases n,
{
    if n > 0 {
        let m = (n - 1) as nat;
        lemma_hex_text_len(x / 16, m);
        lemma_hex_text_len(y / 16, m);
        let hx = hex_text(x / 16, m);
        let hy = hex_text(y / 16, m);
        assert(hex_text(x, n) == hx.push(hex_digits()[(x % 16) as int]));
        assert(hex_text(y, n) == hy.push(hex_digits()[(y % 16) as int]));
        assert(hx =~= hex_text(x, n).subrange(0, m as int));
        assert(hy =~= hex_text(y, n).subrange(0, m as int));
        assert(hex_text(x, n)[m as int] == hex_digits()[(x % 16) as int]);
        assert(hex_text(y, n)[m as int] == hex_digits()[(y % 16) as int]);
        lemma_hex_digit_injective((x % 16) as int, (y % 16) as int);
        assert(x % 16 == y % 16);
        assert(x / 16 < pow16(m)) by (nonlinear_arith)
            requires
                x < pow16(n),
                pow16(n) == 16 * pow16(m),
        ;
        assert(y / 16 < pow16(m)) by (nonlinear_arith)
            requires
                y < pow16(n),
                pow16(n) == 16 * pow16(m),
        ;
        lemma_hex_text_injective(x / 16, y / 16, m);
    }
}

proof fn lemma_hex_digit_injective(i: int, j: int)
    requires
        0 <= i < 16,
        0 <= j < 16,
        hex_digits()[i] == hex_digits()[j],
    ensures
        i == j,
{
    let d = hex_digits();
    assert(d[0] == '0' && d[1] == '1' && d[2] == '2' && d[3] == '3' && d[4] == '4' && d[5] == '5'
        && d[6] == '6' && d[7] == '7' && d[8] == '8' && d[9] == '9' && d[10] == 'a' && d[11] == 'b'
        && d[12] == 'c' && d[13] == 'd' && d[14] == 'e' && d[15] == 'f');
}

proof fn lemma_u128_below_pow16(x: u128)
    ensures
        (x as nat) < pow16(32),
{
    reveal_with_fuel(pow16, 33);
    assert(pow16(32) == 0x1_0000_0000_0000_0000_0000_0000_0000_0000nat);
}

/// Distinct UUIDs have distinct hyphenated texts.
pub proof fn lemma_uuid_text_injective(a: u128, b: u128)
    requires
        uuid_text(a) == uuid_text(b),
    ensures
        a == b,
{
    let ha = hex_text(a as nat, 32);
    let hb = hex_text(b as nat, 32);
    lemma_hex_text_len(a as nat, 32);
    lemma_hex_text_len(b as nat, 32);
    let ta = uuid_text(a);
    let tb = uuid_text(b);
    assert forall|i: int| 0 <= i < 32 implies ha[i] == hb[i] by {
        if i < 8 {
            assert(ta[i] == ha[i]);
            assert(tb[i] == hb[i]);
        } else if i < 12 {
            assert(ta[i + 1] == ha[i]);
            assert(tb[i + 1] == hb[i]);
        } else if i < 16 {
            assert(ta[i + 2] == ha[i]);
            assert(tb[i + 2] == hb[i]);
        } else if i < 20 {
            assert(ta[i + 3] == ha[i]);
            assert(tb[i + 3] == hb[i]);
        } else {
            assert(ta[i + 4] == ha[i]);
            assert(tb[i + 4] == hb[i]);
        }
    }
    assert(ha =~= hb);
    lemma_u128_below_pow16(a);
    lemma_u128_below_pow16(b);
    lemma_hex_text_injective(a as nat, b as nat, 32);
}

} // verus!
