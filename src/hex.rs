//! Lowercase hexadecimal rendering of byte sequences.

use vstd::prelude::*;

verus! {

/// The lowercase hex digit for a nibble `n < 16`.
pub open spec fn hex_digit(n: u8) -> char {
    if n < 10 {
        (('0' as u8) + n) as char
    } else {
        (('a' as u8) + (n - 10)) as char
    }
}

/// Whether `c` is one of `0-9` or `a-f`.
pub open spec fn is_lower_hex_char(c: char) -> bool {
    ('0' <= c && c <= '9') || ('a' <= c && c <= 'f')
}

/// Two digits per byte, high nibble first.
pub open spec fn hex_of(b: Seq<u8>) -> Seq<char>
    decreases b.len(),
{
    if b.len() == 0 {
        Seq::empty()
    } else {
        let last = b.last();
        hex_of(b.drop_last()).push(hex_digit(last / 16)).push(hex_digit(last % 16))
    }
}

/// Hex encoding of `b` has length `2 * |b|`, every character is a lowercase
/// hex digit, and characters `2i` and `2i + 1` are the high and low nibble of
/// byte `i`.
pub proof fn lemma_hex_pairs(b: Seq<u8>)
    ensures
        hex_of(b).len() == 2 * b.len(),
        forall|i: int|
            0 <= i < b.len() ==> #[trigger] hex_of(b)[2 * i] == hex_digit(b[i] / 16) && hex_of(
                b,
            )[2 * i + 1] == hex_digit(b[i] % 16),
        forall|j: int| 0 <= j < hex_of(b).len() ==> is_lower_hex_char(#[trigger] hex_of(b)[j]),
    decreases b.len(),
{
    if b.len() > 0 {
        let p = b.drop_last();
        lemma_hex_pairs(p);
        assert forall|i: int| 0 <= i < b.len() implies #[trigger] hex_of(b)[2 * i] == hex_digit(
            b[i] / 16,
        ) && hex_of(b)[2 * i + 1] == hex_digit(b[i] % 16) by {
            if i < p.len() {
                assert(hex_of(p)[2 * i] == hex_digit(p[i] / 16));
            }
        }
        assert forall|j: int| 0 <= j < hex_of(b).len() implies is_lower_hex_char(
            #[trigger] hex_of(b)[j],
        ) by {
            if j < hex_of(p).len() {
                assert(is_lower_hex_char(hex_of(p)[j]));
            }
        }
    }
}

/// Appends the hex digit of nibble `n` to `s`.
pub(crate) fn push_hex_digit(s: &mut String, n: u8)
    requires
        n < 16,
    ensures
        final(s)@ == old(s)@.push(hex_digit(n)),
{
    let digits = "0123456789abcdef";
    proof {
        reveal_strlit("0123456789abcdef");
    }
    let one = digits.substring_char(n as usize, n as usize + 1);
    assert(one@ =~= seq![hex_digit(n)]);
    s.append(one);
}

/// Renders `data` as lowercase hex, two digits per byte.
pub fn hex_encode(data: &[u8]) -> (r: String)
    ensures
        r@ == hex_of(data@),
        r@.len() == 2 * data@.len(),
        forall|j: int| 0 <= j < r@.len() ==> is_lower_hex_char(#[trigger] r@[j]),
{
    let mut r = String::new();
    let mut i: usize = 0;
    while i < data.len()
        invariant
            0 <= i <= data@.len(),
            r@ == hex_of(data@.take(i as int)),
        decreases data@.len() - i,
    {
        let b = data[i];
        push_hex_digit(&mut r, b / 16);
        push_hex_digit(&mut r, b % 16);
        assert(data@.take(i as int + 1).drop_last() =~= data@.take(i as int));
        i += 1;
    }
    assert(data@.take(i as int) =~= data@);
    proof {
        lemma_hex_pairs(data@);
    }
    r
}

} // verus!
