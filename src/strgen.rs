//! Random identifiers over the 62 ASCII letters and digits.

use vstd::prelude::*;

verus! {

/// Number of symbols in the identifier alphabet.
pub const CHARACTERS_SIZE: usize = 62;

/// The `k`-th symbol of the identifier alphabet: digits, then upper-case,
/// then lower-case Latin letters.
pub open spec fn id_symbol(k: int) -> u8
    recommends
        0 <= k < 62,
{
    if k < 10 {
        (48 + k) as u8
    } else if k < 36 {
        (65 + (k - 10)) as u8
    } else {
        (97 + (k - 36)) as u8
    }
}

/// `c` belongs to the identifier alphabet.
pub open spec fn is_id_byte(c: u8) -> bool {
    (48 <= c <= 57) || (65 <= c <= 90) || (97 <= c <= 122)
}

/// Every byte of `b` belongs to the identifier alphabet.
pub open spec fn all_id_bytes(b: Seq<u8>) -> bool {
    forall|i: int| 0 <= i < b.len() ==> is_id_byte(#[trigger] b[i])
}

/// The bytes drawn from `draws`, each reduced modulo the alphabet size.
pub open spec fn id_bytes_from(draws: Seq<usize>) -> Seq<u8> {
    Seq::new(draws.len(), |i: int| id_symbol((draws[i] % 62) as int))
}

/// The alphabet holds exactly the bytes that `is_id_byte` accepts.
pub proof fn lemma_id_alphabet(c: u8)
    ensures
        is_id_byte(c) <==> exists|k: int| 0 <= k < 62 && #[trigger] id_symbol(k) == c,
{
    if is_id_byte(c) {
        let k: int = if c <= 57 {
            c - 48
        } else if c <= 90 {
            c - 65 + 10
        } else {
            c - 97 + 36
        };
        assert(id_symbol(k) == c);
    }
}

/// The `k`-th symbol of the identifier alphabet.
pub fn symbol(k: usize) -> (r: u8)
    requires
        k < 62,
    ensures
        r == id_symbol(k as int),
        is_id_byte(r),
{
    if k < 10 {
        48 + k as u8
    } else if k < 36 {
        65 + (k - 10) as u8
    } else {
        97 + (k - 36) as u8
    }
}

/// Relies on rand::random::<usize>, which draws from the thread-local generator;
/// nothing is known of the value.
#[verifier::external_body]
pub(crate) fn draw() -> (r: usize) {
    rand::random::<usize>()
}

/// Maps each draw to a symbol of the alphabet, as `generate` does with random draws.
pub fn generate_from(draws: &Vec<usize>) -> (r: Vec<u8>)
    ensures
        r@ == id_bytes_from(draws@),
        all_id_bytes(r@),
{
    let mut v: Vec<u8> = Vec::with_capacity(draws.len());
    let mut i: usize = 0;
    while i < draws.len()
        invariant
            i <= draws@.len(),
            v@ == id_bytes_from(draws@.subrange(0, i as int)),
            all_id_bytes(v@),
        decreases draws@.len() - i,
    {
        let c = symbol(draws[i] % CHARACTERS_SIZE);
        v.push(c);
        i = i + 1;
        assert(v@ =~= id_bytes_from(draws@.subrange(0, i as int)));
    }
    assert(draws@.subrange(0, draws@.len() as int) =~= draws@);
    v
}

/// Draws `size` symbols uniformly at random from the alphabet.
pub fn generate(size: usize) -> (r: Vec<u8>)
    ensures
        r@.len() == size,
        all_id_bytes(r@),
{
    let mut draws: Vec<usize> = Vec::with_capacity(size);
    let mut i: usize = 0;
    while i < size
        invariant
            i <= size,
            draws@.len() == i,
        decreases size - i,
    {
        draws.push(draw());
        i = i + 1;
    }
    generate_from(&draws)
}

} // verus!
