//! Random secrets over letters, digits and a fixed set of punctuation.

use vstd::prelude::*;
use crate::strgen::{draw, id_symbol, symbol};

verus! {

/// Number of symbols in the secret alphabet.
pub const CHARACTERS_SIZE: usize = 75;

/// The `k`-th symbol of the secret alphabet: the 62 identifier symbols,
/// then `!@#$%^&*()_+=`.
pub open spec fn secret_symbol(k: int) -> u8
    recommends
        0 <= k < 75,
{
    if k < 62 {
        id_symbol(k)
    } else {
        seq![33u8, 64, 35, 36, 37, 94, 38, 42, 40, 41, 95, 43, 61][k - 62]
    }
}

/// `c` belongs to the secret alphabet.
pub open spec fn is_secret_byte(c: u8) -> bool {
    exists|k: int| 0 <= k < 75 && #[trigger] secret_symbol(k) == c
}

/// Every byte of `b` belongs to the secret alphabet.
pub open spec fn all_secret_bytes(b: Seq<u8>) -> bool {
    forall|i: int| 0 <= i < b.len() ==> is_secret_byte(#[trigger] b[i])
}

/// The bytes drawn from `draws`, each reduced modulo the alphabet size.
pub open spec fn secret_bytes_from(draws: Seq<usize>) -> Seq<u8> {
    Seq::new(draws.len(), |i: int| secret_symbol((draws[i] % 75) as int))
}

/// The `k`-th symbol of the secret alphabet.
pub fn secret_char(k: usize) -> (r: u8)
    requires
        k < 75,
    ensures
        r == secret_symbol(k as int),
        is_secret_byte(r),
{
    let r = if k < 62 {
        symbol(k)
    } else {
        let p = k - 62;
        if p == 0 { 33 } else if p == 1 { 64 } else if p == 2 { 35 } else if p == 3 { 36 }
        else if p == 4 { 37 } else if p == 5 { 94 } else if p == 6 { 38 } else if p == 7 { 42 }
        else if p == 8 { 40 } else if p == 9 { 41 } else if p == 10 { 95 } else if p == 11 { 43 }
        else { 61 }
    };
    assert(secret_symbol(k as int) == r);
    r
}

/// Maps each draw to a symbol of the alphabet, as `generate` does with random draws.
pub fn generate_from(draws: &Vec<usize>) -> (r: Vec<u8>)
    ensures
        r@ == secret_bytes_from(draws@),
        all_secret_bytes(r@),
{
    let mut v: Vec<u8> = Vec::with_capacity(draws.len());
    let mut i: usize = 0;
    while i < draws.len()
        invariant
            i <= draws@.len(),
            v@ == secret_bytes_from(draws@.subrange(0, i as int)),
            all_secret_bytes(v@),
        decreases draws@.len() - i,
    {
        let c = secret_char(draws[i] % CHARACTERS_SIZE);
        v.push(c);
        i = i + 1;
        assert(v@ =~= secret_bytes_from(draws@.subrange(0, i as int)));
    }
    assert(draws@.subrange(0, draws@.len() as int) =~= draws@);
    v
}

/// Draws `size` symbols uniformly at random from the alphabet.
pub fn generate(size: usize) -> (r: Vec<u8>)
    ensures
        r@.len() == size,
        all_secret_bytes(r@),
{
    let mut draws: Vec<usize> = Vec::with_capacity(size);
    let mut i: usize = 0;
    while i < size
        invariant
            i <= size,
            draws@.len() == i,
        decreases size - i,
    {
        draws.push(draw());
        i = i + 1;
    }
    generate_from(&draws)
}

} // verus!
