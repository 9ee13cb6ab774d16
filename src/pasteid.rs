//! Paste identifiers: generated at random, or parsed from outside text.

use vstd::prelude::*;
use vstd::string::*;
use vstd::utf8::*;
use crate::strgen::{self, all_id_bytes, is_id_byte};
use crate::text::{lemma_ascii_valid_utf8, all_ascii, string_from_utf8};

verus! {

broadcast use vstd::utf8::encode_utf8_decode_utf8;

/// Longest identifier accepted from outside.
pub const MAX_SIZE: usize = 64;

/// A well-formed identifier: at most `MAX_SIZE` bytes, all from the alphabet.
pub open spec fn is_valid_id(b: Seq<u8>) -> bool {
    b.len() <= MAX_SIZE && all_id_bytes(b)
}

/// An identifier; its view is its bytes.
pub struct PasteID(String);

/// Why a text is not an identifier.
#[derive(Debug, Clone, Copy, PartialEq, Eq, Structural)]
pub enum ParseError {
    LengthTooLong,
    InvalidCharacters,
}

/// What parsing `t` gives: the error it owes, or success.
pub open spec fn parse_ok(t: Seq<u8>, r: Result<PasteID, ParseError>) -> bool {
    match r {
        Ok(id) => is_valid_id(t) && id@ == t,
        Err(ParseError::LengthTooLong) => t.len() > MAX_SIZE,
        Err(ParseError::InvalidCharacters) => t.len() <= MAX_SIZE && !all_id_bytes(t),
    }
}

impl View for PasteID {
    type V = Seq<u8>;

    closed spec fn view(&self) -> Seq<u8> {
        encode_utf8(self.0@)
    }
}

proof fn lemma_id_bytes_ascii(b: Seq<u8>)
    requires
        all_id_bytes(b),
    ensures
        all_ascii(b),
{
    assert forall|i: int| 0 <= i < b.len() implies #[trigger] b[i] < 128 by {
        assert(is_id_byte(b[i]));
    }
}

/// Parsing accepts exactly the well-formed identifiers, verbatim, and rejects
/// every other text with the error kind of the rule it breaks: over-long text
/// as too long, the rest as holding invalid characters.
pub proof fn lemma_parse_exact(t: Seq<u8>, r: Result<PasteID, ParseError>)
    requires
        parse_ok(t, r),
    ensures
        r is Ok <==> (t.len() <= MAX_SIZE && all_id_bytes(t)),
        r matches Ok(id) ==> id@ == t,
        t.len() > MAX_SIZE ==> r == Err::<PasteID, ParseError>(ParseError::LengthTooLong),
        t.len() <= MAX_SIZE && !all_id_bytes(t) ==> r == Err::<PasteID, ParseError>(
            ParseError::InvalidCharacters,
        ),
{
}

impl ParseError {
    /// A short description of the error.
    pub fn message(&self) -> (r: &'static str)
        ensures
            *self == ParseError::LengthTooLong ==> r@ == "ID length too long"@,
            *self == ParseError::InvalidCharacters ==> r@ == "ID contains invalid characters"@,
    {
        match self {
            ParseError::LengthTooLong => "ID length too long",
            ParseError::InvalidCharacters => "ID contains invalid characters",
        }
    }
}

impl PasteID {
    /// Every identifier is well-formed.
    #[verifier::type_invariant]
    spec fn well_formed(&self) -> bool {
        is_valid_id(encode_utf8(self.0@))
    }

    /// Builds an identifier from bytes already known to be well-formed.
    fn from_valid(b: Vec<u8>) -> (r: PasteID)
        requires
            is_valid_id(b@),
        ensures
            r@ == b@,
    {
        proof {
            lemma_id_bytes_ascii(b@);
            lemma_ascii_valid_utf8(b@);
        }
        let ghost bytes = b@;
        let s = string_from_utf8(b);
        match s {
            Some(s) => PasteID(s),
            None => {
                assert(false);
                PasteID(String::new())
            },
        }
    }

    /// Returns a new randomly generated id of `size` symbols.
    pub fn new(size: usize) -> (r: PasteID)
        requires
            size <= MAX_SIZE,
        ensures
            r@.len() == size,
            is_valid_id(r@),
    {
        PasteID::from_valid(strgen::generate(size))
    }

    /// Parses the bytes of `b` from `start` on as an identifier.
    pub fn parse_bytes(b: &[u8], start: usize) -> (r: Result<PasteID, ParseError>)
        requires
            start <= b@.len(),
        ensures
            parse_ok(b@.subrange(start as int, b@.len() as int), r),
    {
        let ghost t = b@.subrange(start as int, b@.len() as int);
        if b.len() - start > MAX_SIZE {
            return Err(ParseError::LengthTooLong);
        }
        let mut v: Vec<u8> = Vec::with_capacity(b.len() - start);
        let mut i: usize = start;
        while i < b.len()
            invariant
                start <= i <= b@.len(),
                t == b@.subrange(start as int, b@.len() as int),
                t.len() <= MAX_SIZE,
                v@ == b@.subrange(start as int, i as int),
                all_id_bytes(v@),
            decreases b@.len() - i,
        {
            let c = b[i];
            if !((48 <= c && c <= 57) || (65 <= c && c <= 90) || (97 <= c && c <= 122)) {
                assert(t[i - start] == c);
                assert(!is_id_byte(t[i - start]));
                return Err(ParseError::InvalidCharacters);
            }
            v.push(c);
            i = i + 1;
            assert(v@ =~= b@.subrange(start as int, i as int));
        }
        assert(v@ =~= t);
        Ok(PasteID::from_valid(v))
    }

    /// Parses `s` as an identifier, keeping it verbatim.
    pub fn from_str(s: &str) -> (r: Result<PasteID, ParseError>)
        ensures
            parse_ok(encode_utf8(s@), r),
    {
        let b = s.as_bytes();
        let r = PasteID::parse_bytes(b, 0);
        assert(b@.subrange(0, b@.len() as int) =~= b@);
        r
    }

    /// The identifier as text.
    pub fn as_str(&self) -> (r: &str)
        ensures
            encode_utf8(r@) == self@,
            is_valid_id(self@),
    {
        proof {
            use_type_invariant(self);
        }
        self.0.as_str()
    }

    /// The identifier as an owned string.
    pub fn to_string(&self) -> (r: String)
        ensures
            encode_utf8(r@) == self@,
            is_valid_id(self@),
    {
        proof {
            use_type_invariant(self);
        }
        self.0.clone()
    }

    /// Returns the filename associated with the id.
    pub fn filename(&self) -> (r: String)
        ensures
            r@ == "upload/"@ + decode_utf8(self@),
    {
        String::from_str("upload/").concat(self.0.as_str())
    }
}

} // verus!
