//! The compact textual form of an `Address`: a fixed 41-byte layout
//! (kind byte, four name words, tag word, all little-endian) carried as
//! z-base-32 multibase text. Decoding inverts encoding exactly.

use vstd::prelude::*;

use crate::types::{Address, Error, Kind, XorName};

verus! {

/// The z-base-32 multibase text of a byte string.
pub uninterp spec fn zb32_of(b: Seq<u8>) -> Seq<char>;

/// Relies on `multibase::encode` with `Base::Base32Z`: the returned text
/// is a function of the input bytes alone.
#[verifier::external_body]
fn zb32_encode(b: &Vec<u8>) -> (r: String)
    ensures
        r@ == zb32_of(b@),
{
    multibase::encode(multibase::Base::Base32Z, b)
}

/// Relies on `multibase::decode`: it inverts `multibase::encode`, so text
/// equal to the z-base-32 multibase form of some bytes decodes to exactly
/// those bytes.
#[verifier::external_body]
fn zb32_decode(s: &str) -> (r: Result<Vec<u8>, Error>)
    ensures
        forall|b: Seq<u8>| s@ == zb32_of(b) ==> r is Ok && r->Ok_0@ == b,
{
    match multibase::decode(s) {
        Ok((_, v)) => Ok(v),
        Err(_) => Err(Error::FailedToParse),
    }
}

/// The eight little-endian bytes of a 64-bit word.
pub open spec fn u64_le_bytes(w: u64) -> Seq<u8> {
    seq![
        (w & 0xff) as u8,
        ((w >> 8) & 0xff) as u8,
        ((w >> 16) & 0xff) as u8,
        ((w >> 24) & 0xff) as u8,
        ((w >> 32) & 0xff) as u8,
        ((w >> 40) & 0xff) as u8,
        ((w >> 48) & 0xff) as u8,
        ((w >> 56) & 0xff) as u8,
    ]
}

/// The 64-bit word eight little-endian bytes denote.
pub open spec fn u64_from_le(s: Seq<u8>) -> u64
    recommends
        s.len() == 8,
{
    (s[0] as u64) | ((s[1] as u64) << 8) | ((s[2] as u64) << 16) | ((s[3] as u64) << 24) | ((
    s[4] as u64) << 32) | ((s[5] as u64) << 40) | ((s[6] as u64) << 48) | ((s[7] as u64) << 56)
}

/// Reading back the little-endian bytes of a word yields the word.
pub proof fn lemma_u64_le_roundtrip(w: u64)
    ensures
        u64_from_le(u64_le_bytes(w)) == w,
{
    let s = u64_le_bytes(w);
    assert(((((w & 0xff) as u8) as u64) | ((((w >> 8) & 0xff) as u8) as u64) << 8 | ((((w >> 16)
        & 0xff) as u8) as u64) << 16 | ((((w >> 24) & 0xff) as u8) as u64) << 24 | ((((w >> 32)
        & 0xff) as u8) as u64) << 32 | ((((w >> 40) & 0xff) as u8) as u64) << 40 | ((((w >> 48)
        & 0xff) as u8) as u64) << 48 | ((((w >> 56) & 0xff) as u8) as u64) << 56) == w)
        by (bit_vector);
}

/// The byte at which the kind stands.
pub open spec fn spec_kind_byte(k: Kind) -> u8 {
    if k == Kind::Public {
        0u8
    } else {
        1u8
    }
}

/// The 32 little-endian bytes of a name.
pub open spec fn spec_name_bytes(n: XorName) -> Seq<u8> {
    u64_le_bytes(n.w0) + u64_le_bytes(n.w1) + u64_le_bytes(n.w2) + u64_le_bytes(n.w3)
}

/// The 41-byte serialised form of an address.
pub open spec fn spec_address_bytes(a: Address) -> Seq<u8> {
    seq![spec_kind_byte(a.spec_kind())] + spec_name_bytes(a.spec_name()) + u64_le_bytes(
        a.spec_tag(),
    )
}

/// The address 41 bytes denote, where they are well-formed.
pub open spec fn spec_parse_address(b: Seq<u8>) -> Option<Address> {
    if b.len() == 41 && (b[0] == 0u8 || b[0] == 1u8) {
        let name = XorName {
            w0: u64_from_le(b.subrange(1, 9)),
            w1: u64_from_le(b.subrange(9, 17)),
            w2: u64_from_le(b.subrange(17, 25)),
            w3: u64_from_le(b.subrange(25, 33)),
        };
        let tag = u64_from_le(b.subrange(33, 41));
        if b[0] == 0u8 {
            Some(Address::Public { name, tag })
        } else {
            Some(Address::Private { name, tag })
        }
    } else {
        None
    }
}

/// Parsing the serialised form of an address yields that address.
pub proof fn lemma_address_bytes_roundtrip(a: Address)
    ensures
        spec_parse_address(spec_address_bytes(a)) == Some(a),
{
    let b = spec_address_bytes(a);
    let n = a.spec_name();
    assert(b.len() == 41);
    assert(b.subrange(1, 9) =~= u64_le_bytes(n.w0));
    assert(b.subrange(9, 17) =~= u64_le_bytes(n.w1));
    assert(b.subrange(17, 25) =~= u64_le_bytes(n.w2));
    assert(b.subrange(25, 33) =~= u64_le_bytes(n.w3));
    assert(b.subrange(33, 41) =~= u64_le_bytes(a.spec_tag()));
    lemma_u64_le_roundtrip(n.w0);
    lemma_u64_le_roundtrip(n.w1);
    lemma_u64_le_roundtrip(n.w2);
    lemma_u64_le_roundtrip(n.w3);
    lemma_u64_le_roundtrip(a.spec_tag());
}

/// Appends the eight little-endian bytes of `w`.
fn push_u64_le(v: &mut Vec<u8>, w: u64)
    ensures
        final(v)@ == old(v)@ + u64_le_bytes(w),
{
    v.push((w & 0xff) as u8);
    v.push(((w >> 8) & 0xff) as u8);
    v.push(((w >> 16) & 0xff) as u8);
    v.push(((w >> 24) & 0xff) as u8);
    v.push(((w >> 32) & 0xff) as u8);
    v.push(((w >> 40) & 0xff) as u8);
    v.push(((w >> 48) & 0xff) as u8);
    v.push(((w >> 56) & 0xff) as u8);
    assert(v@ =~= old(v)@ + u64_le_bytes(w));
}

/// Reads the 64-bit word whose little-endian bytes start at `off`.
fn read_u64_le(v: &Vec<u8>, off: usize) -> (r: u64)
    requires
        off + 8 <= v@.len(),
    ensures
        r == u64_from_le(v@.subrange(off as int, off as int + 8)),
{
    let len = v.len();
    (v[off] as u64) | ((v[off + 1] as u64) << 8) | ((v[off + 2] as u64) << 16) | ((v[off
        + 3] as u64) << 24) | ((v[off + 4] as u64) << 32) | ((v[off + 5] as u64) << 40) | ((v[off
        + 6] as u64) << 48) | ((v[off + 7] as u64) << 56)
}

/// The serialised form of an address.
pub fn address_bytes(a: &Address) -> (r: Vec<u8>)
    ensures
        r@ == spec_address_bytes(*a),
{
    let mut v: Vec<u8> = Vec::new();
    match a.kind() {
        Kind::Public => v.push(0u8),
        Kind::Private => v.push(1u8),
    }
    let name = *a.name();
    push_u64_le(&mut v, name.w0);
    push_u64_le(&mut v, name.w1);
    push_u64_le(&mut v, name.w2);
    push_u64_le(&mut v, name.w3);
    push_u64_le(&mut v, a.tag());
    assert(v@ =~= spec_address_bytes(*a));
    v
}

/// The address serialised bytes denote, or `FailedToParse` where they are
/// not the serialised form of any address.
pub fn parse_address(v: &Vec<u8>) -> (r: Result<Address, Error>)
    ensures
        r == match spec_parse_address(v@) {
            Some(a) => Ok::<Address, Error>(a),
            None => Err::<Address, Error>(Error::FailedToParse),
        },
{
    if v.len() != 41 {
        return Err(Error::FailedToParse);
    }
    let kind_byte = v[0];
    if kind_byte != 0u8 && kind_byte != 1u8 {
        return Err(Error::FailedToParse);
    }
    let name = XorName {
        w0: read_u64_le(v, 1),
        w1: read_u64_le(v, 9),
        w2: read_u64_le(v, 17),
        w3: read_u64_le(v, 25),
    };
    let tag = read_u64_le(v, 33);
    if kind_byte == 0u8 {
        Ok(Address::Public { name, tag })
    } else {
        Ok(Address::Private { name, tag })
    }
}

impl Address {
    /// Returns the `Address` serialised and encoded in z-base-32.
    pub fn encode_to_zbase32(&self) -> (r: String)
        ensures
            r@ == zb32_of(spec_address_bytes(*self)),
    {
        let bytes = address_bytes(self);
        zb32_encode(&bytes)
    }

    /// Creates from a z-base-32 encoded string: text produced by
    /// `encode_to_zbase32` decodes to exactly the address it encoded, and
    /// text whose bytes are not the serialised form of an address is
    /// rejected.
    pub fn decode_from_zbase32(encoded: &str) -> (r: Result<Self, Error>)
        ensures
            forall|a: Address|
                encoded@ == zb32_of(spec_address_bytes(a)) ==> r == Ok::<Address, Error>(a),
            r is Err ==> r == Err::<Address, Error>(Error::FailedToParse),
    {
        match zb32_decode(encoded) {
            Ok(v) => {
                let parsed = parse_address(&v);
                proof {
                    assert forall|a: Address|
                        encoded@ == zb32_of(spec_address_bytes(a)) implies parsed == Ok::<
                        Address,
                        Error,
                    >(a) by {
                        lemma_address_bytes_roundtrip(a);
                    }
                }
                parsed
            },
            Err(_) => Err(Error::FailedToParse),
        }
    }
}

} // verus!
