//! Public identity keys and their serialized form: a one-byte key-type tag
//! followed by the 32 bytes of a Curve25519 public key.

use vstd::prelude::*;

verus! {

/// The tag byte that marks a Curve25519 ("DJB") public key.
pub const DJB_KEY_TYPE: u8 = 0x05;

/// Length in bytes of a Curve25519 public key.
pub const PUBLIC_KEY_LENGTH: usize = 32;

/// Length in bytes of a serialized identity key: the tag and the key.
pub const SERIALIZED_KEY_LENGTH: usize = 33;

/// The bytes are a well-formed identity-key encoding.
pub open spec fn is_key_encoding(bytes: Seq<u8>) -> bool {
    &&& bytes.len() == SERIALIZED_KEY_LENGTH
    &&& bytes[0] == DJB_KEY_TYPE
}

/// The public key that a well-formed encoding carries.
pub open spec fn decoded_key(bytes: Seq<u8>) -> Seq<u8> {
    bytes.subrange(1, SERIALIZED_KEY_LENGTH as int)
}

/// The serialized form of a public key.
pub open spec fn key_encoding(key: Seq<u8>) -> Seq<u8> {
    seq![DJB_KEY_TYPE] + key
}

/// Why a byte string is not an identity key.
#[derive(Clone, Copy, Debug, PartialEq, Eq, Structural)]
pub enum KeyError {
    /// The bytes do not parse as a public key of a known type and length.
    InvalidKeyEncoding,
}

/// An account's public identity key.
#[derive(Clone, Debug, PartialEq, Eq)]
pub struct IdentityKey {
    public_key: Vec<u8>,
}

impl View for IdentityKey {
    type V = Seq<u8>;

    /// The 32 bytes of the public key.
    closed spec fn view(&self) -> Seq<u8> {
        self.public_key@
    }
}

impl IdentityKey {
    /// The key is a Curve25519 public key of the right length.
    pub closed spec fn wf(&self) -> bool {
        self.public_key@.len() == PUBLIC_KEY_LENGTH
    }

    /// Parses a serialized identity key.
    pub fn decode(bytes: &[u8]) -> (r: Result<IdentityKey, KeyError>)
        ensures
            r is Ok <==> is_key_encoding(bytes@),
            r matches Ok(k) ==> k.wf() && k@ == decoded_key(bytes@),
            r matches Err(e) ==> e == KeyError::InvalidKeyEncoding,
    {
        if bytes.len() != SERIALIZED_KEY_LENGTH || bytes[0] != DJB_KEY_TYPE {
            return Err(KeyError::InvalidKeyEncoding);
        }
        let mut public_key: Vec<u8> = Vec::with_capacity(PUBLIC_KEY_LENGTH);
        let mut i: usize = 1;
        while i < SERIALIZED_KEY_LENGTH
            invariant
                bytes@.len() == SERIALIZED_KEY_LENGTH,
                1 <= i <= SERIALIZED_KEY_LENGTH,
                public_key@ == bytes@.subrange(1, i as int),
            decreases SERIALIZED_KEY_LENGTH - i,
        {
            public_key.push(bytes[i]);
            i += 1;
            assert(public_key@ =~= bytes@.subrange(1, i as int));
        }
        Ok(IdentityKey { public_key })
    }

    /// The 32 bytes of the public key.
    pub fn public_key(&self) -> (r: &[u8])
        ensures
            r@ == self@,
    {
        self.public_key.as_slice()
    }

    /// The serialized form of the key: the type tag, then the public key.
    pub fn serialize(&self) -> (r: Vec<u8>)
        ensures
            r@ == key_encoding(self@),
    {
        let mut out: Vec<u8> = Vec::new();
        out.push(DJB_KEY_TYPE);
        let mut i: usize = 0;
        while i < self.public_key.len()
            invariant
                0 <= i <= self.public_key@.len(),
                out@ == seq![DJB_KEY_TYPE] + self.public_key@.subrange(0, i as int),
            decreases self.public_key@.len() - i,
        {
            out.push(self.public_key[i]);
            i += 1;
            assert(out@ =~= seq![DJB_KEY_TYPE] + self.public_key@.subrange(0, i as int));
        }
        assert(self.public_key@.subrange(0, self.public_key@.len() as int) =~= self.public_key@);
        out
    }
}

/// Decoding a well-formed encoding and serializing the key gives back the
/// same bytes.
pub proof fn lemma_decode_serialize_round_trip(bytes: Seq<u8>)
    requires
        is_key_encoding(bytes),
    ensures
        key_encoding(decoded_key(bytes)) == bytes,
{
    assert(key_encoding(decoded_key(bytes)) =~= bytes);
}

} // verus!
