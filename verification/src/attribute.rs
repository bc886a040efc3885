//! Attributes of a credential: scalars of the BLS12-381 scalar field, held by
//! their canonical little-endian encoding, and the hash that turns a plaintext
//! into such a scalar.

use bls12_381::hash_to_curve::{ExpandMsgXmd, HashToField};
use vstd::prelude::*;
use vstd::utf8::encode_utf8;

verus! {

/// Number of bytes in the canonical encoding of a scalar.
pub const ATTRIBUTE_LENGTH: usize = 32;

/// Domain separation tag under which plaintexts are hashed to scalars.
pub const SCALAR_HASH_DOMAIN: &'static str = "QUUX-V01-CS02-with-expander";

/// The canonical encoding of the scalar that `bls12_381`'s `hash_to_field`
/// (message expansion with SHA-256) yields for `message` under the tag `domain`.
pub uninterp spec fn hash_to_field_bytes(message: Seq<u8>, domain: Seq<u8>) -> Seq<u8>;

/// The scalar attribute that stands for the bytes `message`.
pub open spec fn scalar_hash(message: Seq<u8>) -> Seq<u8> {
    hash_to_field_bytes(message, encode_utf8(SCALAR_HASH_DOMAIN@))
}

/// The scalar attribute that stands for a plaintext, hashed by its UTF-8 bytes.
pub open spec fn text_hash(plain: Seq<char>) -> Seq<u8> {
    scalar_hash(encode_utf8(plain))
}

/// A scalar attribute, public or private, as its 32 canonical bytes.
#[derive(Clone, Copy, Debug, PartialEq, Eq)]
pub struct Attribute {
    pub bytes: [u8; 32],
}

pub type PublicAttribute = Attribute;

pub type PrivateAttribute = Attribute;

impl View for Attribute {
    type V = Seq<u8>;

    open spec fn view(&self) -> Seq<u8> {
        self.bytes@
    }
}

impl Attribute {
    /// The encoding of the scalar one: a single low byte of 1.
    pub open spec fn one_spec() -> Seq<u8> {
        Seq::new(32, |i: int| if i == 0 { 1u8 } else { 0u8 })
    }

    pub fn from_bytes(bytes: [u8; 32]) -> (a: Attribute)
        ensures
            a@ == bytes@,
            a.bytes == bytes,
    {
        Attribute { bytes }
    }

    pub fn to_bytes(&self) -> (bytes: [u8; 32])
        ensures
            bytes@ == self@,
            bytes == self.bytes,
    {
        self.bytes
    }

    /// The multiplicative identity of the scalar field.
    pub fn one() -> (a: Attribute)
        ensures
            a@ == Attribute::one_spec(),
    {
        let mut bytes: [u8; 32] = [0u8; 32];
        bytes[0] = 1u8;
        let a = Attribute { bytes };
        assert(a@ =~= Attribute::one_spec());
        a
    }

    /// Whether two attributes are the same scalar.
    pub fn same(&self, other: &Attribute) -> (r: bool)
        ensures
            r == (self@ == other@),
    {
        let mut i: usize = 0;
        while i < 32
            invariant
                i <= 32,
                forall|j: int| 0 <= j < i ==> self.bytes@[j] == other.bytes@[j],
            decreases 32 - i,
        {
            if self.bytes[i] != other.bytes[i] {
                return false;
            }
            i += 1;
        }
        assert(self@ =~= other@);
        true
    }
}

/// Calls `Scalar::hash_to_field` of `bls12_381` with SHA-256 message expansion
/// for one output element and hands back its canonical bytes. The result is
/// claimed to be a function of the message and the tag alone; nothing is
/// claimed about which scalar it is.
#[verifier::external_body]
fn hash_to_field(message: &[u8], domain: &[u8]) -> (out: [u8; 32])
    ensures
        out@ == hash_to_field_bytes(message@, domain@),
{
    let mut output = [bls12_381::Scalar::zero()];
    bls12_381::Scalar::hash_to_field::<ExpandMsgXmd<sha2::Sha256>>(message, domain, &mut output);
    output[0].to_bytes()
}

/// Hashes a byte string to a scalar attribute. Equal inputs give equal
/// attributes.
pub fn hash_to_scalar(message: &[u8]) -> (a: Attribute)
    ensures
        a@ == scalar_hash(message@),
{
    let out = hash_to_field(message, SCALAR_HASH_DOMAIN.as_bytes());
    Attribute { bytes: out }
}

/// Hashes a plaintext to the public attribute that stands for it.
pub fn hash_text(plain: &str) -> (a: Attribute)
    ensures
        a@ == text_hash(plain@),
{
    hash_to_scalar(plain.as_bytes())
}

} // verus!
