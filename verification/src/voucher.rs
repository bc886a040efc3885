//! The bandwidth voucher: two private attributes, two public attributes with
//! the plaintexts they were hashed from, the deposit it belongs to, the
//! client's keys and the blind-sign request with its openings.

use crate::attribute::{hash_text, text_hash, Attribute, PrivateAttribute, PublicAttribute};
use crate::error::{Error, ErrorKind};
use nym_crypto::asymmetric::{encryption, identity};
use vstd::prelude::*;

verus! {

pub const PUBLIC_ATTRIBUTES: u32 = 2;

pub const PRIVATE_ATTRIBUTES: u32 = 2;

pub const TOTAL_ATTRIBUTES: u32 = PUBLIC_ATTRIBUTES + PRIVATE_ATTRIBUTES;

/// The x25519 private key of `nym_crypto`; the voucher only keeps it.
#[verifier::external_type_specification]
#[verifier::external_body]
pub struct ExEncryptionPrivateKey(encryption::PrivateKey);

/// The 64 bytes of the Ed25519 signature that `nym_crypto`'s identity key with
/// the secret bytes `key` gives on `message`.
pub uninterp spec fn identity_signature(key: Seq<u8>, message: Seq<u8>) -> Seq<u8>;

/// The hash of a deposit transaction, 32 raw bytes.
#[derive(Clone, Copy, Debug, PartialEq, Eq)]
pub struct TxHash {
    bytes: [u8; 32],
}

impl View for TxHash {
    type V = Seq<u8>;

    closed spec fn view(&self) -> Seq<u8> {
        self.bytes@
    }
}

impl TxHash {
    pub fn new(bytes: [u8; 32]) -> (h: TxHash)
        ensures
            h@ == bytes@,
    {
        TxHash { bytes }
    }

    pub fn as_bytes(&self) -> (bytes: &[u8])
        ensures
            bytes@ == self@,
    {
        self.bytes.as_slice()
    }
}

/// The secret bytes of an Ed25519 identity key. It has no `Clone`: whoever
/// holds it owns it.
pub struct SigningKey {
    bytes: [u8; 32],
}

impl View for SigningKey {
    type V = Seq<u8>;

    closed spec fn view(&self) -> Seq<u8> {
        self.bytes@
    }
}

impl SigningKey {
    pub fn from_bytes(bytes: [u8; 32]) -> (k: SigningKey)
        ensures
            k@ == bytes@,
    {
        SigningKey { bytes }
    }
}

/// A blind-sign request as the issuer receives it: its canonical bytes.
#[derive(Debug, PartialEq, Eq)]
pub struct BlindSignRequest {
    bytes: Vec<u8>,
}

impl View for BlindSignRequest {
    type V = Seq<u8>;

    closed spec fn view(&self) -> Seq<u8> {
        self.bytes@
    }
}

impl BlindSignRequest {
    pub fn from_bytes(bytes: Vec<u8>) -> (r: BlindSignRequest)
        ensures
            r@ == bytes@,
    {
        BlindSignRequest { bytes }
    }

    pub fn to_bytes(&self) -> (bytes: Vec<u8>)
        ensures
            bytes@ == self@,
    {
        let mut out: Vec<u8> = Vec::new();
        out.extend_from_slice(self.bytes.as_slice());
        assert(out@ =~= self@);
        out
    }
}

/// What a voucher holds, field by field.
pub struct VoucherView {
    pub serial_number: Attribute,
    pub binding_number: Attribute,
    pub voucher_value: Attribute,
    pub voucher_value_plain: String,
    pub voucher_info: Attribute,
    pub voucher_info_plain: String,
    pub tx_hash: TxHash,
    pub signing_key: Seq<u8>,
    pub encryption_key: encryption::PrivateKey,
    pub pedersen_commitments_openings: Vec<Attribute>,
    pub blind_sign_request: BlindSignRequest,
    pub use_request: bool,
}

impl VoucherView {
    /// The public attributes in their order: value, then info.
    pub open spec fn public_attributes(self) -> Seq<Attribute> {
        seq![self.voucher_value, self.voucher_info]
    }

    /// The plaintexts of the public attributes, in the same order.
    pub open spec fn public_attributes_plain(self) -> Seq<String> {
        seq![self.voucher_value_plain, self.voucher_info_plain]
    }

    /// The private attributes in their order: serial number, then binding number.
    pub open spec fn private_attributes(self) -> Seq<Attribute> {
        seq![self.serial_number, self.binding_number]
    }

    /// Each public attribute is the hash of its plaintext.
    pub open spec fn hashes_match(self) -> bool {
        &&& self.voucher_value@ == text_hash(self.voucher_value_plain@)
        &&& self.voucher_info@ == text_hash(self.voucher_info_plain@)
    }
}

/// The client-held bundle for one round of issuance.
pub struct BandwidthVoucher {
    // a random secret value generated by the client, for double-spending detection
    serial_number: PrivateAttribute,
    // a random secret value generated by the client, binding credentials together
    binding_number: PrivateAttribute,
    // the value (e.g., bandwidth) encoded in this voucher
    voucher_value: PublicAttribute,
    voucher_value_plain: String,
    // public information, e.g., type of voucher, interval
    voucher_info: PublicAttribute,
    voucher_info_plain: String,
    // the hash of the deposit transaction
    tx_hash: TxHash,
    // shows that the depositor asked for these attributes
    signing_key: SigningKey,
    // lets only this client read the signature share
    encryption_key: encryption::PrivateKey,
    pedersen_commitments_openings: Vec<Attribute>,
    blind_sign_request: BlindSignRequest,
    use_request: bool,
}

impl View for BandwidthVoucher {
    type V = VoucherView;

    closed spec fn view(&self) -> VoucherView {
        VoucherView {
            serial_number: self.serial_number,
            binding_number: self.binding_number,
            voucher_value: self.voucher_value,
            voucher_value_plain: self.voucher_value_plain,
            voucher_info: self.voucher_info,
            voucher_info_plain: self.voucher_info_plain,
            tx_hash: self.tx_hash,
            signing_key: self.signing_key@,
            encryption_key: self.encryption_key,
            pedersen_commitments_openings: self.pedersen_commitments_openings,
            blind_sign_request: self.blind_sign_request,
            use_request: self.use_request,
        }
    }
}

/// Whether `values` are exactly the two hashes of the two plaintexts in
/// `plain_values`, position by position.
pub open spec fn matches_plain(values: Seq<Attribute>, plain_values: Seq<String>) -> bool {
    &&& values.len() == 2
    &&& plain_values.len() == 2
    &&& values[0]@ == text_hash(plain_values[0]@)
    &&& values[1]@ == text_hash(plain_values[1]@)
}

/// The message that binds a request to a deposit: the request's bytes, then
/// the raw bytes of the transaction hash.
pub open spec fn binding_message(request: Seq<u8>, tx_hash: Seq<u8>) -> Seq<u8> {
    request + tx_hash
}

/// Builds a `nym_crypto` identity key from its 32 secret bytes and signs
/// `message` with it (`PrivateKey::from_bytes`, `PrivateKey::sign`). The key
/// constructor refuses only a length other than 32, so a signature always
/// comes back; Ed25519 signing uses no randomness, so it is claimed to be a
/// function of key and message.
#[verifier::external_body]
fn identity_sign(key: &[u8; 32], message: &[u8]) -> (sig: Option<[u8; 64]>)
    ensures
        sig is Some,
        sig.unwrap()@ == identity_signature(key@, message@),
{
    match identity::PrivateKey::from_bytes(key) {
        Ok(private_key) => Some(private_key.sign(message).to_bytes()),
        Err(_) => None,
    }
}

impl BandwidthVoucher {
    /// Holds of every voucher there is: each public attribute is the hash of
    /// its plaintext.
    #[verifier::type_invariant]
    spec fn hashes_hold(&self) -> bool {
        &&& self.voucher_value@ == text_hash(self.voucher_value_plain@)
        &&& self.voucher_info@ == text_hash(self.voucher_info_plain@)
    }

    /// The voucher is well formed: its public attributes are the hashes of
    /// their plaintexts.
    pub open spec fn wf(&self) -> bool {
        self@.hashes_match()
    }

    /// Assembles a voucher around a request that was prepared elsewhere. No
    /// randomness is drawn and the voucher is not marked as request-bearing.
    pub fn new_with_blind_sign_req(
        private_attributes: [PrivateAttribute; 2],
        public_attributes_plain: [&str; 2],
        tx_hash: TxHash,
        signing_key: SigningKey,
        encryption_key: encryption::PrivateKey,
        pedersen_commitments_openings: Vec<Attribute>,
        blind_sign_request: BlindSignRequest,
    ) -> (v: Self)
        ensures
            v.wf(),
            v@.serial_number == private_attributes[0],
            v@.binding_number == private_attributes[1],
            v@.voucher_value_plain@ == public_attributes_plain[0]@,
            v@.voucher_info_plain@ == public_attributes_plain[1]@,
            v@.tx_hash == tx_hash,
            v@.signing_key == signing_key@,
            v@.encryption_key == encryption_key,
            v@.pedersen_commitments_openings == pedersen_commitments_openings,
            v@.blind_sign_request == blind_sign_request,
            !v@.use_request,
    {
        let voucher_value_plain = String::from_str(public_attributes_plain[0]);
        let voucher_info_plain = String::from_str(public_attributes_plain[1]);
        let voucher_value = hash_text(public_attributes_plain[0]);
        let voucher_info = hash_text(public_attributes_plain[1]);
        BandwidthVoucher {
            serial_number: private_attributes[0],
            binding_number: private_attributes[1],
            voucher_value,
            voucher_value_plain,
            voucher_info,
            voucher_info_plain,
            tx_hash,
            signing_key,
            encryption_key,
            pedersen_commitments_openings,
            blind_sign_request,
            use_request: false,
        }
    }

    /// Builds a fresh voucher from private attributes that the caller has just
    /// sampled and from what the blind-sign request builder returned for them
    /// and for the hashes of the two plaintexts. Where the builder failed, so
    /// does the construction, with the builder's words; otherwise the voucher
    /// is marked as request-bearing.
    pub fn new(
        private_attributes: [PrivateAttribute; 2],
        voucher_value: String,
        voucher_info: String,
        tx_hash: TxHash,
        signing_key: SigningKey,
        encryption_key: encryption::PrivateKey,
        prepared: Result<(Vec<Attribute>, BlindSignRequest), String>,
    ) -> (res: Result<Self, Error>)
        ensures
            prepared is Ok <==> res is Ok,
            prepared matches Err(reason) ==> (res matches Err(e) && e.kind
                == ErrorKind::ConstructionFailure && e.message == reason),
            prepared matches Ok(built) ==> (res matches Ok(v) && {
                &&& v.wf()
                &&& v@.serial_number == private_attributes[0]
                &&& v@.binding_number == private_attributes[1]
                &&& v@.voucher_value_plain == voucher_value
                &&& v@.voucher_info_plain == voucher_info
                &&& v@.tx_hash == tx_hash
                &&& v@.signing_key == signing_key@
                &&& v@.encryption_key == encryption_key
                &&& v@.pedersen_commitments_openings == built.0
                &&& v@.blind_sign_request == built.1
                &&& v@.use_request
            }),
    {
        match prepared {
            Err(reason) => Err(Error::new(ErrorKind::ConstructionFailure, reason)),
            Ok((pedersen_commitments_openings, blind_sign_request)) => {
                let value = hash_text(voucher_value.as_str());
                let info = hash_text(voucher_info.as_str());
                Ok(
                    BandwidthVoucher {
                        serial_number: private_attributes[0],
                        binding_number: private_attributes[1],
                        voucher_value: value,
                        voucher_value_plain: voucher_value,
                        voucher_info: info,
                        voucher_info_plain: voucher_info,
                        tx_hash,
                        signing_key,
                        encryption_key,
                        pedersen_commitments_openings,
                        blind_sign_request,
                        use_request: true,
                    },
                )
            },
        }
    }

    /// The two public attributes a party should hash from the plaintexts
    /// before it asks for a blind-sign request: value, then info.
    pub fn public_attributes_of(voucher_value: &str, voucher_info: &str) -> (attrs: [
        PublicAttribute;
        2
    ])
        ensures
            attrs[0]@ == text_hash(voucher_value@),
            attrs[1]@ == text_hash(voucher_info@),
    {
        [hash_text(voucher_value), hash_text(voucher_info)]
    }

    /// Check if the plain values correspond to the public attributes.
    pub fn verify_against_plain(values: &[PublicAttribute], plain_values: &[String]) -> (ok: bool)
        ensures
            ok == matches_plain(values@, plain_values@),
    {
        if values.len() != 2 || plain_values.len() != 2 {
            return false;
        }
        let first = hash_text(plain_values[0].as_str());
        if !values[0].same(&first) {
            return false;
        }
        let second = hash_text(plain_values[1].as_str());
        values[1].same(&second)
    }

    pub fn tx_hash(&self) -> (h: &TxHash)
        ensures
            *h == self@.tx_hash,
    {
        &self.tx_hash
    }

    pub fn get_public_attributes(&self) -> (attrs: Vec<PublicAttribute>)
        ensures
            attrs@ == self@.public_attributes(),
            matches_plain(attrs@, self@.public_attributes_plain()),
    {
        proof {
            use_type_invariant(self);
        }
        let attrs = vec![self.voucher_value, self.voucher_info];
        assert(attrs@ =~= self@.public_attributes());
        attrs
    }

    pub fn encryption_key(&self) -> (k: &encryption::PrivateKey)
        ensures
            *k == self@.encryption_key,
    {
        &self.encryption_key
    }

    pub fn pedersen_commitments_openings(&self) -> (o: &Vec<Attribute>)
        ensures
            *o == self@.pedersen_commitments_openings,
    {
        &self.pedersen_commitments_openings
    }

    pub fn blind_sign_request(&self) -> (r: &BlindSignRequest)
        ensures
            *r == self@.blind_sign_request,
    {
        &self.blind_sign_request
    }

    pub fn use_request(&self) -> (u: bool)
        ensures
            u == self@.use_request,
    {
        self.use_request
    }

    pub fn get_public_attributes_plain(&self) -> (plain: Vec<String>)
        ensures
            plain@ == self@.public_attributes_plain(),
            matches_plain(self@.public_attributes(), plain@),
    {
        proof {
            use_type_invariant(self);
        }
        let plain = vec![self.voucher_value_plain.clone(), self.voucher_info_plain.clone()];
        assert(plain@ =~= self@.public_attributes_plain());
        plain
    }

    pub fn get_private_attributes(&self) -> (attrs: Vec<PrivateAttribute>)
        ensures
            attrs@ == self@.private_attributes(),
    {
        let attrs = vec![self.serial_number, self.binding_number];
        assert(attrs@ =~= self@.private_attributes());
        attrs
    }

    /// Signs the request's bytes followed by the transaction hash with the
    /// voucher's identity key.
    pub fn sign(&self, request: &BlindSignRequest) -> (sig: [u8; 64])
        ensures
            sig@ == identity_signature(
                self@.signing_key,
                binding_message(request@, self@.tx_hash@),
            ),
    {
        let mut message = request.to_bytes();
        message.extend_from_slice(self.tx_hash.as_bytes());
        assert(message@ =~= binding_message(request@, self@.tx_hash@));
        assert(self.signing_key.bytes@ == self@.signing_key);
        match identity_sign(&self.signing_key.bytes, message.as_slice()) {
            Some(sig) => sig,
            // never taken: a key of 32 bytes is not refused
            None => [0u8; 64],
        }
    }
}

/// A well-formed voucher's own public attributes match its own plaintexts.
pub proof fn lemma_voucher_matches_own_plain(v: BandwidthVoucher)
    requires
        v.wf(),
    ensures
        matches_plain(v@.public_attributes(), v@.public_attributes_plain()),
{
}

/// Nothing matches unless there are exactly two attributes and exactly two
/// plaintexts, whatever they hold.
pub proof fn lemma_wrong_length_never_matches(values: Seq<Attribute>, plain_values: Seq<String>)
    requires
        values.len() != 2 || plain_values.len() != 2,
    ensures
        !matches_plain(values, plain_values),
{
}

/// Putting another scalar in place of either attribute of a matching pair
/// breaks the match.
pub proof fn lemma_replaced_attribute_fails(
    values: Seq<Attribute>,
    plain_values: Seq<String>,
    i: int,
    other: Attribute,
)
    requires
        matches_plain(values, plain_values),
        0 <= i < 2,
        other@ != values[i]@,
    ensures
        !matches_plain(values.update(i, other), plain_values),
{
}

/// Putting a plaintext with another hash in place of either plaintext of a
/// matching pair breaks the match.
pub proof fn lemma_replaced_plaintext_fails(
    values: Seq<Attribute>,
    plain_values: Seq<String>,
    i: int,
    other: String,
)
    requires
        matches_plain(values, plain_values),
        0 <= i < 2,
        text_hash(other@) != text_hash(plain_values[i]@),
    ensures
        !matches_plain(values, plain_values.update(i, other)),
{
}

/// The match is sensitive to order: two plaintexts with different hashes do
/// not match their attributes once they change places.
pub proof fn lemma_swapped_plaintexts_fail(values: Seq<Attribute>, plain_values: Seq<String>)
    requires
        matches_plain(values, plain_values),
        text_hash(plain_values[0]@) != text_hash(plain_values[1]@),
    ensures
        !matches_plain(values, seq![plain_values[1], plain_values[0]]),
{
}

/// Two vouchers that hold the same plaintexts hold the same public
/// attributes: the hash depends on the plaintext alone.
pub proof fn lemma_same_plain_same_attributes(a: BandwidthVoucher, b: BandwidthVoucher)
    requires
        a.wf(),
        b.wf(),
        a@.voucher_value_plain@ == b@.voucher_value_plain@,
        a@.voucher_info_plain@ == b@.voucher_info_plain@,
    ensures
        a@.voucher_value@ == b@.voucher_value@,
        a@.voucher_info@ == b@.voucher_info@,
{
}

} // verus!
