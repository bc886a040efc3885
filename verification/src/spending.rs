//! Preparing a credential for spending: which attributes are shown in the
//! clear, which are carried over from the voucher, and when the preparation
//! is refused.

use crate::attribute::Attribute;
use crate::error::{Error, ErrorKind};
use crate::voucher::{BandwidthVoucher, TOTAL_ATTRIBUTES};
use vstd::prelude::*;

verus! {

/// The bandwidth that one credential stands for, in bytes: 10 GB.
pub const BANDWIDTH_VALUE: u64 = 10 * 1024 * 1024 * 1024;

/// The `width` lowest base-256 digits of `value`, most significant first.
pub open spec fn be_bytes(value: nat, width: nat) -> Seq<u8>
    decreases width,
{
    if width == 0 {
        Seq::<u8>::empty()
    } else {
        be_bytes(value / 256, (width - 1) as nat).push((value % 256) as u8)
    }
}

/// The public attributes shown at spending: the spender's raw identity, then
/// the bandwidth value as 8 big-endian bytes.
pub open spec fn spending_attributes(raw_identity: Seq<u8>) -> Seq<Seq<u8>> {
    seq![raw_identity, be_bytes(BANDWIDTH_VALUE as nat, 8)]
}

/// What the credential-preparation routine is given, besides the issuer's
/// signature and verification key.
#[derive(Debug)]
pub struct SpendingRequest {
    /// The number of attributes the scheme's parameters are built for.
    pub n_params: u32,
    /// The attributes disclosed to the verifier.
    pub public_attributes: Vec<Vec<u8>>,
    pub serial_number: Attribute,
    pub binding_number: Attribute,
}

impl SpendingRequest {
    /// The disclosed attributes as sequences of bytes.
    pub open spec fn public_bytes(&self) -> Seq<Seq<u8>> {
        Seq::new(self.public_attributes@.len(), |i: int| self.public_attributes@[i]@)
    }
}

fn to_be_digits(value: u64, width: usize) -> (out: Vec<u8>)
    ensures
        out@ == be_bytes(value as nat, width as nat),
    decreases width,
{
    if width == 0 {
        Vec::new()
    } else {
        let mut out = to_be_digits(value / 256, width - 1);
        out.push((value % 256) as u8);
        out
    }
}

/// The 8 bytes of `value`, most significant first.
pub fn u64_to_be_bytes(value: u64) -> (out: Vec<u8>)
    ensures
        out@ == be_bytes(value as nat, 8),
        out@.len() == 8,
{
    proof {
        lemma_be_bytes_len(value as nat, 8);
    }
    to_be_digits(value, 8)
}

/// A big-endian encoding has as many bytes as it was asked for.
pub proof fn lemma_be_bytes_len(value: nat, width: nat)
    ensures
        be_bytes(value, width).len() == width,
    decreases width,
{
    if width > 0 {
        lemma_be_bytes_len(value / 256, (width - 1) as nat);
    }
}

/// Puts together what is needed to turn an issuer's signature over a voucher
/// into a credential: parameters for the full attribute count, the spender's
/// identity and the bandwidth value as disclosed attributes, and the
/// voucher's two private attributes unchanged. `parameters` is the outcome of
/// building the scheme's parameters for that count; where that failed, the
/// request is refused as malformed with the words of the failure.
pub fn prepare_for_spending(
    raw_identity: &[u8],
    attributes: &BandwidthVoucher,
    parameters: Result<(), String>,
) -> (res: Result<SpendingRequest, Error>)
    ensures
        parameters is Ok <==> res is Ok,
        parameters matches Err(reason) ==> (res matches Err(e) && e.kind
            == ErrorKind::MalformedRequest && e.message == reason),
        res matches Ok(request) ==> {
            &&& request.n_params == TOTAL_ATTRIBUTES
            &&& request.public_bytes() == spending_attributes(raw_identity@)
            &&& request.serial_number == attributes@.serial_number
            &&& request.binding_number == attributes@.binding_number
        },
{
    match parameters {
        Err(reason) => Err(Error::new(ErrorKind::MalformedRequest, reason)),
        Ok(()) => {
            let mut identity: Vec<u8> = Vec::new();
            identity.extend_from_slice(raw_identity);
            assert(identity@ =~= raw_identity@);
            let bandwidth = u64_to_be_bytes(BANDWIDTH_VALUE);
            let ghost shown = seq![identity@, bandwidth@];
            let public_attributes = vec![identity, bandwidth];
            assert(public_attributes@.len() == 2);
            assert(public_attributes@[0]@ == shown[0]);
            assert(public_attributes@[1]@ == shown[1]);
            let private = attributes.get_private_attributes();
            let request = SpendingRequest {
                n_params: TOTAL_ATTRIBUTES,
                public_attributes,
                serial_number: private[0],
                binding_number: private[1],
            };
            assert(request.public_bytes() =~= spending_attributes(raw_identity@));
            Ok(request)
        },
    }
}

} // verus!
