use vstd::prelude::*;
use vstd::string::*;
use crate::account::AccountId;

verus! {

/// The BLAKE2b digest of 256 bits of `input`.
pub uninterp spec fn blake2x256(input: Seq<u8>) -> Seq<u8>;

/// The compressed secp256k1 public key, 33 bytes, whose private key made
/// `signature` over `message_hash`; `None` where there is no such key.
pub uninterp spec fn ecdsa_recovered_key(signature: Seq<u8>, message_hash: Seq<u8>) -> Option<
    Seq<u8>,
>;

/// The order of the secp256k1 group, as 32 bytes with the most significant
/// byte first.
pub const GROUP_ORDER: [u8; 32] = [
    0xff, 0xff, 0xff, 0xff, 0xff, 0xff, 0xff, 0xff,
    0xff, 0xff, 0xff, 0xff, 0xff, 0xff, 0xff, 0xfe,
    0xba, 0xae, 0xdc, 0xe6, 0xaf, 0x48, 0xa0, 0x3b,
    0xbf, 0xd2, 0x5e, 0x8c, 0xd0, 0x36, 0x41, 0x41,
];

/// Whether the number that `a` holds is below the number that `b` holds, both
/// of one length and with the most significant byte first: at the first place
/// where they differ, `a` has the smaller byte.
pub open spec fn below(a: Seq<u8>, b: Seq<u8>) -> bool {
    exists|i: int|
        0 <= i < a.len() && i < b.len() && #[trigger] a[i] < b[i] && forall|j: int|
            0 <= j < i ==> a[j] == b[j]
}

/// Whether the last byte of a signature names one of the four recovery
/// identifiers, plainly or with 27 added.
pub open spec fn recovery_byte_valid(b: u8) -> bool {
    b <= 3 || 27 <= b <= 30
}

/// Whether a signature of 65 bytes can be parsed: its two scalars, 32 bytes
/// each, are below the group order, and its last byte is a recovery
/// identifier.
pub open spec fn signature_parses(signature: Seq<u8>) -> bool {
    &&& signature.len() == 65
    &&& below(signature.subrange(0, 32), GROUP_ORDER@)
    &&& below(signature.subrange(32, 64), GROUP_ORDER@)
    &&& recovery_byte_valid(signature[64])
}

/// The account that signed `message`, as `signature` shows it: the digest of
/// the recovered public key. `None` where the signature cannot be parsed or no
/// key can be recovered from it.
pub open spec fn recovered_signer(message: Seq<u8>, signature: Seq<u8>) -> Option<Seq<u8>> {
    if !signature_parses(signature) {
        None
    } else {
        match ecdsa_recovered_key(signature, blake2x256(message)) {
            Some(key) => Some(blake2x256(key)),
            None => None,
        }
    }
}

/// Whether `signature` shows that `signer` signed `message`.
pub open spec fn signature_valid(message: Seq<u8>, signer: AccountId, signature: Seq<u8>) -> bool {
    recovered_signer(message, signature) == Some(signer.0@)
}

/// The signature is malformed, or no public key can be recovered from it.
#[derive(Clone, Copy, Debug, PartialEq, Eq)]
pub struct RecoveryFailed;

/// Calls `ink::env::hash_bytes` with the hasher `Blake2x256`, which writes the
/// BLAKE2b digest of 256 bits of the input to the output buffer.
#[verifier::external_body]
fn hash_bytes(input: &[u8]) -> (digest: [u8; 32])
    ensures
        digest@ == blake2x256(input@),
{
    let mut digest = [0u8; 32];
    ink::env::hash_bytes::<ink::env::hash::Blake2x256>(input, &mut digest);
    digest
}

/// Calls `ink::env::ecdsa_recover`, which recovers the compressed public key
/// from a signature and the digest it was made over, or reports that there is
/// none. The call panics on a signature that cannot be parsed.
#[verifier::external_body]
fn ecdsa_recover(signature: &[u8; 65], message_hash: &[u8; 32]) -> (key: Option<[u8; 33]>)
    requires
        signature_parses(signature@),
    ensures
        match key {
            Some(k) => ecdsa_recovered_key(signature@, message_hash@) == Some(k@),
            None => ecdsa_recovered_key(signature@, message_hash@) is None,
        },
{
    let mut key = [0u8; 33];
    match ink::env::ecdsa_recover(signature, message_hash, &mut key) {
        Ok(()) => Some(key),
        Err(_) => None,
    }
}

/// Whether the 32 bytes of `signature` from `start` on hold a number below the
/// group order.
fn scalar_in_range(signature: &[u8; 65], start: usize) -> (r: bool)
    requires
        start + 32 <= 65,
    ensures
        r == below(signature@.subrange(start as int, start + 32), GROUP_ORDER@),
{
    let ghost a = signature@.subrange(start as int, start + 32);
    let mut i: usize = 0;
    while i < 32
        invariant
            i <= 32,
            start + 32 <= 65,
            a == signature@.subrange(start as int, start + 32),
            forall|j: int| 0 <= j < i ==> a[j] == GROUP_ORDER@[j],
        decreases 32 - i,
    {
        let x = signature[start + i];
        let y = GROUP_ORDER[i];
        assert(x == a[i as int]);
        if x < y {
            return true;
        }
        if x > y {
            assert(!below(a, GROUP_ORDER@)) by {
                if below(a, GROUP_ORDER@) {
                    let w = choose|w: int|
                        0 <= w < a.len() && w < GROUP_ORDER@.len() && #[trigger] a[w]
                            < GROUP_ORDER@[w] && forall|j: int|
                            0 <= j < w ==> a[j] == GROUP_ORDER@[j];
                    if w > i {
                        assert(a[i as int] == GROUP_ORDER@[i as int]);
                    }
                }
            }
            return false;
        }
        i += 1;
    }
    false
}

/// Whether a signature can be parsed.
pub fn signature_well_formed(signature: &[u8; 65]) -> (r: bool)
    ensures
        r == signature_parses(signature@),
{
    let b = signature[64];
    (b <= 3 || (27 <= b && b <= 30)) && scalar_in_range(signature, 0) && scalar_in_range(
        signature,
        32,
    )
}

/// Recovers the account that signed `message`: hashes the message, recovers
/// the public key from the signature and the digest, and hashes the key.
pub fn recover_signer(message: &str, signature: &[u8; 65]) -> (r: Result<AccountId, RecoveryFailed>)
    ensures
        match r {
            Ok(id) => recovered_signer(message.spec_bytes(), signature@) == Some(id.0@),
            Err(_) => recovered_signer(message.spec_bytes(), signature@) is None,
        },
{
    if !signature_well_formed(signature) {
        return Err(RecoveryFailed);
    }
    let message_hash = hash_bytes(message.as_bytes());
    match ecdsa_recover(signature, &message_hash) {
        Some(key) => Ok(AccountId(hash_bytes(key.as_slice()))),
        None => Err(RecoveryFailed),
    }
}

/// Whether the account recovered from a signature is the one that was
/// claimed. A failed recovery matches no account.
pub fn signer_matches(recovered: &Result<AccountId, RecoveryFailed>, claimed: &AccountId) -> (r:
    bool)
    ensures
        r == (*recovered == Ok::<AccountId, RecoveryFailed>(*claimed)),
{
    match recovered {
        Ok(id) => id.same(claimed),
        Err(_) => false,
    }
}

/// Whether `signature` shows that `claimed_signer` signed `message`.
pub fn verify(message: &str, claimed_signer: &AccountId, signature: &[u8; 65]) -> (r: bool)
    ensures
        r == signature_valid(message.spec_bytes(), *claimed_signer, signature@),
{
    let recovered = recover_signer(message, signature);
    let r = signer_matches(&recovered, claimed_signer);
    proof {
        if let Ok(id) = recovered {
            if id.0@ == claimed_signer.0@ {
                assert(id.0 =~= claimed_signer.0);
            }
        }
    }
    r
}

} // verus!
