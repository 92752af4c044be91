use settlement::account::AccountId;
use settlement::signature::{
    recover_signer, signature_well_formed, signer_matches, verify, RecoveryFailed, GROUP_ORDER,
};

const SIGNER: [u8; 32] = [249, 89, 234, 244, 84, 28, 234, 153, 73, 117, 217, 80, 218, 168, 131, 15, 1, 246, 151, 84, 223, 103, 116, 224, 13, 12, 4, 190, 53, 51, 29, 180];
const STRANGER: [u8; 32] = [196, 232, 64, 102, 66, 7, 72, 56, 205, 122, 34, 99, 243, 6, 106, 58, 57, 255, 248, 184, 48, 83, 249, 40, 160, 171, 59, 163, 236, 10, 231, 100];
const SIG_HELLO: [u8; 65] = [128, 149, 182, 162, 205, 18, 162, 45, 152, 230, 232, 62, 142, 119, 96, 240, 192, 119, 91, 50, 98, 253, 242, 51, 180, 245, 129, 168, 62, 244, 85, 38, 73, 6, 196, 107, 211, 101, 198, 198, 168, 162, 228, 129, 118, 189, 52, 28, 159, 82, 142, 254, 12, 15, 170, 94, 229, 99, 63, 195, 12, 155, 110, 78, 1];
const SIG_BY_STRANGER: [u8; 65] = [7, 137, 222, 233, 34, 168, 9, 226, 19, 101, 245, 21, 193, 11, 97, 189, 196, 79, 24, 235, 92, 247, 228, 247, 29, 73, 42, 200, 190, 21, 117, 118, 110, 26, 18, 58, 113, 173, 39, 123, 30, 218, 72, 79, 102, 37, 69, 198, 87, 228, 167, 196, 175, 111, 35, 56, 165, 211, 28, 117, 44, 115, 1, 65, 1];
fn with_scalars(r: [u8; 32], s: [u8; 32], v: u8) -> [u8; 65] {
    let mut signature = [0u8; 65];
    signature[..32].copy_from_slice(&r);
    signature[32..64].copy_from_slice(&s);
    signature[64] = v;
    signature
}

fn one() -> [u8; 32] {
    let mut x = [0u8; 32];
    x[31] = 1;
    x
}

fn order_less_one() -> [u8; 32] {
    let mut x = GROUP_ORDER;
    x[31] -= 1;
    x
}

#[test]
fn recovers_the_account_that_signed() {
    assert_eq!(recover_signer("hello", &SIG_HELLO), Ok(AccountId(SIGNER)));
}

#[test]
fn recovered_account_is_a_digest_and_not_the_message() {
    let id = recover_signer("hello", &SIG_HELLO).unwrap();
    let mut padded = [0u8; 32];
    padded[..5].copy_from_slice(b"hello");
    assert_ne!(id.0, padded);
    assert_ne!(id.0, [0u8; 32]);
}

#[test]
fn verifies_the_signer_of_a_message() {
    assert!(verify("hello", &AccountId(SIGNER), &SIG_HELLO));
}

#[test]
fn verification_is_repeatable() {
    for _ in 0..3 {
        assert!(verify("hello", &AccountId(SIGNER), &SIG_HELLO));
    }
}

#[test]
fn rejects_another_message() {
    assert!(!verify("hellp", &AccountId(SIGNER), &SIG_HELLO));
}

#[test]
fn rejects_another_claimed_signer() {
    assert!(!verify("hello", &AccountId(STRANGER), &SIG_HELLO));
    assert!(!verify("hello", &AccountId([0; 32]), &SIG_HELLO));
}

#[test]
fn accepts_recovery_byte_with_27_added() {
    let mut signature = SIG_HELLO;
    signature[64] += 27;
    assert!(verify("hello", &AccountId(SIGNER), &signature));
}

#[test]
fn rejects_the_other_recovery_identifier() {
    let mut signature = SIG_HELLO;
    signature[64] ^= 1;
    assert!(!verify("hello", &AccountId(SIGNER), &signature));
}

#[test]
fn malformed_recovery_byte_fails_closed() {
    for v in [4u8, 5, 26, 31, 32, 200, 255] {
        let mut signature = SIG_HELLO;
        signature[64] = v;
        assert!(!signature_well_formed(&signature));
        assert_eq!(recover_signer("hello", &signature), Err(RecoveryFailed));
        assert!(!verify("hello", &AccountId(SIGNER), &signature));
    }
}

#[test]
fn recovery_bytes_that_parse() {
    for v in [0u8, 1, 2, 3, 27, 28, 29, 30] {
        assert!(signature_well_formed(&with_scalars(one(), one(), v)));
    }
}

#[test]
fn scalar_at_or_above_the_group_order_fails_closed() {
    let at_order = with_scalars(GROUP_ORDER, one(), 0);
    assert!(!signature_well_formed(&at_order));
    assert_eq!(recover_signer("hello", &at_order), Err(RecoveryFailed));
    let second_at_order = with_scalars(one(), GROUP_ORDER, 0);
    assert!(!signature_well_formed(&second_at_order));
    assert!(!verify("hello", &AccountId(SIGNER), &second_at_order));
    let all_ones = with_scalars([0xff; 32], [0xff; 32], 1);
    assert!(!signature_well_formed(&all_ones));
    assert!(!verify("hello", &AccountId(SIGNER), &all_ones));
}

#[test]
fn scalar_just_below_the_group_order_parses() {
    let signature = with_scalars(order_less_one(), order_less_one(), 0);
    assert!(signature_well_formed(&signature));
    // Whatever is recovered, it is not the signer.
    assert!(!verify("hello", &AccountId(SIGNER), &signature));
}

#[test]
fn scalar_compared_from_the_most_significant_byte() {
    // Larger than the order in the last byte only.
    let mut above = GROUP_ORDER;
    above[31] += 1;
    assert!(!signature_well_formed(&with_scalars(above, one(), 0)));
    // Smaller in the first byte, larger in every other one.
    let mut below = [0xffu8; 32];
    below[0] = 0xfe;
    assert!(signature_well_formed(&with_scalars(below, one(), 0)));
}

#[test]
fn zero_scalars_parse_and_recover_nothing() {
    let signature = [0u8; 65];
    assert!(signature_well_formed(&signature));
    assert_eq!(recover_signer("hello", &signature), Err(RecoveryFailed));
    assert!(!verify("hello", &AccountId(SIGNER), &signature));
}

#[test]
fn failed_recovery_matches_no_account() {
    assert!(!signer_matches(&Err(RecoveryFailed), &AccountId(SIGNER)));
    assert!(signer_matches(&Ok(AccountId(SIGNER)), &AccountId(SIGNER)));
    assert!(!signer_matches(&Ok(AccountId(STRANGER)), &AccountId(SIGNER)));
}

#[test]
fn signature_of_a_stranger_recovers_the_stranger() {
    let message = format!("buy_ido_{}_{}_100_1000_0", "05".repeat(32), "04".repeat(32));
    assert_eq!(recover_signer(&message, &SIG_BY_STRANGER), Ok(AccountId(STRANGER)));
    assert!(!verify(&message, &AccountId(SIGNER), &SIG_BY_STRANGER));
}
