use conclave::state::VerificationStatus;
use conclave::tofu::{updated_record, unverify_user, verification_status, verify_user, FingerprintUpdate, KnownFingerprint};

fn see(record: Option<KnownFingerprint>, fp: &str) -> (VerificationStatus, Option<KnownFingerprint>) {
    let (status, update) = verification_status(&record, fp);
    (status, updated_record(record, fp, &update))
}

#[test]
fn first_use_is_trusted_unverified() {
    let (status, record) = see(None, "aa11");
    assert_eq!(status, VerificationStatus::Unverified);
    let r = record.as_ref().unwrap();
    assert_eq!(r.fingerprint, "aa11");
    assert!(!r.verified && !r.key_changed);
    let (status, _) = see(record, "aa11");
    assert_eq!(status, VerificationStatus::Unverified);
}

#[test]
fn empty_fingerprint_is_unknown_and_writes_nothing() {
    let (status, update) = verification_status(&None, "");
    assert_eq!(status, VerificationStatus::Unknown);
    assert!(matches!(update, FingerprintUpdate::Keep));
}

#[test]
fn changed_key_sticks_until_verified() {
    let (_, record) = see(None, "aa11");
    let (status, record) = see(record, "bb22");
    assert_eq!(status, VerificationStatus::Changed);
    let (status, mut record) = see(record, "bb22");
    assert_eq!(status, VerificationStatus::Changed);
    assert!(verify_user(&mut record));
    let (status, record) = see(record, "bb22");
    assert_eq!(status, VerificationStatus::Verified);
    let (status, _) = see(record, "cc33");
    assert_eq!(status, VerificationStatus::Changed);
}

#[test]
fn unverify_clears_verification_and_change_flag() {
    let (_, mut record) = see(None, "aa11");
    assert!(verify_user(&mut record));
    assert!(unverify_user(&mut record));
    let (status, _) = see(record, "aa11");
    assert_eq!(status, VerificationStatus::Unverified);
    let mut nothing: Option<KnownFingerprint> = None;
    assert!(!verify_user(&mut nothing));
    assert!(!unverify_user(&mut nothing));
}

/// The records of several users, kept in memory the way the message store
/// keeps them on disk.
struct Records(std::collections::HashMap<u128, KnownFingerprint>);

impl Records {
    fn new() -> Self {
        Records(std::collections::HashMap::new())
    }

    fn get_verification_status(&mut self, user_id: u128, fp: &str) -> VerificationStatus {
        let stored = self.0.remove(&user_id);
        let (status, update) = verification_status(&stored, fp);
        if let Some(r) = updated_record(stored, fp, &update) {
            self.0.insert(user_id, r);
        }
        status
    }

    fn verify_user(&mut self, user_id: u128) -> bool {
        let mut stored = self.0.remove(&user_id);
        let found = verify_user(&mut stored);
        if let Some(r) = stored {
            self.0.insert(user_id, r);
        }
        found
    }

    fn unverify_user(&mut self, user_id: u128) -> bool {
        let mut stored = self.0.remove(&user_id);
        let found = unverify_user(&mut stored);
        if let Some(r) = stored {
            self.0.insert(user_id, r);
        }
        found
    }
}

#[test]
fn test_tofu_first_seen_returns_unverified() {
    let mut store = Records::new();
    let status = store.get_verification_status(1, "aabbccdd");
    assert_eq!(status, VerificationStatus::Unverified);
}

#[test]
fn test_tofu_same_fingerprint_returns_unverified() {
    let mut store = Records::new();
    store.get_verification_status(1, "aabbccdd");
    let status = store.get_verification_status(1, "aabbccdd");
    assert_eq!(status, VerificationStatus::Unverified);
}

#[test]
fn test_tofu_verified_returns_verified() {
    let mut store = Records::new();
    store.get_verification_status(1, "aabbccdd");
    store.verify_user(1);
    let status = store.get_verification_status(1, "aabbccdd");
    assert_eq!(status, VerificationStatus::Verified);
}

#[test]
fn test_tofu_changed_fingerprint_returns_changed() {
    let mut store = Records::new();
    store.get_verification_status(1, "aabbccdd");
    let status = store.get_verification_status(1, "newfingerprint");
    assert_eq!(status, VerificationStatus::Changed);
}

#[test]
fn test_tofu_changed_is_persistent() {
    let mut store = Records::new();
    store.get_verification_status(1, "aabbccdd");
    store.get_verification_status(1, "newfingerprint");
    let status = store.get_verification_status(1, "newfingerprint");
    assert_eq!(status, VerificationStatus::Changed);
}

#[test]
fn test_tofu_verify_clears_changed() {
    let mut store = Records::new();
    store.get_verification_status(1, "aabbccdd");
    store.verify_user(1);
    store.get_verification_status(1, "newfingerprint");
    assert_eq!(store.get_verification_status(1, "newfingerprint"), VerificationStatus::Changed);
    store.verify_user(1);
    let status = store.get_verification_status(1, "newfingerprint");
    assert_eq!(status, VerificationStatus::Verified);
}

#[test]
fn test_tofu_unverify_clears_changed() {
    let mut store = Records::new();
    store.get_verification_status(1, "aabbccdd");
    store.get_verification_status(1, "newfingerprint");
    store.unverify_user(1);
    let status = store.get_verification_status(1, "newfingerprint");
    assert_eq!(status, VerificationStatus::Unverified);
}

#[test]
fn test_tofu_empty_fingerprint_returns_unknown() {
    let mut store = Records::new();
    let status = store.get_verification_status(1, "");
    assert_eq!(status, VerificationStatus::Unknown);
}

#[test]
fn test_tofu_verify_nonexistent_returns_false() {
    let mut store = Records::new();
    assert!(!store.verify_user(999));
}

#[test]
fn test_tofu_unverify_nonexistent_returns_false() {
    let mut store = Records::new();
    assert!(!store.unverify_user(999));
}
