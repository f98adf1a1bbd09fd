//! Trust on first use of signing key fingerprints: what a fingerprint seen
//! for a user means given what was stored for that user before, and how the
//! stored record changes when a key is seen, verified or unverified. Storing
//! the records is left to the caller.

use vstd::prelude::*;

use crate::state::VerificationStatus;
use crate::text::{owned, str_eq};

verus! {

/// What is stored for a user: the fingerprint last seen, whether the user
/// verified it, and whether it replaced a different one.
pub struct KnownFingerprint {
    pub fingerprint: String,
    pub verified: bool,
    pub key_changed: bool,
}

/// A stored record as plain values.
pub struct KnownView {
    pub fingerprint: Seq<char>,
    pub verified: bool,
    pub key_changed: bool,
}

impl View for KnownFingerprint {
    type V = KnownView;

    open spec fn view(&self) -> KnownView {
        KnownView {
            fingerprint: self.fingerprint@,
            verified: self.verified,
            key_changed: self.key_changed,
        }
    }
}

/// The stored record, if any, as plain values.
pub open spec fn known_view(k: Option<KnownFingerprint>) -> Option<KnownView> {
    match k {
        Some(r) => Some(r@),
        None => None,
    }
}

/// What happens to the stored record when a fingerprint is seen.
pub enum FingerprintUpdate {
    /// Nothing is written.
    Keep,
    /// The first fingerprint of the user is stored, unverified.
    Insert,
    /// The stored fingerprint is replaced by the new one, verification is
    /// cleared and the key is flagged as changed.
    Replace,
}

/// The status of a fingerprint seen for a user: unknown when the server has
/// none; unverified the first time; for the stored fingerprint, changed
/// while it carries the changed flag, else verified or unverified as the
/// user set it; changed for any other fingerprint.
pub open spec fn observed_status(stored: Option<KnownView>, current: Seq<char>) -> VerificationStatus {
    if current.len() == 0 {
        VerificationStatus::Unknown
    } else {
        match stored {
            None => VerificationStatus::Unverified,
            Some(k) => if k.fingerprint == current {
                if k.key_changed {
                    VerificationStatus::Changed
                } else if k.verified {
                    VerificationStatus::Verified
                } else {
                    VerificationStatus::Unverified
                }
            } else {
                VerificationStatus::Changed
            },
        }
    }
}

/// The write that goes with seeing a fingerprint.
pub open spec fn observed_update(stored: Option<KnownView>, current: Seq<char>) -> FingerprintUpdate {
    if current.len() == 0 {
        FingerprintUpdate::Keep
    } else {
        match stored {
            None => FingerprintUpdate::Insert,
            Some(k) => if k.fingerprint == current {
                FingerprintUpdate::Keep
            } else {
                FingerprintUpdate::Replace
            },
        }
    }
}

/// The stored record after a write.
pub open spec fn apply_update(
    stored: Option<KnownView>,
    current: Seq<char>,
    update: FingerprintUpdate,
) -> Option<KnownView> {
    match update {
        FingerprintUpdate::Keep => stored,
        FingerprintUpdate::Insert => Some(
            KnownView { fingerprint: current, verified: false, key_changed: false },
        ),
        FingerprintUpdate::Replace => Some(
            KnownView { fingerprint: current, verified: false, key_changed: true },
        ),
    }
}

/// The stored record after the fingerprint `current` is seen.
pub open spec fn after_seen(stored: Option<KnownView>, current: Seq<char>) -> Option<KnownView> {
    apply_update(stored, current, observed_update(stored, current))
}

/// The status of a user's fingerprint and the write it calls for, given the
/// record stored for the user.
pub fn verification_status(stored: &Option<KnownFingerprint>, current_fingerprint: &str) -> (r: (
    VerificationStatus,
    FingerprintUpdate,
))
    ensures
        r.0 == observed_status(known_view(*stored), current_fingerprint@),
        r.1 == observed_update(known_view(*stored), current_fingerprint@),
{
    if current_fingerprint.is_empty() {
        return (VerificationStatus::Unknown, FingerprintUpdate::Keep);
    }
    match stored {
        None => (VerificationStatus::Unverified, FingerprintUpdate::Insert),
        Some(k) => {
            if str_eq(k.fingerprint.as_str(), current_fingerprint) {
                if k.key_changed {
                    (VerificationStatus::Changed, FingerprintUpdate::Keep)
                } else if k.verified {
                    (VerificationStatus::Verified, FingerprintUpdate::Keep)
                } else {
                    (VerificationStatus::Unverified, FingerprintUpdate::Keep)
                }
            } else {
                (VerificationStatus::Changed, FingerprintUpdate::Replace)
            }
        },
    }
}

/// The record after a write, for a caller that keeps records in memory.
pub fn updated_record(
    stored: Option<KnownFingerprint>,
    current_fingerprint: &str,
    update: &FingerprintUpdate,
) -> (r: Option<KnownFingerprint>)
    ensures
        known_view(r) == apply_update(known_view(stored), current_fingerprint@, *update),
{
    match update {
        FingerprintUpdate::Keep => stored,
        FingerprintUpdate::Insert => Some(
            KnownFingerprint {
                fingerprint: owned(current_fingerprint),
                verified: false,
                key_changed: false,
            },
        ),
        FingerprintUpdate::Replace => Some(
            KnownFingerprint {
                fingerprint: owned(current_fingerprint),
                verified: false,
                key_changed: true,
            },
        ),
    }
}

/// Marking a user as verified: the stored fingerprint becomes verified and
/// loses its changed flag. Without a record nothing changes, and `false`
/// says so.
pub open spec fn verify_spec(stored: Option<KnownView>) -> Option<KnownView> {
    match stored {
        Some(k) => Some(KnownView { verified: true, key_changed: false, ..k }),
        None => None,
    }
}

/// Removing the verification of a user: the stored fingerprint becomes
/// unverified and loses its changed flag.
pub open spec fn unverify_spec(stored: Option<KnownView>) -> Option<KnownView> {
    match stored {
        Some(k) => Some(KnownView { verified: false, key_changed: false, ..k }),
        None => None,
    }
}

/// Marks a stored record as verified; returns whether there was one.
pub fn verify_user(stored: &mut Option<KnownFingerprint>) -> (found: bool)
    ensures
        found == old(stored).is_some(),
        known_view(*final(stored)) == verify_spec(known_view(*old(stored))),
{
    match stored {
        Some(k) => {
            k.verified = true;
            k.key_changed = false;
            true
        },
        None => false,
    }
}

/// Removes the verification of a stored record; returns whether there was
/// one.
pub fn unverify_user(stored: &mut Option<KnownFingerprint>) -> (found: bool)
    ensures
        found == old(stored).is_some(),
        known_view(*final(stored)) == unverify_spec(known_view(*old(stored))),
{
    match stored {
        Some(k) => {
            k.verified = false;
            k.key_changed = false;
            true
        },
        None => false,
    }
}

// ── Laws ──────────────────────────────────────────────────────────────

/// The first fingerprint seen for a user is trusted on first use: it is
/// reported unverified, and seeing it again reports it unverified again.
pub proof fn lemma_first_use(current: Seq<char>)
    requires
        current.len() > 0,
    ensures
        observed_status(None, current) == VerificationStatus::Unverified,
        observed_status(after_seen(None, current), current) == VerificationStatus::Unverified,
{
}

/// A fingerprint other than the stored one is reported as changed, and keeps
/// being reported as changed, even when it is seen again, until the user
/// verifies or unverifies it.
pub proof fn lemma_key_change_sticks(stored: KnownView, current: Seq<char>)
    requires
        current.len() > 0,
        stored.fingerprint != current,
    ensures
        observed_status(Some(stored), current) == VerificationStatus::Changed,
        observed_status(after_seen(Some(stored), current), current)
            == VerificationStatus::Changed,
        after_seen(Some(stored), current) matches Some(k) && !k.verified,
{
}

/// A verified fingerprint is reported verified as long as it stays the same;
/// verification never carries over to a different fingerprint.
pub proof fn lemma_verification_is_per_fingerprint(
    stored: Option<KnownView>,
    current: Seq<char>,
    next: Seq<char>,
)
    requires
        current.len() > 0,
        next.len() > 0,
    ensures
        observed_status(verify_spec(after_seen(stored, current)), current)
            == VerificationStatus::Verified,
        next != current ==> observed_status(verify_spec(after_seen(stored, current)), next)
            == VerificationStatus::Changed,
{
}

/// No fingerprint is ever reported verified without the user having
/// verified the stored record.
pub proof fn lemma_verified_needs_verification(stored: Option<KnownView>, current: Seq<char>)
    ensures
        observed_status(stored, current) == VerificationStatus::Verified ==> (stored matches Some(
            k,
        ) && k.verified && !k.key_changed && k.fingerprint == current),
{
}

/// A user without a fingerprint on the server is unknown, and nothing is
/// written.
pub proof fn lemma_no_fingerprint_unknown(stored: Option<KnownView>)
    ensures
        observed_status(stored, Seq::empty()) == VerificationStatus::Unknown,
        after_seen(stored, Seq::empty()) == stored,
{
}

} // verus!
