//! Viewing grants: bounded, revocable, auditable capabilities that let
//! a third party read a slice of someone else's credit record.
//!
//! A grant is usable only while it is Active, unexpired, and not yet
//! exhausted; every successful read advances its access counter in the
//! same step, so fields can never be read without the counter moving.

use vstd::prelude::*;
use crate::errors::PrivateScoreError;
use crate::math::{add_sat_i64, add_sat_u32, sat_add_i64, sat_add_u32, sat_sub_i64, sat_sub_u32, sub_sat_i64, sub_sat_u32};

verus! {

/// Longest lifetime a grant may be given or extended to: one year of
/// seconds past its creation.
pub const MAX_EXPIRY: i64 = 365 * 24 * 60 * 60;

/// What a viewer is allowed to see; every level strictly includes the
/// visibility of the levels below it.
#[derive(Clone, Copy, PartialEq, Eq, Structural, Debug)]
pub enum AccessLevel {
    NoAccess,
    TierOnly,
    BasicHistory,
    FullAccess,
    RegulatoryAccess,
}

impl AccessLevel {
    pub open spec fn spec_from_u8(value: u8) -> AccessLevel {
        match value {
            1u8 => AccessLevel::TierOnly,
            2u8 => AccessLevel::BasicHistory,
            3u8 => AccessLevel::FullAccess,
            4u8 => AccessLevel::RegulatoryAccess,
            _ => AccessLevel::NoAccess,
        }
    }

    pub fn from_u8(value: u8) -> (r: AccessLevel)
        ensures
            r == AccessLevel::spec_from_u8(value),
    {
        match value {
            1 => AccessLevel::TierOnly,
            2 => AccessLevel::BasicHistory,
            3 => AccessLevel::FullAccess,
            4 => AccessLevel::RegulatoryAccess,
            _ => AccessLevel::NoAccess,
        }
    }

    /// Rank of the level in the inclusion order.
    pub open spec fn spec_to_u8(self) -> u8 {
        match self {
            AccessLevel::NoAccess => 0u8,
            AccessLevel::TierOnly => 1u8,
            AccessLevel::BasicHistory => 2u8,
            AccessLevel::FullAccess => 3u8,
            AccessLevel::RegulatoryAccess => 4u8,
        }
    }

    pub fn to_u8(&self) -> (r: u8)
        ensures
            r == self.spec_to_u8(),
    {
        match self {
            AccessLevel::NoAccess => 0,
            AccessLevel::TierOnly => 1,
            AccessLevel::BasicHistory => 2,
            AccessLevel::FullAccess => 3,
            AccessLevel::RegulatoryAccess => 4,
        }
    }

    pub open spec fn spec_can_view_tier(self) -> bool {
        self != AccessLevel::NoAccess
    }

    pub fn can_view_tier(&self) -> (r: bool)
        ensures
            r == self.spec_can_view_tier(),
    {
        match self {
            AccessLevel::NoAccess => false,
            _ => true,
        }
    }

    pub open spec fn spec_can_view_history(self) -> bool {
        self == AccessLevel::BasicHistory || self == AccessLevel::FullAccess
            || self == AccessLevel::RegulatoryAccess
    }

    pub fn can_view_history(&self) -> (r: bool)
        ensures
            r == self.spec_can_view_history(),
    {
        match self {
            AccessLevel::BasicHistory | AccessLevel::FullAccess | AccessLevel::RegulatoryAccess
                => true,
            _ => false,
        }
    }

    pub open spec fn spec_can_view_full(self) -> bool {
        self == AccessLevel::FullAccess || self == AccessLevel::RegulatoryAccess
    }

    pub fn can_view_full(&self) -> (r: bool)
        ensures
            r == self.spec_can_view_full(),
    {
        match self {
            AccessLevel::FullAccess | AccessLevel::RegulatoryAccess => true,
            _ => false,
        }
    }

    /// The weaker of two levels in the inclusion order.
    pub open spec fn spec_min(self, other: AccessLevel) -> AccessLevel {
        if self.spec_to_u8() <= other.spec_to_u8() {
            self
        } else {
            other
        }
    }

    pub fn min_level(self, other: AccessLevel) -> (r: AccessLevel)
        ensures
            r == self.spec_min(other),
    {
        if self.to_u8() <= other.to_u8() {
            self
        } else {
            other
        }
    }
}

#[derive(Clone, Copy, PartialEq, Eq, Structural, Debug)]
pub enum ViewingKeyStatus {
    Active,
    Revoked,
    Expired,
    Suspended,
}

/// One (owner, viewer) grant: its access level, lifecycle status,
/// expiry, and the audited access counters.
#[derive(Clone, Copy, Debug)]
pub struct ViewingKey {
    pub owner: [u8; 32],
    pub viewer: [u8; 32],
    /// Identity key of the credit record the grant exposes.
    pub credit_record: [u8; 32],
    pub access_level: AccessLevel,
    pub status: ViewingKeyStatus,
    pub granted_at: i64,
    pub expires_at: i64,
    pub last_accessed_at: i64,
    pub access_count: u32,
    /// Zero means unlimited reads.
    pub max_accesses: u32,
    pub one_time_use: bool,
    pub notify_on_access: bool,
}

/// A viewer's request for disclosure at some level.
#[derive(Clone, Copy, Debug)]
pub struct DisclosureRequest {
    pub viewer: [u8; 32],
    pub access_level: AccessLevel,
    pub requested_at: i64,
}

/// Which field groups one authorized read disclosed, and when.
#[derive(Clone, Copy, PartialEq, Eq, Structural, Debug)]
pub struct DisclosureResponse {
    pub disclosed_at: i64,
    pub tier_disclosed: bool,
    pub history_disclosed: bool,
    pub full_access_granted: bool,
}

impl ViewingKey {
    /// The grant a fresh (or re-issued) authorization creates: Active,
    /// unlimited reads, counters reset, valid until `expiry`.
    pub open spec fn spec_granted(
        owner: [u8; 32],
        viewer: [u8; 32],
        access_level: AccessLevel,
        expiry: i64,
        now: i64,
    ) -> ViewingKey {
        ViewingKey {
            owner,
            viewer,
            credit_record: owner,
            access_level,
            status: ViewingKeyStatus::Active,
            granted_at: now,
            expires_at: expiry,
            last_accessed_at: 0i64,
            access_count: 0u32,
            max_accesses: 0u32,
            one_time_use: false,
            notify_on_access: true,
        }
    }

    pub open spec fn spec_is_expired(self, current_time: i64) -> bool {
        self.expires_at > 0 && current_time > self.expires_at
    }

    pub fn is_expired(&self, current_time: i64) -> (r: bool)
        ensures
            r == self.spec_is_expired(current_time),
    {
        self.expires_at > 0 && current_time > self.expires_at
    }

    pub open spec fn spec_is_access_exhausted(self) -> bool {
        self.max_accesses > 0 && self.access_count >= self.max_accesses
    }

    pub fn is_access_exhausted(&self) -> (r: bool)
        ensures
            r == self.spec_is_access_exhausted(),
    {
        self.max_accesses > 0 && self.access_count >= self.max_accesses
    }

    pub open spec fn spec_is_valid(self, current_time: i64) -> bool {
        self.status == ViewingKeyStatus::Active && !self.spec_is_expired(current_time)
            && !self.spec_is_access_exhausted()
    }

    pub fn is_valid(&self, current_time: i64) -> (r: bool)
        ensures
            r == self.spec_is_valid(current_time),
    {
        self.status == ViewingKeyStatus::Active && !self.is_expired(current_time)
            && !self.is_access_exhausted()
    }

    /// The grant after one successful read: counter advanced, access
    /// time stamped, and the grant self-expired if it was one-time-use
    /// or its reads are now used up.
    pub open spec fn spec_recorded(self, current_time: i64) -> ViewingKey {
        let bumped = ViewingKey {
            access_count: sat_add_u32(self.access_count, 1),
            last_accessed_at: current_time,
            ..self
        };
        if self.one_time_use || bumped.spec_is_access_exhausted() {
            ViewingKey { status: ViewingKeyStatus::Expired, ..bumped }
        } else {
            bumped
        }
    }

    /// Records one read through the grant, in the same step that makes
    /// the read valid: the counter can never lag a disclosure, and an
    /// invalid grant never advances the counter. A grant whose read
    /// bound is used up is refused as out of reads; any other
    /// invalidity is refused as an invalid grant.
    pub fn record_access(&mut self, current_time: i64) -> (r: Result<(), PrivateScoreError>)
        ensures
            ({
                let k = *old(self);
                if k.spec_is_access_exhausted() {
                    r == Err::<(), PrivateScoreError>(PrivateScoreError::MaxAccessesReached)
                        && *final(self) == k
                } else if !k.spec_is_valid(current_time) {
                    r == Err::<(), PrivateScoreError>(PrivateScoreError::InvalidViewingKey)
                        && *final(self) == k
                } else {
                    r == Ok::<(), PrivateScoreError>(()) && *final(self) == k.spec_recorded(
                        current_time,
                    )
                }
            }),
    {
        if self.is_access_exhausted() {
            return Err(PrivateScoreError::MaxAccessesReached);
        }
        if !self.is_valid(current_time) {
            return Err(PrivateScoreError::InvalidViewingKey);
        }
        self.access_count = add_sat_u32(self.access_count, 1);
        self.last_accessed_at = current_time;
        if self.one_time_use || self.is_access_exhausted() {
            self.status = ViewingKeyStatus::Expired;
        }
        Ok(())
    }

    /// Revocation by the owner is terminal: no path leads out of
    /// Revoked.
    pub fn revoke(&mut self)
        ensures
            *final(self) == (ViewingKey { status: ViewingKeyStatus::Revoked, ..*old(self) }),
    {
        self.status = ViewingKeyStatus::Revoked;
    }

    pub open spec fn spec_remaining_accesses(self) -> Option<u32> {
        if self.max_accesses == 0 {
            None
        } else {
            Some(sat_sub_u32(self.max_accesses, self.access_count))
        }
    }

    pub fn remaining_accesses(&self) -> (r: Option<u32>)
        ensures
            r == self.spec_remaining_accesses(),
    {
        if self.max_accesses == 0 {
            None
        } else {
            Some(sub_sat_u32(self.max_accesses, self.access_count))
        }
    }

    pub open spec fn spec_time_remaining(self, current_time: i64) -> i64 {
        if sat_sub_i64(self.expires_at, current_time) > 0 {
            sat_sub_i64(self.expires_at, current_time)
        } else {
            0i64
        }
    }

    pub fn time_remaining(&self, current_time: i64) -> (r: i64)
        ensures
            r == self.spec_time_remaining(current_time),
    {
        let left = sub_sat_i64(self.expires_at, current_time);
        if left > 0 {
            left
        } else {
            0
        }
    }

    /// The grant after an expiry extension, never past one year from
    /// when it was granted.
    pub open spec fn spec_extended(self, additional_seconds: i64) -> ViewingKey {
        let new_expiry = sat_add_i64(self.expires_at, additional_seconds);
        let max_allowed = sat_add_i64(self.granted_at, MAX_EXPIRY);
        ViewingKey {
            expires_at: if new_expiry <= max_allowed {
                new_expiry
            } else {
                max_allowed
            },
            ..self
        }
    }

    pub fn extend_expiry(&mut self, additional_seconds: i64)
        ensures
            *final(self) == old(self).spec_extended(additional_seconds),
    {
        let new_expiry = add_sat_i64(self.expires_at, additional_seconds);
        let max_allowed = add_sat_i64(self.granted_at, MAX_EXPIRY);
        self.expires_at = if new_expiry <= max_allowed {
            new_expiry
        } else {
            max_allowed
        };
    }

    /// Checks a grant and records the read as one atomic step, naming
    /// the precondition that failed: out of reads (also when the
    /// exhausting read already self-expired the grant), not Active, or
    /// past its expiry time. On success it discloses the field groups
    /// visible at the weaker of the granted and the requested level.
    pub fn check_and_record_access(
        &mut self,
        requested_level: AccessLevel,
        current_time: i64,
    ) -> (r: Result<DisclosureResponse, PrivateScoreError>)
        ensures
            ({
                let k = *old(self);
                if k.spec_is_access_exhausted() {
                    r == Err::<DisclosureResponse, PrivateScoreError>(
                        PrivateScoreError::MaxAccessesReached,
                    ) && *final(self) == k
                } else if k.status != ViewingKeyStatus::Active {
                    r == Err::<DisclosureResponse, PrivateScoreError>(
                        PrivateScoreError::InvalidViewingKey,
                    ) && *final(self) == k
                } else if k.spec_is_expired(current_time) {
                    r == Err::<DisclosureResponse, PrivateScoreError>(
                        PrivateScoreError::ViewingKeyExpired,
                    ) && *final(self) == k
                } else {
                    let effective = k.access_level.spec_min(requested_level);
                    r == Ok::<DisclosureResponse, PrivateScoreError>(DisclosureResponse {
                        disclosed_at: current_time,
                        tier_disclosed: effective.spec_can_view_tier(),
                        history_disclosed: effective.spec_can_view_history(),
                        full_access_granted: effective.spec_can_view_full(),
                    }) && *final(self) == k.spec_recorded(current_time)
                }
            }),
    {
        if self.is_access_exhausted() {
            return Err(PrivateScoreError::MaxAccessesReached);
        }
        if self.status != ViewingKeyStatus::Active {
            return Err(PrivateScoreError::InvalidViewingKey);
        }
        if self.is_expired(current_time) {
            return Err(PrivateScoreError::ViewingKeyExpired);
        }
        let effective = self.access_level.min_level(requested_level);
        let response = DisclosureResponse {
            disclosed_at: current_time,
            tier_disclosed: effective.can_view_tier(),
            history_disclosed: effective.can_view_history(),
            full_access_granted: effective.can_view_full(),
        };
        self.access_count = add_sat_u32(self.access_count, 1);
        self.last_accessed_at = current_time;
        if self.one_time_use || self.is_access_exhausted() {
            self.status = ViewingKeyStatus::Expired;
        }
        Ok(response)
    }
}

/// A grant with a read bound never lets the counter pass the bound:
/// a read is only recorded while the grant is still valid, and the
/// grant that reaches its bound expires in the same step.
pub proof fn lemma_access_count_never_exceeds_max(k: ViewingKey, now: i64)
    requires
        k.max_accesses > 0 ==> k.access_count <= k.max_accesses,
    ensures
        k.max_accesses > 0 ==> (if k.spec_is_valid(now) {
            k.spec_recorded(now)
        } else {
            k
        }).access_count <= k.max_accesses,
{
}

/// A one-time-use grant admits exactly one successful read: recording
/// that read expires the grant, so it is valid at no later time.
pub proof fn lemma_one_time_use_is_single_use(k: ViewingKey, now: i64, later: i64)
    requires
        k.spec_is_valid(now),
        k.one_time_use,
    ensures
        k.spec_recorded(now).status == ViewingKeyStatus::Expired,
        !k.spec_recorded(now).spec_is_valid(later),
{
}

} // verus!
