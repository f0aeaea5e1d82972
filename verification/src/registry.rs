//! Keyed stores for credit records and viewing grants.
//!
//! Records live under their owner's identity key, grants under the
//! (owner, viewer) pair; creation requires absence and lookup requires
//! presence, which is what gives registration its replay-free
//! once-only semantics.

use vstd::prelude::*;
use crate::credit_record::CreditRecord;
use crate::errors::PrivateScoreError;
use crate::ids::key_eq;
use crate::viewing_key::ViewingKey;

verus! {

/// Whether some record in the sequence belongs to `owner`.
pub open spec fn spec_has_owner(s: Seq<CreditRecord>, owner: [u8; 32]) -> bool {
    exists|i: int| 0 <= i < s.len() && s[i].owner@ == owner@
}

/// Whether some grant in the sequence is keyed by `(owner, viewer)`.
pub open spec fn spec_has_grant(s: Seq<ViewingKey>, owner: [u8; 32], viewer: [u8; 32]) -> bool {
    exists|i: int| 0 <= i < s.len() && s[i].owner@ == owner@ && s[i].viewer@ == viewer@
}

/// All credit records of the ledger, keyed by the owning identity.
pub struct CreditRegistry {
    pub records: Vec<CreditRecord>,
}

impl CreditRegistry {
    /// At most one record per identity.
    pub open spec fn wf(self) -> bool {
        forall|i: int, j: int|
            0 <= i < j < self.records@.len() ==> self.records@[i].owner@ != self.records@[j].owner@
    }

    pub fn new() -> (r: CreditRegistry)
        ensures
            r.records@.len() == 0,
            r.wf(),
    {
        CreditRegistry { records: Vec::new() }
    }

    pub fn find_index(&self, owner: &[u8; 32]) -> (r: Option<usize>)
        ensures
            match r {
                Some(i) => i < self.records@.len() && self.records@[i as int].owner@ == owner@,
                None => !spec_has_owner(self.records@, *owner),
            },
    {
        let mut i: usize = 0;
        while i < self.records.len()
            invariant
                i <= self.records@.len(),
                forall|k: int| 0 <= k < i ==> self.records@[k].owner@ != owner@,
            decreases self.records@.len() - i,
        {
            if key_eq(&self.records[i].owner, owner) {
                return Some(i);
            }
            i += 1;
        }
        None
    }

    /// Stores `record` back over the record registered for its owner;
    /// the owner must already be present, so `put` can never create a
    /// second record for an identity.
    pub fn put(&mut self, record: CreditRecord) -> (r: Result<(), PrivateScoreError>)
        ensures
            ({
                let s = old(self).records@;
                if !spec_has_owner(s, record.owner) {
                    r == Err::<(), PrivateScoreError>(PrivateScoreError::NotInitialized)
                        && final(self).records@ == s
                } else {
                    r == Ok::<(), PrivateScoreError>(()) && exists|i: int|
                        0 <= i < s.len() && s[i].owner@ == record.owner@ && final(self).records@
                            == s.update(i, record)
                }
            }),
            old(self).wf() ==> final(self).wf(),
    {
        let idx = match self.find_index(&record.owner) {
            None => {
                return Err(PrivateScoreError::NotInitialized);
            },
            Some(i) => i,
        };
        let _replaced = self.records.remove(idx);
        self.records.insert(idx, record);
        proof {
            assert(self.records@ =~= old(self).records@.update(idx as int, record));
        }
        Ok(())
    }

    /// A copy of the record registered for `owner`, if one exists.
    pub fn get(&self, owner: &[u8; 32]) -> (r: Option<CreditRecord>)
        ensures
            match r {
                Some(rec) => rec.owner@ == owner@ && exists|i: int|
                    0 <= i < self.records@.len() && self.records@[i] == rec,
                None => !spec_has_owner(self.records@, *owner),
            },
    {
        match self.find_index(owner) {
            Some(i) => Some(self.records[i]),
            None => None,
        }
    }
}

/// All viewing grants of the ledger, keyed by (owner, viewer).
pub struct GrantBook {
    pub grants: Vec<ViewingKey>,
}

impl GrantBook {
    /// At most one grant per (owner, viewer) pair.
    pub open spec fn wf(self) -> bool {
        forall|i: int, j: int|
            0 <= i < j < self.grants@.len() ==> !(self.grants@[i].owner@ == self.grants@[j].owner@
                && self.grants@[i].viewer@ == self.grants@[j].viewer@)
    }

    pub fn new() -> (r: GrantBook)
        ensures
            r.grants@.len() == 0,
            r.wf(),
    {
        GrantBook { grants: Vec::new() }
    }

    pub fn find_index(&self, owner: &[u8; 32], viewer: &[u8; 32]) -> (r: Option<usize>)
        ensures
            match r {
                Some(i) => i < self.grants@.len() && self.grants@[i as int].owner@ == owner@
                    && self.grants@[i as int].viewer@ == viewer@,
                None => !spec_has_grant(self.grants@, *owner, *viewer),
            },
    {
        let mut i: usize = 0;
        while i < self.grants.len()
            invariant
                i <= self.grants@.len(),
                forall|k: int|
                    0 <= k < i ==> !(self.grants@[k].owner@ == owner@ && self.grants@[k].viewer@
                        == viewer@),
            decreases self.grants@.len() - i,
        {
            if key_eq(&self.grants[i].owner, owner) && key_eq(&self.grants[i].viewer, viewer) {
                return Some(i);
            }
            i += 1;
        }
        None
    }

    /// A copy of the grant keyed by `(owner, viewer)`, if one exists.
    pub fn get(&self, owner: &[u8; 32], viewer: &[u8; 32]) -> (r: Option<ViewingKey>)
        ensures
            match r {
                Some(k) => k.owner@ == owner@ && k.viewer@ == viewer@ && exists|i: int|
                    0 <= i < self.grants@.len() && self.grants@[i] == k,
                None => !spec_has_grant(self.grants@, *owner, *viewer),
            },
    {
        match self.find_index(owner, viewer) {
            Some(i) => Some(self.grants[i]),
            None => None,
        }
    }
}

} // verus!
