use vstd::prelude::*;

use crate::error::LoginError;

verus! {

/// The smallest id of an account offered for interactive login.
pub const MIN_UID: u32 = 1000;

/// The first id above the interactive accounts.
pub const MAX_UID: u32 = 65534;

/// The buffer size a record lookup starts with.
pub const INITIAL_LOOKUP_BUFFER: usize = 2048;

/// A local account, as the identity database describes it.
#[derive(Clone, Debug)]
pub struct User {
    pub uid: u32,
    pub primary_group: u32,
    pub name: String,
    pub home_dir: String,
    pub shell: String,
}

/// What one reentrant record lookup reported.
#[derive(PartialEq, Eq, Structural, Clone, Copy, Debug)]
pub enum LookupStatus {
    /// The record was filled in.
    Found,
    /// No such record.
    Missing,
    /// The buffer was too small for the record.
    BufferTooSmall,
    /// The caller may not read the store.
    AccessDenied,
}

/// What to do after one lookup.
#[derive(PartialEq, Eq, Structural, Clone, Copy, Debug)]
pub enum LookupNext {
    /// The record is there to be read.
    Read,
    /// Look up again with a buffer of this size.
    Retry(usize),
}

/// The decision after a lookup with a buffer of `buffer_len` bytes: read the
/// record, retry with twice the buffer, or fail.
pub open spec fn lookup_decision(status: LookupStatus, buffer_len: usize) -> Result<
    LookupNext,
    LoginError,
> {
    match status {
        LookupStatus::Found => Ok(LookupNext::Read),
        LookupStatus::Missing => Err(LoginError::NotFound),
        LookupStatus::AccessDenied => Err(LoginError::PermissionDenied),
        LookupStatus::BufferTooSmall => if 2 * buffer_len <= usize::MAX {
            Ok(LookupNext::Retry((2 * buffer_len) as usize))
        } else {
            Err(LoginError::ResourceExhausted)
        },
    }
}

/// Decides how a bounded-buffer lookup goes on: a buffer that was too small
/// is doubled, unless doubling overflows.
pub fn next_lookup(status: LookupStatus, buffer_len: usize) -> (r: Result<LookupNext, LoginError>)
    ensures
        r == lookup_decision(status, buffer_len),
{
    match status {
        LookupStatus::Found => Ok(LookupNext::Read),
        LookupStatus::Missing => Err(LoginError::NotFound),
        LookupStatus::AccessDenied => Err(LoginError::PermissionDenied),
        LookupStatus::BufferTooSmall => match buffer_len.checked_mul(2) {
            Some(n) => Ok(LookupNext::Retry(n)),
            None => Err(LoginError::ResourceExhausted),
        },
    }
}

/// The ids of a sequence of accounts.
pub open spec fn uids(users: Seq<User>) -> Seq<u32> {
    users.map_values(|u: User| u.uid)
}

/// The accounts of `records` whose id lies in `[min_uid, max_uid)`, in order,
/// each id kept at its first occurrence only.
pub open spec fn selectable(records: Seq<User>, min_uid: u32, max_uid: u32) -> Seq<User>
    decreases records.len(),
{
    if records.len() == 0 {
        Seq::empty()
    } else {
        let kept = selectable(records.drop_last(), min_uid, max_uid);
        let u = records.last();
        if min_uid <= u.uid < max_uid && !uids(kept).contains(u.uid) {
            kept.push(u)
        } else {
            kept
        }
    }
}

impl User {
    pub fn new(uid: u32, primary_group: u32, name: String, home_dir: String, shell: String) -> (r:
        User)
        ensures
            r.uid == uid,
            r.primary_group == primary_group,
            r.name == name,
            r.home_dir == home_dir,
            r.shell == shell,
    {
        User { uid, primary_group, name, home_dir, shell }
    }

    pub fn uid(&self) -> (r: u32)
        ensures
            r == self.uid,
    {
        self.uid
    }

    pub fn primary_group(&self) -> (r: u32)
        ensures
            r == self.primary_group,
    {
        self.primary_group
    }

    pub fn name(&self) -> (r: &str)
        ensures
            r@ == self.name@,
    {
        self.name.as_str()
    }

    pub fn home_dir(&self) -> (r: &str)
        ensures
            r@ == self.home_dir@,
    {
        self.home_dir.as_str()
    }

    pub fn shell(&self) -> (r: &str)
        ensures
            r@ == self.shell@,
    {
        self.shell.as_str()
    }

    /// A field-by-field copy.
    pub fn copied(&self) -> (r: User)
        ensures
            r == *self,
    {
        User {
            uid: self.uid,
            primary_group: self.primary_group,
            name: self.name.clone(),
            home_dir: self.home_dir.clone(),
            shell: self.shell.clone(),
        }
    }

    /// The accounts offered for interactive login: those with an id in
    /// `[MIN_UID, MAX_UID)`, in database order, without repeated ids.
    pub fn all(records: &Vec<User>) -> (r: Vec<User>)
        ensures
            r@ == selectable(records@, MIN_UID, MAX_UID),
    {
        enumerate_accounts(records, MIN_UID, MAX_UID)
    }
}

/// Keeps, in order, the records whose id lies in `[min_uid, max_uid)`,
/// dropping any id already kept.
pub fn enumerate_accounts(records: &Vec<User>, min_uid: u32, max_uid: u32) -> (r: Vec<User>)
    ensures
        r@ == selectable(records@, min_uid, max_uid),
{
    let mut kept: Vec<User> = Vec::new();
    let mut i: usize = 0;
    while i < records.len()
        invariant
            i <= records.len(),
            kept@ == selectable(records@.take(i as int), min_uid, max_uid),
        decreases records.len() - i,
    {
        let u = &records[i];
        proof {
            assert(records@.take(i + 1).drop_last() =~= records@.take(i as int));
        }
        if min_uid <= u.uid && u.uid < max_uid {
            let mut seen = false;
            let mut j: usize = 0;
            while j < kept.len()
                invariant
                    j <= kept.len(),
                    seen == exists|k: int| 0 <= k < j && (#[trigger] kept@[k]).uid == u.uid,
                decreases kept.len() - j,
            {
                if kept[j].uid == u.uid {
                    seen = true;
                }
                j = j + 1;
            }
            proof {
                let ids = uids(kept@);
                if seen {
                    let k = choose|k: int| 0 <= k < j && (#[trigger] kept@[k]).uid == u.uid;
                    assert(ids[k] == u.uid);
                }
                if ids.contains(u.uid) {
                    let k = choose|k: int| 0 <= k < ids.len() && ids[k] == u.uid;
                    assert(kept@[k].uid == u.uid);
                }
            }
            if !seen {
                kept.push(u.copied());
            }
        }
        i = i + 1;
    }
    proof {
        assert(records@.take(i as int) =~= records@);
    }
    kept
}

/// Account enumeration never yields an id outside `[min_uid, max_uid)` and
/// never yields the same id twice.
pub proof fn lemma_selectable_in_range_unique(records: Seq<User>, min_uid: u32, max_uid: u32)
    ensures
        forall|i: int|
            0 <= i < selectable(records, min_uid, max_uid).len() ==> min_uid <= (#[trigger] selectable(
                records,
                min_uid,
                max_uid,
            )[i]).uid < max_uid,
        forall|i: int, j: int|
            0 <= i < j < selectable(records, min_uid, max_uid).len() ==> (#[trigger] selectable(
                records,
                min_uid,
                max_uid,
            )[i]).uid != (#[trigger] selectable(records, min_uid, max_uid)[j]).uid,
    decreases records.len(),
{
    if records.len() > 0 {
        let kept = selectable(records.drop_last(), min_uid, max_uid);
        lemma_selectable_in_range_unique(records.drop_last(), min_uid, max_uid);
        let u = records.last();
        if min_uid <= u.uid < max_uid && !uids(kept).contains(u.uid) {
            assert forall|i: int| 0 <= i < kept.len() implies kept[i].uid != u.uid by {
                assert(uids(kept)[i] == kept[i].uid);
            }
        }
    }
}

} // verus!
