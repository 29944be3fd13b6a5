//! Subscribers who may not enter new commitments. What they already have goes
//! on, and they may still cancel and be paid back.
use vstd::prelude::*;

use crate::operations::Operation;
use crate::types::{Address, BlocklistEntry, Error};
use crate::vault::{SubscriptionVault, VaultState};

verus! {

impl VaultState {
    /// `subscriber` has a subscription with `merchant`, in whatever status.
    pub open spec fn are_related(self, subscriber: Address, merchant: Address) -> bool {
        exists|id: u32| #[trigger]
            self.accounts.contains_key(id) && self.accounts[id].sub.subscriber == subscriber
                && self.accounts[id].sub.merchant == merchant
    }

    /// `actor` may bar `subscriber`: it is the admin, or a merchant that the
    /// subscriber has a subscription with.
    pub open spec fn may_block(self, actor: Address, subscriber: Address) -> bool {
        self.admin_refusal(actor) is None || self.are_related(subscriber, actor)
    }

    /// The state with `entry` on the blocklist.
    pub open spec fn with_blocked(self, entry: BlocklistEntry) -> VaultState {
        VaultState { blocklist: self.blocklist.insert(entry.subscriber, entry), ..self }
    }

    /// Why `admin` may not take `subscriber` off the blocklist, if so.
    pub open spec fn unblock_refusal(self, admin: Address, subscriber: Address) -> Option<Error> {
        if self.admin_refusal(admin) is Some {
            self.admin_refusal(admin)
        } else if !self.blocklist.contains_key(subscriber) {
            Some(Error::NotFound)
        } else {
            None
        }
    }

    /// The state with `subscriber` off the blocklist.
    pub open spec fn with_unblocked(self, subscriber: Address) -> VaultState {
        VaultState { blocklist: self.blocklist.remove(subscriber), ..self }
    }
}

impl SubscriptionVault {
    /// Looks for a subscription between the two.
    fn have_subscription(&self, subscriber: Address, merchant: Address) -> (related: bool)
        requires
            self.wf(),
        ensures
            related == self@.are_related(subscriber, merchant),
    {
        let mut id: u32 = 0;
        while id < self.next_id
            invariant
                self.wf(),
                id <= self.next_id,
                forall|earlier: u32|
                    earlier < id && #[trigger] self@.accounts.contains_key(earlier) ==> !(
                    self@.accounts[earlier].sub.subscriber == subscriber
                        && self@.accounts[earlier].sub.merchant == merchant),
            decreases self.next_id - id,
        {
            if let Ok(account) = self.account(id) {
                if account.sub.subscriber == subscriber && account.sub.merchant == merchant {
                    return true;
                }
            }
            id = id + 1;
        }
        false
    }

    /// Bars `subscriber` from new commitments. A later entry takes the place of
    /// an earlier one.
    pub fn add_to_blocklist(
        &mut self,
        actor: Address,
        subscriber: Address,
        reason: Option<Vec<u8>>,
        now: u64,
    ) -> (r: Result<(), Error>)
        requires
            old(self).wf(),
        ensures
            final(self).wf(),
            final(self)@ == old(self)@.after(
                (Operation::AddToBlocklist {
                    entry: BlocklistEntry { subscriber, added_by: actor, reason, added_at: now },
                }),
            ),
            old(self)@.may_block(actor, subscriber) ==> r == Ok::<(), Error>(()) && final(self)@
                == old(self)@.with_blocked(
                BlocklistEntry { subscriber, added_by: actor, reason, added_at: now },
            ),
            !old(self)@.may_block(actor, subscriber) ==> r == Err::<(), Error>(Error::Forbidden)
                && final(self)@ == old(self)@,
    {
        if self.require_admin(actor).is_err() && !self.have_subscription(subscriber, actor) {
            return Err(Error::Forbidden);
        }
        let entry = BlocklistEntry { subscriber, added_by: actor, reason, added_at: now };
        self.blocklist.insert(subscriber, entry);
        assert(self@.snapshots_valid());
        Ok(())
    }

    /// Takes `subscriber` off the blocklist.
    pub fn remove_from_blocklist(&mut self, admin: Address, subscriber: Address) -> (r: Result<
        (),
        Error,
    >)
        requires
            old(self).wf(),
        ensures
            final(self).wf(),
            final(self)@ == old(self)@.after(
                (Operation::RemoveFromBlocklist { admin, subscriber }),
            ),
            match old(self)@.unblock_refusal(admin, subscriber) {
                Some(e) => r == Err::<(), Error>(e) && final(self)@ == old(self)@,
                None => r == Ok::<(), Error>(()) && final(self)@ == old(self)@.with_unblocked(
                    subscriber,
                ),
            },
    {
        match self.require_admin(admin) {
            Ok(_) => {},
            Err(e) => return Err(e),
        }
        if !self.is_blocklisted(&subscriber) {
            return Err(Error::NotFound);
        }
        self.blocklist.remove(&subscriber);
        assert(self@.snapshots_valid());
        Ok(())
    }

    /// Tells whether `subscriber` is on the blocklist.
    pub fn is_blocklisted(&self, subscriber: &Address) -> (blocked: bool)
        requires
            self.tables_wf(),
        ensures
            blocked == self@.blocklist.contains_key(*subscriber),
    {
        self.blocklist.get(subscriber).is_some()
    }

    /// Reads the blocklist entry of `subscriber`.
    pub fn get_blocklist_entry(&self, subscriber: &Address) -> (r: Result<&BlocklistEntry, Error>)
        requires
            self.tables_wf(),
        ensures
            self@.blocklist.contains_key(*subscriber) ==> r is Ok && *(r->Ok_0)
                == self@.blocklist[*subscriber],
            !self@.blocklist.contains_key(*subscriber) ==> r == Err::<&BlocklistEntry, Error>(
                Error::NotFound,
            ),
    {
        match self.blocklist.get(subscriber) {
            Some(entry) => Ok(entry),
            None => Err(Error::NotFound),
        }
    }
}

} // verus!
