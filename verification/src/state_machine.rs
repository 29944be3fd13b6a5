//! The lifecycle of a subscription.
//!
//! | from                | to                                                   |
//! |---------------------|------------------------------------------------------|
//! | Active              | Paused, Cancelled, InsufficientBalance, GracePeriod  |
//! | Paused              | Active, Cancelled                                    |
//! | InsufficientBalance | Active, Cancelled                                    |
//! | GracePeriod         | Active, Cancelled, InsufficientBalance               |
//! | Cancelled           | nothing                                              |
//!
//! Staying in the same status is always allowed.
use vstd::prelude::*;

use crate::types::{Error, SubscriptionStatus};

verus! {

/// The statuses that `from` may change into, other than itself.
pub open spec fn targets(from: SubscriptionStatus) -> Seq<SubscriptionStatus> {
    match from {
        SubscriptionStatus::Active => seq![
            SubscriptionStatus::Paused,
            SubscriptionStatus::Cancelled,
            SubscriptionStatus::InsufficientBalance,
            SubscriptionStatus::GracePeriod,
        ],
        SubscriptionStatus::Paused => seq![
            SubscriptionStatus::Active,
            SubscriptionStatus::Cancelled,
        ],
        SubscriptionStatus::InsufficientBalance => seq![
            SubscriptionStatus::Active,
            SubscriptionStatus::Cancelled,
        ],
        SubscriptionStatus::GracePeriod => seq![
            SubscriptionStatus::Active,
            SubscriptionStatus::Cancelled,
            SubscriptionStatus::InsufficientBalance,
        ],
        SubscriptionStatus::Cancelled => seq![],
    }
}

/// A subscription in status `from` may be put into status `to`.
pub open spec fn allowed(from: SubscriptionStatus, to: SubscriptionStatus) -> bool {
    from == to || match from {
        SubscriptionStatus::Active => true,
        SubscriptionStatus::Paused | SubscriptionStatus::InsufficientBalance => to is Active
            || to is Cancelled,
        SubscriptionStatus::GracePeriod => !(to is Paused),
        SubscriptionStatus::Cancelled => false,
    }
}

/// Being in `targets` is being allowed and different.
pub proof fn lemma_targets_are_allowed(from: SubscriptionStatus, to: SubscriptionStatus)
    ensures
        targets(from).contains(to) <==> allowed(from, to) && from != to,
{
    let list = targets(from);
    match from {
        SubscriptionStatus::Active => {
            assert(list[0] is Paused && list[1] is Cancelled && list[2] is InsufficientBalance
                && list[3] is GracePeriod);
        },
        SubscriptionStatus::Paused | SubscriptionStatus::InsufficientBalance => {
            assert(list[0] is Active && list[1] is Cancelled);
        },
        SubscriptionStatus::GracePeriod => {
            assert(list[0] is Active && list[1] is Cancelled && list[2] is InsufficientBalance);
        },
        SubscriptionStatus::Cancelled => {},
    }
}

/// Tells whether a subscription may change from one status to another.
pub fn can_transition(from: &SubscriptionStatus, to: &SubscriptionStatus) -> (r: bool)
    ensures
        r == allowed(*from, *to),
{
    if *from == *to {
        return true;
    }
    match *from {
        SubscriptionStatus::Active => true,
        SubscriptionStatus::Paused => *to == SubscriptionStatus::Active || *to
            == SubscriptionStatus::Cancelled,
        SubscriptionStatus::InsufficientBalance => *to == SubscriptionStatus::Active || *to
            == SubscriptionStatus::Cancelled,
        SubscriptionStatus::GracePeriod => *to != SubscriptionStatus::Paused,
        SubscriptionStatus::Cancelled => false,
    }
}

/// Refuses a change of status that the lifecycle does not know.
pub fn validate_status_transition(from: &SubscriptionStatus, to: &SubscriptionStatus) -> (r: Result<
    (),
    Error,
>)
    ensures
        allowed(*from, *to) ==> r == Ok::<(), Error>(()),
        !allowed(*from, *to) ==> r == Err::<(), Error>(Error::InvalidStatusTransition),
{
    if can_transition(from, to) {
        Ok(())
    } else {
        Err(Error::InvalidStatusTransition)
    }
}

/// Lists the statuses that `from` may change into, other than itself.
pub fn get_allowed_transitions(from: &SubscriptionStatus) -> (list: Vec<SubscriptionStatus>)
    ensures
        list@ == targets(*from),
        forall|to: SubscriptionStatus|
            #[trigger] list@.contains(to) <==> allowed(*from, to) && *from != to,
{
    let list = match *from {
        SubscriptionStatus::Active => vec![
            SubscriptionStatus::Paused,
            SubscriptionStatus::Cancelled,
            SubscriptionStatus::InsufficientBalance,
            SubscriptionStatus::GracePeriod,
        ],
        SubscriptionStatus::Paused => vec![
            SubscriptionStatus::Active,
            SubscriptionStatus::Cancelled,
        ],
        SubscriptionStatus::InsufficientBalance => vec![
            SubscriptionStatus::Active,
            SubscriptionStatus::Cancelled,
        ],
        SubscriptionStatus::GracePeriod => vec![
            SubscriptionStatus::Active,
            SubscriptionStatus::Cancelled,
            SubscriptionStatus::InsufficientBalance,
        ],
        SubscriptionStatus::Cancelled => Vec::new(),
    };
    proof {
        assert(list@ =~= targets(*from));
        assert forall|to: SubscriptionStatus|
            #[trigger] list@.contains(to) <==> allowed(*from, to) && *from != to by {
            lemma_targets_are_allowed(*from, to);
        }
    }
    list
}

} // verus!
