//! The ledger of a holder: what has become of every token it issued.
//!
//! A ledger is a sequence of flags, one per token, oldest first. The flag at
//! index `k` is `true` once the token with serial `k` has been cancelled. A
//! token starts out active and can only ever move to cancelled.

use vstd::prelude::*;

verus! {

/// Whether the token with serial `token` has been issued and cancelled.
pub open spec fn cancelled(ledger: Seq<bool>, token: nat) -> bool {
    token < ledger.len() && ledger[token as int]
}

/// Whether the token with serial `token` has been issued and is still active.
pub open spec fn active(ledger: Seq<bool>, token: nat) -> bool {
    token < ledger.len() && !ledger[token as int]
}

/// The serial of the token whose controller sits in the holder's slot: the
/// newest one, if any token was issued at all.
pub open spec fn stored(ledger: Seq<bool>) -> Option<nat> {
    if ledger.len() == 0 {
        None
    } else {
        Some((ledger.len() - 1) as nat)
    }
}

/// The ledger after the stored controller has been cancelled. Nothing
/// changes where no controller is stored.
pub open spec fn aborted(ledger: Seq<bool>) -> Seq<bool> {
    if ledger.len() == 0 {
        ledger
    } else {
        ledger.update(ledger.len() - 1, true)
    }
}

/// The ledger after a new token has been issued: the stored controller is
/// cancelled first, then a fresh, active token joins at the end.
pub open spec fn signalled(ledger: Seq<bool>) -> Seq<bool> {
    aborted(ledger).push(false)
}

/// The ledger after `count` tokens have been issued in a row.
pub open spec fn signalled_times(ledger: Seq<bool>, count: nat) -> Seq<bool>
    decreases count,
{
    if count == 0 {
        ledger
    } else {
        signalled(signalled_times(ledger, (count - 1) as nat))
    }
}

/// At most one token is active, and if one is, it is the newest.
pub open spec fn single_owner(ledger: Seq<bool>) -> bool {
    forall|k: int| 0 <= k < ledger.len() - 1 ==> ledger[k]
}

} // verus!
