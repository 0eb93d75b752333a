//! What holds of every ledger, whatever sequence of operations made it.

use crate::abort::stored_token;
use crate::ledger::{aborted, active, cancelled, signalled, signalled_times, single_owner};
use crate::token::Token;
use vstd::prelude::*;

verus! {

/// A token is active when it is issued, and issuing the next token cancels
/// it: after two signals in a row the first token is cancelled and the
/// second is active.
pub proof fn law_second_signal_cancels_first(ledger: Seq<bool>)
    ensures
        ({
            let first: nat = ledger.len();
            let once: Seq<bool> = signalled(ledger);
            let twice: Seq<bool> = signalled(once);
            &&& active(once, first)
            &&& cancelled(twice, first)
            &&& active(twice, first + 1)
        }),
{
}

/// After any number of signals in a row, every token that they issued is
/// cancelled but the last, which is active.
pub proof fn law_only_newest_signal_is_active(ledger: Seq<bool>, count: nat)
    requires
        count > 0,
    ensures
        ({
            let after: Seq<bool> = signalled_times(ledger, count);
            &&& after.len() == ledger.len() + count
            &&& active(after, (ledger.len() + count - 1) as nat)
            &&& forall|token: nat|
                ledger.len() <= token < ledger.len() + count - 1 ==> cancelled(after, token)
        }),
    decreases count,
{
    let before: Seq<bool> = signalled_times(ledger, (count - 1) as nat);
    assert(signalled_times(ledger, count) == signalled(before));
    let after: Seq<bool> = signalled(before);
    if count > 1 {
        law_only_newest_signal_is_active(ledger, (count - 1) as nat);
    } else {
        assert(before == ledger);
    }
    assert forall|token: nat| ledger.len() <= token < ledger.len() + count - 1 implies cancelled(
        after,
        token,
    ) by {
        if token < before.len() - 1 {
            assert(cancelled(before, token));
        }
    }
}

/// Signals and aborts keep the ledger to a single owner: if at most the
/// newest token was active before, at most the newest is active after.
pub proof fn law_single_owner_is_kept(ledger: Seq<bool>)
    requires
        single_owner(ledger),
    ensures
        single_owner(aborted(ledger)),
        single_owner(signalled(ledger)),
{
}

/// An abort after a token was obtained cancels that token and changes the
/// state of no other: whatever was cancelled or active before the abort,
/// apart from that token, is so after it.
pub proof fn law_abort_cancels_exactly_the_stored_token(ledger: Seq<bool>)
    ensures
        ({
            let token: nat = ledger.len();
            let before: Seq<bool> = signalled(ledger);
            let after: Seq<bool> = aborted(before);
            &&& stored_token(before) == Some(Token::at(token))
            &&& active(before, token)
            &&& cancelled(after, token)
            &&& forall|other: nat|
                other != token ==> cancelled(after, other) == cancelled(before, other)
            &&& forall|other: nat| other != token ==> active(after, other) == active(before, other)
        }),
{
}

/// No operation brings a cancelled token back: what is cancelled stays
/// cancelled through every abort and every signal.
pub proof fn law_cancellation_is_final(ledger: Seq<bool>, token: nat)
    requires
        cancelled(ledger, token),
    ensures
        cancelled(aborted(ledger), token),
        cancelled(signalled(ledger), token),
{
}

/// Tearing down the scope, which is an abort, cancels the newest token if
/// there is one, and leaves a ledger without tokens as it was.
pub proof fn law_teardown_cancels_the_newest_token(ledger: Seq<bool>)
    ensures
        ledger.len() > 0 ==> cancelled(aborted(ledger), (ledger.len() - 1) as nat),
        ledger.len() > 0 ==> stored_token(ledger) == Some(Token::at((ledger.len() - 1) as nat)),
        ledger.len() == 0 ==> aborted(ledger) == ledger,
        ledger.len() == 0 ==> stored_token(ledger) == None::<Token>,
{
}

/// An abort before any token was issued changes nothing and targets nothing.
pub proof fn law_abort_without_token_changes_nothing()
    ensures
        aborted(Seq::<bool>::empty()) == Seq::<bool>::empty(),
        stored_token(Seq::<bool>::empty()) == None::<Token>,
{
}

/// Aborting twice in a row leaves the ledger as aborting once does, and
/// both aborts target the same controller.
pub proof fn law_abort_is_idempotent(ledger: Seq<bool>)
    ensures
        aborted(aborted(ledger)) == aborted(ledger),
        stored_token(aborted(ledger)) == stored_token(ledger),
{
}

} // verus!
