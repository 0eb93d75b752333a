//! The holder: one slot for a controller, and the three operations that
//! cancel what is in it.

use crate::ledger::{aborted, cancelled, signalled, single_owner, stored};
use crate::token::Token;
use vstd::prelude::*;

verus! {

/// What sits in the slot: the controller of the newest token, and whether
/// its cancellation has been ordered yet.
#[derive(Debug)]
struct Controller {
    token: Token,
    cancelled: bool,
}

/// A holder of at most one live cancellation token.
///
/// Its view is its ledger: one flag per token issued so far, oldest first,
/// `true` once the token is cancelled.
#[derive(Debug)]
pub struct Abort {
    controller: Option<Controller>,
}

/// What the host has to do when a token is issued, in this order: cancel the
/// controller of `retired`, if there is one, then make a fresh controller
/// and hand its token out as `token`.
#[derive(Clone, Copy, Debug, PartialEq, Eq, Structural)]
pub struct Issued {
    pub retired: Option<Token>,
    pub token: Token,
}

/// The token that goes with the stored controller of `ledger`.
pub open spec fn stored_token(ledger: Seq<bool>) -> Option<Token> {
    match stored(ledger) {
        None => None,
        Some(index) => Some(Token::at(index)),
    }
}

/// A holder that has not issued any token yet.
pub fn create_abort() -> (holder: Abort)
    ensures
        holder@ == Seq::<bool>::empty(),
{
    let holder = Abort { controller: None };
    assert(holder@ =~= Seq::<bool>::empty());
    holder
}

impl View for Abort {
    type V = Seq<bool>;

    closed spec fn view(&self) -> Seq<bool> {
        match self.controller {
            None => Seq::empty(),
            Some(c) => Seq::new((c.token.serial + 1) as nat, |k: int| k < c.token.serial || c.cancelled),
        }
    }
}

impl Abort {
    /// Every ledger that a holder can reach has at most one active token,
    /// the newest, and no more tokens than serials to name them.
    pub proof fn lemma_single_owner(&self)
        ensures
            single_owner(self@),
            self@.len() <= u64::MAX + 1,
    {
    }

    /// Whether one more token can be issued: its serial has to fit.
    pub fn can_issue(&self) -> (yes: bool)
        ensures
            yes == (self@.len() <= u64::MAX),
    {
        match &self.controller {
            None => true,
            Some(c) => c.token.serial < u64::MAX,
        }
    }

    /// The token of the stored controller, active or not.
    pub fn stored(&self) -> (token: Option<Token>)
        ensures
            token == stored_token(self@),
    {
        match &self.controller {
            None => None,
            Some(c) => Some(c.token),
        }
    }

    /// Whether `token` was issued by this holder and has been cancelled.
    pub fn is_cancelled(&self, token: Token) -> (yes: bool)
        ensures
            yes == cancelled(self@, token@),
    {
        match &self.controller {
            None => false,
            Some(c) => token.serial < c.token.serial || (token.serial == c.token.serial
                && c.cancelled),
        }
    }

    /// Issues a new token. The stored controller, if any, is retired first;
    /// the new token's controller takes its place in the slot. The count of
    /// tokens issued so far has to fit a `u64`, so that the new one can be
    /// named: see `can_issue`.
    pub fn signal(&mut self) -> (issued: Issued)
        requires
            old(self)@.len() <= u64::MAX,
        ensures
            final(self)@ == signalled(old(self)@),
            issued.retired == stored_token(old(self)@),
            issued.token == Token::at(old(self)@.len()),
            !cancelled(final(self)@, issued.token@),
            forall|earlier: nat| earlier < issued.token@ ==> cancelled(final(self)@, earlier),
    {
        let retired = self.abort();
        let serial: u64 = match retired {
            None => 0,
            Some(t) => t.serial + 1,
        };
        let token = Token { serial };
        self.controller = Some(Controller { token, cancelled: false });
        assert(self@ =~= signalled(old(self)@));
        Issued { retired, token }
    }

    /// Cancels the stored controller. Returns its token, which names the
    /// controller that the host has to cancel; `None`, and no change, where
    /// no token was ever issued. The controller stays in the slot, so a
    /// second abort names it again: cancelling it twice is the host's no-op.
    pub fn abort(&mut self) -> (target: Option<Token>)
        ensures
            final(self)@ == aborted(old(self)@),
            target == stored_token(old(self)@),
            target matches Some(token) ==> cancelled(final(self)@, token@),
            target is None ==> final(self)@ == old(self)@,
    {
        let target = match &self.controller {
            None => None,
            Some(c) => Some(c.token),
        };
        if let Some(token) = target {
            self.controller = Some(Controller { token, cancelled: true });
        }
        assert(self@ =~= aborted(old(self)@));
        target
    }

    /// The teardown of the enclosing scope: the same as an abort.
    pub fn dispose(&mut self) -> (target: Option<Token>)
        ensures
            final(self)@ == aborted(old(self)@),
            target == stored_token(old(self)@),
            target matches Some(token) ==> cancelled(final(self)@, token@),
            target is None ==> final(self)@ == old(self)@,
    {
        self.abort()
    }
}

} // verus!
