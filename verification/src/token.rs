//! Cancellation tokens, named by their place in the order of issue.

use vstd::prelude::*;

verus! {

/// A cancellation token of one holder.
///
/// The first token that a holder issues has serial 0, the next one 1, and so
/// on: the serial is the token's index in the holder's ledger.
#[derive(Clone, Copy, Debug, PartialEq, Eq, Structural)]
pub struct Token {
    pub serial: u64,
}

impl View for Token {
    type V = nat;

    open spec fn view(&self) -> nat {
        self.serial as nat
    }
}

impl Token {
    /// The token whose place in the order of issue is `index`.
    pub open spec fn at(index: nat) -> Token
        recommends
            index <= u64::MAX,
    {
        Token { serial: index as u64 }
    }
}

} // verus!
