//! Shutdown: one flag that goes from unset to set and never back.
//!
//! The task that waits for the termination signal holds nothing but a handle
//! to the flag; the query engine looks at the flag before each round of
//! serving.

use vstd::prelude::*;

verus! {

/// The flag. It starts unset; cancelling sets it, and nothing unsets it.
#[derive(Clone, Copy, Debug, PartialEq, Eq, Structural)]
pub struct CancellationToken {
    pub cancelled: bool,
}

/// Something done with a token.
#[derive(Clone, Copy, Debug, PartialEq, Eq, Structural)]
pub enum TokenUse {
    Cancel,
    Observe,
}

/// What the coordinator does on a termination signal.
#[derive(Clone, Copy, Debug, PartialEq, Eq, Structural)]
pub enum ShutdownAction {
    /// Tell the query engine to stop: this was the first signal.
    Cancel,
    /// Nothing: shutdown is under way already.
    Nothing,
}

/// The owner of the token.
#[derive(Clone, Copy, Debug, PartialEq, Eq, Structural)]
pub struct ShutdownCoordinator {
    pub token: CancellationToken,
}

impl CancellationToken {
    /// The token after `cancel`: set, whatever it was.
    pub open spec fn spec_cancel(self) -> CancellationToken {
        CancellationToken { cancelled: true }
    }

    /// The token after one use: cancelling sets it, observing leaves it.
    pub open spec fn after(self, usage: TokenUse) -> CancellationToken {
        match usage {
            TokenUse::Cancel => self.spec_cancel(),
            TokenUse::Observe => self,
        }
    }

    /// The token after a run of uses.
    pub open spec fn after_all(self, uses: Seq<TokenUse>) -> CancellationToken
        decreases uses.len(),
    {
        if uses.len() == 0 {
            self
        } else {
            self.after_all(uses.drop_last()).after(uses.last())
        }
    }

    /// A token that is not set.
    pub fn new() -> (token: CancellationToken)
        ensures
            !token.cancelled,
    {
        CancellationToken { cancelled: false }
    }

    /// Sets the token. On a token that is set this changes nothing.
    pub fn cancel(&mut self)
        ensures
            *final(self) == old(self).spec_cancel(),
            final(self).cancelled,
    {
        self.cancelled = true;
    }

    /// Whether the token is set.
    pub fn is_cancelled(&self) -> (cancelled: bool)
        ensures
            cancelled == self.cancelled,
    {
        self.cancelled
    }
}

impl ShutdownCoordinator {
    /// A coordinator whose token is not set.
    pub fn new() -> (coordinator: ShutdownCoordinator)
        ensures
            !coordinator.token.cancelled,
    {
        ShutdownCoordinator { token: CancellationToken::new() }
    }

    /// Takes in a termination signal. The first one sets the token and asks
    /// for the engine to be told; any later one finds the token set and asks
    /// for nothing.
    pub fn on_signal(&mut self) -> (action: ShutdownAction)
        ensures
            final(self).token == old(self).token.spec_cancel(),
            final(self).token.cancelled,
            action == if old(self).token.cancelled {
                ShutdownAction::Nothing
            } else {
                ShutdownAction::Cancel
            },
    {
        if self.token.is_cancelled() {
            ShutdownAction::Nothing
        } else {
            self.token.cancel();
            ShutdownAction::Cancel
        }
    }

    /// Whether the engine may begin another round of serving.
    pub fn keep_serving(&self) -> (yes: bool)
        ensures
            yes == !self.token.cancelled,
    {
        !self.token.is_cancelled()
    }
}

/// Cancelling twice is cancelling once, and whoever looks at the token
/// after either call finds it set.
pub proof fn cancel_is_idempotent(token: CancellationToken)
    ensures
        token.spec_cancel().spec_cancel() == token.spec_cancel(),
        token.spec_cancel().cancelled,
        token.spec_cancel().spec_cancel().cancelled,
{
}

/// A token that is set stays set, whatever is done with it afterwards.
pub proof fn cancelled_token_stays_cancelled(token: CancellationToken, uses: Seq<TokenUse>)
    requires
        token.cancelled,
    ensures
        token.after_all(uses).cancelled,
        token.after_all(uses) == token,
    decreases uses.len(),
{
    if uses.len() > 0 {
        cancelled_token_stays_cancelled(token, uses.drop_last());
    }
}

/// A token is set exactly when it was set before or one of the uses was a
/// cancellation: observing never sets it.
pub proof fn token_is_set_by_cancel_only(token: CancellationToken, uses: Seq<TokenUse>)
    ensures
        token.after_all(uses).cancelled == (token.cancelled || uses.contains(TokenUse::Cancel)),
    decreases uses.len(),
{
    if uses.len() > 0 {
        let earlier = uses.drop_last();
        token_is_set_by_cancel_only(token, earlier);
        if earlier.contains(TokenUse::Cancel) {
            let k = choose|k: int| 0 <= k < earlier.len() && earlier[k] == TokenUse::Cancel;
            assert(uses[k] == TokenUse::Cancel);
        }
        if uses.last() == TokenUse::Cancel {
            assert(uses[uses.len() - 1] == TokenUse::Cancel);
        }
        if uses.contains(TokenUse::Cancel) && uses.last() != TokenUse::Cancel {
            let k = choose|k: int| 0 <= k < uses.len() && uses[k] == TokenUse::Cancel;
            assert(earlier[k] == TokenUse::Cancel);
        }
    }
}

} // verus!
