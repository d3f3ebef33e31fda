//! The latch itself: one watch channel and the rules for using it.

use crate::choice::{ChoiceView, WalletOnboardingChoice};
use crate::waiter::{action_for, next_action, WaitAction, WaitActionView, WaitEvent, WaitEventView};
use crate::watch::{attached, clone_receiver, held, held_value, open_channel, send_value};
use tokio::sync::watch::{Receiver, Sender};
use vstd::prelude::*;

verus! {

/// Holds the current [`WalletOnboardingChoice`] and lets waiters watch it.
///
/// The latch keeps a receiver of its own beside the sender. That receiver
/// is never read: it keeps the watch channel open, so that a value can be
/// published while nobody waits, and it is the template from which each
/// waiter's receiver is cloned.
///
/// The value is written through `&mut self` and read through `&self`, so a
/// reader is never overtaken by a writer. A waiter sleeps on a receiver of
/// its own and borrows the latch only to look.
pub struct WalletOnboardingChannel {
    sender: Sender<WalletOnboardingChoice>,
    receiver: Receiver<WalletOnboardingChoice>,
}

impl WalletOnboardingChannel {
    /// The two ends belong to one watch channel.
    #[verifier::type_invariant]
    spec fn linked(&self) -> bool {
        attached(self.sender, self.receiver)
    }

    /// The value that the latch holds.
    pub closed spec fn value(&self) -> ChoiceView {
        held(self.sender)
    }

    /// Whether `receiver` watches this latch: whether it is an end of the
    /// latch's watch channel, the one that a publication here notifies.
    pub closed spec fn watched_by(
        &self,
        receiver: Receiver<WalletOnboardingChoice>,
    ) -> bool {
        attached(self.sender, receiver)
    }

    /// What a waiter that looks now gets to see.
    pub open spec fn seen(&self) -> WaitEventView {
        WaitEventView::Seen(self.value())
    }

    /// What a waiter that arrives now is told to do: return the value if it
    /// is decided, sleep if it is `Pending`.
    pub open spec fn first_action(&self) -> WaitActionView {
        action_for(self.seen())
    }

    /// Whether publishing `choice` on `before` gives `after`: the value is
    /// replaced, and the same receivers watch the latch.
    pub open spec fn publishes(before: Self, choice: ChoiceView, after: Self) -> bool {
        &&& after.value() == choice
        &&& forall|receiver: Receiver<WalletOnboardingChoice>|
            #[trigger] after.watched_by(receiver) == before.watched_by(receiver)
    }

    /// A fresh latch, holding `Pending`.
    pub fn new() -> (channel: Self)
        ensures
            channel.value() == ChoiceView::Pending,
    {
        let (sender, receiver) = open_channel(WalletOnboardingChoice::Pending);
        WalletOnboardingChannel { sender, receiver }
    }

    /// Publishes `choice`: it replaces the value, whatever that was, and
    /// the receivers that watch the latch are notified.
    pub fn set_choice(&mut self, choice: WalletOnboardingChoice)
        ensures
            Self::publishes(*old(self), choice@, *final(self)),
    {
        proof {
            use_type_invariant(&*self);
        }
        send_value(&mut self.sender, &self.receiver, choice);
    }

    /// Puts the latch back to `Pending`, ready for the next decision.
    pub fn reset(&mut self)
        ensures
            Self::publishes(*old(self), ChoiceView::Pending, *final(self)),
    {
        self.set_choice(WalletOnboardingChoice::Pending);
    }

    /// Starts a wait: makes a receiver for the waiter to sleep on, looks at
    /// the value once and decides the waiter's first action.
    pub fn begin_wait(&self) -> (start: (WaitAction, Receiver<WalletOnboardingChoice>))
        ensures
            start.0@ == self.first_action(),
            self.watched_by(start.1),
    {
        proof {
            use_type_invariant(self);
        }
        let cursor = clone_receiver(&self.receiver);
        let action = next_action(self.look());
        (action, cursor)
    }

    /// Carries out [`WaitAction::Look`]: reads the value that the latch
    /// holds now.
    pub fn look(&self) -> (event: WaitEvent)
        ensures
            event@ == self.seen(),
    {
        WaitEvent::Seen(held_value(&self.sender))
    }
}

} // verus!
