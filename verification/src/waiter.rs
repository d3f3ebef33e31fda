//! The decisions of a task that waits for the choice.
//!
//! Waiting alternates between work on the channel and decisions. The work
//! that suspends the task belongs to the caller; every decision is made
//! here. The caller starts with
//! [`WalletOnboardingChannel::begin_wait`](crate::channel::WalletOnboardingChannel::begin_wait),
//! carries out the [`WaitAction`] it is given, reports what happened as a
//! [`WaitEvent`] and asks [`next_action`] again, until it is told to return.

use crate::choice::{ChoiceView, WalletOnboardingChoice};
use vstd::prelude::*;

verus! {

/// What happened to a waiter since its last action.
#[derive(Debug)]
pub enum WaitEvent {
    /// It looked at the latch and saw this value.
    Seen(WalletOnboardingChoice),
    /// It slept, and the channel reported a change.
    Changed,
    /// It slept, and the channel reported that its sender is gone.
    Closed,
}

/// What a waiter does next.
#[derive(Debug)]
pub enum WaitAction {
    /// Stop waiting and hand this choice to the caller.
    Return(WalletOnboardingChoice),
    /// Sleep on the waiter's receiver until the channel reports a change
    /// or that its sender is gone.
    AwaitChange,
    /// Look at the latch's value again.
    Look,
    /// Log that the channel was closed while the choice was pending, then
    /// stop waiting and hand this choice to the caller.
    ReportClosed(WalletOnboardingChoice),
}

/// The mathematical value of a [`WaitEvent`].
pub ghost enum WaitEventView {
    Seen(ChoiceView),
    Changed,
    Closed,
}

/// The mathematical value of a [`WaitAction`].
pub ghost enum WaitActionView {
    Return(ChoiceView),
    AwaitChange,
    Look,
    ReportClosed(ChoiceView),
}

impl View for WaitEvent {
    type V = WaitEventView;

    open spec fn view(&self) -> WaitEventView {
        match self {
            WaitEvent::Seen(choice) => WaitEventView::Seen(choice@),
            WaitEvent::Changed => WaitEventView::Changed,
            WaitEvent::Closed => WaitEventView::Closed,
        }
    }
}

impl View for WaitAction {
    type V = WaitActionView;

    open spec fn view(&self) -> WaitActionView {
        match self {
            WaitAction::Return(choice) => WaitActionView::Return(choice@),
            WaitAction::AwaitChange => WaitActionView::AwaitChange,
            WaitAction::Look => WaitActionView::Look,
            WaitAction::ReportClosed(choice) => WaitActionView::ReportClosed(choice@),
        }
    }
}

impl WaitActionView {
    /// The choice that the action hands to the caller, if it ends the wait.
    pub open spec fn returned(self) -> Option<ChoiceView> {
        match self {
            WaitActionView::Return(choice) => Some(choice),
            WaitActionView::ReportClosed(choice) => Some(choice),
            WaitActionView::AwaitChange => None,
            WaitActionView::Look => None,
        }
    }
}

/// The action that answers an event.
///
/// A decided value ends the wait. `Pending` sends the waiter to sleep. A
/// reported change sends it to look again, since the new value may still
/// be `Pending`. A closed channel ends the wait with `CreateNew`.
pub open spec fn action_for(event: WaitEventView) -> WaitActionView {
    match event {
        WaitEventView::Seen(ChoiceView::Pending) => WaitActionView::AwaitChange,
        WaitEventView::Seen(choice) => WaitActionView::Return(choice),
        WaitEventView::Changed => WaitActionView::Look,
        WaitEventView::Closed => WaitActionView::ReportClosed(ChoiceView::CreateNew),
    }
}

/// Whether `event` is something that carrying out `action` can lead to.
///
/// A sleep ends with a reported change or a reported closing, a look ends
/// with a value, and nothing follows an action that ends the wait.
pub open spec fn can_follow(action: WaitActionView, event: WaitEventView) -> bool {
    match action {
        WaitActionView::AwaitChange => event is Changed || event is Closed,
        WaitActionView::Look => event is Seen,
        WaitActionView::Return(_) => false,
        WaitActionView::ReportClosed(_) => false,
    }
}

/// The action that a waiter is at when it has started with `first` and has
/// met `events` in turn.
pub open spec fn current_action(first: WaitActionView, events: Seq<WaitEventView>) -> WaitActionView {
    if events.len() == 0 {
        first
    } else {
        action_for(events.last())
    }
}

/// Whether `events` is a possible course of a wait that starts with
/// `first`: each event follows the action that the waiter was at.
pub open spec fn is_course(first: WaitActionView, events: Seq<WaitEventView>) -> bool {
    forall|i: int|
        0 <= i < events.len() ==> can_follow(
            #[trigger] current_action(first, events.take(i)),
            events[i],
        )
}

/// Decides what a waiter does after `event`.
pub fn next_action(event: WaitEvent) -> (action: WaitAction)
    ensures
        action@ == action_for(event@),
{
    match event {
        WaitEvent::Seen(choice) => {
            if choice.is_pending() {
                WaitAction::AwaitChange
            } else {
                WaitAction::Return(choice)
            }
        },
        WaitEvent::Changed => WaitAction::Look,
        WaitEvent::Closed => WaitAction::ReportClosed(WalletOnboardingChoice::CreateNew),
    }
}

} // verus!
