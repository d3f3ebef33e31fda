//! The boundary to `tokio::sync::watch`.
//!
//! Nothing in this file is proved. It declares the two ends of a watch
//! channel, gives names to what a channel holds and to which ends belong
//! together, and states of each call what tokio's source shows.
//!
//! The names are sound under one discipline, which the rest of the crate
//! keeps: a sender is never cloned, and a value is sent only through
//! `&mut`. The value that a sender's channel holds is then a function of
//! the sender, as the contents of a collection are. No name is given to
//! what a receiver shows: that changes while the receiver does not.

use crate::choice::{ChoiceView, WalletOnboardingChoice};
use tokio::sync::watch::{Receiver, Sender};
use vstd::prelude::*;

verus! {

/// `tokio::sync::watch::Sender`, opaque to the verifier.
#[verifier::external_type_specification]
#[verifier::external_body]
#[verifier::reject_recursive_types(T)]
pub struct ExSender<T>(tokio::sync::watch::Sender<T>);

/// `tokio::sync::watch::Receiver`, opaque to the verifier.
#[verifier::external_type_specification]
#[verifier::external_body]
#[verifier::reject_recursive_types(T)]
pub struct ExReceiver<T>(tokio::sync::watch::Receiver<T>);

/// The value that the channel of `sender` holds: what
/// `tokio::sync::watch::Sender::borrow` shows.
pub uninterp spec fn held(sender: Sender<WalletOnboardingChoice>) -> ChoiceView;

/// Whether `receiver` is an end of the channel that `sender` writes.
pub uninterp spec fn attached(
    sender: Sender<WalletOnboardingChoice>,
    receiver: Receiver<WalletOnboardingChoice>,
) -> bool;

/// Calls `tokio::sync::watch::channel`.
///
/// Claimed: the two ends that come back belong to one channel, and that
/// channel holds `init`.
#[verifier::external_body]
pub(crate) fn open_channel(init: WalletOnboardingChoice) -> (ends: (
    Sender<WalletOnboardingChoice>,
    Receiver<WalletOnboardingChoice>,
))
    ensures
        attached(ends.0, ends.1),
        held(ends.0) == init@,
{
    tokio::sync::watch::channel(init)
}

/// Calls `tokio::sync::watch::Sender::send` and drops its result.
///
/// `send` stores the value and notifies the receivers unless the channel
/// has no receiver left; then it stores nothing. `keeper` is a live
/// receiver of this channel, so there is one.
/// Claimed: the channel then holds `value`, its receivers are the same as
/// before, and the call does not panic.
#[verifier::external_body]
#[allow(unused_variables)]
pub(crate) fn send_value(
    sender: &mut Sender<WalletOnboardingChoice>,
    keeper: &Receiver<WalletOnboardingChoice>,
    value: WalletOnboardingChoice,
)
    requires
        attached(*old(sender), *keeper),
    ensures
        held(*final(sender)) == value@,
        forall|receiver: Receiver<WalletOnboardingChoice>| #[trigger]
            attached(*final(sender), receiver) == attached(*old(sender), receiver),
    no_unwind
{
    let _ = sender.send(value);
}

/// Calls `tokio::sync::watch::Sender::borrow` and clones what it shows.
///
/// Claimed: the result is the value that the channel holds.
#[verifier::external_body]
pub(crate) fn held_value(sender: &Sender<WalletOnboardingChoice>) -> (value: WalletOnboardingChoice)
    ensures
        value@ == held(*sender),
{
    sender.borrow().clone()
}

/// Calls `Clone::clone` on a `tokio::sync::watch::Receiver`.
///
/// Claimed: the copy is an end of the same channel as `receiver`.
#[verifier::external_body]
pub(crate) fn clone_receiver(
    receiver: &Receiver<WalletOnboardingChoice>,
) -> (copy: Receiver<WalletOnboardingChoice>)
    ensures
        forall|sender: Sender<WalletOnboardingChoice>| #[trigger]
            attached(sender, copy) == attached(sender, *receiver),
{
    receiver.clone()
}

} // verus!
