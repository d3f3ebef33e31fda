//! A one-slot latch for the wallet onboarding decision.
//!
//! One side publishes the user's choice; any number of tasks wait until a
//! choice other than `Pending` is there. The slot lives in a
//! `tokio::sync::watch` channel.
//!
//! - [`choice`]: the decision, with its equality.
//! - [`channel`]: the latch: publish, reset, look, begin a wait.
//! - [`waiter`]: what a waiting task does after each thing that happens to
//!   it. The task itself, which sleeps, is the caller's.
//! - [`laws`]: what holds of every latch and of every wait.
//! - [`watch`]: the calls into tokio, with what is taken on trust of them.
//!
//! A task waits like this: it asks the latch to
//! [`begin_wait`](channel::WalletOnboardingChannel::begin_wait), and from
//! then on carries out each [`WaitAction`](waiter::WaitAction) and hands
//! what happened to [`next_action`](waiter::next_action). To sleep is to
//! await `changed()` on the receiver that `begin_wait` gave: `Ok` is
//! [`WaitEvent::Changed`](waiter::WaitEvent::Changed), `Err` is
//! [`WaitEvent::Closed`](waiter::WaitEvent::Closed).

pub mod channel;
pub mod choice;
pub mod laws;
pub mod waiter;
pub mod watch;
