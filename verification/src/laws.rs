//! What holds of every latch and of every wait.
//!
//! Each law is stated over the spec functions that the contracts of
//! [`WalletOnboardingChannel`] and of
//! [`next_action`](crate::waiter::next_action) use. The course of a wait
//! is the sequence of events that the waiter meets; see
//! [`is_course`](crate::waiter::is_course).

use crate::channel::WalletOnboardingChannel;
use crate::choice::ChoiceView;
use crate::waiter::{can_follow, current_action, is_course, WaitActionView, WaitEventView};
use vstd::prelude::*;

verus! {

/// A decided choice that was published is what a wait that begins
/// afterwards returns, at once and whatever the latch held before.
pub proof fn law_published_choice_is_returned(
    before: WalletOnboardingChannel,
    choice: ChoiceView,
    after: WalletOnboardingChannel,
)
    requires
        WalletOnboardingChannel::publishes(before, choice, after),
        choice !is Pending,
    ensures
        after.first_action() == WaitActionView::Return(choice),
        after.first_action().returned() == Some(choice),
{
}

/// A wait on a latch that holds `Pending` starts asleep. It stays
/// unfinished for as long as every look shows `Pending` and the channel is
/// not reported closed, and it returns the first decided value that a look
/// shows.
pub proof fn law_wait_lasts_until_decided(
    latch: WalletOnboardingChannel,
    events: Seq<WaitEventView>,
)
    requires
        latch.value() is Pending,
        is_course(latch.first_action(), events),
    ensures
        latch.first_action() == WaitActionView::AwaitChange,
        (forall|i: int|
            0 <= i < events.len() ==> events[i] == WaitEventView::Changed || events[i]
                == WaitEventView::Seen(ChoiceView::Pending)) ==> current_action(
            latch.first_action(),
            events,
        ).returned() is None,
        forall|choice: ChoiceView|
            events.len() > 0 && events.last() == WaitEventView::Seen(choice) && choice !is Pending
                ==> current_action(latch.first_action(), events).returned() == Some(choice),
{
    if events.len() > 0 {
        let last = events.len() - 1;
        assert(events[last] == events.last());
    }
}

/// A sleeping waiter that is woken by the publication of a decided choice
/// looks, and returns that choice.
pub proof fn law_sleeper_returns_published_choice(
    before: WalletOnboardingChannel,
    choice: ChoiceView,
    after: WalletOnboardingChannel,
    first: WaitActionView,
    events: Seq<WaitEventView>,
)
    requires
        WalletOnboardingChannel::publishes(before, choice, after),
        choice !is Pending,
        is_course(first, events),
        current_action(first, events) == WaitActionView::AwaitChange,
    ensures
        is_course(first, events.push(WaitEventView::Changed).push(after.seen())),
        current_action(first, events.push(WaitEventView::Changed).push(after.seen()))
            == WaitActionView::Return(choice),
{
    lemma_woken_course(first, events, after.seen());
}

/// Once a decided choice is published, all waiters return that same
/// choice: one that begins afterwards, and any two that slept, whatever
/// their courses so far.
pub proof fn law_waiters_agree(
    before: WalletOnboardingChannel,
    choice: ChoiceView,
    after: WalletOnboardingChannel,
    first_a: WaitActionView,
    events_a: Seq<WaitEventView>,
    first_b: WaitActionView,
    events_b: Seq<WaitEventView>,
)
    requires
        WalletOnboardingChannel::publishes(before, choice, after),
        choice !is Pending,
        is_course(first_a, events_a),
        is_course(first_b, events_b),
        current_action(first_a, events_a) == WaitActionView::AwaitChange,
        current_action(first_b, events_b) == WaitActionView::AwaitChange,
    ensures
        after.first_action().returned() == Some(choice),
        current_action(
            first_a,
            events_a.push(WaitEventView::Changed).push(after.seen()),
        ).returned() == Some(choice),
        current_action(
            first_b,
            events_b.push(WaitEventView::Changed).push(after.seen()),
        ).returned() == Some(choice),
{
    law_sleeper_returns_published_choice(before, choice, after, first_a, events_a);
    law_sleeper_returns_published_choice(before, choice, after, first_b, events_b);
}

/// After a reset a wait sleeps again, whatever had been decided before.
pub proof fn law_reset_suspends_again(
    before: WalletOnboardingChannel,
    after: WalletOnboardingChannel,
)
    requires
        WalletOnboardingChannel::publishes(before, ChoiceView::Pending, after),
    ensures
        after.first_action() == WaitActionView::AwaitChange,
        after.first_action().returned() is None,
{
}

/// Publishing `Pending` does not end a wait: a sleeping waiter that is
/// woken by it looks, sees `Pending` and sleeps again.
pub proof fn law_pending_does_not_unblock(
    before: WalletOnboardingChannel,
    after: WalletOnboardingChannel,
    first: WaitActionView,
    events: Seq<WaitEventView>,
)
    requires
        WalletOnboardingChannel::publishes(before, ChoiceView::Pending, after),
        is_course(first, events),
        current_action(first, events) == WaitActionView::AwaitChange,
    ensures
        is_course(first, events.push(WaitEventView::Changed).push(after.seen())),
        current_action(first, events.push(WaitEventView::Changed).push(after.seen()))
            == WaitActionView::AwaitChange,
{
    lemma_woken_course(first, events, after.seen());
}

/// A sleeping waiter that is told that the channel is closed does not
/// sleep again: it ends the wait with `CreateNew`, to be reported.
pub proof fn law_closed_channel_falls_back(first: WaitActionView, events: Seq<WaitEventView>)
    requires
        is_course(first, events),
        current_action(first, events) == WaitActionView::AwaitChange,
    ensures
        is_course(first, events.push(WaitEventView::Closed)),
        current_action(first, events.push(WaitEventView::Closed)) == WaitActionView::ReportClosed(
            ChoiceView::CreateNew,
        ),
{
    lemma_course_extends(first, events, WaitEventView::Closed);
    assert(events.push(WaitEventView::Closed).last() == WaitEventView::Closed);
}

/// A wait does not go on after it has returned: in every course, each
/// event but the last is a reported change or a look that shows `Pending`.
pub proof fn law_wait_returns_once(first: WaitActionView, events: Seq<WaitEventView>)
    requires
        is_course(first, events),
    ensures
        forall|i: int|
            0 <= i < events.len() - 1 ==> events[i] == WaitEventView::Changed || events[i]
                == WaitEventView::Seen(ChoiceView::Pending),
{
    assert forall|i: int| 0 <= i < events.len() - 1 implies events[i] == WaitEventView::Changed
        || events[i] == WaitEventView::Seen(ChoiceView::Pending) by {
        let upto = events.take(i + 1);
        assert(upto.last() == events[i]);
        assert(can_follow(current_action(first, upto), events[i + 1]));
    }
}

/// A wait never returns `Pending`: whatever it returns is a decided value
/// that a look showed, or `CreateNew` after the channel was reported
/// closed.
pub proof fn law_wait_returns_a_decision(
    latch: WalletOnboardingChannel,
    events: Seq<WaitEventView>,
)
    requires
        is_course(latch.first_action(), events),
    ensures
        match current_action(latch.first_action(), events).returned() {
            Some(choice) => {
                &&& choice !is Pending
                &&& if events.len() == 0 {
                    choice == latch.value()
                } else {
                    events.last() == WaitEventView::Seen(choice) || (events.last()
                        == WaitEventView::Closed && choice == ChoiceView::CreateNew)
                }
            },
            None => true,
        },
{
}

/// The course of a sleeping waiter that is woken by a change and then
/// shown a value.
proof fn lemma_woken_course(first: WaitActionView, events: Seq<WaitEventView>, shown: WaitEventView)
    requires
        is_course(first, events),
        current_action(first, events) == WaitActionView::AwaitChange,
        shown is Seen,
    ensures
        is_course(first, events.push(WaitEventView::Changed).push(shown)),
        events.push(WaitEventView::Changed).push(shown).last() == shown,
{
    let woken = events.push(WaitEventView::Changed);
    lemma_course_extends(first, events, WaitEventView::Changed);
    assert(woken.last() == WaitEventView::Changed);
    lemma_course_extends(first, woken, shown);
}

/// A course stays a course when an event is added that follows the action
/// the waiter is at.
proof fn lemma_course_extends(
    first: WaitActionView,
    events: Seq<WaitEventView>,
    event: WaitEventView,
)
    requires
        is_course(first, events),
        can_follow(current_action(first, events), event),
    ensures
        is_course(first, events.push(event)),
{
    let longer = events.push(event);
    assert forall|i: int| 0 <= i < longer.len() implies can_follow(
        #[trigger] current_action(first, longer.take(i)),
        longer[i],
    ) by {
        if i < events.len() {
            assert(longer.take(i) =~= events.take(i));
        } else {
            assert(longer.take(i) =~= events);
        }
    }
}

} // verus!
