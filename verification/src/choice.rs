//! The decision that the onboarding flow waits for.

use vstd::prelude::*;

verus! {

/// What the user decided about the wallet.
#[derive(Debug)]
pub enum WalletOnboardingChoice {
    /// No decision yet.
    Pending,
    /// Create a fresh wallet.
    CreateNew,
    /// Import a wallet from these words, in this order.
    Import(Vec<String>),
}

/// The mathematical value of a [`WalletOnboardingChoice`].
pub ghost enum ChoiceView {
    Pending,
    CreateNew,
    Import(Seq<Seq<char>>),
}

impl View for WalletOnboardingChoice {
    type V = ChoiceView;

    open spec fn view(&self) -> ChoiceView {
        match self {
            WalletOnboardingChoice::Pending => ChoiceView::Pending,
            WalletOnboardingChoice::CreateNew => ChoiceView::CreateNew,
            WalletOnboardingChoice::Import(words) => ChoiceView::Import(words.deep_view()),
        }
    }
}

impl WalletOnboardingChoice {
    /// Whether this is the value that stands for "not decided yet".
    pub fn is_pending(&self) -> (pending: bool)
        ensures
            pending == (self@ is Pending),
    {
        match self {
            WalletOnboardingChoice::Pending => true,
            _ => false,
        }
    }
}

impl Clone for WalletOnboardingChoice {
    /// A copy with the same words in the same order.
    fn clone(&self) -> (copy: Self)
        ensures
            copy@ == self@,
    {
        match self {
            WalletOnboardingChoice::Pending => WalletOnboardingChoice::Pending,
            WalletOnboardingChoice::CreateNew => WalletOnboardingChoice::CreateNew,
            WalletOnboardingChoice::Import(words) => {
                let copy = words.clone();
                assert(copy.deep_view() =~= words.deep_view());
                WalletOnboardingChoice::Import(copy)
            },
        }
    }
}

impl PartialEq for WalletOnboardingChoice {
    /// Structural equality: the same variant and, for `Import`, the same
    /// words one by one.
    fn eq(&self, other: &Self) -> (same: bool) {
        match (self, other) {
            (WalletOnboardingChoice::Pending, WalletOnboardingChoice::Pending) => true,
            (WalletOnboardingChoice::CreateNew, WalletOnboardingChoice::CreateNew) => true,
            (WalletOnboardingChoice::Import(left), WalletOnboardingChoice::Import(right)) => {
                same_words(left, right)
            },
            _ => false,
        }
    }
}

impl vstd::std_specs::cmp::PartialEqSpecImpl for WalletOnboardingChoice {
    open spec fn obeys_eq_spec() -> bool {
        true
    }

    open spec fn eq_spec(&self, other: &Self) -> bool {
        self@ == other@
    }
}

/// Whether two word lists hold the same words in the same order.
fn same_words(left: &Vec<String>, right: &Vec<String>) -> (same: bool)
    ensures
        same == (left.deep_view() == right.deep_view()),
{
    if left.len() != right.len() {
        assert(left.deep_view().len() != right.deep_view().len());
        return false;
    }
    let mut at: usize = 0;
    while at < left.len()
        invariant
            at <= left.len(),
            left.len() == right.len(),
            forall|i: int| 0 <= i < at ==> left[i]@ == right[i]@,
        decreases left.len() - at,
    {
        if left[at] != right[at] {
            assert(left.deep_view()[at as int] != right.deep_view()[at as int]);
            return false;
        }
        at = at + 1;
    }
    assert(left.deep_view() =~= right.deep_view());
    true
}

} // verus!
