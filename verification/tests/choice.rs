use wallet_onboarding::choice::WalletOnboardingChoice;

fn words(list: &[&str]) -> Vec<String> {
    list.iter().map(|word| word.to_string()).collect()
}

#[test]
fn only_pending_is_pending() {
    assert!(WalletOnboardingChoice::Pending.is_pending());
    assert!(!WalletOnboardingChoice::CreateNew.is_pending());
    assert!(!WalletOnboardingChoice::Import(words(&["alpha"])).is_pending());
    assert!(!WalletOnboardingChoice::Import(Vec::new()).is_pending());
}

#[test]
fn equal_variants_without_payload_are_equal() {
    assert_eq!(WalletOnboardingChoice::Pending, WalletOnboardingChoice::Pending);
    assert_eq!(WalletOnboardingChoice::CreateNew, WalletOnboardingChoice::CreateNew);
}

#[test]
fn different_variants_are_unequal() {
    assert_ne!(WalletOnboardingChoice::Pending, WalletOnboardingChoice::CreateNew);
    assert_ne!(WalletOnboardingChoice::CreateNew, WalletOnboardingChoice::Pending);
    assert_ne!(WalletOnboardingChoice::Pending, WalletOnboardingChoice::Import(Vec::new()));
    assert_ne!(WalletOnboardingChoice::Import(Vec::new()), WalletOnboardingChoice::CreateNew);
}

#[test]
fn imports_are_equal_word_for_word() {
    let left = WalletOnboardingChoice::Import(words(&["alpha", "beta", "gamma"]));
    let right = WalletOnboardingChoice::Import(words(&["alpha", "beta", "gamma"]));
    assert_eq!(left, right);
    assert_eq!(
        WalletOnboardingChoice::Import(Vec::new()),
        WalletOnboardingChoice::Import(Vec::new())
    );
}

#[test]
fn imports_differ_by_order() {
    let left = WalletOnboardingChoice::Import(words(&["alpha", "beta"]));
    let right = WalletOnboardingChoice::Import(words(&["beta", "alpha"]));
    assert_ne!(left, right);
}

#[test]
fn imports_differ_by_length() {
    let short = WalletOnboardingChoice::Import(words(&["alpha"]));
    let long = WalletOnboardingChoice::Import(words(&["alpha", "alpha"]));
    assert_ne!(short, long);
    assert_ne!(long, short);
    assert_ne!(short, WalletOnboardingChoice::Import(Vec::new()));
}

#[test]
fn imports_differ_by_one_word() {
    let left = WalletOnboardingChoice::Import(words(&["alpha", "beta", "gamma"]));
    let right = WalletOnboardingChoice::Import(words(&["alpha", "beta", "delta"]));
    assert_ne!(left, right);
    let first = WalletOnboardingChoice::Import(words(&["omega", "beta", "gamma"]));
    assert_ne!(left, first);
}

#[test]
fn words_are_compared_exactly() {
    let lower = WalletOnboardingChoice::Import(words(&["alpha"]));
    let upper = WalletOnboardingChoice::Import(words(&["Alpha"]));
    let spaced = WalletOnboardingChoice::Import(words(&["alpha "]));
    assert_ne!(lower, upper);
    assert_ne!(lower, spaced);
}

#[test]
fn clone_keeps_the_variant_and_the_words() {
    let import = WalletOnboardingChoice::Import(words(&["alpha", "beta"]));
    assert_eq!(import.clone(), import);
    assert_eq!(import.clone(), WalletOnboardingChoice::Import(words(&["alpha", "beta"])));
    assert_eq!(WalletOnboardingChoice::Pending.clone(), WalletOnboardingChoice::Pending);
    assert_eq!(WalletOnboardingChoice::CreateNew.clone(), WalletOnboardingChoice::CreateNew);
}

#[test]
fn debug_names_the_variant() {
    assert_eq!(format!("{:?}", WalletOnboardingChoice::Pending), "Pending");
    assert_eq!(format!("{:?}", WalletOnboardingChoice::CreateNew), "CreateNew");
    assert_eq!(
        format!("{:?}", WalletOnboardingChoice::Import(words(&["alpha", "beta"]))),
        "Import([\"alpha\", \"beta\"])"
    );
}
