use soroban_debug::breakpoints::BreakpointRegistry;

#[test]
fn remove_absent_is_false_and_changes_nothing() {
    let mut reg = BreakpointRegistry::new();
    reg.add("transfer");
    assert!(!reg.remove("mint"));
    assert_eq!(reg.list().as_slice(), ["transfer"]);
}

#[test]
fn remove_present_is_true_and_listing_drops_it() {
    let mut reg = BreakpointRegistry::new();
    reg.add("transfer");
    reg.add("mint");
    assert!(reg.remove("transfer"));
    assert!(!reg.contains("transfer"));
    assert_eq!(reg.list().as_slice(), ["mint"]);
}

#[test]
fn add_is_idempotent() {
    let mut reg = BreakpointRegistry::new();
    reg.add("pay");
    reg.add("pay");
    assert_eq!(reg.list().len(), 1);
    assert!(reg.contains("pay"));
}

#[test]
fn listing_is_sorted() {
    let mut reg = BreakpointRegistry::new();
    reg.add("mint");
    reg.add("burn");
    reg.add("transfer");
    reg.add("approve");
    assert_eq!(
        reg.list().as_slice(),
        ["approve", "burn", "mint", "transfer"]
    );
}

#[test]
fn contains_matches_exactly() {
    let mut reg = BreakpointRegistry::new();
    reg.add("transfer");
    assert!(reg.contains("transfer"));
    assert!(!reg.contains("transfe"));
    assert!(!reg.contains("transferX"));
    assert!(!reg.contains(""));
}

#[test]
fn empty_name_is_a_name_like_any_other() {
    let mut reg = BreakpointRegistry::new();
    reg.add("");
    assert!(reg.contains(""));
    assert!(reg.remove(""));
    assert!(reg.list().is_empty());
}

#[test]
fn ordering_is_by_unicode_scalar_value() {
    let mut reg = BreakpointRegistry::new();
    reg.add("élan");
    reg.add("zeta");
    reg.add("alpha");
    // 'é' is U+00E9, above every ASCII letter.
    assert_eq!(reg.list().as_slice(), ["alpha", "zeta", "élan"]);
    assert!(reg.contains("élan"));
    assert!(reg.remove("élan"));
    assert!(!reg.contains("élan"));
}
