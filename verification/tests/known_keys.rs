use subscription_vault::types::{
    assert_known_data_key, is_known_instance_discriminant, Address, AddressKind, DataKey,
    DATA_KEY_VARIANTS, KNOWN_INSTANCE_KEY_DISCRIMINANTS,
};

fn addr(n: u128) -> Address {
    Address { kind: AddressKind::Account, key_hi: 0, key_lo: n }
}

/// Builds one value of every `DataKey` variant, in declaration order, paired with
/// whether it is expected to be an instance-storage key.
fn all_variants() -> Vec<(DataKey, bool)> {
    let a = addr(1);
    let b = addr(2);
    let s = String::from("k");
    vec![
        (DataKey::MerchantSubs(a), true),
        (DataKey::Token, true),
        (DataKey::Admin, true),
        (DataKey::MinTopup, true),
        (DataKey::NextId, true),
        (DataKey::SchemaVersion, true),
        (DataKey::Sub(1), false),
        (DataKey::ChargedPeriod(1), false),
        (DataKey::IdemKey(1), false),
        (DataKey::EmergencyStop, true),
        (DataKey::MerchantPaused(a), true),
        (DataKey::BillingStatement(1, 2), false),
        (DataKey::BillingStatementsBySubscription(1), false),
        (DataKey::BillingStatementsByMerchant(a), false),
        (DataKey::TotalAccounted(a), true),
        (DataKey::Recovery(s.clone()), false),
        (DataKey::MerchantConfig(a), true),
        (DataKey::MerchantEarnings(a, b), true),
        (DataKey::MerchantTokens(a), true),
        (DataKey::UsageLimits(1), true),
        (DataKey::UsageState(1), true),
        (DataKey::GracePeriod, true),
        (DataKey::FeeBps, true),
        (DataKey::Treasury, true),
        (DataKey::AcceptedTokens, true),
        (DataKey::TokenDecimals(a), true),
        (DataKey::NextPlanId, true),
        (DataKey::Plan(1), true),
        (DataKey::SubPlan(1), true),
        (DataKey::PlanMaxActive(1), true),
        (DataKey::CreditLimit(a, b), true),
        (DataKey::TokenSubs(a), true),
        (DataKey::SubscriberSubs(a), true),
        (DataKey::MerchantBalance(a, b), true),
        (DataKey::Blocklist(a), false),
        (DataKey::Oracle, true),
        (DataKey::BillingPeriodSnapshot(1, 2), false),
        (DataKey::BillingPeriodSnapshotIndex(1), false),
        (DataKey::AdminNonce(a, 1), false),
        (DataKey::Metadata(1, s.clone()), false),
        (DataKey::MetadataKeys(1), false),
        (DataKey::Operator, true),
        (DataKey::BillingRetentionConfig, true),
        (DataKey::BillingStatementSequence(1), false),
        (DataKey::BillingStatementAggregate(1), false),
        (DataKey::MerchantMaxSubs(a), true),
        (DataKey::Guardians, false),
        (DataKey::NextProposalId, true),
        (DataKey::Proposal(1), false),
        (DataKey::DisputeEscrow(1), true),
        (DataKey::Dispute(1), false),
        (DataKey::NextDisputeId, true),
        (DataKey::SubscriptionDispute(1), true),
        (DataKey::PayoutSchedule(a), true),
    ]
}

/// Positive path: every instance-tier variant is accepted by the allowlist.
#[test]
fn every_instance_variant_is_accepted() {
    for (key, is_instance) in all_variants() {
        if is_instance {
            assert!(
                key.is_known_instance_key(),
                "instance variant disc {} rejected by allowlist",
                key.canonical_discriminant()
            );
            // The guard accepts a known key.
            assert_known_data_key(&key);
        }
    }
}

/// Negative path: persistent-tier variants are NOT in the instance allowlist.
#[test]
fn persistent_variants_are_rejected() {
    for (key, is_instance) in all_variants() {
        if !is_instance {
            assert!(
                !key.is_known_instance_key(),
                "persistent variant disc {} wrongly allowlisted",
                key.canonical_discriminant()
            );
        }
    }
}

/// Negative path: a synthetic unknown key (one whose discriminant was never
/// registered) is rejected.
#[test]
fn synthetic_unknown_key_is_rejected() {
    // Discriminants beyond the highest registered variant (53) can never be
    // produced by a real `DataKey`, modelling an unknown/legacy key.
    assert!(!is_known_instance_discriminant(55));
    assert!(!is_known_instance_discriminant(9_999));
    assert!(!is_known_instance_discriminant(u32::MAX));
}

/// Drift guard: discriminants are unique and cover a contiguous `0..=53`
/// range, so the registry can never silently skip or duplicate a number.
#[test]
fn discriminants_are_unique_and_contiguous() {
    let variants = all_variants();
    let n = variants.len();
    let mut seen = vec![false; n];
    for (key, _) in &variants {
        let d = key.canonical_discriminant() as usize;
        assert!(d < n, "discriminant {d} out of range");
        assert!(!seen[d], "duplicate discriminant {d}");
        seen[d] = true;
    }
    assert!(seen.iter().all(|&s| s), "discriminants are not contiguous 0..={}", n - 1);
    assert!(n > 0, "variant count must be non-zero");
    assert_eq!(n as u32, DATA_KEY_VARIANTS);
}

/// Declaration order is the discriminant.
#[test]
fn discriminant_is_declaration_position() {
    for (i, (key, _)) in all_variants().iter().enumerate() {
        assert_eq!(key.canonical_discriminant(), i as u32);
    }
}

/// Consistency: the allowlist contains exactly the instance-tier
/// discriminants enumerated above, is sorted, and is duplicate-free.
#[test]
fn allowlist_matches_instance_classification() {
    let expected_instance: Vec<u32> = all_variants()
        .into_iter()
        .filter(|(_, is_instance)| *is_instance)
        .map(|(key, _)| key.canonical_discriminant())
        .collect();

    for d in &expected_instance {
        assert!(
            is_known_instance_discriminant(*d),
            "instance discriminant {d} missing from allowlist"
        );
    }
    assert_eq!(
        KNOWN_INSTANCE_KEY_DISCRIMINANTS.len(),
        expected_instance.len(),
        "allowlist length does not match instance-tier variant count"
    );

    // Sorted ascending and free of duplicates.
    for pair in KNOWN_INSTANCE_KEY_DISCRIMINANTS.windows(2) {
        assert!(pair[0] < pair[1], "allowlist must be sorted and unique");
    }
}

#[test]
fn registered_discriminants_at_the_edges() {
    assert!(is_known_instance_discriminant(0));
    assert!(is_known_instance_discriminant(53));
    assert!(!is_known_instance_discriminant(54));
    assert!(!is_known_instance_discriminant(6));
    assert!(!is_known_instance_discriminant(50));
}
