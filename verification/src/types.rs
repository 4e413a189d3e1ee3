//! Contract types: errors, storage keys, subscription and dispute records.

use vstd::prelude::*;

verus! {

/// Event schema version for backwards-compatible indexer decoding.
pub const EVENT_SCHEMA_VERSION: u32 = 2;

/// Maximum number of metadata keys per subscription.
pub const MAX_METADATA_KEYS: u32 = 10;
/// Maximum length of a metadata key in bytes.
pub const MAX_METADATA_KEY_LENGTH: u32 = 32;
/// Maximum length of a metadata value in bytes.
pub const MAX_METADATA_VALUE_LENGTH: u32 = 256;

/// Threshold below which a persistent subscription record TTL is extended.
/// If a subscription record is read or updated and its remaining TTL is less
/// than this threshold, it is extended to `SUB_TTL_EXTEND_TO`.
pub const SUB_TTL_THRESHOLD: u32 = 30 * 24 * 60 * 60; // 30 days

/// Target TTL for persistent subscription records when extended.
pub const SUB_TTL_EXTEND_TO: u32 = 365 * 24 * 60 * 60; // 365 days

/// Threshold below which a persistent billing statement secondary index TTL
/// is extended.
pub const BILLING_STATEMENT_TTL_THRESHOLD: u32 = 30 * 24 * 60 * 60; // 30 days

/// Target TTL for billing statement secondary index entries when extended.
pub const BILLING_STATEMENT_TTL_EXTEND_TO: u32 = 365 * 24 * 60 * 60; // 365 days

/// Threshold below which a persistent billing period snapshot TTL is extended.
pub const BILLING_PERIOD_SNAPSHOT_TTL_THRESHOLD: u32 = 30 * 24 * 60 * 60; // 30 days

/// Target TTL for billing period snapshot entries when extended.
pub const BILLING_PERIOD_SNAPSHOT_TTL_EXTEND_TO: u32 = 365 * 24 * 60 * 60; // 365 days

/// Time window (in seconds) for the dispute/chargeback process.
///
/// During this window the merchant/admin may respond to a dispute. If no
/// response is received before the window elapses, the dispute may be resolved
/// in favour of the subscriber.
pub const DISPUTE_WINDOW_SECS: u64 = 14 * 24 * 60 * 60; // 14 days

/// Maximum number of ids accepted by a single bulk admin/operator call.
pub const BATCH_MAX_SIZE: u32 = 100;

/// Snapshot closed — no further mutations allowed.
pub const SNAPSHOT_FLAG_CLOSED: u32 = 1;
/// An interval charge was processed in this period.
pub const SNAPSHOT_FLAG_INTERVAL_CHARGED: u32 = 2;
/// At least one usage charge was processed in this period.
pub const SNAPSHOT_FLAG_USAGE_CHARGED: u32 = 4;
/// Period closed with no successful charges.
pub const SNAPSHOT_FLAG_EMPTY: u32 = 8;

/// Period had at least one interval charge.
pub const STMT_FLAG_INTERVAL_CHARGED: u32 = 0b0000_0001;
/// Period had at least one usage charge.
pub const STMT_FLAG_USAGE_CHARGED: u32 = 0b0000_0010;
/// Period had at least one one-off charge.
pub const STMT_FLAG_ONEOFF_CHARGED: u32 = 0b0000_0100;
/// Subscription was cancelled during this period.
pub const STMT_FLAG_CANCELLED: u32 = 0b0000_1000;
/// Subscriber withdrew remaining balance; period is fully settled.
pub const STMT_FLAG_SETTLED: u32 = 0b0001_0000;

/// Maximum number of idempotency keys retained per subscription.
pub const IDEM_HISTORY: u32 = 32;

/// Entrypoint domains for idempotency key scoping.
pub const DOMAIN_CHARGE_INTERVAL: u32 = 0;
pub const DOMAIN_DEPOSIT_FUNDS: u32 = 1;
pub const DOMAIN_CHARGE_ONEOFF: u32 = 2;

/// Operation flags for merchant configuration.
/// Each flag is a bit in the allowed_operations bitmap.
pub const OP_CHARGE: i32 = 1; // 0x01 - Can charge subscribers
pub const OP_WITHDRAW: i32 = 2; // 0x02 - Can withdraw earnings
pub const OP_REFUND: i32 = 4; // 0x04 - Can issue refunds to subscribers
pub const OP_BILLING_PAUSE: i32 = 8; // 0x08 - Can pause subscriptions globally
pub const OP_AUTO_RENEWAL: i32 = 16; // 0x10 - Auto-renewal enabled

/// Default allowed operations for a new merchant config.
pub const DEFAULT_ALLOWED_OPS: i32 = OP_CHARGE | OP_WITHDRAW | OP_REFUND | OP_AUTO_RENEWAL;

/// Maximum fee in bips (100% = 10000 bips).
pub const MAX_FEE_BIPS: i32 = 10000;

/// Validates that the allowed_operations bitmap contains only valid operation bits,
/// i.e. that no bit outside `OP_CHARGE | OP_WITHDRAW | OP_REFUND | OP_BILLING_PAUSE | OP_AUTO_RENEWAL`
/// is set. For an `i32` that is exactly the range `0..=31` (a negative value has its sign bit set).
pub fn is_valid_allowed_operations(ops: i32) -> (r: bool)
    ensures
        r == (0 <= ops && ops <= 31),
{
    let valid_mask = OP_CHARGE | OP_WITHDRAW | OP_REFUND | OP_BILLING_PAUSE | OP_AUTO_RENEWAL;
    assert(valid_mask == 31i32) by (bit_vector)
        requires valid_mask == 1i32 | 2i32 | 4i32 | 8i32 | 16i32;
    assert((ops & !31i32 == 0i32) == (0i32 <= ops && ops <= 31i32)) by (bit_vector);
    ops & !valid_mask == 0
}

/// Represents the lifecycle state of a subscription.
///
/// See `docs/subscription_lifecycle.md` for how each status is entered and exited.
///
/// # State Machine
///
/// - **Active**: Subscription is active and charges can be processed.
///   - Can transition to: `Paused`, `Cancelled`, `InsufficientBalance`, `GracePeriod`
/// - **Paused**: Subscription is temporarily suspended, no charges processed.
///   - Can transition to: `Active`, `Cancelled`
/// - **Cancelled**: Subscription is permanently terminated (terminal state).
///   - No outgoing transitions
/// - **InsufficientBalance**: Subscription failed due to insufficient funds.
///   - Can transition to: `Active` (after deposit + resume), `Cancelled`
/// - **GracePeriod**: Subscription is in grace period after a missed charge.
///   - Can transition to: `Active`, `InsufficientBalance`, `Cancelled`
#[derive(Clone, Copy, Debug, PartialEq, Eq, Structural)]
pub enum SubscriptionStatus {
    /// Subscription is active and ready for charging.
    Active,
    /// Subscription is temporarily paused, no charges processed.
    Paused,
    /// Subscription is permanently cancelled (terminal state).
    Cancelled,
    /// Subscription failed due to insufficient balance for charging.
    InsufficientBalance,
    /// Subscription is in grace period after a missed charge.
    GracePeriod,
    /// Subscription has automatically expired based on its expiration timestamp.
    Expired,
    /// Subscription is archived (reduced storage, read-only).
    Archived,
}

/// Stores subscription details and current state.
///
/// The `status` field is managed by the state machine. Use the provided
/// transition helpers to modify status, never set it directly.
/// See `docs/subscription_lifecycle.md` for lifecycle and on-chain representation.
///
/// # Storage Schema
///
/// This is a named-field struct encoded on-ledger as a ScMap keyed by field names.
/// Adding new fields at the end with conservative defaults is a storage-extending change.
/// Changing field types or removing fields is a breaking change.
#[derive(Clone, Copy, Debug)]
pub struct Subscription {
    pub subscriber: Address,
    pub merchant: Address,
    /// Settlement token address used for all transfers on this subscription.
    pub token: Address,
    /// Recurring charge amount per billing interval (in token base units, e.g. stroops for USDC).
    pub amount: i128,
    /// Billing interval in seconds.
    pub interval_seconds: u64,
    pub last_payment_timestamp: u64,
    /// Current lifecycle state. Modified only through state machine transitions.
    pub status: SubscriptionStatus,
    /// Subscriber's prepaid balance held in escrow by the contract.
    pub prepaid_balance: i128,
    pub usage_enabled: bool,
    /// Optional maximum total amount (in token base units) that may ever be charged
    /// over the entire lifespan of this subscription. `None` means no cap.
    ///
    /// Units: same as `amount` (token base units, e.g. 1 USDC = 1_000_000 for 6 decimals).
    pub lifetime_cap: Option<i128>,
    /// Cumulative total of all amounts successfully charged so far.
    ///
    /// Incremented on every successful interval charge and usage charge.
    /// When `lifetime_cap` is `Some(cap)` and `lifetime_charged >= cap`, no
    /// further charges are processed and the subscription transitions to `Cancelled`.
    pub lifetime_charged: i128,
    /// The timestamp when the subscription started.
    pub start_time: u64,
    /// The timestamp when the subscription expires. `None` means no expiration.
    pub expires_at: Option<u64>,
    /// Timestamp when a grace-period started. `None` means not in grace period.
    pub grace_start_timestamp: Option<u64>,
    /// Scheduled future cancellation timestamp. When `Some(t)` and `now >= t`,
    /// `charge_one` transitions the subscription to `Cancelled` instead of charging.
    pub cancel_at: Option<u64>,
}

/// A non-transferable (soulbound) credential badge linking a subscription.
#[derive(Clone, Copy, Debug, PartialEq, Eq, Structural)]
pub struct CredentialBadge {
    pub subscription_id: u32,
    pub tier: u32,
    pub issued_at: u64,
    pub revoked: bool,
}

/// Detailed error information for insufficient balance scenarios.
#[derive(Clone, Copy, Debug, PartialEq, Eq, Structural)]
pub struct InsufficientBalanceError {
    /// The current available prepaid balance in the subscription vault.
    pub available: i128,
    /// The required amount to complete the charge.
    pub required: i128,
}

/// Lifecycle status of a dispute.
#[derive(Clone, Copy, Debug, PartialEq, Eq, Structural)]
pub enum DisputeStatus {
    /// Dispute opened, awaiting merchant/admin response. Funds held in escrow.
    Open,
    /// Merchant/admin has responded to the dispute. Awaiting final resolution.
    Responded,
    /// Dispute resolved in favour of the merchant; escrow released to merchant.
    ResolvedToMerchant,
    /// Dispute resolved in favour of the subscriber; escrow returned to subscriber.
    ResolvedToSubscriber,
}

/// Dispute / chargeback record tracking contested charges.
#[derive(Clone, Copy, Debug)]
pub struct Dispute {
    /// Unique dispute ID (auto-incremented).
    pub id: u64,
    /// Subscription the dispute is against.
    pub subscription_id: u32,
    /// Subscriber who opened the dispute.
    pub subscriber: Address,
    /// Merchant who received the original payment.
    pub merchant: Address,
    /// Amount held in escrow pending resolution (token base units).
    pub amount: i128,
    /// Ledger timestamp when the dispute was opened.
    pub opened_at: u64,
    /// Current status of the dispute.
    pub status: DisputeStatus,
    /// Optional evidence hash provided by the subscriber.
    pub evidence_hash: Option<[u8; 32]>,
    /// Ledger timestamp when the admin responded (None if not yet responded).
    pub responded_at: Option<u64>,
    /// Optional evidence hash provided by the admin (merchant side).
    pub admin_evidence_hash: Option<[u8; 32]>,
}

impl Subscription {
    /// Whether the subscription's expiry time has been reached at `current_time`.
    pub open spec fn is_expired_spec(self, current_time: u64) -> bool {
        match self.expires_at {
            Some(exp) => current_time >= exp,
            None => false,
        }
    }

    pub fn is_expired(&self, current_time: u64) -> (r: bool)
        ensures
            r == self.is_expired_spec(current_time),
    {
        if let Some(exp) = self.expires_at {
            current_time >= exp
        } else {
            false
        }
    }
}

/// Expiry is permanent: a subscription expired at some time is expired at every
/// later time, and one without an expiry time never expires.
pub proof fn lemma_expiry_is_permanent(sub: Subscription, t1: u64, t2: u64)
    requires
        t1 <= t2,
    ensures
        sub.is_expired_spec(t1) ==> sub.is_expired_spec(t2),
        sub.expires_at is None ==> !sub.is_expired_spec(t2),
{
}

impl InsufficientBalanceError {
    pub fn new(available: i128, required: i128) -> (r: Self)
        ensures
            r.available == available,
            r.required == required,
    {
        Self { available, required }
    }

    /// How much is missing: `required - available`.
    pub fn shortfall(&self) -> (r: i128)
        requires
            i128::MIN <= self.required - self.available <= i128::MAX,
        ensures
            r == self.required - self.available,
    {
        self.required - self.available
    }
}

/// A ledger address: a Stellar account (keyed by its ed25519 public key) or a
/// contract (keyed by its contract hash). The 32-byte key is held as two
/// big-endian halves, so that addresses compare as plain integers.
#[derive(Clone, Copy, Debug, PartialEq, Eq, Structural)]
pub enum AddressKind {
    /// A classic Stellar account.
    Account,
    /// A deployed contract.
    Contract,
}

/// See [`AddressKind`]: `key_hi` holds bytes 0..16 and `key_lo` bytes 16..32
/// of the account key or contract hash, each read big-endian.
#[derive(Clone, Copy, Debug, PartialEq, Eq, Structural)]
pub struct Address {
    pub kind: AddressKind,
    pub key_hi: u128,
    pub key_lo: u128,
}

/// Storage keys for secondary indices.
///
/// ## Storage Layout — Discriminant Registry
///
/// The Soroban `#[contracttype]` macro serialises enum variants by their
/// **declaration order** (0-indexed). The discriminant numbers below are the
/// canonical, frozen identifiers for each key and match
/// [`DataKey::canonical_discriminant`]. **Never reorder or remove a variant** —
/// doing so shifts all subsequent discriminants and silently corrupts live
/// storage. Only append new variants at the end.
///
/// The **Storage tier** column is authoritative: every instance-tier key below
/// is also listed in [`KNOWN_INSTANCE_KEY_DISCRIMINANTS`], the allowlist that
/// [`assert_known_data_key`] checks at instance read/write sites. When you add a
/// variant, append a row here, add its arm to `canonical_discriminant`, and —
/// if it is instance-tier — add its discriminant to the allowlist.
#[derive(Clone, Debug)]
pub enum DataKey {
    /// Maps a merchant address to its list of subscription IDs. Discriminant 0.
    MerchantSubs(Address),
    /// USDC token contract address. Discriminant 1.
    Token,
    /// Authorized admin address. Discriminant 2.
    Admin,
    /// Minimum deposit threshold. Discriminant 3.
    MinTopup,
    /// Auto-incrementing subscription ID counter. Discriminant 4.
    NextId,
    /// On-chain storage schema version. Discriminant 5.
    SchemaVersion,
    /// Subscription record keyed by its ID. Discriminant 6.
    Sub(u32),
    /// Last charged billing-period index for replay protection. Discriminant 7.
    ChargedPeriod(u32),
    /// Idempotency key stored per subscription. Discriminant 8.
    IdemKey(u32),
    /// Emergency stop flag — when true, critical operations are blocked. Discriminant 9.
    EmergencyStop,
    /// Merchant-wide pause flag. Discriminant 10.
    MerchantPaused(Address),
    /// Detailed billing statement for a subscription charge. Discriminant 11.
    BillingStatement(u32, u32),
    /// Secondary index for statements by subscription. Discriminant 12.
    BillingStatementsBySubscription(u32),
    /// Secondary index for statements by merchant. Discriminant 13.
    BillingStatementsByMerchant(Address),
    /// Total accounted balance for recovery validation. Discriminant 14.
    TotalAccounted(Address),
    /// Replay protection key for recovery operations. Discriminant 15.
    Recovery(String),
    /// Merchant configuration (pause state, fee routing, etc.). Discriminant 16.
    MerchantConfig(Address),
    /// Per-merchant, per-token accrued earnings record. Discriminant 17.
    MerchantEarnings(Address, Address),
    /// List of token addresses a merchant has earned in. Discriminant 18.
    MerchantTokens(Address),
    /// Usage rate/cap limits for a subscription. Discriminant 19.
    UsageLimits(u32),
    /// Running usage state for a subscription within the current window. Discriminant 20.
    UsageState(u32),
    /// Global grace period for underfunded subscriptions. Discriminant 21.
    GracePeriod,
    /// Protocol fee in basis points (0-10,000). Discriminant 22.
    FeeBps,
    /// Treasury address for protocol fee collection. Discriminant 23.
    Treasury,
    /// List of all token addresses accepted by the vault. Discriminant 24.
    AcceptedTokens,
    /// Decimals for a specific accepted token. Discriminant 25.
    TokenDecimals(Address),
    /// Auto-incrementing plan-template ID counter. Discriminant 26.
    NextPlanId,
    /// Plan template record keyed by its plan ID. Discriminant 27.
    Plan(u32),
    /// Maps a subscription ID to its parent plan-template ID. Discriminant 28.
    SubPlan(u32),
    /// Max concurrent active subscriptions allowed for a plan. Discriminant 29.
    PlanMaxActive(u32),
    /// Per-subscriber, per-token credit limit. Discriminant 30.
    CreditLimit(Address, Address),
    /// Maps a token address to its list of subscription IDs. Discriminant 31.
    TokenSubs(Address),
    /// Maps a subscriber address to its list of subscription IDs. Discriminant 32.
    SubscriberSubs(Address),
    /// Maps (merchant, token) to their accumulated balance. Discriminant 33.
    MerchantBalance(Address, Address),
    /// Maps a subscriber address to their blocklist status. Discriminant 34.
    Blocklist(Address),
    /// Oracle configuration. Discriminant 35.
    Oracle,
    /// Billing period snapshot storage. Discriminant 36.
    BillingPeriodSnapshot(u32, u64),
    /// Index for billing period snapshots. Discriminant 37.
    BillingPeriodSnapshotIndex(u32),
    /// Admin nonce for replay protection keyed by (admin_address, domain). Discriminant 38.
    AdminNonce(Address, u32),
    /// Per-subscription metadata key-value pair. Discriminant 39.
    Metadata(u32, String),
    /// Per-subscription list of metadata keys. Discriminant 40.
    MetadataKeys(u32),
    /// Operator key. Discriminant 41.
    Operator,
    /// Global billing statement retention configuration. Discriminant 42.
    BillingRetentionConfig,
    /// Monotonic per-subscription statement sequence counter. Discriminant 43.
    BillingStatementSequence(u32),
    /// Aggregated totals from compacted billing statements. Discriminant 44.
    BillingStatementAggregate(u32),
    /// Max concurrent active subscriptions allowed for a merchant. Discriminant 45.
    MerchantMaxSubs(Address),
    /// Guardian voting weights for governance proposals. Discriminant 46.
    Guardians,
    /// Auto-incrementing proposal ID counter for governance. Discriminant 47.
    NextProposalId,
    /// Governance proposal record keyed by proposal ID. Discriminant 48.
    Proposal(u64),
    /// Dispute escrow amount held for a dispute (instance). Discriminant 49.
    DisputeEscrow(u64),
    /// Dispute record keyed by dispute ID (persistent). Discriminant 50.
    Dispute(u64),
    /// Auto-incrementing dispute ID counter (instance). Discriminant 51.
    NextDisputeId,
    /// Maps subscription ID to active dispute ID (instance). Discriminant 52.
    SubscriptionDispute(u32),
    /// Payout schedule configuration for a merchant. Discriminant 53.
    PayoutSchedule(Address),
}

/// Number of `DataKey` variants; their discriminants are exactly `0..DATA_KEY_VARIANTS`.
pub const DATA_KEY_VARIANTS: u32 = 54;

impl DataKey {
    /// The canonical discriminant of a key: its variant's position in declaration order.
    pub open spec fn discriminant_spec(self) -> u32 {
        match self {
            DataKey::MerchantSubs(..) => 0,
            DataKey::Token => 1,
            DataKey::Admin => 2,
            DataKey::MinTopup => 3,
            DataKey::NextId => 4,
            DataKey::SchemaVersion => 5,
            DataKey::Sub(..) => 6,
            DataKey::ChargedPeriod(..) => 7,
            DataKey::IdemKey(..) => 8,
            DataKey::EmergencyStop => 9,
            DataKey::MerchantPaused(..) => 10,
            DataKey::BillingStatement(..) => 11,
            DataKey::BillingStatementsBySubscription(..) => 12,
            DataKey::BillingStatementsByMerchant(..) => 13,
            DataKey::TotalAccounted(..) => 14,
            DataKey::Recovery(..) => 15,
            DataKey::MerchantConfig(..) => 16,
            DataKey::MerchantEarnings(..) => 17,
            DataKey::MerchantTokens(..) => 18,
            DataKey::UsageLimits(..) => 19,
            DataKey::UsageState(..) => 20,
            DataKey::GracePeriod => 21,
            DataKey::FeeBps => 22,
            DataKey::Treasury => 23,
            DataKey::AcceptedTokens => 24,
            DataKey::TokenDecimals(..) => 25,
            DataKey::NextPlanId => 26,
            DataKey::Plan(..) => 27,
            DataKey::SubPlan(..) => 28,
            DataKey::PlanMaxActive(..) => 29,
            DataKey::CreditLimit(..) => 30,
            DataKey::TokenSubs(..) => 31,
            DataKey::SubscriberSubs(..) => 32,
            DataKey::MerchantBalance(..) => 33,
            DataKey::Blocklist(..) => 34,
            DataKey::Oracle => 35,
            DataKey::BillingPeriodSnapshot(..) => 36,
            DataKey::BillingPeriodSnapshotIndex(..) => 37,
            DataKey::AdminNonce(..) => 38,
            DataKey::Metadata(..) => 39,
            DataKey::MetadataKeys(..) => 40,
            DataKey::Operator => 41,
            DataKey::BillingRetentionConfig => 42,
            DataKey::BillingStatementSequence(..) => 43,
            DataKey::BillingStatementAggregate(..) => 44,
            DataKey::MerchantMaxSubs(..) => 45,
            DataKey::Guardians => 46,
            DataKey::NextProposalId => 47,
            DataKey::Proposal(..) => 48,
            DataKey::DisputeEscrow(..) => 49,
            DataKey::Dispute(..) => 50,
            DataKey::NextDisputeId => 51,
            DataKey::SubscriptionDispute(..) => 52,
            DataKey::PayoutSchedule(..) => 53,
        }
    }

    /// Canonical, declaration-order discriminant for this key.
    pub fn canonical_discriminant(&self) -> (d: u32)
        ensures
            d == self.discriminant_spec(),
    {
        match self {
            DataKey::MerchantSubs(..) => 0,
            DataKey::Token => 1,
            DataKey::Admin => 2,
            DataKey::MinTopup => 3,
            DataKey::NextId => 4,
            DataKey::SchemaVersion => 5,
            DataKey::Sub(..) => 6,
            DataKey::ChargedPeriod(..) => 7,
            DataKey::IdemKey(..) => 8,
            DataKey::EmergencyStop => 9,
            DataKey::MerchantPaused(..) => 10,
            DataKey::BillingStatement(..) => 11,
            DataKey::BillingStatementsBySubscription(..) => 12,
            DataKey::BillingStatementsByMerchant(..) => 13,
            DataKey::TotalAccounted(..) => 14,
            DataKey::Recovery(..) => 15,
            DataKey::MerchantConfig(..) => 16,
            DataKey::MerchantEarnings(..) => 17,
            DataKey::MerchantTokens(..) => 18,
            DataKey::UsageLimits(..) => 19,
            DataKey::UsageState(..) => 20,
            DataKey::GracePeriod => 21,
            DataKey::FeeBps => 22,
            DataKey::Treasury => 23,
            DataKey::AcceptedTokens => 24,
            DataKey::TokenDecimals(..) => 25,
            DataKey::NextPlanId => 26,
            DataKey::Plan(..) => 27,
            DataKey::SubPlan(..) => 28,
            DataKey::PlanMaxActive(..) => 29,
            DataKey::CreditLimit(..) => 30,
            DataKey::TokenSubs(..) => 31,
            DataKey::SubscriberSubs(..) => 32,
            DataKey::MerchantBalance(..) => 33,
            DataKey::Blocklist(..) => 34,
            DataKey::Oracle => 35,
            DataKey::BillingPeriodSnapshot(..) => 36,
            DataKey::BillingPeriodSnapshotIndex(..) => 37,
            DataKey::AdminNonce(..) => 38,
            DataKey::Metadata(..) => 39,
            DataKey::MetadataKeys(..) => 40,
            DataKey::Operator => 41,
            DataKey::BillingRetentionConfig => 42,
            DataKey::BillingStatementSequence(..) => 43,
            DataKey::BillingStatementAggregate(..) => 44,
            DataKey::MerchantMaxSubs(..) => 45,
            DataKey::Guardians => 46,
            DataKey::NextProposalId => 47,
            DataKey::Proposal(..) => 48,
            DataKey::DisputeEscrow(..) => 49,
            DataKey::Dispute(..) => 50,
            DataKey::NextDisputeId => 51,
            DataKey::SubscriptionDispute(..) => 52,
            DataKey::PayoutSchedule(..) => 53,
        }
    }

    /// Whether this key is an instance-storage key, i.e. its discriminant is allowlisted.
    pub open spec fn is_instance_key_spec(self) -> bool {
        is_instance_discriminant_spec(self.discriminant_spec())
    }

    /// Returns `true` if this key belongs to the canonical **instance**-storage
    /// allowlist ([`KNOWN_INSTANCE_KEY_DISCRIMINANTS`]).
    pub fn is_known_instance_key(&self) -> (r: bool)
        ensures
            r == self.is_instance_key_spec(),
    {
        is_known_instance_discriminant(self.canonical_discriminant())
    }
}

/// Canonical set of [`DataKey`] discriminants that legitimately live in
/// **instance** storage. Frozen identifiers — see the registry table on
/// [`DataKey`]. Kept sorted ascending so it reads as a registry.
///
/// Every instance read/write must use a key whose
/// [`DataKey::canonical_discriminant`] appears here. Persistent-tier
/// discriminants are deliberately *excluded*.
pub const KNOWN_INSTANCE_KEY_DISCRIMINANTS: [u32; 36] = [
    0,  // MerchantSubs(Address)
    1,  // Token
    2,  // Admin
    3,  // MinTopup
    4,  // NextId
    5,  // SchemaVersion
    9,  // EmergencyStop
    10, // MerchantPaused(Address)
    14, // TotalAccounted(Address)
    16, // MerchantConfig(Address)
    17, // MerchantEarnings(Address, Address)
    18, // MerchantTokens(Address)
    19, // UsageLimits(u32)
    20, // UsageState(u32)
    21, // GracePeriod
    22, // FeeBps
    23, // Treasury
    24, // AcceptedTokens
    25, // TokenDecimals(Address)
    26, // NextPlanId
    27, // Plan(u32)
    28, // SubPlan(u32)
    29, // PlanMaxActive(u32)
    30, // CreditLimit(Address, Address)
    31, // TokenSubs(Address)
    32, // SubscriberSubs(Address)
    33, // MerchantBalance(Address, Address)
    35, // Oracle
    41, // Operator
    42, // BillingRetentionConfig
    45, // MerchantMaxSubs(Address)
    47, // NextProposalId
    49, // DisputeEscrow(u64)
    51, // NextDisputeId
    52, // SubscriptionDispute(u32)
    53, // PayoutSchedule(Address)
];

/// The instance-storage allowlist as a sequence.
pub open spec fn known_instance_discriminants() -> Seq<u32> {
    seq![0, 1, 2, 3, 4, 5, 9, 10, 14, 16, 17, 18, 19, 20, 21, 22, 23, 24, 25, 26, 27, 28, 29, 30, 31, 32, 33, 35, 41, 42, 45, 47, 49, 51, 52, 53]
}

/// `d` is a recognised instance-storage discriminant.
pub open spec fn is_instance_discriminant_spec(d: u32) -> bool {
    known_instance_discriminants().contains(d)
}

/// Returns `true` if `discriminant` is a recognised instance-storage key.
///
/// Operates on the raw discriminant so it can also reject a *synthetic* unknown
/// key (e.g. a legacy key that never went through the typed [`DataKey`] enum).
pub fn is_known_instance_discriminant(discriminant: u32) -> (r: bool)
    ensures
        r == is_instance_discriminant_spec(discriminant),
{
    let known = KNOWN_INSTANCE_KEY_DISCRIMINANTS;
    assert(known@ == known_instance_discriminants());
    let mut i: usize = 0;
    while i < known.len()
        invariant
            known@ == known_instance_discriminants(),
            0 <= i <= known@.len(),
            forall|j: int| 0 <= j < i ==> known@[j] != discriminant,
        decreases known@.len() - i,
    {
        if known[i] == discriminant {
            return true;
        }
        i = i + 1;
    }
    false
}

// ── Laws of the storage-key registry ─────────────────────────────────────────

/// `a` and `b` are keys of the same variant.
pub open spec fn same_variant(a: DataKey, b: DataKey) -> bool {
    ||| (a is MerchantSubs && b is MerchantSubs)
    ||| (a is Token && b is Token)
    ||| (a is Admin && b is Admin)
    ||| (a is MinTopup && b is MinTopup)
    ||| (a is NextId && b is NextId)
    ||| (a is SchemaVersion && b is SchemaVersion)
    ||| (a is Sub && b is Sub)
    ||| (a is ChargedPeriod && b is ChargedPeriod)
    ||| (a is IdemKey && b is IdemKey)
    ||| (a is EmergencyStop && b is EmergencyStop)
    ||| (a is MerchantPaused && b is MerchantPaused)
    ||| (a is BillingStatement && b is BillingStatement)
    ||| (a is BillingStatementsBySubscription && b is BillingStatementsBySubscription)
    ||| (a is BillingStatementsByMerchant && b is BillingStatementsByMerchant)
    ||| (a is TotalAccounted && b is TotalAccounted)
    ||| (a is Recovery && b is Recovery)
    ||| (a is MerchantConfig && b is MerchantConfig)
    ||| (a is MerchantEarnings && b is MerchantEarnings)
    ||| (a is MerchantTokens && b is MerchantTokens)
    ||| (a is UsageLimits && b is UsageLimits)
    ||| (a is UsageState && b is UsageState)
    ||| (a is GracePeriod && b is GracePeriod)
    ||| (a is FeeBps && b is FeeBps)
    ||| (a is Treasury && b is Treasury)
    ||| (a is AcceptedTokens && b is AcceptedTokens)
    ||| (a is TokenDecimals && b is TokenDecimals)
    ||| (a is NextPlanId && b is NextPlanId)
    ||| (a is Plan && b is Plan)
    ||| (a is SubPlan && b is SubPlan)
    ||| (a is PlanMaxActive && b is PlanMaxActive)
    ||| (a is CreditLimit && b is CreditLimit)
    ||| (a is TokenSubs && b is TokenSubs)
    ||| (a is SubscriberSubs && b is SubscriberSubs)
    ||| (a is MerchantBalance && b is MerchantBalance)
    ||| (a is Blocklist && b is Blocklist)
    ||| (a is Oracle && b is Oracle)
    ||| (a is BillingPeriodSnapshot && b is BillingPeriodSnapshot)
    ||| (a is BillingPeriodSnapshotIndex && b is BillingPeriodSnapshotIndex)
    ||| (a is AdminNonce && b is AdminNonce)
    ||| (a is Metadata && b is Metadata)
    ||| (a is MetadataKeys && b is MetadataKeys)
    ||| (a is Operator && b is Operator)
    ||| (a is BillingRetentionConfig && b is BillingRetentionConfig)
    ||| (a is BillingStatementSequence && b is BillingStatementSequence)
    ||| (a is BillingStatementAggregate && b is BillingStatementAggregate)
    ||| (a is MerchantMaxSubs && b is MerchantMaxSubs)
    ||| (a is Guardians && b is Guardians)
    ||| (a is NextProposalId && b is NextProposalId)
    ||| (a is Proposal && b is Proposal)
    ||| (a is DisputeEscrow && b is DisputeEscrow)
    ||| (a is Dispute && b is Dispute)
    ||| (a is NextDisputeId && b is NextDisputeId)
    ||| (a is SubscriptionDispute && b is SubscriptionDispute)
    ||| (a is PayoutSchedule && b is PayoutSchedule)
}

/// A key of the variant whose canonical discriminant is `d` (for `d` in range).
pub open spec fn key_with_discriminant(d: u32) -> DataKey {
        if d == 0 { DataKey::MerchantSubs(arbitrary()) }
        else if d == 1 { DataKey::Token }
        else if d == 2 { DataKey::Admin }
        else if d == 3 { DataKey::MinTopup }
        else if d == 4 { DataKey::NextId }
        else if d == 5 { DataKey::SchemaVersion }
        else if d == 6 { DataKey::Sub(arbitrary()) }
        else if d == 7 { DataKey::ChargedPeriod(arbitrary()) }
        else if d == 8 { DataKey::IdemKey(arbitrary()) }
        else if d == 9 { DataKey::EmergencyStop }
        else if d == 10 { DataKey::MerchantPaused(arbitrary()) }
        else if d == 11 { DataKey::BillingStatement(arbitrary(), arbitrary()) }
        else if d == 12 { DataKey::BillingStatementsBySubscription(arbitrary()) }
        else if d == 13 { DataKey::BillingStatementsByMerchant(arbitrary()) }
        else if d == 14 { DataKey::TotalAccounted(arbitrary()) }
        else if d == 15 { DataKey::Recovery(arbitrary()) }
        else if d == 16 { DataKey::MerchantConfig(arbitrary()) }
        else if d == 17 { DataKey::MerchantEarnings(arbitrary(), arbitrary()) }
        else if d == 18 { DataKey::MerchantTokens(arbitrary()) }
        else if d == 19 { DataKey::UsageLimits(arbitrary()) }
        else if d == 20 { DataKey::UsageState(arbitrary()) }
        else if d == 21 { DataKey::GracePeriod }
        else if d == 22 { DataKey::FeeBps }
        else if d == 23 { DataKey::Treasury }
        else if d == 24 { DataKey::AcceptedTokens }
        else if d == 25 { DataKey::TokenDecimals(arbitrary()) }
        else if d == 26 { DataKey::NextPlanId }
        else if d == 27 { DataKey::Plan(arbitrary()) }
        else if d == 28 { DataKey::SubPlan(arbitrary()) }
        else if d == 29 { DataKey::PlanMaxActive(arbitrary()) }
        else if d == 30 { DataKey::CreditLimit(arbitrary(), arbitrary()) }
        else if d == 31 { DataKey::TokenSubs(arbitrary()) }
        else if d == 32 { DataKey::SubscriberSubs(arbitrary()) }
        else if d == 33 { DataKey::MerchantBalance(arbitrary(), arbitrary()) }
        else if d == 34 { DataKey::Blocklist(arbitrary()) }
        else if d == 35 { DataKey::Oracle }
        else if d == 36 { DataKey::BillingPeriodSnapshot(arbitrary(), arbitrary()) }
        else if d == 37 { DataKey::BillingPeriodSnapshotIndex(arbitrary()) }
        else if d == 38 { DataKey::AdminNonce(arbitrary(), arbitrary()) }
        else if d == 39 { DataKey::Metadata(arbitrary(), arbitrary()) }
        else if d == 40 { DataKey::MetadataKeys(arbitrary()) }
        else if d == 41 { DataKey::Operator }
        else if d == 42 { DataKey::BillingRetentionConfig }
        else if d == 43 { DataKey::BillingStatementSequence(arbitrary()) }
        else if d == 44 { DataKey::BillingStatementAggregate(arbitrary()) }
        else if d == 45 { DataKey::MerchantMaxSubs(arbitrary()) }
        else if d == 46 { DataKey::Guardians }
        else if d == 47 { DataKey::NextProposalId }
        else if d == 48 { DataKey::Proposal(arbitrary()) }
        else if d == 49 { DataKey::DisputeEscrow(arbitrary()) }
        else if d == 50 { DataKey::Dispute(arbitrary()) }
        else if d == 51 { DataKey::NextDisputeId }
        else if d == 52 { DataKey::SubscriptionDispute(arbitrary()) }
        else { DataKey::PayoutSchedule(arbitrary()) }
}

/// Discriminants are unique: two keys share a discriminant exactly when they are
/// of the same variant.
pub proof fn lemma_discriminants_unique(a: DataKey, b: DataKey)
    ensures
        (a.discriminant_spec() == b.discriminant_spec()) == same_variant(a, b),
{
}

/// Discriminants are contiguous: the discriminants of keys are exactly the numbers
/// `0..DATA_KEY_VARIANTS`.
pub proof fn lemma_discriminants_contiguous(d: u32)
    ensures
        (exists|k: DataKey| k.discriminant_spec() == d) == (d < DATA_KEY_VARIANTS),
{
    if d < DATA_KEY_VARIANTS {
        assert(key_with_discriminant(d).discriminant_spec() == d);
    }
}

/// Guard asserting that `key` belongs to the canonical instance-key allowlist
/// before it is used for an instance read or write. The assertion is its
/// precondition, so every call site proves that the key is instance-tier and
/// the guard costs nothing at run time.
pub fn assert_known_data_key(key: &DataKey)
    requires
        key.is_instance_key_spec(),
{
}


/// Contract error. Each variant has a stable numeric code, given by [`Error::to_code`].
#[derive(Clone, Copy, Debug, PartialEq, Eq, Structural)]
pub enum Error {
    // --- Auth Errors (1000-1099) ---
    /// Caller does not have the required authorization.
    Unauthorized,
    /// Caller is authorized but does not have permission for this specific action.
    Forbidden,
    /// Subscriber is on the blocklist and cannot create or interact with subscriptions.
    SubscriberBlocklisted,
    /// Rotation to the same admin address is not allowed.
    SelfRotation,
    /// Nonce has already been used for this signer and domain.
    NonceAlreadyUsed,

    // --- Not Found (2000-2099) ---
    /// The requested resource was not found in storage.
    NotFound,
    /// The contract or requested configuration is not initialized.
    NotInitialized,

    // --- Invalid Args (3000-3099) ---
    /// The provided amount is zero or negative.
    InvalidAmount,
    /// Invalid input provided to a function.
    InvalidInput,
    /// Invalid recovery amount provided.
    InvalidRecoveryAmount,
    /// The provided new admin address is invalid.
    InvalidNewAdmin,
    /// Metadata key exceeds maximum allowed length.
    MetadataKeyTooLong,
    /// Metadata value exceeds maximum allowed length.
    MetadataValueTooLong,
    /// Oracle returned a non-positive price.
    OraclePriceInvalid,

    // --- State Transition (4000-4099) ---
    /// The requested state transition is not allowed by the state machine.
    InvalidStatusTransition,
    /// Subscription is not in an active state for this operation.
    NotActive,
    /// Subscription has expired based on its expires_at timestamp.
    SubscriptionExpired,
    /// Charge interval has not elapsed since the last payment.
    IntervalNotElapsed,
    /// Charge already processed for this billing period (replay protection).
    Replay,
    /// Recovery operation not allowed for this reason or context.
    RecoveryNotAllowed,
    /// Emergency stop is active - critical operations are blocked.
    EmergencyStopActive,
    /// Contract is already initialized; init may only be called once.
    AlreadyInitialized,
    /// Merchant-wide pause is active for this subscription.
    MerchantPaused,
    /// Reentrancy detected - function called recursively during execution.
    Reentrancy,

    // --- Accounting (5000-5099) ---
    /// Insufficient balance in the subscription vault.
    InsufficientBalance,
    /// Insufficient prepaid balance for the requested usage charge.
    InsufficientPrepaidBalance,
    /// The top-up amount is below the minimum required threshold.
    BelowMinimumTopup,
    /// Operation would result in a negative balance or underflow.
    Underflow,
    /// Combined balance would overflow i128.
    Overflow,
    /// Oracle pricing is enabled but no oracle is configured.
    OracleNotConfigured,
    /// Oracle returned an invalid or missing price payload.
    OraclePriceUnavailable,
    /// Oracle price is stale relative to configured max age.
    OraclePriceStale,
    /// The vault's live token holdings disagree with the merchant balances it records.
    InvariantViolation,

    // --- Limits (6000-6099) ---
    /// The contract has allocated the maximum number of subscriptions.
    SubscriptionLimitReached,
    /// Lifetime charge cap has been reached; no further charges are allowed.
    LifetimeCapReached,
    /// Usage charging is not enabled for this subscription.
    UsageNotEnabled,
    /// The requested export limit exceeds the maximum allowed.
    InvalidExportLimit,
    /// Metadata key limit reached for this subscription.
    MetadataKeyLimitReached,
    /// Subscriber has reached the maximum allowed number of active subscriptions for this plan.
    MaxConcurrentSubscriptionsReached,
    /// Subscriber's configured credit limit would be exceeded.
    CreditLimitExceeded,
    /// Usage rate limit exceeded for the current window.
    RateLimitExceeded,
    /// Usage charge would exceed the per-period cap.
    UsageCapExceeded,
    /// Usage charge attempted too soon after previous charge (burst protection).
    BurstLimitExceeded,
    /// Coupon code does not exist.
    CouponNotFound,
    /// Coupon has passed its expiration timestamp.
    CouponExpired,
    /// Coupon has reached its maximum global redemption count.
    CouponRedemptionLimitReached,
    /// Coupon has been explicitly revoked by the merchant.
    CouponRevoked,
    /// A coupon with this code already exists.
    CouponAlreadyExists,
    /// This subscription already has a coupon bound to it.
    CouponAlreadyApplied,
    /// Coupon token does not match the subscription's settlement token.
    CouponTokenMismatch,

    // --- Merchant Config (7000-7099) ---
    /// Fee basis points exceed maximum allowed value.
    InvalidFeeBips,
    /// Invalid allowed operations bitmask.
    InvalidOperations,
    /// Charge operation must be allowed for merchant.
    MustAllowChargeOperation,

    // --- Token (8000-8099) ---
    /// Token decimals value is invalid (e.g. zero).
    InvalidTokenDecimals,
    /// Token address is not accepted by this contract.
    InvalidToken,

    // --- Subscription Update (9000-9099) ---
    /// Attempting to change usage_enabled on an existing subscription is not allowed.
    CannotChangeUsageMode,

    // --- Schema Migration (9100-9199) ---
    /// Stored schema version is newer than the binary's STORAGE_VERSION; downgrade rejected.
    SchemaMigrationDowngrade,

    // --- Dispute / Chargeback (10000-10099) ---
    /// The requested dispute was not found.
    DisputeNotFound,
    /// The dispute has already been resolved; no further actions allowed.
    DisputeAlreadyResolved,
    /// Cannot resolve an unresponded dispute before the dispute window elapses.
    DisputeNotResponded,
    /// The dispute window has elapsed. Auto-resolution conditions apply.
    DisputeWindowElapsed,
    /// A dispute is already open for this subscription; double-open rejected.
    DisputeAlreadyOpen,
    /// The dispute has already been responded to by the admin.
    DisputeAlreadyResponded,
}

/// The stable numeric code of each error, grouped by category
/// (1xxx auth, 2xxx not found, 3xxx invalid arguments, 4xxx state transitions,
/// 5xxx accounting, 6xxx limits, 7xxx merchant config, 8xxx tokens,
/// 9xxx updates and migrations, 10xxx disputes).
pub open spec fn error_code(e: Error) -> u32 {
    match e {
        Error::Unauthorized => 1001,
        Error::Forbidden => 1002,
        Error::SubscriberBlocklisted => 1003,
        Error::SelfRotation => 1004,
        Error::NonceAlreadyUsed => 1005,
        Error::NotFound => 2001,
        Error::NotInitialized => 2002,
        Error::InvalidAmount => 3001,
        Error::InvalidInput => 3002,
        Error::InvalidRecoveryAmount => 3003,
        Error::InvalidNewAdmin => 3004,
        Error::MetadataKeyTooLong => 3005,
        Error::MetadataValueTooLong => 3006,
        Error::OraclePriceInvalid => 3007,
        Error::InvalidStatusTransition => 4001,
        Error::NotActive => 4002,
        Error::SubscriptionExpired => 4003,
        Error::IntervalNotElapsed => 4004,
        Error::Replay => 4005,
        Error::RecoveryNotAllowed => 4006,
        Error::EmergencyStopActive => 4007,
        Error::AlreadyInitialized => 4008,
        Error::MerchantPaused => 4009,
        Error::Reentrancy => 4010,
        Error::InsufficientBalance => 5001,
        Error::InsufficientPrepaidBalance => 5002,
        Error::BelowMinimumTopup => 5003,
        Error::Underflow => 5004,
        Error::Overflow => 5005,
        Error::OracleNotConfigured => 5006,
        Error::OraclePriceUnavailable => 5007,
        Error::OraclePriceStale => 5008,
        Error::InvariantViolation => 5009,
        Error::SubscriptionLimitReached => 6001,
        Error::LifetimeCapReached => 6002,
        Error::UsageNotEnabled => 6003,
        Error::InvalidExportLimit => 6004,
        Error::MetadataKeyLimitReached => 6005,
        Error::MaxConcurrentSubscriptionsReached => 6006,
        Error::CreditLimitExceeded => 6007,
        Error::RateLimitExceeded => 6008,
        Error::UsageCapExceeded => 6009,
        Error::BurstLimitExceeded => 6010,
        Error::CouponNotFound => 6011,
        Error::CouponExpired => 6012,
        Error::CouponRedemptionLimitReached => 6013,
        Error::CouponRevoked => 6014,
        Error::CouponAlreadyExists => 6015,
        Error::CouponAlreadyApplied => 6016,
        Error::CouponTokenMismatch => 6017,
        Error::InvalidFeeBips => 7001,
        Error::InvalidOperations => 7002,
        Error::MustAllowChargeOperation => 7003,
        Error::InvalidTokenDecimals => 8001,
        Error::InvalidToken => 8002,
        Error::CannotChangeUsageMode => 9001,
        Error::SchemaMigrationDowngrade => 9101,
        Error::DisputeNotFound => 10001,
        Error::DisputeAlreadyResolved => 10002,
        Error::DisputeNotResponded => 10003,
        Error::DisputeWindowElapsed => 10004,
        Error::DisputeAlreadyOpen => 10005,
        Error::DisputeAlreadyResponded => 10006,
    }
}

impl Error {
    /// Returns the numeric code for this error (for batch result reporting).
    pub fn to_code(self) -> (code: u32)
        ensures
            code == error_code(self),
    {
        match self {
            Error::Unauthorized => 1001,
            Error::Forbidden => 1002,
            Error::SubscriberBlocklisted => 1003,
            Error::SelfRotation => 1004,
            Error::NonceAlreadyUsed => 1005,
            Error::NotFound => 2001,
            Error::NotInitialized => 2002,
            Error::InvalidAmount => 3001,
            Error::InvalidInput => 3002,
            Error::InvalidRecoveryAmount => 3003,
            Error::InvalidNewAdmin => 3004,
            Error::MetadataKeyTooLong => 3005,
            Error::MetadataValueTooLong => 3006,
            Error::OraclePriceInvalid => 3007,
            Error::InvalidStatusTransition => 4001,
            Error::NotActive => 4002,
            Error::SubscriptionExpired => 4003,
            Error::IntervalNotElapsed => 4004,
            Error::Replay => 4005,
            Error::RecoveryNotAllowed => 4006,
            Error::EmergencyStopActive => 4007,
            Error::AlreadyInitialized => 4008,
            Error::MerchantPaused => 4009,
            Error::Reentrancy => 4010,
            Error::InsufficientBalance => 5001,
            Error::InsufficientPrepaidBalance => 5002,
            Error::BelowMinimumTopup => 5003,
            Error::Underflow => 5004,
            Error::Overflow => 5005,
            Error::OracleNotConfigured => 5006,
            Error::OraclePriceUnavailable => 5007,
            Error::OraclePriceStale => 5008,
            Error::InvariantViolation => 5009,
            Error::SubscriptionLimitReached => 6001,
            Error::LifetimeCapReached => 6002,
            Error::UsageNotEnabled => 6003,
            Error::InvalidExportLimit => 6004,
            Error::MetadataKeyLimitReached => 6005,
            Error::MaxConcurrentSubscriptionsReached => 6006,
            Error::CreditLimitExceeded => 6007,
            Error::RateLimitExceeded => 6008,
            Error::UsageCapExceeded => 6009,
            Error::BurstLimitExceeded => 6010,
            Error::CouponNotFound => 6011,
            Error::CouponExpired => 6012,
            Error::CouponRedemptionLimitReached => 6013,
            Error::CouponRevoked => 6014,
            Error::CouponAlreadyExists => 6015,
            Error::CouponAlreadyApplied => 6016,
            Error::CouponTokenMismatch => 6017,
            Error::InvalidFeeBips => 7001,
            Error::InvalidOperations => 7002,
            Error::MustAllowChargeOperation => 7003,
            Error::InvalidTokenDecimals => 8001,
            Error::InvalidToken => 8002,
            Error::CannotChangeUsageMode => 9001,
            Error::SchemaMigrationDowngrade => 9101,
            Error::DisputeNotFound => 10001,
            Error::DisputeAlreadyResolved => 10002,
            Error::DisputeNotResponded => 10003,
            Error::DisputeWindowElapsed => 10004,
            Error::DisputeAlreadyOpen => 10005,
            Error::DisputeAlreadyResponded => 10006,
        }
    }
}

} // verus!
