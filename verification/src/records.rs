//! Plain records exchanged with the vault: billing, oracle, usage, governance and reconciliation data.

use vstd::prelude::*;
use crate::types::{Address, SubscriptionStatus};

verus! {

/// Result of charging one subscription in a batch.
#[derive(Clone, Copy, Debug)]
pub struct BatchChargeResult {
    /// True if the charge succeeded.
    pub success: bool,
    /// If success is false, the error code; otherwise 0.
    pub error_code: u32,
}

/// Result of a batch merchant withdrawal operation.
#[derive(Clone, Copy, Debug)]
pub struct BatchWithdrawResult {
    pub success: bool,
    pub error_code: u32,
}

/// Per-id outcome of a bulk pause/cancel operation.
///
/// One entry is returned for every id in the request, in request order, so an
/// operator can reconcile exactly what happened to each subscription without the
/// batch aborting on the first problem.
#[derive(Clone, Copy, Debug, PartialEq, Eq, Structural)]
pub struct BulkSubscriptionResult {
    /// The subscription id this outcome refers to.
    pub subscription_id: u32,
    /// `true` when the id ended in the desired state (either it was transitioned
    /// now, or it was already there — see `changed`). `false` on a hard error.
    pub success: bool,
    /// `true` when this call actually transitioned the subscription; `false` when
    /// it was skipped as a no-op because it was already paused/cancelled.
    pub changed: bool,
    /// `0` on success; otherwise the [`Error`] code explaining why this id failed
    /// (e.g. `NotFound`, `SubscriptionExpired`, `InvalidStatusTransition`).
    pub error_code: u32,
}

/// A read-only snapshot of the contract's configuration and current state.
#[derive(Clone, Copy, Debug)]
pub struct ContractSnapshot {
    pub admin: Address,
    pub token: Address,
    pub min_topup: i128,
    pub next_id: u32,
    pub storage_version: u32,
    pub timestamp: u64,
}

/// A summary of a subscription's current state, intended for migration or reporting.
#[derive(Clone, Copy, Debug)]
pub struct SubscriptionSummary {
    pub subscription_id: u32,
    pub subscriber: Address,
    pub merchant: Address,
    pub token: Address,
    pub amount: i128,
    pub interval_seconds: u64,
    pub last_payment_timestamp: u64,
    pub status: SubscriptionStatus,
    pub prepaid_balance: i128,
    pub usage_enabled: bool,
    pub lifetime_cap: Option<i128>,
    pub lifetime_charged: i128,
    pub start_time: u64,
    pub expires_at: Option<u64>,
}

/// Merchant balance entry returned in snapshot pages.
#[derive(Clone, Copy, Debug)]
pub struct MerchantBalanceEntry {
    pub merchant: Address,
    pub token: Address,
    pub amount: i128,
}

/// Full snapshot page containing subscriptions and merchant balances.
#[derive(Clone, Debug)]
pub struct FullSnapshotPage {
    pub subscriptions: Vec<SubscriptionSummary>,
    pub balances: Vec<MerchantBalanceEntry>,
    /// Next start id for paging across subscription ids. `None` when complete.
    pub next_start_id: Option<u32>,
}

/// Defines a reusable subscription plan template.
///
/// Plan templates allow merchants to define standard subscription offerings
/// with predefined parameters. Subscribers can create subscriptions from these
/// templates without manually specifying all parameters.
#[derive(Clone, Copy, Debug)]
pub struct PlanTemplate {
    /// Merchant who owns this plan template.
    pub merchant: Address,
    /// Settlement token used by subscriptions created from this plan.
    pub token: Address,
    /// Recurring charge amount per interval (token base units).
    pub amount: i128,
    /// Billing interval in seconds.
    pub interval_seconds: u64,
    /// Whether usage-based charging is enabled.
    pub usage_enabled: bool,
    /// Optional lifetime cap applied to subscriptions created from this template.
    ///
    /// When `Some(cap)`, subscriptions created via this template will inherit the cap.
    /// `None` means subscriptions created from this template have no lifetime cap.
    pub lifetime_cap: Option<i128>,
    /// Logical template group identifier.
    ///
    /// All versions of the same logical template share this value. The initial
    /// version of a template uses its own plan ID as the template key.
    pub template_key: u32,
    /// Monotonic version number within the template group (starts at 1).
    pub version: u32,
    /// Whether this plan has been disabled from accepting new subscriptions.
    pub is_disabled: bool,
}

/// Result of computing next charge information for a subscription.
#[derive(Clone, Debug)]
pub struct NextChargeInfo {
    /// Estimated timestamp for the next charge attempt.
    pub next_charge_timestamp: u64,
    /// Whether a charge is actually expected based on the subscription status.
    pub is_charge_expected: bool,
    /// Current status of the subscription.
    pub status: SubscriptionStatus,
    /// Stable reason for the current charge state (e.g. symbol_short!("active"), symbol_short!("paused")).
    pub reason: String,
    /// Next charge amount.
    pub amount: i128,
    /// Token address for the charge.
    pub token: Address,
    /// When the grace period expires (only set when `status == GracePeriod`).
    /// `None` when not in grace.
    pub grace_deadline: Option<u64>,
}

/// View of a subscription's lifetime cap status.
///
/// Returned by `get_cap_info` for off-chain dashboards and UX displays.
#[derive(Clone, Copy, Debug, PartialEq, Eq, Structural)]
pub struct CapInfo {
    /// The configured lifetime cap, or `None` if no cap is set.
    pub lifetime_cap: Option<i128>,
    /// Total amount charged over the subscription's lifetime so far.
    pub lifetime_charged: i128,
    /// Remaining chargeable amount before cap is hit (`cap - charged`).
    /// `None` when no cap is configured.
    pub remaining_cap: Option<i128>,
    /// True when the cap has been reached and no further charges are allowed.
    pub cap_reached: bool,
}

/// Canonical charge category used for billing statement history.
#[derive(Clone, Copy, Debug, PartialEq, Eq, Structural)]
pub enum BillingChargeKind {
    Interval,
    Usage,
    OneOff,
}

/// Immutable billing statement row for a subscription charge action.
#[derive(Clone, Copy, Debug, PartialEq, Eq, Structural)]
pub struct BillingStatement {
    pub subscription_id: u32,
    /// Monotonic per-subscription sequence number (starts at 0).
    pub sequence: u32,
    /// Timestamp the charge operation was processed.
    pub charged_at: u64,
    /// Charge period start, in ledger timestamp seconds.
    pub period_start: u64,
    /// Charge period end, in ledger timestamp seconds.
    pub period_end: u64,
    /// Debited amount in token base units.
    pub amount: i128,
    pub merchant: Address,
    pub kind: BillingChargeKind,
}

/// Paginated page of billing statements.
#[derive(Clone, Debug)]
pub struct BillingStatementsPage {
    pub statements: Vec<BillingStatement>,
    /// Cursor for the next page. `None` means no more rows.
    pub next_cursor: Option<u32>,
    /// Total statements recorded for the subscription.
    pub total: u32,
}

/// Retention policy for billing statements.
#[derive(Clone, Copy, Debug, PartialEq, Eq, Structural)]
pub struct BillingRetentionConfig {
    /// Number of most-recent detailed rows to keep per subscription.
    pub keep_recent: u32,
}

/// Per-charge category totals accumulated from compacted billing history.
#[derive(Clone, Copy, Debug, PartialEq, Eq, Structural)]
pub struct AccruedTotals {
    pub interval: i128,
    pub usage: i128,
    pub one_off: i128,
}

/// Aggregated compacted history for pruned rows.
#[derive(Clone, Copy, Debug, PartialEq, Eq, Structural)]
pub struct BillingStatementAggregate {
    pub pruned_count: u32,
    pub total_amount: i128,
    pub totals: AccruedTotals,
    pub oldest_period_start: Option<u64>,
    pub newest_period_end: Option<u64>,
}

/// Result of a compaction run.
#[derive(Clone, Copy, Debug, PartialEq, Eq, Structural)]
pub struct BillingCompactionSummary {
    pub subscription_id: u32,
    pub pruned_count: u32,
    pub kept_count: u32,
    pub total_pruned_amount: i128,
}

/// Immutable per-period summary written after each successful interval charge.
///
/// Keyed by `(subscription_id, period_index)` where `period_index = timestamp / interval_seconds`.
/// Once `SNAPSHOT_FLAG_CLOSED` is set, the record cannot be overwritten.
#[derive(Clone, Copy, Debug, PartialEq, Eq, Structural)]
pub struct BillingPeriodSnapshot {
    pub subscription_id: u32,
    pub period_index: u64,
    /// Ledger timestamp of the start of this billing period.
    pub period_start: u64,
    /// Ledger timestamp of the end of this billing period (charge time).
    pub period_end: u64,
    /// Total amount charged (interval + any usage) in token base units.
    pub total_charged: i128,
    /// Total usage units debited in this period.
    pub total_usage_units: i128,
    /// Bitmask of SNAPSHOT_FLAG_* constants.
    pub status_flags: u32,
    /// Ledger timestamp when the snapshot was finalized.
    pub finalized_at: u64,
}

/// Reason a period billing statement was finalized.
#[derive(Clone, Copy, Debug, PartialEq, Eq, Structural)]
pub enum BillingStatementFinalization {
    /// A recurring billing period closed normally after a successful charge.
    PeriodClosed,
    /// The subscription was cancelled; this covers the current partial period.
    Cancellation,
    /// Subscriber withdrew remaining prepaid balance; final net settlement recorded.
    FinalSettlement,
}

/// Lightweight index entry stored per-subscription and per-merchant.
///
/// Avoids scanning all contract state for pagination queries.
#[derive(Clone, Copy, Debug, PartialEq, Eq, Structural)]
pub struct BillingStatementRef {
    pub subscription_id: u32,
    pub period_index: u32,
    /// `period_end_timestamp` is stored here so time-range filters can run on
    /// the index alone without loading each full statement.
    pub period_end_timestamp: u64,
}

/// Grouped financial amounts for a single billing period.
///
/// Passed as a single parameter to `SubscriptionVault::finalize_billing_statement` so
/// the function stays within Soroban's 10-parameter limit.
#[derive(Clone, Copy, Debug, PartialEq, Eq, Structural)]
pub struct PeriodStatementAmounts {
    /// Sum of all charges (interval + usage + one-off) debited this period.
    pub total_amount_charged: i128,
    /// Total metered usage units billed (0 for non-usage subscriptions).
    pub total_usage_units: i128,
    /// Protocol fee withheld from the charge (0 if disabled).
    pub protocol_fee_amount: i128,
    /// Net amount credited to the merchant after fees.
    pub net_amount_to_merchant: i128,
    /// Total refunded to the subscriber this period.
    pub refund_amount: i128,
}

/// Compact per-period billing record written at period close, cancellation, or final settlement.
///
/// Indexed by `(subscription_id, period_index)`. Immutable once written; a
/// subsequent upsert with the same key replaces the record and updates indices.
#[derive(Clone, Copy, Debug)]
pub struct PeriodBillingStatement {
    pub subscription_id: u32,
    /// Monotonic period counter for this subscription (0-indexed from creation).
    pub period_index: u32,
    /// Period index of the associated billing snapshot, if any.
    pub snapshot_period_index: u32,
    pub merchant: Address,
    pub subscriber: Address,
    pub token: Address,
    pub period_start_timestamp: u64,
    pub period_end_timestamp: u64,
    /// Sum of all charges (interval + usage + one-off) debited this period.
    pub total_amount_charged: i128,
    /// Total metered usage units billed this period (0 for non-usage subscriptions).
    pub total_usage_units: i128,
    /// Protocol fee withheld from the charge (0 if fee routing is disabled).
    pub protocol_fee_amount: i128,
    /// Net amount credited to the merchant after fees.
    pub net_amount_to_merchant: i128,
    /// Total amount refunded to the subscriber in this period.
    pub refund_amount: i128,
    /// Bit flags encoding per-period status. See `docs/billing_statements.md`.
    pub status_flags: u32,
    pub subscription_status: SubscriptionStatus,
    pub finalized_by: BillingStatementFinalization,
    pub finalized_at: u64,
}

/// Pricing strategy used to resolve a cross-currency charge amount.
#[derive(Clone, Copy, Debug, PartialEq, Eq, Structural)]
pub enum OracleKind {
    /// The latest price the oracle publishes.
    Spot,
    /// A time-weighted average over a sliding window of `window_secs`.
    Twap,
    /// A fixed ratio `fixed_numerator / fixed_denominator`.
    FixedRate,
}

/// Optional oracle pricing configuration for cross-currency plans.
#[derive(Clone, Copy, Debug, PartialEq, Eq, Structural)]
pub struct OracleConfig {
    pub enabled: bool,
    pub oracle: Option<Address>,
    /// Maximum acceptable price age in seconds.
    pub max_age_seconds: u64,
    /// Which pricing strategy to use when resolving charge amounts.
    pub kind: OracleKind,
    /// TWAP: length of the sliding observation window in seconds.
    /// Ignored when `kind != Twap`.
    pub window_secs: u64,
    /// FixedRate: numerator of the fixed price ratio (scaled to 10^7).
    /// Ignored when `kind != FixedRate`.
    pub fixed_numerator: u128,
    /// FixedRate: denominator of the fixed price ratio. Must be non-zero.
    /// Ignored when `kind != FixedRate`.
    pub fixed_denominator: u128,
}

/// Price payload returned by oracle contract view methods.
#[derive(Clone, Copy, Debug, PartialEq, Eq, Structural)]
pub struct OraclePrice {
    /// Quote units per 1 token.
    pub price: i128,
    /// Timestamp when quote was published by oracle.
    pub timestamp: u64,
}

/// Token registry entry.
#[derive(Clone, Copy, Debug, PartialEq, Eq, Structural)]
pub struct AcceptedToken {
    pub token: Address,
    pub decimals: u32,
}

/// Represents the reason for stranded funds that can be recovered by admin.
#[derive(Clone, Copy, Debug, PartialEq, Eq, Structural)]
pub enum RecoveryReason {
    /// Overpayment by user, e.g. sending tokens directly to the contract.
    UserOverpayment,
    /// Transfer failed or stalled in an unexpected state.
    FailedTransfer,
    /// Escrow expired or subscription cancelled with unreachable user.
    ExpiredEscrow,
    /// System or logic correction.
    SystemCorrection,
    /// Accidental transfer of funds to the contract.
    AccidentalTransfer,
}

/// Per-merchant automated payout schedule configuration.
#[derive(Clone, Copy, Debug, PartialEq, Eq, Structural)]
pub struct PayoutSchedule {
    /// Minimum interval in seconds between automatic payout flushes.
    pub cadence_seconds: u64,
    /// Minimum accrued balance required per token to trigger a payout.
    pub min_payout: i128,
    /// Timestamp of the last payout flush (0 if never flushed).
    pub last_payout_at: u64,
}

/// Off-chain signed metadata update payload.
///
/// Used by `metadata::do_set_metadata_signed` to apply a single
/// (key, value) update to a subscription without an on-chain `require_auth()`
/// round-trip. The authoritative auth check is the ed25519 signature over
/// the canonical encoding of these fields (see
/// `metadata::build_metadata_signed_message`).
///
/// # Fields
///
/// * `subscription_id` — Target subscription. Must exist on-chain.
/// * `key` — Metadata key (≤ 32 bytes).
/// * `value` — Metadata value (≤ 256 bytes).
/// * `nonce` — Next-expected nonce value for
///   `(signer, nonce::DOMAIN_METADATA_SIGNED)`. Drives replay
///   protection through `nonce::check_and_advance`.
/// * `expires_at` — Ledger timestamp (seconds) past which the payload is
///   considered stale. Strict: `now < expires_at` is required for
///   acceptance.
#[derive(Clone, Debug)]
pub struct SignedMetadataPayload {
    pub subscription_id: u32,
    pub key: String,
    pub value: String,
    pub nonce: u64,
    pub expires_at: u64,
}

#[derive(Clone, Copy, Debug, PartialEq, Eq, Structural)]
pub enum UsageChargeResult {
    Charged,
    InsufficientBalance,
    LifetimeCapReached,
    Replay,
    BurstLimitExceeded,
    RateLimitExceeded,
    UsageCapExceeded,
}

#[derive(Clone, Copy, Debug, PartialEq, Eq, Structural)]
pub enum ChargeExecutionResult {
    Charged,
    InsufficientBalance,
    LifetimeCapReached,
    ScheduledCancellation,
}

#[derive(Clone, Copy, Debug, PartialEq, Eq, Structural)]
pub struct UsageLimits {
    pub rate_limit_max_calls: Option<u32>,
    pub rate_window_secs: u64,
    pub burst_min_interval_secs: u64,
    pub usage_cap_units: Option<i128>,
}

#[derive(Clone, Copy, Debug, PartialEq, Eq, Structural)]
pub struct UsageState {
    pub last_usage_timestamp: u64,
    pub window_start_timestamp: u64,
    pub window_call_count: u32,
    pub current_period_usage_units: i128,
    pub period_index: u64,
}

/// Extended merchant configuration with payout settings and operational flags.
#[derive(Clone, Debug)]
pub struct MerchantConfig {
    /// Version for forward-compatible config upgrades.
    pub version: i32,
    /// Address where merchant receives payouts.
    pub payout_address: Address,
    /// Fee percentage in bips (0-10000, where 10000 = 100%).
    pub fee_bips: i32,
    /// Bitmap of allowed operations (see OP_* constants).
    pub allowed_operations: i32,
    /// Whether the merchant can receive charges and payouts.
    pub is_active: bool,
    /// Address for fee routing (optional).
    pub fee_address: Option<Address>,
    /// Redirect URL for off-chain callbacks.
    pub redirect_url: String,
    /// Global pause for all merchant plans (legacy, prefer is_active).
    pub is_paused: bool,
    /// Timestamp of last config update.
    pub last_updated: u64,
}

/// Proposal kind enumeration for governance.
#[derive(Clone, Copy, Debug, PartialEq, Eq, Structural)]
pub enum ProposalKind {
    /// Rotate the admin address.
    RotateAdmin,
    /// Set protocol fee and treasury.
    SetProtocolFee,
    /// Upgrade contract (reserved for future use).
    UpgradeContract,
}

/// Governance proposal structure.
#[derive(Clone, Debug)]
pub struct Proposal {
    /// Unique proposal ID (monotonically assigned).
    pub id: u64,
    /// Type of proposal (RotateAdmin, SetProtocolFee, etc.).
    pub kind: ProposalKind,
    /// Primary target address (new admin for RotateAdmin, treasury for SetProtocolFee).
    pub target: Address,
    /// Secondary target address (optional, for future proposal types).
    pub target2: Option<Address>,
    /// Tertiary parameter (e.g., fee_bps for SetProtocolFee).
    pub target3: u32,
    /// Quorum requirement in basis points (0-10000).
    pub quorum_bps: u32,
    /// Guardian votes (maps guardian address to vote: true=yes).
    pub votes: Vec<(Address, bool)>,
    /// Time after which proposal can be executed (ledger seconds).
    pub eta: u64,
    /// Timestamp when proposal was submitted.
    pub submitted_at: u64,
    /// Whether the proposal has been executed.
    pub executed: bool,
}

#[derive(Clone, Copy, Debug, PartialEq, Eq, Structural)]
pub struct TokenEarnings {
    pub accruals: AccruedTotals,
    pub withdrawals: i128,
    pub refunds: i128,
}

#[derive(Clone, Copy, Debug, PartialEq, Eq, Structural)]
pub struct TokenReconciliationSnapshot {
    pub token: Address,
    pub total_accruals: i128,
    pub total_withdrawals: i128,
    pub total_refunds: i128,
    pub computed_balance: i128,
    pub stored_balance: i128,
    pub matches: bool,
}

/// Summary of all liabilities for a single settlement token.
///
/// Used by auditors to validate the accounting equation:
/// `contract_token_balance = total_prepaid + total_merchant_liabilities + recoverable`
#[derive(Clone, Copy, Debug, PartialEq, Eq, Structural)]
pub struct TokenLiabilities {
    /// Token contract address.
    pub token: Address,
    /// Sum of all subscriber prepaid balances in subscriptions using this token.
    pub total_prepaid: i128,
    /// Sum of all merchant earnings (accruals - withdrawals - refunds) for this token.
    pub total_merchant_liabilities: i128,
    /// Amount that can be recovered (stranded funds).
    pub recoverable_amount: i128,
    /// Contract's actual token balance at query time.
    pub contract_balance: i128,
    /// Computed total: prepaid + merchant liabilities + recoverable.
    pub computed_total: i128,
    /// Whether the accounting equation balances (contract_balance == computed_total).
    pub is_balanced: bool,
    pub normalized_prepaid: i128,
    pub normalized_merchant_liab: i128,
    pub normalized_recoverable: i128,
    pub normalized_contract_balance: i128,
    pub normalized_computed_total: i128,
}

/// Paginated result for reconciliation queries across all tokens.
#[derive(Clone, Debug)]
pub struct ReconciliationSummaryPage {
    /// Per-token liability summaries.
    pub token_summaries: Vec<TokenLiabilities>,
    /// Cursor for next page if more tokens exist. `None` when complete.
    pub next_token_index: Option<u32>,
}

/// Proof structure for auditors to validate accounting off-chain.
///
/// Contains all data needed to independently verify the accounting equation
/// without requiring full contract state access.
#[derive(Clone, Copy, Debug, PartialEq, Eq, Structural)]
pub struct ReconciliationProof {
    /// Timestamp when the proof was generated.
    pub timestamp: u64,
    /// Ledger sequence at proof generation.
    pub ledger_sequence: u32,
    /// Token being audited.
    pub token: Address,
    /// Contract's token balance at query time.
    pub contract_balance: i128,
    /// Total prepaid balances across all subscriptions for this token.
    pub total_prepaid: i128,
    /// Total merchant earnings liabilities for this token.
    pub total_merchant_liabilities: i128,
    /// Computed recoverable amount (contract_balance - prepaid - merchant_liabilities).
    pub computed_recoverable: i128,
    /// Number of subscriptions scanned for the prepaid total.
    pub subscription_count: u32,
    /// Number of merchants scanned for the earnings total.
    pub merchant_count: u32,
    /// Whether the accounting equation validates.
    pub is_valid: bool,
}

/// Request for paginated prepaid balance aggregation.
#[derive(Clone, Copy, Debug, PartialEq, Eq, Structural)]
pub struct PrepaidQueryRequest {
    /// Token to filter by (required).
    pub token: Address,
    /// Starting subscription ID for pagination (inclusive).
    pub start_subscription_id: u32,
    /// Maximum number of subscriptions to scan in this call.
    pub scan_limit: u32,
}

/// Result of a paginated prepaid balance query.
#[derive(Clone, Copy, Debug, PartialEq, Eq, Structural)]
pub struct PrepaidQueryResult {
    /// Token that was queried.
    pub token: Address,
    /// Sum of prepaid balances found in this scan window.
    pub partial_total: i128,
    /// Number of subscriptions with non-zero prepaid balances found.
    pub subscriptions_count: u32,
    /// Next subscription ID to scan, or `None` if complete.
    pub next_start_id: Option<u32>,
    /// Whether more subscriptions may exist beyond this scan window.
    pub has_more: bool,
}

/// Ring buffer of recently-seen idempotency key hashes for one subscription.
///
/// `DataKey::IdemKey(subscription_id)` stores this structure so that the same
/// caller-supplied key is recognised within `IDEM_HISTORY` consecutive charges
/// and rejected with `Error::Replay`.
///
/// # Eviction
/// When the buffer is full the next push overwrites the oldest entry (cursor
/// wraps around). The caller must therefore ensure their retry window does not
/// exceed `IDEM_HISTORY` operations for a single subscription.
#[derive(Clone, Debug)]
pub struct IdemRingBuffer {
    pub entries: Vec<[u8; 32]>,
    pub cursor: u32,
}

} // verus!
