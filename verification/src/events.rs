//! Event payloads published by the vault.

use vstd::prelude::*;
use crate::types::{Address, DisputeStatus, SubscriptionStatus};
use crate::records::{BillingStatementFinalization, OracleKind, ProposalKind, RecoveryReason, UsageChargeResult};

verus! {

/// Event emitted when a dispute is opened.
#[derive(Clone, Copy, Debug)]
pub struct DisputeOpenedEvent {
    pub dispute_id: u64,
    pub subscription_id: u32,
    pub subscriber: Address,
    pub merchant: Address,
    pub amount: i128,
    pub evidence_hash: Option<[u8; 32]>,
    pub timestamp: u64,
    /// Event schema version for backwards-compatible indexer decoding.
    pub schema_version: u32,
}

/// Event emitted when an admin responds to a dispute.
#[derive(Clone, Copy, Debug)]
pub struct DisputeRespondedEvent {
    pub dispute_id: u64,
    pub subscription_id: u32,
    pub admin_evidence_hash: Option<[u8; 32]>,
    pub timestamp: u64,
    /// Event schema version for backwards-compatible indexer decoding.
    pub schema_version: u32,
}

/// Event emitted when a dispute is resolved.
#[derive(Clone, Copy, Debug)]
pub struct DisputeResolvedEvent {
    pub dispute_id: u64,
    pub subscription_id: u32,
    /// Final status of the dispute after resolution.
    pub resolution: DisputeStatus,
    pub timestamp: u64,
    /// Event schema version for backwards-compatible indexer decoding.
    pub schema_version: u32,
}

/// Event emitted when an admin nonce is consumed by a privileged operation.
///
/// Allows off-chain indexers to track the nonce sequence for each signer/domain
/// pair and detect anomalies such as gaps or unexpected resets.
#[derive(Clone, Copy, Debug)]
pub struct NonceConsumedEvent {
    /// The admin address that consumed the nonce.
    pub signer: Address,
    /// Domain tag identifying the operation class (see `nonce::DOMAIN_*` constants).
    pub domain: u32,
    /// The nonce value that was consumed.
    pub nonce: u64,
    /// Ledger timestamp when the nonce was consumed.
    pub timestamp: u64,
    /// Event schema version for backwards-compatible indexer decoding.
    pub schema_version: u32,
}

/// Single envelope event emitted once per successful `bulk_pause_subscriptions`
/// batch, summarising the per-id outcomes for off-chain indexers.
#[derive(Clone, Copy, Debug)]
pub struct BulkPauseEvent {
    /// Admin or operator address that authorized the batch.
    pub caller: Address,
    /// Number of ids submitted in the request.
    pub requested: u32,
    /// Number of subscriptions actually transitioned Active -> Paused.
    pub paused: u32,
    /// Number of ids skipped as already-paused no-ops.
    pub skipped: u32,
    /// Number of ids that failed (not found, expired, invalid transition, ...).
    pub failed: u32,
    /// The per-batch nonce consumed for replay protection.
    pub nonce: u64,
    /// Ledger timestamp when the batch was processed.
    pub timestamp: u64,
    /// Event schema version for backwards-compatible indexer decoding.
    pub schema_version: u32,
}

/// Single envelope event emitted once per successful `bulk_cancel_subscriptions`
/// batch, summarising the per-id outcomes for off-chain indexers.
#[derive(Clone, Copy, Debug)]
pub struct BulkCancelEvent {
    /// Admin or operator address that authorized the batch.
    pub caller: Address,
    /// Number of ids submitted in the request.
    pub requested: u32,
    /// Number of subscriptions actually transitioned to Cancelled.
    pub cancelled: u32,
    /// Number of ids skipped as already-cancelled no-ops.
    pub skipped: u32,
    /// Number of ids that failed (not found, expired, invalid transition, ...).
    pub failed: u32,
    /// The per-batch nonce consumed for replay protection.
    pub nonce: u64,
    /// Ledger timestamp when the batch was processed.
    pub timestamp: u64,
    /// Event schema version for backwards-compatible indexer decoding.
    pub schema_version: u32,
}

/// Event emitted when a snapshot page is exported by admin.
#[derive(Clone, Copy, Debug)]
pub struct SnapshotExportedEvent {
    pub admin: Address,
    pub start_id: u32,
    pub exported: u32,
    pub timestamp: u64,
}

/// Event emitted when a snapshot page is restored by admin.
#[derive(Clone, Copy, Debug)]
pub struct SnapshotRestoredEvent {
    pub admin: Address,
    pub start_id: u32,
    pub restored: u32,
    pub timestamp: u64,
}

/// Event emitted when subscriptions are exported for migration.
#[derive(Clone, Copy, Debug)]
pub struct MigrationExportEvent {
    pub admin: Address,
    pub start_id: u32,
    pub limit: u32,
    pub exported: u32,
    pub timestamp: u64,
    /// Event schema version for backwards-compatible indexer decoding.
    pub schema_version: u32,
}

/// Event emitted when the contract schema is upgraded on-chain.
///
/// Emitted by `SubscriptionVault::migrate` after `DataKey::SchemaVersion`
/// has been updated. Off-chain indexers use this to detect and audit upgrades.
#[derive(Clone, Copy, Debug)]
pub struct SchemaMigratedEvent {
    /// Admin address that authorised the migration.
    pub admin: Address,
    /// Schema version stored on-chain before this migration.
    pub from_version: u32,
    /// Schema version written to storage by this migration (equals `STORAGE_VERSION`).
    pub to_version: u32,
    /// Ledger timestamp when the migration was executed.
    pub timestamp: u64,
    /// Event schema version for backwards-compatible indexer decoding.
    pub schema_version: u32,
}

/// Event emitted when statement compaction executes.
///
/// `aggregate_*` fields mirror [`BillingStatementAggregate`] after this run so indexers can
/// verify on-chain totals without a follow-up `get_stmt_compacted_aggregate` call (optional).
#[derive(Clone, Copy, Debug)]
pub struct BillingCompactedEvent {
    pub admin: Address,
    pub subscription_id: u32,
    pub pruned_count: u32,
    pub kept_count: u32,
    pub total_pruned_amount: i128,
    pub timestamp: u64,
    pub aggregate_pruned_count: u32,
    pub aggregate_total_amount: i128,
    pub aggregate_oldest_period_start: Option<u64>,
    pub aggregate_newest_period_end: Option<u64>,
    /// Event schema version for backwards-compatible indexer decoding.
    pub schema_version: u32,
}

/// Event emitted when a period billing statement is written or overwritten.
#[derive(Clone, Copy, Debug)]
pub struct BillingStatementPersistedEvent {
    pub subscription_id: u32,
    pub period_index: u32,
    pub merchant: Address,
    pub finalized_by: BillingStatementFinalization,
    /// Event schema version for backwards-compatible indexer decoding.
    pub schema_version: u32,
}

/// Event emitted when a merchant creates a new coupon.
#[derive(Clone, Debug)]
pub struct CouponCreatedEvent {
    pub merchant: Address,
    pub code: String,
    pub token: Address,
    pub percent_off_bps: u32,
    pub fixed_off: i128,
    pub max_redemptions: u32,
    pub expires_at: u64,
    pub timestamp: u64,
    /// Event schema version for backwards-compatible indexer decoding.
    pub schema_version: u32,
}

/// Event emitted when a merchant revokes a coupon.
#[derive(Clone, Debug)]
pub struct CouponRevokedEvent {
    pub merchant: Address,
    pub code: String,
    pub timestamp: u64,
    /// Event schema version for backwards-compatible indexer decoding.
    pub schema_version: u32,
}

/// Event emitted when a subscriber binds a coupon to a subscription.
#[derive(Clone, Debug)]
pub struct CouponAppliedEvent {
    pub subscription_id: u32,
    pub subscriber: Address,
    pub code: String,
    pub timestamp: u64,
    /// Event schema version for backwards-compatible indexer decoding.
    pub schema_version: u32,
}

/// Event emitted when a coupon discount is applied during a charge.
#[derive(Clone, Debug)]
pub struct DiscountAppliedEvent {
    pub subscription_id: u32,
    /// Original gross charge amount before discount.
    pub gross_amount: i128,
    /// Amount deducted as discount.
    pub discount_amount: i128,
    /// Payable amount after discount (fed into fee split and merchant credit).
    pub discounted_amount: i128,
    pub coupon_code: String,
    pub timestamp: u64,
    /// Event schema version for backwards-compatible indexer decoding.
    pub schema_version: u32,
}

/// Event emitted when oracle configuration is updated by an admin.
#[derive(Clone, Copy, Debug, PartialEq, Eq, Structural)]
pub struct OracleConfigUpdatedEvent {
    pub enabled: bool,
    pub oracle: Option<Address>,
    pub max_age_seconds: u64,
    pub kind: OracleKind,
    pub window_secs: u64,
    pub fixed_numerator: u128,
    pub fixed_denominator: u128,
    pub timestamp: u64,
    /// Event schema version for backwards-compatible indexer decoding.
    pub schema_version: u32,
}

/// Event emitted when a cross-currency charge resolves its amount via oracle.
#[derive(Clone, Copy, Debug)]
pub struct OracleChargeResolvedEvent {
    pub subscription_id: u32,
    pub quote_amount: i128,
    pub token_amount: i128,
    pub price: i128,
    pub price_timestamp: u64,
    pub timestamp: u64,
    /// Event schema version for backwards-compatible indexer decoding.
    pub schema_version: u32,
}

/// Event emitted when oracle liveness is checked via `emit_oracle_liveness`.
///
/// Provides monitoring systems with the latest oracle sample timestamp and
/// a computed health status based on the configured maximum age threshold.
#[derive(Clone, Copy, Debug)]
pub struct OracleLivenessEvent {
    /// Timestamp of the latest oracle price sample.
    pub last_sample_ts: u64,
    /// Age of the sample in seconds (current_time - last_sample_ts).
    pub age: u64,
    /// `true` if `age <= max_age_seconds / 2`, indicating healthy oracle.
    /// `false` if the sample is approaching or exceeding the staleness threshold.
    pub healthy: bool,
    /// Ledger timestamp when this liveness check was performed.
    pub timestamp: u64,
}

/// Event emitted when emergency stop is enabled.
#[derive(Clone, Copy, Debug)]
pub struct EmergencyStopEnabledEvent {
    pub admin: Address,
    pub timestamp: u64,
    /// Event schema version for backwards-compatible indexer decoding.
    pub schema_version: u32,
}

/// Event emitted when admin is rotated to a new address.
#[derive(Clone, Copy, Debug)]
pub struct AdminRotatedEvent {
    pub old_admin: Address,
    pub new_admin: Address,
    pub timestamp: u64,
    /// Event schema version for backwards-compatible indexer decoding.
    pub schema_version: u32,
}

/// Event emitted when emergency stop is disabled.
#[derive(Clone, Copy, Debug)]
pub struct EmergencyStopDisabledEvent {
    pub admin: Address,
    pub timestamp: u64,
    /// Event schema version for backwards-compatible indexer decoding.
    pub schema_version: u32,
}

/// Event emitted when an admin assigns an operator address.
#[derive(Clone, Copy, Debug)]
pub struct OperatorSetEvent {
    pub admin: Address,
    pub operator: Address,
    pub timestamp: u64,
    /// Event schema version for backwards-compatible indexer decoding.
    pub schema_version: u32,
}

/// Event emitted when an admin removes the operator address.
#[derive(Clone, Copy, Debug)]
pub struct OperatorRemovedEvent {
    pub admin: Address,
    pub timestamp: u64,
    /// Event schema version for backwards-compatible indexer decoding.
    pub schema_version: u32,
}

/// Event emitted when admin recovers stranded funds.
#[derive(Clone, Copy, Debug)]
pub struct RecoveryEvent {
    pub admin: Address,
    pub recipient: Address,
    pub token: Address,
    pub amount: i128,
    pub reason: RecoveryReason,
    pub timestamp: u64,
    /// Event schema version for backwards-compatible indexer decoding.
    pub schema_version: u32,
}

/// Event emitted when a soulbound credential is issued.
#[derive(Clone, Copy, Debug)]
pub struct CredentialIssuedEvent {
    pub subscription_id: u32,
    pub tier: u32,
    pub issued_at: u64,
}

/// Event emitted when a soulbound credential is revoked.
#[derive(Clone, Copy, Debug)]
pub struct CredentialRevokedEvent {
    pub subscription_id: u32,
    pub timestamp: u64,
}

/// Event emitted when a subscription is created.
#[derive(Clone, Copy, Debug)]
pub struct SubscriptionCreatedEvent {
    pub subscription_id: u32,
    pub subscriber: Address,
    pub merchant: Address,
    pub token: Address,
    pub amount: i128,
    pub interval_seconds: u64,
    pub lifetime_cap: Option<i128>,
    pub expires_at: Option<u64>,
    pub timestamp: u64,
    /// Event schema version for backwards-compatible indexer decoding.
    pub schema_version: u32,
}

/// Event emitted when funds are deposited into a subscription vault.
#[derive(Clone, Copy, Debug)]
pub struct FundsDepositedEvent {
    pub subscription_id: u32,
    pub subscriber: Address,
    /// Settlement token deposited.
    pub token: Address,
    pub amount: i128,
    /// Total prepaid balance after this deposit.
    pub new_balance: i128,
    pub timestamp: u64,
    /// Event schema version for backwards-compatible indexer decoding.
    pub schema_version: u32,
}

/// Event emitted when a subscription interval charge succeeds.
#[derive(Clone, Copy, Debug)]
pub struct SubscriptionChargedEvent {
    pub subscription_id: u32,
    pub subscriber: Address,
    pub merchant: Address,
    /// Settlement token charged.
    pub token: Address,
    /// Amount charged in this interval (gross amount before fees).
    pub amount: i128,
    /// Cumulative total charged over subscription lifetime.
    pub lifetime_charged: i128,
    pub timestamp: u64,
    pub period_start: u64,
    pub period_end: u64,
    /// Event schema version for backwards-compatible indexer decoding.
    pub schema_version: u32,
}

/// Event emitted when an interval charge attempt cannot be completed due to
/// insufficient prepaid balance.
#[derive(Clone, Copy, Debug)]
pub struct SubscriptionChargeFailedEvent {
    pub subscription_id: u32,
    pub merchant: Address,
    pub required_amount: i128,
    pub available_balance: i128,
    pub shortfall: i128,
    pub resulting_status: SubscriptionStatus,
    pub timestamp: u64,
    /// Event schema version for backwards-compatible indexer decoding.
    pub schema_version: u32,
}

/// Event emitted after a deposit when a previously underfunded subscription is
/// ready to be resumed.
#[derive(Clone, Copy, Debug)]
pub struct SubscriptionRecoveryReadyEvent {
    pub subscription_id: u32,
    pub subscriber: Address,
    pub prepaid_balance: i128,
    pub required_amount: i128,
    pub timestamp: u64,
    /// Event schema version for backwards-compatible indexer decoding.
    pub schema_version: u32,
}

/// Event emitted when a charge fails due to an error.
#[derive(Clone, Copy, Debug)]
pub struct ChargeFailureEvent {
    pub subscription_id: u32,
    /// Numeric error code from the Error enum.
    pub error_code: u32,
    /// Amount that was attempted to be charged.
    pub attempted_amount: i128,
    /// Ledger timestamp when the failure occurred.
    pub ledger: u64,
}

/// Event emitted when a subscription is cancelled.
#[derive(Clone, Copy, Debug)]
pub struct SubscriptionCancelledEvent {
    pub subscription_id: u32,
    pub subscriber: Address,
    pub merchant: Address,
    pub token: Address,
    pub authorizer: Address,
    /// Remaining prepaid balance available for subscriber withdrawal.
    pub refund_amount: i128,
    pub timestamp: u64,
    /// Event schema version for backwards-compatible indexer decoding.
    pub schema_version: u32,
}

/// Event emitted when a future cancellation is scheduled.
#[derive(Clone, Copy, Debug)]
pub struct SubscriptionCancelScheduledEvent {
    pub subscription_id: u32,
    pub cancel_at: u64,
    pub scheduled_by: Address,
    pub timestamp: u64,
}

/// Event emitted when a scheduled cancellation is cleared.
#[derive(Clone, Copy, Debug)]
pub struct SubscriptionCancelUnscheduledEvent {
    pub subscription_id: u32,
    pub unscheduled_by: Address,
    pub timestamp: u64,
}

/// Event emitted when a subscription is paused.
#[derive(Clone, Copy, Debug)]
pub struct SubscriptionPausedEvent {
    pub subscription_id: u32,
    pub subscriber: Address,
    pub merchant: Address,
    pub authorizer: Address,
    pub timestamp: u64,
    /// Event schema version for backwards-compatible indexer decoding.
    pub schema_version: u32,
}

/// Event emitted when a subscription enters grace period.
#[derive(Clone, Copy, Debug, PartialEq, Eq, Structural)]
pub struct GracePeriodEnteredEvent {
    pub subscription_id: u32,
    pub previous_status: SubscriptionStatus,
    pub grace_expires_at: u64,
    pub timestamp: u64,
    /// Event schema version for backwards-compatible indexer decoding.
    pub schema_version: u32,
}

/// Event emitted when a subscription is resumed.
#[derive(Clone, Copy, Debug)]
pub struct SubscriptionResumedEvent {
    pub subscription_id: u32,
    pub subscriber: Address,
    pub merchant: Address,
    pub authorizer: Address,
    pub previous_status: SubscriptionStatus,
    pub timestamp: u64,
    /// Event schema version for backwards-compatible indexer decoding.
    pub schema_version: u32,
}

/// Event emitted when a subscription is automatically expired.
#[derive(Clone, Copy, Debug)]
pub struct SubscriptionExpiredEvent {
    pub subscription_id: u32,
    pub timestamp: u64,
    /// Event schema version for backwards-compatible indexer decoding.
    pub schema_version: u32,
}

/// Event emitted when a subscription is archived.
#[derive(Clone, Copy, Debug)]
pub struct SubscriptionArchivedEvent {
    pub subscription_id: u32,
    pub timestamp: u64,
    /// Event schema version for backwards-compatible indexer decoding.
    pub schema_version: u32,
}

/// Event emitted when a scheduled payout flush processes payouts for a merchant.
#[derive(Clone, Copy, Debug)]
pub struct ScheduledPayoutEvent {
    /// Merchant that received the payout.
    pub merchant: Address,
    /// Address that triggered the flush (anyone can call flush_payouts).
    pub caller: Address,
    /// Number of tokens for which a payout was actually executed.
    pub tokens_paid: u32,
    /// Ledger timestamp when the flush was processed.
    pub timestamp: u64,
    /// Event schema version for backwards-compatible indexer decoding.
    pub schema_version: u32,
}

/// Event emitted when a merchant withdraws funds.
#[derive(Clone, Copy, Debug)]
pub struct MerchantWithdrawalEvent {
    pub merchant: Address,
    pub token: Address,
    pub amount: i128,
    /// Merchant's accumulated balance remaining after withdrawal.
    pub remaining_balance: i128,
    pub timestamp: u64,
    /// Event schema version for backwards-compatible indexer decoding.
    pub schema_version: u32,
}

/// Event emitted when a subscriber withdraws funds after cancellation.
#[derive(Clone, Copy, Debug)]
pub struct SubscriberWithdrawalEvent {
    pub subscription_id: u32,
    pub subscriber: Address,
    pub token: Address,
    pub amount: i128,
    pub timestamp: u64,
    /// Event schema version for backwards-compatible indexer decoding.
    pub schema_version: u32,
}

/// Event emitted when a merchant-initiated one-off charge is applied.
#[derive(Clone, Copy, Debug)]
pub struct OneOffChargedEvent {
    pub subscription_id: u32,
    pub subscriber: Address,
    pub merchant: Address,
    pub token: Address,
    pub amount: i128,
    /// Prepaid balance remaining after this charge.
    pub remaining_balance: i128,
    pub timestamp: u64,
    /// Event schema version for backwards-compatible indexer decoding.
    pub schema_version: u32,
}

/// Event emitted when the lifetime charge cap is reached.
///
/// Signals that the subscription has been cancelled because it has been charged
/// up to its configured maximum total amount.
#[derive(Clone, Copy, Debug)]
pub struct LifetimeCapReachedEvent {
    pub subscription_id: u32,
    /// The configured lifetime cap that was reached.
    pub lifetime_cap: i128,
    /// Total charged at the point the cap was reached.
    pub lifetime_charged: i128,
    /// Timestamp when the cap was reached.
    pub timestamp: u64,
    /// Event schema version for backwards-compatible indexer decoding.
    pub schema_version: u32,
}

/// Event emitted when metadata is set or updated on a subscription.
#[derive(Clone, Debug)]
pub struct MetadataSetEvent {
    pub subscription_id: u32,
    pub key: String,
    pub authorizer: Address,
    /// Event schema version for backwards-compatible indexer decoding.
    pub schema_version: u32,
}

/// Event emitted when metadata is deleted from a subscription.
#[derive(Clone, Debug)]
pub struct MetadataDeletedEvent {
    pub subscription_id: u32,
    pub key: String,
    pub authorizer: Address,
    /// Event schema version for backwards-compatible indexer decoding.
    pub schema_version: u32,
}

/// Event emitted when metadata is applied through the off-chain signed path.
///
/// Distinguishes `MetadataSetEvent` (on-chain `require_auth`) from
/// `MetadataSetSignedEvent` (off-chain-ed25519) so indexers and audit
/// pipelines can attribute auth without ambiguity.
#[derive(Clone, Debug)]
pub struct MetadataSetSignedEvent {
    pub subscription_id: u32,
    pub key: String,
    /// Soroban address derived from the supplied ed25519 public key.
    pub signer: Address,
    pub nonce: u64,
    /// Ledger timestamp when the signed update was applied.
    pub timestamp: u64,
    /// Event schema version for backwards-compatible indexer decoding.
    pub schema_version: u32,
}

/// Event emitted when a plan template is updated.
#[derive(Clone, Copy, Debug)]
pub struct PlanTemplateUpdatedEvent {
    /// Logical template group identifier shared by all versions.
    pub template_key: u32,
    /// Previous plan template ID.
    pub old_plan_id: u32,
    /// Newly created plan template ID representing the updated version.
    pub new_plan_id: u32,
    /// Version number of the new plan template.
    pub version: u32,
    /// Merchant that owns this plan template.
    pub merchant: Address,
    /// Timestamp when the update occurred.
    pub timestamp: u64,
    /// Event schema version for backwards-compatible indexer decoding.
    pub schema_version: u32,
}

/// Event emitted when a plan template is disabled.
#[derive(Clone, Copy, Debug)]
pub struct PlanTemplateDisabledEvent {
    /// The ID of the plan template that was disabled.
    pub plan_template_id: u32,
    /// Merchant that owns this plan template.
    pub merchant: Address,
    /// Timestamp when disabled.
    pub timestamp: u64,
    /// Event schema version for backwards-compatible indexer decoding.
    pub schema_version: u32,
}

/// Event emitted when a plan's max-active-subscriptions limit is configured.
///
/// A `max_active` value of `0` means "no limit enforced".
#[derive(Clone, Copy, Debug)]
pub struct PlanMaxActiveUpdatedEvent {
    /// Plan template whose limit was changed.
    pub plan_template_id: u32,
    /// Merchant that owns the plan and authorized the change.
    pub merchant: Address,
    /// New limit value (`0` = unlimited).
    pub max_active: u32,
    /// Ledger timestamp when the change was applied.
    pub timestamp: u64,
    /// Event schema version for backwards-compatible indexer decoding.
    pub schema_version: u32,
}

/// Event emitted when a merchant's max-subscriptions limit is updated.
#[derive(Clone, Copy, Debug)]
pub struct MerchantMaxSubsUpdatedEvent {
    /// Merchant whose limit was changed.
    pub merchant: Address,
    /// New limit value (`u32::MAX` = unlimited).
    pub max_subs: u32,
    /// Ledger timestamp when the change was applied.
    pub timestamp: u64,
}

/// Event emitted when a subscription is migrated from one plan template
/// version to another.
#[derive(Clone, Copy, Debug)]
pub struct SubscriptionMigratedEvent {
    pub subscription_id: u32,
    /// Logical template group identifier shared by all versions.
    pub template_key: u32,
    /// Plan template ID the subscription was previously pinned to.
    pub from_plan_id: u32,
    /// Plan template ID the subscription is now pinned to.
    pub to_plan_id: u32,
    /// Merchant that owns the plan templates.
    pub merchant: Address,
    /// Subscriber that authorized the migration.
    pub subscriber: Address,
    /// Timestamp when the migration occurred.
    pub timestamp: u64,
    /// Event schema version for backwards-compatible indexer decoding.
    pub schema_version: u32,
}

/// Event emitted when a usage statement is logged.
#[derive(Clone, Debug)]
pub struct UsageStatementEvent {
    pub subscription_id: u32,
    pub merchant: Address,
    pub usage_amount: i128,
    pub token: Address,
    pub timestamp: u64,
    pub reference: String,
    /// Event schema version for backwards-compatible indexer decoding.
    pub schema_version: u32,
}

#[derive(Clone, Debug)]
pub struct UsageChargeRejectedEvent {
    pub subscription_id: u32,
    pub merchant: Address,
    pub token: Address,
    pub usage_amount: i128,
    pub timestamp: u64,
    pub reference: String,
    pub result: UsageChargeResult,
    /// Event schema version for backwards-compatible indexer decoding.
    pub schema_version: u32,
}

#[derive(Clone, Copy, Debug)]
pub struct UsageLimitsConfiguredEvent {
    pub subscription_id: u32,
    pub merchant: Address,
    pub rate_limit_max_calls: Option<u32>,
    pub rate_window_secs: u64,
    pub burst_min_interval_secs: u64,
    pub usage_cap_units: Option<i128>,
    pub timestamp: u64,
    /// Event schema version for backwards-compatible indexer decoding.
    pub schema_version: u32,
}

/// Event emitted when a partial refund is processed for a subscription.
#[derive(Clone, Copy, Debug)]
pub struct PartialRefundEvent {
    /// Subscription receiving the refund.
    pub subscription_id: u32,
    /// Subscriber who receives the refunded amount.
    pub subscriber: Address,
    pub token: Address,
    /// Amount refunded in token base units.
    pub amount: i128,
    /// Ledger timestamp when the refund was processed.
    pub timestamp: u64,
    /// Event schema version for backwards-compatible indexer decoding.
    pub schema_version: u32,
}

/// Event emitted when a merchant enables their blanket pause.
#[derive(Clone, Copy, Debug)]
pub struct MerchantPausedEvent {
    pub merchant: Address,
    pub timestamp: u64,
    /// Event schema version for backwards-compatible indexer decoding.
    pub schema_version: u32,
}

/// Event emitted when a merchant disables their blanket pause.
#[derive(Clone, Copy, Debug)]
pub struct MerchantUnpausedEvent {
    pub merchant: Address,
    pub timestamp: u64,
    /// Event schema version for backwards-compatible indexer decoding.
    pub schema_version: u32,
}

#[derive(Clone, Copy, Debug)]
pub struct MerchantRefundEvent {
    pub merchant: Address,
    pub subscriber: Address,
    pub token: Address,
    pub amount: i128,
    pub timestamp: u64,
    /// Event schema version for backwards-compatible indexer decoding.
    pub schema_version: u32,
}

/// Event emitted as an on-chain balance snapshot for a (merchant, token) pair.
#[derive(Clone, Copy, Debug)]
pub struct MerchantBalanceSnapshotEvent {
    /// Merchant address
    pub merchant: Address,
    /// Settlement token address
    pub token: Address,
    /// Stored on-chain balance for this merchant+token
    pub balance: i128,
    /// Total accruals (interval + usage + one_off)
    pub accrued: i128,
    /// Total withdrawals recorded in TokenEarnings
    pub withdrawn: i128,
    /// Total refunds recorded in TokenEarnings
    pub refunded: i128,
    /// Ledger sequence at snapshot time (temporal anchor)
    pub ledger_sequence: u32,
    /// Ledger timestamp in seconds
    pub timestamp: u64,
}

/// Event emitted when protocol fees are configured.
#[derive(Clone, Copy, Debug)]
pub struct ProtocolFeeConfiguredEvent {
    pub admin: Address,
    pub treasury: Address,
    pub fee_bps: u32,
    pub timestamp: u64,
    /// Event schema version for backwards-compatible indexer decoding.
    pub schema_version: u32,
}

/// Event emitted when a governance proposal is submitted.
#[derive(Clone, Copy, Debug)]
pub struct ProposalSubmittedEvent {
    pub proposal_id: u64,
    pub kind: ProposalKind,
    pub target: Address,
    pub quorum_bps: u32,
    pub eta: u64,
    pub timestamp: u64,
    /// Event schema version for backwards-compatible indexer decoding.
    pub schema_version: u32,
}

/// Event emitted when a guardian votes on a proposal.
#[derive(Clone, Copy, Debug)]
pub struct ProposalVotedEvent {
    pub proposal_id: u64,
    pub guardian: Address,
    pub voted_yes: bool,
    pub guardian_weight: u32,
    pub timestamp: u64,
    /// Event schema version for backwards-compatible indexer decoding.
    pub schema_version: u32,
}

/// Event emitted when a governance proposal is executed.
#[derive(Clone, Copy, Debug)]
pub struct ProposalExecutedEvent {
    pub proposal_id: u64,
    pub kind: ProposalKind,
    pub votes_for: u32,
    pub votes_against: u32,
    pub total_weight: u32,
    pub timestamp: u64,
    /// Event schema version for backwards-compatible indexer decoding.
    pub schema_version: u32,
}

/// Event emitted when a governance proposal is cancelled.
#[derive(Clone, Debug)]
pub struct ProposalCancelledEvent {
    pub proposal_id: u64,
    pub reason: String,
    pub timestamp: u64,
    /// Event schema version for backwards-compatible indexer decoding.
    pub schema_version: u32,
}

/// Event emitted when merchant config is initialized.
#[derive(Clone, Copy, Debug)]
pub struct MerchantConfigInitializedEvent {
    pub merchant: Address,
    pub payout_address: Address,
    pub fee_bips: i32,
    pub allowed_operations: i32,
    pub timestamp: u64,
    /// Event schema version for backwards-compatible indexer decoding.
    pub schema_version: u32,
}

/// Event emitted when merchant config is updated.
#[derive(Clone, Copy, Debug)]
pub struct MerchantConfigUpdatedEvent {
    pub merchant: Address,
    pub payout_address: Address,
    pub fee_bips: i32,
    pub allowed_operations: i32,
    pub timestamp: u64,
    /// Event schema version for backwards-compatible indexer decoding.
    pub schema_version: u32,
}

/// Event emitted when admin rotates a merchant's address.
///
/// Emitted by `SubscriptionVault::rotate_merchant_address` after all per-merchant
/// storage keys have been migrated from `old_merchant` to `new_merchant` and every
/// `Subscription.merchant` field referencing the old address has been rewritten.
#[derive(Clone, Copy, Debug)]
pub struct MerchantAddressRotatedEvent {
    /// Admin address that authorised the rotation.
    pub admin: Address,
    /// The compromised / old merchant address.
    pub old_merchant: Address,
    /// The new merchant address that now owns all balances and subscriptions.
    pub new_merchant: Address,
    /// Number of active subscription records whose `.merchant` field was rewritten.
    pub subscriptions_updated: u32,
    /// Ledger timestamp when the rotation was executed.
    pub timestamp: u64,
}

/// Event emitted when a protocol fee is charged.
#[derive(Clone, Copy, Debug)]
pub struct ProtocolFeeChargedEvent {
    pub subscription_id: u32,
    pub merchant: Address,
    pub token: Address,
    pub fee_amount: i128,
    pub treasury: Address,
    pub timestamp: u64,
    /// Event schema version for backwards-compatible indexer decoding.
    pub schema_version: u32,
}

/// Event emitted when a plan template is created.
#[derive(Clone, Copy, Debug)]
pub struct PlanTemplateCreatedEvent {
    pub plan_id: u32,
    pub admin: Address,
    pub interval: u64,
    pub amount: i128,
    pub usage_enabled: bool,
    pub timestamp: u64,
    /// Event schema version for backwards-compatible indexer decoding.
    pub schema_version: u32,
}

/// Event emitted when global cap default is updated.
#[derive(Clone, Copy, Debug)]
pub struct GlobalCapDefaultUpdatedEvent {
    pub admin: Address,
    pub cap: i128,
    pub timestamp: u64,
    /// Event schema version for backwards-compatible indexer decoding.
    pub schema_version: u32,
}

/// Event emitted when lifetime cap is updated.
#[derive(Clone, Copy, Debug)]
pub struct LifetimeCapUpdatedEvent {
    pub admin: Address,
    pub cap: i128,
    pub timestamp: u64,
    /// Event schema version for backwards-compatible indexer decoding.
    pub schema_version: u32,
}

/// Event emitted when merchant cap default is updated.
#[derive(Clone, Copy, Debug)]
pub struct MerchantCapDefaultUpdatedEvent {
    pub admin: Address,
    pub cap: i128,
    pub timestamp: u64,
    /// Event schema version for backwards-compatible indexer decoding.
    pub schema_version: u32,
}

} // verus!
