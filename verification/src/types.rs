//! Data model: global configuration, per-agent records, per-epoch billing
//! records, and the error enumeration shared by every operation.

use vstd::prelude::*;

verus! {

/// Fee rates are expressed in basis points, 1/10000.
pub const BPS_DENOMINATOR: u64 = 10_000;

/// Credit score a freshly registered agent starts with.
pub const DEFAULT_INITIAL_CREDIT: u64 = 700;
/// Upper clamp of the credit score.
pub const MAX_CREDIT: u64 = 1_000;
/// Minimum credit score required by the activation policy.
pub const MIN_ACTIVE_CREDIT: u64 = 500;

/// Credit delta for settling the full due amount on or before the deadline.
pub const SCORE_BONUS_ON_TIME: u64 = 5;
/// Credit penalty for settling the full due amount after the deadline.
pub const SCORE_PENALTY_LATE: u64 = 15;
/// Credit penalty for an epoch whose due was fully covered by slashing.
pub const SCORE_PENALTY_SLASHED: u64 = 60;
/// Credit penalty for an epoch left with residual due after slashing.
pub const SCORE_PENALTY_DELINQUENT: u64 = 90;

/// Numeric code of `AgentStatus::Active` in status-change notifications.
pub const STATUS_ACTIVE: u64 = 1;
/// Numeric code of `AgentStatus::Paused`.
pub const STATUS_PAUSED: u64 = 2;
/// Numeric code of `AgentStatus::Suspended`.
pub const STATUS_SUSPENDED: u64 = 3;
/// Numeric code of `AgentStatus::Cancelled`.
pub const STATUS_CANCELLED: u64 = 4;

/// Lifecycle status of a registered agent. Cancellation is a status, not
/// removal: the agent's records are never physically deleted.
#[derive(Clone, Copy, Debug, PartialEq, Eq, Structural)]
pub enum AgentStatus {
    Active,
    Paused,
    Suspended,
    Cancelled,
}

/// State of one (agent, epoch) pair. `Billed` is entered exactly once per
/// pair; exactly one of the four terminal states is ever recorded for it.
#[derive(Clone, Copy, Debug, PartialEq, Eq, Structural)]
pub enum EpochState {
    Unbilled,
    Billed,
    SettledOnTime,
    SettledLate,
    Slashed,
    Delinquent,
}

/// Why a call was rejected. A rejected call commits nothing.
#[derive(Clone, Copy, Debug, PartialEq, Eq, Structural)]
pub enum EscrowError {
    InvalidOperator,
    InvalidOwner,
    InvalidWindowReward,
    InvalidSetupFee,
    InvalidMinBond,
    InvalidGraceEpochs,
    InvalidBackbillLimit,
    InvalidWindowHardCap,
    InvalidFeeBps,
    InvalidMaxWindows,
    MaxWindowsExceedsHardCap,
    InvalidMaxCharge,
    PaymentRequired,
    InsufficientRegisterPayment,
    OutstandingDebtExists,
    NeedMinBondToReactivate,
    AgentNotEnrolled,
    AgentCancelled,
    NotActive,
    NotPausedOrSuspended,
    HealthChecksFailed,
    InvalidWindows,
    EpochNotClosed,
    EpochTooOldToBill,
    EpochBeforeJoin,
    EpochNotAfterLastBilled,
    ExceedsMaxWindowsPerEpoch,
    ExceedsWindowsHardCap,
    EpochAlreadyBilled,
    FeeRoundsToZero,
    ExceedsMaxChargePerEpoch,
    EpochNotBilled,
    EpochAlreadySettled,
    StillInGracePeriod,
    NothingDue,
    OnlyOperator,
    OnlyOwner,
    InvalidAmount,
    InvalidRecipient,
    InsufficientClaimable,
}

/// Global configuration: set at initialization, owner-mutable thereafter.
#[derive(Clone, Copy, Debug, PartialEq, Eq, Structural)]
pub struct Config {
    pub owner: u64,
    pub operator: u64,
    pub window_reward: u128,
    pub setup_fee: u128,
    pub min_bond: u128,
    pub promo_free_slots: u64,
    pub grace_epochs: u64,
    pub max_backbill_epochs: u64,
    pub hard_max_windows_per_epoch: u64,
}

impl Config {
    /// All monetary and count parameters strictly positive except the
    /// promotional slot count, and both identities known.
    pub open spec fn wf(self) -> bool {
        &&& self.owner != 0
        &&& self.operator != 0
        &&& self.window_reward > 0
        &&& self.setup_fee > 0
        &&& self.min_bond > 0
        &&& self.grace_epochs > 0
        &&& self.max_backbill_epochs > 0
        &&& self.hard_max_windows_per_epoch > 0
    }
}

/// Mutable profile of one registered agent.
#[derive(Debug)]
pub struct AgentInfo {
    /// Fee rate in basis points, 1..=10000.
    pub fee_bps: u64,
    /// Per-epoch cap on billable windows.
    pub max_windows_per_epoch: u64,
    /// Per-epoch cap on the billed amount.
    pub max_charge_per_epoch: u128,
    /// Bounded gauge in 0..=1000.
    pub credit_score: u64,
    pub status: AgentStatus,
    /// Whether the one-time setup fee was waived via promotion.
    pub used_promo: bool,
    pub joined_epoch: u64,
    /// Highest epoch for which billing has been recorded.
    pub last_billed_epoch: u64,
    /// Free-form metadata, kept verbatim.
    pub metadata: Vec<u8>,
}

impl AgentInfo {
    pub open spec fn wf(self) -> bool {
        &&& 0 < self.fee_bps <= BPS_DENOMINATOR
        &&& self.max_windows_per_epoch > 0
        &&& self.max_charge_per_epoch > 0
        &&& self.credit_score <= MAX_CREDIT
    }
}

/// One (agent, epoch) billing record, created by billing and mutated by
/// settlement and enforcement, never removed.
#[derive(Clone, Copy, Debug)]
pub struct BillingRecord {
    pub epoch: u64,
    pub windows: u64,
    /// Remaining amount due; decreases as partial payments and slashes apply.
    pub due: u128,
    /// Settlement deadline: billed epoch plus the grace length.
    pub deadline: u64,
    /// One-shot flag: set the first time a credit adjustment is applied for
    /// this record, never cleared afterwards.
    pub score_applied: bool,
    pub state: EpochState,
}

impl BillingRecord {
    pub open spec fn wf(self) -> bool {
        &&& self.state != EpochState::Unbilled
        &&& self.score_applied <==> self.state != EpochState::Billed
        &&& self.state == EpochState::SettledOnTime ==> self.due == 0
        &&& self.state == EpochState::SettledLate ==> self.due == 0
        &&& self.state == EpochState::Slashed ==> self.due == 0
    }
}

/// Everything the engine tracks for one agent identity: the profile, the
/// bond ledger entries and the per-epoch billing records.
#[derive(Debug)]
pub struct AgentAccount {
    pub id: u64,
    pub info: AgentInfo,
    /// Refundable collateral; never goes negative.
    pub bond_balance: u128,
    /// Total amount still due across this agent's billing records.
    pub outstanding_total: u128,
    pub bills: Vec<BillingRecord>,
}

/// Sum of the remaining due amounts of a sequence of billing records.
pub open spec fn sum_due(bills: Seq<BillingRecord>) -> int
    decreases bills.len(),
{
    if bills.len() == 0 {
        0
    } else {
        bills[0].due as int + sum_due(bills.drop_first())
    }
}

impl AgentAccount {
    /// No two billing records share an epoch.
    pub open spec fn bills_distinct(self) -> bool {
        forall|i: int, j: int|
            0 <= i < j < self.bills@.len() ==> self.bills@[i].epoch != self.bills@[j].epoch
    }

    pub open spec fn wf(self) -> bool {
        &&& self.info.wf()
        &&& self.bills_distinct()
        &&& forall|i: int|
            0 <= i < self.bills@.len() ==> (#[trigger] self.bills@[i]).wf()
                && self.bills@[i].epoch >= self.info.joined_epoch
        &&& self.outstanding_total as int == sum_due(self.bills@)
    }

    /// Whether a record for `epoch` exists.
    pub open spec fn has_bill(self, epoch: u64) -> bool {
        exists|i: int| 0 <= i < self.bills@.len() && self.bills@[i].epoch == epoch
    }

    /// Index of the record for `epoch`; meaningful when `has_bill`.
    pub open spec fn bill_index(self, epoch: u64) -> int {
        choose|i: int| 0 <= i < self.bills@.len() && self.bills@[i].epoch == epoch
    }

    /// The record for `epoch`; meaningful when `has_bill`.
    pub open spec fn bill(self, epoch: u64) -> BillingRecord {
        self.bills@[self.bill_index(epoch)]
    }
}

/// Whether this account counts towards the active-agent counter.
pub open spec fn is_active(a: AgentAccount) -> bool {
    a.info.status == AgentStatus::Active
}

/// Number of accounts in `Active` status.
pub open spec fn count_active(agents: Seq<AgentAccount>) -> int
    decreases agents.len(),
{
    if agents.len() == 0 {
        0
    } else {
        (if is_active(agents[0]) { 1int } else { 0int }) + count_active(agents.drop_first())
    }
}

/// The smaller of two amounts.
pub open spec fn amount_min(a: u128, b: u128) -> u128 {
    if a <= b { a } else { b }
}

/// The epoch just before `now`, saturating at zero.
pub open spec fn prev_epoch(now: u64) -> u64 {
    if now == 0 { 0 } else { (now - 1) as u64 }
}

/// Amount due for billing `windows` usage windows at `fee_bps` of the
/// per-window reward; integer division truncates.
pub open spec fn fee_amount(window_reward: u128, windows: u64, fee_bps: u64) -> int {
    (window_reward as int) * (windows as int) * (fee_bps as int) / (BPS_DENOMINATOR as int)
}

/// Credit score after a bounded adjustment: increases clamp at the maximum,
/// decreases saturate at zero.
pub open spec fn score_after(score: u64, delta: int) -> int {
    if delta >= 0 {
        if score + delta > MAX_CREDIT { MAX_CREDIT as int } else { score + delta }
    } else {
        if score + delta < 0 { 0 } else { score + delta }
    }
}

pub proof fn lemma_sum_due_nonneg(bills: Seq<BillingRecord>)
    ensures
        sum_due(bills) >= 0,
    decreases bills.len(),
{
    if bills.len() > 0 {
        lemma_sum_due_nonneg(bills.drop_first());
    }
}

pub proof fn lemma_sum_due_ge_elem(bills: Seq<BillingRecord>, i: int)
    requires
        0 <= i < bills.len(),
    ensures
        sum_due(bills) >= bills[i].due,
    decreases bills.len(),
{
    if i == 0 {
        lemma_sum_due_nonneg(bills.drop_first());
    } else {
        lemma_sum_due_ge_elem(bills.drop_first(), i - 1);
    }
}

pub proof fn lemma_sum_due_update(bills: Seq<BillingRecord>, i: int, r: BillingRecord)
    requires
        0 <= i < bills.len(),
    ensures
        sum_due(bills.update(i, r)) == sum_due(bills) - bills[i].due + r.due,
    decreases bills.len(),
{
    if i == 0 {
        assert(bills.update(0, r).drop_first() =~= bills.drop_first());
    } else {
        assert(bills.update(i, r).drop_first() =~= bills.drop_first().update(i - 1, r));
        lemma_sum_due_update(bills.drop_first(), i - 1, r);
    }
}

pub proof fn lemma_sum_due_push(bills: Seq<BillingRecord>, r: BillingRecord)
    ensures
        sum_due(bills.push(r)) == sum_due(bills) + r.due,
    decreases bills.len(),
{
    if bills.len() == 0 {
        assert(bills.push(r).drop_first() =~= Seq::<BillingRecord>::empty());
        assert(bills.push(r)[0] == r);
        assert(sum_due(Seq::<BillingRecord>::empty()) == 0);
    } else {
        assert(bills.push(r).drop_first() =~= bills.drop_first().push(r));
        lemma_sum_due_push(bills.drop_first(), r);
    }
}

/// The billing records after `amount` of debt has been absorbed into their
/// due fields, front to back: each record gives up as much of its remaining
/// due as the amount still to absorb allows.
pub open spec fn slash_dues(bills: Seq<BillingRecord>, amount: int) -> Seq<BillingRecord>
    decreases bills.len(),
{
    if bills.len() == 0 {
        bills
    } else {
        let take = if amount <= 0 {
            0int
        } else if amount >= bills[0].due {
            bills[0].due as int
        } else {
            amount
        };
        seq![(BillingRecord { due: (bills[0].due - take) as u128, ..bills[0] })] + slash_dues(
            bills.drop_first(),
            amount - take,
        )
    }
}

pub proof fn lemma_slash_dues_zero(bills: Seq<BillingRecord>)
    ensures
        slash_dues(bills, 0) == bills,
    decreases bills.len(),
{
    if bills.len() > 0 {
        lemma_slash_dues_zero(bills.drop_first());
        assert((BillingRecord { due: (bills[0].due - 0) as u128, ..bills[0] }) == bills[0]);
        assert(slash_dues(bills, 0) =~= bills);
    }
}

pub proof fn lemma_slash_dues_fields(bills: Seq<BillingRecord>, amount: int)
    ensures
        slash_dues(bills, amount).len() == bills.len(),
        forall|i: int|
            0 <= i < bills.len() ==> {
                let r = #[trigger] slash_dues(bills, amount)[i];
                &&& r.epoch == bills[i].epoch
                &&& r.windows == bills[i].windows
                &&& r.deadline == bills[i].deadline
                &&& r.score_applied == bills[i].score_applied
                &&& r.state == bills[i].state
                &&& r.due <= bills[i].due
            },
    decreases bills.len(),
{
    if bills.len() > 0 {
        let take = if amount <= 0 {
            0int
        } else if amount >= bills[0].due {
            bills[0].due as int
        } else {
            amount
        };
        lemma_slash_dues_fields(bills.drop_first(), amount - take);
        assert forall|i: int|
            0 <= i < bills.len() implies {
            let r = #[trigger] slash_dues(bills, amount)[i];
            &&& r.epoch == bills[i].epoch
            &&& r.windows == bills[i].windows
            &&& r.deadline == bills[i].deadline
            &&& r.score_applied == bills[i].score_applied
            &&& r.state == bills[i].state
            &&& r.due <= bills[i].due
        } by {
            if i > 0 {
                assert(slash_dues(bills, amount)[i] == slash_dues(bills.drop_first(), amount
                    - take)[i - 1]);
                assert(bills[i] == bills.drop_first()[i - 1]);
            }
        }
    }
}

pub proof fn lemma_slash_dues_sum(bills: Seq<BillingRecord>, amount: int)
    requires
        0 <= amount <= sum_due(bills),
    ensures
        sum_due(slash_dues(bills, amount)) == sum_due(bills) - amount,
    decreases bills.len(),
{
    if bills.len() > 0 {
        let take = if amount <= 0 {
            0int
        } else if amount >= bills[0].due {
            bills[0].due as int
        } else {
            amount
        };
        lemma_sum_due_nonneg(bills.drop_first());
        lemma_slash_dues_sum(bills.drop_first(), amount - take);
        assert(slash_dues(bills, amount).drop_first() =~= slash_dues(
            bills.drop_first(),
            amount - take,
        ));
    }
}

pub proof fn lemma_count_active_bounds(agents: Seq<AgentAccount>)
    ensures
        0 <= count_active(agents) <= agents.len(),
    decreases agents.len(),
{
    if agents.len() > 0 {
        lemma_count_active_bounds(agents.drop_first());
    }
}

pub proof fn lemma_count_active_elem(agents: Seq<AgentAccount>, i: int)
    requires
        0 <= i < agents.len(),
    ensures
        is_active(agents[i]) ==> count_active(agents) >= 1,
        !is_active(agents[i]) ==> count_active(agents) <= agents.len() - 1,
    decreases agents.len(),
{
    lemma_count_active_bounds(agents.drop_first());
    if i > 0 {
        lemma_count_active_elem(agents.drop_first(), i - 1);
    }
}

pub proof fn lemma_count_active_update(agents: Seq<AgentAccount>, i: int, v: AgentAccount)
    requires
        0 <= i < agents.len(),
    ensures
        count_active(agents.update(i, v)) == count_active(agents)
            - (if is_active(agents[i]) { 1int } else { 0int })
            + (if is_active(v) { 1int } else { 0int }),
    decreases agents.len(),
{
    if i == 0 {
        assert(agents.update(0, v).drop_first() =~= agents.drop_first());
    } else {
        assert(agents.update(i, v).drop_first() =~= agents.drop_first().update(i - 1, v));
        lemma_count_active_update(agents.drop_first(), i - 1, v);
    }
}

pub proof fn lemma_count_active_push(agents: Seq<AgentAccount>, v: AgentAccount)
    ensures
        count_active(agents.push(v)) == count_active(agents)
            + (if is_active(v) { 1int } else { 0int }),
    decreases agents.len(),
{
    if agents.len() == 0 {
        assert(agents.push(v).drop_first() =~= Seq::<AgentAccount>::empty());
        assert(agents.push(v)[0] == v);
        assert(count_active(Seq::<AgentAccount>::empty()) == 0);
    } else {
        assert(agents.push(v).drop_first() =~= agents.drop_first().push(v));
        lemma_count_active_push(agents.drop_first(), v);
    }
}

} // verus!
