//! Transition relations: for every state-mutating operation, a spec function
//! giving the rejection reason (the first failing validation, exactly in the
//! order the operation checks them) and a relation tying the state before the
//! call to the state after a successful call. The executable operations in
//! `escrow` promise these relations in their contracts, and the laws in
//! `laws` are proved from them.

use vstd::prelude::*;
use crate::types::AgentStatus;
use crate::types::EpochState;
use crate::types::EscrowError;
use crate::types::AgentAccount;
use crate::types::AgentInfo;
use crate::types::BillingRecord;
use crate::types::Config;
use crate::types::amount_min;
use crate::types::fee_amount;
use crate::types::is_active;
use crate::types::prev_epoch;
use crate::types::score_after;
use crate::types::slash_dues;
use crate::types::BPS_DENOMINATOR;
use crate::types::DEFAULT_INITIAL_CREDIT;
use crate::types::MIN_ACTIVE_CREDIT;
use crate::types::SCORE_BONUS_ON_TIME;
use crate::types::SCORE_PENALTY_LATE;
use crate::types::SCORE_PENALTY_SLASHED;
use crate::types::SCORE_PENALTY_DELINQUENT;
use crate::escrow::StreamAgencyEscrow;

verus! {

/// Rejection reason of `init`, if any.
pub open spec fn init_err(
    operator: u64,
    window_reward: u128,
    setup_fee: u128,
    min_bond: u128,
    grace_epochs: u64,
    max_backbill_epochs: u64,
    hard_max_windows_per_epoch: u64,
) -> Option<EscrowError> {
    if operator == 0 {
        Some(EscrowError::InvalidOperator)
    } else if window_reward == 0 {
        Some(EscrowError::InvalidWindowReward)
    } else if setup_fee == 0 {
        Some(EscrowError::InvalidSetupFee)
    } else if min_bond == 0 {
        Some(EscrowError::InvalidMinBond)
    } else if grace_epochs == 0 {
        Some(EscrowError::InvalidGraceEpochs)
    } else if max_backbill_epochs == 0 {
        Some(EscrowError::InvalidBackbillLimit)
    } else if hard_max_windows_per_epoch == 0 {
        Some(EscrowError::InvalidWindowHardCap)
    } else {
        None
    }
}

/// `set_status`: no-op when the status is unchanged; otherwise the status is
/// overwritten and the active-agent counter adjusted.
pub open spec fn set_status_ok(
    pre: StreamAgencyEscrow,
    post: StreamAgencyEscrow,
    agent: u64,
    next: AgentStatus,
) -> bool {
    let i = pre.agent_index(agent);
    let acct = pre.agents@[i];
    if acct.info.status == next {
        post == pre
    } else {
        &&& post.config == pre.config
        &&& post.promo_used == pre.promo_used
        &&& post.claimable_owner == pre.claimable_owner
        &&& post.active_agent_count == pre.active_agent_count
            - (if acct.info.status == AgentStatus::Active { 1int } else { 0int })
            + (if next == AgentStatus::Active { 1int } else { 0int })
        &&& agents_fixed_except(pre, post, i)
        &&& {
            let a = post.agents@[i];
            &&& same_ledger(acct, a)
            &&& same_profile(acct.info, a.info)
            &&& a.info.credit_score == acct.info.credit_score
            &&& a.info.last_billed_epoch == acct.info.last_billed_epoch
            &&& a.info.status == next
        }
    }
}

/// The global counters and configuration are untouched.
pub open spec fn globals_fixed(pre: StreamAgencyEscrow, post: StreamAgencyEscrow) -> bool {
    &&& post.config == pre.config
    &&& post.promo_used == pre.promo_used
    &&& post.claimable_owner == pre.claimable_owner
    &&& post.active_agent_count == pre.active_agent_count
}

/// Every account but the one at index `i` is untouched.
pub open spec fn agents_fixed_except(
    pre: StreamAgencyEscrow,
    post: StreamAgencyEscrow,
    i: int,
) -> bool {
    &&& post.agents@.len() == pre.agents@.len()
    &&& forall|k: int|
        0 <= k < pre.agents@.len() && k != i ==> post.agents@[k] == pre.agents@[k]
}

/// The profile fields that only registration and guard updates may change
/// are equal; status, credit score and the billing baseline are not covered.
pub open spec fn same_profile(old_info: AgentInfo, new_info: AgentInfo) -> bool {
    &&& new_info.fee_bps == old_info.fee_bps
    &&& new_info.max_windows_per_epoch == old_info.max_windows_per_epoch
    &&& new_info.max_charge_per_epoch == old_info.max_charge_per_epoch
    &&& new_info.used_promo == old_info.used_promo
    &&& new_info.joined_epoch == old_info.joined_epoch
    &&& new_info.metadata@ == old_info.metadata@
}

/// The ledger entries of the account are untouched.
pub open spec fn same_ledger(old_acct: AgentAccount, new_acct: AgentAccount) -> bool {
    &&& new_acct.id == old_acct.id
    &&& new_acct.bond_balance == old_acct.bond_balance
    &&& new_acct.outstanding_total == old_acct.outstanding_total
    &&& new_acct.bills@ == old_acct.bills@
}

/// Two account values agree on everything observable: the ledger entries,
/// the profile, the status, the credit score and the billing baseline.
pub open spec fn account_same(x: AgentAccount, y: AgentAccount) -> bool {
    &&& same_ledger(x, y)
    &&& same_profile(x.info, y.info)
    &&& y.info.status == x.info.status
    &&& y.info.credit_score == x.info.credit_score
    &&& y.info.last_billed_epoch == x.info.last_billed_epoch
}

impl StreamAgencyEscrow {
    /// Rejection reason of `register`, if any.
    pub open spec fn register_err(
        self,
        caller: u64,
        payment: u128,
        fee_bps: u64,
        max_windows_per_epoch: u64,
        max_charge_per_epoch: u128,
    ) -> Option<EscrowError> {
        if !(0 < fee_bps <= BPS_DENOMINATOR) {
            Some(EscrowError::InvalidFeeBps)
        } else if max_windows_per_epoch == 0 {
            Some(EscrowError::InvalidMaxWindows)
        } else if max_windows_per_epoch > self.config.hard_max_windows_per_epoch {
            Some(EscrowError::MaxWindowsExceedsHardCap)
        } else if max_charge_per_epoch == 0 {
            Some(EscrowError::InvalidMaxCharge)
        } else if payment == 0 {
            Some(EscrowError::PaymentRequired)
        } else if !self.has_agent(caller) {
            let fee: u128 = if self.promo_used < self.config.promo_free_slots {
                0
            } else {
                self.config.setup_fee
            };
            if payment < fee + self.config.min_bond {
                Some(EscrowError::InsufficientRegisterPayment)
            } else {
                None
            }
        } else {
            let acct = self.agent_of(caller);
            if acct.info.status == AgentStatus::Cancelled {
                if acct.outstanding_total != 0 {
                    Some(EscrowError::OutstandingDebtExists)
                } else if payment < self.config.min_bond {
                    Some(EscrowError::NeedMinBondToReactivate)
                } else {
                    None
                }
            } else {
                None
            }
        }
    }

    /// Rejection reason of `top_up_bond`, if any.
    pub open spec fn top_up_bond_err(self, caller: u64, payment: u128) -> Option<EscrowError> {
        if !self.has_agent(caller) {
            Some(EscrowError::AgentNotEnrolled)
        } else if payment == 0 {
            Some(EscrowError::PaymentRequired)
        } else if self.agent_of(caller).info.status == AgentStatus::Cancelled {
            Some(EscrowError::AgentCancelled)
        } else {
            None
        }
    }

    /// Rejection reason of `set_billing_guards`, if any.
    pub open spec fn set_billing_guards_err(
        self,
        caller: u64,
        max_windows_per_epoch: u64,
        max_charge_per_epoch: u128,
    ) -> Option<EscrowError> {
        if !self.has_agent(caller) {
            Some(EscrowError::AgentNotEnrolled)
        } else if max_windows_per_epoch == 0 {
            Some(EscrowError::InvalidMaxWindows)
        } else if max_windows_per_epoch > self.config.hard_max_windows_per_epoch {
            Some(EscrowError::MaxWindowsExceedsHardCap)
        } else if max_charge_per_epoch == 0 {
            Some(EscrowError::InvalidMaxCharge)
        } else if self.agent_of(caller).info.status == AgentStatus::Cancelled {
            Some(EscrowError::AgentCancelled)
        } else {
            None
        }
    }

    /// Rejection reason of `pause`, if any.
    pub open spec fn pause_err(self, caller: u64) -> Option<EscrowError> {
        if !self.has_agent(caller) {
            Some(EscrowError::AgentNotEnrolled)
        } else if self.agent_of(caller).info.status != AgentStatus::Active {
            Some(EscrowError::NotActive)
        } else {
            None
        }
    }

    /// Rejection reason of `resume_if_healthy`, if any.
    pub open spec fn resume_if_healthy_err(self, caller: u64) -> Option<EscrowError> {
        if !self.has_agent(caller) {
            Some(EscrowError::AgentNotEnrolled)
        } else if self.agent_of(caller).info.status != AgentStatus::Paused
            && self.agent_of(caller).info.status != AgentStatus::Suspended {
            Some(EscrowError::NotPausedOrSuspended)
        } else if !self.can_be_active_spec(caller) {
            Some(EscrowError::HealthChecksFailed)
        } else {
            None
        }
    }

    /// Rejection reason of `cancel_and_withdraw`, if any.
    pub open spec fn cancel_and_withdraw_err(self, caller: u64) -> Option<EscrowError> {
        if !self.has_agent(caller) {
            Some(EscrowError::AgentNotEnrolled)
        } else {
            None
        }
    }

    /// Rejection reason of `bill_epoch`, if any.
    pub open spec fn bill_epoch_err(
        self,
        caller: u64,
        agent: u64,
        epoch: u64,
        windows: u64,
        now_epoch: u64,
    ) -> Option<EscrowError> {
        if caller != self.config.operator {
            Some(EscrowError::OnlyOperator)
        } else if !self.has_agent(agent) {
            Some(EscrowError::AgentNotEnrolled)
        } else if windows == 0 {
            Some(EscrowError::InvalidWindows)
        } else if epoch >= now_epoch {
            Some(EscrowError::EpochNotClosed)
        } else if now_epoch - epoch > self.config.max_backbill_epochs {
            Some(EscrowError::EpochTooOldToBill)
        } else {
            let acct = self.agent_of(agent);
            if acct.info.status == AgentStatus::Cancelled {
                Some(EscrowError::AgentCancelled)
            } else if epoch < acct.info.joined_epoch {
                Some(EscrowError::EpochBeforeJoin)
            } else if epoch <= acct.info.last_billed_epoch {
                Some(EscrowError::EpochNotAfterLastBilled)
            } else if windows > acct.info.max_windows_per_epoch {
                Some(EscrowError::ExceedsMaxWindowsPerEpoch)
            } else if windows > self.config.hard_max_windows_per_epoch {
                Some(EscrowError::ExceedsWindowsHardCap)
            } else if acct.has_bill(epoch) {
                Some(EscrowError::EpochAlreadyBilled)
            } else if fee_amount(self.config.window_reward, windows, acct.info.fee_bps) == 0 {
                Some(EscrowError::FeeRoundsToZero)
            } else if fee_amount(self.config.window_reward, windows, acct.info.fee_bps)
                > acct.info.max_charge_per_epoch {
                Some(EscrowError::ExceedsMaxChargePerEpoch)
            } else {
                None
            }
        }
    }

    /// Rejection reason of `settle_epoch`, if any.
    pub open spec fn settle_epoch_err(
        self,
        caller: u64,
        epoch: u64,
        payment: u128,
    ) -> Option<EscrowError> {
        if !self.has_agent(caller) {
            Some(EscrowError::AgentNotEnrolled)
        } else if !self.agent_of(caller).has_bill(epoch) {
            Some(EscrowError::EpochNotBilled)
        } else if self.agent_of(caller).bill(epoch).due == 0 {
            Some(EscrowError::EpochAlreadySettled)
        } else if payment == 0 {
            Some(EscrowError::PaymentRequired)
        } else {
            None
        }
    }

    /// Rejection reason of `enforce_epoch`, if any.
    pub open spec fn enforce_epoch_err(
        self,
        agent: u64,
        epoch: u64,
        now_epoch: u64,
    ) -> Option<EscrowError> {
        if !self.has_agent(agent) {
            Some(EscrowError::AgentNotEnrolled)
        } else if !self.agent_of(agent).has_bill(epoch) {
            Some(EscrowError::EpochNotBilled)
        } else if now_epoch <= self.agent_of(agent).bill(epoch).deadline {
            Some(EscrowError::StillInGracePeriod)
        } else if self.agent_of(agent).bill(epoch).due == 0 {
            Some(EscrowError::NothingDue)
        } else {
            None
        }
    }

    /// Rejection reason of `withdraw_owner`, if any.
    pub open spec fn withdraw_owner_err(
        self,
        caller: u64,
        amount: u128,
        to: u64,
    ) -> Option<EscrowError> {
        if caller != self.config.owner {
            Some(EscrowError::OnlyOwner)
        } else if amount == 0 {
            Some(EscrowError::InvalidAmount)
        } else if to == 0 {
            Some(EscrowError::InvalidRecipient)
        } else if self.claimable_owner < amount {
            Some(EscrowError::InsufficientClaimable)
        } else {
            None
        }
    }

    /// Rejection reason of `set_operator`, if any.
    pub open spec fn set_operator_err(self, caller: u64, new_operator: u64) -> Option<EscrowError> {
        if caller != self.config.owner {
            Some(EscrowError::OnlyOwner)
        } else if new_operator == 0 {
            Some(EscrowError::InvalidOperator)
        } else {
            None
        }
    }

    /// Rejection reason of `set_owner`, if any.
    pub open spec fn set_owner_err(self, caller: u64, new_owner: u64) -> Option<EscrowError> {
        if caller != self.config.owner {
            Some(EscrowError::OnlyOwner)
        } else if new_owner == 0 {
            Some(EscrowError::InvalidOwner)
        } else {
            None
        }
    }

    /// Rejection reason of `set_window_reward`, if any.
    pub open spec fn set_window_reward_err(self, caller: u64, window_reward: u128) -> Option<
        EscrowError,
    > {
        if caller != self.config.owner {
            Some(EscrowError::OnlyOwner)
        } else if window_reward == 0 {
            Some(EscrowError::InvalidWindowReward)
        } else {
            None
        }
    }

    /// Rejection reason of `set_promo_slots`, if any.
    pub open spec fn set_promo_slots_err(self, caller: u64) -> Option<EscrowError> {
        if caller != self.config.owner {
            Some(EscrowError::OnlyOwner)
        } else {
            None
        }
    }

    /// Rejection reason of `set_max_backbill_epochs`, if any.
    pub open spec fn set_max_backbill_epochs_err(self, caller: u64, max_backbill_epochs: u64) -> Option<
        EscrowError,
    > {
        if caller != self.config.owner {
            Some(EscrowError::OnlyOwner)
        } else if max_backbill_epochs == 0 {
            Some(EscrowError::InvalidBackbillLimit)
        } else {
            None
        }
    }

    /// Rejection reason of `set_hard_max_windows_per_epoch`, if any.
    pub open spec fn set_hard_max_windows_per_epoch_err(
        self,
        caller: u64,
        hard_max_windows_per_epoch: u64,
    ) -> Option<EscrowError> {
        if caller != self.config.owner {
            Some(EscrowError::OnlyOwner)
        } else if hard_max_windows_per_epoch == 0 {
            Some(EscrowError::InvalidWindowHardCap)
        } else {
            None
        }
    }
}

/// Successful `register`: first-time enrollment, reactivation of a cancelled
/// agent, or an update of an existing one.
pub open spec fn register_ok(
    pre: StreamAgencyEscrow,
    post: StreamAgencyEscrow,
    caller: u64,
    payment: u128,
    metadata: Seq<u8>,
    fee_bps: u64,
    max_windows_per_epoch: u64,
    max_charge_per_epoch: u128,
    now_epoch: u64,
) -> bool {
    if !pre.has_agent(caller) {
        let promo = pre.promo_used < pre.config.promo_free_slots;
        let fee: u128 = if promo { 0 } else { pre.config.setup_fee };
        &&& post.config == pre.config
        &&& post.promo_used == pre.promo_used + (if promo { 1int } else { 0int })
        &&& post.claimable_owner == pre.claimable_owner + fee
        &&& post.active_agent_count == pre.active_agent_count + 1
        &&& post.agents@.len() == pre.agents@.len() + 1
        &&& (forall|k: int| 0 <= k < pre.agents@.len() ==> post.agents@[k] == pre.agents@[k])
        &&& {
            let a = post.agents@[pre.agents@.len() as int];
            &&& a.id == caller
            &&& a.bond_balance == payment - fee
            &&& a.outstanding_total == 0
            &&& a.bills@.len() == 0
            &&& a.info.fee_bps == fee_bps
            &&& a.info.max_windows_per_epoch == max_windows_per_epoch
            &&& a.info.max_charge_per_epoch == max_charge_per_epoch
            &&& a.info.credit_score == DEFAULT_INITIAL_CREDIT
            &&& a.info.status == AgentStatus::Active
            &&& a.info.used_promo == promo
            &&& a.info.joined_epoch == now_epoch
            &&& a.info.last_billed_epoch == prev_epoch(now_epoch)
            &&& a.info.metadata@ == metadata
        }
    } else {
        let i = pre.agent_index(caller);
        let acct = pre.agents@[i];
        let reactivating = acct.info.status == AgentStatus::Cancelled;
        let status1 = if reactivating { AgentStatus::Suspended } else { acct.info.status };
        let lb1 = if reactivating { prev_epoch(now_epoch) } else { acct.info.last_billed_epoch };
        let bond1 = acct.bond_balance + payment;
        let promotes = {
            &&& status1 != AgentStatus::Active
            &&& status1 != AgentStatus::Cancelled
            &&& acct.info.credit_score >= MIN_ACTIVE_CREDIT
            &&& bond1 >= pre.config.min_bond
            &&& acct.outstanding_total == 0
        };
        &&& post.config == pre.config
        &&& post.promo_used == pre.promo_used
        &&& post.claimable_owner == pre.claimable_owner
        &&& post.active_agent_count == pre.active_agent_count + (if promotes { 1int } else { 0int })
        &&& agents_fixed_except(pre, post, i)
        &&& {
            let a = post.agents@[i];
            &&& a.id == acct.id
            &&& a.bond_balance == bond1
            &&& a.outstanding_total == acct.outstanding_total
            &&& a.bills@ == acct.bills@
            &&& a.info.fee_bps == fee_bps
            &&& a.info.max_windows_per_epoch == max_windows_per_epoch
            &&& a.info.max_charge_per_epoch == max_charge_per_epoch
            &&& a.info.metadata@ == metadata
            &&& a.info.credit_score == acct.info.credit_score
            &&& a.info.used_promo == acct.info.used_promo
            &&& a.info.joined_epoch == acct.info.joined_epoch
            &&& a.info.last_billed_epoch == lb1
            &&& a.info.status == (if promotes { AgentStatus::Active } else { status1 })
        }
    }
}

/// Successful `top_up_bond`: the payment is added to the bond, nothing else
/// moves.
pub open spec fn top_up_bond_ok(
    pre: StreamAgencyEscrow,
    post: StreamAgencyEscrow,
    caller: u64,
    payment: u128,
) -> bool {
    let i = pre.agent_index(caller);
    let acct = pre.agents@[i];
    &&& globals_fixed(pre, post)
    &&& agents_fixed_except(pre, post, i)
    &&& {
        let a = post.agents@[i];
        &&& a.id == acct.id
        &&& a.bond_balance == acct.bond_balance + payment
        &&& a.outstanding_total == acct.outstanding_total
        &&& a.bills@ == acct.bills@
        &&& a.info == acct.info
    }
}

/// Successful `set_billing_guards`: the two guard fields are overwritten.
pub open spec fn set_billing_guards_ok(
    pre: StreamAgencyEscrow,
    post: StreamAgencyEscrow,
    caller: u64,
    max_windows_per_epoch: u64,
    max_charge_per_epoch: u128,
) -> bool {
    let i = pre.agent_index(caller);
    let acct = pre.agents@[i];
    &&& globals_fixed(pre, post)
    &&& agents_fixed_except(pre, post, i)
    &&& {
        let a = post.agents@[i];
        &&& same_ledger(acct, a)
        &&& a.info.fee_bps == acct.info.fee_bps
        &&& a.info.max_windows_per_epoch == max_windows_per_epoch
        &&& a.info.max_charge_per_epoch == max_charge_per_epoch
        &&& a.info.metadata@ == acct.info.metadata@
        &&& a.info.credit_score == acct.info.credit_score
        &&& a.info.used_promo == acct.info.used_promo
        &&& a.info.joined_epoch == acct.info.joined_epoch
        &&& a.info.last_billed_epoch == acct.info.last_billed_epoch
        &&& a.info.status == acct.info.status
    }
}

/// Successful `pause`: `Active` becomes `Paused`.
pub open spec fn pause_ok(pre: StreamAgencyEscrow, post: StreamAgencyEscrow, caller: u64) -> bool {
    let i = pre.agent_index(caller);
    let acct = pre.agents@[i];
    &&& post.config == pre.config
    &&& post.promo_used == pre.promo_used
    &&& post.claimable_owner == pre.claimable_owner
    &&& post.active_agent_count == pre.active_agent_count - 1
    &&& agents_fixed_except(pre, post, i)
    &&& {
        let a = post.agents@[i];
        &&& same_ledger(acct, a)
        &&& same_profile(acct.info, a.info)
        &&& a.info.credit_score == acct.info.credit_score
        &&& a.info.last_billed_epoch == acct.info.last_billed_epoch
        &&& a.info.status == AgentStatus::Paused
    }
}

/// Successful `resume_if_healthy`: `Paused` or `Suspended` becomes `Active`.
pub open spec fn resume_if_healthy_ok(
    pre: StreamAgencyEscrow,
    post: StreamAgencyEscrow,
    caller: u64,
) -> bool {
    let i = pre.agent_index(caller);
    let acct = pre.agents@[i];
    &&& post.config == pre.config
    &&& post.promo_used == pre.promo_used
    &&& post.claimable_owner == pre.claimable_owner
    &&& post.active_agent_count == pre.active_agent_count + 1
    &&& agents_fixed_except(pre, post, i)
    &&& {
        let a = post.agents@[i];
        &&& same_ledger(acct, a)
        &&& same_profile(acct.info, a.info)
        &&& a.info.credit_score == acct.info.credit_score
        &&& a.info.last_billed_epoch == acct.info.last_billed_epoch
        &&& a.info.status == AgentStatus::Active
    }
}

/// Successful `cancel_and_withdraw`: outstanding debt is settled from the
/// bond as far as it reaches, with the per-epoch record dues shrinking in
/// step, the rest of the bond is paid out, and the status becomes
/// `Cancelled`.
pub open spec fn cancel_and_withdraw_ok(
    pre: StreamAgencyEscrow,
    post: StreamAgencyEscrow,
    caller: u64,
    payout: u128,
) -> bool {
    let i = pre.agent_index(caller);
    let acct = pre.agents@[i];
    let slash = amount_min(acct.outstanding_total, acct.bond_balance);
    &&& payout == acct.bond_balance - slash
    &&& post.config == pre.config
    &&& post.promo_used == pre.promo_used
    &&& post.claimable_owner == pre.claimable_owner + slash
    &&& post.active_agent_count == pre.active_agent_count - (
        if is_active(acct) { 1int } else { 0int }
    )
    &&& agents_fixed_except(pre, post, i)
    &&& {
        let a = post.agents@[i];
        &&& a.id == acct.id
        &&& a.bond_balance == 0
        &&& a.outstanding_total == acct.outstanding_total - slash
        &&& a.bills@ == slash_dues(acct.bills@, slash as int)
        &&& same_profile(acct.info, a.info)
        &&& a.info.credit_score == acct.info.credit_score
        &&& a.info.last_billed_epoch == acct.info.last_billed_epoch
        &&& a.info.status == AgentStatus::Cancelled
    }
}

/// Successful `bill_epoch`: a fresh record in state `Billed`, the due amount
/// added to the outstanding total, the billing baseline advanced to `epoch`.
pub open spec fn bill_epoch_ok(
    pre: StreamAgencyEscrow,
    post: StreamAgencyEscrow,
    agent: u64,
    epoch: u64,
    windows: u64,
    now_epoch: u64,
) -> bool {
    let i = pre.agent_index(agent);
    let acct = pre.agents@[i];
    let due = fee_amount(pre.config.window_reward, windows, acct.info.fee_bps);
    &&& globals_fixed(pre, post)
    &&& agents_fixed_except(pre, post, i)
    &&& {
        let a = post.agents@[i];
        &&& a.id == acct.id
        &&& a.bond_balance == acct.bond_balance
        &&& a.outstanding_total == acct.outstanding_total + due
        &&& a.bills@ == acct.bills@.push(
            (BillingRecord {
                epoch,
                windows,
                due: due as u128,
                deadline: (epoch + pre.config.grace_epochs) as u64,
                score_applied: false,
                state: EpochState::Billed,
            }),
        )
        &&& same_profile(acct.info, a.info)
        &&& a.info.credit_score == acct.info.credit_score
        &&& a.info.status == acct.info.status
        &&& a.info.last_billed_epoch == epoch
    }
}

/// Successful `settle_epoch`: `min(payment, due)` moves from the caller to
/// the owner's claimable balance, any excess tops up the bond, and the
/// moment the record's due reaches zero its one-shot credit adjustment is
/// applied against the deadline. A now-healthy, non-cancelled agent is
/// promoted to `Active`.
pub open spec fn settle_epoch_ok(
    pre: StreamAgencyEscrow,
    post: StreamAgencyEscrow,
    caller: u64,
    epoch: u64,
    payment: u128,
    now_epoch: u64,
) -> bool {
    let i = pre.agent_index(caller);
    let acct = pre.agents@[i];
    let j = acct.bill_index(epoch);
    let rec = acct.bills@[j];
    let applied = amount_min(payment, rec.due);
    let remaining = rec.due - applied;
    let extra = payment - applied;
    let scoring = remaining == 0 && !rec.score_applied;
    let on_time = now_epoch <= rec.deadline;
    let new_score = if scoring {
        score_after(
            acct.info.credit_score,
            if on_time { SCORE_BONUS_ON_TIME as int } else { -(SCORE_PENALTY_LATE as int) },
        )
    } else {
        acct.info.credit_score as int
    };
    let new_state = if scoring {
        if on_time { EpochState::SettledOnTime } else { EpochState::SettledLate }
    } else {
        rec.state
    };
    let bond1 = acct.bond_balance + extra;
    let out1 = acct.outstanding_total - applied;
    let status0 = acct.info.status;
    let promotes = {
        &&& status0 != AgentStatus::Cancelled
        &&& new_score >= MIN_ACTIVE_CREDIT
        &&& bond1 >= pre.config.min_bond
        &&& out1 == 0
    };
    let enters = promotes && status0 != AgentStatus::Active;
    &&& post.config == pre.config
    &&& post.promo_used == pre.promo_used
    &&& post.claimable_owner == pre.claimable_owner + applied
    &&& post.active_agent_count == pre.active_agent_count + (if enters { 1int } else { 0int })
    &&& agents_fixed_except(pre, post, i)
    &&& {
        let a = post.agents@[i];
        &&& a.id == acct.id
        &&& a.bond_balance == bond1
        &&& a.outstanding_total == out1
        &&& a.bills@ == acct.bills@.update(
            j,
            (BillingRecord {
                due: remaining as u128,
                score_applied: rec.score_applied || scoring,
                state: new_state,
                ..rec
            }),
        )
        &&& same_profile(acct.info, a.info)
        &&& a.info.last_billed_epoch == acct.info.last_billed_epoch
        &&& a.info.credit_score == new_score
        &&& a.info.status == (if promotes { AgentStatus::Active } else { status0 })
    }
}

/// Successful `enforce_epoch`: `min(due, bond)` is slashed from the bond to
/// the owner's claimable balance; the record's one-shot credit adjustment
/// distinguishes a fully covered due (`Slashed`) from a residual one
/// (`Delinquent`); an agent that no longer passes the activation policy is
/// forced to `Suspended`, except a cancelled one, which stays cancelled.
pub open spec fn enforce_epoch_ok(
    pre: StreamAgencyEscrow,
    post: StreamAgencyEscrow,
    agent: u64,
    epoch: u64,
    now_epoch: u64,
) -> bool {
    let i = pre.agent_index(agent);
    let acct = pre.agents@[i];
    let j = acct.bill_index(epoch);
    let rec = acct.bills@[j];
    let slash = amount_min(rec.due, acct.bond_balance);
    let due1 = rec.due - slash;
    let bond1 = acct.bond_balance - slash;
    let out1 = acct.outstanding_total - slash;
    let scoring = !rec.score_applied;
    let fully = due1 == 0;
    let new_score = if scoring {
        score_after(
            acct.info.credit_score,
            if fully { -(SCORE_PENALTY_SLASHED as int) } else { -(SCORE_PENALTY_DELINQUENT as int) },
        )
    } else {
        acct.info.credit_score as int
    };
    let new_state = if scoring {
        if fully { EpochState::Slashed } else { EpochState::Delinquent }
    } else {
        rec.state
    };
    let status0 = acct.info.status;
    let healthy = {
        &&& status0 != AgentStatus::Cancelled
        &&& new_score >= MIN_ACTIVE_CREDIT
        &&& bond1 >= pre.config.min_bond
        &&& out1 == 0
    };
    let leaves = !healthy && status0 == AgentStatus::Active;
    &&& post.config == pre.config
    &&& post.promo_used == pre.promo_used
    &&& post.claimable_owner == pre.claimable_owner + slash
    &&& post.active_agent_count == pre.active_agent_count - (if leaves { 1int } else { 0int })
    &&& agents_fixed_except(pre, post, i)
    &&& {
        let a = post.agents@[i];
        &&& a.id == acct.id
        &&& a.bond_balance == bond1
        &&& a.outstanding_total == out1
        &&& a.bills@ == acct.bills@.update(
            j,
            (BillingRecord {
                due: due1 as u128,
                score_applied: true,
                state: new_state,
                ..rec
            }),
        )
        &&& same_profile(acct.info, a.info)
        &&& a.info.last_billed_epoch == acct.info.last_billed_epoch
        &&& a.info.credit_score == new_score
        &&& a.info.status == (if healthy || status0 == AgentStatus::Cancelled {
            status0
        } else {
            AgentStatus::Suspended
        })
    }
}

/// Successful `withdraw_owner`: the amount leaves the claimable balance.
pub open spec fn withdraw_owner_ok(
    pre: StreamAgencyEscrow,
    post: StreamAgencyEscrow,
    amount: u128,
) -> bool {
    &&& post.config == pre.config
    &&& post.promo_used == pre.promo_used
    &&& post.claimable_owner == pre.claimable_owner - amount
    &&& post.active_agent_count == pre.active_agent_count
    &&& post.agents@ == pre.agents@
}

/// Successful configuration change: only the configuration moves, to the
/// given value.
pub open spec fn config_update_ok(
    pre: StreamAgencyEscrow,
    post: StreamAgencyEscrow,
    new_config: Config,
) -> bool {
    &&& post.config == new_config
    &&& post.promo_used == pre.promo_used
    &&& post.claimable_owner == pre.claimable_owner
    &&& post.active_agent_count == pre.active_agent_count
    &&& post.agents@ == pre.agents@
}

} // verus!
