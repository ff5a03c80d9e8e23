//! The escrow engine itself: one value of `StreamAgencyEscrow` holds the
//! whole persistent state, and each operation of the endpoint
//! surface is a method that takes the host-supplied facts (caller identity,
//! attached payment, current epoch) as plain arguments. A call either
//! satisfies every validation and commits, or returns an error and leaves
//! the state untouched.

use vstd::prelude::*;
use crate::types::AgentStatus;
use crate::types::EpochState;
use crate::types::EscrowError;
use crate::types::AgentAccount;
use crate::types::AgentInfo;
use crate::types::BillingRecord;
use crate::types::Config;
use crate::types::amount_min;
use crate::types::count_active;
use crate::types::fee_amount;
use crate::types::is_active;
use crate::types::score_after;
use crate::types::slash_dues;
use crate::types::sum_due;
use crate::types::lemma_count_active_bounds;
use crate::types::lemma_count_active_elem;
use crate::types::lemma_count_active_push;
use crate::types::lemma_count_active_update;
use crate::types::lemma_sum_due_ge_elem;
use crate::types::lemma_slash_dues_fields;
use crate::types::lemma_slash_dues_sum;
use crate::types::lemma_sum_due_push;
use crate::types::lemma_sum_due_update;
use crate::types::BPS_DENOMINATOR;
use crate::types::DEFAULT_INITIAL_CREDIT;
use crate::types::MAX_CREDIT;
use crate::types::MIN_ACTIVE_CREDIT;
use crate::types::SCORE_BONUS_ON_TIME;
use crate::types::SCORE_PENALTY_LATE;
use crate::types::SCORE_PENALTY_SLASHED;
use crate::types::SCORE_PENALTY_DELINQUENT;
use crate::types::STATUS_ACTIVE;
use crate::types::STATUS_PAUSED;
use crate::types::STATUS_SUSPENDED;
use crate::types::STATUS_CANCELLED;
use crate::transitions::agents_fixed_except;
use crate::transitions::bill_epoch_ok;
use crate::transitions::cancel_and_withdraw_ok;
use crate::transitions::config_update_ok;
use crate::transitions::enforce_epoch_ok;
use crate::transitions::init_err;
use crate::transitions::pause_ok;
use crate::transitions::register_ok;
use crate::transitions::resume_if_healthy_ok;
use crate::transitions::same_ledger;
use crate::transitions::same_profile;
use crate::transitions::set_billing_guards_ok;
use crate::transitions::set_status_ok;
use crate::transitions::settle_epoch_ok;
use crate::transitions::top_up_bond_ok;
use crate::transitions::withdraw_owner_ok;

verus! {

/// Numeric code of a status in status-change notifications.
pub open spec fn status_code_spec(status: AgentStatus) -> u64 {
    match status {
        AgentStatus::Active => STATUS_ACTIVE,
        AgentStatus::Paused => STATUS_PAUSED,
        AgentStatus::Suspended => STATUS_SUSPENDED,
        AgentStatus::Cancelled => STATUS_CANCELLED,
    }
}

/// The whole persistent state of the escrow-and-billing engine.
#[derive(Debug)]
pub struct StreamAgencyEscrow {
    pub config: Config,
    /// How many promotional fee waivers have been consumed.
    pub promo_used: u64,
    /// Fees, settled charges and slashes awaiting owner withdrawal.
    pub claimable_owner: u128,
    /// Live population in `Active` status, maintained incrementally.
    pub active_agent_count: u64,
    /// One account per registered identity; never shrinks.
    pub agents: Vec<AgentAccount>,
}

impl StreamAgencyEscrow {
    /// No two accounts share an identity.
    pub open spec fn ids_distinct(self) -> bool {
        forall|p: int, q: int|
            0 <= p < q < self.agents@.len() ==> self.agents@[p].id != self.agents@[q].id
    }

    /// Whether `id` has ever registered.
    pub open spec fn has_agent(self, id: u64) -> bool {
        exists|i: int| 0 <= i < self.agents@.len() && self.agents@[i].id == id
    }

    /// Index of the account of `id`; meaningful when `has_agent`.
    pub open spec fn agent_index(self, id: u64) -> int {
        choose|i: int| 0 <= i < self.agents@.len() && self.agents@[i].id == id
    }

    /// The account of `id`; meaningful when `has_agent`.
    pub open spec fn agent_of(self, id: u64) -> AgentAccount {
        self.agents@[self.agent_index(id)]
    }

    /// Bond balance of `id`, zero for an unknown identity.
    pub open spec fn bond_of(self, id: u64) -> u128 {
        if self.has_agent(id) {
            self.agent_of(id).bond_balance
        } else {
            0
        }
    }

    /// Outstanding total of `id`, zero for an unknown identity.
    pub open spec fn outstanding_of(self, id: u64) -> u128 {
        if self.has_agent(id) {
            self.agent_of(id).outstanding_total
        } else {
            0
        }
    }

    /// Whether a billing record exists for the pair (`id`, `epoch`).
    pub open spec fn has_bill_for(self, id: u64, epoch: u64) -> bool {
        self.has_agent(id) && self.agent_of(id).has_bill(epoch)
    }

    /// The billing record of the pair; meaningful when `has_bill_for`.
    pub open spec fn bill_for(self, id: u64, epoch: u64) -> BillingRecord {
        self.agent_of(id).bill(epoch)
    }

    /// Remaining due of the pair, zero when no record exists.
    pub open spec fn epoch_due_of(self, id: u64, epoch: u64) -> u128 {
        if self.has_bill_for(id, epoch) {
            self.bill_for(id, epoch).due
        } else {
            0
        }
    }

    /// The activation policy: the single predicate consulted before any
    /// automatic promotion to `Active`.
    pub open spec fn can_be_active_spec(self, id: u64) -> bool {
        &&& self.has_agent(id)
        &&& self.agent_of(id).info.status != AgentStatus::Cancelled
        &&& self.agent_of(id).info.credit_score >= MIN_ACTIVE_CREDIT
        &&& self.agent_of(id).bond_balance >= self.config.min_bond
        &&& self.agent_of(id).outstanding_total == 0
    }

    /// Well-formedness of the whole state: valid configuration, distinct
    /// identities, well-formed accounts, and an active-agent counter that
    /// equals the live `Active` population.
    pub open spec fn wf(self) -> bool {
        &&& self.config.wf()
        &&& self.ids_distinct()
        &&& forall|i: int| 0 <= i < self.agents@.len() ==> (#[trigger] self.agents@[i]).wf()
        &&& self.active_agent_count as int == count_active(self.agents@)
    }
}

/// Re-establishes well-formedness after exactly one account changed in
/// place, keeping its identity.
pub proof fn lemma_wf_one_change(pre: StreamAgencyEscrow, post: StreamAgencyEscrow, i: int)
    requires
        pre.wf(),
        0 <= i < pre.agents@.len(),
        post.config == pre.config,
        agents_fixed_except(pre, post, i),
        post.agents@[i].id == pre.agents@[i].id,
        post.agents@[i].wf(),
        post.active_agent_count as int == pre.active_agent_count as int - (
        if is_active(pre.agents@[i]) {
            1int
        } else {
            0int
        }) + (
        if is_active(post.agents@[i]) {
            1int
        } else {
            0int
        }),
    ensures
        post.wf(),
{
    assert(post.agents@ =~= pre.agents@.update(i, post.agents@[i]));
    lemma_count_active_update(pre.agents@, i, post.agents@[i]);
    assert forall|p: int, q: int|
        0 <= p < q < post.agents@.len() implies post.agents@[p].id != post.agents@[q].id by {
        assert(pre.agents@[p].id != pre.agents@[q].id);
    }
    assert forall|k: int| 0 <= k < post.agents@.len() implies (#[trigger] post.agents@[k]).wf() by {
        if k != i {
            assert(post.agents@[k] == pre.agents@[k]);
            assert(pre.agents@[k].wf());
        }
    }
}

/// Re-establishes well-formedness after one fresh account was appended.
pub proof fn lemma_wf_push(pre: StreamAgencyEscrow, post: StreamAgencyEscrow)
    requires
        pre.wf(),
        post.config == pre.config,
        post.agents@.len() == pre.agents@.len() + 1,
        forall|k: int| 0 <= k < pre.agents@.len() ==> post.agents@[k] == pre.agents@[k],
        post.agents@[pre.agents@.len() as int].wf(),
        !pre.has_agent(post.agents@[pre.agents@.len() as int].id),
        post.active_agent_count as int == pre.active_agent_count as int + (
        if is_active(post.agents@[pre.agents@.len() as int]) {
            1int
        } else {
            0int
        }),
    ensures
        post.wf(),
{
    let n = pre.agents@.len() as int;
    let fresh = post.agents@[n];
    assert(post.agents@ =~= pre.agents@.push(fresh));
    lemma_count_active_push(pre.agents@, fresh);
    assert forall|p: int, q: int|
        0 <= p < q < post.agents@.len() implies post.agents@[p].id != post.agents@[q].id by {
        if q < n {
            assert(pre.agents@[p].id != pre.agents@[q].id);
        } else {
            assert(post.agents@[p] == pre.agents@[p]);
            assert(!(0 <= p < pre.agents@.len() && pre.agents@[p].id == fresh.id));
        }
    }
    assert forall|k: int| 0 <= k < post.agents@.len() implies (#[trigger] post.agents@[k]).wf() by {
        if k < n {
            assert(post.agents@[k] == pre.agents@[k]);
            assert(pre.agents@[k].wf());
        }
    }
}

/// With distinct identities, an index holding `id` is the index the spec
/// helpers name.
pub proof fn lemma_agent_index_unique(s: StreamAgencyEscrow, i: int, id: u64)
    requires
        s.ids_distinct(),
        0 <= i < s.agents@.len(),
        s.agents@[i].id == id,
    ensures
        s.has_agent(id),
        s.agent_index(id) == i,
{
    assert(s.has_agent(id));
    let j = s.agent_index(id);
    assert(0 <= j < s.agents@.len() && s.agents@[j].id == id);
    if j != i {
        assert(false);
    }
}

/// With distinct epochs, an index holding `epoch` is the index the spec
/// helpers name.
pub proof fn lemma_bill_index_unique(acct: AgentAccount, j: int, epoch: u64)
    requires
        acct.bills_distinct(),
        0 <= j < acct.bills@.len(),
        acct.bills@[j].epoch == epoch,
    ensures
        acct.has_bill(epoch),
        acct.bill_index(epoch) == j,
{
    assert(acct.has_bill(epoch));
    let k = acct.bill_index(epoch);
    assert(0 <= k < acct.bills@.len() && acct.bills@[k].epoch == epoch);
    if k != j {
        assert(false);
    }
}

/// The smaller of two amounts; every capped debit goes through this.
pub fn min_amount(a: u128, b: u128) -> (r: u128)
    ensures
        r == amount_min(a, b),
{
    if a <= b {
        a
    } else {
        b
    }
}

/// Position of the record for `epoch` among an account's billing records.
pub fn bill_position(acct: &AgentAccount, epoch: u64) -> (r: Option<usize>)
    requires
        acct.bills_distinct(),
    ensures
        match r {
            Some(j) => acct.has_bill(epoch) && (j as int) < acct.bills@.len() && j as int
                == acct.bill_index(epoch) && acct.bills@[j as int].epoch == epoch,
            None => !acct.has_bill(epoch),
        },
{
    let n = acct.bills.len();
    let mut k: usize = 0;
    while k < n
        invariant
            n == acct.bills@.len(),
            k <= n,
            acct.bills_distinct(),
            forall|j: int| 0 <= j < k ==> acct.bills@[j].epoch != epoch,
        decreases n - k,
    {
        if acct.bills[k].epoch == epoch {
            proof {
                assert(acct.has_bill(epoch));
                let j = acct.bill_index(epoch);
                assert(0 <= j < acct.bills@.len() && acct.bills@[j].epoch == epoch);
                if j != k as int {
                    assert(false);
                }
            }
            return Some(k);
        }
        k += 1;
    }
    None
}

impl StreamAgencyEscrow {
    /// Position of the account of `id`.
    pub fn agent_position(&self, id: u64) -> (r: Option<usize>)
        requires
            self.ids_distinct(),
        ensures
            match r {
                Some(i) => self.has_agent(id) && (i as int) < self.agents@.len() && i as int
                    == self.agent_index(id) && self.agents@[i as int].id == id,
                None => !self.has_agent(id),
            },
    {
        let n = self.agents.len();
        let mut k: usize = 0;
        while k < n
            invariant
                n == self.agents@.len(),
                k <= n,
                self.ids_distinct(),
                forall|j: int| 0 <= j < k ==> self.agents@[j].id != id,
            decreases n - k,
        {
            if self.agents[k].id == id {
                proof {
                    assert(self.has_agent(id));
                    let j = self.agent_index(id);
                    assert(0 <= j < self.agents@.len() && self.agents@[j].id == id);
                    if j != k as int {
                        assert(false);
                    }
                }
                return Some(k);
            }
            k += 1;
        }
        None
    }

    /// Sets up a fresh engine. The host passes the deploying caller, who
    /// becomes the owner.
    pub fn init(
        caller: u64,
        operator: u64,
        window_reward: u128,
        setup_fee: u128,
        min_bond: u128,
        promo_free_slots: u64,
        grace_epochs: u64,
        max_backbill_epochs: u64,
        hard_max_windows_per_epoch: u64,
    ) -> (r: Result<StreamAgencyEscrow, EscrowError>)
        requires
            caller != 0,
        ensures
            init_err(
                operator,
                window_reward,
                setup_fee,
                min_bond,
                grace_epochs,
                max_backbill_epochs,
                hard_max_windows_per_epoch,
            ) matches Some(e) ==> r == Err::<StreamAgencyEscrow, EscrowError>(e),
            init_err(
                operator,
                window_reward,
                setup_fee,
                min_bond,
                grace_epochs,
                max_backbill_epochs,
                hard_max_windows_per_epoch,
            ) is None ==> (r matches Ok(s) && s.wf() && s.config == (Config {
                owner: caller,
                operator,
                window_reward,
                setup_fee,
                min_bond,
                promo_free_slots,
                grace_epochs,
                max_backbill_epochs,
                hard_max_windows_per_epoch,
            }) && s.promo_used == 0 && s.claimable_owner == 0 && s.active_agent_count == 0
                && s.agents@.len() == 0),
    {
        if operator == 0 {
            return Err(EscrowError::InvalidOperator);
        }
        if window_reward == 0 {
            return Err(EscrowError::InvalidWindowReward);
        }
        if setup_fee == 0 {
            return Err(EscrowError::InvalidSetupFee);
        }
        if min_bond == 0 {
            return Err(EscrowError::InvalidMinBond);
        }
        if grace_epochs == 0 {
            return Err(EscrowError::InvalidGraceEpochs);
        }
        if max_backbill_epochs == 0 {
            return Err(EscrowError::InvalidBackbillLimit);
        }
        if hard_max_windows_per_epoch == 0 {
            return Err(EscrowError::InvalidWindowHardCap);
        }
        let s = StreamAgencyEscrow {
            config: Config {
                owner: caller,
                operator,
                window_reward,
                setup_fee,
                min_bond,
                promo_free_slots,
                grace_epochs,
                max_backbill_epochs,
                hard_max_windows_per_epoch,
            },
            promo_used: 0,
            claimable_owner: 0,
            active_agent_count: 0,
            agents: Vec::new(),
        };
        proof {
            assert(count_active(s.agents@) == 0);
        }
        Ok(s)
    }

    /// Upgrade hook of the endpoint surface; carries no behavior.
    pub fn upgrade(&mut self)
        ensures
            *final(self) == *old(self),
    {
    }

    /// The profile of `agent`, if it ever registered.
    pub fn get_agent_info_view(&self, agent: u64) -> (r: Option<&AgentInfo>)
        requires
            self.wf(),
        ensures
            match r {
                Some(info) => self.has_agent(agent) && *info == self.agent_of(agent).info,
                None => !self.has_agent(agent),
            },
    {
        match self.agent_position(agent) {
            Some(i) => Some(&self.agents[i].info),
            None => None,
        }
    }

    /// Bond balance and outstanding total of `agent`; zeros for an unknown
    /// identity.
    pub fn get_agent_financials_view(&self, agent: u64) -> (r: (u128, u128))
        requires
            self.wf(),
        ensures
            r.0 == self.bond_of(agent),
            r.1 == self.outstanding_of(agent),
    {
        match self.agent_position(agent) {
            Some(i) => (self.agents[i].bond_balance, self.agents[i].outstanding_total),
            None => (0, 0),
        }
    }

    /// Remaining due of the pair; zero when nothing was billed.
    pub fn get_epoch_debt_view(&self, agent: u64, epoch: u64) -> (r: u128)
        requires
            self.wf(),
        ensures
            r == self.epoch_due_of(agent, epoch),
    {
        match self.agent_position(agent) {
            Some(i) => {
                match bill_position(&self.agents[i], epoch) {
                    Some(j) => self.agents[i].bills[j].due,
                    None => 0,
                }
            },
            None => 0,
        }
    }

    /// State of the pair, if it was ever billed.
    pub fn get_epoch_state_view(&self, agent: u64, epoch: u64) -> (r: Option<EpochState>)
        requires
            self.wf(),
        ensures
            match r {
                Some(st) => self.has_bill_for(agent, epoch) && st == self.bill_for(
                    agent,
                    epoch,
                ).state,
                None => !self.has_bill_for(agent, epoch),
            },
    {
        match self.agent_position(agent) {
            Some(i) => {
                match bill_position(&self.agents[i], epoch) {
                    Some(j) => Some(self.agents[i].bills[j].state),
                    None => None,
                }
            },
            None => None,
        }
    }

    /// Accumulated owner-due funds awaiting withdrawal.
    pub fn get_claimable_owner_view(&self) -> (r: u128)
        ensures
            r == self.claimable_owner,
    {
        self.claimable_owner
    }

    /// Snapshot of the global configuration.
    pub fn get_config_view(&self) -> (r: Config)
        ensures
            r == self.config,
    {
        self.config
    }

    /// Consumed promotional waivers, and the configured slot count.
    pub fn get_promo_usage_view(&self) -> (r: (u64, u64))
        ensures
            r.0 == self.promo_used,
            r.1 == self.config.promo_free_slots,
    {
        (self.promo_used, self.config.promo_free_slots)
    }

    /// Live population in `Active` status.
    pub fn get_active_agent_count_view(&self) -> (r: u64)
        ensures
            r == self.active_agent_count,
    {
        self.active_agent_count
    }

    /// Whether `agent` currently qualifies for `Active` status.
    pub fn can_be_active(&self, agent: u64) -> (r: bool)
        requires
            self.ids_distinct(),
        ensures
            r == self.can_be_active_spec(agent),
    {
        match self.agent_position(agent) {
            None => false,
            Some(i) => {
                let a = &self.agents[i];
                a.info.status != AgentStatus::Cancelled && a.info.credit_score >= MIN_ACTIVE_CREDIT
                    && a.bond_balance >= self.config.min_bond && a.outstanding_total == 0
            },
        }
    }

    /// Numeric code of a status, as carried by status-change notifications.
    pub fn status_to_code(&self, status: &AgentStatus) -> (r: u64)
        ensures
            r == status_code_spec(*status),
    {
        match status {
            AgentStatus::Active => STATUS_ACTIVE,
            AgentStatus::Paused => STATUS_PAUSED,
            AgentStatus::Suspended => STATUS_SUSPENDED,
            AgentStatus::Cancelled => STATUS_CANCELLED,
        }
    }

    /// Moves `agent` to `next`, adjusting the active-agent counter; a no-op
    /// when the status is unchanged.
    pub fn set_status(&mut self, agent: u64, next: AgentStatus)
        requires
            old(self).wf(),
            old(self).has_agent(agent),
        ensures
            final(self).wf(),
            set_status_ok(*old(self), *final(self), agent, next),
    {
        match self.agent_position(agent) {
            None => {
                proof {
                    assert(false);
                }
            },
            Some(i) => {
                let prev = self.agents[i].info.status;
                if prev == next {
                    return ;
                }
                let _len = self.agents.len();
                proof {
                    lemma_count_active_elem(self.agents@, i as int);
                }
                if prev == AgentStatus::Active {
                    if self.active_agent_count > 0 {
                        self.active_agent_count = self.active_agent_count - 1;
                    }
                }
                if next == AgentStatus::Active {
                    self.active_agent_count = self.active_agent_count + 1;
                }
                let a = &mut self.agents[i];
                a.info.status = next;
                proof {
                    lemma_wf_one_change(*old(self), *self, i as int);
                }
            },
        }
    }

    /// Applies a bounded credit-score delta: increases clamp at the maximum
    /// score, decreases saturate at zero.
    pub fn apply_credit_delta(&mut self, agent: u64, delta: i64)
        requires
            old(self).wf(),
            old(self).has_agent(agent),
            delta != i64::MIN,
        ensures
            final(self).wf(),
            final(self).config == old(self).config,
            final(self).promo_used == old(self).promo_used,
            final(self).claimable_owner == old(self).claimable_owner,
            final(self).active_agent_count == old(self).active_agent_count,
            agents_fixed_except(*old(self), *final(self), old(self).agent_index(agent)),
            ({
                let acct = old(self).agent_of(agent);
                let a = final(self).agents@[old(self).agent_index(agent)];
                &&& same_ledger(acct, a)
                &&& same_profile(acct.info, a.info)
                &&& a.info.status == acct.info.status
                &&& a.info.last_billed_epoch == acct.info.last_billed_epoch
                &&& a.info.credit_score == score_after(acct.info.credit_score, delta as int)
            }),
    {
        match self.agent_position(agent) {
            None => {
                proof {
                    assert(false);
                }
            },
            Some(i) => {
                let score = self.agents[i].info.credit_score;
                let new_score: u64 = if delta >= 0 {
                    let add = delta as u64;
                    let capped = if score > u64::MAX - add {
                        u64::MAX
                    } else {
                        score + add
                    };
                    if capped > MAX_CREDIT {
                        MAX_CREDIT
                    } else {
                        capped
                    }
                } else {
                    let sub = (-delta) as u64;
                    if score < sub {
                        0
                    } else {
                        score - sub
                    }
                };
                let a = &mut self.agents[i];
                a.info.credit_score = new_score;
                proof {
                    lemma_wf_one_change(*old(self), *self, i as int);
                }
            },
        }
    }

    /// Adds the attached payment to the caller's bond; no status effects.
    pub fn top_up_bond(&mut self, caller: u64, payment: u128) -> (r: Result<(), EscrowError>)
        requires
            old(self).wf(),
            old(self).bond_of(caller) + payment <= u128::MAX,
        ensures
            final(self).wf(),
            old(self).top_up_bond_err(caller, payment) matches Some(e) ==> r == Err::<
                (),
                EscrowError,
            >(e) && *final(self) == *old(self),
            old(self).top_up_bond_err(caller, payment) is None ==> r is Ok && top_up_bond_ok(
                *old(self),
                *final(self),
                caller,
                payment,
            ),
    {
        match self.agent_position(caller) {
            None => Err(EscrowError::AgentNotEnrolled),
            Some(i) => {
                if payment == 0 {
                    return Err(EscrowError::PaymentRequired);
                }
                if self.agents[i].info.status == AgentStatus::Cancelled {
                    return Err(EscrowError::AgentCancelled);
                }
                let a = &mut self.agents[i];
                a.bond_balance = a.bond_balance + payment;
                proof {
                    lemma_wf_one_change(*old(self), *self, i as int);
                }
                Ok(())
            },
        }
    }

    /// Overwrites the caller's per-epoch billing guards.
    pub fn set_billing_guards(
        &mut self,
        caller: u64,
        max_windows_per_epoch: u64,
        max_charge_per_epoch: u128,
    ) -> (r: Result<(), EscrowError>)
        requires
            old(self).wf(),
        ensures
            final(self).wf(),
            old(self).set_billing_guards_err(caller, max_windows_per_epoch, max_charge_per_epoch)
                matches Some(e) ==> r == Err::<(), EscrowError>(e) && *final(self) == *old(self),
            old(self).set_billing_guards_err(caller, max_windows_per_epoch, max_charge_per_epoch)
                is None ==> r is Ok && set_billing_guards_ok(
                *old(self),
                *final(self),
                caller,
                max_windows_per_epoch,
                max_charge_per_epoch,
            ),
    {
        match self.agent_position(caller) {
            None => Err(EscrowError::AgentNotEnrolled),
            Some(i) => {
                if max_windows_per_epoch == 0 {
                    return Err(EscrowError::InvalidMaxWindows);
                }
                if max_windows_per_epoch > self.config.hard_max_windows_per_epoch {
                    return Err(EscrowError::MaxWindowsExceedsHardCap);
                }
                if max_charge_per_epoch == 0 {
                    return Err(EscrowError::InvalidMaxCharge);
                }
                if self.agents[i].info.status == AgentStatus::Cancelled {
                    return Err(EscrowError::AgentCancelled);
                }
                let a = &mut self.agents[i];
                a.info.max_windows_per_epoch = max_windows_per_epoch;
                a.info.max_charge_per_epoch = max_charge_per_epoch;
                proof {
                    lemma_wf_one_change(*old(self), *self, i as int);
                }
                Ok(())
            },
        }
    }

    /// Moves an `Active` caller to `Paused`.
    pub fn pause(&mut self, caller: u64) -> (r: Result<(), EscrowError>)
        requires
            old(self).wf(),
        ensures
            final(self).wf(),
            old(self).pause_err(caller) matches Some(e) ==> r == Err::<(), EscrowError>(e)
                && *final(self) == *old(self),
            old(self).pause_err(caller) is None ==> r is Ok && pause_ok(
                *old(self),
                *final(self),
                caller,
            ),
    {
        match self.agent_position(caller) {
            None => Err(EscrowError::AgentNotEnrolled),
            Some(i) => {
                if self.agents[i].info.status != AgentStatus::Active {
                    return Err(EscrowError::NotActive);
                }
                self.set_status(caller, AgentStatus::Paused);
                Ok(())
            },
        }
    }

    /// Moves a `Paused` or `Suspended` caller back to `Active`, provided the
    /// activation policy passes; fails otherwise.
    pub fn resume_if_healthy(&mut self, caller: u64) -> (r: Result<(), EscrowError>)
        requires
            old(self).wf(),
        ensures
            final(self).wf(),
            old(self).resume_if_healthy_err(caller) matches Some(e) ==> r == Err::<
                (),
                EscrowError,
            >(e) && *final(self) == *old(self),
            old(self).resume_if_healthy_err(caller) is None ==> r is Ok && resume_if_healthy_ok(
                *old(self),
                *final(self),
                caller,
            ),
    {
        match self.agent_position(caller) {
            None => Err(EscrowError::AgentNotEnrolled),
            Some(i) => {
                let status = self.agents[i].info.status;
                if status != AgentStatus::Paused && status != AgentStatus::Suspended {
                    return Err(EscrowError::NotPausedOrSuspended);
                }
                if !self.can_be_active(caller) {
                    return Err(EscrowError::HealthChecksFailed);
                }
                self.set_status(caller, AgentStatus::Active);
                Ok(())
            },
        }
    }

    /// Owner-only withdrawal from the claimable balance; the host transfers
    /// the amount to `to` after the call commits.
    pub fn withdraw_owner(&mut self, caller: u64, amount: u128, to: u64) -> (r: Result<
        (),
        EscrowError,
    >)
        requires
            old(self).wf(),
        ensures
            final(self).wf(),
            old(self).withdraw_owner_err(caller, amount, to) matches Some(e) ==> r == Err::<
                (),
                EscrowError,
            >(e) && *final(self) == *old(self),
            old(self).withdraw_owner_err(caller, amount, to) is None ==> r is Ok
                && withdraw_owner_ok(*old(self), *final(self), amount),
    {
        if caller != self.config.owner {
            return Err(EscrowError::OnlyOwner);
        }
        if amount == 0 {
            return Err(EscrowError::InvalidAmount);
        }
        if to == 0 {
            return Err(EscrowError::InvalidRecipient);
        }
        if self.claimable_owner < amount {
            return Err(EscrowError::InsufficientClaimable);
        }
        self.claimable_owner = self.claimable_owner - amount;
        Ok(())
    }

    /// Owner-only: replaces the operator identity.
    pub fn set_operator(&mut self, caller: u64, new_operator: u64) -> (r: Result<(), EscrowError>)
        requires
            old(self).wf(),
        ensures
            final(self).wf(),
            old(self).set_operator_err(caller, new_operator) matches Some(e) ==> r == Err::<
                (),
                EscrowError,
            >(e) && *final(self) == *old(self),
            old(self).set_operator_err(caller, new_operator) is None ==> r is Ok
                && config_update_ok(
                *old(self),
                *final(self),
                (Config { operator: new_operator, ..old(self).config }),
            ),
    {
        if caller != self.config.owner {
            return Err(EscrowError::OnlyOwner);
        }
        if new_operator == 0 {
            return Err(EscrowError::InvalidOperator);
        }
        self.config.operator = new_operator;
        Ok(())
    }

    /// Owner-only: replaces the owner identity.
    pub fn set_owner(&mut self, caller: u64, new_owner: u64) -> (r: Result<(), EscrowError>)
        requires
            old(self).wf(),
        ensures
            final(self).wf(),
            old(self).set_owner_err(caller, new_owner) matches Some(e) ==> r == Err::<
                (),
                EscrowError,
            >(e) && *final(self) == *old(self),
            old(self).set_owner_err(caller, new_owner) is None ==> r is Ok && config_update_ok(
                *old(self),
                *final(self),
                (Config { owner: new_owner, ..old(self).config }),
            ),
    {
        if caller != self.config.owner {
            return Err(EscrowError::OnlyOwner);
        }
        if new_owner == 0 {
            return Err(EscrowError::InvalidOwner);
        }
        self.config.owner = new_owner;
        Ok(())
    }

    /// Owner-only: replaces the per-window reward rate.
    pub fn set_window_reward(&mut self, caller: u64, window_reward: u128) -> (r: Result<
        (),
        EscrowError,
    >)
        requires
            old(self).wf(),
        ensures
            final(self).wf(),
            old(self).set_window_reward_err(caller, window_reward) matches Some(e) ==> r == Err::<
                (),
                EscrowError,
            >(e) && *final(self) == *old(self),
            old(self).set_window_reward_err(caller, window_reward) is None ==> r is Ok
                && config_update_ok(
                *old(self),
                *final(self),
                (Config { window_reward, ..old(self).config }),
            ),
    {
        if caller != self.config.owner {
            return Err(EscrowError::OnlyOwner);
        }
        if window_reward == 0 {
            return Err(EscrowError::InvalidWindowReward);
        }
        self.config.window_reward = window_reward;
        Ok(())
    }

    /// Owner-only: replaces the promotional slot count.
    pub fn set_promo_slots(&mut self, caller: u64, promo_free_slots: u64) -> (r: Result<
        (),
        EscrowError,
    >)
        requires
            old(self).wf(),
        ensures
            final(self).wf(),
            old(self).set_promo_slots_err(caller) matches Some(e) ==> r == Err::<(), EscrowError>(e)
                && *final(self) == *old(self),
            old(self).set_promo_slots_err(caller) is None ==> r is Ok && config_update_ok(
                *old(self),
                *final(self),
                (Config { promo_free_slots, ..old(self).config }),
            ),
    {
        if caller != self.config.owner {
            return Err(EscrowError::OnlyOwner);
        }
        self.config.promo_free_slots = promo_free_slots;
        Ok(())
    }

    /// Owner-only: replaces the back-billing window.
    pub fn set_max_backbill_epochs(&mut self, caller: u64, max_backbill_epochs: u64) -> (r: Result<
        (),
        EscrowError,
    >)
        requires
            old(self).wf(),
        ensures
            final(self).wf(),
            old(self).set_max_backbill_epochs_err(caller, max_backbill_epochs) matches Some(e)
                ==> r == Err::<(), EscrowError>(e) && *final(self) == *old(self),
            old(self).set_max_backbill_epochs_err(caller, max_backbill_epochs) is None ==> r is Ok
                && config_update_ok(
                *old(self),
                *final(self),
                (Config { max_backbill_epochs, ..old(self).config }),
            ),
    {
        if caller != self.config.owner {
            return Err(EscrowError::OnlyOwner);
        }
        if max_backbill_epochs == 0 {
            return Err(EscrowError::InvalidBackbillLimit);
        }
        self.config.max_backbill_epochs = max_backbill_epochs;
        Ok(())
    }

    /// Owner-only: replaces the global hard cap on windows per epoch.
    pub fn set_hard_max_windows_per_epoch(
        &mut self,
        caller: u64,
        hard_max_windows_per_epoch: u64,
    ) -> (r: Result<(), EscrowError>)
        requires
            old(self).wf(),
        ensures
            final(self).wf(),
            old(self).set_hard_max_windows_per_epoch_err(caller, hard_max_windows_per_epoch)
                matches Some(e) ==> r == Err::<(), EscrowError>(e) && *final(self) == *old(self),
            old(self).set_hard_max_windows_per_epoch_err(caller, hard_max_windows_per_epoch)
                is None ==> r is Ok && config_update_ok(
                *old(self),
                *final(self),
                (Config { hard_max_windows_per_epoch, ..old(self).config }),
            ),
    {
        if caller != self.config.owner {
            return Err(EscrowError::OnlyOwner);
        }
        if hard_max_windows_per_epoch == 0 {
            return Err(EscrowError::InvalidWindowHardCap);
        }
        self.config.hard_max_windows_per_epoch = hard_max_windows_per_epoch;
        Ok(())
    }

    /// Amount due for `windows` at `fee_bps`, from the configured reward;
    /// rejects an amount that truncates to zero.
    pub fn compute_fee_amount(&self, windows: u64, fee_bps: u64) -> (r: Result<u128, EscrowError>)
        requires
            self.config.window_reward as int * windows as int <= u128::MAX,
            self.config.window_reward as int * windows as int * fee_bps as int <= u128::MAX,
        ensures
            fee_amount(self.config.window_reward, windows, fee_bps) >= 0,
            fee_amount(self.config.window_reward, windows, fee_bps) == 0 ==> r == Err::<
                u128,
                EscrowError,
            >(EscrowError::FeeRoundsToZero),
            fee_amount(self.config.window_reward, windows, fee_bps) != 0 ==> r == Ok::<
                u128,
                EscrowError,
            >(fee_amount(self.config.window_reward, windows, fee_bps) as u128),
    {
        let mut fee = self.config.window_reward;
        fee = fee * (windows as u128);
        fee = fee * (fee_bps as u128);
        fee = fee / (BPS_DENOMINATOR as u128);
        if fee == 0 {
            Err(EscrowError::FeeRoundsToZero)
        } else {
            Ok(fee)
        }
    }

    /// Payable registration. First-time callers enroll (a promotional slot,
    /// if one is free, waives the one-time setup fee; the payment must cover
    /// the charged fee plus the minimum bond, and the excess over the fee
    /// becomes the initial bond). A cancelled caller with no outstanding
    /// debt reactivates into `Suspended`. In every existing-agent path the
    /// billing guards and metadata are overwritten, the payment joins the
    /// bond, and a non-active caller that now passes the activation policy
    /// is promoted to `Active`. Reactivation resets the billing baseline
    /// from the host's epoch counter, which is presumed never to decrease
    /// across calls.
    #[verifier::rlimit(60)]
    pub fn register(
        &mut self,
        caller: u64,
        payment: u128,
        metadata: Vec<u8>,
        fee_bps: u64,
        max_windows_per_epoch: u64,
        max_charge_per_epoch: u128,
        now_epoch: u64,
    ) -> (r: Result<(), EscrowError>)
        requires
            old(self).wf(),
            !old(self).has_agent(caller) && old(self).promo_used
                >= old(self).config.promo_free_slots ==> old(self).claimable_owner + old(
                self,
            ).config.setup_fee <= u128::MAX,
            old(self).bond_of(caller) + payment <= u128::MAX,
        ensures
            final(self).wf(),
            old(self).register_err(
                caller,
                payment,
                fee_bps,
                max_windows_per_epoch,
                max_charge_per_epoch,
            ) matches Some(e) ==> r == Err::<(), EscrowError>(e) && *final(self) == *old(self),
            old(self).register_err(
                caller,
                payment,
                fee_bps,
                max_windows_per_epoch,
                max_charge_per_epoch,
            ) is None ==> r is Ok && register_ok(
                *old(self),
                *final(self),
                caller,
                payment,
                metadata@,
                fee_bps,
                max_windows_per_epoch,
                max_charge_per_epoch,
                now_epoch,
            ),
    {
        if fee_bps == 0 || fee_bps > BPS_DENOMINATOR {
            return Err(EscrowError::InvalidFeeBps);
        }
        if max_windows_per_epoch == 0 {
            return Err(EscrowError::InvalidMaxWindows);
        }
        if max_windows_per_epoch > self.config.hard_max_windows_per_epoch {
            return Err(EscrowError::MaxWindowsExceedsHardCap);
        }
        if max_charge_per_epoch == 0 {
            return Err(EscrowError::InvalidMaxCharge);
        }
        if payment == 0 {
            return Err(EscrowError::PaymentRequired);
        }
        match self.agent_position(caller) {
            None => {
                let promo = self.promo_used < self.config.promo_free_slots;
                let fee: u128 = if promo {
                    0
                } else {
                    self.config.setup_fee
                };
                if payment < fee || payment - fee < self.config.min_bond {
                    return Err(EscrowError::InsufficientRegisterPayment);
                }
                if promo {
                    self.promo_used = self.promo_used + 1;
                }
                self.claimable_owner = self.claimable_owner + fee;
                let bond_add = payment - fee;
                let info = AgentInfo {
                    fee_bps,
                    max_windows_per_epoch,
                    max_charge_per_epoch,
                    credit_score: DEFAULT_INITIAL_CREDIT,
                    status: AgentStatus::Active,
                    used_promo: promo,
                    joined_epoch: now_epoch,
                    last_billed_epoch: if now_epoch == 0 {
                        0
                    } else {
                        now_epoch - 1
                    },
                    metadata,
                };
                let acct = AgentAccount {
                    id: caller,
                    info,
                    bond_balance: bond_add,
                    outstanding_total: 0,
                    bills: Vec::new(),
                };
                proof {
                    lemma_count_active_bounds(self.agents@);
                }
                self.agents.push(acct);
                let _len = self.agents.len();
                self.active_agent_count = self.active_agent_count + 1;
                proof {
                    assert(sum_due(self.agents@[self.agents@.len() - 1].bills@) == 0);
                    lemma_wf_push(*old(self), *self);
                }
                Ok(())
            },
            Some(i) => {
                let st = self.agents[i].info.status;
                let was_active = st == AgentStatus::Active;
                let reactivating = st == AgentStatus::Cancelled;
                if reactivating {
                    if self.agents[i].outstanding_total != 0 {
                        return Err(EscrowError::OutstandingDebtExists);
                    }
                    if payment < self.config.min_bond {
                        return Err(EscrowError::NeedMinBondToReactivate);
                    }
                }
                let a = &mut self.agents[i];
                if reactivating {
                    a.info.status = AgentStatus::Suspended;
                    a.info.last_billed_epoch = if now_epoch == 0 {
                        0
                    } else {
                        now_epoch - 1
                    };
                }
                a.info.fee_bps = fee_bps;
                a.info.max_windows_per_epoch = max_windows_per_epoch;
                a.info.max_charge_per_epoch = max_charge_per_epoch;
                a.info.metadata = metadata;
                a.bond_balance = a.bond_balance + payment;
                proof {
                    lemma_wf_one_change(*old(self), *self, i as int);
                    lemma_agent_index_unique(*self, i as int, caller);
                }
                if !was_active {
                    if self.can_be_active(caller) {
                        self.set_status(caller, AgentStatus::Active);
                    }
                }
                Ok(())
            },
        }
    }

    /// Operator-only: bills a closed epoch for `agent`, creating the pair's
    /// record in state `Billed` and adding the due amount to the agent's
    /// outstanding total. Billing proceeds in strictly increasing epoch
    /// order per agent; a pair is billed at most once.
    pub fn bill_epoch(
        &mut self,
        caller: u64,
        agent: u64,
        epoch: u64,
        windows: u64,
        now_epoch: u64,
    ) -> (r: Result<u128, EscrowError>)
        requires
            old(self).wf(),
            ({
                let e = old(self).bill_epoch_err(caller, agent, epoch, windows, now_epoch);
                e is None || e == Some(EscrowError::FeeRoundsToZero) || e == Some(
                    EscrowError::ExceedsMaxChargePerEpoch,
                )
            }) ==> ({
                let acct = old(self).agent_of(agent);
                &&& old(self).config.window_reward as int * windows as int <= u128::MAX
                &&& old(self).config.window_reward as int * windows as int
                    * acct.info.fee_bps as int <= u128::MAX
            }),
            old(self).bill_epoch_err(caller, agent, epoch, windows, now_epoch) is None ==> ({
                let acct = old(self).agent_of(agent);
                &&& acct.outstanding_total + fee_amount(
                    old(self).config.window_reward,
                    windows,
                    acct.info.fee_bps,
                ) <= u128::MAX
                &&& epoch + old(self).config.grace_epochs <= u64::MAX
            }),
        ensures
            final(self).wf(),
            old(self).bill_epoch_err(caller, agent, epoch, windows, now_epoch) matches Some(e)
                ==> r == Err::<u128, EscrowError>(e) && *final(self) == *old(self),
            old(self).bill_epoch_err(caller, agent, epoch, windows, now_epoch) is None ==> (
            r matches Ok(due) && due as int == fee_amount(
                old(self).config.window_reward,
                windows,
                old(self).agent_of(agent).info.fee_bps,
            ) && bill_epoch_ok(*old(self), *final(self), agent, epoch, windows, now_epoch)),
    {
        if caller != self.config.operator {
            return Err(EscrowError::OnlyOperator);
        }
        let i = match self.agent_position(agent) {
            None => {
                return Err(EscrowError::AgentNotEnrolled);
            },
            Some(i) => i,
        };
        if windows == 0 {
            return Err(EscrowError::InvalidWindows);
        }
        if epoch >= now_epoch {
            return Err(EscrowError::EpochNotClosed);
        }
        if now_epoch - epoch > self.config.max_backbill_epochs {
            return Err(EscrowError::EpochTooOldToBill);
        }
        proof {
            assert(self.agents@[i as int].wf());
        }
        if self.agents[i].info.status == AgentStatus::Cancelled {
            return Err(EscrowError::AgentCancelled);
        }
        if epoch < self.agents[i].info.joined_epoch {
            return Err(EscrowError::EpochBeforeJoin);
        }
        if epoch <= self.agents[i].info.last_billed_epoch {
            return Err(EscrowError::EpochNotAfterLastBilled);
        }
        if windows > self.agents[i].info.max_windows_per_epoch {
            return Err(EscrowError::ExceedsMaxWindowsPerEpoch);
        }
        if windows > self.config.hard_max_windows_per_epoch {
            return Err(EscrowError::ExceedsWindowsHardCap);
        }
        match bill_position(&self.agents[i], epoch) {
            Some(_) => {
                return Err(EscrowError::EpochAlreadyBilled);
            },
            None => {},
        }
        let fee_bps = self.agents[i].info.fee_bps;
        let due = match self.compute_fee_amount(windows, fee_bps) {
            Err(e) => {
                return Err(e);
            },
            Ok(d) => d,
        };
        if due > self.agents[i].info.max_charge_per_epoch {
            return Err(EscrowError::ExceedsMaxChargePerEpoch);
        }
        let deadline = epoch + self.config.grace_epochs;
        let rec = BillingRecord {
            epoch,
            windows,
            due,
            deadline,
            score_applied: false,
            state: EpochState::Billed,
        };
        let a = &mut self.agents[i];
        a.bills.push(rec);
        a.outstanding_total = a.outstanding_total + due;
        a.info.last_billed_epoch = epoch;
        proof {
            lemma_sum_due_push(old(self).agents@[i as int].bills@, rec);
            lemma_wf_one_change(*old(self), *self, i as int);
        }
        Ok(due)
    }

    /// Agent-only settlement of a billed epoch: `min(payment, due)` moves to
    /// the owner's claimable balance, any excess tops up the bond, and the
    /// moment the due reaches zero the record's one-shot credit adjustment
    /// is applied against the deadline. A now-healthy agent is promoted.
    pub fn settle_epoch(
        &mut self,
        caller: u64,
        epoch: u64,
        payment: u128,
        now_epoch: u64,
    ) -> (r: Result<(), EscrowError>)
        requires
            old(self).wf(),
            old(self).claimable_owner + payment <= u128::MAX,
            old(self).bond_of(caller) + payment <= u128::MAX,
        ensures
            final(self).wf(),
            old(self).settle_epoch_err(caller, epoch, payment) matches Some(e) ==> r == Err::<
                (),
                EscrowError,
            >(e) && *final(self) == *old(self),
            old(self).settle_epoch_err(caller, epoch, payment) is None ==> r is Ok
                && settle_epoch_ok(*old(self), *final(self), caller, epoch, payment, now_epoch),
    {
        let i = match self.agent_position(caller) {
            None => {
                return Err(EscrowError::AgentNotEnrolled);
            },
            Some(i) => i,
        };
        proof {
            assert(self.agents@[i as int].wf());
        }
        let j = match bill_position(&self.agents[i], epoch) {
            None => {
                return Err(EscrowError::EpochNotBilled);
            },
            Some(j) => j,
        };
        let rec = self.agents[i].bills[j];
        if rec.due == 0 {
            return Err(EscrowError::EpochAlreadySettled);
        }
        if payment == 0 {
            return Err(EscrowError::PaymentRequired);
        }
        let applied = min_amount(payment, rec.due);
        let remaining = rec.due - applied;
        let extra = payment - applied;
        let scoring = remaining == 0 && !rec.score_applied;
        let on_time = now_epoch <= rec.deadline;
        proof {
            // the applied amount is covered by the outstanding total, which
            // equals the sum of all record dues
            lemma_sum_due_ge_elem(self.agents@[i as int].bills@, j as int);
        }
        self.claimable_owner = self.claimable_owner + applied;
        let a = &mut self.agents[i];
        a.outstanding_total = a.outstanding_total - applied;
        a.bond_balance = a.bond_balance + extra;
        {
            let b = &mut a.bills[j];
            b.due = remaining;
            if scoring {
                b.score_applied = true;
                b.state = if on_time {
                    EpochState::SettledOnTime
                } else {
                    EpochState::SettledLate
                };
            }
        }
        if scoring {
            let s = a.info.credit_score;
            if on_time {
                let s2 = s + SCORE_BONUS_ON_TIME;
                a.info.credit_score = if s2 > MAX_CREDIT {
                    MAX_CREDIT
                } else {
                    s2
                };
            } else {
                a.info.credit_score = if s < SCORE_PENALTY_LATE {
                    0
                } else {
                    s - SCORE_PENALTY_LATE
                };
            }
        }
        proof {
            lemma_sum_due_update(
                old(self).agents@[i as int].bills@,
                j as int,
                self.agents@[i as int].bills@[j as int],
            );
            lemma_wf_one_change(*old(self), *self, i as int);
            lemma_agent_index_unique(*self, i as int, caller);
        }
        let st = self.agents[i].info.status;
        if st != AgentStatus::Cancelled {
            if self.can_be_active(caller) {
                self.set_status(caller, AgentStatus::Active);
            }
        }
        Ok(())
    }

    /// Permissionless enforcement of a billed epoch whose grace period has
    /// elapsed: `min(due, bond)` is slashed from the bond to the owner's
    /// claimable balance; the record's one-shot credit adjustment records a
    /// fully covered due as `Slashed` and a residual one as `Delinquent`; an
    /// agent that no longer passes the activation policy is suspended,
    /// unless it is cancelled, in which case its status is left alone.
    #[verifier::rlimit(60)]
    pub fn enforce_epoch(&mut self, agent: u64, epoch: u64, now_epoch: u64) -> (r: Result<
        (),
        EscrowError,
    >)
        requires
            old(self).wf(),
            old(self).claimable_owner + old(self).bond_of(agent) <= u128::MAX,
        ensures
            final(self).wf(),
            old(self).enforce_epoch_err(agent, epoch, now_epoch) matches Some(e) ==> r == Err::<
                (),
                EscrowError,
            >(e) && *final(self) == *old(self),
            old(self).enforce_epoch_err(agent, epoch, now_epoch) is None ==> r is Ok
                && enforce_epoch_ok(*old(self), *final(self), agent, epoch, now_epoch),
    {
        let i = match self.agent_position(agent) {
            None => {
                return Err(EscrowError::AgentNotEnrolled);
            },
            Some(i) => i,
        };
        proof {
            assert(self.agents@[i as int].wf());
        }
        let j = match bill_position(&self.agents[i], epoch) {
            None => {
                return Err(EscrowError::EpochNotBilled);
            },
            Some(j) => j,
        };
        let rec = self.agents[i].bills[j];
        if now_epoch <= rec.deadline {
            return Err(EscrowError::StillInGracePeriod);
        }
        if rec.due == 0 {
            return Err(EscrowError::NothingDue);
        }
        let bond = self.agents[i].bond_balance;
        let slash = min_amount(rec.due, bond);
        let due1 = rec.due - slash;
        let scoring = !rec.score_applied;
        let fully = due1 == 0;
        proof {
            // the slash is covered by the outstanding total, which equals
            // the sum of all record dues
            lemma_sum_due_ge_elem(self.agents@[i as int].bills@, j as int);
        }
        self.claimable_owner = self.claimable_owner + slash;
        let a = &mut self.agents[i];
        a.bond_balance = bond - slash;
        a.outstanding_total = a.outstanding_total - slash;
        {
            let b = &mut a.bills[j];
            b.due = due1;
            if scoring {
                b.score_applied = true;
                b.state = if fully {
                    EpochState::Slashed
                } else {
                    EpochState::Delinquent
                };
            }
        }
        if scoring {
            let s = a.info.credit_score;
            let pen = if fully {
                SCORE_PENALTY_SLASHED
            } else {
                SCORE_PENALTY_DELINQUENT
            };
            a.info.credit_score = if s < pen {
                0
            } else {
                s - pen
            };
        }
        proof {
            lemma_sum_due_update(
                old(self).agents@[i as int].bills@,
                j as int,
                self.agents@[i as int].bills@[j as int],
            );
            lemma_wf_one_change(*old(self), *self, i as int);
            lemma_agent_index_unique(*self, i as int, agent);
        }
        if !self.can_be_active(agent) {
            // a failed health check forces suspension, but never resurrects
            // a cancelled agent
            if self.agents[i].info.status != AgentStatus::Cancelled {
                self.set_status(agent, AgentStatus::Suspended);
            }
        }
        Ok(())
    }

    /// Idempotent cancellation: outstanding debt is settled from the bond as
    /// far as it reaches, with the per-epoch record dues shrinking in step,
    /// the remaining bond is returned, and the status becomes `Cancelled`.
    /// Returns the payout the host must transfer to the caller (possibly
    /// zero).
    pub fn cancel_and_withdraw(&mut self, caller: u64) -> (r: Result<u128, EscrowError>)
        requires
            old(self).wf(),
            old(self).claimable_owner + old(self).bond_of(caller) <= u128::MAX,
        ensures
            final(self).wf(),
            old(self).cancel_and_withdraw_err(caller) matches Some(e) ==> r == Err::<
                u128,
                EscrowError,
            >(e) && *final(self) == *old(self),
            old(self).cancel_and_withdraw_err(caller) is None ==> (r matches Ok(payout)
                && cancel_and_withdraw_ok(*old(self), *final(self), caller, payout)),
    {
        let i = match self.agent_position(caller) {
            None => {
                return Err(EscrowError::AgentNotEnrolled);
            },
            Some(i) => i,
        };
        if self.agents[i].info.status != AgentStatus::Cancelled {
            self.set_status(caller, AgentStatus::Cancelled);
        }
        proof {
            assert(self.agents@[i as int].id == caller);
            assert(self.agent_index(caller) == i as int);
        }
        let debt = self.agents[i].outstanding_total;
        let bond = self.agents[i].bond_balance;
        let slash = min_amount(debt, bond);
        self.claimable_owner = self.claimable_owner + slash;
        let payout = bond - slash;
        let a = &mut self.agents[i];
        a.outstanding_total = debt - slash;
        a.bond_balance = 0;
        // absorb the slashed amount into the record dues, front to back, so
        // that the outstanding total still equals their sum
        let ghost mid = *self;
        let n = self.agents[i].bills.len();
        let mut rem: u128 = slash;
        let mut j: usize = 0;
        proof {
            assert(mid.agents@[i as int].bills@.skip(0) =~= mid.agents@[i as int].bills@);
            assert(self.agents@[i as int].bills@.take(0) + slash_dues(
                mid.agents@[i as int].bills@.skip(0),
                rem as int,
            ) =~= slash_dues(mid.agents@[i as int].bills@, slash as int));
        }
        while j < n
            invariant
                j <= n,
                (i as int) < mid.agents@.len(),
                n == mid.agents@[i as int].bills@.len(),
                rem <= slash,
                self.agents@.len() == mid.agents@.len(),
                forall|k: int|
                    0 <= k < mid.agents@.len() && k != i as int ==> self.agents@[k]
                        == mid.agents@[k],
                self.agents@[i as int].id == mid.agents@[i as int].id,
                self.agents@[i as int].info == mid.agents@[i as int].info,
                self.agents@[i as int].bond_balance == mid.agents@[i as int].bond_balance,
                self.agents@[i as int].outstanding_total == mid.agents@[
                    i as int
                ].outstanding_total,
                self.config == mid.config,
                self.promo_used == mid.promo_used,
                self.claimable_owner == mid.claimable_owner,
                self.active_agent_count == mid.active_agent_count,
                self.agents@[i as int].bills@.len() == n,
                forall|k: int|
                    j <= k < n ==> self.agents@[i as int].bills@[k] == mid.agents@[
                        i as int
                    ].bills@[k],
                slash_dues(mid.agents@[i as int].bills@, slash as int) == self.agents@[
                    i as int
                ].bills@.take(j as int) + slash_dues(
                    mid.agents@[i as int].bills@.skip(j as int),
                    rem as int,
                ),
            decreases n - j,
        {
            let ghost prev_bills = self.agents@[i as int].bills@;
            let d = self.agents[i].bills[j].due;
            let take = min_amount(rem, d);
            let a2 = &mut self.agents[i];
            let b = &mut a2.bills[j];
            b.due = d - take;
            rem = rem - take;
            proof {
                let mb = mid.agents@[i as int].bills@;
                let head = (BillingRecord { due: (d - take) as u128, ..mb[j as int] });
                assert(mb.skip(j as int)[0] == mb[j as int]);
                assert(mb.skip(j as int).drop_first() =~= mb.skip(j as int + 1));
                assert(slash_dues(mb.skip(j as int), (rem + take) as int) == seq![head]
                    + slash_dues(mb.skip(j as int + 1), rem as int));
                assert(self.agents@[i as int].bills@.take(j as int + 1) =~= prev_bills.take(
                    j as int,
                ).push(head));
                assert(self.agents@[i as int].bills@.take(j as int + 1) + slash_dues(
                    mb.skip(j as int + 1),
                    rem as int,
                ) =~= prev_bills.take(j as int) + slash_dues(mb.skip(j as int), (rem
                    + take) as int));
            }
            j += 1;
        }
        proof {
            let s0 = *old(self);
            let mb = mid.agents@[i as int].bills@;
            let nb = self.agents@[i as int].bills@;
            assert(mb.skip(n as int) =~= Seq::<BillingRecord>::empty());
            assert(slash_dues(mb.skip(n as int), rem as int) =~= Seq::<BillingRecord>::empty());
            assert(nb.take(n as int) =~= nb);
            assert(nb + Seq::<BillingRecord>::empty() =~= nb);
            assert(nb == slash_dues(mb, slash as int));
            // the snapshot's account is the entry account after the status
            // change and the two ledger writes: same records, same debt
            assert(s0.agents@[i as int].wf());
            assert(mb == s0.agents@[i as int].bills@);
            assert(debt == s0.agents@[i as int].outstanding_total);
            // the slash never exceeds the sum of dues, so the sum shrinks by
            // exactly the slash and the ledger equality is restored
            assert(slash as int <= sum_due(mb));
            lemma_slash_dues_sum(mb, slash as int);
            lemma_slash_dues_fields(mb, slash as int);
            assert forall|p: int, q: int|
                0 <= p < q < nb.len() implies nb[p].epoch != nb[q].epoch by {
                assert(nb[p].epoch == mb[p].epoch);
                assert(nb[q].epoch == mb[q].epoch);
            }
            assert forall|k: int|
                0 <= k < nb.len() implies (#[trigger] nb[k]).wf() && nb[k].epoch
                >= self.agents@[i as int].info.joined_epoch by {
                assert(mb[k].wf());
                assert(nb[k].due <= mb[k].due);
            }
            assert(self.agents@[i as int].wf());
            assert forall|k: int|
                0 <= k < s0.agents@.len() && k != i as int implies self.agents@[k]
                == s0.agents@[k] by {
                assert(self.agents@[k] == mid.agents@[k]);
            }
            lemma_wf_one_change(s0, *self, i as int);
        }
        Ok(payout)
    }
}

} // verus!
