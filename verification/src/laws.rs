//! System-wide laws, proved from the transition relations that the
//! operations promise in their contracts.

use vstd::prelude::*;
use crate::types::EpochState;
use crate::types::AgentAccount;
use crate::types::BillingRecord;
use crate::types::Config;
use crate::types::amount_min;
use crate::types::score_after;
use crate::types::sum_due;
use crate::types::lemma_slash_dues_fields;
use crate::types::lemma_slash_dues_zero;
use crate::types::lemma_sum_due_ge_elem;
use crate::types::lemma_sum_due_nonneg;
use crate::types::SCORE_BONUS_ON_TIME;
use crate::types::SCORE_PENALTY_LATE;
use crate::types::SCORE_PENALTY_SLASHED;
use crate::types::SCORE_PENALTY_DELINQUENT;
use crate::escrow::StreamAgencyEscrow;
use crate::escrow::lemma_agent_index_unique;
use crate::escrow::lemma_bill_index_unique;
use crate::transitions::account_same;
use crate::transitions::bill_epoch_ok;
use crate::transitions::cancel_and_withdraw_ok;
use crate::transitions::config_update_ok;
use crate::transitions::enforce_epoch_ok;
use crate::transitions::pause_ok;
use crate::transitions::register_ok;
use crate::transitions::resume_if_healthy_ok;
use crate::transitions::set_billing_guards_ok;
use crate::transitions::settle_epoch_ok;
use crate::transitions::top_up_bond_ok;
use crate::transitions::withdraw_owner_ok;

verus! {

/// In every well-formed state the ledger is sound: the sum of an agent's
/// record dues is non-negative and its outstanding total equals that sum
/// exactly (bond balance and outstanding total are non-negative by
/// construction).
pub proof fn law_ledger_bounds(s: StreamAgencyEscrow, a: u64)
    requires
        s.wf(),
        s.has_agent(a),
    ensures
        sum_due(s.agent_of(a).bills@) >= 0,
        s.agent_of(a).outstanding_total == sum_due(s.agent_of(a).bills@),
{
    let i = s.agent_index(a);
    assert(s.agents@[i].wf());
    lemma_sum_due_nonneg(s.agent_of(a).bills@);
}

/// Billing is strictly monotonic: two successive successful billings of the
/// same agent use strictly increasing epochs.
pub proof fn law_billing_strictly_monotonic(
    s0: StreamAgencyEscrow,
    s1: StreamAgencyEscrow,
    s2: StreamAgencyEscrow,
    agent: u64,
    c1: u64,
    e1: u64,
    w1: u64,
    n1: u64,
    c2: u64,
    e2: u64,
    w2: u64,
    n2: u64,
)
    requires
        s0.wf(),
        s1.wf(),
        s0.bill_epoch_err(c1, agent, e1, w1, n1) is None,
        bill_epoch_ok(s0, s1, agent, e1, w1, n1),
        s1.bill_epoch_err(c2, agent, e2, w2, n2) is None,
        bill_epoch_ok(s1, s2, agent, e2, w2, n2),
    ensures
        e1 < e2,
{
    let i = s0.agent_index(agent);
    assert(s0.agents@[i].id == agent);
    lemma_agent_index_unique(s1, i, agent);
    assert(s1.agent_of(agent).info.last_billed_epoch == e1);
}

/// A successful billing requires the pair to be unbilled before the call,
/// and leaves it billed after it.
pub proof fn law_bill_creates_record(
    s0: StreamAgencyEscrow,
    s1: StreamAgencyEscrow,
    caller: u64,
    agent: u64,
    epoch: u64,
    windows: u64,
    now_epoch: u64,
)
    requires
        s0.wf(),
        s1.wf(),
        s0.bill_epoch_err(caller, agent, epoch, windows, now_epoch) is None,
        bill_epoch_ok(s0, s1, agent, epoch, windows, now_epoch),
    ensures
        !s0.has_bill_for(agent, epoch),
        s1.has_bill_for(agent, epoch),
{
    let i = s0.agent_index(agent);
    assert(s0.agents@[i].id == agent);
    lemma_agent_index_unique(s1, i, agent);
    let acct2 = s1.agents@[i];
    let n = s0.agents@[i].bills@.len() as int;
    assert(acct2.bills@[n].epoch == epoch);
    assert(acct2.has_bill(epoch));
}

/// A pair that already carries a record can never be billed again: the call
/// is rejected, whatever its other arguments.
pub proof fn law_billed_at_most_once(
    s: StreamAgencyEscrow,
    caller: u64,
    agent: u64,
    epoch: u64,
    windows: u64,
    now_epoch: u64,
)
    requires
        s.wf(),
        s.has_bill_for(agent, epoch),
    ensures
        s.bill_epoch_err(caller, agent, epoch, windows, now_epoch) is Some,
{
}

/// Settling the full due amount of an unscored record decides its terminal
/// state against the deadline: on or before it, `SettledOnTime` and a
/// bonus clamped at the maximum; after it, `SettledLate` and a saturating
/// penalty.
pub proof fn law_settle_full_payment(
    s0: StreamAgencyEscrow,
    s1: StreamAgencyEscrow,
    caller: u64,
    epoch: u64,
    payment: u128,
    now_epoch: u64,
)
    requires
        s0.wf(),
        s1.wf(),
        s0.settle_epoch_err(caller, epoch, payment) is None,
        settle_epoch_ok(s0, s1, caller, epoch, payment, now_epoch),
        payment == s0.bill_for(caller, epoch).due,
        !s0.bill_for(caller, epoch).score_applied,
    ensures
        s1.has_bill_for(caller, epoch),
        s1.bill_for(caller, epoch).due == 0,
        now_epoch <= s0.bill_for(caller, epoch).deadline ==> s1.bill_for(caller, epoch).state
            == EpochState::SettledOnTime && s1.agent_of(caller).info.credit_score == score_after(
            s0.agent_of(caller).info.credit_score,
            SCORE_BONUS_ON_TIME as int,
        ),
        now_epoch > s0.bill_for(caller, epoch).deadline ==> s1.bill_for(caller, epoch).state
            == EpochState::SettledLate && s1.agent_of(caller).info.credit_score == score_after(
            s0.agent_of(caller).info.credit_score,
            -(SCORE_PENALTY_LATE as int),
        ),
{
    let i = s0.agent_index(caller);
    assert(s0.agents@[i].id == caller);
    lemma_agent_index_unique(s1, i, caller);
    let acct = s0.agents@[i];
    let j = acct.bill_index(epoch);
    assert(0 <= j < acct.bills@.len() && acct.bills@[j].epoch == epoch);
    let acct2 = s1.agents@[i];
    assert(acct2.wf());
    lemma_bill_index_unique(acct2, j, epoch);
}

/// Enforcement is impossible while the grace period lasts: with the current
/// epoch at or before the record's deadline the call is rejected.
pub proof fn law_enforce_needs_elapsed_grace(
    s: StreamAgencyEscrow,
    agent: u64,
    epoch: u64,
    now_epoch: u64,
)
    requires
        s.has_bill_for(agent, epoch),
        now_epoch <= s.bill_for(agent, epoch).deadline,
    ensures
        s.enforce_epoch_err(agent, epoch, now_epoch) is Some,
{
}

/// Enforcement of an unscored record: a due fully covered by the bond ends
/// as `Slashed`; a bond too small leaves a residual due, a positive
/// outstanding total, and state `Delinquent`.
pub proof fn law_enforce_outcome(
    s0: StreamAgencyEscrow,
    s1: StreamAgencyEscrow,
    agent: u64,
    epoch: u64,
    now_epoch: u64,
)
    requires
        s0.wf(),
        s1.wf(),
        s0.enforce_epoch_err(agent, epoch, now_epoch) is None,
        enforce_epoch_ok(s0, s1, agent, epoch, now_epoch),
        !s0.bill_for(agent, epoch).score_applied,
    ensures
        s1.has_bill_for(agent, epoch),
        s0.agent_of(agent).bond_balance >= s0.bill_for(agent, epoch).due ==> s1.bill_for(
            agent,
            epoch,
        ).state == EpochState::Slashed && s1.bill_for(agent, epoch).due == 0
            && s1.agent_of(agent).info.credit_score == score_after(
            s0.agent_of(agent).info.credit_score,
            -(SCORE_PENALTY_SLASHED as int),
        ),
        s0.agent_of(agent).bond_balance < s0.bill_for(agent, epoch).due ==> s1.bill_for(
            agent,
            epoch,
        ).state == EpochState::Delinquent && s1.bill_for(agent, epoch).due == s0.bill_for(
            agent,
            epoch,
        ).due - s0.agent_of(agent).bond_balance && s1.bill_for(agent, epoch).due > 0
            && s1.agent_of(agent).outstanding_total > 0 && s1.agent_of(agent).info.credit_score
            == score_after(s0.agent_of(agent).info.credit_score, -(SCORE_PENALTY_DELINQUENT as int)),
{
    let i = s0.agent_index(agent);
    assert(s0.agents@[i].id == agent);
    lemma_agent_index_unique(s1, i, agent);
    let acct = s0.agents@[i];
    let j = acct.bill_index(epoch);
    assert(0 <= j < acct.bills@.len() && acct.bills@[j].epoch == epoch);
    let acct2 = s1.agents@[i];
    assert(acct2.wf());
    lemma_bill_index_unique(acct2, j, epoch);
    lemma_sum_due_ge_elem(acct.bills@, j);
}

/// A first-time registrant with a free promotional slot pays no setup fee:
/// the whole payment becomes bond and the owner's claimable balance does
/// not move; without a free slot the setup fee is charged and only the
/// remainder becomes bond.
pub proof fn law_register_promo(
    s0: StreamAgencyEscrow,
    s1: StreamAgencyEscrow,
    caller: u64,
    payment: u128,
    metadata: Seq<u8>,
    fee_bps: u64,
    max_windows_per_epoch: u64,
    max_charge_per_epoch: u128,
    now_epoch: u64,
)
    requires
        s0.wf(),
        s1.wf(),
        !s0.has_agent(caller),
        s0.register_err(caller, payment, fee_bps, max_windows_per_epoch, max_charge_per_epoch)
            is None,
        register_ok(
            s0,
            s1,
            caller,
            payment,
            metadata,
            fee_bps,
            max_windows_per_epoch,
            max_charge_per_epoch,
            now_epoch,
        ),
    ensures
        s1.has_agent(caller),
        s0.promo_used < s0.config.promo_free_slots ==> s1.claimable_owner == s0.claimable_owner
            && s1.agent_of(caller).bond_balance == payment && s1.promo_used == s0.promo_used + 1
            && s1.agent_of(caller).info.used_promo,
        s0.promo_used >= s0.config.promo_free_slots ==> s1.claimable_owner == s0.claimable_owner
            + s0.config.setup_fee && s1.agent_of(caller).bond_balance == payment
            - s0.config.setup_fee && s1.promo_used == s0.promo_used && !s1.agent_of(
            caller,
        ).info.used_promo,
{
    let n = s0.agents@.len() as int;
    assert(s1.agents@[n].id == caller);
    lemma_agent_index_unique(s1, n, caller);
}

/// Cancellation is idempotent: a second consecutive cancellation pays out
/// nothing and changes nothing.
pub proof fn law_cancel_idempotent(
    s0: StreamAgencyEscrow,
    s1: StreamAgencyEscrow,
    s2: StreamAgencyEscrow,
    caller: u64,
    payout1: u128,
    payout2: u128,
)
    requires
        s0.wf(),
        s1.wf(),
        s0.cancel_and_withdraw_err(caller) is None,
        cancel_and_withdraw_ok(s0, s1, caller, payout1),
        cancel_and_withdraw_ok(s1, s2, caller, payout2),
    ensures
        payout2 == 0,
        s2.config == s1.config,
        s2.promo_used == s1.promo_used,
        s2.claimable_owner == s1.claimable_owner,
        s2.active_agent_count == s1.active_agent_count,
        s2.agents@.len() == s1.agents@.len(),
        forall|k: int|
            0 <= k < s1.agents@.len() ==> account_same(
                s1.agents@[k],
                #[trigger] s2.agents@[k],
            ),
{
    let i = s0.agent_index(caller);
    assert(s0.agents@[i].id == caller);
    lemma_agent_index_unique(s1, i, caller);
    assert(s1.agents@[i].bond_balance == 0);
    assert(amount_min(s1.agents@[i].outstanding_total, 0) == 0);
    lemma_slash_dues_zero(s1.agents@[i].bills@);
    assert forall|k: int|
        0 <= k < s1.agents@.len() implies account_same(s1.agents@[k], #[trigger] s2.agents@[k]) by {
        if k != i {
            assert(s2.agents@[k] == s1.agents@[k]);
        }
    }
}

/// One call of the endpoint surface, with the host-supplied facts it was
/// made with; for cancellation, also the payout it produced.
pub enum Op {
    Register {
        caller: u64,
        payment: u128,
        metadata: Seq<u8>,
        fee_bps: u64,
        max_windows_per_epoch: u64,
        max_charge_per_epoch: u128,
        now_epoch: u64,
    },
    TopUpBond { caller: u64, payment: u128 },
    SetBillingGuards { caller: u64, max_windows_per_epoch: u64, max_charge_per_epoch: u128 },
    Pause { caller: u64 },
    ResumeIfHealthy { caller: u64 },
    CancelAndWithdraw { caller: u64, payout: u128 },
    BillEpoch { caller: u64, agent: u64, epoch: u64, windows: u64, now_epoch: u64 },
    SettleEpoch { caller: u64, epoch: u64, payment: u128, now_epoch: u64 },
    EnforceEpoch { agent: u64, epoch: u64, now_epoch: u64 },
    WithdrawOwner { caller: u64, amount: u128, to: u64 },
    SetOperator { caller: u64, new_operator: u64 },
    SetOwner { caller: u64, new_owner: u64 },
    SetWindowReward { caller: u64, window_reward: u128 },
    SetPromoSlots { caller: u64, promo_free_slots: u64 },
    SetMaxBackbillEpochs { caller: u64, max_backbill_epochs: u64 },
    SetHardMaxWindowsPerEpoch { caller: u64, hard_max_windows_per_epoch: u64 },
}

/// One call happened: either it was rejected and the state is untouched, or
/// it succeeded and its transition relation holds.
pub open spec fn step(pre: StreamAgencyEscrow, post: StreamAgencyEscrow, op: Op) -> bool {
    match op {
        Op::Register {
            caller,
            payment,
            metadata,
            fee_bps,
            max_windows_per_epoch,
            max_charge_per_epoch,
            now_epoch,
        } => {
            if pre.register_err(
                caller,
                payment,
                fee_bps,
                max_windows_per_epoch,
                max_charge_per_epoch,
            ) is Some {
                post == pre
            } else {
                register_ok(
                    pre,
                    post,
                    caller,
                    payment,
                    metadata,
                    fee_bps,
                    max_windows_per_epoch,
                    max_charge_per_epoch,
                    now_epoch,
                )
            }
        },
        Op::TopUpBond { caller, payment } => {
            if pre.top_up_bond_err(caller, payment) is Some {
                post == pre
            } else {
                top_up_bond_ok(pre, post, caller, payment)
            }
        },
        Op::SetBillingGuards { caller, max_windows_per_epoch, max_charge_per_epoch } => {
            if pre.set_billing_guards_err(caller, max_windows_per_epoch, max_charge_per_epoch)
                is Some {
                post == pre
            } else {
                set_billing_guards_ok(pre, post, caller, max_windows_per_epoch, max_charge_per_epoch)
            }
        },
        Op::Pause { caller } => {
            if pre.pause_err(caller) is Some {
                post == pre
            } else {
                pause_ok(pre, post, caller)
            }
        },
        Op::ResumeIfHealthy { caller } => {
            if pre.resume_if_healthy_err(caller) is Some {
                post == pre
            } else {
                resume_if_healthy_ok(pre, post, caller)
            }
        },
        Op::CancelAndWithdraw { caller, payout } => {
            if pre.cancel_and_withdraw_err(caller) is Some {
                post == pre
            } else {
                cancel_and_withdraw_ok(pre, post, caller, payout)
            }
        },
        Op::BillEpoch { caller, agent, epoch, windows, now_epoch } => {
            if pre.bill_epoch_err(caller, agent, epoch, windows, now_epoch) is Some {
                post == pre
            } else {
                bill_epoch_ok(pre, post, agent, epoch, windows, now_epoch)
            }
        },
        Op::SettleEpoch { caller, epoch, payment, now_epoch } => {
            if pre.settle_epoch_err(caller, epoch, payment) is Some {
                post == pre
            } else {
                settle_epoch_ok(pre, post, caller, epoch, payment, now_epoch)
            }
        },
        Op::EnforceEpoch { agent, epoch, now_epoch } => {
            if pre.enforce_epoch_err(agent, epoch, now_epoch) is Some {
                post == pre
            } else {
                enforce_epoch_ok(pre, post, agent, epoch, now_epoch)
            }
        },
        Op::WithdrawOwner { caller, amount, to } => {
            if pre.withdraw_owner_err(caller, amount, to) is Some {
                post == pre
            } else {
                withdraw_owner_ok(pre, post, amount)
            }
        },
        Op::SetOperator { caller, new_operator } => {
            if pre.set_operator_err(caller, new_operator) is Some {
                post == pre
            } else {
                config_update_ok(pre, post, (Config { operator: new_operator, ..pre.config }))
            }
        },
        Op::SetOwner { caller, new_owner } => {
            if pre.set_owner_err(caller, new_owner) is Some {
                post == pre
            } else {
                config_update_ok(pre, post, (Config { owner: new_owner, ..pre.config }))
            }
        },
        Op::SetWindowReward { caller, window_reward } => {
            if pre.set_window_reward_err(caller, window_reward) is Some {
                post == pre
            } else {
                config_update_ok(pre, post, (Config { window_reward, ..pre.config }))
            }
        },
        Op::SetPromoSlots { caller, promo_free_slots } => {
            if pre.set_promo_slots_err(caller) is Some {
                post == pre
            } else {
                config_update_ok(pre, post, (Config { promo_free_slots, ..pre.config }))
            }
        },
        Op::SetMaxBackbillEpochs { caller, max_backbill_epochs } => {
            if pre.set_max_backbill_epochs_err(caller, max_backbill_epochs) is Some {
                post == pre
            } else {
                config_update_ok(pre, post, (Config { max_backbill_epochs, ..pre.config }))
            }
        },
        Op::SetHardMaxWindowsPerEpoch { caller, hard_max_windows_per_epoch } => {
            if pre.set_hard_max_windows_per_epoch_err(caller, hard_max_windows_per_epoch) is Some {
                post == pre
            } else {
                config_update_ok(
                    pre,
                    post,
                    (Config { hard_max_windows_per_epoch, ..pre.config }),
                )
            }
        },
    }
}

/// The record of (`a`, `e`) survives from `pre` to `post` with its epoch,
/// windows and deadline intact, and a set one-shot score flag stays set
/// with the epoch state frozen.
pub open spec fn record_preserved(
    pre: StreamAgencyEscrow,
    post: StreamAgencyEscrow,
    a: u64,
    e: u64,
) -> bool {
    pre.has_bill_for(a, e) ==> {
        &&& post.has_bill_for(a, e)
        &&& post.bill_for(a, e).windows == pre.bill_for(a, e).windows
        &&& post.bill_for(a, e).deadline == pre.bill_for(a, e).deadline
        &&& (pre.bill_for(a, e).score_applied ==> post.bill_for(a, e).score_applied && post.bill_for(
            a,
            e,
        ).state == pre.bill_for(a, e).state)
    }
}

proof fn lemma_changed_account_lookup(pre: StreamAgencyEscrow, post: StreamAgencyEscrow, a: u64)
    requires
        pre.wf(),
        post.wf(),
        pre.has_agent(a),
        pre.agent_index(a) < post.agents@.len(),
        post.agents@[pre.agent_index(a)].id == a,
    ensures
        post.has_agent(a),
        post.agent_index(a) == pre.agent_index(a),
        post.agent_of(a) == post.agents@[pre.agent_index(a)],
{
    let ia = pre.agent_index(a);
    assert(0 <= ia < pre.agents@.len() && pre.agents@[ia].id == a);
    lemma_agent_index_unique(post, ia, a);
}

proof fn lemma_bill_lookup_same_bills(acct: AgentAccount, acct2: AgentAccount, e: u64)
    requires
        acct.bills_distinct(),
        acct2.bills_distinct(),
        acct.has_bill(e),
        acct2.bills@ == acct.bills@,
    ensures
        acct2.has_bill(e),
        acct2.bill_index(e) == acct.bill_index(e),
        acct2.bill(e) == acct.bill(e),
{
    let je = acct.bill_index(e);
    assert(0 <= je < acct.bills@.len() && acct.bills@[je].epoch == e);
    lemma_bill_index_unique(acct2, je, e);
}

proof fn lemma_bill_lookup_push(acct: AgentAccount, acct2: AgentAccount, e: u64, rec: BillingRecord)
    requires
        acct.bills_distinct(),
        acct2.bills_distinct(),
        acct.has_bill(e),
        acct2.bills@ == acct.bills@.push(rec),
    ensures
        acct2.has_bill(e),
        acct2.bill_index(e) == acct.bill_index(e),
        acct2.bill(e) == acct.bill(e),
{
    let je = acct.bill_index(e);
    assert(0 <= je < acct.bills@.len() && acct.bills@[je].epoch == e);
    lemma_bill_index_unique(acct2, je, e);
}

proof fn lemma_bill_lookup_update(
    acct: AgentAccount,
    acct2: AgentAccount,
    e: u64,
    j: int,
    rec2: BillingRecord,
)
    requires
        acct.bills_distinct(),
        acct2.bills_distinct(),
        acct.has_bill(e),
        0 <= j < acct.bills@.len(),
        rec2.epoch == acct.bills@[j].epoch,
        acct2.bills@ == acct.bills@.update(j, rec2),
    ensures
        acct2.has_bill(e),
        acct.bills@[j].epoch == e ==> acct.bill_index(e) == j && acct2.bill(e) == rec2,
        acct.bills@[j].epoch != e ==> acct2.bill(e) == acct.bill(e),
{
    let je = acct.bill_index(e);
    assert(0 <= je < acct.bills@.len() && acct.bills@[je].epoch == e);
    if acct.bills@[j].epoch == e {
        if j != je {
            assert(false);
        }
        lemma_bill_index_unique(acct2, je, e);
    } else {
        assert(j != je);
        lemma_bill_index_unique(acct2, je, e);
    }
}

/// Shared argument for a successful call that touches only the account of
/// `t`, leaving that account's billing records as they were.
proof fn integrity_same_bills(
    pre: StreamAgencyEscrow,
    post: StreamAgencyEscrow,
    a: u64,
    e: u64,
    t: u64,
)
    requires
        pre.wf(),
        post.wf(),
        pre.has_agent(t),
        post.agents@.len() == pre.agents@.len(),
        forall|k: int|
            0 <= k < pre.agents@.len() && k != pre.agent_index(t) ==> post.agents@[k]
                == pre.agents@[k],
        post.agents@[pre.agent_index(t)].id == t,
        post.agents@[pre.agent_index(t)].bills@ == pre.agents@[pre.agent_index(t)].bills@,
    ensures
        record_preserved(pre, post, a, e),
{
    let it = pre.agent_index(t);
    assert(0 <= it < pre.agents@.len() && pre.agents@[it].id == t);
    if pre.has_agent(a) {
        let ia = pre.agent_index(a);
        assert(0 <= ia < pre.agents@.len() && pre.agents@[ia].id == a);
        if a != t {
            assert(ia != it);
            assert(post.agents@[ia] == pre.agents@[ia]);
        }
        lemma_changed_account_lookup(pre, post, a);
        let acct = pre.agent_of(a);
        let acct2 = post.agent_of(a);
        assert(acct.wf());
        assert(acct2.wf());
        assert(acct2.bills@ == acct.bills@);
        if acct.has_bill(e) {
            lemma_bill_lookup_same_bills(acct, acct2, e);
        }
    }
}

/// Shared argument for a successful call that leaves the account list
/// untouched.
proof fn integrity_untouched(pre: StreamAgencyEscrow, post: StreamAgencyEscrow, a: u64, e: u64)
    requires
        pre.wf(),
        post.wf(),
        post.agents@ == pre.agents@,
    ensures
        record_preserved(pre, post, a, e),
{
    if pre.has_agent(a) {
        let ia = pre.agent_index(a);
        assert(0 <= ia < pre.agents@.len() && pre.agents@[ia].id == a);
        lemma_changed_account_lookup(pre, post, a);
        let acct = pre.agent_of(a);
        let acct2 = post.agent_of(a);
        assert(acct.wf());
        assert(acct2.wf());
        if acct.has_bill(e) {
            lemma_bill_lookup_same_bills(acct, acct2, e);
        }
    }
}

/// Shared argument for a successful settlement or enforcement: the account
/// of `t` had the record at index `j` replaced by `rec2`, which keeps the
/// epoch, windows and deadline and respects the one-shot flag.
proof fn integrity_update(
    pre: StreamAgencyEscrow,
    post: StreamAgencyEscrow,
    a: u64,
    e: u64,
    t: u64,
    j: int,
    rec2: BillingRecord,
)
    requires
        pre.wf(),
        post.wf(),
        pre.has_agent(t),
        post.agents@.len() == pre.agents@.len(),
        forall|k: int|
            0 <= k < pre.agents@.len() && k != pre.agent_index(t) ==> post.agents@[k]
                == pre.agents@[k],
        post.agents@[pre.agent_index(t)].id == t,
        0 <= j < pre.agent_of(t).bills@.len(),
        rec2.epoch == pre.agent_of(t).bills@[j].epoch,
        rec2.windows == pre.agent_of(t).bills@[j].windows,
        rec2.deadline == pre.agent_of(t).bills@[j].deadline,
        pre.agent_of(t).bills@[j].score_applied ==> rec2.score_applied && rec2.state == pre.agent_of(
            t,
        ).bills@[j].state,
        post.agents@[pre.agent_index(t)].bills@ == pre.agent_of(t).bills@.update(j, rec2),
    ensures
        record_preserved(pre, post, a, e),
{
    let it = pre.agent_index(t);
    assert(0 <= it < pre.agents@.len() && pre.agents@[it].id == t);
    if pre.has_agent(a) {
        let ia = pre.agent_index(a);
        assert(0 <= ia < pre.agents@.len() && pre.agents@[ia].id == a);
        if a != t {
            assert(ia != it);
            assert(post.agents@[ia] == pre.agents@[ia]);
        }
        lemma_changed_account_lookup(pre, post, a);
        let acct = pre.agent_of(a);
        let acct2 = post.agent_of(a);
        assert(acct.wf());
        assert(acct2.wf());
        if a == t {
            if acct.has_bill(e) {
                lemma_bill_lookup_update(acct, acct2, e, j, rec2);
            }
        } else {
            assert(acct2.bills@ == acct.bills@);
            if acct.has_bill(e) {
                lemma_bill_lookup_same_bills(acct, acct2, e);
            }
        }
    }
}

/// The register case of `law_record_integrity`.
#[verifier::spinoff_prover]
proof fn integrity_register(
    pre: StreamAgencyEscrow,
    post: StreamAgencyEscrow,
    a: u64,
    e: u64,
    caller: u64,
    payment: u128,
    metadata: Seq<u8>,
    fee_bps: u64,
    max_windows_per_epoch: u64,
    max_charge_per_epoch: u128,
    now_epoch: u64,
)
    requires
        pre.wf(),
        post.wf(),
        pre.register_err(caller, payment, fee_bps, max_windows_per_epoch, max_charge_per_epoch)
            is None,
        register_ok(
            pre,
            post,
            caller,
            payment,
            metadata,
            fee_bps,
            max_windows_per_epoch,
            max_charge_per_epoch,
            now_epoch,
        ),
    ensures
        record_preserved(pre, post, a, e),
{
    if !pre.has_agent(caller) {
        if pre.has_agent(a) {
            let ia = pre.agent_index(a);
            assert(0 <= ia < pre.agents@.len() && pre.agents@[ia].id == a);
            assert(post.agents@[ia] == pre.agents@[ia]);
            lemma_changed_account_lookup(pre, post, a);
            let acct = pre.agent_of(a);
            let acct2 = post.agent_of(a);
            assert(acct.wf());
            assert(acct2.wf());
            if acct.has_bill(e) {
                lemma_bill_lookup_same_bills(acct, acct2, e);
            }
        }
    } else {
        integrity_same_bills(pre, post, a, e, caller);
    }
}

/// The billing case of `law_record_integrity`.
#[verifier::spinoff_prover]
proof fn integrity_bill(
    pre: StreamAgencyEscrow,
    post: StreamAgencyEscrow,
    a: u64,
    e: u64,
    caller: u64,
    agent: u64,
    epoch: u64,
    windows: u64,
    now_epoch: u64,
)
    requires
        pre.wf(),
        post.wf(),
        pre.bill_epoch_err(caller, agent, epoch, windows, now_epoch) is None,
        bill_epoch_ok(pre, post, agent, epoch, windows, now_epoch),
    ensures
        record_preserved(pre, post, a, e),
{
    let it = pre.agent_index(agent);
    assert(0 <= it < pre.agents@.len() && pre.agents@[it].id == agent);
    if pre.has_agent(a) {
        let ia = pre.agent_index(a);
        assert(0 <= ia < pre.agents@.len() && pre.agents@[ia].id == a);
        if a != agent {
            assert(ia != it);
            assert(post.agents@[ia] == pre.agents@[ia]);
        }
        lemma_changed_account_lookup(pre, post, a);
        let acct = pre.agent_of(a);
        let acct2 = post.agent_of(a);
        assert(acct.wf());
        assert(acct2.wf());
        if a == agent {
            let n = acct.bills@.len() as int;
            let rec = acct2.bills@[n];
            assert(acct2.bills@ == acct.bills@.push(rec));
            if acct.has_bill(e) {
                lemma_bill_lookup_push(acct, acct2, e, rec);
            }
        } else {
            assert(acct2.bills@ == acct.bills@);
            if acct.has_bill(e) {
                lemma_bill_lookup_same_bills(acct, acct2, e);
            }
        }
    }
}

/// The cancellation case of `law_record_integrity`.
#[verifier::spinoff_prover]
proof fn integrity_cancel(
    pre: StreamAgencyEscrow,
    post: StreamAgencyEscrow,
    a: u64,
    e: u64,
    caller: u64,
    payout: u128,
)
    requires
        pre.wf(),
        post.wf(),
        pre.cancel_and_withdraw_err(caller) is None,
        cancel_and_withdraw_ok(pre, post, caller, payout),
    ensures
        record_preserved(pre, post, a, e),
{
    let it = pre.agent_index(caller);
    assert(0 <= it < pre.agents@.len() && pre.agents@[it].id == caller);
    if pre.has_agent(a) {
        let ia = pre.agent_index(a);
        assert(0 <= ia < pre.agents@.len() && pre.agents@[ia].id == a);
        if a != caller {
            assert(ia != it);
            assert(post.agents@[ia] == pre.agents@[ia]);
        }
        lemma_changed_account_lookup(pre, post, a);
        let acct = pre.agent_of(a);
        let acct2 = post.agent_of(a);
        assert(acct.wf());
        assert(acct2.wf());
        if a == caller {
            // the due reduction keeps every record's identity: only the due
            // fields shrink
            let slash = amount_min(acct.outstanding_total, acct.bond_balance);
            lemma_slash_dues_fields(acct.bills@, slash as int);
            if acct.has_bill(e) {
                let je = acct.bill_index(e);
                assert(0 <= je < acct.bills@.len() && acct.bills@[je].epoch == e);
                assert(acct2.bills@[je].epoch == e);
                lemma_bill_index_unique(acct2, je, e);
            }
        } else {
            assert(acct2.bills@ == acct.bills@);
            if acct.has_bill(e) {
                lemma_bill_lookup_same_bills(acct, acct2, e);
            }
        }
    }
}

/// The settlement case of `law_record_integrity`.
#[verifier::spinoff_prover]
proof fn integrity_settle(
    pre: StreamAgencyEscrow,
    post: StreamAgencyEscrow,
    a: u64,
    e: u64,
    caller: u64,
    epoch: u64,
    payment: u128,
    now_epoch: u64,
)
    requires
        pre.wf(),
        post.wf(),
        pre.settle_epoch_err(caller, epoch, payment) is None,
        settle_epoch_ok(pre, post, caller, epoch, payment, now_epoch),
    ensures
        record_preserved(pre, post, a, e),
{
    let it = pre.agent_index(caller);
    let acct_t = pre.agent_of(caller);
    let j = acct_t.bill_index(epoch);
    assert(acct_t.has_bill(epoch));
    assert(0 <= j < acct_t.bills@.len() && acct_t.bills@[j].epoch == epoch);
    let rec2 = post.agents@[it].bills@[j];
    integrity_update(pre, post, a, e, caller, j, rec2);
}

/// The enforcement case of `law_record_integrity`.
#[verifier::spinoff_prover]
proof fn integrity_enforce(
    pre: StreamAgencyEscrow,
    post: StreamAgencyEscrow,
    a: u64,
    e: u64,
    agent: u64,
    epoch: u64,
    now_epoch: u64,
)
    requires
        pre.wf(),
        post.wf(),
        pre.enforce_epoch_err(agent, epoch, now_epoch) is None,
        enforce_epoch_ok(pre, post, agent, epoch, now_epoch),
    ensures
        record_preserved(pre, post, a, e),
{
    let it = pre.agent_index(agent);
    let acct_t = pre.agent_of(agent);
    let j = acct_t.bill_index(epoch);
    assert(acct_t.has_bill(epoch));
    assert(0 <= j < acct_t.bills@.len() && acct_t.bills@[j].epoch == epoch);
    let rec2 = post.agents@[it].bills@[j];
    integrity_update(pre, post, a, e, agent, j, rec2);
}

/// Every call of the endpoint surface preserves the recorded history: a
/// billing record never disappears, its epoch, windows and deadline never
/// change, and once its one-shot score flag is set the flag stays set and
/// the terminal epoch state is frozen. (That the outstanding total always
/// equals the sum of the record dues is part of well-formedness, which
/// every call maintains: see `law_ledger_bounds`.)
#[verifier::rlimit(100)]
#[verifier::spinoff_prover]
pub proof fn law_record_integrity(
    pre: StreamAgencyEscrow,
    post: StreamAgencyEscrow,
    op: Op,
    a: u64,
    e: u64,
)
    requires
        pre.wf(),
        post.wf(),
        step(pre, post, op),
    ensures
        record_preserved(pre, post, a, e),
{
    match op {
        Op::Register {
            caller,
            payment,
            metadata,
            fee_bps,
            max_windows_per_epoch,
            max_charge_per_epoch,
            now_epoch,
        } => {
            if pre.register_err(
                caller,
                payment,
                fee_bps,
                max_windows_per_epoch,
                max_charge_per_epoch,
            ) is None {
                integrity_register(
                    pre,
                    post,
                    a,
                    e,
                    caller,
                    payment,
                    metadata,
                    fee_bps,
                    max_windows_per_epoch,
                    max_charge_per_epoch,
                    now_epoch,
                );
            }
        },
        Op::TopUpBond { caller, payment } => {
            if pre.top_up_bond_err(caller, payment) is None {
                integrity_same_bills(pre, post, a, e, caller);
            }
        },
        Op::SetBillingGuards { caller, max_windows_per_epoch, max_charge_per_epoch } => {
            if pre.set_billing_guards_err(caller, max_windows_per_epoch, max_charge_per_epoch)
                is None {
                integrity_same_bills(pre, post, a, e, caller);
            }
        },
        Op::Pause { caller } => {
            if pre.pause_err(caller) is None {
                integrity_same_bills(pre, post, a, e, caller);
            }
        },
        Op::ResumeIfHealthy { caller } => {
            if pre.resume_if_healthy_err(caller) is None {
                integrity_same_bills(pre, post, a, e, caller);
            }
        },
        Op::CancelAndWithdraw { caller, payout } => {
            if pre.cancel_and_withdraw_err(caller) is None {
                integrity_cancel(pre, post, a, e, caller, payout);
            }
        },
        Op::BillEpoch { caller, agent, epoch, windows, now_epoch } => {
            if pre.bill_epoch_err(caller, agent, epoch, windows, now_epoch) is None {
                integrity_bill(pre, post, a, e, caller, agent, epoch, windows, now_epoch);
            }
        },
        Op::SettleEpoch { caller, epoch, payment, now_epoch } => {
            if pre.settle_epoch_err(caller, epoch, payment) is None {
                integrity_settle(pre, post, a, e, caller, epoch, payment, now_epoch);
            }
        },
        Op::EnforceEpoch { agent, epoch, now_epoch } => {
            if pre.enforce_epoch_err(agent, epoch, now_epoch) is None {
                integrity_enforce(pre, post, a, e, agent, epoch, now_epoch);
            }
        },
        Op::WithdrawOwner { caller, amount, to } => {
            if pre.withdraw_owner_err(caller, amount, to) is None {
                integrity_untouched(pre, post, a, e);
            }
        },
        Op::SetOperator { caller, new_operator } => {
            if pre.set_operator_err(caller, new_operator) is None {
                integrity_untouched(pre, post, a, e);
            }
        },
        Op::SetOwner { caller, new_owner } => {
            if pre.set_owner_err(caller, new_owner) is None {
                integrity_untouched(pre, post, a, e);
            }
        },
        Op::SetWindowReward { caller, window_reward } => {
            if pre.set_window_reward_err(caller, window_reward) is None {
                integrity_untouched(pre, post, a, e);
            }
        },
        Op::SetPromoSlots { caller, promo_free_slots } => {
            if pre.set_promo_slots_err(caller) is None {
                integrity_untouched(pre, post, a, e);
            }
        },
        Op::SetMaxBackbillEpochs { caller, max_backbill_epochs } => {
            if pre.set_max_backbill_epochs_err(caller, max_backbill_epochs) is None {
                integrity_untouched(pre, post, a, e);
            }
        },
        Op::SetHardMaxWindowsPerEpoch { caller, hard_max_windows_per_epoch } => {
            if pre.set_hard_max_windows_per_epoch_err(caller, hard_max_windows_per_epoch)
                is None {
                integrity_untouched(pre, post, a, e);
            }
        },
    }
}

} // verus!
