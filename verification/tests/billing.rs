//! Epoch billing, settlement and enforcement: the fee formula, the
//! state machine of a billing record, and the credit-score feedback loop.

use stream_agency_escrow::AgentStatus;
use stream_agency_escrow::EpochState;
use stream_agency_escrow::EscrowError;
use stream_agency_escrow::StreamAgencyEscrow;

const OWNER: u64 = 1;
const OPERATOR: u64 = 2;
const AGENT: u64 = 5;

fn setup() -> StreamAgencyEscrow {
    StreamAgencyEscrow::init(OWNER, OPERATOR, 1000, 100, 500, 0, 2, 10, 100)
        .expect("valid configuration")
}

fn register_default(e: &mut StreamAgencyEscrow, id: u64, payment: u128, now: u64) {
    e.register(id, payment, Vec::new(), 500, 50, 1_000_000, now)
        .expect("registration should succeed");
}

#[test]
fn fee_formula_exact_value() {
    let mut e = setup();
    register_default(&mut e, AGENT, 600, 10);
    // reward 1000, 10 windows, 500 bps: 1000 * 10 * 500 / 10000 = 500
    let due = e.bill_epoch(OPERATOR, AGENT, 10, 10, 11).expect("bill");
    assert_eq!(due, 500);
    assert_eq!(e.get_epoch_debt_view(AGENT, 10), 500);
    assert_eq!(e.get_epoch_state_view(AGENT, 10), Some(EpochState::Billed));
    assert_eq!(e.get_epoch_state_view(AGENT, 11), None);
    assert_eq!(e.get_agent_financials_view(AGENT), (500, 500));
    let info = e.get_agent_info_view(AGENT).expect("registered");
    assert_eq!(info.last_billed_epoch, 10);
}

#[test]
fn fee_rounding_to_zero_is_rejected() {
    let mut e = StreamAgencyEscrow::init(OWNER, OPERATOR, 1, 100, 500, 0, 2, 10, 100)
        .expect("valid configuration");
    // reward 1, 1 window, 500 bps: 1 * 1 * 500 / 10000 truncates to 0
    register_default(&mut e, AGENT, 600, 10);
    assert_eq!(
        e.bill_epoch(OPERATOR, AGENT, 10, 1, 11),
        Err(EscrowError::FeeRoundsToZero)
    );
    assert_eq!(e.get_epoch_state_view(AGENT, 10), None);
}

#[test]
fn billing_validations() {
    let mut e = setup();
    register_default(&mut e, AGENT, 600, 10);
    assert_eq!(
        e.bill_epoch(AGENT, AGENT, 10, 10, 11),
        Err(EscrowError::OnlyOperator)
    );
    assert_eq!(
        e.bill_epoch(OPERATOR, 6, 10, 10, 11),
        Err(EscrowError::AgentNotEnrolled)
    );
    assert_eq!(
        e.bill_epoch(OPERATOR, AGENT, 10, 0, 11),
        Err(EscrowError::InvalidWindows)
    );
    assert_eq!(
        e.bill_epoch(OPERATOR, AGENT, 11, 10, 11),
        Err(EscrowError::EpochNotClosed)
    );
    assert_eq!(
        e.bill_epoch(OPERATOR, AGENT, 10, 10, 21),
        Err(EscrowError::EpochTooOldToBill)
    );
    assert_eq!(
        e.bill_epoch(OPERATOR, AGENT, 9, 10, 11),
        Err(EscrowError::EpochBeforeJoin)
    );
    assert_eq!(
        e.bill_epoch(OPERATOR, AGENT, 10, 51, 11),
        Err(EscrowError::ExceedsMaxWindowsPerEpoch)
    );
    // an agent guard above a later, lower hard cap trips the global check
    e.set_hard_max_windows_per_epoch(OWNER, 40).expect("set cap");
    assert_eq!(
        e.bill_epoch(OPERATOR, AGENT, 10, 45, 11),
        Err(EscrowError::ExceedsWindowsHardCap)
    );
    e.set_hard_max_windows_per_epoch(OWNER, 100).expect("set cap");
    // per-epoch charge cap: 50 windows would cost 2500
    e.set_billing_guards(AGENT, 50, 2000).expect("guards");
    assert_eq!(
        e.bill_epoch(OPERATOR, AGENT, 10, 50, 11),
        Err(EscrowError::ExceedsMaxChargePerEpoch)
    );
    e.cancel_and_withdraw(AGENT).expect("cancel");
    assert_eq!(
        e.bill_epoch(OPERATOR, AGENT, 10, 10, 11),
        Err(EscrowError::AgentCancelled)
    );
}

#[test]
fn billing_is_strictly_monotonic_per_agent() {
    let mut e = setup();
    register_default(&mut e, AGENT, 600, 10);
    e.bill_epoch(OPERATOR, AGENT, 12, 10, 14).expect("bill");
    // the same epoch, and any earlier one, can never be billed again
    assert_eq!(
        e.bill_epoch(OPERATOR, AGENT, 12, 10, 14),
        Err(EscrowError::EpochNotAfterLastBilled)
    );
    assert_eq!(
        e.bill_epoch(OPERATOR, AGENT, 11, 10, 14),
        Err(EscrowError::EpochNotAfterLastBilled)
    );
    e.bill_epoch(OPERATOR, AGENT, 13, 10, 14).expect("bill");
    assert_eq!(e.get_agent_info_view(AGENT).expect("registered").last_billed_epoch, 13);
}

#[test]
fn settle_on_time_full_payment() {
    let mut e = setup();
    register_default(&mut e, AGENT, 600, 10);
    e.bill_epoch(OPERATOR, AGENT, 10, 10, 11).expect("bill");
    // deadline is 10 + 2 = 12; settling at epoch 12 is still on time
    assert_eq!(e.settle_epoch(AGENT, 10, 0, 12), Err(EscrowError::PaymentRequired));
    assert_eq!(e.settle_epoch(AGENT, 11, 500, 12), Err(EscrowError::EpochNotBilled));
    e.settle_epoch(AGENT, 10, 500, 12).expect("settle");
    assert_eq!(e.get_epoch_state_view(AGENT, 10), Some(EpochState::SettledOnTime));
    assert_eq!(e.get_epoch_debt_view(AGENT, 10), 0);
    let info = e.get_agent_info_view(AGENT).expect("registered");
    assert_eq!(info.credit_score, 705);
    assert_eq!(e.get_agent_financials_view(AGENT), (500, 0));
    assert_eq!(e.get_claimable_owner_view(), 100 + 500);
    // the record is terminal now
    assert_eq!(
        e.settle_epoch(AGENT, 10, 500, 12),
        Err(EscrowError::EpochAlreadySettled)
    );
}

#[test]
fn settle_late_full_payment() {
    let mut e = setup();
    register_default(&mut e, AGENT, 600, 10);
    e.bill_epoch(OPERATOR, AGENT, 10, 10, 11).expect("bill");
    // one epoch past the deadline of 12
    e.settle_epoch(AGENT, 10, 500, 13).expect("settle");
    assert_eq!(e.get_epoch_state_view(AGENT, 10), Some(EpochState::SettledLate));
    assert_eq!(
        e.get_agent_info_view(AGENT).expect("registered").credit_score,
        685
    );
}

#[test]
fn settle_partial_then_excess() {
    let mut e = setup();
    register_default(&mut e, AGENT, 600, 10);
    e.bill_epoch(OPERATOR, AGENT, 10, 10, 11).expect("bill");
    e.settle_epoch(AGENT, 10, 200, 11).expect("partial settle");
    // still billed, score untouched, due reduced
    assert_eq!(e.get_epoch_state_view(AGENT, 10), Some(EpochState::Billed));
    assert_eq!(e.get_epoch_debt_view(AGENT, 10), 300);
    assert_eq!(e.get_agent_financials_view(AGENT), (500, 300));
    assert_eq!(
        e.get_agent_info_view(AGENT).expect("registered").credit_score,
        700
    );
    // pay 400 against 300 of due: 100 of excess becomes bond
    e.settle_epoch(AGENT, 10, 400, 11).expect("final settle");
    assert_eq!(e.get_epoch_state_view(AGENT, 10), Some(EpochState::SettledOnTime));
    assert_eq!(e.get_agent_financials_view(AGENT), (600, 0));
    assert_eq!(e.get_claimable_owner_view(), 100 + 500);
    assert_eq!(
        e.get_agent_info_view(AGENT).expect("registered").credit_score,
        705
    );
}

#[test]
fn settlement_promotes_suspended_agent() {
    let mut e = setup();
    register_default(&mut e, AGENT, 600, 10);
    e.bill_epoch(OPERATOR, AGENT, 10, 10, 11).expect("bill");
    e.pause(AGENT).expect("pause");
    assert_eq!(e.get_active_agent_count_view(), 0);
    // clearing the debt makes the agent healthy, and settlement promotes
    e.settle_epoch(AGENT, 10, 500, 12).expect("settle");
    assert_eq!(
        e.get_agent_info_view(AGENT).expect("registered").status,
        AgentStatus::Active
    );
    assert_eq!(e.get_active_agent_count_view(), 1);
}

#[test]
fn enforce_during_grace_period_fails() {
    let mut e = setup();
    register_default(&mut e, AGENT, 600, 10);
    e.bill_epoch(OPERATOR, AGENT, 10, 10, 11).expect("bill");
    // deadline 12: enforcement at 11 and 12 is rejected
    assert_eq!(e.enforce_epoch(AGENT, 10, 11), Err(EscrowError::StillInGracePeriod));
    assert_eq!(e.enforce_epoch(AGENT, 10, 12), Err(EscrowError::StillInGracePeriod));
    assert_eq!(e.enforce_epoch(AGENT, 11, 13), Err(EscrowError::EpochNotBilled));
    assert_eq!(e.enforce_epoch(6, 10, 13), Err(EscrowError::AgentNotEnrolled));
}

#[test]
fn enforce_with_sufficient_bond_slashes() {
    let mut e = setup();
    register_default(&mut e, AGENT, 600, 10);
    e.bill_epoch(OPERATOR, AGENT, 10, 10, 11).expect("bill");
    e.enforce_epoch(AGENT, 10, 13).expect("enforce");
    assert_eq!(e.get_epoch_state_view(AGENT, 10), Some(EpochState::Slashed));
    assert_eq!(e.get_epoch_debt_view(AGENT, 10), 0);
    // bond 500 covered the full due of 500
    assert_eq!(e.get_agent_financials_view(AGENT), (0, 0));
    assert_eq!(e.get_claimable_owner_view(), 100 + 500);
    let info = e.get_agent_info_view(AGENT).expect("registered");
    assert_eq!(info.credit_score, 640);
    // the emptied bond fails the activation policy: forced suspension
    assert_eq!(info.status, AgentStatus::Suspended);
    assert_eq!(e.get_active_agent_count_view(), 0);
    assert_eq!(e.enforce_epoch(AGENT, 10, 13), Err(EscrowError::NothingDue));
}

#[test]
fn enforce_with_insufficient_bond_is_delinquent() {
    let mut e = setup();
    register_default(&mut e, AGENT, 700, 10);
    // 20 windows: due 1000 against a bond of 600
    e.bill_epoch(OPERATOR, AGENT, 10, 20, 11).expect("bill");
    e.enforce_epoch(AGENT, 10, 13).expect("enforce");
    assert_eq!(e.get_epoch_state_view(AGENT, 10), Some(EpochState::Delinquent));
    assert_eq!(e.get_epoch_debt_view(AGENT, 10), 400);
    assert_eq!(e.get_agent_financials_view(AGENT), (0, 400));
    let info = e.get_agent_info_view(AGENT).expect("registered");
    assert_eq!(info.credit_score, 610);
    assert_eq!(info.status, AgentStatus::Suspended);
    // the score was applied once; settling the residue later keeps the state
    e.settle_epoch(AGENT, 10, 400, 14).expect("settle residue");
    assert_eq!(e.get_epoch_state_view(AGENT, 10), Some(EpochState::Delinquent));
    assert_eq!(
        e.get_agent_info_view(AGENT).expect("registered").credit_score,
        610
    );
    assert_eq!(e.get_agent_financials_view(AGENT), (0, 0));
}

#[test]
fn delinquency_decay_reaches_ineligibility() {
    let mut e = setup();
    register_default(&mut e, AGENT, 600, 10);
    // three epochs of debt the bond cannot cover after the first slash
    e.bill_epoch(OPERATOR, AGENT, 10, 20, 12).expect("bill");
    e.bill_epoch(OPERATOR, AGENT, 11, 20, 12).expect("bill");
    e.bill_epoch(OPERATOR, AGENT, 12, 20, 13).expect("bill");
    // first enforcement eats the whole bond of 500 against a due of 1000
    e.enforce_epoch(AGENT, 10, 15).expect("enforce");
    assert_eq!(
        e.get_agent_info_view(AGENT).expect("registered").credit_score,
        610
    );
    e.enforce_epoch(AGENT, 11, 15).expect("enforce");
    assert_eq!(
        e.get_agent_info_view(AGENT).expect("registered").credit_score,
        520
    );
    e.enforce_epoch(AGENT, 12, 16).expect("enforce");
    let info = e.get_agent_info_view(AGENT).expect("registered");
    // 520 - 90 = 430: below the activation floor of 500
    assert_eq!(info.credit_score, 430);
    assert_eq!(info.status, AgentStatus::Suspended);
    assert!(!e.can_be_active(AGENT));
}

#[test]
fn reactivation_cannot_rebill_an_existing_record() {
    let mut e = setup();
    register_default(&mut e, AGENT, 600, 10);
    e.bill_epoch(OPERATOR, AGENT, 10, 10, 12).expect("bill");
    e.settle_epoch(AGENT, 10, 500, 12).expect("settle");
    let payout = e.cancel_and_withdraw(AGENT).expect("cancel");
    assert_eq!(payout, 500);
    // the host's epoch counter is an input here; reactivating with a lower
    // one resets the billing baseline below the recorded epoch
    e.register(AGENT, 500, Vec::new(), 500, 50, 1_000_000, 8)
        .expect("reactivation");
    assert_eq!(
        e.get_agent_info_view(AGENT).expect("registered").last_billed_epoch,
        7
    );
    // the per-pair record still blocks a second billing of epoch 10
    assert_eq!(
        e.bill_epoch(OPERATOR, AGENT, 10, 10, 12),
        Err(EscrowError::EpochAlreadyBilled)
    );
}

#[test]
fn enforcing_a_cancelled_agent_keeps_cancellation() {
    let mut e = setup();
    register_default(&mut e, AGENT, 600, 10);
    // due 1000 against a bond of 500: cancellation leaves residual debt,
    // and the record's due shrinks in step with the outstanding total
    e.bill_epoch(OPERATOR, AGENT, 10, 20, 11).expect("bill");
    e.cancel_and_withdraw(AGENT).expect("cancel");
    assert_eq!(e.get_agent_financials_view(AGENT), (0, 500));
    assert_eq!(e.get_epoch_debt_view(AGENT, 10), 500);
    // the record is still open; past the deadline anyone may enforce it,
    // and the empty bond makes the epoch delinquent
    e.enforce_epoch(AGENT, 10, 13).expect("enforce");
    assert_eq!(e.get_epoch_state_view(AGENT, 10), Some(EpochState::Delinquent));
    assert_eq!(e.get_epoch_debt_view(AGENT, 10), 500);
    let info = e.get_agent_info_view(AGENT).expect("registered");
    assert_eq!(info.credit_score, 610);
    // a failed health check never resurrects a cancelled agent
    assert_eq!(info.status, AgentStatus::Cancelled);
}

#[test]
fn credit_score_clamps_at_bounds() {
    let mut e = setup();
    register_default(&mut e, AGENT, 600, 10);
    // drive the score to the cap with repeated on-time settlements
    let mut epoch: u64 = 10;
    while epoch < 80 {
        e.bill_epoch(OPERATOR, AGENT, epoch, 10, epoch + 1).expect("bill");
        e.settle_epoch(AGENT, epoch, 500, epoch + 1).expect("settle");
        epoch += 1;
    }
    assert_eq!(
        e.get_agent_info_view(AGENT).expect("registered").credit_score,
        1000
    );
    // and down to the floor with repeated delinquencies: each due of 1000
    // exceeds what the bond can cover, so every enforcement is delinquent
    while epoch < 92 {
        e.bill_epoch(OPERATOR, AGENT, epoch, 20, epoch + 1).expect("bill");
        e.enforce_epoch(AGENT, epoch, epoch + 4).expect("enforce");
        epoch += 1;
    }
    assert_eq!(
        e.get_agent_info_view(AGENT).expect("registered").credit_score,
        0
    );
}
