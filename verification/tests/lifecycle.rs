//! Agent lifecycle: initialization, registration and promotion, bond
//! top-ups, pausing and resuming, cancellation, and owner controls.

use stream_agency_escrow::AgentStatus;
use stream_agency_escrow::EscrowError;
use stream_agency_escrow::StreamAgencyEscrow;

const OWNER: u64 = 1;
const OPERATOR: u64 = 2;

fn setup_with_promo(promo_free_slots: u64) -> StreamAgencyEscrow {
    StreamAgencyEscrow::init(OWNER, OPERATOR, 1000, 100, 500, promo_free_slots, 2, 10, 100)
        .expect("valid configuration")
}

fn setup() -> StreamAgencyEscrow {
    setup_with_promo(0)
}

fn register_default(e: &mut StreamAgencyEscrow, id: u64, payment: u128, now: u64) {
    e.register(id, payment, Vec::new(), 500, 50, 1_000_000, now)
        .expect("registration should succeed");
}

#[test]
fn init_validates_configuration() {
    assert_eq!(
        StreamAgencyEscrow::init(OWNER, 0, 1000, 100, 500, 0, 2, 10, 100).expect_err("rejected"),
        EscrowError::InvalidOperator
    );
    assert_eq!(
        StreamAgencyEscrow::init(OWNER, OPERATOR, 0, 100, 500, 0, 2, 10, 100)
            .expect_err("rejected"),
        EscrowError::InvalidWindowReward
    );
    assert_eq!(
        StreamAgencyEscrow::init(OWNER, OPERATOR, 1000, 0, 500, 0, 2, 10, 100)
            .expect_err("rejected"),
        EscrowError::InvalidSetupFee
    );
    assert_eq!(
        StreamAgencyEscrow::init(OWNER, OPERATOR, 1000, 100, 0, 0, 2, 10, 100)
            .expect_err("rejected"),
        EscrowError::InvalidMinBond
    );
    assert_eq!(
        StreamAgencyEscrow::init(OWNER, OPERATOR, 1000, 100, 500, 0, 0, 10, 100)
            .expect_err("rejected"),
        EscrowError::InvalidGraceEpochs
    );
    assert_eq!(
        StreamAgencyEscrow::init(OWNER, OPERATOR, 1000, 100, 500, 0, 2, 0, 100)
            .expect_err("rejected"),
        EscrowError::InvalidBackbillLimit
    );
    assert_eq!(
        StreamAgencyEscrow::init(OWNER, OPERATOR, 1000, 100, 500, 0, 2, 10, 0)
            .expect_err("rejected"),
        EscrowError::InvalidWindowHardCap
    );
    let e = setup();
    let c = e.get_config_view();
    assert_eq!(c.owner, OWNER);
    assert_eq!(c.operator, OPERATOR);
    assert_eq!(c.window_reward, 1000);
    assert_eq!(c.setup_fee, 100);
    assert_eq!(c.min_bond, 500);
    assert_eq!(c.grace_epochs, 2);
    assert_eq!(e.get_claimable_owner_view(), 0);
    assert_eq!(e.get_active_agent_count_view(), 0);
    assert_eq!(e.get_promo_usage_view(), (0, 0));
}

#[test]
fn register_validates_arguments() {
    let mut e = setup();
    assert_eq!(
        e.register(5, 600, Vec::new(), 0, 50, 1_000_000, 10),
        Err(EscrowError::InvalidFeeBps)
    );
    assert_eq!(
        e.register(5, 600, Vec::new(), 10_001, 50, 1_000_000, 10),
        Err(EscrowError::InvalidFeeBps)
    );
    assert_eq!(
        e.register(5, 600, Vec::new(), 500, 0, 1_000_000, 10),
        Err(EscrowError::InvalidMaxWindows)
    );
    assert_eq!(
        e.register(5, 600, Vec::new(), 500, 101, 1_000_000, 10),
        Err(EscrowError::MaxWindowsExceedsHardCap)
    );
    assert_eq!(
        e.register(5, 600, Vec::new(), 500, 50, 0, 10),
        Err(EscrowError::InvalidMaxCharge)
    );
    assert_eq!(
        e.register(5, 0, Vec::new(), 500, 50, 1_000_000, 10),
        Err(EscrowError::PaymentRequired)
    );
    // setup fee 100 plus minimum bond 500 must be covered
    assert_eq!(
        e.register(5, 599, Vec::new(), 500, 50, 1_000_000, 10),
        Err(EscrowError::InsufficientRegisterPayment)
    );
    assert_eq!(e.get_active_agent_count_view(), 0);
}

#[test]
fn register_promo_waives_setup_fee() {
    let mut e = setup_with_promo(1);
    // first registrant: a free slot remains, so only the minimum bond is due
    register_default(&mut e, 5, 500, 10);
    assert_eq!(e.get_claimable_owner_view(), 0);
    assert_eq!(e.get_agent_financials_view(5), (500, 0));
    let info = e.get_agent_info_view(5).expect("registered");
    assert!(info.used_promo);
    assert_eq!(info.status, AgentStatus::Active);
    assert_eq!(info.credit_score, 700);
    assert_eq!(info.joined_epoch, 10);
    assert_eq!(info.last_billed_epoch, 9);
    assert_eq!(e.get_promo_usage_view(), (1, 1));

    // second registrant: no slot left, the setup fee is charged
    assert_eq!(
        e.register(6, 599, Vec::new(), 500, 50, 1_000_000, 10),
        Err(EscrowError::InsufficientRegisterPayment)
    );
    register_default(&mut e, 6, 600, 10);
    assert_eq!(e.get_claimable_owner_view(), 100);
    assert_eq!(e.get_agent_financials_view(6), (500, 0));
    assert!(!e.get_agent_info_view(6).expect("registered").used_promo);
    assert_eq!(e.get_promo_usage_view(), (1, 1));
    assert_eq!(e.get_active_agent_count_view(), 2);
}

#[test]
fn register_update_overwrites_guards_and_adds_bond() {
    let mut e = setup();
    register_default(&mut e, 5, 700, 10);
    assert_eq!(e.get_agent_financials_view(5), (600, 0));
    e.register(5, 50, vec![1, 2, 3], 1000, 20, 2_000_000, 11)
        .expect("update should succeed");
    let info = e.get_agent_info_view(5).expect("registered");
    assert_eq!(info.fee_bps, 1000);
    assert_eq!(info.max_windows_per_epoch, 20);
    assert_eq!(info.max_charge_per_epoch, 2_000_000);
    assert_eq!(info.metadata, vec![1, 2, 3]);
    assert_eq!(info.status, AgentStatus::Active);
    // no second setup fee, the whole payment joined the bond
    assert_eq!(e.get_agent_financials_view(5), (650, 0));
    assert_eq!(e.get_claimable_owner_view(), 100);
    assert_eq!(e.get_active_agent_count_view(), 1);
}

#[test]
fn top_up_bond_flow() {
    let mut e = setup();
    assert_eq!(e.top_up_bond(5, 10), Err(EscrowError::AgentNotEnrolled));
    register_default(&mut e, 5, 700, 10);
    assert_eq!(e.top_up_bond(5, 0), Err(EscrowError::PaymentRequired));
    e.top_up_bond(5, 40).expect("top-up should succeed");
    assert_eq!(e.get_agent_financials_view(5), (640, 0));
    e.cancel_and_withdraw(5).expect("cancel should succeed");
    assert_eq!(e.top_up_bond(5, 40), Err(EscrowError::AgentCancelled));
}

#[test]
fn set_billing_guards_flow() {
    let mut e = setup();
    assert_eq!(
        e.set_billing_guards(5, 10, 100),
        Err(EscrowError::AgentNotEnrolled)
    );
    register_default(&mut e, 5, 700, 10);
    assert_eq!(
        e.set_billing_guards(5, 0, 100),
        Err(EscrowError::InvalidMaxWindows)
    );
    assert_eq!(
        e.set_billing_guards(5, 101, 100),
        Err(EscrowError::MaxWindowsExceedsHardCap)
    );
    assert_eq!(
        e.set_billing_guards(5, 10, 0),
        Err(EscrowError::InvalidMaxCharge)
    );
    e.set_billing_guards(5, 10, 100).expect("guards update");
    let info = e.get_agent_info_view(5).expect("registered");
    assert_eq!(info.max_windows_per_epoch, 10);
    assert_eq!(info.max_charge_per_epoch, 100);
}

#[test]
fn pause_and_resume() {
    let mut e = setup();
    register_default(&mut e, 5, 700, 10);
    assert_eq!(e.get_active_agent_count_view(), 1);
    assert_eq!(e.resume_if_healthy(5), Err(EscrowError::NotPausedOrSuspended));
    e.pause(5).expect("pause should succeed");
    assert_eq!(
        e.get_agent_info_view(5).expect("registered").status,
        AgentStatus::Paused
    );
    assert_eq!(e.get_active_agent_count_view(), 0);
    assert_eq!(e.pause(5), Err(EscrowError::NotActive));
    assert!(e.can_be_active(5));
    e.resume_if_healthy(5).expect("resume should succeed");
    assert_eq!(
        e.get_agent_info_view(5).expect("registered").status,
        AgentStatus::Active
    );
    assert_eq!(e.get_active_agent_count_view(), 1);
}

#[test]
fn resume_fails_when_unhealthy() {
    let mut e = setup();
    // register with exactly the minimum bond, then pause and drain health
    // by billing debt: outstanding debt blocks the activation policy
    register_default(&mut e, 5, 600, 10);
    e.pause(5).expect("pause");
    e.bill_epoch(OPERATOR, 5, 10, 10, 11).expect("bill");
    assert!(!e.can_be_active(5));
    assert_eq!(e.resume_if_healthy(5), Err(EscrowError::HealthChecksFailed));
    assert_eq!(
        e.get_agent_info_view(5).expect("registered").status,
        AgentStatus::Paused
    );
}

#[test]
fn cancel_and_withdraw_is_idempotent() {
    let mut e = setup();
    assert_eq!(e.cancel_and_withdraw(5), Err(EscrowError::AgentNotEnrolled));
    register_default(&mut e, 5, 600, 10);
    // windows 10 at 500 bps of reward 1000: due 500 of debt
    e.bill_epoch(OPERATOR, 5, 10, 10, 11).expect("bill");
    assert_eq!(e.get_agent_financials_view(5), (500, 500));
    let payout = e.cancel_and_withdraw(5).expect("first cancel");
    // the whole bond went into the debt, nothing left to pay out; the
    // record's due shrank in step with the outstanding total
    assert_eq!(payout, 0);
    assert_eq!(e.get_agent_financials_view(5), (0, 0));
    assert_eq!(e.get_epoch_debt_view(5, 10), 0);
    assert_eq!(e.get_claimable_owner_view(), 100 + 500);
    assert_eq!(
        e.get_agent_info_view(5).expect("registered").status,
        AgentStatus::Cancelled
    );
    assert_eq!(e.get_active_agent_count_view(), 0);
    // a second cancellation changes nothing
    let payout2 = e.cancel_and_withdraw(5).expect("second cancel");
    assert_eq!(payout2, 0);
    assert_eq!(e.get_agent_financials_view(5), (0, 0));
    assert_eq!(e.get_epoch_debt_view(5, 10), 0);
    assert_eq!(e.get_claimable_owner_view(), 600);
    assert_eq!(
        e.get_agent_info_view(5).expect("registered").status,
        AgentStatus::Cancelled
    );
}

#[test]
fn cancel_pays_out_remaining_bond() {
    let mut e = setup();
    register_default(&mut e, 5, 1100, 10);
    e.bill_epoch(OPERATOR, 5, 10, 10, 11).expect("bill");
    // bond 1000, debt 500: the debt is slashed, the rest paid out
    let payout = e.cancel_and_withdraw(5).expect("cancel");
    assert_eq!(payout, 500);
    assert_eq!(e.get_agent_financials_view(5), (0, 0));
    assert_eq!(e.get_epoch_debt_view(5, 10), 0);
    assert_eq!(e.get_claimable_owner_view(), 100 + 500);
}

#[test]
fn reactivation_after_cancel() {
    let mut e = setup();
    register_default(&mut e, 5, 600, 10);
    e.cancel_and_withdraw(5).expect("cancel");
    assert_eq!(
        e.register(5, 499, Vec::new(), 500, 50, 1_000_000, 20),
        Err(EscrowError::NeedMinBondToReactivate)
    );
    e.register(5, 500, Vec::new(), 500, 50, 1_000_000, 20)
        .expect("reactivation");
    let info = e.get_agent_info_view(5).expect("registered");
    // healthy again: bond at the minimum, no debt, good score
    assert_eq!(info.status, AgentStatus::Active);
    assert_eq!(info.last_billed_epoch, 19);
    assert_eq!(e.get_agent_financials_view(5), (500, 0));
    assert_eq!(e.get_active_agent_count_view(), 1);
}

#[test]
fn reactivation_blocked_by_outstanding_debt() {
    let mut e = setup();
    register_default(&mut e, 5, 600, 10);
    // due 500 twice: bond 500 covers only the first at cancellation
    e.bill_epoch(OPERATOR, 5, 10, 10, 12).expect("bill");
    e.bill_epoch(OPERATOR, 5, 11, 10, 12).expect("bill");
    assert_eq!(e.get_agent_financials_view(5), (500, 1000));
    let payout = e.cancel_and_withdraw(5).expect("cancel");
    assert_eq!(payout, 0);
    assert_eq!(e.get_agent_financials_view(5), (0, 500));
    // the slash of 500 was absorbed by the older record first
    assert_eq!(e.get_epoch_debt_view(5, 10), 0);
    assert_eq!(e.get_epoch_debt_view(5, 11), 500);
    assert_eq!(
        e.register(5, 500, Vec::new(), 500, 50, 1_000_000, 20),
        Err(EscrowError::OutstandingDebtExists)
    );
}

#[test]
fn owner_withdraw_flow() {
    let mut e = setup();
    register_default(&mut e, 5, 600, 10);
    assert_eq!(e.get_claimable_owner_view(), 100);
    assert_eq!(e.withdraw_owner(5, 50, 9), Err(EscrowError::OnlyOwner));
    assert_eq!(e.withdraw_owner(OWNER, 0, 9), Err(EscrowError::InvalidAmount));
    assert_eq!(
        e.withdraw_owner(OWNER, 50, 0),
        Err(EscrowError::InvalidRecipient)
    );
    assert_eq!(
        e.withdraw_owner(OWNER, 101, 9),
        Err(EscrowError::InsufficientClaimable)
    );
    e.withdraw_owner(OWNER, 60, 9).expect("withdraw");
    assert_eq!(e.get_claimable_owner_view(), 40);
}

#[test]
fn owner_configuration_setters() {
    let mut e = setup();
    assert_eq!(e.set_operator(5, 7), Err(EscrowError::OnlyOwner));
    assert_eq!(e.set_operator(OWNER, 0), Err(EscrowError::InvalidOperator));
    e.set_operator(OWNER, 7).expect("set operator");
    assert_eq!(e.get_config_view().operator, 7);
    assert_eq!(e.set_window_reward(OWNER, 0), Err(EscrowError::InvalidWindowReward));
    e.set_window_reward(OWNER, 2000).expect("set reward");
    assert_eq!(e.get_config_view().window_reward, 2000);
    e.set_promo_slots(OWNER, 3).expect("set slots");
    assert_eq!(e.get_promo_usage_view(), (0, 3));
    assert_eq!(
        e.set_max_backbill_epochs(OWNER, 0),
        Err(EscrowError::InvalidBackbillLimit)
    );
    e.set_max_backbill_epochs(OWNER, 4).expect("set backbill");
    assert_eq!(e.get_config_view().max_backbill_epochs, 4);
    assert_eq!(
        e.set_hard_max_windows_per_epoch(OWNER, 0),
        Err(EscrowError::InvalidWindowHardCap)
    );
    e.set_hard_max_windows_per_epoch(OWNER, 7).expect("set cap");
    assert_eq!(e.get_config_view().hard_max_windows_per_epoch, 7);
    assert_eq!(e.set_owner(5, 5), Err(EscrowError::OnlyOwner));
    assert_eq!(e.set_owner(OWNER, 0), Err(EscrowError::InvalidOwner));
    e.set_owner(OWNER, 8).expect("set owner");
    assert_eq!(e.get_config_view().owner, 8);
    assert_eq!(e.set_operator(OWNER, 9), Err(EscrowError::OnlyOwner));
}

#[test]
fn status_codes_and_upgrade() {
    let mut e = setup();
    assert_eq!(e.status_to_code(&AgentStatus::Active), 1);
    assert_eq!(e.status_to_code(&AgentStatus::Paused), 2);
    assert_eq!(e.status_to_code(&AgentStatus::Suspended), 3);
    assert_eq!(e.status_to_code(&AgentStatus::Cancelled), 4);
    register_default(&mut e, 5, 600, 10);
    e.upgrade();
    assert_eq!(e.get_agent_financials_view(5), (500, 0));
    assert_eq!(e.get_active_agent_count_view(), 1);
}
