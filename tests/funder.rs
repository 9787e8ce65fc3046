use bitcoin_faucet::funder::{
    startup_blocks, total_amount, FundAction, FundError, FundEvent, FundPhase, FundSession,
};
use bitcoin_faucet::request::{RecipientWithAmount, UncheckedAddress};

const ADDR_A: &str = "bc1qxy2kgdygjrsqtzq2n0yrf2493p83kkfjhx0wlh";
const ADDR_B: &str = "bc1qj53cennpes9zshh0ul2ur9r07756g3crr8hxh9";

fn pay(amounts: &[u64]) -> Vec<RecipientWithAmount> {
    amounts
        .iter()
        .enumerate()
        .map(|(i, n)| {
            let a = if i % 2 == 0 { ADDR_A } else { ADDR_B };
            (UncheckedAddress::parse(a).unwrap(), *n)
        })
        .collect()
}

/// Drives a session against a simulated chain whose spendable balance starts
/// at `balance` and grows by `per_block` with each mined block; returns the
/// mining rounds spent acquiring funds and the final action.
fn simulate(
    recipients: &[RecipientWithAmount],
    mut balance: u64,
    per_block: u64,
    finalized: bool,
) -> (u64, FundAction, Vec<FundAction>) {
    let (mut session, mut action) = FundSession::start(&recipients.to_vec()).unwrap();
    let mut rounds = 0;
    let mut trace = vec![action];
    loop {
        let event = match action {
            FundAction::Sync => FundEvent::Synced,
            FundAction::ReadBalance => FundEvent::Balance(balance),
            FundAction::GenerateBlocks(n) => {
                if session.phase() == FundPhase::GeneratingFunds {
                    rounds += 1;
                }
                balance += per_block * n;
                FundEvent::BlocksGenerated
            }
            FundAction::BuildAndSign => FundEvent::Signed(finalized),
            FundAction::Broadcast => FundEvent::Broadcasted,
            FundAction::Finish { .. } | FundAction::Abort(_) => return (rounds, action, trace),
        };
        action = session.step(event);
        trace.push(action);
    }
}

#[test]
fn total_adds_amounts() {
    assert_eq!(total_amount(&pay(&[100000000, 200000000])), Some(300000000));
    assert_eq!(total_amount(&pay(&[])), Some(0));
}

#[test]
fn total_overflow_is_none() {
    assert_eq!(total_amount(&pay(&[u64::MAX, 1])), None);
}

#[test]
fn empty_request_is_refused() {
    assert!(matches!(FundSession::start(&pay(&[])), Err(FundError::EmptyRecipients)));
}

#[test]
fn overflowing_request_is_refused() {
    assert!(matches!(FundSession::start(&pay(&[u64::MAX, 1])), Err(FundError::AmountOverflow)));
}

#[test]
fn startup_mines_only_for_an_empty_wallet() {
    assert_eq!(startup_blocks(0), 101);
    assert_eq!(startup_blocks(1), 0);
}

#[test]
fn mining_rounds_cover_the_shortfall() {
    // shortfall 250, 100 per block: three rounds
    assert_eq!(simulate(&pay(&[300]), 50, 100, true).0, 3);
    // shortfall 200, 100 per block: exactly two rounds
    assert_eq!(simulate(&pay(&[300]), 100, 100, true).0, 2);
    // no shortfall: none
    assert_eq!(simulate(&pay(&[300]), 300, 100, true).0, 0);
}

#[test]
fn incomplete_signing_fails_without_broadcast() {
    let (_, last, trace) = simulate(&pay(&[10]), 100, 100, false);
    assert_eq!(last, FundAction::Abort(FundError::SigningIncomplete));
    assert!(!trace.contains(&FundAction::Broadcast));
}

#[test]
fn chain_failure_before_broadcast_aborts() {
    let (mut s, _) = FundSession::start(&pay(&[10])).unwrap();
    assert_eq!(s.step(FundEvent::ChainFailed), FundAction::Abort(FundError::Chain));
    assert_eq!(s.phase(), FundPhase::Failed);
    assert!(s.is_finished());
}

#[test]
fn confirmation_failure_still_finishes() {
    let (mut s, _) = FundSession::start(&pay(&[10])).unwrap();
    assert_eq!(s.step(FundEvent::Synced), FundAction::ReadBalance);
    assert_eq!(s.step(FundEvent::Balance(10)), FundAction::BuildAndSign);
    assert_eq!(s.step(FundEvent::Signed(true)), FundAction::Broadcast);
    assert_eq!(s.step(FundEvent::Broadcasted), FundAction::GenerateBlocks(1));
    assert_eq!(s.step(FundEvent::ChainFailed), FundAction::Finish { confirmed: false });
    assert_eq!(s.phase(), FundPhase::Done);
}

#[test]
fn unexpected_event_fails() {
    let (mut s, _) = FundSession::start(&pay(&[10])).unwrap();
    assert_eq!(s.step(FundEvent::Broadcasted), FundAction::Abort(FundError::UnexpectedEvent));
}

#[test]
fn pays_fifty_million_from_an_empty_wallet() {
    let (rounds, last, trace) = simulate(&pay(&[50_000_000]), 0, 5_000_000_000, true);
    assert_eq!(rounds, 1);
    assert_eq!(last, FundAction::Finish { confirmed: true });
    assert_eq!(
        trace,
        vec![
            FundAction::Sync,
            FundAction::ReadBalance,
            FundAction::GenerateBlocks(1),
            FundAction::ReadBalance,
            FundAction::BuildAndSign,
            FundAction::Broadcast,
            FundAction::GenerateBlocks(1),
            FundAction::Finish { confirmed: true },
        ]
    );
}

#[test]
fn session_syncs_before_reading_the_balance() {
    let (mut s, first) = FundSession::start(&pay(&[10])).unwrap();
    assert_eq!(first, FundAction::Sync);
    assert_eq!(s.phase(), FundPhase::Syncing);
    assert_eq!(s.step(FundEvent::Balance(10)), FundAction::Abort(FundError::UnexpectedEvent));
}

#[test]
fn sync_failure_aborts() {
    let (mut s, _) = FundSession::start(&pay(&[10])).unwrap();
    assert_eq!(s.step(FundEvent::ChainFailed), FundAction::Abort(FundError::Chain));
}
