//! One `fund` call as a state machine. The library decides what happens next;
//! the caller performs each action against the wallet and the node and reports
//! back what came of it. The caller holds the funder exclusively for the whole
//! session, from `start` until the session is finished.
use vstd::prelude::*;
use crate::request::RecipientWithAmount;

verus! {

/// Blocks mined at start-up to mature the first coinbase reward.
pub const MATURITY_BLOCKS: u64 = 101;

/// Sum of the amounts of a list of payouts.
pub open spec fn sum_amounts(rs: Seq<RecipientWithAmount>) -> int
    decreases rs.len(),
{
    if rs.len() == 0 {
        0
    } else {
        sum_amounts(rs.drop_last()) + rs.last().1
    }
}

proof fn lemma_sum_prefix_le(rs: Seq<RecipientWithAmount>, i: int)
    requires
        0 <= i <= rs.len(),
    ensures
        sum_amounts(rs.take(i)) <= sum_amounts(rs),
    decreases rs.len(),
{
    if i < rs.len() {
        assert(rs.drop_last().take(i) =~= rs.take(i));
        lemma_sum_prefix_le(rs.drop_last(), i);
    } else {
        assert(rs.take(i) =~= rs);
    }
}

/// Total payout of a request; `None` when it does not fit in 64 bits.
pub fn total_amount(recipients: &Vec<RecipientWithAmount>) -> (r: Option<u64>)
    ensures
        sum_amounts(recipients@) <= u64::MAX ==> r == Some(sum_amounts(recipients@) as u64),
        sum_amounts(recipients@) > u64::MAX ==> r.is_none(),
        r matches Some(t) ==> t == sum_amounts(recipients@),
{
    let mut acc: u64 = 0;
    let mut i: usize = 0;
    while i < recipients.len()
        invariant
            i <= recipients@.len(),
            acc == sum_amounts(recipients@.take(i as int)),
        decreases recipients@.len() - i,
    {
        assert(recipients@.take(i + 1).drop_last() =~= recipients@.take(i as int));
        match acc.checked_add(recipients[i].1) {
            Some(next) => {
                acc = next;
            },
            None => {
                proof {
                    lemma_sum_prefix_le(recipients@, i + 1);
                }
                return None;
            },
        }
        i = i + 1;
    }
    assert(recipients@.take(i as int) =~= recipients@);
    Some(acc)
}

/// Blocks to mine when the funder starts: enough to mature a first coinbase
/// reward when nothing is spendable yet, none otherwise.
pub fn startup_blocks(spendable: u64) -> (r: u64)
    ensures
        r == (if spendable == 0 { MATURITY_BLOCKS } else { 0 }),
{
    if spendable == 0 {
        MATURITY_BLOCKS
    } else {
        0
    }
}

#[derive(PartialEq, Eq, Structural, Clone, Copy, Debug)]
pub enum FundError {
    /// The request names no recipient.
    EmptyRecipients,
    /// The amounts add up to more than 64 bits hold.
    AmountOverflow,
    /// Signing did not finalize every input.
    SigningIncomplete,
    /// The node or the wallet reported a failure.
    Chain,
    /// An outcome was reported that the session did not ask for.
    UnexpectedEvent,
}

#[derive(PartialEq, Eq, Structural, Clone, Copy, Debug)]
pub enum FundPhase {
    /// Waiting for the wallet to sync with the node.
    Syncing,
    /// Waiting for the spendable balance.
    CheckingBalance,
    /// Waiting for blocks to be mined to the wallet and synced. The session
    /// mines one block at a time for as long as the balance falls short, so
    /// it needs a node that can mine on demand (a regtest chain); on other
    /// chains the caller has to bound the rounds itself.
    GeneratingFunds,
    /// Waiting for the transaction to be built and signed.
    Signing,
    /// Waiting for the signed transaction to reach the node.
    Broadcasting,
    /// Waiting for the confirming block.
    Confirming,
    /// The transaction was broadcast.
    Done,
    /// The session stopped before anything was broadcast.
    Failed,
}

/// What the caller reports after performing an action.
#[derive(PartialEq, Eq, Structural, Clone, Copy, Debug)]
pub enum FundEvent {
    /// The wallet synced with the node.
    Synced,
    /// The wallet's spendable balance, in satoshis.
    Balance(u64),
    /// The requested blocks were mined and the wallet synced.
    BlocksGenerated,
    /// The transaction was built and signed; `true` when every input was
    /// finalized.
    Signed(bool),
    /// The node accepted the transaction.
    Broadcasted,
    /// The node or the wallet failed.
    ChainFailed,
}

/// What the caller is to do next.
#[derive(PartialEq, Eq, Structural, Clone, Copy, Debug)]
pub enum FundAction {
    /// Sync the wallet with the node.
    Sync,
    /// Read the wallet's spendable balance.
    ReadBalance,
    /// Mine this many blocks to the wallet, then sync it.
    GenerateBlocks(u64),
    /// Build one transaction paying every recipient and sign it.
    BuildAndSign,
    /// Send the signed transaction to the node.
    Broadcast,
    /// Hand the transaction id back; `confirmed` is false when the
    /// confirming block could not be mined.
    Finish { confirmed: bool },
    /// Report the error; nothing was broadcast.
    Abort(FundError),
}

/// Where a session goes on an event, and what it asks for next.
pub open spec fn next_step(total: u64, phase: FundPhase, e: FundEvent) -> (FundPhase, FundAction) {
    match (phase, e) {
        (FundPhase::Syncing, FundEvent::Synced) => (FundPhase::CheckingBalance, FundAction::ReadBalance),
        (FundPhase::CheckingBalance, FundEvent::Balance(b)) => if b < total {
            (FundPhase::GeneratingFunds, FundAction::GenerateBlocks(1))
        } else {
            (FundPhase::Signing, FundAction::BuildAndSign)
        },
        (FundPhase::GeneratingFunds, FundEvent::BlocksGenerated) => (
            FundPhase::CheckingBalance,
            FundAction::ReadBalance,
        ),
        (FundPhase::Signing, FundEvent::Signed(finalized)) => if finalized {
            (FundPhase::Broadcasting, FundAction::Broadcast)
        } else {
            (FundPhase::Failed, FundAction::Abort(FundError::SigningIncomplete))
        },
        (FundPhase::Broadcasting, FundEvent::Broadcasted) => (
            FundPhase::Confirming,
            FundAction::GenerateBlocks(1),
        ),
        (FundPhase::Confirming, FundEvent::BlocksGenerated) => (
            FundPhase::Done,
            FundAction::Finish { confirmed: true },
        ),
        (FundPhase::Confirming, FundEvent::ChainFailed) => (
            FundPhase::Done,
            FundAction::Finish { confirmed: false },
        ),
        (_, FundEvent::ChainFailed) => (FundPhase::Failed, FundAction::Abort(FundError::Chain)),
        _ => (FundPhase::Failed, FundAction::Abort(FundError::UnexpectedEvent)),
    }
}

pub open spec fn is_terminal(phase: FundPhase) -> bool {
    phase == FundPhase::Done || phase == FundPhase::Failed
}

/// Smallest number of steps of `step` that cover `amount`.
pub open spec fn ceil_div(amount: int, step: int) -> int {
    (amount + step - 1) / step
}

/// Rounds of mining that a session asks for when it starts from `balance`
/// and each mined block (after the sync) adds `per_block` to what is
/// spendable.
pub open spec fn mining_rounds(total: u64, balance: int, per_block: int) -> nat
    decreases (if balance < total { total - balance } else { 0 }),
{
    if per_block > 0 && 0 <= balance < total && next_step(
        total,
        FundPhase::CheckingBalance,
        FundEvent::Balance(balance as u64),
    ).1 == FundAction::GenerateBlocks(1) {
        1 + mining_rounds(total, balance + per_block, per_block)
    } else {
        0
    }
}

proof fn lemma_mining_rounds_from(total: u64, balance: int, per_block: int)
    requires
        per_block > 0,
        balance >= 0,
    ensures
        mining_rounds(total, balance, per_block) == (if balance < total {
            ceil_div(total - balance, per_block)
        } else {
            0
        }),
    decreases (if balance < total { total - balance } else { 0 }),
{
    if balance < total {
        let next = balance + per_block;
        lemma_mining_rounds_from(total, next, per_block);
        let x = total - balance;
        let k = per_block;
        if next < total {
            assert((x + k - 1) / k == 1 + (x - 1) / k) by (nonlinear_arith)
                requires
                    x > k,
                    k > 0,
            {
                assert(x + k - 1 == (x - 1) + k);
            }
        } else {
            assert((x + k - 1) / k == 1) by (nonlinear_arith)
                requires
                    0 < x <= k,
            ;
        }
    }
}

/// When each block adds a fixed amount, the balance check asks for mining
/// exactly as many times as it takes that amount to cover the shortfall,
/// after which it turns to building the transaction.
pub proof fn lemma_mining_rounds(total: u64, balance: u64, per_block: u64)
    requires
        per_block > 0,
    ensures
        mining_rounds(total, balance as int, per_block as int) == (if balance < total {
            ceil_div(total - balance, per_block as int)
        } else {
            0
        }),
{
    lemma_mining_rounds_from(total, balance as int, per_block as int);
}

/// A signing that did not finalize every input ends the session with its own
/// error, and a broadcast is asked for only right after a finalized signing.
pub proof fn lemma_broadcast_needs_finalized(total: u64, phase: FundPhase, e: FundEvent)
    ensures
        next_step(total, FundPhase::Signing, FundEvent::Signed(false)) == (
            FundPhase::Failed,
            FundAction::Abort(FundError::SigningIncomplete),
        ),
        next_step(total, phase, e).1 == FundAction::Broadcast ==> phase == FundPhase::Signing && e
            == FundEvent::Signed(true),
{
}

/// The transaction is built only once the spendable balance covers the total,
/// and the session mines for funds only while it does not.
pub proof fn lemma_builds_only_when_covered(total: u64, phase: FundPhase, e: FundEvent)
    ensures
        next_step(total, phase, e).1 == FundAction::BuildAndSign ==> phase
            == FundPhase::CheckingBalance && (e matches FundEvent::Balance(b) && b >= total),
        (e matches FundEvent::Balance(b) && b < total) ==> next_step(
            total,
            FundPhase::CheckingBalance,
            e,
        ) == (FundPhase::GeneratingFunds, FundAction::GenerateBlocks(1)),
{
}

/// The balance is read only right after the wallet synced: after the sync
/// that opens the session, or after blocks were mined and synced.
pub proof fn lemma_balance_read_after_sync(total: u64, phase: FundPhase, e: FundEvent)
    ensures
        next_step(total, phase, e).1 == FundAction::ReadBalance ==> (phase == FundPhase::Syncing
            && e == FundEvent::Synced) || (phase == FundPhase::GeneratingFunds && e
            == FundEvent::BlocksGenerated),
{
}

/// The progress of one `fund` call.
pub struct FundSession {
    total: u64,
    phase: FundPhase,
}

impl FundSession {
    pub closed spec fn spec_total(&self) -> u64 {
        self.total
    }

    pub closed spec fn spec_phase(&self) -> FundPhase {
        self.phase
    }

    /// Opens a session for a request and asks for a sync of the wallet, so
    /// that the balance it then reads is current. An empty
    /// request, or one whose amounts overflow, is refused before any wallet
    /// work.
    pub fn start(recipients: &Vec<RecipientWithAmount>) -> (r: Result<
        (FundSession, FundAction),
        FundError,
    >)
        ensures
            recipients@.len() == 0 ==> r == Err::<(FundSession, FundAction), FundError>(
                FundError::EmptyRecipients,
            ),
            recipients@.len() > 0 && sum_amounts(recipients@) > u64::MAX ==> r == Err::<
                (FundSession, FundAction),
                FundError,
            >(FundError::AmountOverflow),
            recipients@.len() > 0 && sum_amounts(recipients@) <= u64::MAX ==> r.is_ok(),
            r matches Ok(p) ==> p.0.spec_total() == sum_amounts(recipients@) && p.0.spec_phase()
                == FundPhase::Syncing && p.1 == FundAction::Sync,
    {
        if recipients.len() == 0 {
            return Err(FundError::EmptyRecipients);
        }
        match total_amount(recipients) {
            Some(total) => Ok((FundSession { total, phase: FundPhase::Syncing }, FundAction::Sync)),
            None => Err(FundError::AmountOverflow),
        }
    }

    /// The total amount the session pays out.
    pub fn total(&self) -> (r: u64)
        ensures
            r == self.spec_total(),
    {
        self.total
    }

    pub fn phase(&self) -> (r: FundPhase)
        ensures
            r == self.spec_phase(),
    {
        self.phase
    }

    pub fn is_finished(&self) -> (r: bool)
        ensures
            r == is_terminal(self.spec_phase()),
    {
        match self.phase {
            FundPhase::Done | FundPhase::Failed => true,
            _ => false,
        }
    }

    /// Takes the outcome of the last action and says what to do next.
    pub fn step(&mut self, e: FundEvent) -> (r: FundAction)
        requires
            !is_terminal(old(self).spec_phase()),
        ensures
            final(self).spec_total() == old(self).spec_total(),
            (final(self).spec_phase(), r) == next_step(old(self).spec_total(), old(self).spec_phase(), e),
    {
        let (phase, action) = match (self.phase, e) {
            (FundPhase::Syncing, FundEvent::Synced) => (FundPhase::CheckingBalance, FundAction::ReadBalance),
            (FundPhase::CheckingBalance, FundEvent::Balance(b)) => {
                if b < self.total {
                    (FundPhase::GeneratingFunds, FundAction::GenerateBlocks(1))
                } else {
                    (FundPhase::Signing, FundAction::BuildAndSign)
                }
            },
            (FundPhase::GeneratingFunds, FundEvent::BlocksGenerated) => (FundPhase::CheckingBalance, FundAction::ReadBalance),
            (FundPhase::Signing, FundEvent::Signed(finalized)) => {
                if finalized {
                    (FundPhase::Broadcasting, FundAction::Broadcast)
                } else {
                    (FundPhase::Failed, FundAction::Abort(FundError::SigningIncomplete))
                }
            },
            (FundPhase::Broadcasting, FundEvent::Broadcasted) => (FundPhase::Confirming, FundAction::GenerateBlocks(1)),
            (FundPhase::Confirming, FundEvent::BlocksGenerated) => (FundPhase::Done, FundAction::Finish { confirmed: true }),
            (FundPhase::Confirming, FundEvent::ChainFailed) => (FundPhase::Done, FundAction::Finish { confirmed: false }),
            (_, FundEvent::ChainFailed) => (FundPhase::Failed, FundAction::Abort(FundError::Chain)),
            _ => (FundPhase::Failed, FundAction::Abort(FundError::UnexpectedEvent)),
        };
        self.phase = phase;
        action
    }
}

} // verus!
