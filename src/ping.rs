use vstd::prelude::*;

use crate::text::{contains, has_prefix, occurs_at};

verus! {

/// The transfer that a ping submits: from the signer to itself, of nothing,
/// with the signer paying the fee.
#[derive(Clone, Copy, Debug, PartialEq, Eq)]
pub struct SelfTransfer {
    pub from: [u8; 32],
    pub to: [u8; 32],
    pub lamports: u64,
    pub fee_payer: [u8; 32],
}

/// Builds the ping's transfer for the signer's address.
pub fn self_transfer(signer: [u8; 32]) -> (r: SelfTransfer)
    ensures
        r.from == signer,
        r.to == signer,
        r.fee_payer == signer,
        r.lamports == 0,
{
    SelfTransfer { from: signer, to: signer, lamports: 0, fee_payer: signer }
}

/// The step of a ping that failed.
#[derive(Clone, Copy, Debug, PartialEq, Eq)]
pub enum PingFailure {
    Blockhash,
    Signing,
    Submission,
}

/// A failed ping: the step that failed and what the failing call reported.
#[derive(Debug, PartialEq, Eq)]
pub struct PingError {
    pub failure: PingFailure,
    pub detail: String,
}

pub open spec fn failure_prefix(f: PingFailure) -> Seq<char> {
    match f {
        PingFailure::Blockhash => "unable to get latest blockhash: "@,
        PingFailure::Signing => "failed to sign transaction: "@,
        PingFailure::Submission => "send transaction: "@,
    }
}

impl PingError {
    pub open spec fn message_spec(&self) -> Seq<char> {
        failure_prefix(self.failure) + self.detail@
    }

    /// The human-readable message: the failed step, then the detail.
    pub fn message(&self) -> (r: String)
        ensures
            r@ == self.message_spec(),
    {
        let mut text = match self.failure {
            PingFailure::Blockhash => String::from_str("unable to get latest blockhash: "),
            PingFailure::Signing => String::from_str("failed to sign transaction: "),
            PingFailure::Submission => String::from_str("send transaction: "),
        };
        text.append(self.detail.as_str());
        text
    }
}

/// A ping that fails at submission (with an expired blockhash, say) reports
/// a submission error, never a signing error: its message starts with the
/// submission step's words, and it holds the words of a signing failure only
/// where the node's own error text does.
pub proof fn lemma_submission_failure_is_not_signing(detail: String)
    ensures
        ({
            let m = (PingError { failure: PingFailure::Submission, detail }).message_spec();
            &&& has_prefix(m, "send transaction: "@)
            &&& !has_prefix(m, "failed to sign transaction: "@)
            &&& !contains(detail@, "failed to sign transaction"@) ==> !contains(
                m,
                "failed to sign transaction"@,
            )
        }),
{
    reveal_strlit("send transaction: ");
    reveal_strlit("failed to sign transaction: ");
    reveal_strlit("failed to sign transaction");
    let m = (PingError { failure: PingFailure::Submission, detail }).message_spec();
    let pre = "send transaction: "@;
    let pat = "failed to sign transaction"@;
    assert(m.subrange(0, pre.len() as int) =~= pre);
    if m.len() >= 28 {
        assert(m.subrange(0, 28)[0] == pre[0]);
        assert("failed to sign transaction: "@[0] == 'f');
    }
    if !contains(detail@, pat) {
        assert forall|i: int| !occurs_at(m, pat, i) by {
            if occurs_at(m, pat, i) {
                if i >= 18 {
                    assert(detail@.subrange(i - 18, i - 18 + pat.len()) =~= m.subrange(
                        i,
                        i + pat.len(),
                    ));
                    assert(occurs_at(detail@, pat, i - 18));
                } else {
                    assert(m.subrange(i, i + pat.len())[0] == pre[i]);
                    assert(pat[0] == 'f');
                }
            }
        }
    }
}

/// Where a ping stands: each stage waits for the outcome of one outside call.
#[derive(Clone, Copy, Debug, PartialEq, Eq)]
pub enum PingStage {
    FetchingBlockhash,
    Signing,
    Submitting,
    Finished,
}

/// The outcome of the call that the current stage waits for.
#[derive(Debug, PartialEq, Eq)]
pub enum PingEvent {
    /// The latest blockhash, or why it could not be had.
    Blockhash(Result<[u8; 32], String>),
    /// Whether the signer signed the transaction.
    Signed(Result<(), String>),
    /// The confirmed transaction's signature, or why submission failed.
    Submitted(Result<String, String>),
}

/// What the caller is to do next.
#[derive(Debug, PartialEq, Eq)]
pub enum PingAction {
    FetchBlockhash,
    Sign { blockhash: [u8; 32] },
    Submit,
    Finish(Result<String, PingError>),
}

/// The decisions of a ping: fetch a blockhash, sign with it, submit, and stop
/// at the first failure, which is tagged with its step. Nothing is retried.
#[derive(Clone, Copy, Debug)]
pub struct PingFlow {
    pub stage: PingStage,
}

impl PingFlow {
    /// Whether `event` answers the call that the current stage waits for.
    pub open spec fn awaits(&self, event: PingEvent) -> bool {
        match event {
            PingEvent::Blockhash(_) => self.stage == PingStage::FetchingBlockhash,
            PingEvent::Signed(_) => self.stage == PingStage::Signing,
            PingEvent::Submitted(_) => self.stage == PingStage::Submitting,
        }
    }

    /// Starts a ping; the first action is to fetch the latest blockhash.
    pub fn start() -> (r: (PingFlow, PingAction))
        ensures
            r.0.stage == PingStage::FetchingBlockhash,
            r.1 == PingAction::FetchBlockhash,
    {
        (PingFlow { stage: PingStage::FetchingBlockhash }, PingAction::FetchBlockhash)
    }

    /// Takes the outcome of the awaited call and says what to do next.
    pub fn step(&mut self, event: PingEvent) -> (r: PingAction)
        requires
            old(self).awaits(event),
        ensures
            match event {
                PingEvent::Blockhash(Ok(hash)) => final(self).stage == PingStage::Signing
                    && r == PingAction::Sign { blockhash: hash },
                PingEvent::Signed(Ok(())) => final(self).stage == PingStage::Submitting
                    && r == PingAction::Submit,
                PingEvent::Submitted(Ok(signature)) => final(self).stage == PingStage::Finished
                    && r == PingAction::Finish(Ok(signature)),
                PingEvent::Blockhash(Err(e)) => final(self).stage == PingStage::Finished
                    && r == PingAction::Finish(
                    Err(PingError { failure: PingFailure::Blockhash, detail: e }),
                ),
                PingEvent::Signed(Err(e)) => final(self).stage == PingStage::Finished
                    && r == PingAction::Finish(
                    Err(PingError { failure: PingFailure::Signing, detail: e }),
                ),
                PingEvent::Submitted(Err(e)) => final(self).stage == PingStage::Finished
                    && r == PingAction::Finish(
                    Err(PingError { failure: PingFailure::Submission, detail: e }),
                ),
            },
    {
        match event {
            PingEvent::Blockhash(Ok(hash)) => {
                self.stage = PingStage::Signing;
                PingAction::Sign { blockhash: hash }
            },
            PingEvent::Signed(Ok(())) => {
                self.stage = PingStage::Submitting;
                PingAction::Submit
            },
            PingEvent::Submitted(Ok(signature)) => {
                self.stage = PingStage::Finished;
                PingAction::Finish(Ok(signature))
            },
            PingEvent::Blockhash(Err(e)) => {
                self.stage = PingStage::Finished;
                PingAction::Finish(Err(PingError { failure: PingFailure::Blockhash, detail: e }))
            },
            PingEvent::Signed(Err(e)) => {
                self.stage = PingStage::Finished;
                PingAction::Finish(Err(PingError { failure: PingFailure::Signing, detail: e }))
            },
            PingEvent::Submitted(Err(e)) => {
                self.stage = PingStage::Finished;
                PingAction::Finish(Err(PingError { failure: PingFailure::Submission, detail: e }))
            },
        }
    }
}

} // verus!
