//! The terminal result of a redemption and how it is reported to a caller.

use vstd::prelude::*;

verus! {

/// Why a redemption was refused without any side effect.
#[derive(Clone, Copy, Debug, PartialEq, Eq, Structural)]
pub enum RejectReason {
    /// The request asked for zero or a negative number of days.
    InvalidDays,
    /// No account exists for the user.
    UnknownUser,
    /// The balance does not cover the price.
    InsufficientBalance,
}

/// The point of the saga at which a redemption failed.
#[derive(Clone, Copy, Debug, PartialEq, Eq, Structural)]
pub enum FailStage {
    /// The store failed before the debit was committed: nothing was spent.
    Store,
    /// The remote call failed: network error, timeout or a non-success
    /// status. The coins are spent.
    Extension,
    /// The remote call succeeded but its answer holds no expiry. The coins
    /// are spent.
    ExtensionParse,
    /// The extension was granted but the store failed to record that the
    /// redemption is finished. The coins are spent.
    ExtensionSettle,
}

/// The kinds of error a redemption can end with.
#[derive(Clone, Copy, Debug, PartialEq, Eq, Structural)]
pub enum ErrorKind {
    /// The request is malformed. Nothing was done.
    Validation,
    /// The account is unknown. Nothing was done.
    NotFound,
    /// The balance does not cover the price. Nothing was done.
    InsufficientFunds,
    /// The store failed. Nothing was done if it failed before the debit was
    /// committed; after that the failure leaves the books inconsistent.
    Store,
    /// The remote call failed: timeout, network error or a non-success
    /// status. The debit is committed.
    RemoteCall,
    /// The remote answer is malformed. The debit is committed.
    RemoteResponse,
}

/// The single authoritative result of one redemption request.
#[derive(Debug, PartialEq, Eq)]
pub enum RedemptionOutcome {
    Completed { new_balance: u64, subscription_end: String },
    Rejected { reason: RejectReason },
    Failed { stage: FailStage, detail: String },
}

/// The mathematical value of a [`RedemptionOutcome`].
pub enum OutcomeView {
    Completed { new_balance: nat, subscription_end: Seq<char> },
    Rejected { reason: RejectReason },
    Failed { stage: FailStage, detail: Seq<char> },
}

impl View for RedemptionOutcome {
    type V = OutcomeView;

    open spec fn view(&self) -> OutcomeView {
        match *self {
            RedemptionOutcome::Completed { new_balance, subscription_end } => OutcomeView::Completed {
                new_balance: new_balance as nat,
                subscription_end: subscription_end@,
            },
            RedemptionOutcome::Rejected { reason } => OutcomeView::Rejected { reason },
            RedemptionOutcome::Failed { stage, detail } => OutcomeView::Failed {
                stage,
                detail: detail@,
            },
        }
    }
}

impl FailStage {
    /// Whether the failure happened after the debit was committed, that is at
    /// one of the extension stages.
    pub open spec fn after_debit(&self) -> bool {
        !(*self is Store)
    }

    /// Tells whether the failure happened after the debit was committed.
    pub fn is_after_debit(&self) -> (b: bool)
        ensures
            b == self.after_debit(),
    {
        match self {
            FailStage::Store => false,
            FailStage::Extension => true,
            FailStage::ExtensionParse => true,
            FailStage::ExtensionSettle => true,
        }
    }

    /// The name of the stage as it is reported to callers.
    pub open spec fn label(&self) -> Seq<char> {
        match *self {
            FailStage::Store => "store"@,
            FailStage::Extension => "extension"@,
            FailStage::ExtensionParse => "extension-parse"@,
            FailStage::ExtensionSettle => "extension-settle"@,
        }
    }

    /// The name of the stage as it is reported to callers.
    pub fn name(&self) -> (s: String)
        ensures
            s@ == self.label(),
    {
        match self {
            FailStage::Store => "store".to_string(),
            FailStage::Extension => "extension".to_string(),
            FailStage::ExtensionParse => "extension-parse".to_string(),
            FailStage::ExtensionSettle => "extension-settle".to_string(),
        }
    }
}

impl OutcomeView {
    /// Whether the outcome tells that the coins were spent.
    pub open spec fn spent(&self) -> bool {
        match *self {
            OutcomeView::Completed { .. } => true,
            OutcomeView::Rejected { .. } => false,
            OutcomeView::Failed { stage, .. } => stage.after_debit(),
        }
    }

    /// The kind of error the outcome stands for; none for a completed
    /// redemption.
    pub open spec fn kind(&self) -> Option<ErrorKind> {
        match *self {
            OutcomeView::Completed { .. } => None,
            OutcomeView::Rejected { reason } => Some(
                match reason {
                    RejectReason::InvalidDays => ErrorKind::Validation,
                    RejectReason::UnknownUser => ErrorKind::NotFound,
                    RejectReason::InsufficientBalance => ErrorKind::InsufficientFunds,
                },
            ),
            OutcomeView::Failed { stage, .. } => Some(
                match stage {
                    FailStage::Store => ErrorKind::Store,
                    FailStage::Extension => ErrorKind::RemoteCall,
                    FailStage::ExtensionParse => ErrorKind::RemoteResponse,
                    FailStage::ExtensionSettle => ErrorKind::Store,
                },
            ),
        }
    }

    /// Whether the outcome is a store failure after the debit was committed:
    /// an inconsistency that has to be logged apart from other failures.
    pub open spec fn inconsistent(&self) -> bool {
        self.kind() == Some(ErrorKind::Store) && self.spent()
    }

    /// The status code under which the outcome is reported: success, the
    /// client error class for a bad or unaffordable request, not-found for an
    /// unknown user, the server error class for every failure.
    pub open spec fn status(&self) -> int {
        match *self {
            OutcomeView::Completed { .. } => 200,
            OutcomeView::Rejected { reason } => match reason {
                RejectReason::InvalidDays => 400,
                RejectReason::InsufficientBalance => 400,
                RejectReason::UnknownUser => 404,
            },
            OutcomeView::Failed { .. } => 500,
        }
    }

    /// The fixed message that accompanies the outcome.
    pub open spec fn message(&self) -> Seq<char> {
        match *self {
            OutcomeView::Completed { .. } => "Subscription extended"@,
            OutcomeView::Rejected { reason } => match reason {
                RejectReason::InvalidDays => "Days must be positive"@,
                RejectReason::InsufficientBalance => "Not enough coins"@,
                RejectReason::UnknownUser => "User not found"@,
            },
            OutcomeView::Failed { stage, .. } => match stage {
                FailStage::Store => "Database error"@,
                FailStage::Extension => "Failed to extend subscription"@,
                FailStage::ExtensionParse => "Failed to parse API response"@,
                FailStage::ExtensionSettle => "Failed to record the finished redemption"@,
            },
        }
    }
}

impl RedemptionOutcome {
    /// Tells whether the coins were spent.
    pub fn is_spent(&self) -> (b: bool)
        ensures
            b == self@.spent(),
    {
        match self {
            RedemptionOutcome::Completed { .. } => true,
            RedemptionOutcome::Rejected { .. } => false,
            RedemptionOutcome::Failed { stage, .. } => stage.is_after_debit(),
        }
    }

    /// The kind of error the outcome stands for; none for a completed
    /// redemption.
    pub fn error_kind(&self) -> (k: Option<ErrorKind>)
        ensures
            k == self@.kind(),
    {
        match self {
            RedemptionOutcome::Completed { .. } => None,
            RedemptionOutcome::Rejected { reason } => Some(
                match reason {
                    RejectReason::InvalidDays => ErrorKind::Validation,
                    RejectReason::UnknownUser => ErrorKind::NotFound,
                    RejectReason::InsufficientBalance => ErrorKind::InsufficientFunds,
                },
            ),
            RedemptionOutcome::Failed { stage, .. } => Some(
                match stage {
                    FailStage::Store => ErrorKind::Store,
                    FailStage::Extension => ErrorKind::RemoteCall,
                    FailStage::ExtensionParse => ErrorKind::RemoteResponse,
                    FailStage::ExtensionSettle => ErrorKind::Store,
                },
            ),
        }
    }

    /// Tells whether the outcome is a store failure after the debit was
    /// committed, to be logged apart from other failures.
    pub fn is_inconsistent(&self) -> (b: bool)
        ensures
            b == self@.inconsistent(),
            b == (self@ is Failed && self@->stage == FailStage::ExtensionSettle),
    {
        match self {
            RedemptionOutcome::Failed { stage: FailStage::ExtensionSettle, .. } => true,
            _ => false,
        }
    }

    /// The status code under which the outcome is reported to a caller.
    pub fn http_status(&self) -> (code: u16)
        ensures
            code == self@.status(),
    {
        match self {
            RedemptionOutcome::Completed { .. } => 200,
            RedemptionOutcome::Rejected { reason } => match reason {
                RejectReason::InvalidDays => 400,
                RejectReason::InsufficientBalance => 400,
                RejectReason::UnknownUser => 404,
            },
            RedemptionOutcome::Failed { .. } => 500,
        }
    }

    /// The fixed message that accompanies the outcome.
    pub fn message(&self) -> (m: String)
        ensures
            m@ == self@.message(),
    {
        match self {
            RedemptionOutcome::Completed { .. } => "Subscription extended".to_string(),
            RedemptionOutcome::Rejected { reason } => match reason {
                RejectReason::InvalidDays => "Days must be positive".to_string(),
                RejectReason::InsufficientBalance => "Not enough coins".to_string(),
                RejectReason::UnknownUser => "User not found".to_string(),
            },
            RedemptionOutcome::Failed { stage, .. } => match stage {
                FailStage::Store => "Database error".to_string(),
                FailStage::Extension => "Failed to extend subscription".to_string(),
                FailStage::ExtensionParse => "Failed to parse API response".to_string(),
                FailStage::ExtensionSettle => "Failed to record the finished redemption".to_string(),
            },
        }
    }
}

impl Clone for RedemptionOutcome {
    fn clone(&self) -> (r: Self)
        ensures
            r@ == self@,
    {
        match self {
            RedemptionOutcome::Completed { new_balance, subscription_end } => RedemptionOutcome::Completed {
                new_balance: *new_balance,
                subscription_end: subscription_end.clone(),
            },
            RedemptionOutcome::Rejected { reason } => RedemptionOutcome::Rejected { reason: *reason },
            RedemptionOutcome::Failed { stage, detail } => RedemptionOutcome::Failed {
                stage: *stage,
                detail: detail.clone(),
            },
        }
    }
}

} // verus!
