//! What can go wrong when a record is created or an approval is submitted.

use vstd::prelude::*;

verus! {

/// Why the inputs of a new escrow record were turned down.
#[derive(Clone, Copy, Debug, PartialEq, Eq, Structural)]
pub enum ValidationError {
    /// The participant list was empty.
    NoParticipants,
    /// The required deposit was zero.
    ZeroAmount,
    /// The approval ratio was not in `(0, 1]`.
    RatioOutOfRange,
}

/// Why an approval or a lookup was turned down.
#[derive(Clone, Copy, Debug, PartialEq, Eq, Structural)]
pub enum EscrowError {
    /// No record has the given id.
    NotFound,
    /// The attached deposit differs from the record's required amount.
    WrongAmount,
    /// The caller is not one of the record's participants.
    NotAParticipant,
    /// The caller has approved before.
    AlreadyApproved,
    /// The record has released its funds and takes no more approvals.
    AlreadyReleased,
}

impl ValidationError {
    /// The text of [`ValidationError::message`].
    pub open spec fn message_text(self) -> Seq<char> {
        match self {
            ValidationError::NoParticipants => "Multisig size should be bigger than 0"@,
            ValidationError::ZeroAmount => "Sum should be positive number"@,
            ValidationError::RatioOutOfRange => "Approve ratio should be above 0 and at most 1"@,
        }
    }

    /// A sentence that names the constraint that failed.
    pub fn message(&self) -> (text: &'static str)
        ensures
            text@ == self.message_text(),
    {
        match self {
            ValidationError::NoParticipants => "Multisig size should be bigger than 0",
            ValidationError::ZeroAmount => "Sum should be positive number",
            ValidationError::RatioOutOfRange => "Approve ratio should be above 0 and at most 1",
        }
    }
}

impl EscrowError {
    /// The text of [`EscrowError::message`].
    pub open spec fn message_text(self) -> Seq<char> {
        match self {
            EscrowError::NotFound => "Multisig has been not found"@,
            EscrowError::WrongAmount => "Sum is required"@,
            EscrowError::NotAParticipant => "Account should be in a multisig map"@,
            EscrowError::AlreadyApproved => "Is possible to send funds only once"@,
            EscrowError::AlreadyReleased => "Funds have been released already"@,
        }
    }

    /// A sentence that says why the submission was turned down.
    pub fn message(&self) -> (text: &'static str)
        ensures
            text@ == self.message_text(),
    {
        match self {
            EscrowError::NotFound => "Multisig has been not found",
            EscrowError::WrongAmount => "Sum is required",
            EscrowError::NotAParticipant => "Account should be in a multisig map",
            EscrowError::AlreadyApproved => "Is possible to send funds only once",
            EscrowError::AlreadyReleased => "Funds have been released already",
        }
    }
}

} // verus!
