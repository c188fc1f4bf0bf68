//! The domain model: the enumerations shared by requests and responses,
//! with their exact wire names, and the record types split off by API
//! surface.

use vstd::prelude::*;

pub mod broker;
pub mod market;
pub mod trading;

verus! {

/// The lifecycle status of a brokerage account.
#[derive(Debug, Clone, Copy, PartialEq, Eq, Structural)]
pub enum AccountStatus {
    Onboarding,
    Submitted,
    Resubmitted,
    SubmissionFailed,
    ActionRequired,
    Edited,
    AccountUpdated,
    ApprovalPending,
    ReapprovalPending,
    SignedUp,
    KycSubmitted,
    Limited,
    AmlReview,
    Approved,
    Rejected,
    Disabled,
    DisablePending,
    AccountClosed,
    PaperOnly,
    Active,
}

impl AccountStatus {
    /// The name this value carries on the wire.
    pub open spec fn spec_wire(self) -> Seq<char> {
        match self {
            AccountStatus::Onboarding => "ONBOARDING"@,
            AccountStatus::Submitted => "SUBMITTED"@,
            AccountStatus::Resubmitted => "RESUBMITTED"@,
            AccountStatus::SubmissionFailed => "SUBMISSION_FAILED"@,
            AccountStatus::ActionRequired => "ACTION_REQUIRED"@,
            AccountStatus::Edited => "EDITED"@,
            AccountStatus::AccountUpdated => "ACCOUNT_UPDATED"@,
            AccountStatus::ApprovalPending => "APPROVAL_PENDING"@,
            AccountStatus::ReapprovalPending => "REAPPROVAL_PENDING"@,
            AccountStatus::SignedUp => "SIGNED_UP"@,
            AccountStatus::KycSubmitted => "KYC_SUBMITTED"@,
            AccountStatus::Limited => "LIMITED"@,
            AccountStatus::AmlReview => "AML_REVIEW"@,
            AccountStatus::Approved => "APPROVED"@,
            AccountStatus::Rejected => "REJECTED"@,
            AccountStatus::Disabled => "DISABLED"@,
            AccountStatus::DisablePending => "DISABLE_PENDING"@,
            AccountStatus::AccountClosed => "ACCOUNT_CLOSED"@,
            AccountStatus::PaperOnly => "PAPER_ONLY"@,
            AccountStatus::Active => "ACTIVE"@,
        }
    }

    /// Renders the wire name.
    pub fn wire_name(&self) -> (r: &'static str)
        ensures
            r@ == self.spec_wire(),
    {
        match self {
            AccountStatus::Onboarding => "ONBOARDING",
            AccountStatus::Submitted => "SUBMITTED",
            AccountStatus::Resubmitted => "RESUBMITTED",
            AccountStatus::SubmissionFailed => "SUBMISSION_FAILED",
            AccountStatus::ActionRequired => "ACTION_REQUIRED",
            AccountStatus::Edited => "EDITED",
            AccountStatus::AccountUpdated => "ACCOUNT_UPDATED",
            AccountStatus::ApprovalPending => "APPROVAL_PENDING",
            AccountStatus::ReapprovalPending => "REAPPROVAL_PENDING",
            AccountStatus::SignedUp => "SIGNED_UP",
            AccountStatus::KycSubmitted => "KYC_SUBMITTED",
            AccountStatus::Limited => "LIMITED",
            AccountStatus::AmlReview => "AML_REVIEW",
            AccountStatus::Approved => "APPROVED",
            AccountStatus::Rejected => "REJECTED",
            AccountStatus::Disabled => "DISABLED",
            AccountStatus::DisablePending => "DISABLE_PENDING",
            AccountStatus::AccountClosed => "ACCOUNT_CLOSED",
            AccountStatus::PaperOnly => "PAPER_ONLY",
            AccountStatus::Active => "ACTIVE",
        }
    }

    /// What parsing a wire name yields.
    pub open spec fn spec_from_wire(s: Seq<char>) -> Option<AccountStatus> {
        if s == "ONBOARDING"@ {
            Some(AccountStatus::Onboarding)
        } else if s == "SUBMITTED"@ {
            Some(AccountStatus::Submitted)
        } else if s == "RESUBMITTED"@ {
            Some(AccountStatus::Resubmitted)
        } else if s == "SUBMISSION_FAILED"@ {
            Some(AccountStatus::SubmissionFailed)
        } else if s == "ACTION_REQUIRED"@ {
            Some(AccountStatus::ActionRequired)
        } else if s == "EDITED"@ {
            Some(AccountStatus::Edited)
        } else if s == "ACCOUNT_UPDATED"@ {
            Some(AccountStatus::AccountUpdated)
        } else if s == "APPROVAL_PENDING"@ {
            Some(AccountStatus::ApprovalPending)
        } else if s == "REAPPROVAL_PENDING"@ {
            Some(AccountStatus::ReapprovalPending)
        } else if s == "SIGNED_UP"@ {
            Some(AccountStatus::SignedUp)
        } else if s == "KYC_SUBMITTED"@ {
            Some(AccountStatus::KycSubmitted)
        } else if s == "LIMITED"@ {
            Some(AccountStatus::Limited)
        } else if s == "AML_REVIEW"@ {
            Some(AccountStatus::AmlReview)
        } else if s == "APPROVED"@ {
            Some(AccountStatus::Approved)
        } else if s == "REJECTED"@ {
            Some(AccountStatus::Rejected)
        } else if s == "DISABLED"@ {
            Some(AccountStatus::Disabled)
        } else if s == "DISABLE_PENDING"@ {
            Some(AccountStatus::DisablePending)
        } else if s == "ACCOUNT_CLOSED"@ {
            Some(AccountStatus::AccountClosed)
        } else if s == "PAPER_ONLY"@ {
            Some(AccountStatus::PaperOnly)
        } else if s == "ACTIVE"@ {
            Some(AccountStatus::Active)
        } else {
            None
        }
    }

    /// Parses a wire name.
    pub fn from_wire(s: &str) -> (r: Option<AccountStatus>)
        ensures
            r == Self::spec_from_wire(s@),
    {
        if crate::util::str_eq(s, "ONBOARDING") {
            Some(AccountStatus::Onboarding)
        } else if crate::util::str_eq(s, "SUBMITTED") {
            Some(AccountStatus::Submitted)
        } else if crate::util::str_eq(s, "RESUBMITTED") {
            Some(AccountStatus::Resubmitted)
        } else if crate::util::str_eq(s, "SUBMISSION_FAILED") {
            Some(AccountStatus::SubmissionFailed)
        } else if crate::util::str_eq(s, "ACTION_REQUIRED") {
            Some(AccountStatus::ActionRequired)
        } else if crate::util::str_eq(s, "EDITED") {
            Some(AccountStatus::Edited)
        } else if crate::util::str_eq(s, "ACCOUNT_UPDATED") {
            Some(AccountStatus::AccountUpdated)
        } else if crate::util::str_eq(s, "APPROVAL_PENDING") {
            Some(AccountStatus::ApprovalPending)
        } else if crate::util::str_eq(s, "REAPPROVAL_PENDING") {
            Some(AccountStatus::ReapprovalPending)
        } else if crate::util::str_eq(s, "SIGNED_UP") {
            Some(AccountStatus::SignedUp)
        } else if crate::util::str_eq(s, "KYC_SUBMITTED") {
            Some(AccountStatus::KycSubmitted)
        } else if crate::util::str_eq(s, "LIMITED") {
            Some(AccountStatus::Limited)
        } else if crate::util::str_eq(s, "AML_REVIEW") {
            Some(AccountStatus::AmlReview)
        } else if crate::util::str_eq(s, "APPROVED") {
            Some(AccountStatus::Approved)
        } else if crate::util::str_eq(s, "REJECTED") {
            Some(AccountStatus::Rejected)
        } else if crate::util::str_eq(s, "DISABLED") {
            Some(AccountStatus::Disabled)
        } else if crate::util::str_eq(s, "DISABLE_PENDING") {
            Some(AccountStatus::DisablePending)
        } else if crate::util::str_eq(s, "ACCOUNT_CLOSED") {
            Some(AccountStatus::AccountClosed)
        } else if crate::util::str_eq(s, "PAPER_ONLY") {
            Some(AccountStatus::PaperOnly)
        } else if crate::util::str_eq(s, "ACTIVE") {
            Some(AccountStatus::Active)
        } else {
            None
        }
    }
}

/// A wire name parses back to the value it was rendered from.
pub proof fn lemma_account_status_wire_roundtrip(v: AccountStatus)
    ensures
        AccountStatus::spec_from_wire(v.spec_wire()) == Some(v),
{
    reveal_strlit("ONBOARDING");
    reveal_strlit("SUBMITTED");
    reveal_strlit("RESUBMITTED");
    reveal_strlit("SUBMISSION_FAILED");
    reveal_strlit("ACTION_REQUIRED");
    reveal_strlit("EDITED");
    reveal_strlit("ACCOUNT_UPDATED");
    reveal_strlit("APPROVAL_PENDING");
    reveal_strlit("REAPPROVAL_PENDING");
    reveal_strlit("SIGNED_UP");
    reveal_strlit("KYC_SUBMITTED");
    reveal_strlit("LIMITED");
    reveal_strlit("AML_REVIEW");
    reveal_strlit("APPROVED");
    reveal_strlit("REJECTED");
    reveal_strlit("DISABLED");
    reveal_strlit("DISABLE_PENDING");
    reveal_strlit("ACCOUNT_CLOSED");
    reveal_strlit("PAPER_ONLY");
    reveal_strlit("ACTIVE");
    assert("ONBOARDING"@.len() == 10);
    assert("SUBMITTED"@.len() == 9);
    assert("RESUBMITTED"@.len() == 11);
    assert("SUBMISSION_FAILED"@.len() == 17);
    assert("ACTION_REQUIRED"@.len() == 15);
    assert("EDITED"@.len() == 6);
    assert("ACCOUNT_UPDATED"@.len() == 15);
    assert("APPROVAL_PENDING"@.len() == 16);
    assert("REAPPROVAL_PENDING"@.len() == 18);
    assert("SIGNED_UP"@.len() == 9);
    assert("KYC_SUBMITTED"@.len() == 13);
    assert("LIMITED"@.len() == 7);
    assert("AML_REVIEW"@.len() == 10);
    assert("APPROVED"@.len() == 8);
    assert("REJECTED"@.len() == 8);
    assert("DISABLED"@.len() == 8);
    assert("DISABLE_PENDING"@.len() == 15);
    assert("ACCOUNT_CLOSED"@.len() == 14);
    assert("PAPER_ONLY"@.len() == 10);
    assert("ACTIVE"@.len() == 6);
    assert("ONBOARDING"@ != "PAPER_ONLY"@) by {
        assert("ONBOARDING"@[0] == 'O');
        assert("PAPER_ONLY"@[0] == 'P');
    }
    assert("ACTION_REQUIRED"@ != "DISABLE_PENDING"@) by {
        assert("ACTION_REQUIRED"@[0] == 'A');
        assert("DISABLE_PENDING"@[0] == 'D');
    }
    assert("ACCOUNT_UPDATED"@ != "ACTION_REQUIRED"@) by {
        assert("ACCOUNT_UPDATED"@[2] == 'C');
        assert("ACTION_REQUIRED"@[2] == 'T');
    }
    assert("ACCOUNT_UPDATED"@ != "DISABLE_PENDING"@) by {
        assert("ACCOUNT_UPDATED"@[0] == 'A');
        assert("DISABLE_PENDING"@[0] == 'D');
    }
    assert("SIGNED_UP"@ != "SUBMITTED"@) by {
        assert("SIGNED_UP"@[1] == 'I');
        assert("SUBMITTED"@[1] == 'U');
    }
    assert("AML_REVIEW"@ != "ONBOARDING"@) by {
        assert("AML_REVIEW"@[0] == 'A');
        assert("ONBOARDING"@[0] == 'O');
    }
    assert("AML_REVIEW"@ != "PAPER_ONLY"@) by {
        assert("AML_REVIEW"@[0] == 'A');
        assert("PAPER_ONLY"@[0] == 'P');
    }
    assert("APPROVED"@ != "REJECTED"@) by {
        assert("APPROVED"@[0] == 'A');
        assert("REJECTED"@[0] == 'R');
    }
    assert("APPROVED"@ != "DISABLED"@) by {
        assert("APPROVED"@[0] == 'A');
        assert("DISABLED"@[0] == 'D');
    }
    assert("DISABLED"@ != "REJECTED"@) by {
        assert("DISABLED"@[0] == 'D');
        assert("REJECTED"@[0] == 'R');
    }
    assert("ACTIVE"@ != "EDITED"@) by {
        assert("ACTIVE"@[0] == 'A');
        assert("EDITED"@[0] == 'E');
    }
    match v {
        AccountStatus::Onboarding => {
            assert(AccountStatus::spec_from_wire("ONBOARDING"@) == Some(AccountStatus::Onboarding));
        },
        AccountStatus::Submitted => {
            assert(AccountStatus::spec_from_wire("SUBMITTED"@) == Some(AccountStatus::Submitted));
        },
        AccountStatus::Resubmitted => {
            assert(AccountStatus::spec_from_wire("RESUBMITTED"@) == Some(AccountStatus::Resubmitted));
        },
        AccountStatus::SubmissionFailed => {
            assert(AccountStatus::spec_from_wire("SUBMISSION_FAILED"@) == Some(AccountStatus::SubmissionFailed));
        },
        AccountStatus::ActionRequired => {
            assert(AccountStatus::spec_from_wire("ACTION_REQUIRED"@) == Some(AccountStatus::ActionRequired));
        },
        AccountStatus::Edited => {
            assert(AccountStatus::spec_from_wire("EDITED"@) == Some(AccountStatus::Edited));
        },
        AccountStatus::AccountUpdated => {
            assert(AccountStatus::spec_from_wire("ACCOUNT_UPDATED"@) == Some(AccountStatus::AccountUpdated));
        },
        AccountStatus::ApprovalPending => {
            assert(AccountStatus::spec_from_wire("APPROVAL_PENDING"@) == Some(AccountStatus::ApprovalPending));
        },
        AccountStatus::ReapprovalPending => {
            assert(AccountStatus::spec_from_wire("REAPPROVAL_PENDING"@) == Some(AccountStatus::ReapprovalPending));
        },
        AccountStatus::SignedUp => {
            assert(AccountStatus::spec_from_wire("SIGNED_UP"@) == Some(AccountStatus::SignedUp));
        },
        AccountStatus::KycSubmitted => {
            assert(AccountStatus::spec_from_wire("KYC_SUBMITTED"@) == Some(AccountStatus::KycSubmitted));
        },
        AccountStatus::Limited => {
            assert(AccountStatus::spec_from_wire("LIMITED"@) == Some(AccountStatus::Limited));
        },
        AccountStatus::AmlReview => {
            assert(AccountStatus::spec_from_wire("AML_REVIEW"@) == Some(AccountStatus::AmlReview));
        },
        AccountStatus::Approved => {
            assert(AccountStatus::spec_from_wire("APPROVED"@) == Some(AccountStatus::Approved));
        },
        AccountStatus::Rejected => {
            assert(AccountStatus::spec_from_wire("REJECTED"@) == Some(AccountStatus::Rejected));
        },
        AccountStatus::Disabled => {
            assert(AccountStatus::spec_from_wire("DISABLED"@) == Some(AccountStatus::Disabled));
        },
        AccountStatus::DisablePending => {
            assert(AccountStatus::spec_from_wire("DISABLE_PENDING"@) == Some(AccountStatus::DisablePending));
        },
        AccountStatus::AccountClosed => {
            assert(AccountStatus::spec_from_wire("ACCOUNT_CLOSED"@) == Some(AccountStatus::AccountClosed));
        },
        AccountStatus::PaperOnly => {
            assert(AccountStatus::spec_from_wire("PAPER_ONLY"@) == Some(AccountStatus::PaperOnly));
        },
        AccountStatus::Active => {
            assert(AccountStatus::spec_from_wire("ACTIVE"@) == Some(AccountStatus::Active));
        },
    }
}

impl Default for AccountStatus {
    /// The default used when a request leaves the field unset.
    fn default() -> (r: Self)
        ensures
            r == AccountStatus::Active,
    {
        AccountStatus::Active
    }
}

/// The sort direction of a listing.
#[derive(Debug, Clone, Copy, PartialEq, Eq, Structural)]
pub enum Sort {
    Ascending,
    Descending,
}

impl Sort {
    /// The name this value carries on the wire.
    pub open spec fn spec_wire(self) -> Seq<char> {
        match self {
            Sort::Ascending => "asc"@,
            Sort::Descending => "desc"@,
        }
    }

    /// Renders the wire name.
    pub fn wire_name(&self) -> (r: &'static str)
        ensures
            r@ == self.spec_wire(),
    {
        match self {
            Sort::Ascending => "asc",
            Sort::Descending => "desc",
        }
    }
}

impl Default for Sort {
    /// The default used when a request leaves the field unset.
    fn default() -> (r: Self)
        ensures
            r == Sort::Descending,
    {
        Sort::Descending
    }
}

/// The kind of a brokerage account.
#[derive(Debug, Clone, Copy, PartialEq, Eq, Structural)]
pub enum AccountType {
    Trading,
    Custodial,
    DonorAdvised,
}

impl AccountType {
    /// The name this value carries on the wire.
    pub open spec fn spec_wire(self) -> Seq<char> {
        match self {
            AccountType::Trading => "trading"@,
            AccountType::Custodial => "custodial"@,
            AccountType::DonorAdvised => "donor_advised"@,
        }
    }

    /// Renders the wire name.
    pub fn wire_name(&self) -> (r: &'static str)
        ensures
            r@ == self.spec_wire(),
    {
        match self {
            AccountType::Trading => "trading",
            AccountType::Custodial => "custodial",
            AccountType::DonorAdvised => "donor_advised",
        }
    }
}

/// The status an order can have; any name not accounted for reads as `Unknown`.
#[derive(Debug, Clone, Copy, PartialEq, Eq, Structural)]
pub enum OrderStatus {
    New,
    Replaced,
    PartiallyFilled,
    Filled,
    DoneForDay,
    Canceled,
    Expired,
    Accepted,
    PendingNew,
    AcceptedForBidding,
    PendingCancel,
    PendingReplace,
    Stopped,
    Rejected,
    Suspended,
    Calculated,
    Held,
    Unknown,
}

impl OrderStatus {
    /// The name this value carries on the wire.
    pub open spec fn spec_wire(self) -> Seq<char> {
        match self {
            OrderStatus::New => "new"@,
            OrderStatus::Replaced => "replaced"@,
            OrderStatus::PartiallyFilled => "partially_filled"@,
            OrderStatus::Filled => "filled"@,
            OrderStatus::DoneForDay => "done_for_day"@,
            OrderStatus::Canceled => "canceled"@,
            OrderStatus::Expired => "expired"@,
            OrderStatus::Accepted => "accepted"@,
            OrderStatus::PendingNew => "pending_new"@,
            OrderStatus::AcceptedForBidding => "accepted_for_bidding"@,
            OrderStatus::PendingCancel => "pending_cancel"@,
            OrderStatus::PendingReplace => "pending_replace"@,
            OrderStatus::Stopped => "stopped"@,
            OrderStatus::Rejected => "rejected"@,
            OrderStatus::Suspended => "suspended"@,
            OrderStatus::Calculated => "calculated"@,
            OrderStatus::Held => "held"@,
            OrderStatus::Unknown => "unknown"@,
        }
    }

    /// Renders the wire name.
    pub fn wire_name(&self) -> (r: &'static str)
        ensures
            r@ == self.spec_wire(),
    {
        match self {
            OrderStatus::New => "new",
            OrderStatus::Replaced => "replaced",
            OrderStatus::PartiallyFilled => "partially_filled",
            OrderStatus::Filled => "filled",
            OrderStatus::DoneForDay => "done_for_day",
            OrderStatus::Canceled => "canceled",
            OrderStatus::Expired => "expired",
            OrderStatus::Accepted => "accepted",
            OrderStatus::PendingNew => "pending_new",
            OrderStatus::AcceptedForBidding => "accepted_for_bidding",
            OrderStatus::PendingCancel => "pending_cancel",
            OrderStatus::PendingReplace => "pending_replace",
            OrderStatus::Stopped => "stopped",
            OrderStatus::Rejected => "rejected",
            OrderStatus::Suspended => "suspended",
            OrderStatus::Calculated => "calculated",
            OrderStatus::Held => "held",
            OrderStatus::Unknown => "unknown",
        }
    }

    /// What parsing a wire name yields.
    pub open spec fn spec_from_wire(s: Seq<char>) -> Option<OrderStatus> {
        if s == "new"@ {
            Some(OrderStatus::New)
        } else if s == "replaced"@ {
            Some(OrderStatus::Replaced)
        } else if s == "partially_filled"@ {
            Some(OrderStatus::PartiallyFilled)
        } else if s == "filled"@ {
            Some(OrderStatus::Filled)
        } else if s == "done_for_day"@ {
            Some(OrderStatus::DoneForDay)
        } else if s == "canceled"@ {
            Some(OrderStatus::Canceled)
        } else if s == "expired"@ {
            Some(OrderStatus::Expired)
        } else if s == "accepted"@ {
            Some(OrderStatus::Accepted)
        } else if s == "pending_new"@ {
            Some(OrderStatus::PendingNew)
        } else if s == "accepted_for_bidding"@ {
            Some(OrderStatus::AcceptedForBidding)
        } else if s == "pending_cancel"@ {
            Some(OrderStatus::PendingCancel)
        } else if s == "pending_replace"@ {
            Some(OrderStatus::PendingReplace)
        } else if s == "stopped"@ {
            Some(OrderStatus::Stopped)
        } else if s == "rejected"@ {
            Some(OrderStatus::Rejected)
        } else if s == "suspended"@ {
            Some(OrderStatus::Suspended)
        } else if s == "calculated"@ {
            Some(OrderStatus::Calculated)
        } else if s == "held"@ {
            Some(OrderStatus::Held)
        } else {
            Some(OrderStatus::Unknown)
        }
    }

    /// Parses a wire name.
    pub fn from_wire(s: &str) -> (r: Option<OrderStatus>)
        ensures
            r == Self::spec_from_wire(s@),
    {
        if crate::util::str_eq(s, "new") {
            Some(OrderStatus::New)
        } else if crate::util::str_eq(s, "replaced") {
            Some(OrderStatus::Replaced)
        } else if crate::util::str_eq(s, "partially_filled") {
            Some(OrderStatus::PartiallyFilled)
        } else if crate::util::str_eq(s, "filled") {
            Some(OrderStatus::Filled)
        } else if crate::util::str_eq(s, "done_for_day") {
            Some(OrderStatus::DoneForDay)
        } else if crate::util::str_eq(s, "canceled") {
            Some(OrderStatus::Canceled)
        } else if crate::util::str_eq(s, "expired") {
            Some(OrderStatus::Expired)
        } else if crate::util::str_eq(s, "accepted") {
            Some(OrderStatus::Accepted)
        } else if crate::util::str_eq(s, "pending_new") {
            Some(OrderStatus::PendingNew)
        } else if crate::util::str_eq(s, "accepted_for_bidding") {
            Some(OrderStatus::AcceptedForBidding)
        } else if crate::util::str_eq(s, "pending_cancel") {
            Some(OrderStatus::PendingCancel)
        } else if crate::util::str_eq(s, "pending_replace") {
            Some(OrderStatus::PendingReplace)
        } else if crate::util::str_eq(s, "stopped") {
            Some(OrderStatus::Stopped)
        } else if crate::util::str_eq(s, "rejected") {
            Some(OrderStatus::Rejected)
        } else if crate::util::str_eq(s, "suspended") {
            Some(OrderStatus::Suspended)
        } else if crate::util::str_eq(s, "calculated") {
            Some(OrderStatus::Calculated)
        } else if crate::util::str_eq(s, "held") {
            Some(OrderStatus::Held)
        } else {
            Some(OrderStatus::Unknown)
        }
    }
}

/// A wire name parses back to the value it was rendered from.
pub proof fn lemma_order_status_wire_roundtrip(v: OrderStatus)
    ensures
        OrderStatus::spec_from_wire(v.spec_wire()) == Some(v),
{
    reveal_strlit("new");
    reveal_strlit("replaced");
    reveal_strlit("partially_filled");
    reveal_strlit("filled");
    reveal_strlit("done_for_day");
    reveal_strlit("canceled");
    reveal_strlit("expired");
    reveal_strlit("accepted");
    reveal_strlit("pending_new");
    reveal_strlit("accepted_for_bidding");
    reveal_strlit("pending_cancel");
    reveal_strlit("pending_replace");
    reveal_strlit("stopped");
    reveal_strlit("rejected");
    reveal_strlit("suspended");
    reveal_strlit("calculated");
    reveal_strlit("held");
    reveal_strlit("unknown");
    assert("new"@.len() == 3);
    assert("replaced"@.len() == 8);
    assert("partially_filled"@.len() == 16);
    assert("filled"@.len() == 6);
    assert("done_for_day"@.len() == 12);
    assert("canceled"@.len() == 8);
    assert("expired"@.len() == 7);
    assert("accepted"@.len() == 8);
    assert("pending_new"@.len() == 11);
    assert("accepted_for_bidding"@.len() == 20);
    assert("pending_cancel"@.len() == 14);
    assert("pending_replace"@.len() == 15);
    assert("stopped"@.len() == 7);
    assert("rejected"@.len() == 8);
    assert("suspended"@.len() == 9);
    assert("calculated"@.len() == 10);
    assert("held"@.len() == 4);
    assert("unknown"@.len() == 7);
    assert("canceled"@ != "replaced"@) by {
        assert("canceled"@[0] == 'c');
        assert("replaced"@[0] == 'r');
    }
    assert("canceled"@ != "rejected"@) by {
        assert("canceled"@[0] == 'c');
        assert("rejected"@[0] == 'r');
    }
    assert("expired"@ != "stopped"@) by {
        assert("expired"@[0] == 'e');
        assert("stopped"@[0] == 's');
    }
    assert("expired"@ != "unknown"@) by {
        assert("expired"@[0] == 'e');
        assert("unknown"@[0] == 'u');
    }
    assert("accepted"@ != "replaced"@) by {
        assert("accepted"@[0] == 'a');
        assert("replaced"@[0] == 'r');
    }
    assert("accepted"@ != "canceled"@) by {
        assert("accepted"@[0] == 'a');
        assert("canceled"@[0] == 'c');
    }
    assert("accepted"@ != "rejected"@) by {
        assert("accepted"@[0] == 'a');
        assert("rejected"@[0] == 'r');
    }
    assert("stopped"@ != "unknown"@) by {
        assert("stopped"@[0] == 's');
        assert("unknown"@[0] == 'u');
    }
    assert("rejected"@ != "replaced"@) by {
        assert("rejected"@[2] == 'j');
        assert("replaced"@[2] == 'p');
    }
    match v {
        OrderStatus::New => {
            assert(OrderStatus::spec_from_wire("new"@) == Some(OrderStatus::New));
        },
        OrderStatus::Replaced => {
            assert(OrderStatus::spec_from_wire("replaced"@) == Some(OrderStatus::Replaced));
        },
        OrderStatus::PartiallyFilled => {
            assert(OrderStatus::spec_from_wire("partially_filled"@) == Some(OrderStatus::PartiallyFilled));
        },
        OrderStatus::Filled => {
            assert(OrderStatus::spec_from_wire("filled"@) == Some(OrderStatus::Filled));
        },
        OrderStatus::DoneForDay => {
            assert(OrderStatus::spec_from_wire("done_for_day"@) == Some(OrderStatus::DoneForDay));
        },
        OrderStatus::Canceled => {
            assert(OrderStatus::spec_from_wire("canceled"@) == Some(OrderStatus::Canceled));
        },
        OrderStatus::Expired => {
            assert(OrderStatus::spec_from_wire("expired"@) == Some(OrderStatus::Expired));
        },
        OrderStatus::Accepted => {
            assert(OrderStatus::spec_from_wire("accepted"@) == Some(OrderStatus::Accepted));
        },
        OrderStatus::PendingNew => {
            assert(OrderStatus::spec_from_wire("pending_new"@) == Some(OrderStatus::PendingNew));
        },
        OrderStatus::AcceptedForBidding => {
            assert(OrderStatus::spec_from_wire("accepted_for_bidding"@) == Some(OrderStatus::AcceptedForBidding));
        },
        OrderStatus::PendingCancel => {
            assert(OrderStatus::spec_from_wire("pending_cancel"@) == Some(OrderStatus::PendingCancel));
        },
        OrderStatus::PendingReplace => {
            assert(OrderStatus::spec_from_wire("pending_replace"@) == Some(OrderStatus::PendingReplace));
        },
        OrderStatus::Stopped => {
            assert(OrderStatus::spec_from_wire("stopped"@) == Some(OrderStatus::Stopped));
        },
        OrderStatus::Rejected => {
            assert(OrderStatus::spec_from_wire("rejected"@) == Some(OrderStatus::Rejected));
        },
        OrderStatus::Suspended => {
            assert(OrderStatus::spec_from_wire("suspended"@) == Some(OrderStatus::Suspended));
        },
        OrderStatus::Calculated => {
            assert(OrderStatus::spec_from_wire("calculated"@) == Some(OrderStatus::Calculated));
        },
        OrderStatus::Held => {
            assert(OrderStatus::spec_from_wire("held"@) == Some(OrderStatus::Held));
        },
        OrderStatus::Unknown => {
            assert(OrderStatus::spec_from_wire("unknown"@) == Some(OrderStatus::Unknown));
        },
    }
}

/// Whether an order buys or sells.
#[derive(Debug, Clone, Copy, PartialEq, Eq, Structural)]
pub enum OrderSide {
    Buy,
    Sell,
}

impl OrderSide {
    /// The name this value carries on the wire.
    pub open spec fn spec_wire(self) -> Seq<char> {
        match self {
            OrderSide::Buy => "buy"@,
            OrderSide::Sell => "sell"@,
        }
    }

    /// Renders the wire name.
    pub fn wire_name(&self) -> (r: &'static str)
        ensures
            r@ == self.spec_wire(),
    {
        match self {
            OrderSide::Buy => "buy",
            OrderSide::Sell => "sell",
        }
    }

    /// What parsing a wire name yields.
    pub open spec fn spec_from_wire(s: Seq<char>) -> Option<OrderSide> {
        if s == "buy"@ {
            Some(OrderSide::Buy)
        } else if s == "sell"@ {
            Some(OrderSide::Sell)
        } else {
            None
        }
    }

    /// Parses a wire name.
    pub fn from_wire(s: &str) -> (r: Option<OrderSide>)
        ensures
            r == Self::spec_from_wire(s@),
    {
        if crate::util::str_eq(s, "buy") {
            Some(OrderSide::Buy)
        } else if crate::util::str_eq(s, "sell") {
            Some(OrderSide::Sell)
        } else {
            None
        }
    }
}

/// A wire name parses back to the value it was rendered from.
pub proof fn lemma_order_side_wire_roundtrip(v: OrderSide)
    ensures
        OrderSide::spec_from_wire(v.spec_wire()) == Some(v),
{
    reveal_strlit("buy");
    reveal_strlit("sell");
    assert("buy"@.len() == 3);
    assert("sell"@.len() == 4);
    match v {
        OrderSide::Buy => {
            assert(OrderSide::spec_from_wire("buy"@) == Some(OrderSide::Buy));
        },
        OrderSide::Sell => {
            assert(OrderSide::spec_from_wire("sell"@) == Some(OrderSide::Sell));
        },
    }
}

/// How long an order stays eligible for execution.
#[derive(Debug, Clone, Copy, PartialEq, Eq, Structural)]
pub enum OrderTif {
    Day,
    FillOrKill,
    ImmediateOrCancel,
    GoodTillCanceled,
    UntilMarketOpen,
    UntilMarketClose,
}

impl OrderTif {
    /// The name this value carries on the wire.
    pub open spec fn spec_wire(self) -> Seq<char> {
        match self {
            OrderTif::Day => "day"@,
            OrderTif::FillOrKill => "fok"@,
            OrderTif::ImmediateOrCancel => "ioc"@,
            OrderTif::GoodTillCanceled => "gtc"@,
            OrderTif::UntilMarketOpen => "opg"@,
            OrderTif::UntilMarketClose => "cls"@,
        }
    }

    /// Renders the wire name.
    pub fn wire_name(&self) -> (r: &'static str)
        ensures
            r@ == self.spec_wire(),
    {
        match self {
            OrderTif::Day => "day",
            OrderTif::FillOrKill => "fok",
            OrderTif::ImmediateOrCancel => "ioc",
            OrderTif::GoodTillCanceled => "gtc",
            OrderTif::UntilMarketOpen => "opg",
            OrderTif::UntilMarketClose => "cls",
        }
    }
}

impl Default for OrderTif {
    /// The default used when a request leaves the field unset.
    fn default() -> (r: Self)
        ensures
            r == OrderTif::GoodTillCanceled,
    {
        OrderTif::GoodTillCanceled
    }
}

/// Whether an order is simple or part of a bracket-style chain.
#[derive(Debug, Clone, Copy, PartialEq, Eq, Structural)]
pub enum OrderClass {
    Simple,
    Bracket,
    OneCancelsOther,
    OneTriggersOther,
}

impl OrderClass {
    /// The name this value carries on the wire.
    pub open spec fn spec_wire(self) -> Seq<char> {
        match self {
            OrderClass::Simple => "simple"@,
            OrderClass::Bracket => "bracket"@,
            OrderClass::OneCancelsOther => "oco"@,
            OrderClass::OneTriggersOther => "oto"@,
        }
    }

    /// Renders the wire name.
    pub fn wire_name(&self) -> (r: &'static str)
        ensures
            r@ == self.spec_wire(),
    {
        match self {
            OrderClass::Simple => "simple",
            OrderClass::Bracket => "bracket",
            OrderClass::OneCancelsOther => "oco",
            OrderClass::OneTriggersOther => "oto",
        }
    }
}

impl Default for OrderClass {
    /// The default used when a request leaves the field unset.
    fn default() -> (r: Self)
        ensures
            r == OrderClass::Simple,
    {
        OrderClass::Simple
    }
}

/// The status of a wire bank relationship.
#[derive(Debug, Clone, Copy, PartialEq, Eq, Structural)]
pub enum BankRelationshipStatus {
    Queued,
    SentToClearing,
    Approved,
    Canceled,
}

impl BankRelationshipStatus {
    /// The name this value carries on the wire.
    pub open spec fn spec_wire(self) -> Seq<char> {
        match self {
            BankRelationshipStatus::Queued => "QUEUED"@,
            BankRelationshipStatus::SentToClearing => "SENT_TO_CLEARING"@,
            BankRelationshipStatus::Approved => "APPROVED"@,
            BankRelationshipStatus::Canceled => "CANCELED"@,
        }
    }

    /// Renders the wire name.
    pub fn wire_name(&self) -> (r: &'static str)
        ensures
            r@ == self.spec_wire(),
    {
        match self {
            BankRelationshipStatus::Queued => "QUEUED",
            BankRelationshipStatus::SentToClearing => "SENT_TO_CLEARING",
            BankRelationshipStatus::Approved => "APPROVED",
            BankRelationshipStatus::Canceled => "CANCELED",
        }
    }

    /// What parsing a wire name yields.
    pub open spec fn spec_from_wire(s: Seq<char>) -> Option<BankRelationshipStatus> {
        if s == "QUEUED"@ {
            Some(BankRelationshipStatus::Queued)
        } else if s == "SENT_TO_CLEARING"@ {
            Some(BankRelationshipStatus::SentToClearing)
        } else if s == "APPROVED"@ {
            Some(BankRelationshipStatus::Approved)
        } else if s == "CANCELED"@ {
            Some(BankRelationshipStatus::Canceled)
        } else {
            None
        }
    }

    /// Parses a wire name.
    pub fn from_wire(s: &str) -> (r: Option<BankRelationshipStatus>)
        ensures
            r == Self::spec_from_wire(s@),
    {
        if crate::util::str_eq(s, "QUEUED") {
            Some(BankRelationshipStatus::Queued)
        } else if crate::util::str_eq(s, "SENT_TO_CLEARING") {
            Some(BankRelationshipStatus::SentToClearing)
        } else if crate::util::str_eq(s, "APPROVED") {
            Some(BankRelationshipStatus::Approved)
        } else if crate::util::str_eq(s, "CANCELED") {
            Some(BankRelationshipStatus::Canceled)
        } else {
            None
        }
    }
}

/// A wire name parses back to the value it was rendered from.
pub proof fn lemma_bank_relationship_status_wire_roundtrip(v: BankRelationshipStatus)
    ensures
        BankRelationshipStatus::spec_from_wire(v.spec_wire()) == Some(v),
{
    reveal_strlit("QUEUED");
    reveal_strlit("SENT_TO_CLEARING");
    reveal_strlit("APPROVED");
    reveal_strlit("CANCELED");
    assert("QUEUED"@.len() == 6);
    assert("SENT_TO_CLEARING"@.len() == 16);
    assert("APPROVED"@.len() == 8);
    assert("CANCELED"@.len() == 8);
    assert("APPROVED"@ != "CANCELED"@) by {
        assert("APPROVED"@[0] == 'A');
        assert("CANCELED"@[0] == 'C');
    }
    match v {
        BankRelationshipStatus::Queued => {
            assert(BankRelationshipStatus::spec_from_wire("QUEUED"@) == Some(BankRelationshipStatus::Queued));
        },
        BankRelationshipStatus::SentToClearing => {
            assert(BankRelationshipStatus::spec_from_wire("SENT_TO_CLEARING"@) == Some(BankRelationshipStatus::SentToClearing));
        },
        BankRelationshipStatus::Approved => {
            assert(BankRelationshipStatus::spec_from_wire("APPROVED"@) == Some(BankRelationshipStatus::Approved));
        },
        BankRelationshipStatus::Canceled => {
            assert(BankRelationshipStatus::spec_from_wire("CANCELED"@) == Some(BankRelationshipStatus::Canceled));
        },
    }
}

/// The status of an ACH bank relationship.
#[derive(Debug, Clone, Copy, PartialEq, Eq, Structural)]
pub enum AchRelationshipStatus {
    Queued,
    Approved,
    Pending,
    CancelRequested,
}

impl AchRelationshipStatus {
    /// The name this value carries on the wire.
    pub open spec fn spec_wire(self) -> Seq<char> {
        match self {
            AchRelationshipStatus::Queued => "QUEUED"@,
            AchRelationshipStatus::Approved => "APPROVED"@,
            AchRelationshipStatus::Pending => "PENDING"@,
            AchRelationshipStatus::CancelRequested => "CANCEL_REQUESTED"@,
        }
    }

    /// Renders the wire name.
    pub fn wire_name(&self) -> (r: &'static str)
        ensures
            r@ == self.spec_wire(),
    {
        match self {
            AchRelationshipStatus::Queued => "QUEUED",
            AchRelationshipStatus::Approved => "APPROVED",
            AchRelationshipStatus::Pending => "PENDING",
            AchRelationshipStatus::CancelRequested => "CANCEL_REQUESTED",
        }
    }

    /// What parsing a wire name yields.
    pub open spec fn spec_from_wire(s: Seq<char>) -> Option<AchRelationshipStatus> {
        if s == "QUEUED"@ {
            Some(AchRelationshipStatus::Queued)
        } else if s == "APPROVED"@ {
            Some(AchRelationshipStatus::Approved)
        } else if s == "PENDING"@ {
            Some(AchRelationshipStatus::Pending)
        } else if s == "CANCEL_REQUESTED"@ {
            Some(AchRelationshipStatus::CancelRequested)
        } else {
            None
        }
    }

    /// Parses a wire name.
    pub fn from_wire(s: &str) -> (r: Option<AchRelationshipStatus>)
        ensures
            r == Self::spec_from_wire(s@),
    {
        if crate::util::str_eq(s, "QUEUED") {
            Some(AchRelationshipStatus::Queued)
        } else if crate::util::str_eq(s, "APPROVED") {
            Some(AchRelationshipStatus::Approved)
        } else if crate::util::str_eq(s, "PENDING") {
            Some(AchRelationshipStatus::Pending)
        } else if crate::util::str_eq(s, "CANCEL_REQUESTED") {
            Some(AchRelationshipStatus::CancelRequested)
        } else {
            None
        }
    }
}

/// A wire name parses back to the value it was rendered from.
pub proof fn lemma_ach_relationship_status_wire_roundtrip(v: AchRelationshipStatus)
    ensures
        AchRelationshipStatus::spec_from_wire(v.spec_wire()) == Some(v),
{
    reveal_strlit("QUEUED");
    reveal_strlit("APPROVED");
    reveal_strlit("PENDING");
    reveal_strlit("CANCEL_REQUESTED");
    assert("QUEUED"@.len() == 6);
    assert("APPROVED"@.len() == 8);
    assert("PENDING"@.len() == 7);
    assert("CANCEL_REQUESTED"@.len() == 16);
    match v {
        AchRelationshipStatus::Queued => {
            assert(AchRelationshipStatus::spec_from_wire("QUEUED"@) == Some(AchRelationshipStatus::Queued));
        },
        AchRelationshipStatus::Approved => {
            assert(AchRelationshipStatus::spec_from_wire("APPROVED"@) == Some(AchRelationshipStatus::Approved));
        },
        AchRelationshipStatus::Pending => {
            assert(AchRelationshipStatus::spec_from_wire("PENDING"@) == Some(AchRelationshipStatus::Pending));
        },
        AchRelationshipStatus::CancelRequested => {
            assert(AchRelationshipStatus::spec_from_wire("CANCEL_REQUESTED"@) == Some(AchRelationshipStatus::CancelRequested));
        },
    }
}

/// The kind of a linked bank account.
#[derive(Debug, Clone, Copy, PartialEq, Eq, Structural)]
pub enum BankAccountType {
    Checking,
    Savings,
}

impl BankAccountType {
    /// The name this value carries on the wire.
    pub open spec fn spec_wire(self) -> Seq<char> {
        match self {
            BankAccountType::Checking => "CHECKING"@,
            BankAccountType::Savings => "SAVINGS"@,
        }
    }

    /// Renders the wire name.
    pub fn wire_name(&self) -> (r: &'static str)
        ensures
            r@ == self.spec_wire(),
    {
        match self {
            BankAccountType::Checking => "CHECKING",
            BankAccountType::Savings => "SAVINGS",
        }
    }

    /// What parsing a wire name yields.
    pub open spec fn spec_from_wire(s: Seq<char>) -> Option<BankAccountType> {
        if s == "CHECKING"@ {
            Some(BankAccountType::Checking)
        } else if s == "SAVINGS"@ {
            Some(BankAccountType::Savings)
        } else {
            None
        }
    }

    /// Parses a wire name.
    pub fn from_wire(s: &str) -> (r: Option<BankAccountType>)
        ensures
            r == Self::spec_from_wire(s@),
    {
        if crate::util::str_eq(s, "CHECKING") {
            Some(BankAccountType::Checking)
        } else if crate::util::str_eq(s, "SAVINGS") {
            Some(BankAccountType::Savings)
        } else {
            None
        }
    }
}

/// A wire name parses back to the value it was rendered from.
pub proof fn lemma_bank_account_type_wire_roundtrip(v: BankAccountType)
    ensures
        BankAccountType::spec_from_wire(v.spec_wire()) == Some(v),
{
    reveal_strlit("CHECKING");
    reveal_strlit("SAVINGS");
    assert("CHECKING"@.len() == 8);
    assert("SAVINGS"@.len() == 7);
    match v {
        BankAccountType::Checking => {
            assert(BankAccountType::spec_from_wire("CHECKING"@) == Some(BankAccountType::Checking));
        },
        BankAccountType::Savings => {
            assert(BankAccountType::spec_from_wire("SAVINGS"@) == Some(BankAccountType::Savings));
        },
    }
}

/// How a transfer moves funds.
#[derive(Debug, Clone, Copy, PartialEq, Eq, Structural)]
pub enum TransferType {
    Ach,
    Wire,
}

impl TransferType {
    /// The name this value carries on the wire.
    pub open spec fn spec_wire(self) -> Seq<char> {
        match self {
            TransferType::Ach => "ACH"@,
            TransferType::Wire => "WIRE"@,
        }
    }

    /// Renders the wire name.
    pub fn wire_name(&self) -> (r: &'static str)
        ensures
            r@ == self.spec_wire(),
    {
        match self {
            TransferType::Ach => "ACH",
            TransferType::Wire => "WIRE",
        }
    }

    /// What parsing a wire name yields.
    pub open spec fn spec_from_wire(s: Seq<char>) -> Option<TransferType> {
        if s == "ACH"@ {
            Some(TransferType::Ach)
        } else if s == "WIRE"@ {
            Some(TransferType::Wire)
        } else {
            None
        }
    }

    /// Parses a wire name.
    pub fn from_wire(s: &str) -> (r: Option<TransferType>)
        ensures
            r == Self::spec_from_wire(s@),
    {
        if crate::util::str_eq(s, "ACH") {
            Some(TransferType::Ach)
        } else if crate::util::str_eq(s, "WIRE") {
            Some(TransferType::Wire)
        } else {
            None
        }
    }
}

/// A wire name parses back to the value it was rendered from.
pub proof fn lemma_transfer_type_wire_roundtrip(v: TransferType)
    ensures
        TransferType::spec_from_wire(v.spec_wire()) == Some(v),
{
    reveal_strlit("ACH");
    reveal_strlit("WIRE");
    assert("ACH"@.len() == 3);
    assert("WIRE"@.len() == 4);
    match v {
        TransferType::Ach => {
            assert(TransferType::spec_from_wire("ACH"@) == Some(TransferType::Ach));
        },
        TransferType::Wire => {
            assert(TransferType::spec_from_wire("WIRE"@) == Some(TransferType::Wire));
        },
    }
}

/// Whether a transfer funds or withdraws from the account.
#[derive(Debug, Clone, Copy, PartialEq, Eq, Structural)]
pub enum Direction {
    Incoming,
    Outgoing,
}

impl Direction {
    /// The name this value carries on the wire.
    pub open spec fn spec_wire(self) -> Seq<char> {
        match self {
            Direction::Incoming => "INCOMING"@,
            Direction::Outgoing => "OUTGOING"@,
        }
    }

    /// Renders the wire name.
    pub fn wire_name(&self) -> (r: &'static str)
        ensures
            r@ == self.spec_wire(),
    {
        match self {
            Direction::Incoming => "INCOMING",
            Direction::Outgoing => "OUTGOING",
        }
    }

    /// What parsing a wire name yields.
    pub open spec fn spec_from_wire(s: Seq<char>) -> Option<Direction> {
        if s == "INCOMING"@ {
            Some(Direction::Incoming)
        } else if s == "OUTGOING"@ {
            Some(Direction::Outgoing)
        } else {
            None
        }
    }

    /// Parses a wire name.
    pub fn from_wire(s: &str) -> (r: Option<Direction>)
        ensures
            r == Self::spec_from_wire(s@),
    {
        if crate::util::str_eq(s, "INCOMING") {
            Some(Direction::Incoming)
        } else if crate::util::str_eq(s, "OUTGOING") {
            Some(Direction::Outgoing)
        } else {
            None
        }
    }
}

/// A wire name parses back to the value it was rendered from.
pub proof fn lemma_direction_wire_roundtrip(v: Direction)
    ensures
        Direction::spec_from_wire(v.spec_wire()) == Some(v),
{
    reveal_strlit("INCOMING");
    reveal_strlit("OUTGOING");
    assert("INCOMING"@.len() == 8);
    assert("OUTGOING"@.len() == 8);
    assert("INCOMING"@ != "OUTGOING"@) by {
        assert("INCOMING"@[0] == 'I');
        assert("OUTGOING"@[0] == 'O');
    }
    match v {
        Direction::Incoming => {
            assert(Direction::spec_from_wire("INCOMING"@) == Some(Direction::Incoming));
        },
        Direction::Outgoing => {
            assert(Direction::spec_from_wire("OUTGOING"@) == Some(Direction::Outgoing));
        },
    }
}

/// When a transfer settles.
#[derive(Debug, Clone, Copy, PartialEq, Eq, Structural)]
pub enum Timing {
    Immediate,
    NextDay,
}

impl Timing {
    /// The name this value carries on the wire.
    pub open spec fn spec_wire(self) -> Seq<char> {
        match self {
            Timing::Immediate => "IMMEDIATE"@,
            Timing::NextDay => "NEXT_DAY"@,
        }
    }

    /// Renders the wire name.
    pub fn wire_name(&self) -> (r: &'static str)
        ensures
            r@ == self.spec_wire(),
    {
        match self {
            Timing::Immediate => "IMMEDIATE",
            Timing::NextDay => "NEXT_DAY",
        }
    }

    /// What parsing a wire name yields.
    pub open spec fn spec_from_wire(s: Seq<char>) -> Option<Timing> {
        if s == "IMMEDIATE"@ {
            Some(Timing::Immediate)
        } else if s == "NEXT_DAY"@ {
            Some(Timing::NextDay)
        } else {
            None
        }
    }

    /// Parses a wire name.
    pub fn from_wire(s: &str) -> (r: Option<Timing>)
        ensures
            r == Self::spec_from_wire(s@),
    {
        if crate::util::str_eq(s, "IMMEDIATE") {
            Some(Timing::Immediate)
        } else if crate::util::str_eq(s, "NEXT_DAY") {
            Some(Timing::NextDay)
        } else {
            None
        }
    }
}

/// A wire name parses back to the value it was rendered from.
pub proof fn lemma_timing_wire_roundtrip(v: Timing)
    ensures
        Timing::spec_from_wire(v.spec_wire()) == Some(v),
{
    reveal_strlit("IMMEDIATE");
    reveal_strlit("NEXT_DAY");
    assert("IMMEDIATE"@.len() == 9);
    assert("NEXT_DAY"@.len() == 8);
    match v {
        Timing::Immediate => {
            assert(Timing::spec_from_wire("IMMEDIATE"@) == Some(Timing::Immediate));
        },
        Timing::NextDay => {
            assert(Timing::spec_from_wire("NEXT_DAY"@) == Some(Timing::NextDay));
        },
    }
}

impl Default for Timing {
    /// The default used when a request leaves the field unset.
    fn default() -> (r: Self)
        ensures
            r == Timing::Immediate,
    {
        Timing::Immediate
    }
}

/// The processing status of a transfer.
#[derive(Debug, Clone, Copy, PartialEq, Eq, Structural)]
pub enum TransferStatus {
    Queued,
    ApprovalPending,
    Pending,
    SentToClearing,
    Rejected,
    Canceled,
    Approved,
    Complete,
    Returned,
}

impl TransferStatus {
    /// The name this value carries on the wire.
    pub open spec fn spec_wire(self) -> Seq<char> {
        match self {
            TransferStatus::Queued => "QUEUED"@,
            TransferStatus::ApprovalPending => "APPROVAL_PENDING"@,
            TransferStatus::Pending => "PENDING"@,
            TransferStatus::SentToClearing => "SENT_TO_CLEARING"@,
            TransferStatus::Rejected => "REJECTED"@,
            TransferStatus::Canceled => "CANCELED"@,
            TransferStatus::Approved => "APPROVED"@,
            TransferStatus::Complete => "COMPLETE"@,
            TransferStatus::Returned => "RETURNED"@,
        }
    }

    /// Renders the wire name.
    pub fn wire_name(&self) -> (r: &'static str)
        ensures
            r@ == self.spec_wire(),
    {
        match self {
            TransferStatus::Queued => "QUEUED",
            TransferStatus::ApprovalPending => "APPROVAL_PENDING",
            TransferStatus::Pending => "PENDING",
            TransferStatus::SentToClearing => "SENT_TO_CLEARING",
            TransferStatus::Rejected => "REJECTED",
            TransferStatus::Canceled => "CANCELED",
            TransferStatus::Approved => "APPROVED",
            TransferStatus::Complete => "COMPLETE",
            TransferStatus::Returned => "RETURNED",
        }
    }

    /// What parsing a wire name yields.
    pub open spec fn spec_from_wire(s: Seq<char>) -> Option<TransferStatus> {
        if s == "QUEUED"@ {
            Some(TransferStatus::Queued)
        } else if s == "APPROVAL_PENDING"@ {
            Some(TransferStatus::ApprovalPending)
        } else if s == "PENDING"@ {
            Some(TransferStatus::Pending)
        } else if s == "SENT_TO_CLEARING"@ {
            Some(TransferStatus::SentToClearing)
        } else if s == "REJECTED"@ {
            Some(TransferStatus::Rejected)
        } else if s == "CANCELED"@ {
            Some(TransferStatus::Canceled)
        } else if s == "APPROVED"@ {
            Some(TransferStatus::Approved)
        } else if s == "COMPLETE"@ {
            Some(TransferStatus::Complete)
        } else if s == "RETURNED"@ {
            Some(TransferStatus::Returned)
        } else {
            None
        }
    }

    /// Parses a wire name.
    pub fn from_wire(s: &str) -> (r: Option<TransferStatus>)
        ensures
            r == Self::spec_from_wire(s@),
    {
        if crate::util::str_eq(s, "QUEUED") {
            Some(TransferStatus::Queued)
        } else if crate::util::str_eq(s, "APPROVAL_PENDING") {
            Some(TransferStatus::ApprovalPending)
        } else if crate::util::str_eq(s, "PENDING") {
            Some(TransferStatus::Pending)
        } else if crate::util::str_eq(s, "SENT_TO_CLEARING") {
            Some(TransferStatus::SentToClearing)
        } else if crate::util::str_eq(s, "REJECTED") {
            Some(TransferStatus::Rejected)
        } else if crate::util::str_eq(s, "CANCELED") {
            Some(TransferStatus::Canceled)
        } else if crate::util::str_eq(s, "APPROVED") {
            Some(TransferStatus::Approved)
        } else if crate::util::str_eq(s, "COMPLETE") {
            Some(TransferStatus::Complete)
        } else if crate::util::str_eq(s, "RETURNED") {
            Some(TransferStatus::Returned)
        } else {
            None
        }
    }
}

/// A wire name parses back to the value it was rendered from.
pub proof fn lemma_transfer_status_wire_roundtrip(v: TransferStatus)
    ensures
        TransferStatus::spec_from_wire(v.spec_wire()) == Some(v),
{
    reveal_strlit("QUEUED");
    reveal_strlit("APPROVAL_PENDING");
    reveal_strlit("PENDING");
    reveal_strlit("SENT_TO_CLEARING");
    reveal_strlit("REJECTED");
    reveal_strlit("CANCELED");
    reveal_strlit("APPROVED");
    reveal_strlit("COMPLETE");
    reveal_strlit("RETURNED");
    assert("QUEUED"@.len() == 6);
    assert("APPROVAL_PENDING"@.len() == 16);
    assert("PENDING"@.len() == 7);
    assert("SENT_TO_CLEARING"@.len() == 16);
    assert("REJECTED"@.len() == 8);
    assert("CANCELED"@.len() == 8);
    assert("APPROVED"@.len() == 8);
    assert("COMPLETE"@.len() == 8);
    assert("RETURNED"@.len() == 8);
    assert("APPROVAL_PENDING"@ != "SENT_TO_CLEARING"@) by {
        assert("APPROVAL_PENDING"@[0] == 'A');
        assert("SENT_TO_CLEARING"@[0] == 'S');
    }
    assert("REJECTED"@ != "RETURNED"@) by {
        assert("REJECTED"@[2] == 'J');
        assert("RETURNED"@[2] == 'T');
    }
    assert("CANCELED"@ != "REJECTED"@) by {
        assert("CANCELED"@[0] == 'C');
        assert("REJECTED"@[0] == 'R');
    }
    assert("CANCELED"@ != "COMPLETE"@) by {
        assert("CANCELED"@[1] == 'A');
        assert("COMPLETE"@[1] == 'O');
    }
    assert("CANCELED"@ != "RETURNED"@) by {
        assert("CANCELED"@[0] == 'C');
        assert("RETURNED"@[0] == 'R');
    }
    assert("APPROVED"@ != "REJECTED"@) by {
        assert("APPROVED"@[0] == 'A');
        assert("REJECTED"@[0] == 'R');
    }
    assert("APPROVED"@ != "CANCELED"@) by {
        assert("APPROVED"@[0] == 'A');
        assert("CANCELED"@[0] == 'C');
    }
    assert("APPROVED"@ != "COMPLETE"@) by {
        assert("APPROVED"@[0] == 'A');
        assert("COMPLETE"@[0] == 'C');
    }
    assert("APPROVED"@ != "RETURNED"@) by {
        assert("APPROVED"@[0] == 'A');
        assert("RETURNED"@[0] == 'R');
    }
    assert("COMPLETE"@ != "REJECTED"@) by {
        assert("COMPLETE"@[0] == 'C');
        assert("REJECTED"@[0] == 'R');
    }
    assert("COMPLETE"@ != "RETURNED"@) by {
        assert("COMPLETE"@[0] == 'C');
        assert("RETURNED"@[0] == 'R');
    }
    match v {
        TransferStatus::Queued => {
            assert(TransferStatus::spec_from_wire("QUEUED"@) == Some(TransferStatus::Queued));
        },
        TransferStatus::ApprovalPending => {
            assert(TransferStatus::spec_from_wire("APPROVAL_PENDING"@) == Some(TransferStatus::ApprovalPending));
        },
        TransferStatus::Pending => {
            assert(TransferStatus::spec_from_wire("PENDING"@) == Some(TransferStatus::Pending));
        },
        TransferStatus::SentToClearing => {
            assert(TransferStatus::spec_from_wire("SENT_TO_CLEARING"@) == Some(TransferStatus::SentToClearing));
        },
        TransferStatus::Rejected => {
            assert(TransferStatus::spec_from_wire("REJECTED"@) == Some(TransferStatus::Rejected));
        },
        TransferStatus::Canceled => {
            assert(TransferStatus::spec_from_wire("CANCELED"@) == Some(TransferStatus::Canceled));
        },
        TransferStatus::Approved => {
            assert(TransferStatus::spec_from_wire("APPROVED"@) == Some(TransferStatus::Approved));
        },
        TransferStatus::Complete => {
            assert(TransferStatus::spec_from_wire("COMPLETE"@) == Some(TransferStatus::Complete));
        },
        TransferStatus::Returned => {
            assert(TransferStatus::spec_from_wire("RETURNED"@) == Some(TransferStatus::Returned));
        },
    }
}

/// The identifier scheme of a bank code.
#[derive(Debug, Clone, Copy, PartialEq, Eq, Structural)]
pub enum BankCodeType {
    Aba,
    Bic,
}

impl BankCodeType {
    /// The name this value carries on the wire.
    pub open spec fn spec_wire(self) -> Seq<char> {
        match self {
            BankCodeType::Aba => "ABA"@,
            BankCodeType::Bic => "BIC"@,
        }
    }

    /// Renders the wire name.
    pub fn wire_name(&self) -> (r: &'static str)
        ensures
            r@ == self.spec_wire(),
    {
        match self {
            BankCodeType::Aba => "ABA",
            BankCodeType::Bic => "BIC",
        }
    }
}

/// Which side a position is held on.
#[derive(Debug, Clone, Copy, PartialEq, Eq, Structural)]
pub enum Side {
    Long,
    Short,
}

impl Side {
    /// The name this value carries on the wire.
    pub open spec fn spec_wire(self) -> Seq<char> {
        match self {
            Side::Long => "long"@,
            Side::Short => "short"@,
        }
    }

    /// Renders the wire name.
    pub fn wire_name(&self) -> (r: &'static str)
        ensures
            r@ == self.spec_wire(),
    {
        match self {
            Side::Long => "long",
            Side::Short => "short",
        }
    }

    /// What parsing a wire name yields.
    pub open spec fn spec_from_wire(s: Seq<char>) -> Option<Side> {
        if s == "long"@ {
            Some(Side::Long)
        } else if s == "short"@ {
            Some(Side::Short)
        } else {
            None
        }
    }

    /// Parses a wire name.
    pub fn from_wire(s: &str) -> (r: Option<Side>)
        ensures
            r == Self::spec_from_wire(s@),
    {
        if crate::util::str_eq(s, "long") {
            Some(Side::Long)
        } else if crate::util::str_eq(s, "short") {
            Some(Side::Short)
        } else {
            None
        }
    }
}

/// A wire name parses back to the value it was rendered from.
pub proof fn lemma_side_wire_roundtrip(v: Side)
    ensures
        Side::spec_from_wire(v.spec_wire()) == Some(v),
{
    reveal_strlit("long");
    reveal_strlit("short");
    assert("long"@.len() == 4);
    assert("short"@.len() == 5);
    match v {
        Side::Long => {
            assert(Side::spec_from_wire("long"@) == Some(Side::Long));
        },
        Side::Short => {
            assert(Side::spec_from_wire("short"@) == Some(Side::Short));
        },
    }
}

impl Default for Side {
    /// The default used when a request leaves the field unset.
    fn default() -> (r: Self)
        ensures
            r == Side::Long,
    {
        Side::Long
    }
}

/// The class of a tradable asset.
#[derive(Debug, Clone, Copy, PartialEq, Eq, Structural)]
pub enum AssetClass {
    UsEquity,
    Crypto,
}

impl AssetClass {
    /// The name this value carries on the wire.
    pub open spec fn spec_wire(self) -> Seq<char> {
        match self {
            AssetClass::UsEquity => "us_equity"@,
            AssetClass::Crypto => "crypto"@,
        }
    }

    /// Renders the wire name.
    pub fn wire_name(&self) -> (r: &'static str)
        ensures
            r@ == self.spec_wire(),
    {
        match self {
            AssetClass::UsEquity => "us_equity",
            AssetClass::Crypto => "crypto",
        }
    }

    /// What parsing a wire name yields.
    pub open spec fn spec_from_wire(s: Seq<char>) -> Option<AssetClass> {
        if s == "us_equity"@ {
            Some(AssetClass::UsEquity)
        } else if s == "crypto"@ {
            Some(AssetClass::Crypto)
        } else {
            None
        }
    }

    /// Parses a wire name.
    pub fn from_wire(s: &str) -> (r: Option<AssetClass>)
        ensures
            r == Self::spec_from_wire(s@),
    {
        if crate::util::str_eq(s, "us_equity") {
            Some(AssetClass::UsEquity)
        } else if crate::util::str_eq(s, "crypto") {
            Some(AssetClass::Crypto)
        } else {
            None
        }
    }
}

/// A wire name parses back to the value it was rendered from.
pub proof fn lemma_asset_class_wire_roundtrip(v: AssetClass)
    ensures
        AssetClass::spec_from_wire(v.spec_wire()) == Some(v),
{
    reveal_strlit("us_equity");
    reveal_strlit("crypto");
    assert("us_equity"@.len() == 9);
    assert("crypto"@.len() == 6);
    match v {
        AssetClass::UsEquity => {
            assert(AssetClass::spec_from_wire("us_equity"@) == Some(AssetClass::UsEquity));
        },
        AssetClass::Crypto => {
            assert(AssetClass::spec_from_wire("crypto"@) == Some(AssetClass::Crypto));
        },
    }
}

/// Which corporate actions historical prices are adjusted for.
#[derive(Debug, Clone, Copy, PartialEq, Eq, Structural)]
pub enum CorporateActionAdjustment {
    Raw,
    Split,
    Dividend,
    All,
}

impl CorporateActionAdjustment {
    /// The name this value carries on the wire.
    pub open spec fn spec_wire(self) -> Seq<char> {
        match self {
            CorporateActionAdjustment::Raw => "raw"@,
            CorporateActionAdjustment::Split => "split"@,
            CorporateActionAdjustment::Dividend => "dividend"@,
            CorporateActionAdjustment::All => "all"@,
        }
    }

    /// Renders the wire name.
    pub fn wire_name(&self) -> (r: &'static str)
        ensures
            r@ == self.spec_wire(),
    {
        match self {
            CorporateActionAdjustment::Raw => "raw",
            CorporateActionAdjustment::Split => "split",
            CorporateActionAdjustment::Dividend => "dividend",
            CorporateActionAdjustment::All => "all",
        }
    }
}

impl Default for CorporateActionAdjustment {
    /// The default used when a request leaves the field unset.
    fn default() -> (r: Self)
        ensures
            r == CorporateActionAdjustment::All,
    {
        CorporateActionAdjustment::All
    }
}

/// Which tick stream a metadata request concerns.
#[derive(Debug, Clone, Copy, PartialEq, Eq, Structural)]
pub enum TickType {
    Trade,
    Quote,
}

impl TickType {
    /// The name this value carries on the wire.
    pub open spec fn spec_wire(self) -> Seq<char> {
        match self {
            TickType::Trade => "trade"@,
            TickType::Quote => "quote"@,
        }
    }

    /// Renders the wire name.
    pub fn wire_name(&self) -> (r: &'static str)
        ensures
            r@ == self.spec_wire(),
    {
        match self {
            TickType::Trade => "trade",
            TickType::Quote => "quote",
        }
    }
}

/// The consolidated tape a listing reports on.
#[derive(Debug, Clone, Copy, PartialEq, Eq, Structural)]
pub enum Tape {
    A,
    B,
    C,
}

impl Tape {
    /// The name this value carries on the wire.
    pub open spec fn spec_wire(self) -> Seq<char> {
        match self {
            Tape::A => "A"@,
            Tape::B => "B"@,
            Tape::C => "C"@,
        }
    }

    /// Renders the wire name.
    pub fn wire_name(&self) -> (r: &'static str)
        ensures
            r@ == self.spec_wire(),
    {
        match self {
            Tape::A => "A",
            Tape::B => "B",
            Tape::C => "C",
        }
    }
}

/// The reporting zone of a quote.
#[derive(Debug, Clone, Copy, PartialEq, Eq, Structural)]
pub enum QuoteZone {
    Nyse,
    Regional,
    Nasdaq,
    Otc,
}

impl QuoteZone {
    /// The name this value carries on the wire.
    pub open spec fn spec_wire(self) -> Seq<char> {
        match self {
            QuoteZone::Nyse => "A"@,
            QuoteZone::Regional => "B"@,
            QuoteZone::Nasdaq => "C"@,
            QuoteZone::Otc => "O"@,
        }
    }

    /// Renders the wire name.
    pub fn wire_name(&self) -> (r: &'static str)
        ensures
            r@ == self.spec_wire(),
    {
        match self {
            QuoteZone::Nyse => "A",
            QuoteZone::Regional => "B",
            QuoteZone::Nasdaq => "C",
            QuoteZone::Otc => "O",
        }
    }

    /// What parsing a wire name yields.
    pub open spec fn spec_from_wire(s: Seq<char>) -> Option<QuoteZone> {
        if s == "A"@ {
            Some(QuoteZone::Nyse)
        } else if s == "B"@ {
            Some(QuoteZone::Regional)
        } else if s == "C"@ {
            Some(QuoteZone::Nasdaq)
        } else if s == "O"@ {
            Some(QuoteZone::Otc)
        } else {
            None
        }
    }

    /// Parses a wire name.
    pub fn from_wire(s: &str) -> (r: Option<QuoteZone>)
        ensures
            r == Self::spec_from_wire(s@),
    {
        if crate::util::str_eq(s, "A") {
            Some(QuoteZone::Nyse)
        } else if crate::util::str_eq(s, "B") {
            Some(QuoteZone::Regional)
        } else if crate::util::str_eq(s, "C") {
            Some(QuoteZone::Nasdaq)
        } else if crate::util::str_eq(s, "O") {
            Some(QuoteZone::Otc)
        } else {
            None
        }
    }
}

/// A wire name parses back to the value it was rendered from.
pub proof fn lemma_quote_zone_wire_roundtrip(v: QuoteZone)
    ensures
        QuoteZone::spec_from_wire(v.spec_wire()) == Some(v),
{
    reveal_strlit("A");
    reveal_strlit("B");
    reveal_strlit("C");
    reveal_strlit("O");
    assert("A"@.len() == 1);
    assert("B"@.len() == 1);
    assert("C"@.len() == 1);
    assert("O"@.len() == 1);
    assert("A"@ != "B"@) by {
        assert("A"@[0] == 'A');
        assert("B"@[0] == 'B');
    }
    assert("A"@ != "C"@) by {
        assert("A"@[0] == 'A');
        assert("C"@[0] == 'C');
    }
    assert("A"@ != "O"@) by {
        assert("A"@[0] == 'A');
        assert("O"@[0] == 'O');
    }
    assert("B"@ != "C"@) by {
        assert("B"@[0] == 'B');
        assert("C"@[0] == 'C');
    }
    assert("B"@ != "O"@) by {
        assert("B"@[0] == 'B');
        assert("O"@[0] == 'O');
    }
    assert("C"@ != "O"@) by {
        assert("C"@[0] == 'C');
        assert("O"@[0] == 'O');
    }
    match v {
        QuoteZone::Nyse => {
            assert(QuoteZone::spec_from_wire("A"@) == Some(QuoteZone::Nyse));
        },
        QuoteZone::Regional => {
            assert(QuoteZone::spec_from_wire("B"@) == Some(QuoteZone::Regional));
        },
        QuoteZone::Nasdaq => {
            assert(QuoteZone::spec_from_wire("C"@) == Some(QuoteZone::Nasdaq));
        },
        QuoteZone::Otc => {
            assert(QuoteZone::spec_from_wire("O"@) == Some(QuoteZone::Otc));
        },
    }
}

/// Whether a calendar query is keyed by trading or settlement dates.
#[derive(Debug, Clone, Copy, PartialEq, Eq, Structural)]
pub enum DateType {
    Trading,
    Settlement,
}

impl DateType {
    /// The name this value carries on the wire.
    pub open spec fn spec_wire(self) -> Seq<char> {
        match self {
            DateType::Trading => "TRADING"@,
            DateType::Settlement => "SETTLEMENT"@,
        }
    }

    /// Renders the wire name.
    pub fn wire_name(&self) -> (r: &'static str)
        ensures
            r@ == self.spec_wire(),
    {
        match self {
            DateType::Trading => "TRADING",
            DateType::Settlement => "SETTLEMENT",
        }
    }
}

impl Default for DateType {
    /// The default used when a request leaves the field unset.
    fn default() -> (r: Self)
        ensures
            r == DateType::Trading,
    {
        DateType::Trading
    }
}

/// Which exchange feed market data is drawn from.
#[derive(Debug, Clone, Copy, PartialEq, Eq, Structural)]
pub enum StockFeed {
    Sip,
    InvestorsExchange,
    OverTheCounter,
}

impl StockFeed {
    /// The name this value carries on the wire.
    pub open spec fn spec_wire(self) -> Seq<char> {
        match self {
            StockFeed::Sip => "sip"@,
            StockFeed::InvestorsExchange => "iex"@,
            StockFeed::OverTheCounter => "otc"@,
        }
    }

    /// Renders the wire name.
    pub fn wire_name(&self) -> (r: &'static str)
        ensures
            r@ == self.spec_wire(),
    {
        match self {
            StockFeed::Sip => "sip",
            StockFeed::InvestorsExchange => "iex",
            StockFeed::OverTheCounter => "otc",
        }
    }
}

impl Default for StockFeed {
    /// The default used when a request leaves the field unset.
    fn default() -> (r: Self)
        ensures
            r == StockFeed::InvestorsExchange,
    {
        StockFeed::InvestorsExchange
    }
}

impl OrderStatus {
    /// Check whether the status is terminal, i.e., no more changes will
    /// occur to the associated order.
    pub fn is_terminal(&self) -> (r: bool)
        ensures
            r == (self is Replaced || self is Filled || self is Canceled || self is Expired
                || self is Rejected),
    {
        matches!(
            self,
            Self::Replaced | Self::Filled | Self::Canceled | Self::Expired | Self::Rejected
        )
    }
}

/// Either the symbol or the asset id that names a position.  On the wire
/// both are plain strings.
#[derive(Debug, Clone)]
pub enum SymbolOrAssetId {
    SymbolId(String),
    AssetId(String),
}

impl SymbolOrAssetId {
    /// The characters this identifier contributes to a path.
    pub open spec fn spec_text(self) -> Seq<char> {
        match self {
            SymbolOrAssetId::SymbolId(s) => s@,
            SymbolOrAssetId::AssetId(s) => s@,
        }
    }

    /// The identifier's text.
    pub fn text(&self) -> (r: &String)
        ensures
            r@ == self.spec_text(),
    {
        match self {
            SymbolOrAssetId::SymbolId(s) => s,
            SymbolOrAssetId::AssetId(s) => s,
        }
    }
}

/// The sampling width of one historical bar.
#[derive(Debug, Clone, Copy, PartialEq, Eq, Structural)]
pub enum Timeframe {
    Minutes(u8),
    Hours(u8),
    Day,
    Week,
    Months(u8),
}

impl Timeframe {
    /// The wire form: a count and a unit letter, the count left off for
    /// day and week widths.
    pub open spec fn spec_wire(self) -> Seq<char> {
        match self {
            Timeframe::Minutes(m) => crate::util::dec_digits(m as nat) + seq!['T'],
            Timeframe::Hours(h) => crate::util::dec_digits(h as nat) + seq!['H'],
            Timeframe::Day => "1D"@,
            Timeframe::Week => "1W"@,
            Timeframe::Months(m) => crate::util::dec_digits(m as nat) + seq!['M'],
        }
    }

    /// Renders the wire form.
    pub fn wire_text(&self) -> (r: String)
        ensures
            r@ == self.spec_wire(),
    {
        match self {
            Timeframe::Minutes(m) => {
                let mut s = crate::util::u64_to_string(*m as u64);
                s.append("T");
                proof {
                    reveal_strlit("T");
                    assert(s@ =~= crate::util::dec_digits(*m as nat) + seq!['T']);
                }
                s
            },
            Timeframe::Hours(h) => {
                let mut s = crate::util::u64_to_string(*h as u64);
                s.append("H");
                proof {
                    reveal_strlit("H");
                    assert(s@ =~= crate::util::dec_digits(*h as nat) + seq!['H']);
                }
                s
            },
            Timeframe::Day => String::from_str("1D"),
            Timeframe::Week => String::from_str("1W"),
            Timeframe::Months(m) => {
                let mut s = crate::util::u64_to_string(*m as u64);
                s.append("M");
                proof {
                    reveal_strlit("M");
                    assert(s@ =~= crate::util::dec_digits(*m as nat) + seq!['M']);
                }
                s
            },
        }
    }
}

impl Default for Timeframe {
    /// The default sampling width.
    fn default() -> (r: Self)
        ensures
            r == Timeframe::Day,
    {
        Timeframe::Day
    }
}

/// A bank identifier with its scheme: an ABA routing number or a BIC
/// code.
#[derive(Debug, Clone)]
pub enum BankCode {
    ABA(String),
    BIC(String),
}

impl BankCode {
    /// The code itself.
    pub fn code(&self) -> (r: &String)
        ensures
            r@ == match self {
                BankCode::ABA(c) => c@,
                BankCode::BIC(c) => c@,
            },
    {
        match self {
            BankCode::ABA(c) => c,
            BankCode::BIC(c) => c,
        }
    }

    /// The scheme the code belongs to.
    pub fn code_type(&self) -> (r: BankCodeType)
        ensures
            r == match self {
                BankCode::ABA(_) => BankCodeType::Aba,
                BankCode::BIC(_) => BankCodeType::Bic,
            },
    {
        match self {
            BankCode::ABA(_) => BankCodeType::Aba,
            BankCode::BIC(_) => BankCodeType::Bic,
        }
    }
}

/// The count read off the head of a timeframe string: the first two
/// characters when the second is a digit, the first alone otherwise,
/// as a number up to 255.
pub open spec fn spec_timeframe_count(s: Seq<char>) -> Option<u8> {
    if s.len() < 2 {
        None
    } else {
        let text = if crate::util::is_digit_char(s[1]) {
            s.take(2)
        } else {
            s.take(1)
        };
        if crate::util::all_digits(text) && crate::util::dec_val(text) <= 255 {
            Some(crate::util::dec_val(text) as u8)
        } else {
            None
        }
    }
}

/// What parsing a timeframe string yields: the last character picks the
/// unit, accepting both the short form and the last letter of the long
/// word; counted units read their count off the head.
pub open spec fn spec_parse_timeframe(s: Seq<char>) -> Option<Timeframe> {
    if s.len() == 0 {
        None
    } else {
        let last = s[s.len() - 1];
        if last == 'T' || last == 'n' {
            match spec_timeframe_count(s) {
                Some(m) => Some(Timeframe::Minutes(m)),
                None => None,
            }
        } else if last == 'H' || last == 'r' {
            match spec_timeframe_count(s) {
                Some(h) => Some(Timeframe::Hours(h)),
                None => None,
            }
        } else if last == 'D' || last == 'y' {
            Some(Timeframe::Day)
        } else if last == 'W' || last == 'k' {
            Some(Timeframe::Week)
        } else if last == 'M' || last == 'h' {
            match spec_timeframe_count(s) {
                Some(m) => Some(Timeframe::Months(m)),
                None => None,
            }
        } else {
            None
        }
    }
}

/// The complaint reported when a timeframe string has no parse: an
/// empty head where a count is owed, a head that is not a small number,
/// or an ending that names no unit.
pub open spec fn spec_timeframe_error(s: Seq<char>) -> Seq<char> {
    if s.len() == 0 {
        "no characters"@
    } else {
        let last = s[s.len() - 1];
        if last == 'T' || last == 'n' || last == 'H' || last == 'r' || last == 'M' || last == 'h' {
            if s.len() < 2 {
                "no characters"@
            } else {
                "invalid number"@
            }
        } else {
            "invalid ending character"@
        }
    }
}

impl Timeframe {
    /// Reads the count off the head of a timeframe string.
    fn count_of(s: &str) -> (r: Result<u8, &'static str>)
        ensures
            match r {
                Ok(v) => spec_timeframe_count(s@) == Some(v),
                Err(m) => spec_timeframe_count(s@) is None && m@ == (if s@.len() < 2 {
                    "no characters"@
                } else {
                    "invalid number"@
                }),
            },
    {
        let n = s.unicode_len();
        if n < 2 {
            return Err("no characters");
        }
        let take: usize = if {
            let c = s.get_char(1) as u32;
            48 <= c && c <= 57
        } {
            2
        } else {
            1
        };
        let head = s.substring_char(0, take);
        proof {
            assert(head@ =~= s@.take(take as int));
        }
        match crate::util::parse_u64(head) {
            Some(v) => {
                if v <= 255 {
                    Ok(v as u8)
                } else {
                    Err("invalid number")
                }
            },
            None => Err("invalid number"),
        }
    }

    /// Parses a timeframe from its wire or spelled-out ending: the last
    /// character picks the unit, the head carries the count.  A string
    /// with no parse is refused with the complaint that names what was
    /// wrong with it.
    pub fn parse(s: &str) -> (r: Result<Timeframe, &'static str>)
        ensures
            match r {
                Ok(t) => spec_parse_timeframe(s@) == Some(t),
                Err(m) => spec_parse_timeframe(s@) is None && m@ == spec_timeframe_error(s@),
            },
    {
        let n = s.unicode_len();
        if n == 0 {
            return Err("no characters");
        }
        let last = s.get_char(n - 1);
        if last == 'T' || last == 'n' {
            match Self::count_of(s) {
                Ok(m) => Ok(Timeframe::Minutes(m)),
                Err(m) => Err(m),
            }
        } else if last == 'H' || last == 'r' {
            match Self::count_of(s) {
                Ok(h) => Ok(Timeframe::Hours(h)),
                Err(m) => Err(m),
            }
        } else if last == 'D' || last == 'y' {
            Ok(Timeframe::Day)
        } else if last == 'W' || last == 'k' {
            Ok(Timeframe::Week)
        } else if last == 'M' || last == 'h' {
            match Self::count_of(s) {
                Ok(m) => Ok(Timeframe::Months(m)),
                Err(m) => Err(m),
            }
        } else {
            Err("invalid ending character")
        }
    }
}

/// A rendered timeframe parses back to itself.  Counts are limited to
/// two digits, as the head of a timeframe string carries at most two.
pub proof fn lemma_timeframe_wire_roundtrip(t: Timeframe)
    requires
        match t {
            Timeframe::Minutes(m) => m < 100,
            Timeframe::Hours(h) => h < 100,
            Timeframe::Months(m) => m < 100,
            _ => true,
        },
    ensures
        spec_parse_timeframe(t.spec_wire()) == Some(t),
{
    reveal_strlit("1D");
    reveal_strlit("1W");
    assert("1D"@.len() == 2);
    assert("1W"@.len() == 2);
    assert("1D"@[1] == 'D');
    assert("1W"@[1] == 'W');
    match t {
        Timeframe::Minutes(m) => {
            lemma_timeframe_count_roundtrip(m, 'T');
        },
        Timeframe::Hours(h) => {
            lemma_timeframe_count_roundtrip(h, 'H');
        },
        Timeframe::Day => {
        },
        Timeframe::Week => {
        },
        Timeframe::Months(m) => {
            lemma_timeframe_count_roundtrip(m, 'M');
        },
    }
}

/// Rendering a count and a unit letter reads the count back.
proof fn lemma_timeframe_count_roundtrip(m: u8, unit: char)
    requires
        unit == 'T' || unit == 'H' || unit == 'M',
        m < 100,
    ensures
        spec_timeframe_count(crate::util::dec_digits(m as nat) + seq![unit]) == Some(m),
        ((crate::util::dec_digits(m as nat) + seq![unit])[(crate::util::dec_digits(m as nat)
            + seq![unit]).len() - 1]) == unit,
{
    crate::util::lemma_dec_digits_roundtrip(m as nat);
    let d = crate::util::dec_digits(m as nat);
    let s = d + seq![unit];
    assert(s[s.len() - 1] == unit);
    if m < 10 {
        assert(d.len() == 1) by {
            crate::util::lemma_dec_digits_len_small(m as nat);
        }
        assert(!crate::util::is_digit_char(s[1]));
        assert(s.take(1) =~= d);
    } else if m < 100 {
        assert(d.len() == 2) by {
            crate::util::lemma_dec_digits_len_small(m as nat);
        }
        assert(crate::util::is_digit_char(s[1]));
        assert(s.take(2) =~= d);
    } else {
        assert(crate::util::is_digit_char(s[1]));
        assert(s.take(2) =~= d);
    }
}

} // verus!
