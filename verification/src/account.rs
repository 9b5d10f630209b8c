use vstd::prelude::*;

use crate::errors::ProposalError;

verus! {

/// Whether a sequence of characters forms a syntactically valid account
/// identifier. The exact character rules belong to the account-id crate; the
/// library relies only on the answer being a function of the characters.
pub uninterp spec fn account_is_valid(s: Seq<char>) -> bool;

/// Relies on near_sdk::AccountId::validate: whether a string is a
/// syntactically valid account identifier, a function of its characters alone.
#[verifier::external_body]
fn check_account_id(s: &str) -> (r: bool)
    ensures
        r == account_is_valid(s@),
{
    near_sdk::AccountId::validate(s).is_ok()
}

/// Checks that an identity satisfies the account-syntax rules, and reports
/// the identity as invalid otherwise.
pub fn assert_valid_account(a: &String) -> (r: Result<(), ProposalError>)
    ensures
        r is Ok <==> account_is_valid(a@),
        r is Err ==> r->Err_0 == ProposalError::InvalidAccount,
{
    if check_account_id(a.as_str()) {
        Ok(())
    } else {
        Err(ProposalError::InvalidAccount)
    }
}

/// An identity that has passed the account-syntax check. Values are only
/// constructed through [`ValidAccountId::new`], so every value a caller can
/// obtain is well-formed.
#[derive(Clone, Debug, PartialEq)]
pub struct ValidAccountId {
    id: String,
}

impl View for ValidAccountId {
    type V = Seq<char>;

    closed spec fn view(&self) -> Seq<char> {
        self.id@
    }
}

impl ValidAccountId {
    /// The characters satisfy the account-syntax rules.
    pub open spec fn wf(&self) -> bool {
        account_is_valid(self@)
    }

    /// Validates an identity at the boundary.
    pub fn new(id: String) -> (r: Result<ValidAccountId, ProposalError>)
        ensures
            r is Ok <==> account_is_valid(id@),
            r is Ok ==> r->Ok_0@ == id@ && r->Ok_0.wf(),
            r is Err ==> r->Err_0 == ProposalError::InvalidAccount,
    {
        match assert_valid_account(&id) {
            Ok(()) => Ok(ValidAccountId { id }),
            Err(e) => Err(e),
        }
    }

    /// Read access to the identity.
    pub fn account_id(&self) -> (r: &String)
        ensures
            r@ == self@,
    {
        &self.id
    }

    /// Gives the identity up, unwrapped.
    pub fn into_account_id(self) -> (r: String)
        ensures
            r@ == self@,
    {
        self.id
    }
}

} // verus!
