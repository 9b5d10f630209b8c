use vstd::prelude::*;

use crate::account::account_is_valid;
use crate::account::ValidAccountId;
use crate::errors::ProposalError;

verus! {

/// Mathematical content of an externally-facing action.
pub enum ActionModel {
    Transfer { dest: Seq<char>, amount: u128 },
    Delete { dest: Seq<char> },
}

/// Mathematical content of an internally-validated action.
pub enum ActionIntModel {
    Transfer { dest: Seq<char>, amount: u128 },
    Delete { dest: Seq<char> },
}

impl ActionModel {
    /// The destination identity of the action.
    pub open spec fn dest(self) -> Seq<char> {
        match self {
            ActionModel::Transfer { dest, .. } => dest,
            ActionModel::Delete { dest } => dest,
        }
    }
}

impl ActionIntModel {
    /// The destination identity of the action.
    pub open spec fn dest(self) -> Seq<char> {
        match self {
            ActionIntModel::Transfer { dest, .. } => dest,
            ActionIntModel::Delete { dest } => dest,
        }
    }
}

/// The internal form of an external action: the same kind, the same
/// destination and the same amount.
pub open spec fn internal_of(a: ActionModel) -> ActionIntModel {
    match a {
        ActionModel::Transfer { dest, amount } => ActionIntModel::Transfer { dest, amount },
        ActionModel::Delete { dest } => ActionIntModel::Delete { dest },
    }
}

/// The external form of an internal action: the same kind, the same
/// destination and the same amount.
pub open spec fn external_of(i: ActionIntModel) -> ActionModel {
    match i {
        ActionIntModel::Transfer { dest, amount } => ActionModel::Transfer { dest, amount },
        ActionIntModel::Delete { dest } => ActionModel::Delete { dest },
    }
}

/// The destination of an internal action passes the account-syntax check.
pub open spec fn internal_valid(i: ActionIntModel) -> bool {
    account_is_valid(i.dest())
}

/// Law: converting an action between its external and its internal form loses
/// nothing, in either direction: the two conversions are mutually inverse.
pub proof fn lemma_action_round_trip(a: ActionModel, i: ActionIntModel)
    ensures
        external_of(internal_of(a)) == a,
        internal_of(external_of(i)) == i,
{
}

/// An externally-supplied action: a JSON-compatible description of the effect
/// a proposal authorizes. Destination identities are validated at the
/// boundary, by construction of [`ValidAccountId`].
#[derive(Clone, Debug, PartialEq)]
pub enum Action {
    Transfer { dest: ValidAccountId, amount: u128 },
    Delete { dest: ValidAccountId },
}

/// The internally-validated action held by a proposal. The destination is
/// carried as a plain identity; it was syntax-checked when the action was
/// converted from its external form.
#[derive(Clone, Debug, PartialEq)]
pub enum ActionInt {
    Transfer { dest: String, amount: u128 },
    Delete { dest: String },
}

impl View for Action {
    type V = ActionModel;

    open spec fn view(&self) -> ActionModel {
        match self {
            Action::Transfer { dest, amount } => ActionModel::Transfer {
                dest: dest@,
                amount: *amount,
            },
            Action::Delete { dest } => ActionModel::Delete { dest: dest@ },
        }
    }
}

impl View for ActionInt {
    type V = ActionIntModel;

    open spec fn view(&self) -> ActionIntModel {
        match self {
            ActionInt::Transfer { dest, amount } => ActionIntModel::Transfer {
                dest: dest@,
                amount: *amount,
            },
            ActionInt::Delete { dest } => ActionIntModel::Delete { dest: dest@ },
        }
    }
}

impl Action {
    /// The destination identity satisfies the account-syntax rules.
    pub open spec fn wf(&self) -> bool {
        account_is_valid(self@.dest())
    }

    /// Creates the internal representation of this action.
    pub fn to_aint(&self) -> (r: ActionInt)
        ensures
            r@ == internal_of(self@),
            internal_valid(r@) == self.wf(),
    {
        match self {
            Action::Transfer { dest, amount } => ActionInt::Transfer {
                dest: dest.account_id().clone(),
                amount: *amount,
            },
            Action::Delete { dest } => ActionInt::Delete { dest: dest.account_id().clone() },
        }
    }
}

impl ActionInt {
    /// Converts this internal action back to its external representation.
    /// Reproduces the content of the action it was converted from; fails only
    /// when the stored destination does not pass the account-syntax check,
    /// which cannot happen to an action that came through [`Action::to_aint`]
    /// on a well-formed action.
    pub fn into_action(self) -> (r: Result<Action, ProposalError>)
        ensures
            r is Ok <==> internal_valid(self@),
            r is Ok ==> r->Ok_0@ == external_of(self@) && r->Ok_0.wf(),
            r is Err ==> r->Err_0 == ProposalError::InvalidAccount,
    {
        match self {
            ActionInt::Transfer { dest, amount } => match ValidAccountId::new(dest) {
                Ok(d) => Ok(Action::Transfer { dest: d, amount }),
                Err(e) => Err(e),
            },
            ActionInt::Delete { dest } => match ValidAccountId::new(dest) {
                Ok(d) => Ok(Action::Delete { dest: d }),
                Err(e) => Err(e),
            },
        }
    }
}

} // verus!
