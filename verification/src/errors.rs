//! The errors that the sale's operations return.

use vstd::prelude::*;

verus! {

/// Why an operation was refused.
#[derive(Debug, Clone, PartialEq, Eq)]
pub enum ContractError {
    /// A failure passed through from storage or from the host, with its text.
    Std(String),
    /// The caller, or the payment it sent, is not what the operation asks for.
    Unauthorized {},
    /// The token registry already holds a token with that identifier.
    Claimed {},
    /// An approval that has already expired cannot be set.
    Expired {},
    /// No item with that identifier exists.
    TokenNotFound {},
    /// The token is frozen and cannot be updated.
    TokenFrozen {},
    /// The declared supply is used up.
    MaxTokenSupply {},
    /// The pool cannot serve an allocation: a category is empty, or the
    /// counter of issued items cannot advance.
    Failed {},
    /// Every item of the declared supply has been issued.
    MaxTokensMinted {},
    /// The buyer has used up its quota of purchases.
    MaxMintsPerAddress {},
    /// The allow-list is enforced and the buyer is not on it.
    NotWhitelisted {},
}

/// The errors that the token registry reports for the calls handed on to it.
#[derive(Debug, Clone, PartialEq, Eq)]
pub enum RegistryError {
    Std(String),
    Unauthorized {},
    Claimed {},
    Expired {},
}

impl ContractError {
    /// The text shown to a user for this error, as a view.
    pub open spec fn spec_message(self) -> Seq<char> {
        match self {
            ContractError::Std(text) => text@,
            ContractError::Unauthorized {  } => "Unauthorized"@,
            ContractError::Claimed {  } => "Token already claimed"@,
            ContractError::Expired {  } => "Cannot set approval that is already expired"@,
            ContractError::TokenNotFound {  } => "Token not found"@,
            ContractError::TokenFrozen {  } => "Cannot update frozen token"@,
            ContractError::MaxTokenSupply {  } => "Token supply exhausted"@,
            ContractError::Failed {  } => "failed"@,
            ContractError::MaxTokensMinted {  } => "Maximum number of tokens have minted"@,
            ContractError::MaxMintsPerAddress {  } => "This wallet has exceeded its mint limit"@,
            ContractError::NotWhitelisted {  }
                => "This wallet can't mint because it's not whitelisted"@,
        }
    }

    /// The text shown to a user for this error.
    pub fn message(&self) -> (text: String)
        ensures
            text@ == self.spec_message(),
    {
        match self {
            ContractError::Std(text) => text.clone(),
            ContractError::Unauthorized {  } => "Unauthorized".to_owned(),
            ContractError::Claimed {  } => "Token already claimed".to_owned(),
            ContractError::Expired {  } => "Cannot set approval that is already expired".to_owned(),
            ContractError::TokenNotFound {  } => "Token not found".to_owned(),
            ContractError::TokenFrozen {  } => "Cannot update frozen token".to_owned(),
            ContractError::MaxTokenSupply {  } => "Token supply exhausted".to_owned(),
            ContractError::Failed {  } => "failed".to_owned(),
            ContractError::MaxTokensMinted {  } => "Maximum number of tokens have minted".to_owned(),
            ContractError::MaxMintsPerAddress {  }
                => "This wallet has exceeded its mint limit".to_owned(),
            ContractError::NotWhitelisted {  }
                => "This wallet can't mint because it's not whitelisted".to_owned(),
        }
    }

    /// The error of the sale that stands for an error of the token registry:
    /// the variant of the same name, with the same text.
    pub open spec fn of_registry(err: RegistryError) -> ContractError {
        match err {
            RegistryError::Unauthorized {  } => ContractError::Unauthorized {  },
            RegistryError::Claimed {  } => ContractError::Claimed {  },
            RegistryError::Expired {  } => ContractError::Expired {  },
            RegistryError::Std(text) => ContractError::Std(text),
        }
    }
}

impl From<RegistryError> for ContractError {
    fn from(msg: RegistryError) -> (err: ContractError) {
        match msg {
            RegistryError::Unauthorized {  } => ContractError::Unauthorized {  },
            RegistryError::Claimed {  } => ContractError::Claimed {  },
            RegistryError::Expired {  } => ContractError::Expired {  },
            RegistryError::Std(e) => ContractError::Std(e),
        }
    }
}

impl vstd::std_specs::convert::FromSpecImpl<RegistryError> for ContractError {
    open spec fn obeys_from_spec() -> bool {
        true
    }

    open spec fn from_spec(msg: RegistryError) -> ContractError {
        ContractError::of_registry(msg)
    }
}

} // verus!
