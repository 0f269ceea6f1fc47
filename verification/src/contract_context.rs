use vstd::prelude::*;

use crate::account_id::AccountId;

verus! {

/// Identifies global contract code: by the hash of the code, or by the account
/// that deployed it.
#[derive(Debug)]
pub enum GlobalContractCodeIdentifier {
    CodeHash(String),
    AccountId(AccountId),
}

/// The context a contract runs in: on its own account (`Root`), or as shared
/// code that runs on many accounts (`Sharded`).
#[derive(Debug)]
#[non_exhaustive]
pub enum ContractContext {
    Root,
    Sharded { code_id: GlobalContractCodeIdentifier },
}

/// The mathematical value of a code identifier.
pub enum CodeIdentifierView {
    CodeHash(Seq<char>),
    AccountId(Seq<char>),
}

/// The mathematical value of a contract context.
pub enum ContractContextView {
    Root,
    Sharded(CodeIdentifierView),
}

impl View for GlobalContractCodeIdentifier {
    type V = CodeIdentifierView;

    open spec fn view(&self) -> CodeIdentifierView {
        match self {
            GlobalContractCodeIdentifier::CodeHash(h) => CodeIdentifierView::CodeHash(h@),
            GlobalContractCodeIdentifier::AccountId(a) => CodeIdentifierView::AccountId(a@),
        }
    }
}

impl View for ContractContext {
    type V = ContractContextView;

    open spec fn view(&self) -> ContractContextView {
        match self {
            ContractContext::Root => ContractContextView::Root,
            ContractContext::Sharded { code_id } => ContractContextView::Sharded(code_id@),
        }
    }
}

impl ContractContext {
    /// Whether this is a sharded context.
    pub fn is_sharded(&self) -> (r: bool)
        ensures
            r == (self@ is Sharded),
    {
        match self {
            ContractContext::Root => false,
            ContractContext::Sharded { .. } => true,
        }
    }
}

impl Clone for GlobalContractCodeIdentifier {
    fn clone(&self) -> (r: Self)
        ensures
            r == *self,
    {
        match self {
            GlobalContractCodeIdentifier::CodeHash(h) => GlobalContractCodeIdentifier::CodeHash(h.clone()),
            GlobalContractCodeIdentifier::AccountId(a) => GlobalContractCodeIdentifier::AccountId(a.clone()),
        }
    }
}

impl Clone for ContractContext {
    fn clone(&self) -> (r: Self)
        ensures
            r == *self,
    {
        match self {
            ContractContext::Root => ContractContext::Root,
            ContractContext::Sharded { code_id } => ContractContext::Sharded { code_id: code_id.clone() },
        }
    }
}

impl PartialEq for GlobalContractCodeIdentifier {
    fn eq(&self, other: &Self) -> (r: bool) {
        match (self, other) {
            (GlobalContractCodeIdentifier::CodeHash(a), GlobalContractCodeIdentifier::CodeHash(b)) => *a == *b,
            (GlobalContractCodeIdentifier::AccountId(a), GlobalContractCodeIdentifier::AccountId(b)) => *a == *b,
            _ => false,
        }
    }
}

impl vstd::std_specs::cmp::PartialEqSpecImpl for GlobalContractCodeIdentifier {
    open spec fn obeys_eq_spec() -> bool {
        true
    }

    open spec fn eq_spec(&self, other: &GlobalContractCodeIdentifier) -> bool {
        self@ == other@
    }
}

impl PartialEq for ContractContext {
    fn eq(&self, other: &Self) -> (r: bool) {
        match (self, other) {
            (ContractContext::Root, ContractContext::Root) => true,
            (ContractContext::Sharded { code_id: a }, ContractContext::Sharded { code_id: b }) => a == b,
            _ => false,
        }
    }
}

impl vstd::std_specs::cmp::PartialEqSpecImpl for ContractContext {
    open spec fn obeys_eq_spec() -> bool {
        true
    }

    open spec fn eq_spec(&self, other: &ContractContext) -> bool {
        self@ == other@
    }
}

} // verus!
