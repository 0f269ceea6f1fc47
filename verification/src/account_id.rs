use vstd::prelude::*;

verus! {

/// `.`, `-` and `_`: the characters that separate the parts of an account id.
pub open spec fn is_account_id_separator(c: char) -> bool {
    c == '-' || c == '_' || c == '.'
}

/// A lowercase ASCII letter, an ASCII digit or a separator.
pub open spec fn is_account_id_char(c: char) -> bool {
    ||| (0x61 <= (c as u32) && (c as u32) <= 0x7a)
    ||| (0x30 <= (c as u32) && (c as u32) <= 0x39)
    ||| is_account_id_separator(c)
}

/// The NEAR account id rules: 2 to 64 characters, only lowercase letters,
/// digits and separators, no separator at either end, and no two separators
/// in a row.
pub open spec fn is_valid_account_id(s: Seq<char>) -> bool {
    &&& 2 <= s.len() <= 64
    &&& forall|i: int| 0 <= i < s.len() ==> #[trigger] is_account_id_char(s[i])
    &&& !is_account_id_separator(s[0])
    &&& !is_account_id_separator(s[s.len() - 1])
    &&& forall|i: int|
        0 <= i < s.len() - 1 ==> !(#[trigger] is_account_id_separator(s[i])
            && is_account_id_separator(s[i + 1]))
}

/// Calls `near_account_id::AccountId::validate`, which accepts exactly the
/// strings that follow the account id rules that crate documents; the
/// contract claims that `is_valid_account_id` is those rules.
#[verifier::external_body]
fn validate_account_id(id: &str) -> (valid: bool)
    ensures
        valid == is_valid_account_id(id@),
{
    near_account_id::AccountId::validate(id).is_ok()
}

/// A syntactically valid NEAR account identifier.
#[derive(Debug)]
pub struct AccountId {
    id: String,
}

impl View for AccountId {
    type V = Seq<char>;

    closed spec fn view(&self) -> Seq<char> {
        self.id@
    }
}

impl AccountId {
    #[verifier::type_invariant]
    spec fn follows_rules(self) -> bool {
        is_valid_account_id(self.id@)
    }

    /// The account id spelled by `id`, if `id` follows the account id rules.
    pub fn try_from_string(id: String) -> (r: Option<AccountId>)
        ensures
            r is Some <==> is_valid_account_id(id@),
            r matches Some(a) ==> a@ == id@,
    {
        if validate_account_id(id.as_str()) {
            Some(AccountId { id })
        } else {
            None
        }
    }

    /// The text of the account id; it follows the account id rules.
    pub fn as_str(&self) -> (s: &str)
        ensures
            s@ == self@,
            is_valid_account_id(s@),
    {
        proof {
            use_type_invariant(self);
        }
        self.id.as_str()
    }
}

impl Clone for AccountId {
    fn clone(&self) -> (r: Self)
        ensures
            r == *self,
    {
        proof {
            use_type_invariant(self);
        }
        AccountId { id: self.id.clone() }
    }
}

impl PartialEq for AccountId {
    fn eq(&self, other: &Self) -> (r: bool) {
        self.id == other.id
    }
}

impl vstd::std_specs::cmp::PartialEqSpecImpl for AccountId {
    open spec fn obeys_eq_spec() -> bool {
        true
    }

    open spec fn eq_spec(&self, other: &AccountId) -> bool {
        self@ == other@
    }
}

} // verus!
