use vstd::prelude::*;

verus! {

/// The two kinds of credential an account can hold.
#[derive(Clone, Copy, Debug, PartialEq, Eq, Structural)]
pub enum AccountKind {
    ChatGpt,
    ApiKey,
}

/// A snapshot of one stored credential, as the account directory lists it.
#[derive(Clone, Debug)]
pub struct AccountSummary {
    pub id: String,
    pub label: String,
    pub kind: AccountKind,
    pub email: Option<String>,
    pub masked_api_key: Option<String>,
    pub is_active: bool,
}

/// `i` is the index of the first account marked active in `s`.
pub open spec fn is_first_active(s: Seq<AccountSummary>, i: int) -> bool {
    &&& 0 <= i < s.len()
    &&& s[i].is_active
    &&& forall|j: int| 0 <= j < i ==> !s[j].is_active
}

/// The index of the first active account in `s`, if any account is active.
pub open spec fn first_active(s: Seq<AccountSummary>) -> Option<nat> {
    if exists|i: int| is_first_active(s, i) {
        Some((choose|i: int| is_first_active(s, i)) as nat)
    } else {
        None
    }
}

/// Finds the first account marked active.
pub fn position_of_active(accounts: &Vec<AccountSummary>) -> (r: Option<usize>)
    ensures
        r == (match first_active(accounts@) {
            Some(i) => Some(i as usize),
            None => None::<usize>,
        }),
        r matches Some(i) ==> i < accounts@.len(),
{
    let mut i: usize = 0;
    while i < accounts.len()
        invariant
            i <= accounts@.len(),
            forall|j: int| 0 <= j < i ==> !accounts@[j].is_active,
        decreases accounts@.len() - i,
    {
        if accounts[i].is_active {
            assert(is_first_active(accounts@, i as int));
            let ghost c = choose|k: int| is_first_active(accounts@, k);
            assert(c == i as int) by {
                if c < i as int {
                    assert(!accounts@[c].is_active);
                } else if c > i as int {
                    assert(!accounts@[i as int].is_active);
                }
            }
            return Some(i);
        }
        i = i + 1;
    }
    assert(!exists|k: int| is_first_active(accounts@, k));
    None
}

/// Sign-in state shared with sibling onboarding steps; only the values this
/// picker writes are modelled.
#[derive(Clone, Copy, Debug, PartialEq, Eq, Structural)]
pub enum SignInState {
    ChatGptSuccess,
    ApiKeyConfigured,
    PickMode,
}

/// The sign-in state that activating an account of `kind` leads to.
pub open spec fn sign_in_state_for(kind: AccountKind) -> SignInState {
    match kind {
        AccountKind::ChatGpt => SignInState::ChatGptSuccess,
        AccountKind::ApiKey => SignInState::ApiKeyConfigured,
    }
}

/// Executable form of [`sign_in_state_for`].
pub fn sign_in_state_after_activation(kind: AccountKind) -> (r: SignInState)
    ensures
        r == sign_in_state_for(kind),
{
    match kind {
        AccountKind::ChatGpt => SignInState::ChatGptSuccess,
        AccountKind::ApiKey => SignInState::ApiKeyConfigured,
    }
}

} // verus!
