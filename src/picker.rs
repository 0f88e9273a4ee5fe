use vstd::prelude::*;

use crate::account::{
    first_active, position_of_active, sign_in_state_after_activation, sign_in_state_for,
    AccountKind, AccountSummary, SignInState,
};

verus! {

/// The outcome the user committed to.
#[derive(Clone, Copy, Debug, PartialEq, Eq, Structural)]
pub enum AccountPickerSelection {
    Existing(AccountKind),
    AddNew,
}

/// Whether the onboarding step this picker drives is finished.
#[derive(Clone, Copy, Debug, PartialEq, Eq, Structural)]
pub enum StepState {
    InProgress,
    Complete,
}

/// A key press as the picker sees it.
#[derive(Clone, Copy, Debug, PartialEq, Eq, Structural)]
pub enum Key {
    Up,
    Down,
    Enter,
    Char(char),
    Other,
}

/// Writes to the shared onboarding cells that the caller is to perform;
/// `None` leaves a cell as it is.
#[derive(Clone, Copy, Debug, PartialEq, Eq, Structural)]
pub struct SharedUpdate {
    pub show_login_form: Option<bool>,
    pub sign_in_state: Option<SignInState>,
}

/// A request to the account directory that the caller is to perform and
/// whose result it hands back to the picker.
#[derive(Debug)]
pub enum DirectoryCall {
    /// Make the account with this id the active one; the result goes to
    /// [`AccountPickerWidget::on_activation`].
    Activate(String),
    /// List the accounts again; the result goes to
    /// [`AccountPickerWidget::on_refresh`].
    ListAccounts,
}

/// What a handled event asks of the caller: shared writes, then possibly a
/// directory call.
#[derive(Debug)]
pub struct CommitStep {
    pub update: SharedUpdate,
    pub call: Option<DirectoryCall>,
}

pub open spec fn no_update() -> SharedUpdate {
    SharedUpdate { show_login_form: None, sign_in_state: None }
}

/// A step that asks nothing of the caller.
fn quiet_step() -> (r: CommitStep)
    ensures
        r.update == no_update(),
        r.call is None,
{
    CommitStep { update: SharedUpdate { show_login_form: None, sign_in_state: None }, call: None }
}

/// The effective highlight for a stored index `h` over `n` accounts: the
/// entries are the `n` accounts and one trailing "add new" entry.
pub open spec fn clamp_highlight(h: nat, n: nat) -> nat {
    if h <= n {
        h
    } else {
        n
    }
}

/// The stored index after moving down once, wrapping to the first entry.
pub open spec fn next_highlight(h: nat, n: nat) -> nat {
    ((clamp_highlight(h, n) + 1) % (n + 1)) as nat
}

/// The stored index after moving up once, wrapping to the last entry.
pub open spec fn prev_highlight(h: nat, n: nat) -> nat {
    if clamp_highlight(h, n) == 0 {
        n
    } else {
        (clamp_highlight(h, n) - 1) as nat
    }
}

/// The highlight a fresh list starts on: its active account, else the first entry.
pub open spec fn initial_highlight(s: Seq<AccountSummary>) -> nat {
    match first_active(s) {
        Some(i) => i,
        None => 0,
    }
}

pub open spec fn step_state_of(selection: Option<AccountPickerSelection>) -> StepState {
    if selection is Some {
        StepState::Complete
    } else {
        StepState::InProgress
    }
}

/// What committing the highlighted entry does, from state `before` to
/// state `after` with request `r`: on an account, nothing yet but a request
/// to activate it; on the "add new" entry, the choice `AddNew`, the login
/// form opened and the sign-in state set to pick mode.
pub open spec fn commits_highlighted(
    before: AccountPickerWidget,
    after: AccountPickerWidget,
    r: CommitStep,
) -> bool {
    let n = before.accounts_spec().len();
    let cur = before.effective_highlight();
    &&& after.accounts_spec() == before.accounts_spec()
    &&& cur < n ==> {
        &&& after.highlighted_spec() == before.highlighted_spec()
        &&& after.selection_spec() == before.selection_spec()
        &&& after.error_spec() == before.error_spec()
        &&& r.update == no_update()
        &&& r.call == Some(DirectoryCall::Activate(before.accounts_spec()[cur as int].id))
    }
    &&& cur == n ==> {
        &&& after.highlighted_spec() == n
        &&& after.selection_spec() == Some(AccountPickerSelection::AddNew)
        &&& after.error_spec() is None
        &&& after.step_state() == StepState::Complete
        &&& r.update.show_login_form == Some(true)
        &&& r.update.sign_in_state == Some(SignInState::PickMode)
        &&& r.call is None
    }
}

/// Selection state of the account picker: the listed accounts, a stored
/// highlight that is clamped whenever it is read, the committed choice and
/// the last directory error.
pub struct AccountPickerWidget {
    accounts: Vec<AccountSummary>,
    highlighted: usize,
    selection: Option<AccountPickerSelection>,
    error: Option<String>,
}

impl AccountPickerWidget {
    pub closed spec fn accounts_spec(&self) -> Seq<AccountSummary> {
        self.accounts@
    }

    pub closed spec fn highlighted_spec(&self) -> nat {
        self.highlighted as nat
    }

    pub closed spec fn selection_spec(&self) -> Option<AccountPickerSelection> {
        self.selection
    }

    pub closed spec fn error_spec(&self) -> Option<String> {
        self.error
    }

    /// The entry count fits in `usize`.
    pub open spec fn wf(&self) -> bool {
        self.accounts_spec().len() < usize::MAX
    }

    pub open spec fn entry_count(&self) -> nat {
        self.accounts_spec().len() + 1
    }

    pub open spec fn effective_highlight(&self) -> nat {
        clamp_highlight(self.highlighted_spec(), self.accounts_spec().len())
    }

    pub open spec fn step_state(&self) -> StepState {
        step_state_of(self.selection_spec())
    }

    /// Builds the picker from the directory's first listing. A failed listing
    /// leaves no accounts and records its message; with no accounts the
    /// caller is told to open the login form.
    pub fn new(listing: Result<Vec<AccountSummary>, String>) -> (r: (
        AccountPickerWidget,
        SharedUpdate,
    ))
        requires
            listing matches Ok(v) ==> v@.len() < usize::MAX,
        ensures
            r.0.wf(),
            match listing {
                Ok(v) => r.0.accounts_spec() == v@ && r.0.error_spec() is None,
                Err(e) => r.0.accounts_spec() == Seq::<AccountSummary>::empty() && r.0.error_spec()
                    == Some(e),
            },
            r.0.highlighted_spec() == initial_highlight(r.0.accounts_spec()),
            r.0.selection_spec() is None,
            r.0.step_state() == StepState::InProgress,
            r.1.show_login_form == (if r.0.accounts_spec().len() == 0 {
                Some(true)
            } else {
                None
            }),
            r.1.sign_in_state is None,
    {
        let (accounts, error) = match listing {
            Ok(accounts) => (accounts, None),
            Err(err) => (Vec::new(), Some(err)),
        };
        let highlighted = match position_of_active(&accounts) {
            Some(i) => i,
            None => 0,
        };
        let update = if accounts.len() == 0 {
            SharedUpdate { show_login_form: Some(true), sign_in_state: None }
        } else {
            SharedUpdate { show_login_form: None, sign_in_state: None }
        };
        (AccountPickerWidget { accounts, highlighted, selection: None, error }, update)
    }

    pub fn accounts(&self) -> (r: &Vec<AccountSummary>)
        ensures
            r@ == self.accounts_spec(),
    {
        &self.accounts
    }

    pub fn selection(&self) -> (r: Option<AccountPickerSelection>)
        ensures
            r == self.selection_spec(),
    {
        self.selection
    }

    /// The message of the last failed directory call, if it has not been
    /// cleared since.
    pub fn error(&self) -> (r: &Option<String>)
        ensures
            *r == self.error_spec(),
    {
        &self.error
    }

    /// Number of entries: every account plus the "add new" entry.
    pub fn total_entries(&self) -> (r: usize)
        requires
            self.wf(),
        ensures
            r == self.accounts_spec().len() + 1,
            r == self.entry_count(),
    {
        self.accounts.len() + 1
    }

    /// The stored highlight clamped to the last entry.
    pub fn current_highlight(&self) -> (r: usize)
        requires
            self.wf(),
        ensures
            r == self.effective_highlight(),
            r == vstd::math::min(self.highlighted_spec() as int, self.accounts_spec().len() as int),
            r <= self.accounts_spec().len(),
    {
        let last = self.total_entries() - 1;
        if self.highlighted < last {
            self.highlighted
        } else {
            last
        }
    }

    /// Moves the highlight down one entry, from the last back to the first.
    pub fn highlight_next(&mut self)
        requires
            old(self).wf(),
        ensures
            final(self).accounts_spec() == old(self).accounts_spec(),
            final(self).selection_spec() == old(self).selection_spec(),
            final(self).error_spec() == old(self).error_spec(),
            final(self).highlighted_spec() == next_highlight(
                old(self).highlighted_spec(),
                old(self).accounts_spec().len(),
            ),
    {
        let total = self.total_entries();
        self.highlighted = (self.current_highlight() + 1) % total;
    }

    /// Moves the highlight up one entry, from the first back to the last.
    pub fn highlight_prev(&mut self)
        requires
            old(self).wf(),
        ensures
            final(self).accounts_spec() == old(self).accounts_spec(),
            final(self).selection_spec() == old(self).selection_spec(),
            final(self).error_spec() == old(self).error_spec(),
            final(self).highlighted_spec() == prev_highlight(
                old(self).highlighted_spec(),
                old(self).accounts_spec().len(),
            ),
    {
        let total = self.total_entries();
        let current = self.current_highlight();
        self.highlighted = if current == 0 {
            total - 1
        } else {
            current - 1
        };
    }

    /// Commits the highlighted entry. On an account nothing changes yet: the
    /// caller is asked to activate it and to hand the result to
    /// [`Self::on_activation`]. On the "add new" entry the choice is made at
    /// once and the caller is told to open the login form in pick mode.
    pub fn select_current(&mut self) -> (r: CommitStep)
        requires
            old(self).wf(),
        ensures
            final(self).wf(),
            commits_highlighted(*old(self), *final(self), r),
    {
        let current = self.current_highlight();
        if current < self.accounts.len() {
            let id = self.accounts[current].id.clone();
            CommitStep {
                update: SharedUpdate { show_login_form: None, sign_in_state: None },
                call: Some(DirectoryCall::Activate(id)),
            }
        } else {
            self.error = None;
            self.selection = Some(AccountPickerSelection::AddNew);
            self.highlighted = self.accounts.len();
            CommitStep {
                update: SharedUpdate {
                    show_login_form: Some(true),
                    sign_in_state: Some(SignInState::PickMode),
                },
                call: None,
            }
        }
    }

    /// Takes the result of activating the highlighted account. Success
    /// commits that account: the login form closes, the sign-in state follows
    /// the account's kind, and the caller is asked to list the accounts again
    /// for [`Self::on_refresh`]. Failure records the message and changes
    /// nothing else.
    pub fn on_activation(&mut self, result: Result<(), String>) -> (r: CommitStep)
        requires
            old(self).wf(),
            old(self).effective_highlight() < old(self).accounts_spec().len(),
        ensures
            final(self).wf(),
            final(self).accounts_spec() == old(self).accounts_spec(),
            final(self).highlighted_spec() == old(self).highlighted_spec(),
            ({
                let kind = old(self).accounts_spec()[old(self).effective_highlight() as int].kind;
                match result {
                    Ok(_) => {
                        &&& final(self).selection_spec() == Some(
                            AccountPickerSelection::Existing(kind),
                        )
                        &&& final(self).error_spec() is None
                        &&& final(self).step_state() == StepState::Complete
                        &&& r.update.show_login_form == Some(false)
                        &&& r.update.sign_in_state == Some(sign_in_state_for(kind))
                        &&& r.call == Some(DirectoryCall::ListAccounts)
                    },
                    Err(e) => {
                        &&& final(self).selection_spec() == old(self).selection_spec()
                        &&& final(self).error_spec() == Some(e)
                        &&& final(self).step_state() == old(self).step_state()
                        &&& r.update == no_update()
                        &&& r.call is None
                    },
                }
            }),
    {
        let current = self.current_highlight();
        let kind = self.accounts[current].kind;
        match result {
            Ok(()) => {
                self.error = None;
                self.selection = Some(AccountPickerSelection::Existing(kind));
                CommitStep {
                    update: SharedUpdate {
                        show_login_form: Some(false),
                        sign_in_state: Some(sign_in_state_after_activation(kind)),
                    },
                    call: Some(DirectoryCall::ListAccounts),
                }
            },
            Err(err) => {
                self.error = Some(err);
                quiet_step()
            },
        }
    }

    /// Takes the listing made after a successful activation. A new list
    /// replaces the old one and the highlight moves to its active account,
    /// else stays on the current entry as clamped to the new list. A failed
    /// listing only records its message: the committed choice stands.
    pub fn on_refresh(&mut self, listing: Result<Vec<AccountSummary>, String>)
        requires
            old(self).wf(),
            listing matches Ok(v) ==> v@.len() < usize::MAX,
        ensures
            final(self).wf(),
            final(self).selection_spec() == old(self).selection_spec(),
            match listing {
                Ok(v) => {
                    &&& final(self).accounts_spec() == v@
                    &&& final(self).error_spec() == old(self).error_spec()
                    &&& final(self).highlighted_spec() == match first_active(v@) {
                        Some(i) => i,
                        None => clamp_highlight(old(self).highlighted_spec(), v@.len()),
                    }
                },
                Err(e) => {
                    &&& final(self).accounts_spec() == old(self).accounts_spec()
                    &&& final(self).highlighted_spec() == old(self).highlighted_spec()
                    &&& final(self).error_spec() == Some(e)
                },
            },
    {
        match listing {
            Ok(updated) => {
                self.accounts = updated;
                self.highlighted = match position_of_active(&self.accounts) {
                    Some(i) => i,
                    None => self.current_highlight(),
                };
            },
            Err(err) => {
                self.error = Some(err);
            },
        }
    }

    /// Up or `k` moves the highlight up, Down or `j` moves it down, Enter
    /// commits the highlighted entry; other keys change nothing.
    pub fn handle_key_event(&mut self, key: Key) -> (r: CommitStep)
        requires
            old(self).wf(),
        ensures
            final(self).wf(),
            final(self).accounts_spec() == old(self).accounts_spec(),
            (key == Key::Up || key == Key::Char('k')) ==> {
                &&& final(self).highlighted_spec() == prev_highlight(
                    old(self).highlighted_spec(),
                    old(self).accounts_spec().len(),
                )
                &&& final(self).selection_spec() == old(self).selection_spec()
                &&& final(self).error_spec() == old(self).error_spec()
                &&& r.update == no_update()
                &&& r.call is None
            },
            (key == Key::Down || key == Key::Char('j')) ==> {
                &&& final(self).highlighted_spec() == next_highlight(
                    old(self).highlighted_spec(),
                    old(self).accounts_spec().len(),
                )
                &&& final(self).selection_spec() == old(self).selection_spec()
                &&& final(self).error_spec() == old(self).error_spec()
                &&& r.update == no_update()
                &&& r.call is None
            },
            key == Key::Enter ==> commits_highlighted(*old(self), *final(self), r),
            !(key == Key::Up || key == Key::Char('k') || key == Key::Down || key == Key::Char('j')
                || key == Key::Enter) ==> {
                &&& final(self).highlighted_spec() == old(self).highlighted_spec()
                &&& final(self).selection_spec() == old(self).selection_spec()
                &&& final(self).error_spec() == old(self).error_spec()
                &&& r.update == no_update()
                &&& r.call is None
            },
    {
        match key {
            Key::Up | Key::Char('k') => {
                self.highlight_prev();
                quiet_step()
            },
            Key::Down | Key::Char('j') => {
                self.highlight_next();
                quiet_step()
            },
            Key::Enter => self.select_current(),
            _ => quiet_step(),
        }
    }

    /// Complete once a choice has been committed.
    pub fn get_step_state(&self) -> (r: StepState)
        ensures
            r == self.step_state(),
    {
        if self.selection.is_some() {
            StepState::Complete
        } else {
            StepState::InProgress
        }
    }
}

} // verus!
