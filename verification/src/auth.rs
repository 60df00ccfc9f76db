//! Sign-in.
//!
//! `AuthSession` is the interactive two-step protocol: a secret key is
//! exchanged for a token and a list of organizations, the operator picks
//! one by 1-based index, and the chosen organization is confirmed against
//! the service, which may rotate the token. Only the terminal state
//! persists anything, and it persists exactly one token write and one
//! organization-id write; a failure at any step leaves the store
//! untouched, because nothing but `finalize` takes the store at all.
//!
//! `Signin` is the single-step variant, where the sign-in response itself
//! carries the token and a default organization id.

use crate::errors::{CoreError, ErrorView};
use crate::organization::Organization;
use crate::store::{Credential, CredentialStore};
use crate::text::{trim_spec, trimmed};
use vstd::prelude::*;

verus! {

/// A decimal digit.
pub open spec fn is_digit(c: char) -> bool {
    48 <= c as u32 <= 57
}

/// Every character of `s` is a decimal digit.
pub open spec fn all_digits(s: Seq<char>) -> bool {
    forall|i: int| 0 <= i < s.len() ==> is_digit(s[i])
}

/// The value of `s` read as a decimal numeral.
pub open spec fn dec_val(s: Seq<char>) -> int
    decreases s.len(),
{
    if s.len() == 0 {
        0
    } else {
        dec_val(s.drop_last()) * 10 + (s.last() as u32 - 48)
    }
}

proof fn lemma_dec_val_nonneg(s: Seq<char>)
    requires
        all_digits(s),
    ensures
        dec_val(s) >= 0,
    decreases s.len(),
{
    if s.len() > 0 {
        assert(all_digits(s.drop_last()));
        lemma_dec_val_nonneg(s.drop_last());
        assert(is_digit(s.last()));
    }
}

/// A numeral's value never shrinks as more digits follow.
proof fn lemma_dec_val_prefix_le(s: Seq<char>, i: int)
    requires
        0 <= i <= s.len(),
        all_digits(s),
    ensures
        dec_val(s.subrange(0, i)) <= dec_val(s),
    decreases s.len() - i,
{
    if i == s.len() {
        assert(s.subrange(0, i) =~= s);
    } else {
        let shorter = s.subrange(0, i);
        let longer = s.subrange(0, i + 1);
        assert(longer.drop_last() =~= shorter);
        assert(longer.last() == s[i]);
        assert(all_digits(shorter));
        lemma_dec_val_nonneg(shorter);
        assert(is_digit(s[i]));
        assert(dec_val(longer) == dec_val(shorter) * 10 + (s[i] as u32 - 48));
        assert(dec_val(shorter) * 10 >= dec_val(shorter));
        lemma_dec_val_prefix_le(s, i + 1);
    }
}

/// The operator's choice as read from raw input: the trimmed input as a
/// decimal index, with anything unparsable — empty, non-digits, or a value
/// past `usize` — read as 0, which the validation then rejects.
pub open spec fn choice_value(input: Seq<char>) -> int {
    let t = trim_spec(input);
    if t.len() > 0 && all_digits(t) && dec_val(t) <= usize::MAX {
        dec_val(t)
    } else {
        0
    }
}

/// Read the operator's organization choice from a raw input line.
pub fn parse_choice(input: &str) -> (n: usize)
    ensures
        n == choice_value(input@),
{
    let t = trimmed(input);
    let s = t.as_str();
    let len = s.unicode_len();
    if len == 0 {
        return 0;
    }
    let mut i: usize = 0;
    let mut acc: usize = 0;
    while i < len
        invariant
            i <= len,
            len == s@.len(),
            s@ == trim_spec(input@),
            forall|k: int| 0 <= k < i ==> is_digit(s@[k]),
            acc == dec_val(s@.subrange(0, i as int)),
        decreases len - i,
    {
        let c = s.get_char(i);
        let cv = c as u32;
        if cv < 48 || cv > 57 {
            proof {
                assert(!is_digit(s@[i as int]));
            }
            return 0;
        }
        let d = (cv - 48) as usize;
        let ghost prefix = s@.subrange(0, i as int);
        let ghost next_prefix = s@.subrange(0, i + 1);
        proof {
            assert(next_prefix.drop_last() =~= prefix);
            assert(next_prefix.last() == s@[i as int]);
            assert(dec_val(next_prefix) == dec_val(prefix) * 10 + d);
        }
        if acc > (usize::MAX - d) / 10 {
            proof {
                let y = (usize::MAX - d) as int;
                vstd::arithmetic::div_mod::lemma_fundamental_div_mod(y, 10);
                assert(y % 10 < 10) by {
                    vstd::arithmetic::div_mod::lemma_mod_bound(y, 10);
                }
                assert(acc * 10 >= (y / 10) * 10 + 10);
                assert(dec_val(next_prefix) > usize::MAX);
                if all_digits(s@) {
                    lemma_dec_val_prefix_le(s@, i + 1);
                    assert(dec_val(s@) > usize::MAX);
                }
            }
            return 0;
        }
        acc = acc * 10 + d;
        i = i + 1;
    }
    proof {
        assert(s@.subrange(0, len as int) =~= s@);
        assert(all_digits(s@));
    }
    acc
}

/// Where an interactive sign-in stands.
#[derive(Clone, Debug)]
pub enum AuthState {
    /// Nothing has happened yet.
    Unauthenticated,
    /// The key exchange succeeded: the session holds the token it returned
    /// and the organizations the service listed, in the service's order.
    AwaitingOrganizationChoice { token: String, organizations: Vec<Organization> },
    /// The operator picked a valid index; the chosen organization id is
    /// waiting to be confirmed against the service.
    ConfirmingSelection { token: String, organization_id: String },
    /// The confirmation call answered with the final token. This is the
    /// one state that persists anything.
    Authenticated { token: String, organization_id: String },
}

/// The interactive sign-in session.
#[derive(Clone, Debug)]
pub struct AuthSession {
    pub state: AuthState,
}

impl AuthSession {
    /// Tokens held by a live session are never empty, not even after
    /// trimming: what the terminal state persists always loads back as a
    /// non-empty token.
    pub open spec fn wf(self) -> bool {
        match self.state {
            AuthState::Unauthenticated => true,
            AuthState::AwaitingOrganizationChoice { token, .. } => trim_spec(token@).len() > 0,
            AuthState::ConfirmingSelection { token, .. } => trim_spec(token@).len() > 0,
            AuthState::Authenticated { token, .. } => trim_spec(token@).len() > 0,
        }
    }

    pub fn new() -> (s: AuthSession)
        ensures
            s.state is Unauthenticated,
            s.wf(),
    {
        AuthSession { state: AuthState::Unauthenticated }
    }

    /// The key exchange and the organization listing both succeeded. A
    /// failed exchange, or one whose token is empty or all whitespace,
    /// never reaches the session: the host reports it and the session
    /// stays unauthenticated.
    pub fn begin(&mut self, token: String, organizations: Vec<Organization>)
        requires
            old(self).state is Unauthenticated,
            trim_spec(token@).len() > 0,
        ensures
            final(self).state matches AuthState::AwaitingOrganizationChoice {
                token: t,
                organizations: o,
            } && t == token && o == organizations,
            final(self).wf(),
    {
        self.state = AuthState::AwaitingOrganizationChoice { token, organizations };
    }

    /// The operator's 1-based choice among the listed organizations. An
    /// index of 0 or past the end is `InvalidChoice` and leaves the
    /// session exactly where it was, so the caller may retry any number
    /// of times; a valid index moves to confirmation of the organization
    /// at that position.
    pub fn choose_organization(&mut self, choice: usize) -> (r: Result<(), CoreError>)
        requires
            old(self).state is AwaitingOrganizationChoice,
            old(self).wf(),
        ensures
            final(self).wf(),
            match old(self).state {
                AuthState::AwaitingOrganizationChoice { token, organizations } => {
                    &&& ((choice == 0 || choice > organizations@.len()) <==> (r matches Err(e)
                        && e@ == ErrorView::InvalidChoice))
                    &&& ((choice == 0 || choice > organizations@.len())
                        ==> *final(self) == *old(self))
                    &&& (1 <= choice <= organizations@.len()) ==> r is Ok
                        && (final(self).state matches AuthState::ConfirmingSelection {
                            token: t,
                            organization_id: oid,
                        } && t@ == token@ && oid@ == organizations@[choice - 1].id@)
                },
                _ => false,
            },
    {
        match &self.state {
            AuthState::AwaitingOrganizationChoice { token, organizations } => {
                if choice == 0 || choice > organizations.len() {
                    return Err(CoreError::InvalidChoice);
                }
                let t = token.clone();
                let oid = organizations[choice - 1].id.clone();
                self.state = AuthState::ConfirmingSelection { token: t, organization_id: oid };
                Ok(())
            },
            _ => unreached(),
        }
    }

    /// The confirmation call succeeded; the service may have rotated the
    /// token, and `new_token` — what it answered — is what will be
    /// persisted. A failed confirmation never reaches this call.
    pub fn confirm(&mut self, new_token: String)
        requires
            old(self).state is ConfirmingSelection,
            trim_spec(new_token@).len() > 0,
        ensures
            final(self).wf(),
            match old(self).state {
                AuthState::ConfirmingSelection { token, organization_id } => final(self)
                    .state matches AuthState::Authenticated {
                    token: t,
                    organization_id: oid,
                } && t == new_token && oid@ == organization_id@,
                _ => false,
            },
    {
        match &self.state {
            AuthState::ConfirmingSelection { organization_id, .. } => {
                let oid = organization_id.clone();
                self.state = AuthState::Authenticated { token: new_token, organization_id: oid };
            },
            _ => unreached(),
        }
    }

    /// The terminal state's one side effect: exactly one token write and
    /// one organization-id write. With no configuration root, neither file
    /// is written and the store is exactly as it was — there is no partial
    /// persistence.
    pub fn finalize(&self, store: &mut CredentialStore) -> (r: Result<(), CoreError>)
        requires
            self.state is Authenticated,
            self.wf(),
        ensures
            match self.state {
                AuthState::Authenticated { token, organization_id } => {
                    &&& old(store)@.has_root ==> r is Ok && final(store)@
                        == old(store)@.saved_auth_token(token@).saved_organization_id(
                        organization_id@)
                    &&& !old(store)@.has_root ==> (r matches Err(e) && e@
                        == ErrorView::StorageError) && final(store)@ == old(store)@
                },
                _ => false,
            },
    {
        match &self.state {
            AuthState::Authenticated { token, organization_id } => {
                let credential = Credential::new(token.clone());
                match store.save_auth_token(&credential) {
                    Ok(_) => {},
                    Err(e) => {
                        return Err(e);
                    },
                }
                store.save_selected_organization_id(organization_id.as_str())
            },
            _ => unreached(),
        }
    }
}

/// The single-step sign-in command: one call exchanges the secret key for
/// a token together with a default organization id; there is no
/// interactive step and no token rotation.
#[derive(Clone, Debug)]
pub struct Signin {
    pub secret_key: String,
}

impl Signin {
    pub fn new(secret_key: String) -> (s: Signin)
        ensures
            s.secret_key == secret_key,
    {
        Signin { secret_key }
    }

    /// A successful sign-in response: persist the returned organization id
    /// and token. A failed response, or one whose token trims to nothing,
    /// never reaches this call, so nothing is persisted for it.
    pub fn complete(&self, store: &mut CredentialStore, token: &str, organization_id: &str) -> (r:
        Result<(), CoreError>)
        requires
            trim_spec(token@).len() > 0,
        ensures
            old(store)@.has_root ==> r is Ok && final(store)@ == old(store)@.saved_auth_token(
                token@,
            ).saved_organization_id(organization_id@),
            !old(store)@.has_root ==> (r matches Err(e) && e@ == ErrorView::StorageError)
                && final(store)@ == old(store)@,
    {
        let credential = Credential::new(token.to_owned());
        match store.save_auth_token(&credential) {
            Ok(_) => {},
            Err(e) => {
                return Err(e);
            },
        }
        store.save_selected_organization_id(organization_id)
    }
}

} // verus!
