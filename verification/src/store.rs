//! The credential store: the session token and the selected-organization
//! id, persisted as two files (`auth_token` and `organization_id_selected`)
//! under the tool's configuration root.
//!
//! The store works on an image of those two files. The host reads the
//! files into a `CredentialStore` value when a command starts and writes
//! the slots back out when a command ends; every decision about what the
//! files hold, and which error a missing or unreadable one causes, is
//! made — and verified — here.

use crate::errors::{CoreError, ErrorView};
use crate::text::{trim_spec, trimmed};
use vstd::prelude::*;

verus! {

/// What one backing state file holds, as the host observed it.
#[derive(Clone, Debug)]
pub enum FileSlot {
    /// The file does not exist.
    Missing,
    /// The file exists; this is its raw text.
    Contents(String),
    /// The file exists but reading it failed.
    Unreadable,
}

/// The mathematical value of a `FileSlot`.
pub enum SlotView {
    Missing,
    Contents(Seq<char>),
    Unreadable,
}

impl View for FileSlot {
    type V = SlotView;

    open spec fn view(&self) -> SlotView {
        match self {
            FileSlot::Missing => SlotView::Missing,
            FileSlot::Contents(s) => SlotView::Contents(s@),
            FileSlot::Unreadable => SlotView::Unreadable,
        }
    }
}

/// A session token obtained from a completed sign-in. A credential's
/// token is never empty — not even after trimming — so a stored one
/// always loads back non-empty; absence of a credential is expressed by
/// absence of the file.
#[derive(Clone, Debug)]
pub struct Credential {
    pub token: String,
}

impl Credential {
    /// The one invariant of a credential: its token holds something
    /// besides whitespace.
    pub open spec fn wf(self) -> bool {
        trim_spec(self.token@).len() > 0
    }

    pub fn new(token: String) -> (c: Credential)
        requires
            trim_spec(token@).len() > 0,
        ensures
            c.token == token,
            c.wf(),
    {
        Credential { token }
    }
}

/// The local persisted state: whether the configuration root could be
/// resolved, and the two state files under it.
#[derive(Clone, Debug)]
pub struct CredentialStore {
    pub has_root: bool,
    pub auth_token: FileSlot,
    pub organization_id_selected: FileSlot,
}

/// The mathematical value of a `CredentialStore`.
pub struct StoreView {
    pub has_root: bool,
    pub auth_token: SlotView,
    pub organization_id_selected: SlotView,
}

impl View for CredentialStore {
    type V = StoreView;

    open spec fn view(&self) -> StoreView {
        StoreView {
            has_root: self.has_root,
            auth_token: self.auth_token@,
            organization_id_selected: self.organization_id_selected@,
        }
    }
}

impl StoreView {
    /// The store after a successful write of `token`.
    pub open spec fn saved_auth_token(self, token: Seq<char>) -> StoreView {
        StoreView { auth_token: SlotView::Contents(token), ..self }
    }

    /// The store after a successful write of the selected organization id.
    pub open spec fn saved_organization_id(self, id: Seq<char>) -> StoreView {
        StoreView { organization_id_selected: SlotView::Contents(id), ..self }
    }

    /// The token a load would yield: the stored text, trimmed.
    pub open spec fn loaded_auth_token(self) -> Option<Seq<char>> {
        match self.auth_token {
            SlotView::Contents(t) => Some(trim_spec(t)),
            _ => None,
        }
    }

    /// The organization id a load would yield: the stored text, trimmed.
    pub open spec fn loaded_organization_id(self) -> Option<Seq<char>> {
        match self.organization_id_selected {
            SlotView::Contents(id) => Some(trim_spec(id)),
            _ => None,
        }
    }
}

impl CredentialStore {
    /// A store over a configuration root that holds neither file yet, or
    /// over no root at all.
    pub fn new(has_root: bool) -> (s: CredentialStore)
        ensures
            s@ == (StoreView {
                has_root,
                auth_token: SlotView::Missing,
                organization_id_selected: SlotView::Missing,
            }),
    {
        CredentialStore {
            has_root,
            auth_token: FileSlot::Missing,
            organization_id_selected: FileSlot::Missing,
        }
    }

    /// Write the credential's token. Fails — leaving everything as it was —
    /// exactly when the configuration root cannot be resolved.
    pub fn save_auth_token(&mut self, credential: &Credential) -> (r: Result<(), CoreError>)
        requires
            credential.wf(),
        ensures
            old(self)@.has_root ==> r is Ok
                && final(self)@ == old(self)@.saved_auth_token(credential.token@),
            !old(self)@.has_root ==> (r matches Err(e) && e@ == ErrorView::StorageError)
                && final(self)@ == old(self)@,
    {
        if self.has_root {
            self.auth_token = FileSlot::Contents(credential.token.clone());
            Ok(())
        } else {
            Err(CoreError::StorageError)
        }
    }

    /// Read the token back, trimmed. Absence of the file means "not
    /// authenticated"; any other read failure is a storage error.
    pub fn load_auth_token(&self) -> (r: Result<String, CoreError>)
        ensures
            match self@.auth_token {
                SlotView::Contents(t) => r matches Ok(s) && s@ == trim_spec(t),
                SlotView::Missing => r matches Err(e) && e@ == ErrorView::NotAuthenticated,
                SlotView::Unreadable => r matches Err(e) && e@ == ErrorView::StorageError,
            },
            r matches Ok(s) ==> self@.loaded_auth_token() == Some(s@),
    {
        match &self.auth_token {
            FileSlot::Contents(text) => Ok(trimmed(text.as_str())),
            FileSlot::Missing => Err(CoreError::NotAuthenticated),
            FileSlot::Unreadable => Err(CoreError::StorageError),
        }
    }

    /// Write the selected organization id. Fails — leaving everything as it
    /// was — exactly when the configuration root cannot be resolved.
    pub fn save_selected_organization_id(&mut self, id: &str) -> (r: Result<(), CoreError>)
        ensures
            old(self)@.has_root ==> r is Ok
                && final(self)@ == old(self)@.saved_organization_id(id@),
            !old(self)@.has_root ==> (r matches Err(e) && e@ == ErrorView::StorageError)
                && final(self)@ == old(self)@,
    {
        if self.has_root {
            self.organization_id_selected = FileSlot::Contents(id.to_owned());
            Ok(())
        } else {
            Err(CoreError::StorageError)
        }
    }

    /// Read the selected organization id back, trimmed. Absence of the
    /// file means "no organization selected"; any other read failure is a
    /// storage error.
    pub fn load_selected_organization_id(&self) -> (r: Result<String, CoreError>)
        ensures
            match self@.organization_id_selected {
                SlotView::Contents(id) => r matches Ok(s) && s@ == trim_spec(id),
                SlotView::Missing => r matches Err(e) && e@ == ErrorView::NoOrganizationSelected,
                SlotView::Unreadable => r matches Err(e) && e@ == ErrorView::StorageError,
            },
            r matches Ok(s) ==> self@.loaded_organization_id() == Some(s@),
    {
        match &self.organization_id_selected {
            FileSlot::Contents(text) => Ok(trimmed(text.as_str())),
            FileSlot::Missing => Err(CoreError::NoOrganizationSelected),
            FileSlot::Unreadable => Err(CoreError::StorageError),
        }
    }
}

/// Law: saving a credential and then loading the token yields that token,
/// trimmed — for every store with a configuration root and every token,
/// whitespace-wrapped ones included.
pub proof fn lemma_save_load_round_trip(s: StoreView, token: Seq<char>)
    ensures
        s.saved_auth_token(token).loaded_auth_token() == Some(trim_spec(token)),
{
}

/// Law: a credential present in the store is never empty. Every write
/// goes through `save_auth_token`, which demands a token that trims to
/// something, so what a load yields is non-empty.
pub proof fn lemma_loaded_token_non_empty(s: StoreView, credential: Credential)
    requires
        credential.wf(),
    ensures
        s.saved_auth_token(credential.token@).loaded_auth_token() matches Some(t) && t.len() > 0,
{
}

/// Law: saving the same organization id twice leaves the store exactly as
/// one save does, and a load then yields that id, trimmed.
pub proof fn lemma_save_organization_idempotent(s: StoreView, id: Seq<char>)
    ensures
        s.saved_organization_id(id).saved_organization_id(id) == s.saved_organization_id(id),
        s.saved_organization_id(id).loaded_organization_id() == Some(trim_spec(id)),
{
}

} // verus!
