use vstd::prelude::*;

use crate::vault::{VaultError, VaultWrite};

verus! {

/// Where the password of the office login is kept.
#[derive(Debug, Clone, PartialEq, Eq)]
pub enum PasswordStorage {
    /// In the OS secret store, under the account's email.
    System,
    /// In the configuration file, as plain text.
    Inline(String),
}

/// The office login: an email and where its password is kept.
#[derive(Debug, Clone, PartialEq, Eq)]
pub struct OfficeCredentials {
    pub email: String,
    pub password: PasswordStorage,
}

/// A login of the service itself. Read and written back, never used.
#[derive(Debug, Clone, PartialEq, Eq)]
pub struct SmCredentials {
    pub email: String,
    pub password: PasswordStorage,
}

/// A session of the service: the session token and its signature, always together.
#[derive(Debug, Clone, PartialEq, Eq)]
pub struct SmSession {
    pub session: String,
    pub session_sig: String,
}

/// The student whose data is asked for: the student's id and the class's id.
#[derive(Debug, Clone, Copy, PartialEq, Eq)]
pub struct SmStudent {
    pub id: u64,
    pub class_id: u64,
}

/// The stored record set: each kind of credential present or absent on its own.
#[derive(Debug, Clone, PartialEq, Eq)]
pub struct CredentialConfig {
    pub office: Option<OfficeCredentials>,
    pub sm_user: Option<SmCredentials>,
    pub sm_session: Option<SmSession>,
    pub jwt_token: Option<String>,
    pub student: Option<SmStudent>,
}

/// Why an update of the stored credentials could not be made.
#[derive(Debug, Clone, Copy, PartialEq, Eq, Structural)]
pub enum CredentialError {
    /// Keeping the password in the OS secret store was asked for, and the store
    /// did not take it.
    VaultStoreFailed(VaultError),
}

/// The password that an office record yields, given the secret store's answer
/// for its account, where the store was asked.
pub open spec fn password_of(office: OfficeCredentials, from_vault: Option<Result<String, VaultError>>) -> Result<String, VaultError> {
    match office.password {
        PasswordStorage::Inline(pw) => Ok(pw),
        PasswordStorage::System => match from_vault {
            Some(answer) => answer,
            None => Err(VaultError::Unavailable),
        },
    }
}

/// The record set with no credential at all.
pub open spec fn empty_config() -> CredentialConfig {
    CredentialConfig { office: None, sm_user: None, sm_session: None, jwt_token: None, student: None }
}

/// The record set to work with, and whether it has to be written back, given
/// what reading the stored one gave.
pub open spec fn loaded(stored: Option<CredentialConfig>) -> (CredentialConfig, bool) {
    match stored {
        Some(c) => (c, false),
        None => (empty_config(), true),
    }
}

/// The record set after an office login was set: replaced at once when its
/// password is kept inline, left as it is while the secret store has still to
/// take it.
pub open spec fn office_updated(c: CredentialConfig, email: String, password: String, plaintext: bool) -> CredentialConfig {
    if plaintext {
        CredentialConfig {
            office: Some(OfficeCredentials { email, password: PasswordStorage::Inline(password) }),
            ..c
        }
    } else {
        c
    }
}

/// The write that the secret store has to take for an office login: none when
/// the password is kept inline.
pub open spec fn office_vault_write(email: String, password: String, plaintext: bool) -> Option<VaultWrite> {
    if plaintext {
        None
    } else {
        Some(VaultWrite { account: email, password })
    }
}

/// The record set once the secret store answered the write for `account`:
/// the login recorded with the store's tag when the store took it, else unchanged.
pub open spec fn office_stored(c: CredentialConfig, account: String, stored: Result<(), VaultError>) -> CredentialConfig {
    if stored is Ok {
        CredentialConfig {
            office: Some(OfficeCredentials { email: account, password: PasswordStorage::System }),
            ..c
        }
    } else {
        c
    }
}

/// A password kept inline is recorded as given and nothing is written to the
/// secret store. A password to be kept in the secret store is handed to the
/// store under the email and never enters the record set: before the store
/// took it the record set is unchanged, after that it holds only the email and
/// the store's tag.
pub proof fn lemma_password_indirection(c: CredentialConfig, email: String, password: String)
    ensures
        office_vault_write(email, password, true) is None,
        office_updated(c, email, password, true).office
            == Some(OfficeCredentials { email, password: PasswordStorage::Inline(password) }),
        office_vault_write(email, password, false) == Some(VaultWrite { account: email, password }),
        office_updated(c, email, password, false) == c,
        office_stored(office_updated(c, email, password, false), email, Ok(())).office
            == Some(OfficeCredentials { email, password: PasswordStorage::System }),
{
}

/// With nothing stored, loading gives the empty record set and asks for it to
/// be written; loading that record set back gives it again, with nothing more
/// to write.
pub proof fn lemma_empty_load_is_stable()
    ensures
        loaded(None) == (empty_config(), true),
        loaded(Some(loaded(None).0)) == (empty_config(), false),
{
}

impl OfficeCredentials {
    /// An office login whose password is kept inline when given, and in the
    /// secret store when not.
    pub fn new(email: String, password: Option<String>) -> (r: Self)
        ensures
            r.email == email,
            password matches Some(pw) ==> r.password == PasswordStorage::Inline(pw),
            password is None ==> r.password == PasswordStorage::System,
    {
        OfficeCredentials {
            email,
            password: match password {
                None => PasswordStorage::System,
                Some(pw) => PasswordStorage::Inline(pw),
            },
        }
    }

    /// The account under which the secret store must be asked for the
    /// password; none when the password is kept inline.
    pub fn vault_account(&self) -> (r: Option<String>)
        ensures
            self.password is System ==> r == Some(self.email),
            self.password is Inline ==> r is None,
    {
        match &self.password {
            PasswordStorage::System => Some(self.email.clone()),
            PasswordStorage::Inline(_) => None,
        }
    }

    /// The password: the inline one, or what the secret store answered for
    /// `vault_account()`. Where the store was not asked it counts as unavailable.
    pub fn get_password(&self, from_vault: Option<Result<String, VaultError>>) -> (r: Result<String, VaultError>)
        ensures
            r == password_of(*self, from_vault),
    {
        match &self.password {
            PasswordStorage::System => match from_vault {
                Some(answer) => answer,
                None => Err(VaultError::Unavailable),
            },
            PasswordStorage::Inline(password) => Ok(password.clone()),
        }
    }
}

impl CredentialConfig {
    /// The record set with no credential at all, used when none is stored yet.
    pub fn empty_creds() -> (r: Self)
        ensures
            r == empty_config(),
    {
        CredentialConfig { office: None, sm_user: None, sm_session: None, jwt_token: None, student: None }
    }

    /// The record set to work with, given what reading the stored one gave:
    /// that one when it could be read, else the empty one. The flag says that
    /// the result has to be written back, which is so only for a new empty set.
    pub fn load(stored: Option<CredentialConfig>) -> (r: (CredentialConfig, bool))
        ensures
            r == loaded(stored),
    {
        match stored {
            Some(creds) => (creds, false),
            None => (CredentialConfig::empty_creds(), true),
        }
    }

    /// Sets the office login. With `store_in_plaintext` the password is kept
    /// inline and nothing is asked of the secret store. Otherwise the record set
    /// stays as it is and the write that the secret store has to take is
    /// returned; `finish_office_update` then records the login.
    pub fn update_office(&mut self, email: String, password: String, store_in_plaintext: bool) -> (r: Option<VaultWrite>)
        ensures
            *final(self) == office_updated(*old(self), email, password, store_in_plaintext),
            r == office_vault_write(email, password, store_in_plaintext),
    {
        if store_in_plaintext {
            self.office = Some(OfficeCredentials::new(email, Some(password)));
            None
        } else {
            Some(VaultWrite { account: email, password })
        }
    }

    /// Records the office login of `account` with its password in the secret
    /// store, once the store has answered the write. When the store refused it
    /// the record set stays as it is and the failure is returned.
    pub fn finish_office_update(&mut self, account: String, stored: Result<(), VaultError>) -> (r: Result<(), CredentialError>)
        ensures
            *final(self) == office_stored(*old(self), account, stored),
            stored is Ok ==> r is Ok,
            stored matches Err(e) ==> r == Err::<(), CredentialError>(CredentialError::VaultStoreFailed(e)),
    {
        match stored {
            Ok(()) => {
                self.office = Some(OfficeCredentials::new(account, None));
                Ok(())
            },
            Err(e) => Err(CredentialError::VaultStoreFailed(e)),
        }
    }

    /// Applies the credentials supplied for an update, each group only when
    /// all of its parts were supplied, and each replacing the stored group
    /// whole: the office login (email and password), the session (token and
    /// signature), the bearer token, the student (id and class id). Groups not
    /// supplied stay as they were. An office login whose password goes to the
    /// secret store is not recorded here: the write it needs is returned, as
    /// `update_office` does.
    pub fn apply_updates(
        &mut self,
        email: Option<String>,
        password: Option<String>,
        store_in_plaintext: bool,
        session: Option<String>,
        session_sig: Option<String>,
        jwt_token: Option<String>,
        student_id: Option<u64>,
        class_id: Option<u64>,
    ) -> (r: Option<VaultWrite>)
        ensures
            final(self).office == (match (email, password) {
                (Some(e), Some(p)) => office_updated(*old(self), e, p, store_in_plaintext).office,
                _ => old(self).office,
            }),
            r == (match (email, password) {
                (Some(e), Some(p)) => office_vault_write(e, p, store_in_plaintext),
                _ => None,
            }),
            final(self).sm_session == (match (session, session_sig) {
                (Some(s), Some(g)) => Some(SmSession { session: s, session_sig: g }),
                _ => old(self).sm_session,
            }),
            final(self).jwt_token == (if jwt_token is Some {
                jwt_token
            } else {
                old(self).jwt_token
            }),
            final(self).student == (match (student_id, class_id) {
                (Some(i), Some(c)) => Some(SmStudent { id: i, class_id: c }),
                _ => old(self).student,
            }),
            final(self).sm_user == old(self).sm_user,
    {
        let mut pending: Option<VaultWrite> = None;
        if let (Some(email), Some(password)) = (email, password) {
            pending = self.update_office(email, password, store_in_plaintext);
        }
        if let (Some(session), Some(session_sig)) = (session, session_sig) {
            self.update_session(session, session_sig);
        }
        if let Some(token) = jwt_token {
            self.update_jwt_token(token);
        }
        if let (Some(id), Some(class_id)) = (student_id, class_id) {
            self.update_student(id, class_id);
        }
        pending
    }

    /// Replaces the session with the given token and signature.
    pub fn update_session(&mut self, session: String, session_sig: String)
        ensures
            *final(self) == (CredentialConfig {
                sm_session: Some(SmSession { session, session_sig }),
                ..*old(self)
            }),
    {
        let session = SmSession { session, session_sig };
        self.sm_session = Some(session)
    }

    /// Replaces the bearer token.
    pub fn update_jwt_token(&mut self, token: String)
        ensures
            *final(self) == (CredentialConfig { jwt_token: Some(token), ..*old(self) }),
    {
        self.jwt_token = Some(token)
    }

    /// Replaces the student identity.
    pub fn update_student(&mut self, id: u64, class_id: u64)
        ensures
            *final(self) == (CredentialConfig { student: Some(SmStudent { id, class_id }), ..*old(self) }),
    {
        self.student = Some(SmStudent { id, class_id })
    }

    /// The stored office email and password. The password is the inline one,
    /// or what the secret store answered for the account; a failed or missing
    /// answer leaves it unset rather than failing.
    pub fn get_office_keys(&self, from_vault: Option<Result<String, VaultError>>) -> (r: (Option<String>, Option<String>))
        ensures
            self.office is None ==> r == (None::<String>, None::<String>),
            self.office matches Some(o) ==> r.0 == Some(o.email) && r.1 == (match password_of(o, from_vault) {
                Ok(pw) => Some(pw),
                Err(_) => None,
            }),
    {
        match &self.office {
            Some(office) => (Some(office.email.clone()), match office.get_password(from_vault) {
                Ok(password) => Some(password),
                Err(_) => None,
            }),
            None => (None, None),
        }
    }

    /// The stored session token and its signature, both or neither.
    pub fn get_session_keys(&self) -> (r: (Option<String>, Option<String>))
        ensures
            self.sm_session is None ==> r == (None::<String>, None::<String>),
            self.sm_session matches Some(s) ==> r == (Some(s.session), Some(s.session_sig)),
    {
        match &self.sm_session {
            Some(session) => (Some(session.session.clone()), Some(session.session_sig.clone())),
            None => (None, None),
        }
    }

    /// The stored bearer token.
    pub fn get_jwt_token(&self) -> (r: Option<String>)
        ensures
            r == self.jwt_token,
    {
        match &self.jwt_token {
            Some(token) => Some(token.clone()),
            None => None,
        }
    }

    /// The stored student id and class id, both or neither.
    pub fn get_student_keys(&self) -> (r: (Option<u64>, Option<u64>))
        ensures
            self.student is None ==> r == (None::<u64>, None::<u64>),
            self.student matches Some(s) ==> r == (Some(s.id), Some(s.class_id)),
    {
        match self.student {
            Some(student) => (Some(student.id), Some(student.class_id)),
            None => (None, None),
        }
    }
}

} // verus!
