//! A [`SecretStore`] that keeps its secrets in memory.
//!
//! It never touches the credential store of the platform, and can stand for an
//! unavailable or failing one.

use vstd::prelude::*;

use super::{normalize_secret, provider_account, SecretStore, SecretStoreError, StoreModel};
use crate::keyed_map::KeyedMap;
use crate::text::decimal_text;

verus! {

/// Secrets in memory.
pub struct MemorySecretStore {
    entries: KeyedMap<String, String>,
    backend_available: bool,
    fail_backend: bool,
    fail_after_writes: Option<usize>,
}

/// The contents of a [`MemorySecretStore`].
#[verifier::ext_equal]
pub struct MemoryView {
    pub entries: Map<Seq<char>, Seq<char>>,
    pub backend_available: bool,
    pub fail_backend: bool,
    /// A single write failure is armed: the number of writes before it.
    pub fail_after_writes: Option<usize>,
}

impl View for MemorySecretStore {
    type V = MemoryView;

    closed spec fn view(&self) -> MemoryView {
        MemoryView {
            entries: self.entries@.map_values(|s: String| s@),
            backend_available: self.backend_available,
            fail_backend: self.fail_backend,
            fail_after_writes: self.fail_after_writes,
        }
    }
}

/// What every operation of a store answers that is unavailable or failing.
pub open spec fn guard_error(s: MemoryView) -> Option<SecretStoreError> {
    if !s.backend_available {
        Some(SecretStoreError::BackendUnavailable)
    } else if s.fail_backend {
        Some(SecretStoreError::BackendFailure)
    } else {
        None
    }
}

/// What a write answers.
pub open spec fn write_result(s: MemoryView, id: Seq<char>, secret: Seq<char>) -> Result<
    (),
    SecretStoreError,
> {
    if crate::text::is_blank(secret) {
        Err(SecretStoreError::InvalidSecret)
    } else if guard_error(s) is Some {
        Err(guard_error(s)->0)
    } else if s.fail_after_writes == Some(0usize) {
        Err(SecretStoreError::BackendFailure)
    } else if !super::is_valid_provider_id(id) {
        Err(SecretStoreError::InvalidProviderId)
    } else {
        Ok(())
    }
}

/// The store after a write.
pub open spec fn after_write(s: MemoryView, id: Seq<char>, secret: Seq<char>) -> MemoryView {
    if crate::text::is_blank(secret) || guard_error(s) is Some {
        s
    } else {
        MemoryView {
            entries: if write_result(s, id, secret) is Ok {
                s.entries.insert(super::account_name(id), crate::text::trimmed(secret))
            } else {
                s.entries
            },
            fail_after_writes: match s.fail_after_writes {
                None => None,
                Some(n) => if n == 0 {
                    None
                } else {
                    Some((n - 1) as usize)
                },
            },
            ..s
        }
    }
}

/// The store as others see it: an unavailable or failing one answers nothing,
/// and an armed failure meets the write that it is armed for.
pub open spec fn store_model(s: MemoryView) -> StoreModel {
    StoreModel {
        entries: s.entries,
        readable: guard_error(s) is None,
        write_faults: |n: nat|
            match guard_error(s) {
                Some(error) => Some(error),
                None => match s.fail_after_writes {
                    Some(armed) => if n == armed {
                        Some(SecretStoreError::BackendFailure)
                    } else {
                        None
                    },
                    None => None,
                },
            },
        delete_faults: |n: nat| guard_error(s),
    }
}

impl MemorySecretStore {
    /// A healthy, empty store.
    pub fn new() -> (r: Self)
        ensures
            r@ == (MemoryView {
                entries: Map::empty(),
                backend_available: true,
                fail_backend: false,
                fail_after_writes: None,
            }),
            r.model().healthy(),
    {
        let r = MemorySecretStore {
            entries: KeyedMap::new(),
            backend_available: true,
            fail_backend: false,
            fail_after_writes: None,
        };
        proof {
            assert(r@.entries =~= Map::<Seq<char>, Seq<char>>::empty());
        }
        r
    }

    /// An empty store whose backend cannot be reached.
    pub fn unavailable() -> (r: Self)
        ensures
            r@ == (MemoryView {
                entries: Map::empty(),
                backend_available: false,
                fail_backend: false,
                fail_after_writes: None,
            }),
    {
        let mut r = MemorySecretStore::new();
        r.backend_available = false;
        r
    }

    /// An empty store whose every operation fails.
    pub fn failing() -> (r: Self)
        ensures
            r@ == (MemoryView {
                entries: Map::empty(),
                backend_available: true,
                fail_backend: true,
                fail_after_writes: None,
            }),
    {
        let mut r = MemorySecretStore::new();
        r.fail_backend = true;
        r
    }

    /// Arms a single write failure after `successful_writes` further writes.
    pub fn set_fail_once_after_writes(&mut self, successful_writes: usize)
        ensures
            final(self)@ == (MemoryView {
                fail_after_writes: Some(successful_writes),
                ..old(self)@
            }),
    {
        self.fail_after_writes = Some(successful_writes);
    }

    /// Stores a value as it is, blank or not, as an earlier release may have
    /// left it.
    pub fn seed_raw(&mut self, provider_id: &str, secret: &str)
        requires
            super::is_valid_provider_id(provider_id@),
        ensures
            final(self)@ == (MemoryView {
                entries: old(self)@.entries.insert(super::account_name(provider_id@), secret@),
                ..old(self)@
            }),
    {
        match provider_account(provider_id) {
            Ok(account) => {
                self.entries.insert(account, secret.to_owned());
            },
            Err(_) => {},
        }
        proof {
            assert(self@ =~= (MemoryView {
                entries: old(self)@.entries.insert(super::account_name(provider_id@), secret@),
                ..old(self)@
            }));
        }
    }

    fn guard(&self) -> (r: Result<(), SecretStoreError>)
        ensures
            match guard_error(self@) {
                Some(error) => r == Err::<(), SecretStoreError>(error),
                None => r is Ok,
            },
    {
        if !self.backend_available {
            Err(SecretStoreError::BackendUnavailable)
        } else if self.fail_backend {
            Err(SecretStoreError::BackendFailure)
        } else {
            Ok(())
        }
    }

    /// A text for logs: how many secrets there are, never what they are.
    pub fn redacted_text(&self) -> (r: String)
        ensures
            r@ == "MemorySecretStore { entries: <"@ + crate::text::decimal(self@.entries.dom().len())
                + " redacted>, backend_available: "@ + (if self@.backend_available {
                "true"@
            } else {
                "false"@
            }) + ", fail_backend: "@ + (if self@.fail_backend {
                "true"@
            } else {
                "false"@
            }) + " }"@,
    {
        let count: u64 = self.entries.len() as u64;
        proof {
            assert(self@.entries.dom() =~= self.entries@.dom());
        }
        let mut out: String = "MemorySecretStore { entries: <".to_owned();
        out.append(decimal_text(count).as_str());
        out.append(" redacted>, backend_available: ");
        out.append(
            if self.backend_available {
                "true"
            } else {
                "false"
            },
        );
        out.append(", fail_backend: ");
        out.append(
            if self.fail_backend {
                "true"
            } else {
                "false"
            },
        );
        out.append(" }");
        out
    }
}

impl SecretStore for MemorySecretStore {
    open spec fn model(&self) -> StoreModel {
        store_model(self@)
    }

    fn set_secret(&mut self, provider_id: &str, secret: &str) -> (r: Result<(), SecretStoreError>)
        ensures
            r == write_result(old(self)@, provider_id@, secret@),
            final(self)@ == after_write(old(self)@, provider_id@, secret@),
    {
        let secret: String = match normalize_secret(secret) {
            Ok(text) => text,
            Err(error) => {
                return Err(error);
            },
        };
        match self.guard() {
            Ok(_) => {},
            Err(error) => {
                return Err(error);
            },
        }
        match self.fail_after_writes {
            Some(remaining) => {
                if remaining == 0 {
                    self.fail_after_writes = None;
                    return Err(SecretStoreError::BackendFailure);
                }
                self.fail_after_writes = Some(remaining - 1);
            },
            None => {},
        }
        let account: String = match provider_account(provider_id) {
            Ok(account) => account,
            Err(error) => {
                return Err(error);
            },
        };
        self.entries.insert(account, secret);
        proof {
            assert(self@.entries =~= old(self)@.entries.insert(account@, secret@));
        }
        Ok(())
    }

    fn get_secret(&self, provider_id: &str) -> (r: Result<String, SecretStoreError>)
        ensures
            match guard_error(self@) {
                Some(error) => r == Err::<String, SecretStoreError>(error),
                None => if !super::is_valid_provider_id(provider_id@) {
                    r == Err::<String, SecretStoreError>(SecretStoreError::InvalidProviderId)
                } else if self@.entries.dom().contains(super::account_name(provider_id@)) {
                    r is Ok && r->Ok_0@ == self@.entries[super::account_name(provider_id@)]
                } else {
                    r == Err::<String, SecretStoreError>(SecretStoreError::NotFound)
                },
            },
    {
        proof {
            assert(self.model() == store_model(self@));
        }
        match self.guard() {
            Ok(_) => {},
            Err(error) => {
                return Err(error);
            },
        }
        let account: String = match provider_account(provider_id) {
            Ok(account) => account,
            Err(error) => {
                return Err(error);
            },
        };
        match self.entries.get(&account) {
            Some(secret) => Ok(secret.clone()),
            None => Err(SecretStoreError::NotFound),
        }
    }

    fn delete_secret(&mut self, provider_id: &str) -> (r: Result<(), SecretStoreError>)
        ensures
            match guard_error(old(self)@) {
                Some(error) => r == Err::<(), SecretStoreError>(error),
                None => if super::is_valid_provider_id(provider_id@) {
                    r is Ok
                } else {
                    r == Err::<(), SecretStoreError>(SecretStoreError::InvalidProviderId)
                },
            },
            final(self)@ == (if r is Ok {
                MemoryView {
                    entries: old(self)@.entries.remove(super::account_name(provider_id@)),
                    ..old(self)@
                }
            } else {
                old(self)@
            }),
    {
        match self.guard() {
            Ok(_) => {},
            Err(error) => {
                return Err(error);
            },
        }
        let account: String = match provider_account(provider_id) {
            Ok(account) => account,
            Err(error) => {
                return Err(error);
            },
        };
        self.entries.remove(&account);
        proof {
            assert(self@.entries =~= old(self)@.entries.remove(account@));
        }
        Ok(())
    }

    fn backend_available(&self) -> (r: bool)
        ensures
            r == self@.backend_available,
    {
        self.backend_available
    }
}

/// A store answers exactly where it is available and not failing; an unavailable
/// one says so even where it is failing, too.
pub proof fn when_a_memory_store_answers(s: MemoryView)
    ensures
        guard_error(s) is None <==> s.backend_available && !s.fail_backend,
        !s.backend_available ==> guard_error(s) == Some(SecretStoreError::BackendUnavailable),
        s.backend_available && s.fail_backend ==> guard_error(s) == Some(
            SecretStoreError::BackendFailure,
        ),
        store_model(s).readable <==> s.backend_available && !s.fail_backend,
        store_model(s).entries == s.entries,
{
}

/// A write succeeds exactly where the secret is not blank, the store answers, no
/// failure is armed for this very write, and the id is valid; it then stores the
/// trimmed secret, and otherwise nothing.
pub proof fn when_a_memory_write_succeeds(s: MemoryView, id: Seq<char>, secret: Seq<char>)
    ensures
        write_result(s, id, secret) is Ok <==> !crate::text::is_blank(secret)
            && s.backend_available && !s.fail_backend && s.fail_after_writes != Some(0usize)
            && super::is_valid_provider_id(id),
        crate::text::is_blank(secret) ==> write_result(s, id, secret) == Err::<
            (),
            SecretStoreError,
        >(SecretStoreError::InvalidSecret) && after_write(s, id, secret) == s,
        write_result(s, id, secret) is Ok ==> after_write(s, id, secret).entries
            == s.entries.insert(super::account_name(id), crate::text::trimmed(secret)),
        write_result(s, id, secret) is Err ==> after_write(s, id, secret).entries == s.entries,
        after_write(s, id, secret).backend_available == s.backend_available,
        after_write(s, id, secret).fail_backend == s.fail_backend,
{
}

/// An armed failure counts the writes that get as far as the backend, and is gone
/// once it has struck.
pub proof fn an_armed_failure_strikes_once(s: MemoryView, id: Seq<char>, secret: Seq<char>)
    requires
        !crate::text::is_blank(secret),
        s.backend_available,
        !s.fail_backend,
    ensures
        s.fail_after_writes == Some(0usize) ==> write_result(s, id, secret) == Err::<
            (),
            SecretStoreError,
        >(SecretStoreError::BackendFailure) && after_write(s, id, secret).fail_after_writes is None,
        s.fail_after_writes matches Some(n) ==> n > 0 ==> after_write(s, id, secret).fail_after_writes
            == Some((n - 1) as usize),
        s.fail_after_writes is None ==> after_write(s, id, secret).fail_after_writes is None,
{
}

} // verus!
