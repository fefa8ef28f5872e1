//! Storage for provider API credentials.
//!
//! The [`SecretStore`] trait is the seam between the library and the operating
//! system's credential store. There is deliberately no plaintext file or
//! environment fallback: where the store is unavailable, operations fail.

use vstd::prelude::*;

use crate::text::{chars_of, trim};

pub mod keyring_store;
pub mod memory_store;
pub mod migration;

verus! {

/// Service name under which all provider credentials are stored.
pub const SECRET_SERVICE: &'static str = "parler.transcription";

/// Longest provider identifier that every backend accepts.
pub const MAX_PROVIDER_ID_LEN: usize = 64;

/// Errors of a [`SecretStore`]. None of them carries the secret itself.
#[derive(Debug, Clone, Copy, PartialEq, Eq, Structural)]
pub enum SecretStoreError {
    /// No secret is stored for the provider.
    NotFound,
    /// The provider identifier is empty, too long, or has unsupported characters.
    InvalidProviderId,
    /// The secret is blank or rejected by the platform.
    InvalidSecret,
    /// The credential store is unavailable.
    BackendUnavailable,
    /// Access to the credential store was denied.
    AccessDenied,
    /// An opaque platform failure. Platform text is never exposed.
    BackendFailure,
}

/// The text of a store error.
pub open spec fn store_error_text(error: SecretStoreError) -> Seq<char> {
    match error {
        SecretStoreError::NotFound => "secret not found"@,
        SecretStoreError::InvalidProviderId => "invalid provider identifier"@,
        SecretStoreError::InvalidSecret => "invalid secret"@,
        SecretStoreError::BackendUnavailable => "secret backend unavailable"@,
        SecretStoreError::AccessDenied => "secret backend access denied"@,
        SecretStoreError::BackendFailure => "secret backend operation failed"@,
    }
}

impl SecretStoreError {
    /// The text of the error.
    pub fn message(&self) -> (r: String)
        ensures
            r@ == store_error_text(*self),
            *self == SecretStoreError::NotFound ==> r@ == "secret not found"@,
            *self == SecretStoreError::InvalidProviderId ==> r@ == "invalid provider identifier"@,
            *self == SecretStoreError::InvalidSecret ==> r@ == "invalid secret"@,
            *self == SecretStoreError::BackendUnavailable ==> r@ == "secret backend unavailable"@,
            *self == SecretStoreError::AccessDenied ==> r@ == "secret backend access denied"@,
            *self == SecretStoreError::BackendFailure ==> r@ == "secret backend operation failed"@,
    {
        match self {
            SecretStoreError::NotFound => "secret not found".to_owned(),
            SecretStoreError::InvalidProviderId => "invalid provider identifier".to_owned(),
            SecretStoreError::InvalidSecret => "invalid secret".to_owned(),
            SecretStoreError::BackendUnavailable => "secret backend unavailable".to_owned(),
            SecretStoreError::AccessDenied => "secret backend access denied".to_owned(),
            SecretStoreError::BackendFailure => "secret backend operation failed".to_owned(),
        }
    }
}

/// A character that a provider identifier may hold.
pub open spec fn is_id_char(c: char) -> bool {
    'a' <= c <= 'z' || '0' <= c <= '9' || c == '-' || c == '_'
}

/// A provider identifier: 1 to 64 lower-case letters, digits, `-` or `_`.
pub open spec fn is_valid_provider_id(id: Seq<char>) -> bool {
    0 < id.len() <= MAX_PROVIDER_ID_LEN && forall|i: int|
        0 <= i < id.len() ==> is_id_char(#[trigger] id[i])
}

/// The account under which the key of a provider is stored.
pub open spec fn account_name(id: Seq<char>) -> Seq<char> {
    "provider/"@ + id + "/api-key"@
}

/// Different providers have different accounts.
pub proof fn accounts_are_provider_scoped(a: Seq<char>, b: Seq<char>)
    requires
        account_name(a) == account_name(b),
    ensures
        a == b,
{
    let head = "provider/"@.len() as int;
    let tail = "/api-key"@.len() as int;
    let whole_a = account_name(a);
    let whole_b = account_name(b);
    assert(whole_a.len() == head + a.len() + tail);
    assert(whole_b.len() == head + b.len() + tail);
    assert(whole_a.subrange(head, head + a.len()) =~= a);
    assert(whole_b.subrange(head, head + b.len()) =~= b);
}

/// Whether `id` can name a provider.
fn check_provider_id(id: &str) -> (r: bool)
    ensures
        r == is_valid_provider_id(id@),
{
    let chars: Vec<char> = chars_of(id);
    if chars.len() == 0 || chars.len() > MAX_PROVIDER_ID_LEN {
        return false;
    }
    let mut i: usize = 0;
    while i < chars.len()
        invariant
            chars@ == id@,
            i <= chars@.len(),
            forall|j: int| 0 <= j < i ==> is_id_char(#[trigger] id@[j]),
        decreases chars@.len() - i,
    {
        let c: char = chars[i];
        if !(('a' <= c && c <= 'z') || ('0' <= c && c <= '9') || c == '-' || c == '_') {
            proof {
                assert(!is_id_char(id@[i as int]));
            }
            return false;
        }
        i += 1;
    }
    true
}

/// The stable account name of a provider's key. It is part of the persisted
/// data: another layout would orphan stored secrets.
pub fn provider_account(provider_id: &str) -> (r: Result<String, SecretStoreError>)
    ensures
        r is Ok == is_valid_provider_id(provider_id@),
        r matches Ok(account) ==> account@ == account_name(provider_id@),
        r matches Err(error) ==> error == SecretStoreError::InvalidProviderId,
        r is Ok <==> 1 <= provider_id@.len() <= 64 && forall|i: int|
            0 <= i < provider_id@.len() ==> {
                ||| 'a' <= #[trigger] provider_id@[i] <= 'z'
                ||| '0' <= provider_id@[i] <= '9'
                ||| provider_id@[i] == '-'
                ||| provider_id@[i] == '_'
            },
        r matches Ok(account) ==> account@ == "provider/"@ + provider_id@ + "/api-key"@,
{
    proof {
        which_texts_are_provider_ids(provider_id@);
    }
    if !check_provider_id(provider_id) {
        return Err(SecretStoreError::InvalidProviderId);
    }
    let mut account: String = "provider/".to_owned();
    account.append(provider_id);
    account.append("/api-key");
    Ok(account)
}

/// The form in which a secret is stored: trimmed, and never blank.
pub fn normalize_secret(secret: &str) -> (r: Result<String, SecretStoreError>)
    ensures
        r is Ok == !crate::text::is_blank(secret@),
        r matches Ok(text) ==> text@ == crate::text::trimmed(secret@),
        r matches Err(error) ==> error == SecretStoreError::InvalidSecret,
{
    proof {
        crate::text::trimmed_is_empty_exactly_for_blank(secret@);
    }
    let text: &str = trim(secret);
    if text.unicode_len() == 0 {
        Err(SecretStoreError::InvalidSecret)
    } else {
        Ok(text.to_owned())
    }
}

/// The backend meets no fault at any operation of a kind.
pub open spec fn no_fault(faults: spec_fn(nat) -> Option<SecretStoreError>) -> bool {
    forall|n: nat| (#[trigger] faults(n)) is None
}

/// What is to be known of a store: what it holds, and which of its operations
/// its backend is going to fail.
#[verifier::ext_equal]
pub struct StoreModel {
    /// The stored secrets by account name.
    pub entries: Map<Seq<char>, Seq<char>>,
    /// The backend answers every read.
    pub readable: bool,
    /// The error, if any, that the `n`-th write from now on meets in the
    /// backend. A blank secret never gets there.
    pub write_faults: spec_fn(nat) -> Option<SecretStoreError>,
    /// The error, if any, that the `n`-th deletion from now on meets there.
    pub delete_faults: spec_fn(nat) -> Option<SecretStoreError>,
}

impl StoreModel {
    /// The backend answers every operation.
    pub open spec fn healthy(self) -> bool {
        self.readable && no_fault(self.write_faults) && no_fault(self.delete_faults)
    }

    /// The backend fails one write at most, and answers every other operation.
    pub open spec fn recovers(self) -> bool {
        &&& self.readable
        &&& no_fault(self.delete_faults)
        &&& forall|i: nat, j: nat|
            i < j ==> (#[trigger] (self.write_faults)(i)) is None || (#[trigger] (
            self.write_faults)(j)) is None
    }

    /// The provider has a secret that is not blank.
    pub open spec fn holds_secret(self, id: Seq<char>) -> bool {
        &&& is_valid_provider_id(id)
        &&& self.entries.dom().contains(account_name(id))
        &&& !crate::text::is_blank(self.entries[account_name(id)])
    }

    /// What a write answers.
    pub open spec fn write_answer(self, id: Seq<char>, secret: Seq<char>) -> Result<
        (),
        SecretStoreError,
    > {
        if crate::text::is_blank(secret) {
            Err(SecretStoreError::InvalidSecret)
        } else {
            match (self.write_faults)(0) {
                Some(error) => Err(error),
                None => if is_valid_provider_id(id) {
                    Ok(())
                } else {
                    Err(SecretStoreError::InvalidProviderId)
                },
            }
        }
    }

    /// The store after a write: the trimmed secret is in place of an earlier
    /// one, or, where the write failed, nothing has changed.
    pub open spec fn after_write(self, id: Seq<char>, secret: Seq<char>) -> StoreModel {
        if crate::text::is_blank(secret) {
            self
        } else {
            let faults = self.write_faults;
            StoreModel {
                entries: if self.write_answer(id, secret) is Ok {
                    self.entries.insert(account_name(id), crate::text::trimmed(secret))
                } else {
                    self.entries
                },
                write_faults: |n: nat| faults(n + 1),
                ..self
            }
        }
    }

    /// What a deletion answers: an absent secret is as good as a deleted one.
    pub open spec fn delete_answer(self, id: Seq<char>) -> Result<(), SecretStoreError> {
        match (self.delete_faults)(0) {
            Some(error) => Err(error),
            None => if is_valid_provider_id(id) {
                Ok(())
            } else {
                Err(SecretStoreError::InvalidProviderId)
            },
        }
    }

    /// The store after a deletion.
    pub open spec fn after_delete(self, id: Seq<char>) -> StoreModel {
        let faults = self.delete_faults;
        StoreModel {
            entries: if self.delete_answer(id) is Ok {
                self.entries.remove(account_name(id))
            } else {
                self.entries
            },
            delete_faults: |n: nat| faults(n + 1),
            ..self
        }
    }

    /// A read may answer `answer`: the secret that is stored, that there is
    /// none, or else an error of an invalid id or of the backend.
    pub open spec fn may_read(
        self,
        id: Seq<char>,
        answer: Result<Seq<char>, SecretStoreError>,
    ) -> bool {
        let account = account_name(id);
        match answer {
            Ok(secret) => is_valid_provider_id(id) && self.entries.dom().contains(account)
                && secret == self.entries[account],
            Err(SecretStoreError::NotFound) => is_valid_provider_id(id)
                && !self.entries.dom().contains(account),
            Err(error) => !self.readable || (!is_valid_provider_id(id) && error
                == SecretStoreError::InvalidProviderId),
        }
    }
}

/// The contents of what a read answers.
pub open spec fn text_answer(r: Result<String, SecretStoreError>) -> Result<
    Seq<char>,
    SecretStoreError,
> {
    match r {
        Ok(secret) => Ok(secret@),
        Err(error) => Err(error),
    }
}

/// Whether a secret is configured, going by what a read answers: a blank one
/// counts as none.
pub open spec fn configured_answer(answer: Result<Seq<char>, SecretStoreError>) -> Result<
    bool,
    SecretStoreError,
> {
    match answer {
        Ok(secret) => Ok(!crate::text::is_blank(secret)),
        Err(SecretStoreError::NotFound) => Ok(false),
        Err(error) => Err(error),
    }
}

/// Read and write access to provider credentials.
///
/// A failed operation leaves every stored secret as it was. An implementor must
/// never expose a secret through a text or a log.
pub trait SecretStore: Sized {
    /// What the store holds, and what its backend is going to answer.
    spec fn model(&self) -> StoreModel;

    /// Stores the trimmed secret of a provider, in place of an earlier one. A
    /// blank secret is never stored.
    fn set_secret(&mut self, provider_id: &str, secret: &str) -> (r: Result<(), SecretStoreError>)
        ensures
            r == old(self).model().write_answer(provider_id@, secret@),
            final(self).model() == old(self).model().after_write(provider_id@, secret@),
    ;

    /// The secret of a provider, or [`SecretStoreError::NotFound`].
    fn get_secret(&self, provider_id: &str) -> (r: Result<String, SecretStoreError>)
        ensures
            self.model().may_read(provider_id@, text_answer(r)),
    ;

    /// Deletes the secret of a provider. Deleting an absent one succeeds.
    fn delete_secret(&mut self, provider_id: &str) -> (r: Result<(), SecretStoreError>)
        ensures
            r == old(self).model().delete_answer(provider_id@),
            final(self).model() == old(self).model().after_delete(provider_id@),
    ;

    /// Whether the backend can be reached.
    fn backend_available(&self) -> (r: bool)
        ensures
            self.model().readable ==> r,
    ;

    /// Whether a secret is stored for a provider; a blank one counts as none.
    /// An error means that the backend failed, so that "absent" and "broken"
    /// differ.
    fn is_configured(&self, provider_id: &str) -> (r: Result<bool, SecretStoreError>)
        ensures
            exists|read: Result<String, SecretStoreError>|
                {
                    &&& #[trigger] call_ensures(Self::get_secret, (self, provider_id), read)
                    &&& r == configured_answer(text_answer(read))
                },
    {
        let read = self.get_secret(provider_id);
        match read {
            Ok(secret) => {
                proof {
                    crate::text::trimmed_is_empty_exactly_for_blank(secret@);
                }
                Ok(trim(secret.as_str()).unicode_len() != 0)
            },
            Err(SecretStoreError::NotFound) => Ok(false),
            Err(error) => Err(error),
        }
    }
}

/// A read of the secret of `id` can answer `answer`.
pub open spec fn reads_as<S: SecretStore>(
    store: S,
    id: Seq<char>,
    answer: Result<Seq<char>, SecretStoreError>,
) -> bool {
    exists|name: &str, read: Result<String, SecretStoreError>|
        {
            &&& name@ == id
            &&& text_answer(read) == answer
            &&& #[trigger] call_ensures(S::get_secret, (&store, name), read)
        }
}

/// Asking whether a secret is configured for `id` can answer `answer`.
pub open spec fn configured_as<S: SecretStore>(
    store: S,
    id: Seq<char>,
    answer: Result<bool, SecretStoreError>,
) -> bool {
    exists|name: &str|
        name@ == id && #[trigger] call_ensures(S::is_configured, (&store, name), answer)
}

/// Asking whether a secret is configured tells a secret that is not blank from
/// none; only an invalid id or a backend that does not answer is an error.
pub proof fn configured_means_a_secret_is_held<S: SecretStore>(
    store: S,
    id: Seq<char>,
    answer: Result<bool, SecretStoreError>,
)
    requires
        configured_as(store, id, answer),
    ensures
        answer matches Ok(configured) ==> is_valid_provider_id(id) && configured
            == store.model().holds_secret(id),
        answer matches Err(error) ==> error != SecretStoreError::NotFound,
        store.model().readable ==> answer == (if is_valid_provider_id(id) {
            Ok::<bool, SecretStoreError>(store.model().holds_secret(id))
        } else {
            Err(SecretStoreError::InvalidProviderId)
        }),
{
    let name = choose|name: &str|
        name@ == id && #[trigger] call_ensures(S::is_configured, (&store, name), answer);
    let read = choose|read: Result<String, SecretStoreError>|
        #[trigger] call_ensures(S::get_secret, (&store, name), read) && answer == configured_answer(
            text_answer(read),
        );
    assert(store.model().may_read(id, text_answer(read)));
}

/// Writing the secret of one provider changes nothing for another.
pub proof fn providers_are_isolated(
    entries: Map<Seq<char>, Seq<char>>,
    written: Seq<char>,
    secret: Seq<char>,
    other: Seq<char>,
)
    requires
        written != other,
    ensures
        ({
            let after = entries.insert(account_name(written), secret);
            let gone = entries.remove(account_name(written));
            let account = account_name(other);
            &&& after.dom().contains(account) == entries.dom().contains(account)
            &&& gone.dom().contains(account) == entries.dom().contains(account)
            &&& entries.dom().contains(account) ==> after[account] == entries[account]
                && gone[account] == entries[account]
        }),
{
    if account_name(written) == account_name(other) {
        accounts_are_provider_scoped(written, other);
    }
}

/// A healthy store stays healthy, whatever is written or deleted.
pub proof fn a_healthy_store_stays_healthy(m: StoreModel, id: Seq<char>, secret: Seq<char>)
    requires
        m.healthy(),
    ensures
        m.after_write(id, secret).healthy(),
        m.after_delete(id).healthy(),
{
    assert forall|n: nat| (#[trigger] (m.after_write(id, secret).write_faults)(n)) is None by {
        assert((m.write_faults)(n + 1) is None);
        assert((m.write_faults)(n) is None);
    }
    assert forall|n: nat| (#[trigger] (m.after_delete(id).delete_faults)(n)) is None by {
        assert((m.delete_faults)(n + 1) is None);
    }
}

/// What was written is what is read back, without the surrounding white space.
pub proof fn a_read_gives_back_the_write(
    m: StoreModel,
    id: Seq<char>,
    secret: Seq<char>,
    answer: Result<Seq<char>, SecretStoreError>,
)
    requires
        m.readable,
        m.write_answer(id, secret) is Ok,
        m.after_write(id, secret).may_read(id, answer),
    ensures
        answer == Ok::<Seq<char>, SecretStoreError>(crate::text::trimmed(secret)),
        m.after_write(id, secret).holds_secret(id),
{
    crate::text::trimming_twice_changes_nothing(secret);
    crate::text::trimmed_is_empty_exactly_for_blank(secret);
    crate::text::trimmed_is_empty_exactly_for_blank(crate::text::trimmed(secret));
}

/// What was deleted is gone.
pub proof fn a_deleted_secret_is_gone(
    m: StoreModel,
    id: Seq<char>,
    answer: Result<Seq<char>, SecretStoreError>,
)
    requires
        m.readable,
        m.delete_answer(id) is Ok,
        m.after_delete(id).may_read(id, answer),
    ensures
        answer == Err::<Seq<char>, SecretStoreError>(SecretStoreError::NotFound),
        !m.after_delete(id).holds_secret(id),
{
}

/// A provider identifier has 1 to 64 characters, each of them a lower-case
/// letter, a digit, a hyphen or an underscore, and every such text is one.
pub proof fn which_texts_are_provider_ids(id: Seq<char>)
    ensures
        is_valid_provider_id(id) <==> 1 <= id.len() <= 64 && forall|i: int|
            0 <= i < id.len() ==> {
                ||| 'a' <= #[trigger] id[i] <= 'z'
                ||| '0' <= id[i] <= '9'
                ||| id[i] == '-'
                ||| id[i] == '_'
            },
{
}

/// The account of a provider holds its name between a fixed head and a fixed
/// tail.
pub proof fn an_account_holds_its_provider(id: Seq<char>)
    ensures
        account_name(id) == "provider/"@ + id + "/api-key"@,
        crate::text::starts_with(account_name(id), "provider/"@),
        crate::text::contains_text(account_name(id), id),
{
    crate::text::a_text_holds_what_stands_between("provider/"@, id, "/api-key"@);
    assert(account_name(id) == "provider/"@ + (id + "/api-key"@));
    crate::text::a_text_holds_what_stands_between(
        Seq::empty(),
        "provider/"@,
        id + "/api-key"@,
    );
}

/// A write succeeds exactly where the secret is not blank, the backend does not
/// fail and the id is valid; one that fails leaves every secret as it was.
pub proof fn when_a_write_succeeds(m: StoreModel, id: Seq<char>, secret: Seq<char>)
    ensures
        m.write_answer(id, secret) is Ok <==> !crate::text::is_blank(secret) && (m.write_faults)(
            0,
        ) is None && is_valid_provider_id(id),
        crate::text::is_blank(secret) ==> m.write_answer(id, secret) == Err::<(), SecretStoreError>(
            SecretStoreError::InvalidSecret,
        ) && m.after_write(id, secret) == m,
        !crate::text::is_blank(secret) ==> (m.write_faults)(0) is Some ==> m.write_answer(
            id,
            secret,
        ) == Err::<(), SecretStoreError>((m.write_faults)(0)->0),
        !crate::text::is_blank(secret) && (m.write_faults)(0) is None && !is_valid_provider_id(id)
            ==> m.write_answer(id, secret) == Err::<(), SecretStoreError>(
            SecretStoreError::InvalidProviderId,
        ),
        m.write_answer(id, secret) is Err ==> m.after_write(id, secret).entries == m.entries,
        m.write_answer(id, secret) is Ok ==> m.after_write(id, secret).entries == m.entries.insert(
            account_name(id),
            crate::text::trimmed(secret),
        ),
        m.after_write(id, secret).readable == m.readable,
        m.after_write(id, secret).delete_faults == m.delete_faults,
{
}

/// A deletion succeeds exactly where the backend does not fail and the id is
/// valid, whether or not there was a secret; one that fails leaves every secret
/// as it was.
pub proof fn when_a_deletion_succeeds(m: StoreModel, id: Seq<char>)
    ensures
        m.delete_answer(id) is Ok <==> (m.delete_faults)(0) is None && is_valid_provider_id(id),
        m.delete_answer(id) is Err ==> m.after_delete(id).entries == m.entries,
        m.delete_answer(id) is Ok ==> m.after_delete(id).entries == m.entries.remove(
            account_name(id),
        ),
        m.after_delete(id).readable == m.readable,
        m.after_delete(id).write_faults == m.write_faults,
{
}

/// A store that answers has one answer only to a read: the stored secret, that
/// there is none, or that the id is invalid.
pub proof fn a_readable_store_has_one_answer(
    m: StoreModel,
    id: Seq<char>,
    answer: Result<Seq<char>, SecretStoreError>,
)
    requires
        m.readable,
        m.may_read(id, answer),
    ensures
        !is_valid_provider_id(id) ==> answer == Err::<Seq<char>, SecretStoreError>(
            SecretStoreError::InvalidProviderId,
        ),
        is_valid_provider_id(id) && m.entries.dom().contains(account_name(id)) ==> answer == Ok::<
            Seq<char>,
            SecretStoreError,
        >(m.entries[account_name(id)]),
        is_valid_provider_id(id) && !m.entries.dom().contains(account_name(id)) ==> answer == Err::<
            Seq<char>,
            SecretStoreError,
        >(SecretStoreError::NotFound),
{
}

/// Whether or not a store answers, a read never gives a secret that is not
/// stored, nor one of another provider.
pub proof fn a_read_gives_no_other_secret(
    m: StoreModel,
    id: Seq<char>,
    answer: Result<Seq<char>, SecretStoreError>,
)
    requires
        m.may_read(id, answer),
    ensures
        answer matches Ok(secret) ==> m.entries.dom().contains("provider/"@ + id + "/api-key"@)
            && secret == m.entries["provider/"@ + id + "/api-key"@],
{
}

/// Only a secret that is not blank counts as configured, an absent one does not,
/// and every other error stays one.
pub proof fn a_blank_secret_counts_as_none(answer: Result<Seq<char>, SecretStoreError>)
    ensures
        answer matches Ok(secret) ==> configured_answer(answer) == Ok::<bool, SecretStoreError>(
            !crate::text::is_blank(secret),
        ),
        answer == Err::<Seq<char>, SecretStoreError>(SecretStoreError::NotFound)
            ==> configured_answer(answer) == Ok::<bool, SecretStoreError>(false),
        answer matches Err(error) ==> error != SecretStoreError::NotFound ==> configured_answer(
            answer,
        ) == Err::<bool, SecretStoreError>(error),
{
}

} // verus!
