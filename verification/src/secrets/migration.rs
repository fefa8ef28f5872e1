//! One-time migration of plaintext credentials out of the settings.
//!
//! Earlier releases kept `gemini_api_key` and `post_process_api_keys` in the
//! settings file. [`copy_legacy_secrets`] copies every non-blank one into the
//! [`SecretStore`]; the caller clears the settings only after that succeeded as
//! a whole.

use vstd::prelude::*;

use super::{provider_account, SecretStore, SecretStoreError, StoreModel};
use crate::keyed_map::KeyedMap;
use crate::settings::AppSettings;
use crate::text::trim;

verus! {

/// Provider id of the Gemini key.
pub const GEMINI_ACCOUNT: &'static str = "gemini";

/// Prefix that sets the keys of post-processing providers apart.
pub const POST_PROCESS_ACCOUNT_PREFIX: &'static str = "postprocess-";

/// The migration step that this release implements.
pub const CURRENT_MIGRATION_VERSION: u32 = 2;

/// What a migration copied: account names, never values.
#[derive(Debug, PartialEq, Eq)]
pub struct MigrationReport {
    pub migrated_accounts: Vec<String>,
}

/// A secret to copy: the id it is stored under, and its value.
pub struct PendingView {
    pub id: Seq<char>,
    pub value: Seq<char>,
}

/// A secret to copy.
struct Pending {
    id: String,
    value: String,
}

impl View for Pending {
    type V = PendingView;

    closed spec fn view(&self) -> PendingView {
        PendingView { id: self.id@, value: self.value@ }
    }
}

spec fn pending_views(list: Seq<Pending>) -> Seq<PendingView> {
    list.map_values(|p: Pending| p@)
}

/// The Gemini key to copy, if there is one.
pub open spec fn gemini_pending(key: Option<String>) -> Seq<PendingView> {
    match key {
        Some(text) => if crate::text::is_blank(text@) {
            Seq::empty()
        } else {
            seq![PendingView { id: "gemini"@, value: crate::text::trimmed(text@) }]
        },
        None => Seq::empty(),
    }
}

/// The post-processing keys to copy, in the order of the settings.
pub open spec fn post_process_pending(pairs: Seq<(String, String)>) -> Seq<PendingView>
    decreases pairs.len(),
{
    if pairs.len() == 0 {
        Seq::empty()
    } else {
        let before = post_process_pending(pairs.drop_last());
        let (provider, key) = pairs.last();
        if crate::text::is_blank(key@) {
            before
        } else {
            before.push(
                PendingView {
                    id: "postprocess-"@ + provider@,
                    value: crate::text::trimmed(key@),
                },
            )
        }
    }
}

/// Every secret to copy: the non-blank ones, trimmed.
pub open spec fn pending_of(settings: AppSettings) -> Seq<PendingView> {
    gemini_pending(settings.gemini_api_key) + post_process_pending(
        settings.post_process_api_keys.pairs(),
    )
}

/// Every id can name an account.
pub open spec fn all_valid(pending: Seq<PendingView>) -> bool {
    forall|i: int|
        0 <= i < pending.len() ==> super::is_valid_provider_id((#[trigger] pending[i]).id)
}

/// `account` belongs to one of the secrets from `from` to `to`.
pub open spec fn is_touched(
    pending: Seq<PendingView>,
    from: int,
    to: int,
    account: Seq<char>,
) -> bool {
    exists|i: int| from <= i < to && super::account_name((#[trigger] pending[i]).id) == account
}

/// The store after the first `n` secrets were written.
pub open spec fn after_writes(
    entries: Map<Seq<char>, Seq<char>>,
    pending: Seq<PendingView>,
    n: nat,
) -> Map<Seq<char>, Seq<char>>
    decreases n,
{
    if n == 0 {
        entries
    } else {
        after_writes(entries, pending, (n - 1) as nat).insert(
            super::account_name(pending[n - 1].id),
            pending[n - 1].value,
        )
    }
}

/// The store after the first `n` accounts were put back as they were in
/// `entries`: an original with a secret in it is stored again, trimmed; a blank
/// or missing one is gone.
pub open spec fn rolled_back(
    entries: Map<Seq<char>, Seq<char>>,
    pending: Seq<PendingView>,
    n: nat,
) -> Map<Seq<char>, Seq<char>> {
    Map::new(
        |account: Seq<char>|
            entries.dom().contains(account) && !(is_touched(pending, 0, n as int, account)
                && crate::text::is_blank(entries[account])),
        |account: Seq<char>|
            if is_touched(pending, 0, n as int, account) {
                crate::text::trimmed(entries[account])
            } else {
                entries[account]
            },
    )
}

/// The store after the first `n` secrets were handed to it.
pub open spec fn after_handing_over(m: StoreModel, pending: Seq<PendingView>, n: nat) -> StoreModel
    decreases n,
{
    if n == 0 {
        m
    } else {
        after_handing_over(m, pending, (n - 1) as nat).after_write(
            pending[n - 1].id,
            pending[n - 1].value,
        )
    }
}

/// The backend takes the next `n` writes.
pub open spec fn takes_writes(m: StoreModel, n: nat) -> bool {
    forall|k: nat| k < n ==> (#[trigger] (m.write_faults)(k)) is None
}

/// There was a secret under `id` that is worth writing back: a blank one holds
/// no secret, and would be refused.
pub open spec fn is_written_back(originals: Map<Seq<char>, Seq<char>>, id: Seq<char>) -> bool {
    let account = super::account_name(id);
    originals.dom().contains(account) && !crate::text::is_blank(originals[account])
}

/// What putting one account back answers: its original is written again, or,
/// where there was none worth it, the account is deleted.
pub open spec fn undo_answer(
    m: StoreModel,
    originals: Map<Seq<char>, Seq<char>>,
    id: Seq<char>,
) -> Result<(), SecretStoreError> {
    if is_written_back(originals, id) {
        m.write_answer(id, originals[super::account_name(id)])
    } else {
        m.delete_answer(id)
    }
}

/// The store after one account was put back.
pub open spec fn after_undoing(
    m: StoreModel,
    originals: Map<Seq<char>, Seq<char>>,
    id: Seq<char>,
) -> StoreModel {
    if is_written_back(originals, id) {
        m.after_write(id, originals[super::account_name(id)])
    } else {
        m.after_delete(id)
    }
}

/// The store after the first `n` accounts were put back, the last one first;
/// each is tried, whatever became of the others.
pub open spec fn after_rollback(
    m: StoreModel,
    originals: Map<Seq<char>, Seq<char>>,
    pending: Seq<PendingView>,
    n: nat,
) -> StoreModel
    decreases n,
{
    if n == 0 {
        m
    } else {
        after_rollback(
            after_undoing(m, originals, pending[n - 1].id),
            originals,
            pending,
            (n - 1) as nat,
        )
    }
}

/// Each of the first `n` accounts was put back.
pub open spec fn rollback_succeeds(
    m: StoreModel,
    originals: Map<Seq<char>, Seq<char>>,
    pending: Seq<PendingView>,
    n: nat,
) -> bool
    decreases n,
{
    n == 0 || (undo_answer(m, originals, pending[n - 1].id) is Ok && rollback_succeeds(
        after_undoing(m, originals, pending[n - 1].id),
        originals,
        pending,
        (n - 1) as nat,
    ))
}

/// A read says what is stored for `id`, or that nothing is.
pub open spec fn is_read<S: SecretStore>(store: S, id: Seq<char>) -> bool {
    ||| exists|secret: Seq<char>| #[trigger] super::reads_as(store, id, Ok(secret))
    ||| super::reads_as(store, id, Err(SecretStoreError::NotFound))
}

/// The first `n` secrets to copy can be asked for.
pub open spec fn are_read<S: SecretStore>(store: S, pending: Seq<PendingView>, n: int) -> bool {
    forall|i: int| 0 <= i < n ==> is_read(store, (#[trigger] pending[i]).id)
}

/// Asking for what is stored now fails with `error`, at the first account that
/// cannot be asked for.
pub open spec fn read_fails<S: SecretStore>(
    store: S,
    pending: Seq<PendingView>,
    error: SecretStoreError,
) -> bool {
    exists|i: int|
        {
            &&& 0 <= i < pending.len()
            &&& error != SecretStoreError::NotFound
            &&& are_read(store, pending, i)
            &&& super::reads_as(store, (#[trigger] pending[i]).id, Err(error))
        }
}

/// The copy was refused before anything was asked of the store: an id cannot
/// name an account.
pub open spec fn refused(
    pending: Seq<PendingView>,
    m: StoreModel,
    after: StoreModel,
    failure: CopyFailure,
) -> bool {
    &&& !all_valid(pending)
    &&& failure == (CopyFailure {
        error: SecretStoreError::InvalidProviderId,
        written: 0,
        restored: true,
    })
    &&& after == m
}

/// The copy ended before the first write: a current value could not be read.
pub open spec fn ended_by_read<S: SecretStore>(
    store: S,
    pending: Seq<PendingView>,
    after: StoreModel,
    failure: CopyFailure,
) -> bool {
    &&& all_valid(pending)
    &&& read_fails(store, pending, failure.error)
    &&& failure.written == 0
    &&& failure.restored
    &&& after == store.model()
}

/// The copy ended with the error of a failed write. Every account that was
/// written before was then tried to be put back, and no further one touched.
pub open spec fn ended_by_write<S: SecretStore>(
    store: S,
    pending: Seq<PendingView>,
    after: StoreModel,
    failure: CopyFailure,
) -> bool {
    let m = store.model();
    let n = failure.written as nat;
    let broken = after_handing_over(m, pending, n + 1);
    &&& all_valid(pending)
    &&& are_read(store, pending, pending.len() as int)
    &&& n < pending.len()
    &&& takes_writes(m, n)
    &&& (m.write_faults)(n) == Some(failure.error)
    &&& after == after_rollback(broken, m.entries, pending, n)
    &&& failure.restored == rollback_succeeds(broken, m.entries, pending, n)
}

/// A copy of `pending` into `store` can end with `r` and leave `after` behind.
pub open spec fn copy_ends<S: SecretStore>(
    store: S,
    pending: Seq<PendingView>,
    after: StoreModel,
    r: Result<Seq<Seq<char>>, CopyFailure>,
) -> bool {
    match r {
        Ok(ids) => {
            &&& all_valid(pending)
            &&& are_read(store, pending, pending.len() as int)
            &&& takes_writes(store.model(), pending.len())
            &&& ids == pending.map_values(|p: PendingView| p.id)
            &&& after == after_handing_over(store.model(), pending, pending.len())
        },
        Err(failure) => {
            ||| refused(pending, store.model(), after, failure)
            ||| ended_by_read(store, pending, after, failure)
            ||| ended_by_write(store, pending, after, failure)
        },
    }
}

/// What is told of a failed copy: its own error where it was undone.
pub open spec fn told_error(failure: CopyFailure) -> SecretStoreError {
    if failure.restored {
        failure.error
    } else {
        SecretStoreError::BackendFailure
    }
}

/// Two stores agree on every account that no secret to copy belongs to.
pub open spec fn differ_only_in(
    pending: Seq<PendingView>,
    a: Map<Seq<char>, Seq<char>>,
    b: Map<Seq<char>, Seq<char>>,
) -> bool {
    forall|account: Seq<char>|
        !is_touched(pending, 0, pending.len() as int, account) ==> (#[trigger] a.dom().contains(
            account,
        ) == b.dom().contains(account)) && (a.dom().contains(account) ==> a[account] == b[account])
}

/// Every stored secret is one that a write leaves behind: trimmed, not blank.
pub open spec fn is_normalized(entries: Map<Seq<char>, Seq<char>>) -> bool {
    forall|account: Seq<char>| #[trigger]
        entries.dom().contains(account) ==> !crate::text::is_blank(entries[account])
            && crate::text::trimmed(entries[account]) == entries[account]
}

/// The store after the accounts from `n` down to `from` were put back.
spec fn partly_rolled_back(
    entries: Map<Seq<char>, Seq<char>>,
    pending: Seq<PendingView>,
    from: int,
    n: nat,
) -> Map<Seq<char>, Seq<char>>
    decreases n - from,
{
    if from >= n {
        after_writes(entries, pending, n)
    } else {
        let later = partly_rolled_back(entries, pending, from + 1, n);
        let account = super::account_name(pending[from].id);
        if entries.dom().contains(account) && !crate::text::is_blank(entries[account]) {
            later.insert(account, crate::text::trimmed(entries[account]))
        } else {
            later.remove(account)
        }
    }
}

proof fn lemma_writes_touch(
    entries: Map<Seq<char>, Seq<char>>,
    pending: Seq<PendingView>,
    n: nat,
    account: Seq<char>,
)
    requires
        n <= pending.len(),
        !is_touched(pending, 0, n as int, account),
    ensures
        after_writes(entries, pending, n).dom().contains(account) == entries.dom().contains(account),
        entries.dom().contains(account) ==> after_writes(entries, pending, n)[account]
            == entries[account],
    decreases n,
{
    if n > 0 {
        if is_touched(pending, 0, n - 1, account) {
            let i = choose|i: int|
                0 <= i < n - 1 && super::account_name((#[trigger] pending[i]).id) == account;
            assert(super::account_name(pending[i].id) == account);
        }
        lemma_writes_touch(entries, pending, (n - 1) as nat, account);
        assert(super::account_name(pending[n - 1].id) != account);
    }
}

proof fn lemma_partly_rolled_back(
    entries: Map<Seq<char>, Seq<char>>,
    pending: Seq<PendingView>,
    from: int,
    n: nat,
    account: Seq<char>,
)
    requires
        0 <= from <= n <= pending.len(),
    ensures
        ({
            let now = partly_rolled_back(entries, pending, from, n);
            let written = after_writes(entries, pending, n);
            let keeps = entries.dom().contains(account) && !crate::text::is_blank(entries[account]);
            if is_touched(pending, from, n as int, account) {
                &&& now.dom().contains(account) == keeps
                &&& keeps ==> now[account] == crate::text::trimmed(entries[account])
            } else {
                &&& now.dom().contains(account) == written.dom().contains(account)
                &&& written.dom().contains(account) ==> now[account] == written[account]
            }
        }),
    decreases n - from,
{
    if from < n {
        lemma_partly_rolled_back(entries, pending, from + 1, n, account);
        let here = super::account_name(pending[from].id);
        if here != account && is_touched(pending, from, n as int, account) {
            let i = choose|i: int|
                from <= i < n && super::account_name((#[trigger] pending[i]).id) == account;
            assert(i != from);
            assert(is_touched(pending, from + 1, n as int, account));
        }
        if is_touched(pending, from + 1, n as int, account) {
            let i = choose|i: int|
                from + 1 <= i < n && super::account_name((#[trigger] pending[i]).id) == account;
            assert(super::account_name(pending[i].id) == account);
            assert(is_touched(pending, from, n as int, account));
        }
        if here == account {
            assert(super::account_name(pending[from].id) == account);
            assert(is_touched(pending, from, n as int, account));
        }
    }
}

proof fn lemma_rolled_back(
    entries: Map<Seq<char>, Seq<char>>,
    pending: Seq<PendingView>,
    n: nat,
)
    requires
        n <= pending.len(),
    ensures
        partly_rolled_back(entries, pending, 0, n) == rolled_back(entries, pending, n),
{
    let a = partly_rolled_back(entries, pending, 0, n);
    let b = rolled_back(entries, pending, n);
    assert forall|account: Seq<char>| a.dom().contains(account) == #[trigger] b.dom().contains(
        account,
    ) by {
        lemma_partly_rolled_back(entries, pending, 0, n, account);
        if !is_touched(pending, 0, n as int, account) {
            lemma_writes_touch(entries, pending, n, account);
        }
    }
    assert forall|account: Seq<char>| #[trigger] b.dom().contains(account) implies a[account]
        == b[account] by {
        lemma_partly_rolled_back(entries, pending, 0, n, account);
        if !is_touched(pending, 0, n as int, account) {
            lemma_writes_touch(entries, pending, n, account);
        }
    }
    assert(a =~= b);
}

/// Putting the accounts back restores a store whose secrets are all trimmed and
/// not blank exactly, however many secrets had been written.
pub proof fn a_rollback_restores_a_normalized_store(
    entries: Map<Seq<char>, Seq<char>>,
    pending: Seq<PendingView>,
    n: nat,
)
    requires
        is_normalized(entries),
    ensures
        rolled_back(entries, pending, n) == entries,
{
    let b = rolled_back(entries, pending, n);
    assert forall|account: Seq<char>| b.dom().contains(account) == #[trigger] entries.dom().contains(
        account,
    ) by {}
    assert forall|account: Seq<char>| #[trigger] entries.dom().contains(account) implies b[account]
        == entries[account] by {}
    assert(b =~= entries);
}

/// A write leaves a normalized store normalized.
pub proof fn a_write_keeps_a_store_normalized(
    entries: Map<Seq<char>, Seq<char>>,
    account: Seq<char>,
    secret: Seq<char>,
)
    requires
        is_normalized(entries),
        !crate::text::is_blank(secret),
    ensures
        is_normalized(entries.insert(account, crate::text::trimmed(secret))),
{
    crate::text::trimming_twice_changes_nothing(secret);
    crate::text::trimmed_is_empty_exactly_for_blank(secret);
    crate::text::trimmed_is_empty_exactly_for_blank(crate::text::trimmed(secret));
}

/// No two secrets to copy share an id.
pub open spec fn distinct_ids(pending: Seq<PendingView>) -> bool {
    forall|i: int, j: int|
        0 <= i < j < pending.len() ==> (#[trigger] pending[i]).id != (#[trigger] pending[j]).id
}

/// The id of a post-processing secret names one of the providers.
spec fn names_a_provider(pairs: Seq<(String, String)>, id: Seq<char>) -> bool {
    exists|k: int| 0 <= k < pairs.len() && id == "postprocess-"@ + (#[trigger] pairs[k]).0@
}

proof fn lemma_prefix_is_injective(a: Seq<char>, b: Seq<char>)
    requires
        "postprocess-"@ + a == "postprocess-"@ + b,
    ensures
        a == b,
{
    let n = "postprocess-"@.len() as int;
    assert(("postprocess-"@ + a).skip(n) =~= a);
    assert(("postprocess-"@ + b).skip(n) =~= b);
}

proof fn lemma_post_process_ids(pairs: Seq<(String, String)>)
    requires
        crate::keyed_map::distinct_keys(pairs),
    ensures
        distinct_ids(post_process_pending(pairs)),
        forall|i: int|
            0 <= i < post_process_pending(pairs).len() ==> names_a_provider(
                pairs,
                (#[trigger] post_process_pending(pairs)[i]).id,
            ),
    decreases pairs.len(),
{
    if pairs.len() > 0 {
        let rest = pairs.drop_last();
        assert forall|i: int, j: int| 0 <= i < j < rest.len() implies (#[trigger] rest[i]).0@ != (
        #[trigger] rest[j]).0@ by {
            assert(pairs[i].0@ != pairs[j].0@);
        }
        lemma_post_process_ids(rest);
        let before = post_process_pending(rest);
        let all = post_process_pending(pairs);
        let last = pairs.len() - 1;
        assert forall|i: int| 0 <= i < all.len() implies names_a_provider(
            pairs,
            (#[trigger] all[i]).id,
        ) by {
            if i < before.len() {
                assert(all[i] == before[i]);
                let k = choose|k: int|
                    0 <= k < rest.len() && before[i].id == "postprocess-"@ + (
                    #[trigger] rest[k]).0@;
                assert(pairs[k] == rest[k]);
            } else {
                assert(all[i].id == "postprocess-"@ + pairs[last].0@);
            }
        }
        assert forall|i: int, j: int| 0 <= i < j < all.len() implies (#[trigger] all[i]).id != (
        #[trigger] all[j]).id by {
            assert(all[i] == before[i]);
            if j < before.len() {
                assert(before[i].id != before[j].id);
            } else {
                let k = choose|k: int|
                    0 <= k < rest.len() && before[i].id == "postprocess-"@ + (
                    #[trigger] rest[k]).0@;
                assert(pairs[k].0@ != pairs[last].0@);
                if all[i].id == all[j].id {
                    lemma_prefix_is_injective(pairs[k].0@, pairs[last].0@);
                }
            }
        }
    }
}

/// Settings that name every post-processing provider once have no two secrets
/// to copy with the same id.
pub proof fn pending_ids_are_distinct(settings: AppSettings)
    requires
        crate::keyed_map::distinct_keys(settings.post_process_api_keys.pairs()),
    ensures
        distinct_ids(pending_of(settings)),
{
    let pairs = settings.post_process_api_keys.pairs();
    let first = gemini_pending(settings.gemini_api_key);
    let rest = post_process_pending(pairs);
    let all = pending_of(settings);
    lemma_post_process_ids(pairs);
    reveal_strlit("gemini");
    reveal_strlit("postprocess-");
    assert forall|i: int, j: int| 0 <= i < j < all.len() implies (#[trigger] all[i]).id != (
    #[trigger] all[j]).id by {
        if i >= first.len() {
            assert(rest[i - first.len()].id != rest[j - first.len()].id);
        } else {
            assert(all[j] == rest[j - first.len()]);
            let k = choose|k: int|
                0 <= k < pairs.len() && all[j].id == "postprocess-"@ + (#[trigger] pairs[k]).0@;
            assert(all[i].id[0] == 'g');
            assert(all[j].id[0] == 'p');
        }
    }
}

/// Handing over secrets that the backend takes writes them, and takes nothing
/// else from the store.
proof fn lemma_handed_over(m: StoreModel, pending: Seq<PendingView>, n: nat)
    requires
        n <= pending.len(),
        all_valid(pending),
        forall|i: int| 0 <= i < pending.len() ==> is_normal_value((#[trigger] pending[i]).value),
    ensures
        after_handing_over(m, pending, n).readable == m.readable,
        after_handing_over(m, pending, n).delete_faults == m.delete_faults,
        forall|k: nat| #[trigger]
            (after_handing_over(m, pending, n).write_faults)(k) == (m.write_faults)(n + k),
        takes_writes(m, n) ==> after_handing_over(m, pending, n).entries == after_writes(
            m.entries,
            pending,
            n,
        ),
        n > 0 && takes_writes(m, (n - 1) as nat) && (m.write_faults)((n - 1) as nat) is Some
            ==> after_handing_over(m, pending, n).entries == after_writes(
            m.entries,
            pending,
            (n - 1) as nat,
        ),
    decreases n,
{
    if n > 0 {
        let before = after_handing_over(m, pending, (n - 1) as nat);
        lemma_handed_over(m, pending, (n - 1) as nat);
        assert(is_normal_value(pending[n - 1].value));
        assert(super::is_valid_provider_id(pending[n - 1].id));
        assert((before.write_faults)(0) == (m.write_faults)((n - 1) as nat));
        assert forall|k: nat| #[trigger]
            (after_handing_over(m, pending, n).write_faults)(k) == (m.write_faults)(n + k) by {
            assert((before.write_faults)(k + 1) == (m.write_faults)((n - 1 + (k + 1)) as nat));
        }
    }
}

/// Putting accounts back does not change whether reads answer, and all of it
/// succeeds where nothing fails.
proof fn lemma_rollback_keeps(
    m: StoreModel,
    originals: Map<Seq<char>, Seq<char>>,
    pending: Seq<PendingView>,
    n: nat,
)
    requires
        n <= pending.len(),
        all_valid(pending),
    ensures
        after_rollback(m, originals, pending, n).readable == m.readable,
        m.healthy() ==> after_rollback(m, originals, pending, n).healthy() && rollback_succeeds(
            m,
            originals,
            pending,
            n,
        ),
    decreases n,
{
    if n > 0 {
        let id = pending[n - 1].id;
        assert(super::is_valid_provider_id(id));
        if m.healthy() {
            super::a_healthy_store_stays_healthy(m, id, originals[super::account_name(id)]);
            assert((m.write_faults)(0) is None);
            assert((m.delete_faults)(0) is None);
        }
        lemma_rollback_keeps(
            after_undoing(m, originals, id),
            originals,
            pending,
            (n - 1) as nat,
        );
    }
}

proof fn lemma_healthy_after(m: StoreModel, pending: Seq<PendingView>, n: nat)
    requires
        m.healthy(),
    ensures
        after_handing_over(m, pending, n).healthy(),
    decreases n,
{
    if n > 0 {
        lemma_healthy_after(m, pending, (n - 1) as nat);
        super::a_healthy_store_stays_healthy(
            after_handing_over(m, pending, (n - 1) as nat),
            pending[n - 1].id,
            pending[n - 1].value,
        );
    }
}

/// A store that fails one write at most is healthy once it has failed it.
proof fn lemma_recovered(m: StoreModel, pending: Seq<PendingView>, n: nat)
    requires
        n < pending.len(),
        all_valid(pending),
        forall|i: int| 0 <= i < pending.len() ==> is_normal_value((#[trigger] pending[i]).value),
        m.recovers(),
        (m.write_faults)(n) is Some,
    ensures
        after_handing_over(m, pending, n + 1).healthy(),
{
    lemma_handed_over(m, pending, n + 1);
    let broken = after_handing_over(m, pending, n + 1);
    assert forall|k: nat| (#[trigger] (broken.write_faults)(k)) is None by {
        assert((m.write_faults)(n + 1 + k) is None);
    }
}

/// A copy into a store whose backend fails one write at most is all or nothing:
/// where it fails, every account that was written is put back, and the error of
/// the write is the one told.
pub proof fn a_failed_copy_is_undone<S: SecretStore>(
    store: S,
    settings: AppSettings,
    after: StoreModel,
    failure: CopyFailure,
)
    requires
        store.model().recovers(),
        copy_ends(store, pending_of(settings), after, Err(failure)),
    ensures
        failure.restored,
        told_error(failure) == failure.error,
        after.entries == rolled_back(
            store.model().entries,
            pending_of(settings),
            failure.written as nat,
        ),
        after.readable,
        is_normalized(store.model().entries) ==> after.entries == store.model().entries,
{
    let m = store.model();
    let pending = pending_of(settings);
    lemma_pending_values(settings);
    lemma_nothing_written(m.entries, pending);
    if ended_by_write(store, pending, after, failure) {
        lemma_recovered(m, pending, failure.written as nat);
        let broken = after_handing_over(m, pending, failure.written as nat + 1);
        lemma_rollback_keeps(broken, m.entries, pending, failure.written as nat);
        lemma_undone(store, settings, after, failure);
    }
    if is_normalized(m.entries) {
        a_rollback_restores_a_normalized_store(m.entries, pending, failure.written as nat);
    }
}

/// The store after a rollback in which nothing failed.
proof fn lemma_undone<S: SecretStore>(
    store: S,
    settings: AppSettings,
    after: StoreModel,
    failure: CopyFailure,
)
    requires
        ended_by_write(store, pending_of(settings), after, failure),
        failure.restored,
    ensures
        after.entries == rolled_back(
            store.model().entries,
            pending_of(settings),
            failure.written as nat,
        ),
{
    let m = store.model();
    let pending = pending_of(settings);
    let n = failure.written as nat;
    let broken = after_handing_over(m, pending, n + 1);
    lemma_pending_values(settings);
    lemma_handed_over(m, pending, n + 1);
    lemma_undone_down_to(broken, m.entries, pending, n, n);
    lemma_rolled_back(m.entries, pending, n);
}

proof fn lemma_undone_down_to(
    m: StoreModel,
    originals: Map<Seq<char>, Seq<char>>,
    pending: Seq<PendingView>,
    left: nat,
    n: nat,
)
    requires
        left <= n <= pending.len(),
        all_valid(pending),
        m.entries == partly_rolled_back(originals, pending, left as int, n),
        rollback_succeeds(m, originals, pending, left),
    ensures
        after_rollback(m, originals, pending, left).entries == partly_rolled_back(
            originals,
            pending,
            0,
            n,
        ),
    decreases left,
{
    if left > 0 {
        let id = pending[left - 1].id;
        assert(super::is_valid_provider_id(id));
        let next = after_undoing(m, originals, id);
        assert(next.entries == partly_rolled_back(originals, pending, left - 1, n));
        lemma_undone_down_to(next, originals, pending, (left - 1) as nat, n);
    }
}

/// Copying the same settings again leaves in the store what the first copy did.
pub proof fn copying_twice_is_copying_once(m: StoreModel, settings: AppSettings)
    requires
        crate::keyed_map::distinct_keys(settings.post_process_api_keys.pairs()),
        all_valid(pending_of(settings)),
        m.healthy(),
    ensures
        ({
            let pending = pending_of(settings);
            let once = after_handing_over(m, pending, pending.len());
            &&& takes_writes(once, pending.len())
            &&& after_handing_over(once, pending, pending.len()).entries == once.entries
        }),
{
    let pending = pending_of(settings);
    pending_ids_are_distinct(settings);
    lemma_pending_values(settings);
    let once = after_handing_over(m, pending, pending.len());
    lemma_healthy_after(m, pending, pending.len());
    lemma_handed_over(m, pending, pending.len());
    lemma_handed_over(once, pending, pending.len());
    lemma_rewriting(once.entries, m.entries, pending, pending.len());
}

proof fn lemma_written(
    entries: Map<Seq<char>, Seq<char>>,
    pending: Seq<PendingView>,
    n: nat,
    i: int,
)
    requires
        0 <= i < n <= pending.len(),
        distinct_ids(pending),
    ensures
        after_writes(entries, pending, n).dom().contains(super::account_name(pending[i].id)),
        after_writes(entries, pending, n)[super::account_name(pending[i].id)] == pending[i].value,
    decreases n,
{
    if i < n - 1 {
        lemma_written(entries, pending, (n - 1) as nat, i);
        assert(pending[i].id != pending[n - 1].id);
        if super::account_name(pending[i].id) == super::account_name(pending[n - 1].id) {
            super::accounts_are_provider_scoped(pending[i].id, pending[n - 1].id);
        }
    }
}

proof fn lemma_rewriting(
    once: Map<Seq<char>, Seq<char>>,
    entries: Map<Seq<char>, Seq<char>>,
    pending: Seq<PendingView>,
    n: nat,
)
    requires
        n <= pending.len(),
        once == after_writes(entries, pending, pending.len()),
        distinct_ids(pending),
    ensures
        after_writes(once, pending, n) == once,
    decreases n,
{
    if n > 0 {
        lemma_rewriting(once, entries, pending, (n - 1) as nat);
        lemma_written(entries, pending, pending.len(), n - 1);
        assert(after_writes(once, pending, n) =~= once);
    }
}

/// Collects the secrets to copy, or finds an id that cannot name an account.
fn collect_pending(settings: &AppSettings) -> (r: Result<Vec<Pending>, SecretStoreError>)
    ensures
        r is Ok == all_valid(pending_of(*settings)),
        r matches Ok(list) ==> pending_views(list@) == pending_of(*settings),
        r is Ok ==> distinct_ids(pending_of(*settings)),
        r matches Err(error) ==> error == SecretStoreError::InvalidProviderId,
{
    let mut pending: Vec<Pending> = Vec::new();
    match &settings.gemini_api_key {
        Some(key) => {
            let text: &str = trim(key.as_str());
            proof {
                crate::text::trimmed_is_empty_exactly_for_blank(key@);
            }
            if text.unicode_len() != 0 {
                pending.push(Pending { id: "gemini".to_owned(), value: text.to_owned() });
            }
        },
        None => {},
    }
    let ghost first = gemini_pending(settings.gemini_api_key);
    proof {
        reveal_strlit("gemini");
        assert(super::is_valid_provider_id("gemini"@));
        assert(pending_views(pending@) =~= first);
        assert(post_process_pending(settings.post_process_api_keys.pairs().take(0)) == Seq::<
            PendingView,
        >::empty());
        assert(first + Seq::<PendingView>::empty() =~= first);
        assert(all_valid(first));
    }
    let keys: &KeyedMap<String, String> = &settings.post_process_api_keys;
    let n: usize = keys.len();
    let mut i: usize = 0;
    while i < n
        invariant
            keys == settings.post_process_api_keys,
            n == keys.pairs().len(),
            crate::keyed_map::distinct_keys(keys.pairs()),
            i <= n,
            first == gemini_pending(settings.gemini_api_key),
            pending_views(pending@) == first + post_process_pending(keys.pairs().take(i as int)),
            all_valid(pending_views(pending@)),
        decreases n - i,
    {
        let ghost shorter = keys.pairs().take(i as int);
        let ghost longer = keys.pairs().take(i + 1);
        let text: &str = trim(keys.value_at(i).as_str());
        proof {
            assert(longer.drop_last() == shorter);
            assert(longer.last() == keys.pairs()[i as int]);
            crate::text::trimmed_is_empty_exactly_for_blank(keys.pairs()[i as int].1@);
        }
        if text.unicode_len() != 0 {
            let mut id: String = "postprocess-".to_owned();
            id.append(keys.key_at(i).as_str());
            let ghost entry = PendingView { id: id@, value: text@ };
            proof {
                assert(post_process_pending(longer) == post_process_pending(shorter).push(entry));
            }
            if provider_account(id.as_str()).is_err() {
                proof {
                    lemma_pending_prefix(keys.pairs(), i + 1);
                    let at = first.len() + post_process_pending(shorter).len();
                    assert(pending_of(*settings)[at as int] == entry);
                    assert(!super::is_valid_provider_id(pending_of(*settings)[at as int].id));
                }
                return Err(SecretStoreError::InvalidProviderId);
            }
            let ghost had = pending_views(pending@);
            let next = Pending { id, value: text.to_owned() };
            proof {
                assert(next@ == entry);
                assert(pending_views(pending@.push(next)) =~= had.push(entry));
                assert(had.push(entry) =~= first + post_process_pending(longer));
                assert forall|j: int| 0 <= j < had.push(entry).len() implies super::is_valid_provider_id(
                    (#[trigger] had.push(entry)[j]).id,
                ) by {
                    if j < had.len() {
                        assert(super::is_valid_provider_id(had[j].id));
                    }
                }
            }
            pending.push(next);
        }
        i += 1;
    }
    proof {
        assert(keys.pairs().take(n as int) == keys.pairs());
        pending_ids_are_distinct(*settings);
    }
    Ok(pending)
}

/// The secrets of the first entries come first.
proof fn lemma_pending_prefix(pairs: Seq<(String, String)>, n: int)
    requires
        0 <= n <= pairs.len(),
    ensures
        post_process_pending(pairs.take(n)).len() <= post_process_pending(pairs).len(),
        forall|i: int|
            0 <= i < post_process_pending(pairs.take(n)).len() ==> #[trigger] post_process_pending(
                pairs,
            )[i] == post_process_pending(pairs.take(n))[i],
    decreases pairs.len() - n,
{
    if n == pairs.len() {
        assert(pairs.take(n) == pairs);
    } else {
        lemma_pending_prefix(pairs, n + 1);
        assert(pairs.take(n + 1).drop_last() == pairs.take(n));
        let shorter = post_process_pending(pairs.take(n));
        let longer = post_process_pending(pairs.take(n + 1));
        assert forall|i: int| 0 <= i < shorter.len() implies #[trigger] post_process_pending(
            pairs,
        )[i] == shorter[i] by {
            assert(longer[i] == shorter[i]);
        }
    }
}

/// The secrets stored now under the ids to copy.
fn read_originals<S: SecretStore>(store: &S, pending: &Vec<Pending>) -> (r: Result<
    Vec<Option<String>>,
    SecretStoreError,
>)
    requires
        all_valid(pending_views(pending@)),
    ensures
        r matches Ok(originals) ==> originals@.len() == pending@.len() && forall|i: int|
            0 <= i < originals@.len() ==> is_original(
                store.model().entries,
                pending_views(pending@)[i].id,
                #[trigger] originals@[i],
            ),
        r is Ok ==> are_read(*store, pending_views(pending@), pending@.len() as int),
        r matches Err(error) ==> read_fails(*store, pending_views(pending@), error),
{
    let mut originals: Vec<Option<String>> = Vec::new();
    let mut i: usize = 0;
    while i < pending.len()
        invariant
            all_valid(pending_views(pending@)),
            i <= pending@.len(),
            originals@.len() == i,
            forall|j: int|
                0 <= j < i ==> is_original(
                    store.model().entries,
                    pending_views(pending@)[j].id,
                    #[trigger] originals@[j],
                ),
            are_read(*store, pending_views(pending@), i as int),
        decreases pending@.len() - i,
    {
        let id: &str = pending[i].id.as_str();
        let read: Result<String, SecretStoreError> = store.get_secret(id);
        proof {
            assert(pending_views(pending@)[i as int].id == id@);
            assert(super::is_valid_provider_id(pending_views(pending@)[i as int].id));
            assert(super::reads_as(*store, id@, super::text_answer(read)));
        }
        match read {
            Ok(value) => {
                originals.push(Some(value));
            },
            Err(SecretStoreError::NotFound) => {
                originals.push(None);
            },
            Err(error) => {
                return Err(error);
            },
        }
        i += 1;
    }
    Ok(originals)
}

/// `original` is what the store holds for `id`.
spec fn is_original(
    entries: Map<Seq<char>, Seq<char>>,
    id: Seq<char>,
    original: Option<String>,
) -> bool {
    let account = super::account_name(id);
    match original {
        Some(value) => entries.dom().contains(account) && value@ == entries[account],
        None => !entries.dom().contains(account),
    }
}

/// Puts the first `written` accounts back as they were, the last one first.
/// Returns whether any of it failed.
fn roll_back<S: SecretStore>(
    store: &mut S,
    pending: &Vec<Pending>,
    originals: &Vec<Option<String>>,
    written: usize,
    Ghost(before): Ghost<Map<Seq<char>, Seq<char>>>,
) -> (r: bool)
    requires
        written <= pending@.len(),
        originals@.len() == pending@.len(),
        all_valid(pending_views(pending@)),
        forall|i: int|
            0 <= i < originals@.len() ==> is_original(
                before,
                pending_views(pending@)[i].id,
                #[trigger] originals@[i],
            ),
        old(store).model().entries == after_writes(before, pending_views(pending@), written as nat),
    ensures
        final(store).model() == after_rollback(
            old(store).model(),
            before,
            pending_views(pending@),
            written as nat,
        ),
        r == !rollback_succeeds(
            old(store).model(),
            before,
            pending_views(pending@),
            written as nat,
        ),
        differ_only_in(pending_views(pending@), before, final(store).model().entries),
{
    let mut failed: bool = false;
    let mut index: usize = written;
    let ghost list = pending_views(pending@);
    proof {
        assert forall|account: Seq<char>|
            !is_touched(list, 0, list.len() as int, account) implies (#[trigger] before.dom().contains(
            account,
        ) == store.model().entries.dom().contains(account)) && (before.dom().contains(account)
            ==> before[account] == store.model().entries[account]) by {
            if is_touched(list, 0, written as int, account) {
                let i = choose|i: int|
                    0 <= i < written && super::account_name((#[trigger] list[i]).id) == account;
                assert(super::account_name(list[i].id) == account);
                assert(is_touched(list, 0, list.len() as int, account));
            }
            lemma_writes_touch(before, list, written as nat, account);
        }
    }
    while index > 0
        invariant
            index <= written <= pending@.len(),
            list == pending_views(pending@),
            originals@.len() == pending@.len(),
            all_valid(list),
            forall|i: int|
                0 <= i < originals@.len() ==> is_original(
                    before,
                    list[i].id,
                    #[trigger] originals@[i],
                ),
            after_rollback(old(store).model(), before, list, written as nat) == after_rollback(
                store.model(),
                before,
                list,
                index as nat,
            ),
            rollback_succeeds(old(store).model(), before, list, written as nat) == (!failed
                && rollback_succeeds(store.model(), before, list, index as nat)),
            differ_only_in(list, before, store.model().entries),
        decreases index,
    {
        index -= 1;
        let id: &str = pending[index].id.as_str();
        let ghost held = store.model().entries;
        let ghost account = super::account_name(id@);
        proof {
            assert(list[index as int].id == id@);
            assert(is_original(before, list[index as int].id, originals@[index as int]));
            assert(super::account_name(list[index as int].id) == account);
            assert(is_touched(list, 0, list.len() as int, account));
        }
        let undone: Result<(), SecretStoreError> = match &originals[index] {
            Some(original) => {
                proof {
                    crate::text::trimmed_is_empty_exactly_for_blank(original@);
                }
                if trim(original.as_str()).unicode_len() != 0 {
                    store.set_secret(id, original.as_str())
                } else {
                    store.delete_secret(id)
                }
            },
            None => store.delete_secret(id),
        };
        if undone.is_err() {
            failed = true;
        }
        proof {
            assert forall|other: Seq<char>|
                !is_touched(list, 0, list.len() as int, other) implies (#[trigger] before.dom().contains(
                other,
            ) == store.model().entries.dom().contains(other)) && (before.dom().contains(other)
                ==> before[other] == store.model().entries[other]) by {
                assert(other != account);
                assert(before.dom().contains(other) == held.dom().contains(other));
            }
        }
    }
    failed
}

/// A copy that failed.
#[derive(Debug, Clone, Copy, PartialEq, Eq)]
pub struct CopyFailure {
    /// The error of the operation that failed.
    pub error: SecretStoreError,
    /// How many secrets had been written before.
    pub written: usize,
    /// Whether all of them were put back.
    pub restored: bool,
}

/// Copies every non-blank plaintext secret of the settings into the store, and
/// says of a failure how far it got and whether it was undone.
///
/// All account names and all current values are read before the first write. If
/// a later write fails, every account that was already written is put back; a
/// blank original, which holds no secret, is put back by deleting it.
pub fn copy_or_roll_back<S: SecretStore>(store: &mut S, settings: &AppSettings) -> (r: Result<
    MigrationReport,
    CopyFailure,
>)
    ensures
        copy_ends(
            *old(store),
            pending_of(*settings),
            final(store).model(),
            match r {
                Ok(report) => Ok(crate::text::texts(report.migrated_accounts@)),
                Err(failure) => Err(failure),
            },
        ),
        r matches Ok(report) ==> final(store).model().entries == after_writes(
            old(store).model().entries,
            pending_of(*settings),
            pending_of(*settings).len(),
        ),
        r matches Ok(report) ==> crate::text::texts(report.migrated_accounts@).no_duplicates(),
        r matches Err(failure) ==> failure.restored ==> final(store).model().entries
            == rolled_back(
            old(store).model().entries,
            pending_of(*settings),
            failure.written as nat,
        ),
        r matches Err(failure) ==> old(store).model().recovers() ==> failure.restored,
        differ_only_in(
            pending_of(*settings),
            old(store).model().entries,
            final(store).model().entries,
        ),
        final(store).model().readable == old(store).model().readable,
        old(store).model().healthy() ==> final(store).model().healthy(),
        all_valid(pending_of(*settings)) && (old(store).model().healthy() || pending_of(
            *settings,
        ).len() == 0) ==> r is Ok,
{
    let ghost m = store.model();
    let ghost before = m.entries;
    let pending: Vec<Pending> = match collect_pending(settings) {
        Ok(list) => list,
        Err(error) => {
            let failure = CopyFailure { error, written: 0, restored: true };
            proof {
                lemma_nothing_written(before, pending_of(*settings));
                assert(refused(pending_of(*settings), m, store.model(), failure));
            }
            return Err(failure);
        },
    };
    let ghost list = pending_views(pending@);
    proof {
        lemma_nothing_written(before, list);
        lemma_pending_values(*settings);
    }
    let originals: Vec<Option<String>> = match read_originals(&*store, &pending) {
        Ok(originals) => originals,
        Err(error) => {
            let failure = CopyFailure { error, written: 0, restored: true };
            proof {
                assert(ended_by_read(*store, list, store.model(), failure));
            }
            return Err(failure);
        },
    };
    let mut accounts: Vec<String> = Vec::new();
    let mut written: usize = 0;
    while written < pending.len()
        invariant
            written <= pending@.len(),
            list == pending_views(pending@),
            list == pending_of(*settings),
            all_valid(list),
            distinct_ids(list),
            are_read(*old(store), list, list.len() as int),
            forall|i: int|
                0 <= i < list.len() ==> is_normal_value((#[trigger] list[i]).value),
            originals@.len() == pending@.len(),
            forall|i: int|
                0 <= i < originals@.len() ==> is_original(
                    before,
                    list[i].id,
                    #[trigger] originals@[i],
                ),
            m == old(store).model(),
            before == m.entries,
            takes_writes(m, written as nat),
            store.model() == after_handing_over(m, list, written as nat),
            accounts@.len() == written,
            forall|i: int| 0 <= i < written ==> (#[trigger] accounts@[i])@ == list[i].id,
        decreases pending@.len() - written,
    {
        proof {
            assert(pending@[written as int]@ == list[written as int]);
            assert(is_normal_value(list[written as int].value));
            assert(super::is_valid_provider_id(list[written as int].id));
            lemma_handed_over(m, list, written as nat);
            assert((store.model().write_faults)(0) == (m.write_faults)(written as nat));
        }
        match store.set_secret(pending[written].id.as_str(), pending[written].value.as_str()) {
            Ok(_) => {},
            Err(error) => {
                let ghost broken = store.model();
                proof {
                    assert(broken == after_handing_over(m, list, written as nat + 1));
                    lemma_handed_over(m, list, written as nat + 1);
                    lemma_rollback_keeps(broken, before, list, written as nat);
                    if m.recovers() {
                        lemma_recovered(m, list, written as nat);
                    }
                }
                let failed: bool = roll_back(
                    store,
                    &pending,
                    &originals,
                    written,
                    Ghost(before),
                );
                let failure = CopyFailure { error, written, restored: !failed };
                proof {
                    assert(ended_by_write(*old(store), list, store.model(), failure));
                    if failure.restored {
                        lemma_undone(*old(store), *settings, store.model(), failure);
                    }
                }
                return Err(failure);
            },
        }
        accounts.push(pending[written].id.clone());
        written += 1;
    }
    proof {
        lemma_handed_over(m, list, list.len());
        if m.healthy() {
            lemma_healthy_after(m, list, list.len());
        }
        assert(crate::text::texts(accounts@) =~= list.map_values(|p: PendingView| p.id));
        assert forall|account: Seq<char>|
            !is_touched(list, 0, list.len() as int, account) implies (#[trigger] before.dom().contains(
            account,
        ) == store.model().entries.dom().contains(account)) && (before.dom().contains(account)
            ==> before[account] == store.model().entries[account]) by {
            lemma_writes_touch(before, list, list.len(), account);
        }
    }
    Ok(MigrationReport { migrated_accounts: accounts })
}

/// Copies every non-blank plaintext secret of the settings into the store; see
/// [`copy_or_roll_back`]. Where a failed copy could not be undone, the error is
/// [`SecretStoreError::BackendFailure`].
pub fn copy_legacy_secrets<S: SecretStore>(store: &mut S, settings: &AppSettings) -> (r: Result<
    MigrationReport,
    SecretStoreError,
>)
    ensures
        exists|end: Result<Seq<Seq<char>>, CopyFailure>|
            {
                &&& #[trigger] copy_ends(
                    *old(store),
                    pending_of(*settings),
                    final(store).model(),
                    end,
                )
                &&& match end {
                    Ok(ids) => r is Ok && crate::text::texts(r->Ok_0.migrated_accounts@) == ids,
                    Err(failure) => r == Err::<MigrationReport, SecretStoreError>(
                        told_error(failure),
                    ),
                }
                &&& old(store).model().recovers() && end is Err ==> end->Err_0.restored
                &&& end is Err && end->Err_0.restored ==> final(store).model().entries
                    == rolled_back(
                    old(store).model().entries,
                    pending_of(*settings),
                    end->Err_0.written as nat,
                )
            },
        r is Ok ==> final(store).model().entries == after_writes(
            old(store).model().entries,
            pending_of(*settings),
            pending_of(*settings).len(),
        ),
        r matches Ok(report) ==> crate::text::texts(report.migrated_accounts@).no_duplicates(),
        !all_valid(pending_of(*settings)) ==> r == Err::<MigrationReport, SecretStoreError>(
            SecretStoreError::InvalidProviderId,
        ) && final(store).model() == old(store).model(),
        differ_only_in(
            pending_of(*settings),
            old(store).model().entries,
            final(store).model().entries,
        ),
        final(store).model().readable == old(store).model().readable,
        old(store).model().healthy() ==> final(store).model().healthy(),
        all_valid(pending_of(*settings)) && (old(store).model().healthy() || pending_of(
            *settings,
        ).len() == 0) ==> r is Ok,
{
    proof {
        lemma_nothing_written(store.model().entries, pending_of(*settings));
    }
    match copy_or_roll_back(store, settings) {
        Ok(report) => Ok(report),
        Err(failure) => Err(
            if failure.restored {
                failure.error
            } else {
                SecretStoreError::BackendFailure
            },
        ),
    }
}

/// A value that is stored as it is.
spec fn is_normal_value(value: Seq<char>) -> bool {
    !crate::text::is_blank(value) && crate::text::trimmed(value) == value
}

proof fn lemma_trimmed_is_normal(text: Seq<char>)
    requires
        !crate::text::is_blank(text),
    ensures
        is_normal_value(crate::text::trimmed(text)),
{
    crate::text::trimming_twice_changes_nothing(text);
    crate::text::trimmed_is_empty_exactly_for_blank(text);
    crate::text::trimmed_is_empty_exactly_for_blank(crate::text::trimmed(text));
}

proof fn lemma_post_process_values(pairs: Seq<(String, String)>)
    ensures
        forall|i: int|
            0 <= i < post_process_pending(pairs).len() ==> is_normal_value(
                (#[trigger] post_process_pending(pairs)[i]).value,
            ),
    decreases pairs.len(),
{
    if pairs.len() > 0 {
        lemma_post_process_values(pairs.drop_last());
        let before = post_process_pending(pairs.drop_last());
        let all = post_process_pending(pairs);
        if !crate::text::is_blank(pairs.last().1@) {
            lemma_trimmed_is_normal(pairs.last().1@);
        }
        assert forall|i: int| 0 <= i < all.len() implies is_normal_value(
            (#[trigger] all[i]).value,
        ) by {
            if i < before.len() {
                assert(all[i] == before[i]);
            }
        }
    }
}

proof fn lemma_pending_values(settings: AppSettings)
    ensures
        forall|i: int|
            0 <= i < pending_of(settings).len() ==> is_normal_value(
                (#[trigger] pending_of(settings)[i]).value,
            ),
{
    lemma_post_process_values(settings.post_process_api_keys.pairs());
    if let Some(key) = settings.gemini_api_key {
        if !crate::text::is_blank(key@) {
            lemma_trimmed_is_normal(key@);
        }
    }
}

proof fn lemma_nothing_written(entries: Map<Seq<char>, Seq<char>>, pending: Seq<PendingView>)
    ensures
        rolled_back(entries, pending, 0) == entries,
        differ_only_in(pending, entries, entries),
{
    assert(rolled_back(entries, pending, 0) =~= entries);
}

/// The keys of `pairs` with every value empty.
pub open spec fn with_empty_values(
    before: Seq<(String, String)>,
    after: Seq<(String, String)>,
) -> bool {
    &&& after.len() == before.len()
    &&& forall|i: int|
        0 <= i < before.len() ==> (#[trigger] after[i]).0 == before[i].0 && after[i].1@ == ""@
}

/// Removes every plaintext credential from the settings. The provider ids stay.
pub fn clear_legacy_plaintext(settings: &mut AppSettings)
    ensures
        with_empty_values(
            old(settings).post_process_api_keys.pairs(),
            final(settings).post_process_api_keys.pairs(),
        ),
        *final(settings) == (AppSettings {
            gemini_api_key: None,
            post_process_api_keys: final(settings).post_process_api_keys,
            ..*old(settings)
        }),
        final(settings).gemini_api_key is None,
        final(settings).post_process_api_keys.pairs().len() == old(
            settings,
        ).post_process_api_keys.pairs().len(),
        forall|i: int|
            0 <= i < old(settings).post_process_api_keys.pairs().len() ==> {
                let (id, key) = #[trigger] final(settings).post_process_api_keys.pairs()[i];
                &&& id == old(settings).post_process_api_keys.pairs()[i].0
                &&& key@.len() == 0
            },
{
    proof {
        reveal_strlit("");
    }
    settings.gemini_api_key = None;
    let n: usize = settings.post_process_api_keys.len();
    let mut i: usize = 0;
    while i < n
        invariant
            n == settings.post_process_api_keys.pairs().len(),
            n == old(settings).post_process_api_keys.pairs().len(),
            i <= n,
            forall|j: int|
                0 <= j < n ==> (#[trigger] settings.post_process_api_keys.pairs()[j]).0 == old(
                    settings,
                ).post_process_api_keys.pairs()[j].0,
            forall|j: int|
                0 <= j < i ==> (#[trigger] settings.post_process_api_keys.pairs()[j]).1@ == ""@,
            *settings == (AppSettings {
                gemini_api_key: None,
                post_process_api_keys: settings.post_process_api_keys,
                ..*old(settings)
            }),
        decreases n - i,
    {
        settings.post_process_api_keys.set_value_at(i, "".to_owned());
        i += 1;
    }
}

/// The secrets to copy are found one by one, in order: the Gemini key under its
/// own name, every key of a post-processing provider under the provider's name
/// with a fixed prefix, each trimmed, and no blank one.
pub proof fn every_key_that_is_not_blank_is_copied(
    first: Seq<(String, String)>,
    second: Seq<(String, String)>,
    provider: String,
    key: String,
)
    ensures
        post_process_pending(first + second) == post_process_pending(first) + post_process_pending(
            second,
        ),
        !crate::text::is_blank(key@) ==> post_process_pending(seq![(provider, key)]) == seq![
            PendingView {
                id: "postprocess-"@ + provider@,
                value: crate::text::trimmed(key@),
            },
        ],
        crate::text::is_blank(key@) ==> post_process_pending(seq![(provider, key)]).len() == 0,
        !crate::text::is_blank(key@) ==> gemini_pending(Some(key)) == seq![
            PendingView { id: "gemini"@, value: crate::text::trimmed(key@) },
        ],
        crate::text::is_blank(key@) ==> gemini_pending(Some(key)).len() == 0,
        gemini_pending(None).len() == 0,
    decreases second.len(),
{
    if second.len() == 0 {
        assert(first + second == first);
    } else {
        let whole = first + second;
        every_key_that_is_not_blank_is_copied(first, second.drop_last(), provider, key);
        assert(whole.drop_last() == first + second.drop_last());
        assert(whole.last() == second.last());
    }
    let one = seq![(provider, key)];
    assert(one.drop_last().len() == 0);
    assert(one.last() == (provider, key));
    assert(post_process_pending(one.drop_last()) == Seq::<PendingView>::empty());
}

/// The Gemini key goes before those of the post-processing providers, and there
/// is nothing else to copy.
pub proof fn what_there_is_to_copy(settings: AppSettings)
    ensures
        pending_of(settings) == gemini_pending(settings.gemini_api_key) + post_process_pending(
            settings.post_process_api_keys.pairs(),
        ),
{
}

/// Once everything is written, each secret to copy is stored under its own
/// account with its own value, and every account that none belongs to is as it
/// was.
pub proof fn a_finished_copy_stores_every_secret(
    entries: Map<Seq<char>, Seq<char>>,
    settings: AppSettings,
    i: int,
    account: Seq<char>,
)
    requires
        crate::keyed_map::distinct_keys(settings.post_process_api_keys.pairs()),
        0 <= i < pending_of(settings).len(),
    ensures
        ({
            let pending = pending_of(settings);
            let after = after_writes(entries, pending, pending.len());
            let own = "provider/"@ + pending[i].id + "/api-key"@;
            &&& after.dom().contains(own)
            &&& after[own] == pending[i].value
            &&& !is_touched(pending, 0, pending.len() as int, account) ==> after.dom().contains(
                account,
            ) == entries.dom().contains(account) && after[account] == entries[account]
        }),
{
    let pending = pending_of(settings);
    pending_ids_are_distinct(settings);
    lemma_written(entries, pending, pending.len(), i);
    if !is_touched(pending, 0, pending.len() as int, account) {
        lemma_untouched(entries, pending, pending.len(), account);
    }
}

proof fn lemma_untouched(
    entries: Map<Seq<char>, Seq<char>>,
    pending: Seq<PendingView>,
    n: nat,
    account: Seq<char>,
)
    requires
        n <= pending.len(),
        !is_touched(pending, 0, n as int, account),
    ensures
        after_writes(entries, pending, n).dom().contains(account) == entries.dom().contains(account),
        after_writes(entries, pending, n)[account] == entries[account],
    decreases n,
{
    if n > 0 {
        if is_touched(pending, 0, n - 1, account) {
            let k = choose|k: int|
                0 <= k < n - 1 && super::account_name((#[trigger] pending[k]).id) == account;
            assert(0 <= k < n && super::account_name(pending[k].id) == account);
        }
        assert(super::account_name(pending[n - 1].id) != account);
        lemma_untouched(entries, pending, (n - 1) as nat, account);
    }
}

/// Putting accounts back brings each secret back, without the white space
/// around it, drops only blank ones, and leaves every other account alone.
pub proof fn a_rollback_brings_every_secret_back(
    entries: Map<Seq<char>, Seq<char>>,
    pending: Seq<PendingView>,
    n: nat,
    account: Seq<char>,
)
    ensures
        entries.dom().contains(account) && !crate::text::is_blank(entries[account]) ==> rolled_back(
            entries,
            pending,
            n,
        ).dom().contains(account) && crate::text::trimmed(
            rolled_back(entries, pending, n)[account],
        ) == crate::text::trimmed(entries[account]),
        !entries.dom().contains(account) ==> !rolled_back(entries, pending, n).dom().contains(
            account,
        ),
        !is_touched(pending, 0, n as int, account) ==> rolled_back(
            entries,
            pending,
            n,
        ).dom().contains(account) == entries.dom().contains(account),
        !is_touched(pending, 0, n as int, account) && entries.dom().contains(account)
            ==> rolled_back(entries, pending, n)[account] == entries[account],
{
    crate::text::trimming_twice_changes_nothing(entries[account]);
}

/// A copy that was undone tells its own error; one that was not tells that the
/// backend failed.
pub proof fn what_is_told_of_a_failed_copy(failure: CopyFailure)
    ensures
        failure.restored ==> told_error(failure) == failure.error,
        !failure.restored ==> told_error(failure) == SecretStoreError::BackendFailure,
{
}

/// Clearing the keys keeps every provider and leaves no key behind.
pub proof fn cleared_keys_are_empty(
    before: Seq<(String, String)>,
    after: Seq<(String, String)>,
    i: int,
)
    requires
        with_empty_values(before, after),
        0 <= i < before.len(),
    ensures
        after.len() == before.len(),
        after[i].0 == before[i].0,
        after[i].1@.len() == 0,
{
    reveal_strlit("");
}

/// An account is put back by a write exactly where a secret that is not blank
/// was stored in it, and otherwise by a deletion.
pub proof fn how_an_account_is_put_back(
    m: StoreModel,
    originals: Map<Seq<char>, Seq<char>>,
    id: Seq<char>,
)
    ensures
        ({
            let account = "provider/"@ + id + "/api-key"@;
            let had = originals.dom().contains(account) && !crate::text::is_blank(
                originals[account],
            );
            &&& is_written_back(originals, id) <==> had
            &&& had ==> undo_answer(m, originals, id) == m.write_answer(id, originals[account])
                && after_undoing(m, originals, id) == m.after_write(id, originals[account])
            &&& !had ==> undo_answer(m, originals, id) == m.delete_answer(id) && after_undoing(
                m,
                originals,
                id,
            ) == m.after_delete(id)
        }),
{
}

/// The secrets can be copied exactly where each of their ids can name an
/// account.
pub proof fn one_invalid_id_refuses_the_copy(pending: Seq<PendingView>, one: PendingView)
    ensures
        all_valid(Seq::empty()),
        all_valid(pending.push(one)) <==> all_valid(pending) && super::is_valid_provider_id(one.id),
{
    let longer = pending.push(one);
    assert(longer[pending.len() as int] == one);
    if all_valid(longer) {
        assert forall|i: int| 0 <= i < pending.len() implies super::is_valid_provider_id(
            (#[trigger] pending[i]).id,
        ) by {
            assert(longer[i] == pending[i]);
        }
    }
}

/// A copy that succeeded reports every id that it copied, in order, and no
/// other.
pub proof fn a_finished_copy_reports_every_id<S: SecretStore>(
    store: S,
    pending: Seq<PendingView>,
    after: StoreModel,
    ids: Seq<Seq<char>>,
    i: int,
)
    requires
        copy_ends(store, pending, after, Ok(ids)),
        0 <= i < pending.len(),
    ensures
        ids.len() == pending.len(),
        ids[i] == pending[i].id,
        super::is_valid_provider_id(pending[i].id),
{
}

/// A copy that failed before its first write left the store alone, and one that
/// failed later wrote nothing behind the failed secret.
pub proof fn a_failed_copy_stops_at_its_failure<S: SecretStore>(
    store: S,
    pending: Seq<PendingView>,
    after: StoreModel,
    failure: CopyFailure,
)
    requires
        copy_ends(store, pending, after, Err(failure)),
    ensures
        !all_valid(pending) ==> failure.error == SecretStoreError::InvalidProviderId && after
            == store.model(),
        failure.written > 0 ==> failure.written < pending.len() && (store.model().write_faults)(
            failure.written as nat,
        ) == Some(failure.error),
{
}

} // verus!
