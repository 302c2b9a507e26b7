//! What every storage backend does with a loaded store: read the active
//! credentials, mutate them, attach or remove profiles. The backends that
//! keep the store on disk or in a keyring load and save around these
//! decisions; the in-memory backend is complete here.

use vstd::prelude::*;
use super::account_store::{
    AccountProfileMetadata, AuthAccountStore, StoreView, spec_legacy_store, spec_remove_profile,
    spec_save_profile, spec_store_error,
};
use super::error::{AuthError, ErrorKind};
use super::keys::{compute_store_key, spec_store_key};
use super::model::{AuthDotJson, AuthView};
use super::mutation::{ActiveAuthMutation, MutationView, spec_apply, spec_seed};
use crate::assoc::{lemma_map_of_index, spec_map_of};

verus! {

/// The active credentials of a loaded store.
pub open spec fn spec_active_of(slot: Option<StoreView>) -> Option<AuthView> {
    match slot {
        Some(s) => Some(s.active_auth),
        None => None,
    }
}

/// The store a mutation produces from what was loaded: the loaded store (or
/// the mutation's seed as a legacy store) with its active credentials
/// changed; profiles and the pending flag are kept.
pub open spec fn spec_mutated(slot: Option<StoreView>, m: MutationView) -> Result<StoreView, AuthError> {
    let base = match slot {
        Some(s) => Some(s),
        None => match spec_seed(m) {
            Some(a) => Some(spec_legacy_store(a)),
            None => None,
        },
    };
    match base {
        None => Err(AuthError::AuthDataUnavailable),
        Some(s) => Ok(StoreView { active_auth: spec_apply(m, s.active_auth), ..s }),
    }
}

/// The store after saving a profile into what was loaded.
pub open spec fn spec_profile_saved(slot: Option<StoreView>, md: super::account_store::MetadataView, auth: AuthView) -> Result<StoreView, AuthError> {
    match slot {
        None => Err(AuthError::ActiveAuthDataUnavailable),
        Some(s) => spec_save_profile(s, md, auth),
    }
}

/// The store and removed credentials after removing a profile from what was
/// loaded.
pub open spec fn spec_profile_removed(slot: Option<StoreView>, id: Seq<char>) -> Result<(StoreView, Option<AuthView>), AuthError> {
    match slot {
        None => Err(AuthError::ActiveAuthDataUnavailable),
        Some(s) => spec_remove_profile(s, id),
    }
}

pub open spec fn store_opt_view(o: Option<AuthAccountStore>) -> Option<StoreView> {
    match o {
        Some(s) => Some(s@),
        None => None,
    }
}

/// What an in-memory map of stores holds under `key`.
pub open spec fn spec_mem_read(m: Map<Seq<char>, StoreView>, key: Seq<char>) -> Option<StoreView> {
    if m.dom().contains(key) {
        Some(m[key])
    } else {
        None
    }
}

/// The map after saving `s` under `key`: an invalid store leaves it as it
/// was.
pub open spec fn spec_mem_saved(m: Map<Seq<char>, StoreView>, key: Seq<char>, s: StoreView) -> Map<Seq<char>, StoreView> {
    if spec_store_error(s).is_some() {
        m
    } else {
        m.insert(key, s)
    }
}

/// The active credentials of a loaded store.
pub fn active_auth_of(loaded: Option<AuthAccountStore>) -> (r: Option<AuthDotJson>)
    ensures
        match r {
            Some(a) => spec_active_of(store_opt_view(loaded)) == Some(a@),
            None => loaded.is_none(),
        },
{
    match loaded {
        Some(store) => Some(store.active_auth),
        None => None,
    }
}

/// The store a plain save of credentials writes: legacy, without profiles.
pub fn store_for_save(auth: &AuthDotJson) -> (s: AuthAccountStore)
    ensures
        s@ == spec_legacy_store(auth@),
{
    AuthAccountStore::legacy(auth.clone())
}

/// Applies a mutation to what was loaded; the caller saves the result and
/// returns its active credentials.
pub fn plan_mutate_active(loaded: Option<AuthAccountStore>, mutation: ActiveAuthMutation) -> (r: Result<AuthAccountStore, AuthError>)
    ensures
        match spec_mutated(store_opt_view(loaded), mutation@) {
            Ok(s) => r matches Ok(t) && t@ == s,
            Err(e) => r == Err::<AuthAccountStore, AuthError>(e),
        },
{
    let mut store = match loaded {
        Some(s) => s,
        None => match mutation.seed() {
            Some(a) => AuthAccountStore::legacy(a),
            None => return Err(AuthError::AuthDataUnavailable),
        },
    };
    mutation.apply(&mut store.active_auth);
    Ok(store)
}

/// Saves a profile into what was loaded; the caller saves the result.
pub fn plan_save_profile(loaded: Option<AuthAccountStore>, metadata: AccountProfileMetadata, auth: AuthDotJson) -> (r: Result<AuthAccountStore, AuthError>)
    ensures
        match spec_profile_saved(store_opt_view(loaded), metadata@, auth@) {
            Ok(s) => r matches Ok(t) && t@ == s,
            Err(e) => r == Err::<AuthAccountStore, AuthError>(e),
        },
{
    let mut store = match loaded {
        Some(s) => s,
        None => return Err(AuthError::ActiveAuthDataUnavailable),
    };
    match store.save_profile(metadata, auth) {
        Ok(()) => Ok(store),
        Err(e) => Err(e),
    }
}

/// Removes a profile from what was loaded; the caller saves the store only
/// when something was removed.
pub fn plan_remove_inactive_profile(loaded: Option<AuthAccountStore>, profile_id: &str) -> (r: Result<(AuthAccountStore, Option<AuthDotJson>), AuthError>)
    ensures
        match spec_profile_removed(store_opt_view(loaded), profile_id@) {
            Ok((s, removed)) => r matches Ok((t, a)) && t@ == s && match a {
                Some(x) => removed == Some(x@),
                None => removed.is_none(),
            },
            Err(e) => r == Err::<(AuthAccountStore, Option<AuthDotJson>), AuthError>(e),
        },
{
    let mut store = match loaded {
        Some(s) => s,
        None => return Err(AuthError::ActiveAuthDataUnavailable),
    };
    match store.remove_inactive_profile(profile_id) {
        Ok(removed) => Ok((store, removed)),
        Err(e) => Err(e),
    }
}

/// In-memory stores, one per store key (what the process-wide ephemeral
/// map holds).
pub struct EphemeralStores {
    keys: Vec<String>,
    stores: Vec<AuthAccountStore>,
}

impl EphemeralStores {
    pub closed spec fn key_views(&self) -> Seq<Seq<char>> {
        self.keys@.map_values(|s: String| s@)
    }

    pub closed spec fn store_views(&self) -> Seq<StoreView> {
        self.stores@.map_values(|s: AuthAccountStore| s@)
    }

    pub closed spec fn wf(&self) -> bool {
        &&& self.keys@.len() == self.stores@.len()
        &&& self.key_views().no_duplicates()
    }

    pub closed spec fn view(&self) -> Map<Seq<char>, StoreView> {
        spec_map_of(self.key_views(), self.store_views())
    }

    pub fn new() -> (m: Self)
        ensures
            m.wf(),
            m.view() == Map::<Seq<char>, StoreView>::empty(),
    {
        let m = EphemeralStores { keys: Vec::new(), stores: Vec::new() };
        assert(m.key_views() =~= Seq::empty());
        m
    }

    proof fn lemma_view(&self)
        requires
            self.wf(),
        ensures
            self.view().dom() == self.key_views().to_set(),
            forall|i: int| 0 <= i < self.keys@.len() ==> #[trigger] self.view()[self.keys@[i]@] == self.stores@[i]@,
    {
        lemma_map_of_index(self.key_views(), self.store_views());
        assert forall|i: int| 0 <= i < self.keys@.len() implies #[trigger] self.view()[self.keys@[i]@] == self.stores@[i]@ by {
            assert(self.key_views()[i] == self.keys@[i]@);
            assert(self.store_views()[i] == self.stores@[i]@);
        }
    }

    fn position(&self, key: &String) -> (r: Option<usize>)
        requires
            self.wf(),
        ensures
            match r {
                Some(i) => i < self.keys@.len() && self.keys@[i as int]@ == key@ && self.view().dom().contains(key@),
                None => !self.view().dom().contains(key@),
            },
    {
        proof {
            self.lemma_view();
        }
        let n = self.keys.len();
        for i in 0..n
            invariant
                n == self.keys@.len(),
                self.wf(),
                self.view().dom() == self.key_views().to_set(),
                forall|j: int| 0 <= j < i ==> self.keys@[j]@ != key@,
        {
            if self.keys[i] == *key {
                assert(self.key_views()[i as int] == key@);
                return Some(i);
            }
        }
        proof {
            if self.key_views().to_set().contains(key@) {
                let j = choose|j: int| 0 <= j < self.key_views().len() && self.key_views()[j] == key@;
                assert(self.keys@[j]@ == key@);
            }
        }
        None
    }

    /// A copy of the store kept under `key`.
    pub fn get(&self, key: &String) -> (r: Option<AuthAccountStore>)
        requires
            self.wf(),
        ensures
            store_opt_view(r) == (if self.view().dom().contains(key@) {
                Some(self.view()[key@])
            } else {
                None
            }),
    {
        proof {
            self.lemma_view();
        }
        match self.position(key) {
            Some(i) => Some(self.stores[i].clone()),
            None => None,
        }
    }

    /// Takes the store under `key` out of the map.
    pub fn take(&mut self, key: &String) -> (r: Option<AuthAccountStore>)
        requires
            old(self).wf(),
        ensures
            final(self).wf(),
            final(self).view() == old(self).view().remove(key@),
            store_opt_view(r) == (if old(self).view().dom().contains(key@) {
                Some(old(self).view()[key@])
            } else {
                None
            }),
    {
        proof {
            self.lemma_view();
        }
        match self.position(key) {
            None => {
                assert(self.view().remove(key@) =~= self.view());
                None
            },
            Some(i) => {
                let ghost kv = self.key_views();
                let ghost sv = self.store_views();
                let k = self.keys.remove(i);
                let s = self.stores.remove(i);
                assert(self.key_views() =~= kv.remove(i as int));
                assert(self.store_views() =~= sv.remove(i as int));
                proof {
                    assert forall|a: int, b: int| 0 <= a < b < self.key_views().len() implies self.key_views()[a] != self.key_views()[b] by {
                        let a0 = if a < i { a } else { a + 1 };
                        let b0 = if b < i { b } else { b + 1 };
                        assert(self.key_views()[a] == kv[a0]);
                        assert(self.key_views()[b] == kv[b0]);
                    }
                    self.lemma_view();
                    lemma_map_of_index(kv, sv);
                    assert(self.view().dom() =~= old(self).view().dom().remove(key@)) by {
                        assert forall|x: Seq<char>| self.view().dom().contains(x) <==> old(self).view().dom().remove(key@).contains(x) by {
                            if self.key_views().to_set().contains(x) {
                                let j = choose|j: int| 0 <= j < self.key_views().len() && self.key_views()[j] == x;
                                let j0 = if j < i { j } else { j + 1 };
                                assert(kv[j0] == x);
                                assert(kv.to_set().contains(x));
                                assert(kv.no_duplicates());
                                assert(kv[i as int] == key@);
                                assert(x != key@);
                            }
                            if old(self).view().dom().remove(key@).contains(x) {
                                let j = choose|j: int| 0 <= j < kv.len() && kv[j] == x;
                                assert(j != i);
                                let j1 = if j < i { j } else { j - 1 };
                                assert(self.key_views()[j1] == x);
                            }
                        }
                    }
                    assert forall|x: Seq<char>| #[trigger] self.view().dom().contains(x) implies self.view()[x] == old(self).view()[x] by {
                        let j = choose|j: int| 0 <= j < self.key_views().len() && self.key_views()[j] == x;
                        let j0 = if j < i { j } else { j + 1 };
                        assert(self.keys@[j]@ == x);
                        assert(old(self).keys@[j0]@ == x);
                    }
                    assert(self.view() =~= old(self).view().remove(key@));
                }
                Some(s)
            },
        }
    }

    /// Puts `store` under `key`, replacing what was there.
    pub fn put(&mut self, key: String, store: AuthAccountStore)
        requires
            old(self).wf(),
        ensures
            final(self).wf(),
            final(self).view() == old(self).view().insert(key@, store@),
    {
        let _ = self.take(&key);
        let ghost mid = self.view();
        let ghost kv = self.key_views();
        let ghost sv = self.store_views();
        let ghost k = key@;
        let ghost v = store@;
        proof {
            self.lemma_view();
        }
        self.keys.push(key);
        self.stores.push(store);
        assert(self.key_views() =~= kv.push(k));
        assert(self.store_views() =~= sv.push(v));
        assert(self.key_views().drop_last() =~= kv);
        assert(self.store_views().drop_last() =~= sv);
        assert forall|a: int, b: int| 0 <= a < b < self.key_views().len() implies self.key_views()[a] != self.key_views()[b] by {
            if b == self.key_views().len() - 1 {
                assert(kv.to_set().contains(kv[a]));
            }
        }
        assert(self.view() =~= mid.insert(k, v));
        assert(mid.insert(k, v) =~= old(self).view().insert(k, v));
    }
}

/// The in-memory backend for one Codex home.
pub struct EphemeralAuthStorage {
    pub codex_home: String,
}

impl EphemeralAuthStorage {
    pub fn new(codex_home: String) -> (s: Self)
        ensures
            s.codex_home@ == codex_home@,
    {
        EphemeralAuthStorage { codex_home }
    }

    pub open spec fn spec_key(&self) -> Seq<char> {
        spec_store_key(self.codex_home@)
    }

    /// The store kept for this home.
    pub fn load_store(&self, stores: &EphemeralStores) -> (r: Result<Option<AuthAccountStore>, AuthError>)
        requires
            stores.wf(),
        ensures
            r matches Ok(o) && store_opt_view(o) == spec_mem_read(stores.view(), self.spec_key()),
    {
        let key = compute_store_key(self.codex_home.as_str());
        Ok(stores.get(&key))
    }

    /// Keeps a valid store for this home; an invalid one is refused.
    pub fn save_store(&self, stores: &mut EphemeralStores, store: &AuthAccountStore) -> (r: Result<(), AuthError>)
        requires
            old(stores).wf(),
        ensures
            final(stores).wf(),
            final(stores).view() == spec_mem_saved(old(stores).view(), self.spec_key(), store@),
            match spec_store_error(store@) {
                Some(e) => r == Err::<(), AuthError>(e),
                None => r is Ok,
            },
    {
        match store.validate() {
            Err(e) => return Err(e),
            Ok(()) => {},
        }
        let key = compute_store_key(self.codex_home.as_str());
        stores.put(key, store.clone());
        Ok(())
    }

    /// Mutates the active credentials in place (seeding a store when the
    /// mutation can), then checks the store. As the in-memory store is
    /// changed in place, a failed check leaves the change in the map.
    pub fn mutate_active(&self, stores: &mut EphemeralStores, mutation: ActiveAuthMutation) -> (r: Result<AuthDotJson, AuthError>)
        requires
            old(stores).wf(),
        ensures
            final(stores).wf(),
            match spec_mutated(
                spec_mem_read(old(stores).view(), self.spec_key()),
                mutation@,
            ) {
                Err(e) => r == Err::<AuthDotJson, AuthError>(e) && final(stores).view() == old(stores).view(),
                Ok(s) => final(stores).view() == old(stores).view().insert(self.spec_key(), s) && match spec_store_error(s) {
                    Some(e) => r == Err::<AuthDotJson, AuthError>(e),
                    None => r matches Ok(a) && a@ == s.active_auth,
                },
            },
    {
        let key = compute_store_key(self.codex_home.as_str());
        let loaded = stores.take(&key);
        let ghost before = old(stores).view();
        match plan_mutate_active(loaded, mutation) {
            Err(e) => {
                proof {
                    assert(!before.dom().contains(key@));
                }
                assert(stores.view() =~= before);
                Err(e)
            },
            Ok(store) => {
                let checked = store.validate();
                let active = store.active_auth.clone();
                stores.put(key, store);
                assert(stores.view() =~= before.insert(key@, stores.view()[key@]));
                match checked {
                    Err(e) => Err(e),
                    Ok(()) => Ok(active),
                }
            },
        }
    }

    /// Saves a profile into this home's store.
    pub fn save_profile(&self, stores: &mut EphemeralStores, metadata: AccountProfileMetadata, auth: AuthDotJson) -> (r: Result<(), AuthError>)
        requires
            old(stores).wf(),
        ensures
            final(stores).wf(),
            match spec_profile_saved(
                spec_mem_read(old(stores).view(), self.spec_key()),
                metadata@,
                auth@,
            ) {
                Err(e) => r == Err::<(), AuthError>(e) && final(stores).view() == old(stores).view(),
                Ok(s) => r is Ok && final(stores).view() == old(stores).view().insert(self.spec_key(), s),
            },
    {
        let key = compute_store_key(self.codex_home.as_str());
        let ghost before = old(stores).view();
        match stores.take(&key) {
            None => {
                assert(stores.view() =~= before);
                Err(AuthError::ActiveAuthDataUnavailable)
            },
            Some(mut store) => {
                let ghost s0 = store@;
                let r = store.save_profile(metadata, auth);
                stores.put(key, store);
                assert(before.insert(key@, s0) =~= before);
                r
            },
        }
    }

    /// Removes an inactive profile from this home's store.
    pub fn remove_inactive_profile(&self, stores: &mut EphemeralStores, profile_id: &str) -> (r: Result<Option<AuthDotJson>, AuthError>)
        requires
            old(stores).wf(),
        ensures
            final(stores).wf(),
            match spec_profile_removed(
                spec_mem_read(old(stores).view(), self.spec_key()),
                profile_id@,
            ) {
                Err(e) => r == Err::<Option<AuthDotJson>, AuthError>(e) && final(stores).view() == old(stores).view(),
                Ok((s, removed)) => final(stores).view() == old(stores).view().insert(self.spec_key(), s) && match r {
                    Ok(Some(a)) => removed == Some(a@),
                    Ok(None) => removed.is_none(),
                    Err(_) => false,
                },
            },
    {
        let key = compute_store_key(self.codex_home.as_str());
        let ghost before = old(stores).view();
        match stores.take(&key) {
            None => {
                assert(stores.view() =~= before);
                Err(AuthError::ActiveAuthDataUnavailable)
            },
            Some(mut store) => {
                let ghost s0 = store@;
                let r = store.remove_inactive_profile(profile_id);
                stores.put(key, store);
                assert(before.insert(key@, s0) =~= before);
                r
            },
        }
    }

    /// Forgets this home's store; says whether there was one.
    pub fn delete(&self, stores: &mut EphemeralStores) -> (r: Result<bool, AuthError>)
        requires
            old(stores).wf(),
        ensures
            final(stores).wf(),
            final(stores).view() == old(stores).view().remove(self.spec_key()),
            r == Ok::<bool, AuthError>(old(stores).view().dom().contains(self.spec_key())),
    {
        let key = compute_store_key(self.codex_home.as_str());
        let removed = stores.take(&key);
        Ok(removed.is_some())
    }
}

/// A read that may find nothing: a not-found error means absent.
pub fn absent_when_not_found<T>(r: Result<T, AuthError>) -> (o: Result<Option<T>, AuthError>)
    ensures
        match r {
            Ok(t) => o == Ok::<Option<T>, AuthError>(Some(t)),
            Err(e) => if e.spec_kind() == ErrorKind::NotFound {
                o == Ok::<Option<T>, AuthError>(None)
            } else {
                o == Err::<Option<T>, AuthError>(e)
            },
        },
{
    match r {
        Ok(t) => Ok(Some(t)),
        Err(e) => if e.kind() == ErrorKind::NotFound {
            Ok(None)
        } else {
            Err(e)
        },
    }
}

/// The answer of a file removal: removed, already absent, or the error.
pub fn deletion_outcome(r: Result<(), AuthError>) -> (o: Result<bool, AuthError>)
    ensures
        match r {
            Ok(_) => o == Ok::<bool, AuthError>(true),
            Err(e) => if e.spec_kind() == ErrorKind::NotFound {
                o == Ok::<bool, AuthError>(false)
            } else {
                o == Err::<bool, AuthError>(e)
            },
        },
{
    match r {
        Ok(()) => Ok(true),
        Err(e) => if e.kind() == ErrorKind::NotFound {
            Ok(false)
        } else {
            Err(e)
        },
    }
}

/// Where credentials are kept.
#[derive(Debug, Clone, Copy, PartialEq, Eq, Structural)]
pub enum AuthCredentialsStoreMode {
    File,
    Keyring,
    Auto,
    Ephemeral,
}

/// Which keyring backend holds the store.
#[derive(Debug, Clone, Copy, PartialEq, Eq, Structural)]
pub enum AuthKeyringBackendKind {
    Direct,
    Secrets,
}

/// The storage used for a mode.
#[derive(Debug, Clone, Copy, PartialEq, Eq, Structural)]
pub enum BackendKind {
    File,
    DirectKeyring,
    SecretsKeyring,
    Auto,
    Ephemeral,
}

/// The backend for a mode and keyring kind, and whether access to it goes
/// through the storage lock (every backend but the in-memory one).
pub open spec fn spec_backend_for(mode: AuthCredentialsStoreMode, kind: AuthKeyringBackendKind) -> (BackendKind, bool) {
    match mode {
        AuthCredentialsStoreMode::Ephemeral => (BackendKind::Ephemeral, false),
        AuthCredentialsStoreMode::File => (BackendKind::File, true),
        AuthCredentialsStoreMode::Keyring => (
            match kind {
                AuthKeyringBackendKind::Direct => BackendKind::DirectKeyring,
                AuthKeyringBackendKind::Secrets => BackendKind::SecretsKeyring,
            },
            true,
        ),
        AuthCredentialsStoreMode::Auto => (BackendKind::Auto, true),
    }
}

pub fn backend_for(mode: AuthCredentialsStoreMode, kind: AuthKeyringBackendKind) -> (r: (BackendKind, bool))
    ensures
        r == spec_backend_for(mode, kind),
{
    match mode {
        AuthCredentialsStoreMode::Ephemeral => (BackendKind::Ephemeral, false),
        AuthCredentialsStoreMode::File => (BackendKind::File, true),
        AuthCredentialsStoreMode::Keyring => (
            match kind {
                AuthKeyringBackendKind::Direct => BackendKind::DirectKeyring,
                AuthKeyringBackendKind::Secrets => BackendKind::SecretsKeyring,
            },
            true,
        ),
        AuthCredentialsStoreMode::Auto => (BackendKind::Auto, true),
    }
}

/// The keyring backend the automatic backend writes through.
pub fn keyring_backend_for(kind: AuthKeyringBackendKind) -> (b: BackendKind)
    ensures
        b == (match kind {
            AuthKeyringBackendKind::Direct => BackendKind::DirectKeyring,
            AuthKeyringBackendKind::Secrets => BackendKind::SecretsKeyring,
        }),
{
    match kind {
        AuthKeyringBackendKind::Direct => BackendKind::DirectKeyring,
        AuthKeyringBackendKind::Secrets => BackendKind::SecretsKeyring,
    }
}

/// Reading only the active credentials after a failed full load: the
/// keyring's credentials when it has some; `None` means read the file.
pub fn active_from_keyring(keyring: Result<Option<AuthDotJson>, AuthError>) -> (r: Option<AuthDotJson>)
    ensures
        match keyring {
            Ok(Some(a)) => r == Some(a),
            _ => r.is_none(),
        },
{
    match keyring {
        Ok(Some(a)) => Some(a),
        _ => None,
    }
}

/// The in-memory backend reads back what it last kept for a home: a valid
/// store saved under a key is read back, an invalid one changes nothing,
/// nothing is read after the key's store is deleted, and the stores of other
/// keys are untouched by either.
pub proof fn lemma_ephemeral_read_after_write(stores: Map<Seq<char>, StoreView>, key: Seq<char>, other: Seq<char>, s: StoreView)
    requires
        other != key,
    ensures
        spec_store_error(s).is_none() ==> spec_mem_read(spec_mem_saved(stores, key, s), key) == Some(s),
        spec_store_error(s).is_some() ==> spec_mem_saved(stores, key, s) == stores,
        spec_mem_read(stores.remove(key), key).is_none(),
        spec_mem_read(spec_mem_saved(stores, key, s), other) == spec_mem_read(stores, other),
        spec_mem_read(stores.remove(key), other) == spec_mem_read(stores, other),
{
}

} // verus!
