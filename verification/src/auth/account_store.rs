//! Account profiles attached to the auth document, and their validation.

use vstd::prelude::*;
use super::error::AuthError;
use super::model::{AuthDotJson, AuthView};
use crate::text::{spec_trim, trim_chars, trim_is_empty};

verus! {

/// The only supported version of the profiles section.
pub const ACCOUNT_PROFILES_VERSION: u32 = 1;
/// Longest profile label, in characters after trimming.
pub const MAX_PROFILE_LABEL_CHARS: usize = 80;

pub struct MetadataView {
    pub id: Seq<char>,
    pub label: Seq<char>,
}

/// Stable, non-secret identity and display metadata for an account profile.
#[derive(Debug, PartialEq, Eq)]
pub struct AccountProfileMetadata {
    pub id: String,
    pub label: String,
}

impl View for AccountProfileMetadata {
    type V = MetadataView;

    open spec fn view(&self) -> MetadataView {
        MetadataView { id: self.id@, label: self.label@ }
    }
}

impl Clone for AccountProfileMetadata {
    fn clone(&self) -> (r: Self)
        ensures
            r@ == self@,
    {
        AccountProfileMetadata { id: self.id.clone(), label: self.label.clone() }
    }
}

impl AccountProfileMetadata {
    pub fn same_as(&self, other: &Self) -> (r: bool)
        ensures
            r == (self@ == other@),
    {
        self.id == other.id && self.label == other.label
    }
}

pub struct InactiveProfileView {
    pub metadata: MetadataView,
    pub auth: AuthView,
}

/// A stored account that is not currently active.
#[derive(Debug, PartialEq)]
pub struct InactiveAccountProfile {
    pub metadata: AccountProfileMetadata,
    pub auth: AuthDotJson,
}

impl View for InactiveAccountProfile {
    type V = InactiveProfileView;

    open spec fn view(&self) -> InactiveProfileView {
        InactiveProfileView { metadata: self.metadata@, auth: self.auth@ }
    }
}

impl Clone for InactiveAccountProfile {
    fn clone(&self) -> (r: Self)
        ensures
            r@ == self@,
    {
        InactiveAccountProfile { metadata: self.metadata.clone(), auth: self.auth.clone() }
    }
}

pub struct ProfilesView {
    pub version: u32,
    pub active_profile: MetadataView,
    pub inactive_profiles: Seq<InactiveProfileView>,
}

/// Versioned metadata and inactive credentials attached to the legacy auth
/// payload.
#[derive(Debug, PartialEq)]
pub struct AccountProfiles {
    pub version: u32,
    pub active_profile: AccountProfileMetadata,
    pub inactive_profiles: Vec<InactiveAccountProfile>,
}

impl View for AccountProfiles {
    type V = ProfilesView;

    open spec fn view(&self) -> ProfilesView {
        ProfilesView {
            version: self.version,
            active_profile: self.active_profile@,
            inactive_profiles: self.inactive_profiles@.map_values(|p: InactiveAccountProfile| p@),
        }
    }
}

pub fn clone_inactive_list(v: &Vec<InactiveAccountProfile>) -> (r: Vec<InactiveAccountProfile>)
    ensures
        r@.map_values(|p: InactiveAccountProfile| p@) == v@.map_values(
            |p: InactiveAccountProfile| p@,
        ),
{
    let mut r: Vec<InactiveAccountProfile> = Vec::new();
    let n = v.len();
    for i in 0..n
        invariant
            n == v@.len(),
            r@.len() == i,
            forall|j: int| 0 <= j < i ==> #[trigger] r@[j]@ == v@[j]@,
    {
        r.push(v[i].clone());
    }
    assert(r@.map_values(|p: InactiveAccountProfile| p@) =~= v@.map_values(
        |p: InactiveAccountProfile| p@,
    ));
    r
}

impl Clone for AccountProfiles {
    fn clone(&self) -> (r: Self)
        ensures
            r@ == self@,
    {
        AccountProfiles {
            version: self.version,
            active_profile: self.active_profile.clone(),
            inactive_profiles: clone_inactive_list(&self.inactive_profiles),
        }
    }
}

impl AccountProfiles {
    pub fn same_as(&self, other: &Self) -> (r: bool)
        ensures
            r == (self@ == other@),
    {
        if self.version != other.version || !self.active_profile.same_as(&other.active_profile) {
            return false;
        }
        let n = self.inactive_profiles.len();
        if n != other.inactive_profiles.len() {
            assert(self@.inactive_profiles.len() != other@.inactive_profiles.len());
            return false;
        }
        for i in 0..n
            invariant
                n == self.inactive_profiles@.len(),
                n == other.inactive_profiles@.len(),
                forall|j: int| 0 <= j < i ==> #[trigger] self.inactive_profiles@[j]@ == other.inactive_profiles@[j]@,
        {
            let a = &self.inactive_profiles[i];
            let b = &other.inactive_profiles[i];
            if !(a.metadata.same_as(&b.metadata) && a.auth.same_as(&b.auth)) {
                assert(self@.inactive_profiles[i as int] != other@.inactive_profiles[i as int]);
                return false;
            }
        }
        assert(self@.inactive_profiles =~= other@.inactive_profiles);
        true
    }
}

/// The first problem with one profile's metadata, if any.
pub open spec fn spec_metadata_error(m: MetadataView) -> Option<AuthError> {
    if spec_trim(m.id).len() == 0 {
        Some(AuthError::EmptyProfileId)
    } else if spec_trim(m.label).len() == 0 {
        Some(AuthError::EmptyProfileLabel)
    } else if spec_trim(m.label).len() > MAX_PROFILE_LABEL_CHARS {
        Some(AuthError::ProfileLabelTooLong)
    } else {
        None
    }
}

/// The problem with the `i`-th inactive profile, if any: its metadata, or
/// an id already taken by the active profile or an earlier inactive one.
pub open spec fn spec_inactive_error(p: ProfilesView, i: int) -> Option<AuthError> {
    let m = p.inactive_profiles[i].metadata;
    match spec_metadata_error(m) {
        Some(e) => Some(e),
        None => if m.id == p.active_profile.id || exists|j: int|
            0 <= j < i && #[trigger] p.inactive_profiles[j].metadata.id == m.id {
            Some(AuthError::DuplicateProfileId)
        } else {
            None
        },
    }
}

/// The first problem among the first `k` inactive profiles.
pub open spec fn spec_inactive_scan(p: ProfilesView, k: int) -> Option<AuthError>
    decreases k,
{
    if k <= 0 {
        None
    } else {
        match spec_inactive_scan(p, k - 1) {
            Some(e) => Some(e),
            None => spec_inactive_error(p, k - 1),
        }
    }
}

/// The first problem with a profiles section, checked in order: version,
/// active metadata, then each inactive profile.
pub open spec fn spec_profiles_error(p: ProfilesView) -> Option<AuthError> {
    if p.version != ACCOUNT_PROFILES_VERSION {
        Some(AuthError::UnsupportedProfilesVersion(p.version))
    } else {
        match spec_metadata_error(p.active_profile) {
            Some(e) => Some(e),
            None => spec_inactive_scan(p, p.inactive_profiles.len() as int),
        }
    }
}

proof fn lemma_scan_stays(p: ProfilesView, k: int, m: int)
    requires
        0 <= k <= m,
        spec_inactive_scan(p, k) is Some,
    ensures
        spec_inactive_scan(p, m) == spec_inactive_scan(p, k),
    decreases m - k,
{
    if m > k {
        lemma_scan_stays(p, k, m - 1);
    }
}

fn validate_metadata(metadata: &AccountProfileMetadata) -> (r: Result<(), AuthError>)
    ensures
        match spec_metadata_error(metadata@) {
            Some(e) => r == Err::<(), AuthError>(e),
            None => r is Ok,
        },
{
    if trim_is_empty(metadata.id.as_str()) {
        return Err(AuthError::EmptyProfileId);
    }
    let label = trim_chars(metadata.label.as_str());
    if label.len() == 0 {
        return Err(AuthError::EmptyProfileLabel);
    }
    if label.len() > MAX_PROFILE_LABEL_CHARS {
        return Err(AuthError::ProfileLabelTooLong);
    }
    Ok(())
}

impl AccountProfiles {
    /// Checks the version, every profile's metadata, and that no two
    /// profiles share an id; the first problem found is the error.
    pub fn validate(&self) -> (r: Result<(), AuthError>)
        ensures
            match spec_profiles_error(self@) {
                Some(e) => r == Err::<(), AuthError>(e),
                None => r is Ok,
            },
    {
        if self.version != ACCOUNT_PROFILES_VERSION {
            return Err(AuthError::UnsupportedProfilesVersion(self.version));
        }
        match validate_metadata(&self.active_profile) {
            Err(e) => return Err(e),
            Ok(()) => {},
        }
        let ghost p = self@;
        let n = self.inactive_profiles.len();
        for i in 0..n
            invariant
                n == self.inactive_profiles@.len(),
                p == self@,
                p.version == ACCOUNT_PROFILES_VERSION,
                spec_metadata_error(p.active_profile).is_none(),
                spec_inactive_scan(p, i as int).is_none(),
        {
            let profile = &self.inactive_profiles[i];
            assert(p.inactive_profiles[i as int] == profile@);
            match validate_metadata(&profile.metadata) {
                Err(e) => {
                    proof {
                        lemma_scan_stays(p, i + 1, n as int);
                    }
                    return Err(e);
                },
                Ok(()) => {},
            }
            if profile.metadata.id == self.active_profile.id {
                proof {
                    lemma_scan_stays(p, i + 1, n as int);
                }
                return Err(AuthError::DuplicateProfileId);
            }
            for j in 0..i
                invariant
                    n == self.inactive_profiles@.len(),
                    i < n,
                    p == self@,
                    p.inactive_profiles[i as int] == profile@,
                    spec_metadata_error(profile@.metadata).is_none(),
                    spec_inactive_scan(p, i as int).is_none(),
                    p.version == ACCOUNT_PROFILES_VERSION,
                    spec_metadata_error(p.active_profile).is_none(),
                    forall|k: int| 0 <= k < j ==> #[trigger] p.inactive_profiles[k].metadata.id != profile@.metadata.id,
            {
                assert(p.inactive_profiles[j as int] == self.inactive_profiles@[j as int]@);
                if self.inactive_profiles[j].metadata.id == profile.metadata.id {
                    proof {
                        assert(p.inactive_profiles[j as int].metadata.id == p.inactive_profiles[i as int].metadata.id);
                        assert(spec_inactive_error(p, i as int) == Some(AuthError::DuplicateProfileId));
                        lemma_scan_stays(p, i + 1, n as int);
                    }
                    return Err(AuthError::DuplicateProfileId);
                }
            }
        }
        Ok(())
    }
}

pub struct StoreView {
    pub active_auth: AuthView,
    pub account_profiles: Option<ProfilesView>,
    pub pending_keyring_write: bool,
}

/// Auth document with active credentials at the legacy root for
/// compatibility.
#[derive(Debug, PartialEq)]
pub struct AuthAccountStore {
    pub active_auth: AuthDotJson,
    pub account_profiles: Option<AccountProfiles>,
    /// Set on the file copy when a keyring write failed and is still owed.
    pub pending_keyring_write: bool,
}

impl View for AuthAccountStore {
    type V = StoreView;

    open spec fn view(&self) -> StoreView {
        StoreView {
            active_auth: self.active_auth@,
            account_profiles: match self.account_profiles {
                Some(p) => Some(p@),
                None => None,
            },
            pending_keyring_write: self.pending_keyring_write,
        }
    }
}

impl Clone for AuthAccountStore {
    fn clone(&self) -> (r: Self)
        ensures
            r@ == self@,
    {
        AuthAccountStore {
            active_auth: self.active_auth.clone(),
            account_profiles: match &self.account_profiles {
                Some(p) => Some(p.clone()),
                None => None,
            },
            pending_keyring_write: self.pending_keyring_write,
        }
    }
}

/// The first problem with a store: only its profiles section is checked.
pub open spec fn spec_store_error(s: StoreView) -> Option<AuthError> {
    match s.account_profiles {
        Some(p) => spec_profiles_error(p),
        None => None,
    }
}

/// A store holding only active auth, as legacy documents do.
pub open spec fn spec_legacy_store(active: AuthView) -> StoreView {
    StoreView { active_auth: active, account_profiles: None, pending_keyring_write: false }
}

impl AuthAccountStore {
    pub fn legacy(active_auth: AuthDotJson) -> (s: Self)
        ensures
            s@ == spec_legacy_store(active_auth@),
    {
        AuthAccountStore { active_auth, account_profiles: None, pending_keyring_write: false }
    }

    /// Checks the profiles section, when there is one.
    pub fn validate(&self) -> (r: Result<(), AuthError>)
        ensures
            match spec_store_error(self@) {
                Some(e) => r == Err::<(), AuthError>(e),
                None => r is Ok,
            },
    {
        match &self.account_profiles {
            Some(profiles) => profiles.validate(),
            None => Ok(()),
        }
    }

    /// Whether two stores are the same document.
    pub fn same_as(&self, other: &Self) -> (r: bool)
        ensures
            r == (self@ == other@),
    {
        let profiles = match (&self.account_profiles, &other.account_profiles) {
            (Some(a), Some(b)) => a.same_as(b),
            (None, None) => true,
            _ => false,
        };
        self.active_auth.same_as(&other.active_auth) && profiles && self.pending_keyring_write
            == other.pending_keyring_write
    }
}

/// The active profile assumed for a document without profiles.
pub open spec fn spec_default_active_profile() -> MetadataView {
    MetadataView { id: "legacy"@, label: "Account 1"@ }
}

/// The id of the active profile.
pub open spec fn spec_active_profile_id(s: StoreView) -> Seq<char> {
    match s.account_profiles {
        Some(p) => p.active_profile.id,
        None => spec_default_active_profile().id,
    }
}

/// The profiles section, initialized when the document has none.
pub open spec fn spec_profiles_or_default(s: StoreView) -> ProfilesView {
    match s.account_profiles {
        Some(p) => p,
        None => ProfilesView {
            version: ACCOUNT_PROFILES_VERSION,
            active_profile: spec_default_active_profile(),
            inactive_profiles: Seq::empty(),
        },
    }
}

/// Index of the first inactive profile with the given id.
pub open spec fn spec_find_profile(list: Seq<InactiveProfileView>, id: Seq<char>) -> Option<int>
    decreases list.len(),
{
    if list.len() == 0 {
        None
    } else {
        match spec_find_profile(list.drop_last(), id) {
            Some(i) => Some(i),
            None => if list.last().metadata.id == id {
                Some(list.len() - 1)
            } else {
                None
            },
        }
    }
}

/// Storing the credentials of another account under a profile: the metadata
/// must be valid and must not name the active profile; a profile with the
/// same id is replaced (metadata and credentials), otherwise the profile is
/// appended. The active credentials are untouched.
pub open spec fn spec_save_profile(s: StoreView, m: MetadataView, auth: AuthView) -> Result<StoreView, AuthError> {
    match spec_metadata_error(m) {
        Some(e) => Err(e),
        None => if m.id == spec_active_profile_id(s) {
            Err(AuthError::ActiveProfileTargeted)
        } else {
            let p = spec_profiles_or_default(s);
            let entry = InactiveProfileView { metadata: m, auth };
            let list = match spec_find_profile(p.inactive_profiles, m.id) {
                Some(i) => p.inactive_profiles.update(i, entry),
                None => p.inactive_profiles.push(entry),
            };
            Ok(StoreView { account_profiles: Some(ProfilesView { inactive_profiles: list, ..p }), ..s })
        },
    }
}

/// Removing an inactive profile: naming the active profile is refused; the
/// first profile with the id is removed and its credentials returned; an
/// unknown id changes nothing.
pub open spec fn spec_remove_profile(s: StoreView, id: Seq<char>) -> Result<(StoreView, Option<AuthView>), AuthError> {
    if id == spec_active_profile_id(s) {
        Err(AuthError::ActiveProfileTargeted)
    } else {
        match s.account_profiles {
            None => Ok((s, None)),
            Some(p) => match spec_find_profile(p.inactive_profiles, id) {
                None => Ok((s, None)),
                Some(i) => Ok(
                    (
                        StoreView {
                            account_profiles: Some(
                                ProfilesView { inactive_profiles: p.inactive_profiles.remove(i), ..p },
                            ),
                            ..s
                        },
                        Some(p.inactive_profiles[i].auth),
                    ),
                ),
            },
        }
    }
}

pub proof fn lemma_find_profile(list: Seq<InactiveProfileView>, id: Seq<char>)
    ensures
        match spec_find_profile(list, id) {
            Some(i) => 0 <= i < list.len() && list[i].metadata.id == id && forall|j: int|
                0 <= j < i ==> #[trigger] list[j].metadata.id != id,
            None => forall|j: int| 0 <= j < list.len() ==> #[trigger] list[j].metadata.id != id,
        },
    decreases list.len(),
{
    if list.len() > 0 {
        lemma_find_profile(list.drop_last(), id);
        assert forall|j: int| 0 <= j < list.len() - 1 implies #[trigger] list[j] == list.drop_last()[j] by {}
    }
}

/// Index of the first profile with the given id.
fn find_profile(list: &Vec<InactiveAccountProfile>, id: &String) -> (r: Option<usize>)
    ensures
        r matches Some(i) ==> i < list@.len(),
        match r {
            Some(i) => spec_find_profile(list@.map_values(|p: InactiveAccountProfile| p@), id@)
                == Some(i as int),
            None => spec_find_profile(list@.map_values(|p: InactiveAccountProfile| p@), id@)
                is None,
        },
{
    let ghost lv = list@.map_values(|p: InactiveAccountProfile| p@);
    proof {
        lemma_find_profile(lv, id@);
    }
    let n = list.len();
    for i in 0..n
        invariant
            n == list@.len(),
            lv == list@.map_values(|p: InactiveAccountProfile| p@),
            forall|j: int| 0 <= j < i ==> #[trigger] lv[j].metadata.id != id@,
    {
        assert(lv[i as int] == list@[i as int]@);
        if list[i].metadata.id == *id {
            proof {
                lemma_find_profile(lv, id@);
                match spec_find_profile(lv, id@) {
                    Some(k) => {
                        if k > i {
                            assert(lv[i as int].metadata.id != id@);
                        }
                    },
                    None => {
                        assert(lv[i as int].metadata.id != id@);
                    },
                }
            }
            return Some(i);
        }
    }
    proof {
        match spec_find_profile(lv, id@) {
            Some(k) => {
                assert(lv[k].metadata.id != id@);
            },
            None => {},
        }
    }
    None
}

fn default_active_profile() -> (m: AccountProfileMetadata)
    ensures
        m@ == spec_default_active_profile(),
{
    AccountProfileMetadata { id: "legacy".to_owned(), label: "Account 1".to_owned() }
}

impl AuthAccountStore {
    /// The id of the active profile (`legacy` for a document without
    /// profiles).
    pub fn active_profile_id(&self) -> (id: String)
        ensures
            id@ == spec_active_profile_id(self@),
    {
        match &self.account_profiles {
            Some(p) => p.active_profile.id.clone(),
            None => default_active_profile().id,
        }
    }

    /// Stores another account's credentials under a profile; see
    /// `spec_save_profile`. On error the store is unchanged.
    pub fn save_profile(&mut self, metadata: AccountProfileMetadata, auth: AuthDotJson) -> (r: Result<(), AuthError>)
        ensures
            match spec_save_profile(old(self)@, metadata@, auth@) {
                Ok(s) => r is Ok && final(self)@ == s,
                Err(e) => r == Err::<(), AuthError>(e) && final(self)@ == old(self)@,
            },
    {
        match validate_metadata(&metadata) {
            Err(e) => return Err(e),
            Ok(()) => {},
        }
        let active_id = self.active_profile_id();
        if metadata.id == active_id {
            return Err(AuthError::ActiveProfileTargeted);
        }
        let ghost s0 = self@;
        let ghost entry = InactiveProfileView { metadata: metadata@, auth: auth@ };
        let mut profiles = match self.account_profiles.take() {
            Some(p) => p,
            None => {
                let p = AccountProfiles {
                    version: ACCOUNT_PROFILES_VERSION,
                    active_profile: default_active_profile(),
                    inactive_profiles: Vec::new(),
                };
                assert(p@.inactive_profiles =~= Seq::empty());
                p
            },
        };
        assert(profiles@ == spec_profiles_or_default(s0));
        let ghost p0 = profiles@;
        let found = find_profile(&profiles.inactive_profiles, &metadata.id);
        let new_entry = InactiveAccountProfile { metadata, auth };
        match found {
            Some(i) => {
                profiles.inactive_profiles.set(i, new_entry);
                assert(profiles@.inactive_profiles =~= p0.inactive_profiles.update(i as int, entry));
            },
            None => {
                profiles.inactive_profiles.push(new_entry);
                assert(profiles@.inactive_profiles =~= p0.inactive_profiles.push(entry));
            },
        }
        self.account_profiles = Some(profiles);
        Ok(())
    }

    /// Removes an inactive profile and returns its credentials; see
    /// `spec_remove_profile`. On error the store is unchanged.
    pub fn remove_inactive_profile(&mut self, profile_id: &str) -> (r: Result<Option<AuthDotJson>, AuthError>)
        ensures
            match spec_remove_profile(old(self)@, profile_id@) {
                Ok((s, removed)) => r is Ok && final(self)@ == s && match r {
                    Ok(Some(a)) => removed == Some(a@),
                    Ok(None) => removed.is_none(),
                    Err(_) => false,
                },
                Err(e) => r == Err::<Option<AuthDotJson>, AuthError>(e) && final(self)@ == old(self)@,
            },
    {
        let id = profile_id.to_owned();
        let active_id = self.active_profile_id();
        if id == active_id {
            return Err(AuthError::ActiveProfileTargeted);
        }
        let ghost s0 = self@;
        match self.account_profiles.take() {
            None => {
                Ok(None)
            },
            Some(mut profiles) => {
                let ghost p0 = profiles@;
                match find_profile(&profiles.inactive_profiles, &id) {
                    None => {
                        self.account_profiles = Some(profiles);
                        Ok(None)
                    },
                    Some(i) => {
                        let removed = profiles.inactive_profiles.remove(i);
                        assert(profiles@.inactive_profiles =~= p0.inactive_profiles.remove(i as int));
                        self.account_profiles = Some(profiles);
                        Ok(Some(removed.auth))
                    },
                }
            },
        }
    }
}

} // verus!
