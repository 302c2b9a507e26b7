//! Properties of the store operations that span several calls or hold of
//! every store.

use vstd::prelude::*;
use super::account_store::{
    InactiveProfileView, MetadataView, ProfilesView, StoreView, lemma_find_profile,
    spec_active_profile_id, spec_find_profile, spec_inactive_error, spec_inactive_scan,
    spec_metadata_error, spec_profiles_error, spec_profiles_or_default, spec_remove_profile,
    spec_save_profile, spec_store_error,
};
use super::backend::spec_mutated;
use super::model::{AgentIdentityAuthRecordView, AgentIdentityStorageView, AuthView, Timestamp, TokenDataView};
use super::error::AuthError;
use crate::text::spec_trim;
use super::mutation::{MutationView, spec_apply};

verus! {

/// A mutation of the active credentials keeps the profiles and the pending
/// flag of the loaded store, so it keeps the store valid or invalid.
pub proof fn lemma_mutation_keeps_profiles(s: StoreView, m: MutationView)
    ensures
        spec_mutated(Some(s), m) matches Ok(t) && t.account_profiles == s.account_profiles
            && t.pending_keyring_write == s.pending_keyring_write && t.active_auth == spec_apply(
            m,
            s.active_auth,
        ) && spec_store_error(t) == spec_store_error(s),
{
}

/// Replacing the active credentials of a stored document changes exactly
/// the active credentials.
pub proof fn lemma_replace_sets_active(s: StoreView, a: AuthView)
    ensures
        spec_mutated(Some(s), MutationView::Replace(a)) == Ok::<StoreView, super::error::AuthError>(
            StoreView { active_auth: a, ..s },
        ),
{
}

/// Two token refreshes applied one after the other keep both updates: the
/// access token of the first and the refresh token of the second, with the
/// ID token and account id kept.
pub proof fn lemma_refreshes_compose(a: AuthView, access: Seq<char>, refresh: Seq<char>, t1: Timestamp, t2: Timestamp)
    ensures
        ({
            let after = spec_apply(
                MutationView::Tokens {
                    id_token: None,
                    access_token: None,
                    refresh_token: Some(refresh),
                    refreshed_at: t2,
                },
                spec_apply(
                    MutationView::Tokens {
                        id_token: None,
                        access_token: Some(access),
                        refresh_token: None,
                        refreshed_at: t1,
                    },
                    a,
                ),
            );
            &&& after.tokens matches Some(t) && t.access_token == access && t.refresh_token
                == refresh
            &&& a.tokens matches Some(t0) ==> after.tokens matches Some(t) && t.id_token
                == t0.id_token && t.account_id == t0.account_id
            &&& after.last_refresh == Some(t2)
            &&& after.openai_api_key == a.openai_api_key
        }),
{
}

/// Saving a profile never changes the active credentials or the pending
/// flag.
pub proof fn lemma_save_profile_keeps_active(s: StoreView, md: MetadataView, auth: AuthView)
    ensures
        spec_save_profile(s, md, auth) matches Ok(t) ==> t.active_auth == s.active_auth
            && t.pending_keyring_write == s.pending_keyring_write,
{
}

/// Removing a profile never changes the active credentials.
pub proof fn lemma_remove_profile_keeps_active(s: StoreView, id: Seq<char>)
    ensures
        spec_remove_profile(s, id) matches Ok((t, _)) ==> t.active_auth == s.active_auth
            && t.pending_keyring_write == s.pending_keyring_write,
{
}

/// The active profile cannot be overwritten or removed through the
/// profile operations.
pub proof fn lemma_active_profile_protected(s: StoreView, md: MetadataView, auth: AuthView)
    ensures
        spec_metadata_error(md).is_none() && md.id == spec_active_profile_id(s) ==> spec_save_profile(
            s,
            md,
            auth,
        ) == Err::<StoreView, super::error::AuthError>(super::error::AuthError::ActiveProfileTargeted),
        spec_remove_profile(s, spec_active_profile_id(s)) == Err::<(StoreView, Option<AuthView>), super::error::AuthError>(
            super::error::AuthError::ActiveProfileTargeted,
        ),
{
}

proof fn lemma_find_after_save(list: Seq<InactiveProfileView>, entry: InactiveProfileView)
    ensures
        ({
            let l2 = match spec_find_profile(list, entry.metadata.id) {
                Some(i) => list.update(i, entry),
                None => list.push(entry),
            };
            &&& spec_find_profile(l2, entry.metadata.id) matches Some(j) && l2[j] == entry
            &&& spec_find_profile(list, entry.metadata.id) is Some ==> l2.len() == list.len()
        }),
{
    let id = entry.metadata.id;
    lemma_find_profile(list, id);
    let l2 = match spec_find_profile(list, id) {
        Some(i) => list.update(i, entry),
        None => list.push(entry),
    };
    lemma_find_profile(l2, id);
    match spec_find_profile(list, id) {
        Some(i) => {
            match spec_find_profile(l2, id) {
                Some(j) => {
                    if j < i {
                        assert(l2[j] == list[j]);
                    } else if j > i {
                        assert(l2[i].metadata.id == id);
                    }
                },
                None => {
                    assert(l2[i].metadata.id == id);
                },
            }
        },
        None => {
            match spec_find_profile(l2, id) {
                Some(j) => {
                    if j < list.len() {
                        assert(l2[j] == list[j]);
                    }
                },
                None => {
                    assert(l2[list.len() as int].metadata.id == id);
                },
            }
        },
    }
}

/// A saved profile can be found again: removing it returns the credentials
/// saved under it. Saving under an id that is already present replaces that
/// profile instead of adding one.
pub proof fn lemma_saved_profile_found(s: StoreView, md: MetadataView, auth: AuthView)
    ensures
        spec_save_profile(s, md, auth) matches Ok(t) ==> {
            &&& spec_remove_profile(t, md.id) matches Ok((_, removed)) && removed == Some(auth)
            &&& s.account_profiles matches Some(p) ==> (spec_find_profile(p.inactive_profiles, md.id) is Some
                ==> (t.account_profiles matches Some(q) && q.inactive_profiles.len() == p.inactive_profiles.len()))
        },
{
    if spec_save_profile(s, md, auth) is Ok {
        let p = spec_profiles_or_default(s);
        lemma_find_after_save(p.inactive_profiles, InactiveProfileView { metadata: md, auth });
    }
}

proof fn lemma_scan_none_iff(p: ProfilesView, k: int)
    requires
        0 <= k,
    ensures
        spec_inactive_scan(p, k).is_none() <==> forall|i: int| 0 <= i < k ==> #[trigger] spec_inactive_error(p, i).is_none(),
    decreases k,
{
    if k > 0 {
        lemma_scan_none_iff(p, k - 1);
    }
}

proof fn lemma_trim_plain(s: Seq<char>)
    requires
        s.len() > 0,
        !crate::text::spec_is_whitespace(s[0]),
        !crate::text::spec_is_whitespace(s.last()),
    ensures
        crate::text::spec_trim(s) == s,
{
    assert(!crate::text::spec_is_whitespace(s[0]));
    assert(crate::text::spec_trim_start(s) == s);
    assert(!crate::text::spec_is_whitespace(s.last()));
}

/// Saving a profile into a valid store keeps it valid.
pub proof fn lemma_save_profile_keeps_valid(s: StoreView, md: MetadataView, auth: AuthView)
    requires
        spec_store_error(s).is_none(),
    ensures
        spec_save_profile(s, md, auth) matches Ok(t) ==> spec_store_error(t).is_none(),
{
    if spec_save_profile(s, md, auth) is Ok {
        let p = spec_profiles_or_default(s);
        let entry = InactiveProfileView { metadata: md, auth };
        let list = p.inactive_profiles;
        let id = md.id;
        lemma_find_profile(list, id);
        let l2 = match spec_find_profile(list, id) {
            Some(i) => list.update(i, entry),
            None => list.push(entry),
        };
        let q = ProfilesView { inactive_profiles: l2, ..p };
        if s.account_profiles is None {
            reveal_strlit("legacy");
            reveal_strlit("Account 1");
            lemma_trim_plain("legacy"@);
            lemma_trim_plain("Account 1"@);
            assert(spec_metadata_error(p.active_profile).is_none());
            assert(list.len() == 0);
        }
        lemma_scan_none_iff(p, list.len() as int);
        lemma_scan_none_iff(q, l2.len() as int);
        assert forall|i: int| 0 <= i < l2.len() implies #[trigger] spec_inactive_error(q, i).is_none() by {
            match spec_find_profile(list, id) {
                Some(k) => {
                    assert(spec_inactive_error(p, i).is_none());
                    if i == k {
                        assert(l2[i].metadata.id == list[i].metadata.id);
                        assert forall|j: int| 0 <= j < i implies #[trigger] l2[j].metadata.id != l2[i].metadata.id by {
                            assert(l2[j] == list[j]);
                        }
                    } else {
                        assert(l2[i] == list[i]);
                        assert forall|j: int| 0 <= j < i implies #[trigger] l2[j].metadata.id != l2[i].metadata.id by {
                            if j == k {
                                assert(l2[j].metadata.id == list[k].metadata.id);
                            } else {
                                assert(l2[j] == list[j]);
                            }
                        }
                    }
                },
                None => {
                    if i < list.len() {
                        assert(spec_inactive_error(p, i).is_none());
                        assert(l2[i] == list[i]);
                        assert forall|j: int| 0 <= j < i implies #[trigger] l2[j].metadata.id != l2[i].metadata.id by {
                            assert(l2[j] == list[j]);
                        }
                    } else {
                        assert forall|j: int| 0 <= j < i implies #[trigger] l2[j].metadata.id != l2[i].metadata.id by {
                            assert(l2[j] == list[j]);
                        }
                    }
                },
            }
        }
    }
}

/// Removing a profile from a valid store keeps it valid.
pub proof fn lemma_remove_profile_keeps_valid(s: StoreView, id: Seq<char>)
    requires
        spec_store_error(s).is_none(),
    ensures
        spec_remove_profile(s, id) matches Ok((t, _)) ==> spec_store_error(t).is_none(),
{
    if let Some(p) = s.account_profiles {
        if spec_remove_profile(s, id) is Ok {
            lemma_find_profile(p.inactive_profiles, id);
            if let Some(k) = spec_find_profile(p.inactive_profiles, id) {
                let list = p.inactive_profiles;
                let l2 = list.remove(k);
                let q = ProfilesView { inactive_profiles: l2, ..p };
                lemma_scan_none_iff(p, list.len() as int);
                lemma_scan_none_iff(q, l2.len() as int);
                assert forall|i: int| 0 <= i < l2.len() implies #[trigger] spec_inactive_error(q, i).is_none() by {
                    let i0 = if i < k { i } else { i + 1 };
                    assert(l2[i] == list[i0]);
                    assert(spec_inactive_error(p, i0).is_none());
                    assert forall|j: int| 0 <= j < i implies #[trigger] l2[j].metadata.id != l2[i].metadata.id by {
                        let j0 = if j < k { j } else { j + 1 };
                        assert(l2[j] == list[j0]);
                        assert(j0 < i0);
                    }
                }
            }
        }
    }
}

/// A token refresh sets every token it carries and keeps every token it
/// does not carry (empty when nothing was stored), keeps the account id,
/// records the refresh time, and leaves every other credential as it was.
pub proof fn lemma_token_refresh_fields(
    a: AuthView,
    id: Option<Seq<char>>,
    access: Option<Seq<char>>,
    refresh: Option<Seq<char>>,
    at: Timestamp,
)
    ensures
        ({
            let after = spec_apply(
                MutationView::Tokens {
                    id_token: id,
                    access_token: access,
                    refresh_token: refresh,
                    refreshed_at: at,
                },
                a,
            );
            let (old_id, old_access, old_refresh, old_account) = match a.tokens {
                Some(t0) => (t0.id_token, t0.access_token, t0.refresh_token, t0.account_id),
                None => (Seq::<char>::empty(), Seq::<char>::empty(), Seq::<char>::empty(), None),
            };
            &&& after.tokens matches Some(t) && t.id_token == (match id {
                Some(i) => i,
                None => old_id,
            }) && t.access_token == (match access {
                Some(x) => x,
                None => old_access,
            }) && t.refresh_token == (match refresh {
                Some(r) => r,
                None => old_refresh,
            }) && t.account_id == old_account
            &&& after.last_refresh == Some(at)
            &&& after.auth_mode == a.auth_mode
            &&& after.openai_api_key == a.openai_api_key
            &&& after.agent_identity == a.agent_identity
            &&& after.personal_access_token == a.personal_access_token
            &&& after.bedrock_api_key == a.bedrock_api_key
            &&& after.bedrock_access_keys == a.bedrock_access_keys
        }),
{
}

/// Recording an agent identity stores exactly that record and leaves every
/// other credential as it was; a replacement yields exactly the replacement.
pub proof fn lemma_identity_and_replace_fields(a: AuthView, r: AgentIdentityAuthRecordView, b: AuthView)
    ensures
        spec_apply(MutationView::AgentIdentity(r), a) == (AuthView {
            agent_identity: Some(AgentIdentityStorageView::Record(r)),
            ..a
        }),
        spec_apply(MutationView::Replace(b), a) == b,
{
}

/// Metadata a valid section accepts: an id that is not blank, and a label
/// that is not blank and has at most 80 characters, both after trimming.
pub open spec fn spec_metadata_acceptable(m: MetadataView) -> bool {
    spec_trim(m.id).len() > 0 && spec_trim(m.label).len() > 0 && spec_trim(m.label).len() <= 80
}

proof fn lemma_scan_none(p: ProfilesView, k: int)
    requires
        0 <= k <= p.inactive_profiles.len(),
    ensures
        spec_inactive_scan(p, k) is None <==> forall|i: int| 0 <= i < k ==> (#[trigger] spec_inactive_error(p, i)) is None,
    decreases k,
{
    if k > 0 {
        lemma_scan_none(p, k - 1);
        if spec_inactive_scan(p, k - 1) is Some {
            lemma_scan_stays_some(p, k - 1, k);
        }
    }
}

proof fn lemma_scan_stays_some(p: ProfilesView, k: int, m: int)
    requires
        0 <= k <= m,
        spec_inactive_scan(p, k) is Some,
    ensures
        spec_inactive_scan(p, m) is Some,
    decreases m - k,
{
    if m > k {
        lemma_scan_stays_some(p, k, m - 1);
    }
}

/// A profiles section is valid exactly when its version is the supported
/// one, every profile (the active one and each inactive one) has acceptable
/// metadata, and no two profiles share an id. An unsupported version is
/// reported before anything else, and then the active profile's first
/// problem: a blank id, a blank label, a label over 80 characters.
pub proof fn lemma_profiles_valid_iff(p: ProfilesView)
    ensures
        spec_profiles_error(p) is None <==> {
            &&& p.version == 1
            &&& spec_metadata_acceptable(p.active_profile)
            &&& forall|i: int| 0 <= i < p.inactive_profiles.len()
                ==> spec_metadata_acceptable(#[trigger] p.inactive_profiles[i].metadata)
            &&& forall|i: int| 0 <= i < p.inactive_profiles.len()
                ==> (#[trigger] p.inactive_profiles[i]).metadata.id != p.active_profile.id
            &&& forall|i: int, j: int| 0 <= i < j < p.inactive_profiles.len()
                ==> (#[trigger] p.inactive_profiles[i]).metadata.id != (#[trigger] p.inactive_profiles[j]).metadata.id
        },
        p.version != 1 ==> spec_profiles_error(p) == Some(AuthError::UnsupportedProfilesVersion(p.version)),
        p.version == 1 && spec_trim(p.active_profile.id).len() == 0
            ==> spec_profiles_error(p) == Some(AuthError::EmptyProfileId),
        p.version == 1 && spec_trim(p.active_profile.id).len() > 0 && spec_trim(p.active_profile.label).len() == 0
            ==> spec_profiles_error(p) == Some(AuthError::EmptyProfileLabel),
        p.version == 1 && spec_trim(p.active_profile.id).len() > 0 && spec_trim(p.active_profile.label).len() > 80
            ==> spec_profiles_error(p) == Some(AuthError::ProfileLabelTooLong),
{
    let n = p.inactive_profiles.len() as int;
    lemma_scan_none(p, n);
    let l = p.inactive_profiles;
    if spec_profiles_error(p) is None {
        assert forall|i: int| 0 <= i < n implies spec_metadata_acceptable(#[trigger] l[i].metadata) by {
            assert(spec_inactive_error(p, i) is None);
        }
        assert forall|i: int| 0 <= i < n implies (#[trigger] l[i]).metadata.id != p.active_profile.id by {
            assert(spec_inactive_error(p, i) is None);
        }
        assert forall|i: int, j: int| 0 <= i < j < n implies (#[trigger] l[i]).metadata.id != (#[trigger] l[j]).metadata.id by {
            assert(spec_inactive_error(p, j) is None);
            if l[i].metadata.id == l[j].metadata.id {
                assert(p.inactive_profiles[i].metadata.id == p.inactive_profiles[j].metadata.id);
            }
        }
    }
    if p.version == 1 && spec_metadata_acceptable(p.active_profile)
        && (forall|i: int| 0 <= i < n ==> spec_metadata_acceptable(#[trigger] l[i].metadata))
        && (forall|i: int| 0 <= i < n ==> (#[trigger] l[i]).metadata.id != p.active_profile.id)
        && (forall|i: int, j: int| 0 <= i < j < n ==> (#[trigger] l[i]).metadata.id != (#[trigger] l[j]).metadata.id) {
        assert forall|i: int| 0 <= i < n implies (#[trigger] spec_inactive_error(p, i)) is None by {
            assert(spec_metadata_acceptable(l[i].metadata));
            assert(l[i].metadata.id != p.active_profile.id);
            assert(!exists|j: int| 0 <= j < i && #[trigger] p.inactive_profiles[j].metadata.id == l[i].metadata.id) by {
                assert forall|j: int| 0 <= j < i implies #[trigger] p.inactive_profiles[j].metadata.id != l[i].metadata.id by {
                    assert(l[j].metadata.id != l[i].metadata.id);
                }
            }
        }
    }
}

/// Removing an inactive profile by id: naming the active profile is the
/// only refusal; otherwise the credentials of the first profile with that
/// id are returned and that profile alone is taken out, every other
/// profile kept in order; when no profile has the id nothing changes. The
/// active credentials, the active profile and the pending flag never change.
pub proof fn lemma_remove_profile_exact(s: StoreView, id: Seq<char>)
    ensures
        spec_remove_profile(s, id) is Err <==> id == spec_active_profile_id(s),
        spec_remove_profile(s, id) matches Err(e) ==> e == AuthError::ActiveProfileTargeted,
        spec_remove_profile(s, id) matches Ok((t, None)) ==> t == s && (s.account_profiles matches Some(p)
            ==> forall|j: int| 0 <= j < p.inactive_profiles.len() ==> (#[trigger] p.inactive_profiles[j]).metadata.id != id),
        spec_remove_profile(s, id) matches Ok((t, Some(a))) ==> {
            &&& t.active_auth == s.active_auth
            &&& t.pending_keyring_write == s.pending_keyring_write
            &&& s.account_profiles matches Some(p) && t.account_profiles matches Some(q)
                && q.version == p.version && q.active_profile == p.active_profile
                && q.inactive_profiles.len() + 1 == p.inactive_profiles.len()
                && exists|i: int| #![trigger p.inactive_profiles[i]]
                    0 <= i < p.inactive_profiles.len() && p.inactive_profiles[i].metadata.id == id
                    && p.inactive_profiles[i].auth == a
                    && (forall|j: int| 0 <= j < i ==> (#[trigger] p.inactive_profiles[j]).metadata.id != id)
                    && (forall|j: int| 0 <= j < i ==> #[trigger] q.inactive_profiles[j] == p.inactive_profiles[j])
                    && (forall|j: int| i <= j < q.inactive_profiles.len() ==> #[trigger] q.inactive_profiles[j] == p.inactive_profiles[j + 1])
        },
{
    if id != spec_active_profile_id(s) {
        if let Some(p) = s.account_profiles {
            lemma_find_profile(p.inactive_profiles, id);
            if let Some(i) = spec_find_profile(p.inactive_profiles, id) {
                let q = p.inactive_profiles.remove(i);
                assert(p.inactive_profiles[i] == p.inactive_profiles[i]);
            }
        }
    }
}

} // verus!
