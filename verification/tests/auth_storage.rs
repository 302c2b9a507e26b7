use codex_login_mcp::auth::account_store::{
    AccountProfileMetadata, AccountProfiles, AuthAccountStore, InactiveAccountProfile,
};
use codex_login_mcp::auth::auto::{
    load_step, may_fall_back_to_active, save_step, LoadAction, LoadEvent, LoadPhase, SaveAction,
    SaveEvent, SavePhase,
};
use codex_login_mcp::auth::backend::{
    active_auth_of, active_from_keyring, plan_mutate_active, plan_remove_inactive_profile,
    plan_save_profile, EphemeralAuthStorage, EphemeralStores,
};
use codex_login_mcp::auth::error::{AuthError, ErrorKind};
use codex_login_mcp::auth::keys::{compute_store_key, lock_file_name, normalized_for_hash, store_hash};
use codex_login_mcp::auth::model::{
    AgentIdentityAuthRecord, AgentIdentityClaims, AuthDotJson, AuthMode, BedrockAccessKeysAuth,
    BedrockApiKeyAuth,
};
use codex_login_mcp::auth::mutation::ActiveAuthMutation;

fn api_key_auth(key: &str) -> AuthDotJson {
    AuthDotJson {
        auth_mode: Some(AuthMode::ApiKey),
        openai_api_key: Some(key.to_string()),
        tokens: None,
        last_refresh: None,
        agent_identity: None,
        personal_access_token: None,
        bedrock_api_key: None,
        bedrock_access_keys: None,
    }
}

fn metadata(id: &str, label: &str) -> AccountProfileMetadata {
    AccountProfileMetadata {
        id: id.to_string(),
        label: label.to_string(),
    }
}

fn account_store() -> AuthAccountStore {
    AuthAccountStore {
        active_auth: api_key_auth("active-key"),
        account_profiles: Some(AccountProfiles {
            version: 1,
            active_profile: metadata("p", "Personal"),
            inactive_profiles: vec![InactiveAccountProfile {
                metadata: metadata("w", "Work"),
                auth: api_key_auth("inactive-key"),
            }],
        }),
        pending_keyring_write: false,
    }
}

/// Stand-in serialization: deterministic bytes of a store.
fn serialize(store: &AuthAccountStore) -> Vec<u8> {
    format!("{:?}", store).into_bytes()
}

/// A store kept in one slot, validated on save (what the file and keyring
/// backends do around the shared decisions).
#[derive(Default)]
struct Slot {
    store: Option<AuthAccountStore>,
    fail_saves: bool,
}

impl Slot {
    fn save_store(&mut self, store: &AuthAccountStore) -> Result<(), AuthError> {
        store.validate()?;
        if self.fail_saves {
            return Err(AuthError::Io {
                kind: ErrorKind::Other,
                message: "save".to_string(),
            });
        }
        self.store = Some(store.clone());
        Ok(())
    }

    fn load_store(&self) -> Result<Option<AuthAccountStore>, AuthError> {
        match &self.store {
            Some(s) => {
                s.validate()?;
                Ok(Some(s.clone()))
            }
            None => Ok(None),
        }
    }

    fn update_active(&mut self, auth: &AuthDotJson) -> Result<(), AuthError> {
        let loaded = self.load_store()?;
        let store = plan_mutate_active(loaded, ActiveAuthMutation::Replace(auth.clone()))?;
        self.save_store(&store)
    }
}

/// The automatic backend over a keyring slot, a file slot and a marker.
#[derive(Default)]
struct Auto {
    keyring: Slot,
    file: Slot,
    marker: Option<String>,
}

impl Auto {
    /// The keyring backend's own save also removes the file copy.
    fn keyring_save(&mut self, store: &AuthAccountStore) -> Result<(), AuthError> {
        self.keyring.save_store(store)?;
        self.file.store = None;
        Ok(())
    }

    fn write_transaction(&mut self, store: &AuthAccountStore) {
        self.marker = Some(store_hash(&serialize(&normalized_for_hash(store))));
    }

    fn load_store(&mut self) -> Result<Option<AuthAccountStore>, AuthError> {
        let mut phase = LoadPhase::Start;
        let mut event = LoadEvent::Begin;
        loop {
            let (next, action) = load_step(phase, event);
            phase = next;
            event = match action {
                LoadAction::ReadMarker => LoadEvent::Marker(Ok(self.marker.clone())),
                LoadAction::LoadKeyring => LoadEvent::Keyring(self.keyring.load_store()),
                LoadAction::LoadFile => LoadEvent::File(self.file.load_store()),
                LoadAction::Serialize(s) => LoadEvent::Serialized(Ok(serialize(&s))),
                LoadAction::DeleteFile => {
                    let existed = self.file.store.take().is_some();
                    LoadEvent::FileDeleted(Ok(existed))
                }
                LoadAction::ClearMarker => {
                    self.marker = None;
                    LoadEvent::MarkerCleared
                }
                LoadAction::Finish(r) => return r,
            };
        }
    }

    fn load(&mut self) -> Result<Option<AuthDotJson>, AuthError> {
        match self.load_store() {
            Ok(store) => Ok(active_auth_of(store)),
            Err(err) => {
                if !may_fall_back_to_active(&err, self.marker.is_some()) {
                    return Err(err);
                }
                let keyring = self.keyring.load_store().map(active_auth_of);
                match active_from_keyring(keyring) {
                    Some(a) => Ok(Some(a)),
                    None => self.file.load_store().map(active_auth_of),
                }
            }
        }
    }

    fn save_store(&mut self, store: &AuthAccountStore) -> Result<(), AuthError> {
        let mut phase = SavePhase::Start { store: store.clone() };
        let mut event = SaveEvent::Begin;
        loop {
            let (next, action) = save_step(phase, event);
            phase = next;
            event = match action {
                SaveAction::Serialize(s) => SaveEvent::Serialized(Ok(serialize(&s))),
                SaveAction::WriteMarker(h) => {
                    self.marker = Some(h);
                    SaveEvent::MarkerWritten(Ok(()))
                }
                SaveAction::SaveKeyring(s) => SaveEvent::KeyringSaved(self.keyring_save(&s)),
                SaveAction::DeleteFile => {
                    let existed = self.file.store.take().is_some();
                    SaveEvent::FileDeleted(Ok(existed))
                }
                SaveAction::SaveFile(s) => SaveEvent::PendingSaved(self.file.save_store(&s)),
                SaveAction::ClearMarker => {
                    self.marker = None;
                    SaveEvent::MarkerCleared
                }
                SaveAction::Finish(r) => return r,
            };
        }
    }

    fn update_active(&mut self, auth: &AuthDotJson) -> Result<(), AuthError> {
        let loaded = self.load_store()?;
        let store = plan_mutate_active(loaded, ActiveAuthMutation::Replace(auth.clone()))?;
        self.save_store(&store)
    }
}

#[test]
fn multi_account_document_remains_readable_as_legacy_auth() {
    let mut stores = EphemeralStores::new();
    let storage = EphemeralAuthStorage::new("/tmp/codex-home".to_string());
    let store = account_store();
    storage.save_store(&mut stores, &store).unwrap();
    let loaded = storage.load_store(&stores).unwrap();
    assert_eq!(active_auth_of(loaded), Some(store.active_auth));
}

#[test]
fn profile_metadata_validation_rejects_invalid_values() {
    for (id, label) in [("", "Personal"), ("personal", " ")] {
        let mut store = account_store();
        store
            .account_profiles
            .as_mut()
            .expect("profiles")
            .active_profile = metadata(id, label);
        let invalid = store
            .validate()
            .expect_err("invalid metadata should fail validation");
        assert_eq!(invalid.kind(), ErrorKind::InvalidData);
    }
    let mut duplicate = account_store();
    duplicate
        .account_profiles
        .as_mut()
        .expect("test store should include profiles")
        .inactive_profiles[0]
        .metadata
        .id = "p".to_string();
    let error = duplicate
        .validate()
        .expect_err("duplicate profile ids should fail validation");
    assert_eq!(error.kind(), ErrorKind::InvalidData);
}

#[test]
fn validation_errors_name_their_cause() {
    assert_eq!(account_store().validate(), Ok(()));
    let mut store = account_store();
    store.account_profiles.as_mut().unwrap().version = 2;
    assert_eq!(store.validate(), Err(AuthError::UnsupportedProfilesVersion(2)));
    let mut store = account_store();
    store.account_profiles.as_mut().unwrap().inactive_profiles[0].metadata.label = "l".repeat(81);
    assert_eq!(store.validate(), Err(AuthError::ProfileLabelTooLong));
    let mut store = account_store();
    store.account_profiles.as_mut().unwrap().inactive_profiles[0].metadata.label =
        format!("  {}  ", "l".repeat(80));
    assert_eq!(store.validate(), Ok(()));
    let mut store = account_store();
    store.account_profiles.as_mut().unwrap().active_profile.id = "\u{3000}\t".to_string();
    assert_eq!(store.validate(), Err(AuthError::EmptyProfileId));
    let mut store = account_store();
    let extra = InactiveAccountProfile {
        metadata: metadata("w", "Other"),
        auth: api_key_auth("x"),
    };
    store.account_profiles.as_mut().unwrap().inactive_profiles.push(extra);
    assert_eq!(store.validate(), Err(AuthError::DuplicateProfileId));
    assert_eq!(AuthAccountStore::legacy(api_key_auth("k")).validate(), Ok(()));
}

#[test]
fn active_replacement_does_not_overwrite_invalid_profile_data() {
    let mut invalid = account_store();
    invalid.account_profiles.as_mut().unwrap().version = 2;
    let mut file = Slot {
        store: Some(invalid.clone()),
        fail_saves: false,
    };
    let error = file
        .update_active(&api_key_auth("replacement-key"))
        .expect_err("invalid profile data should be protected from overwrite");
    assert_eq!(error.kind(), ErrorKind::InvalidData);
    assert_eq!(file.store, Some(invalid));
}

#[test]
fn all_non_file_backends_preserve_profiles_on_active_update() {
    // keyring-backed storages: the shared load / mutate / save decisions
    for _ in 0..2 {
        let mut keyring = Slot::default();
        let mut expected = account_store();
        keyring.save_store(&expected).unwrap();
        expected.active_auth = api_key_auth("replacement-key");
        keyring.update_active(&expected.active_auth).unwrap();
        assert_eq!(keyring.load_store().unwrap(), Some(expected));
    }
    // the in-memory storage
    let mut stores = EphemeralStores::new();
    let storage = EphemeralAuthStorage::new("/tmp/ephemeral-home".to_string());
    let mut expected = account_store();
    storage.save_store(&mut stores, &expected).unwrap();
    expected.active_auth = api_key_auth("replacement-key");
    storage
        .mutate_active(&mut stores, ActiveAuthMutation::Replace(expected.active_auth.clone()))
        .unwrap();
    assert_eq!(storage.load_store(&stores).unwrap(), Some(expected));
}

#[test]
fn auto_recovers_pending_file_store_over_stale_keyring_data() {
    for mut expected in [
        AuthAccountStore::legacy(api_key_auth("updated-key")),
        account_store(),
    ] {
        let mut storage = Auto::default();
        storage.keyring_save(&account_store()).unwrap();
        expected.active_auth = api_key_auth("updated-key");
        let mut pending = expected.clone();
        pending.pending_keyring_write = true;
        storage.file.save_store(&pending).unwrap();
        storage.update_active(&expected.active_auth).unwrap();
        assert_eq!(storage.load_store().unwrap(), Some(expected));
        assert!(storage.file.store.is_none());
    }

    let mut storage = Auto::default();
    let file_store = account_store();
    let mut keyring_store = account_store();
    keyring_store.active_auth = api_key_auth("other-key");
    storage.keyring_save(&keyring_store).unwrap();
    storage.file.save_store(&file_store).unwrap();
    let error = storage
        .load_store()
        .expect_err("unmarked conflicting stores must not be reconciled");
    assert_eq!(error.kind(), ErrorKind::InvalidData);
    let error = storage
        .load()
        .expect_err("active auth loading must not bypass a store conflict");
    assert_eq!(error.kind(), ErrorKind::InvalidData);
    assert_eq!(storage.file.load_store().unwrap(), Some(file_store));
    assert_eq!(storage.keyring.load_store().unwrap(), Some(keyring_store));
}

#[test]
fn auto_recovers_interrupted_keyring_transaction_by_store_hash() {
    let mut storage = Auto::default();
    let intended = account_store();
    let stale = AuthAccountStore::legacy(api_key_auth("stale-key"));
    storage.file.save_store(&stale).unwrap();
    storage.write_transaction(&intended);
    storage.keyring_save(&intended).unwrap();

    assert_eq!(storage.load_store().unwrap(), Some(intended.clone()));
    assert!(storage.marker.is_none());
    assert!(storage.file.store.is_none());

    let mut fallback_storage = Auto::default();
    fallback_storage.write_transaction(&intended);
    let mut pending = intended;
    pending.pending_keyring_write = true;
    fallback_storage.file.save_store(&pending).unwrap();
    assert_eq!(fallback_storage.load_store().unwrap(), Some(pending));
    assert!(fallback_storage.marker.is_none());
}

#[test]
fn auto_refuses_marker_matching_neither_copy() {
    let mut storage = Auto::default();
    storage.write_transaction(&account_store());
    storage.file.save_store(&AuthAccountStore::legacy(api_key_auth("a"))).unwrap();
    assert_eq!(storage.load_store(), Err(AuthError::UnresolvedTransaction));
    assert!(storage.marker.is_some());
    assert!(storage.load().is_err());
}

#[test]
fn auto_preserves_profiles_across_keyring_failure_and_recovery() {
    let mut failing_storage = Auto::default();
    failing_storage.keyring.fail_saves = true;
    let expected = account_store();
    failing_storage.save_store(&expected).unwrap();
    let mut pending = expected.clone();
    pending.pending_keyring_write = true;
    assert_eq!(failing_storage.file.load_store().unwrap(), Some(pending));
    assert!(failing_storage.marker.is_none());

    let mut recovered = Auto {
        keyring: Slot::default(),
        file: Slot {
            store: failing_storage.file.store.take(),
            fail_saves: false,
        },
        marker: None,
    };
    recovered.update_active(&expected.active_auth).unwrap();
    assert_eq!(recovered.load_store().unwrap(), Some(expected));
    assert!(recovered.file.store.is_none());
}

#[test]
fn plain_file_store_yields_to_keyring() {
    let mut storage = Auto::default();
    storage.keyring_save(&account_store()).unwrap();
    storage
        .file
        .save_store(&AuthAccountStore::legacy(api_key_auth("file-key")))
        .unwrap();
    assert_eq!(storage.load_store().unwrap(), Some(account_store()));
    assert!(storage.file.store.is_some());
    let mut only_file = Auto::default();
    let legacy = AuthAccountStore::legacy(api_key_auth("file-key"));
    only_file.file.save_store(&legacy).unwrap();
    assert_eq!(only_file.load_store().unwrap(), Some(legacy));
}

fn login_file() -> Slot {
    Slot {
        store: Some(AuthAccountStore::legacy(api_key_auth("active-key"))),
        fail_saves: false,
    }
}

fn save_profile(slot: &mut Slot, md: AccountProfileMetadata, auth: AuthDotJson) -> Result<(), AuthError> {
    let loaded = slot.load_store()?;
    let store = plan_save_profile(loaded, md, auth)?;
    slot.save_store(&store)
}

fn remove_profile(slot: &mut Slot, id: &str) -> Result<Option<AuthDotJson>, AuthError> {
    let loaded = slot.load_store()?;
    let (store, removed) = plan_remove_inactive_profile(loaded, id)?;
    if removed.is_some() {
        slot.save_store(&store)?;
    }
    Ok(removed)
}

#[test]
fn adding_and_updating_a_profile_preserves_the_active_login() {
    let mut file = login_file();
    save_profile(&mut file, metadata("secondary", "Secondary"), api_key_auth("secondary-key")).unwrap();
    save_profile(&mut file, metadata("secondary", "Renamed"), api_key_auth("updated-key")).unwrap();

    let store = file.store.clone().unwrap();
    assert_eq!(store.active_auth, api_key_auth("active-key"));
    let profiles = store
        .account_profiles
        .expect("profiles should be initialized");
    assert_eq!(profiles.active_profile, metadata("legacy", "Account 1"));
    assert_eq!(profiles.inactive_profiles.len(), 1);
    assert_eq!(
        profiles.inactive_profiles[0].metadata,
        metadata("secondary", "Renamed")
    );
    assert_eq!(
        profiles.inactive_profiles[0].auth,
        api_key_auth("updated-key")
    );

    let error = save_profile(&mut file, metadata("legacy", "Active"), api_key_auth("replacement-key"))
        .expect_err("add-profile login must not replace active auth");
    assert_eq!(error.kind(), ErrorKind::InvalidInput);
    assert_eq!(
        file.store.clone().unwrap().active_auth,
        api_key_auth("active-key")
    );
}

#[test]
fn profile_login_supports_bedrock_auth_methods() {
    let mut file = login_file();
    let bedrock_key = AuthDotJson {
        auth_mode: Some(AuthMode::BedrockApiKey),
        openai_api_key: None,
        bedrock_api_key: Some(BedrockApiKeyAuth {
            api_key: "bedrock-secret".to_string(),
            region: "us-east-1".to_string(),
        }),
        ..api_key_auth("unused")
    };
    let bedrock_keys = AuthDotJson {
        auth_mode: Some(AuthMode::BedrockAccessKeys),
        openai_api_key: None,
        bedrock_access_keys: Some(BedrockAccessKeysAuth {
            access_key_id: "access-key".to_string(),
            secret_access_key: "secret-key".to_string(),
            session_token: Some("session-token".to_string()),
        }),
        ..api_key_auth("unused")
    };
    save_profile(&mut file, metadata("bedrock-key", "Bedrock API key"), bedrock_key).unwrap();
    save_profile(&mut file, metadata("bedrock-aws", "Bedrock access keys"), bedrock_keys).unwrap();

    let store = file.store.clone().unwrap();
    assert_eq!(store.active_auth, api_key_auth("active-key"));
    let profiles = store
        .account_profiles
        .expect("profiles should be initialized");
    assert_eq!(profiles.inactive_profiles.len(), 2);
    assert_eq!(
        profiles.inactive_profiles[0].auth.auth_mode,
        Some(AuthMode::BedrockApiKey)
    );
    assert_eq!(
        profiles.inactive_profiles[1].auth.auth_mode,
        Some(AuthMode::BedrockAccessKeys)
    );
}

#[test]
fn removing_profiles_rejects_the_active_profile_and_preserves_other_auth() {
    let mut file = login_file();
    save_profile(&mut file, metadata("secondary", "Secondary"), api_key_auth("secondary-key")).unwrap();

    let error = remove_profile(&mut file, "legacy").expect_err("active profile removal must fail");
    assert_eq!(error.kind(), ErrorKind::InvalidInput);
    assert_eq!(
        file.store.clone().unwrap().active_auth,
        api_key_auth("active-key")
    );

    let removed = remove_profile(&mut file, "secondary").unwrap();
    assert_eq!(removed, Some(api_key_auth("secondary-key")));
    let store = file.store.clone().unwrap();
    assert_eq!(store.active_auth, api_key_auth("active-key"));
    assert!(store
        .account_profiles
        .expect("profiles should remain initialized")
        .inactive_profiles
        .is_empty());
    assert_eq!(remove_profile(&mut file, "missing").unwrap(), None);
}

#[test]
fn missing_store_errors() {
    let err = plan_mutate_active(None, ActiveAuthMutation::AgentIdentity(
        codex_login_mcp::auth::model::AgentIdentityAuthRecord {
            agent_runtime_id: "r".to_string(),
            agent_private_key: "k".to_string(),
            account_id: "a".to_string(),
            chatgpt_user_id: "u".to_string(),
            email: None,
            plan_type: "pro".to_string(),
            chatgpt_account_is_fedramp: false,
            task_id: None,
        },
    ))
    .unwrap_err();
    assert_eq!(err, AuthError::AuthDataUnavailable);
    assert_eq!(err.kind(), ErrorKind::Other);
    let err = plan_save_profile(None, metadata("a", "A"), api_key_auth("x")).unwrap_err();
    assert_eq!(err, AuthError::ActiveAuthDataUnavailable);
    let seeded = plan_mutate_active(None, ActiveAuthMutation::Replace(api_key_auth("seed"))).unwrap();
    assert_eq!(seeded, AuthAccountStore::legacy(api_key_auth("seed")));
}

#[test]
fn agent_identity_record_keeps_claims_without_task() {
    let record = AgentIdentityAuthRecord::from_claims(AgentIdentityClaims {
        agent_runtime_id: "runtime".to_string(),
        agent_private_key: "key".to_string(),
        account_id: "acct".to_string(),
        chatgpt_user_id: "user".to_string(),
        email: Some("a@example.com".to_string()),
        plan_type: "pro".to_string(),
        chatgpt_account_is_fedramp: true,
    });
    assert_eq!(record.agent_runtime_id, "runtime");
    assert_eq!(record.agent_private_key, "key");
    assert_eq!(record.account_id, "acct");
    assert_eq!(record.chatgpt_user_id, "user");
    assert_eq!(record.email.as_deref(), Some("a@example.com"));
    assert_eq!(record.plan_type, "pro");
    assert!(record.chatgpt_account_is_fedramp);
    assert_eq!(record.task_id, None);
}

#[test]
fn store_key_is_prefixed_path_digest() {
    let home = "/tmp/codex-home";
    let digest = <sha2::Sha256 as sha2::Digest>::digest(home.as_bytes());
    let hex: String = digest.iter().map(|b| format!("{b:02x}")).collect();
    assert_eq!(compute_store_key(home), format!("cli|{}", &hex[..16]));
    assert_eq!(compute_store_key(home).len(), 20);
    assert_ne!(compute_store_key(home), compute_store_key("/tmp/other-home"));
}

#[test]
fn marker_hash_is_full_sha256_hex() {
    assert_eq!(
        store_hash(b"abc"),
        "ba7816bf8f01cfea414140de5dae2223b00361a396177a9cb410ff61f20015ad"
    );
    assert_eq!(
        store_hash(b""),
        "e3b0c44298fc1c149afbf4c8996fb92427ae41e4649b934ca495991b7852b855"
    );
}

#[test]
fn lock_file_name_replaces_bars() {
    assert_eq!(lock_file_name("cli|0123abcd"), ".codex-auth-cli-0123abcd.lock");
    assert_eq!(lock_file_name("a|b|c"), ".codex-auth-a-b-c.lock");
}

#[test]
fn marker_hash_ignores_pending_flag() {
    let store = account_store();
    let mut pending = store.clone();
    pending.pending_keyring_write = true;
    let a = store_hash(&serialize(&normalized_for_hash(&store)));
    let b = store_hash(&serialize(&normalized_for_hash(&pending)));
    assert_eq!(a, b);
    assert_eq!(a.len(), 64);
    assert!(a.bytes().all(|c| c.is_ascii_digit() || (b'a'..=b'f').contains(&c)));
}
