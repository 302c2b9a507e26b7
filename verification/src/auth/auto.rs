//! The automatic backend keeps the store in the keyring and falls back to
//! the file. A write first leaves a transaction marker (the hash of the
//! store being written); a load that finds a marker recovers whichever copy
//! matches it. Both are state machines: each step takes what the last I/O
//! gave and names the next I/O to perform.

use vstd::prelude::*;
use super::account_store::{AuthAccountStore, StoreView};
use super::backend::store_opt_view;
use super::error::AuthError;
use super::keys::{normalized_for_hash, spec_normalized, spec_store_hash, store_hash};

verus! {

/// Where a load stands.
pub enum LoadPhase {
    Start,
    AwaitMarker,
    RecoverKeyring { expected: String },
    HashKeyring { expected: String, store: AuthAccountStore },
    RecoveredDelete { store: AuthAccountStore },
    RecoverFile { expected: String },
    HashFile { expected: String, store: AuthAccountStore },
    Clearing { store: AuthAccountStore },
    AwaitFile,
    Reconcile { store: AuthAccountStore, was_pending: bool },
    ReconcileDelete { store: AuthAccountStore },
    Plain { file_store: Option<AuthAccountStore> },
    Done,
}

/// What the last I/O of a load gave.
pub enum LoadEvent {
    Begin,
    /// The transaction marker's contents; `None` when there is no marker.
    Marker(Result<Option<String>, AuthError>),
    Keyring(Result<Option<AuthAccountStore>, AuthError>),
    File(Result<Option<AuthAccountStore>, AuthError>),
    /// The serialized bytes of the store handed in `LoadAction::Serialize`.
    Serialized(Result<Vec<u8>, AuthError>),
    FileDeleted(Result<bool, AuthError>),
    MarkerCleared,
}

/// The next I/O of a load.
pub enum LoadAction {
    ReadMarker,
    LoadKeyring,
    LoadFile,
    Serialize(AuthAccountStore),
    DeleteFile,
    /// Remove the marker; a failure to do so is only worth a warning.
    ClearMarker,
    Finish(Result<Option<AuthAccountStore>, AuthError>),
}

pub enum LoadPhaseV {
    Start,
    AwaitMarker,
    RecoverKeyring(Seq<char>),
    HashKeyring(Seq<char>, StoreView),
    RecoveredDelete(StoreView),
    RecoverFile(Seq<char>),
    HashFile(Seq<char>, StoreView),
    Clearing(StoreView),
    AwaitFile,
    Reconcile(StoreView, bool),
    ReconcileDelete(StoreView),
    Plain(Option<StoreView>),
    Done,
}

pub enum LoadEventV {
    Begin,
    Marker(Result<Option<Seq<char>>, AuthError>),
    Keyring(Result<Option<StoreView>, AuthError>),
    File(Result<Option<StoreView>, AuthError>),
    Serialized(Result<Seq<u8>, AuthError>),
    FileDeleted(Result<bool, AuthError>),
    MarkerCleared,
}

pub enum LoadActionV {
    ReadMarker,
    LoadKeyring,
    LoadFile,
    Serialize(StoreView),
    DeleteFile,
    ClearMarker,
    Finish(Result<Option<StoreView>, AuthError>),
}

pub open spec fn store_result_view(r: Result<Option<AuthAccountStore>, AuthError>) -> Result<Option<StoreView>, AuthError> {
    match r {
        Ok(o) => Ok(store_opt_view(o)),
        Err(e) => Err(e),
    }
}

impl View for LoadPhase {
    type V = LoadPhaseV;

    open spec fn view(&self) -> LoadPhaseV {
        match self {
            LoadPhase::Start => LoadPhaseV::Start,
            LoadPhase::AwaitMarker => LoadPhaseV::AwaitMarker,
            LoadPhase::RecoverKeyring { expected } => LoadPhaseV::RecoverKeyring(expected@),
            LoadPhase::HashKeyring { expected, store } => LoadPhaseV::HashKeyring(expected@, store@),
            LoadPhase::RecoveredDelete { store } => LoadPhaseV::RecoveredDelete(store@),
            LoadPhase::RecoverFile { expected } => LoadPhaseV::RecoverFile(expected@),
            LoadPhase::HashFile { expected, store } => LoadPhaseV::HashFile(expected@, store@),
            LoadPhase::Clearing { store } => LoadPhaseV::Clearing(store@),
            LoadPhase::AwaitFile => LoadPhaseV::AwaitFile,
            LoadPhase::Reconcile { store, was_pending } => LoadPhaseV::Reconcile(store@, *was_pending),
            LoadPhase::ReconcileDelete { store } => LoadPhaseV::ReconcileDelete(store@),
            LoadPhase::Plain { file_store } => LoadPhaseV::Plain(store_opt_view(*file_store)),
            LoadPhase::Done => LoadPhaseV::Done,
        }
    }
}

impl View for LoadEvent {
    type V = LoadEventV;

    open spec fn view(&self) -> LoadEventV {
        match self {
            LoadEvent::Begin => LoadEventV::Begin,
            LoadEvent::Marker(r) => LoadEventV::Marker(
                match r {
                    Ok(Some(h)) => Ok(Some(h@)),
                    Ok(None) => Ok(None),
                    Err(e) => Err(*e),
                },
            ),
            LoadEvent::Keyring(r) => LoadEventV::Keyring(store_result_view(*r)),
            LoadEvent::File(r) => LoadEventV::File(store_result_view(*r)),
            LoadEvent::Serialized(r) => LoadEventV::Serialized(
                match r {
                    Ok(b) => Ok(b@),
                    Err(e) => Err(*e),
                },
            ),
            LoadEvent::FileDeleted(r) => LoadEventV::FileDeleted(*r),
            LoadEvent::MarkerCleared => LoadEventV::MarkerCleared,
        }
    }
}

impl View for LoadAction {
    type V = LoadActionV;

    open spec fn view(&self) -> LoadActionV {
        match self {
            LoadAction::ReadMarker => LoadActionV::ReadMarker,
            LoadAction::LoadKeyring => LoadActionV::LoadKeyring,
            LoadAction::LoadFile => LoadActionV::LoadFile,
            LoadAction::Serialize(s) => LoadActionV::Serialize(s@),
            LoadAction::DeleteFile => LoadActionV::DeleteFile,
            LoadAction::ClearMarker => LoadActionV::ClearMarker,
            LoadAction::Finish(r) => LoadActionV::Finish(store_result_view(*r)),
        }
    }
}

/// Whether `e` is the event that answers the I/O a load in phase `p` asked
/// for.
pub open spec fn spec_load_expects(p: LoadPhaseV, e: LoadEventV) -> bool {
    match p {
        LoadPhaseV::Start => e is Begin,
        LoadPhaseV::AwaitMarker => e is Marker,
        LoadPhaseV::RecoverKeyring(_) => e is Keyring,
        LoadPhaseV::HashKeyring(_, _) => e is Serialized,
        LoadPhaseV::RecoveredDelete(_) => e is FileDeleted,
        LoadPhaseV::RecoverFile(_) => e is File,
        LoadPhaseV::HashFile(_, _) => e is Serialized,
        LoadPhaseV::Clearing(_) => e is MarkerCleared,
        LoadPhaseV::AwaitFile => e is File,
        LoadPhaseV::Reconcile(_, _) => e is Keyring,
        LoadPhaseV::ReconcileDelete(_) => e is FileDeleted,
        LoadPhaseV::Plain(_) => e is Keyring,
        LoadPhaseV::Done => false,
    }
}

/// Whether a file copy must be reconciled with the keyring before use: it
/// owes a keyring write, or it holds profiles.
pub open spec fn spec_needs_reconcile(s: StoreView) -> bool {
    s.pending_keyring_write || s.account_profiles is Some
}

/// One step of a load.
///
/// A marker means an interrupted write: the keyring copy is taken if its
/// hash matches the marker (the stale file is then removed, and the marker
/// once that worked); otherwise the file copy if it matches (the marker is
/// removed); otherwise the load fails. Without a marker, a file copy that
/// owes a keyring write or holds profiles is used (pending flag cleared): it
/// is removed when the keyring holds the same store, and refused when the
/// keyring holds another store and the file copy was not pending. Any other
/// file copy yields to a keyring store, and is used when the keyring has
/// none or fails. Errors of reads end the load with that error.
pub open spec fn spec_load_step(p: LoadPhaseV, e: LoadEventV) -> (LoadPhaseV, LoadActionV) {
    match (p, e) {
        (LoadPhaseV::Start, _) => (LoadPhaseV::AwaitMarker, LoadActionV::ReadMarker),
        (LoadPhaseV::AwaitMarker, LoadEventV::Marker(Err(x))) => (LoadPhaseV::Done, LoadActionV::Finish(Err(x))),
        (LoadPhaseV::AwaitMarker, LoadEventV::Marker(Ok(None))) => (LoadPhaseV::AwaitFile, LoadActionV::LoadFile),
        (LoadPhaseV::AwaitMarker, LoadEventV::Marker(Ok(Some(h)))) => (LoadPhaseV::RecoverKeyring(h), LoadActionV::LoadKeyring),
        (LoadPhaseV::RecoverKeyring(_), LoadEventV::Keyring(Err(x))) => (LoadPhaseV::Done, LoadActionV::Finish(Err(x))),
        (LoadPhaseV::RecoverKeyring(h), LoadEventV::Keyring(Ok(Some(s)))) => (LoadPhaseV::HashKeyring(h, s), LoadActionV::Serialize(spec_normalized(s))),
        (LoadPhaseV::RecoverKeyring(h), LoadEventV::Keyring(Ok(None))) => (LoadPhaseV::RecoverFile(h), LoadActionV::LoadFile),
        (LoadPhaseV::HashKeyring(_, _), LoadEventV::Serialized(Err(x))) => (LoadPhaseV::Done, LoadActionV::Finish(Err(x))),
        (LoadPhaseV::HashKeyring(h, s), LoadEventV::Serialized(Ok(b))) => if spec_store_hash(b) == h {
            (LoadPhaseV::RecoveredDelete(s), LoadActionV::DeleteFile)
        } else {
            (LoadPhaseV::RecoverFile(h), LoadActionV::LoadFile)
        },
        (LoadPhaseV::RecoveredDelete(s), LoadEventV::FileDeleted(Ok(_))) => (LoadPhaseV::Clearing(s), LoadActionV::ClearMarker),
        (LoadPhaseV::RecoveredDelete(s), _) => (LoadPhaseV::Done, LoadActionV::Finish(Ok(Some(s)))),
        (LoadPhaseV::Clearing(s), _) => (LoadPhaseV::Done, LoadActionV::Finish(Ok(Some(s)))),
        (LoadPhaseV::RecoverFile(_), LoadEventV::File(Err(x))) => (LoadPhaseV::Done, LoadActionV::Finish(Err(x))),
        (LoadPhaseV::RecoverFile(h), LoadEventV::File(Ok(Some(s)))) => (LoadPhaseV::HashFile(h, s), LoadActionV::Serialize(spec_normalized(s))),
        (LoadPhaseV::RecoverFile(_), LoadEventV::File(Ok(None))) => (LoadPhaseV::Done, LoadActionV::Finish(Err(AuthError::UnresolvedTransaction))),
        (LoadPhaseV::HashFile(_, _), LoadEventV::Serialized(Err(x))) => (LoadPhaseV::Done, LoadActionV::Finish(Err(x))),
        (LoadPhaseV::HashFile(h, s), LoadEventV::Serialized(Ok(b))) => if spec_store_hash(b) == h {
            (LoadPhaseV::Clearing(s), LoadActionV::ClearMarker)
        } else {
            (LoadPhaseV::Done, LoadActionV::Finish(Err(AuthError::UnresolvedTransaction)))
        },
        (LoadPhaseV::AwaitFile, LoadEventV::File(Err(x))) => (LoadPhaseV::Done, LoadActionV::Finish(Err(x))),
        (LoadPhaseV::AwaitFile, LoadEventV::File(Ok(o))) => match o {
            Some(s) => if spec_needs_reconcile(s) {
                (LoadPhaseV::Reconcile(StoreView { pending_keyring_write: false, ..s }, s.pending_keyring_write), LoadActionV::LoadKeyring)
            } else {
                (LoadPhaseV::Plain(o), LoadActionV::LoadKeyring)
            },
            None => (LoadPhaseV::Plain(o), LoadActionV::LoadKeyring),
        },
        (LoadPhaseV::Reconcile(s, wp), LoadEventV::Keyring(Ok(Some(k)))) => if k == s {
            (LoadPhaseV::ReconcileDelete(s), LoadActionV::DeleteFile)
        } else if !wp {
            (LoadPhaseV::Done, LoadActionV::Finish(Err(AuthError::ConflictingStores)))
        } else {
            (LoadPhaseV::Done, LoadActionV::Finish(Ok(Some(s))))
        },
        (LoadPhaseV::Reconcile(s, _), _) => (LoadPhaseV::Done, LoadActionV::Finish(Ok(Some(s)))),
        (LoadPhaseV::ReconcileDelete(s), _) => (LoadPhaseV::Done, LoadActionV::Finish(Ok(Some(s)))),
        (LoadPhaseV::Plain(_), LoadEventV::Keyring(Ok(Some(k)))) => (LoadPhaseV::Done, LoadActionV::Finish(Ok(Some(k)))),
        (LoadPhaseV::Plain(o), _) => (LoadPhaseV::Done, LoadActionV::Finish(Ok(o))),
        _ => (LoadPhaseV::Done, LoadActionV::Finish(Ok(None))),
    }
}

/// One step of a load: see `spec_load_step`.
pub fn load_step(phase: LoadPhase, event: LoadEvent) -> (r: (LoadPhase, LoadAction))
    requires
        spec_load_expects(phase@, event@),
    ensures
        (r.0@, r.1@) == spec_load_step(phase@, event@),
{
    match phase {
        LoadPhase::Start => (LoadPhase::AwaitMarker, LoadAction::ReadMarker),
        LoadPhase::AwaitMarker => match event {
            LoadEvent::Marker(Err(x)) => (LoadPhase::Done, LoadAction::Finish(Err(x))),
            LoadEvent::Marker(Ok(None)) => (LoadPhase::AwaitFile, LoadAction::LoadFile),
            LoadEvent::Marker(Ok(Some(h))) => (LoadPhase::RecoverKeyring { expected: h }, LoadAction::LoadKeyring),
            _ => (LoadPhase::Done, LoadAction::Finish(Ok(None))),
        },
        LoadPhase::RecoverKeyring { expected } => match event {
            LoadEvent::Keyring(Err(x)) => (LoadPhase::Done, LoadAction::Finish(Err(x))),
            LoadEvent::Keyring(Ok(Some(s))) => {
                let n = normalized_for_hash(&s);
                (LoadPhase::HashKeyring { expected, store: s }, LoadAction::Serialize(n))
            },
            LoadEvent::Keyring(Ok(None)) => (LoadPhase::RecoverFile { expected }, LoadAction::LoadFile),
            _ => (LoadPhase::Done, LoadAction::Finish(Ok(None))),
        },
        LoadPhase::HashKeyring { expected, store } => match event {
            LoadEvent::Serialized(Err(x)) => (LoadPhase::Done, LoadAction::Finish(Err(x))),
            LoadEvent::Serialized(Ok(b)) => {
                let h = store_hash(b.as_slice());
                if h == expected {
                    (LoadPhase::RecoveredDelete { store }, LoadAction::DeleteFile)
                } else {
                    (LoadPhase::RecoverFile { expected }, LoadAction::LoadFile)
                }
            },
            _ => (LoadPhase::Done, LoadAction::Finish(Ok(None))),
        },
        LoadPhase::RecoveredDelete { store } => match event {
            LoadEvent::FileDeleted(Ok(_)) => (LoadPhase::Clearing { store }, LoadAction::ClearMarker),
            _ => (LoadPhase::Done, LoadAction::Finish(Ok(Some(store)))),
        },
        LoadPhase::Clearing { store } => (LoadPhase::Done, LoadAction::Finish(Ok(Some(store)))),
        LoadPhase::RecoverFile { expected } => match event {
            LoadEvent::File(Err(x)) => (LoadPhase::Done, LoadAction::Finish(Err(x))),
            LoadEvent::File(Ok(Some(s))) => {
                let n = normalized_for_hash(&s);
                (LoadPhase::HashFile { expected, store: s }, LoadAction::Serialize(n))
            },
            LoadEvent::File(Ok(None)) => (LoadPhase::Done, LoadAction::Finish(Err(AuthError::UnresolvedTransaction))),
            _ => (LoadPhase::Done, LoadAction::Finish(Ok(None))),
        },
        LoadPhase::HashFile { expected, store } => match event {
            LoadEvent::Serialized(Err(x)) => (LoadPhase::Done, LoadAction::Finish(Err(x))),
            LoadEvent::Serialized(Ok(b)) => {
                let h = store_hash(b.as_slice());
                if h == expected {
                    (LoadPhase::Clearing { store }, LoadAction::ClearMarker)
                } else {
                    (LoadPhase::Done, LoadAction::Finish(Err(AuthError::UnresolvedTransaction)))
                }
            },
            _ => (LoadPhase::Done, LoadAction::Finish(Ok(None))),
        },
        LoadPhase::AwaitFile => match event {
            LoadEvent::File(Err(x)) => (LoadPhase::Done, LoadAction::Finish(Err(x))),
            LoadEvent::File(Ok(Some(mut s))) => {
                if s.pending_keyring_write || s.account_profiles.is_some() {
                    let was_pending = s.pending_keyring_write;
                    s.pending_keyring_write = false;
                    (LoadPhase::Reconcile { store: s, was_pending }, LoadAction::LoadKeyring)
                } else {
                    (LoadPhase::Plain { file_store: Some(s) }, LoadAction::LoadKeyring)
                }
            },
            LoadEvent::File(Ok(None)) => (LoadPhase::Plain { file_store: None }, LoadAction::LoadKeyring),
            _ => (LoadPhase::Done, LoadAction::Finish(Ok(None))),
        },
        LoadPhase::Reconcile { store, was_pending } => match event {
            LoadEvent::Keyring(Ok(Some(k))) => {
                if k.same_as(&store) {
                    (LoadPhase::ReconcileDelete { store }, LoadAction::DeleteFile)
                } else if !was_pending {
                    (LoadPhase::Done, LoadAction::Finish(Err(AuthError::ConflictingStores)))
                } else {
                    (LoadPhase::Done, LoadAction::Finish(Ok(Some(store))))
                }
            },
            _ => (LoadPhase::Done, LoadAction::Finish(Ok(Some(store)))),
        },
        LoadPhase::ReconcileDelete { store } => (LoadPhase::Done, LoadAction::Finish(Ok(Some(store)))),
        LoadPhase::Plain { file_store } => match event {
            LoadEvent::Keyring(Ok(Some(k))) => (LoadPhase::Done, LoadAction::Finish(Ok(Some(k)))),
            _ => (LoadPhase::Done, LoadAction::Finish(Ok(file_store))),
        },
        LoadPhase::Done => (LoadPhase::Done, LoadAction::Finish(Ok(None))),
    }
}

/// Where a save stands.
pub enum SavePhase {
    Start { store: AuthAccountStore },
    AwaitSerialized { store: AuthAccountStore },
    AwaitMarkerWrite { store: AuthAccountStore },
    AwaitKeyringSave { store: AuthAccountStore },
    AwaitFileDelete,
    AwaitPendingSave,
    Clearing,
    Done,
}

/// What the last I/O of a save gave.
pub enum SaveEvent {
    Begin,
    /// The serialized bytes of the store handed in `SaveAction::Serialize`.
    Serialized(Result<Vec<u8>, AuthError>),
    MarkerWritten(Result<(), AuthError>),
    KeyringSaved(Result<(), AuthError>),
    FileDeleted(Result<bool, AuthError>),
    PendingSaved(Result<(), AuthError>),
    MarkerCleared,
}

/// The next I/O of a save.
pub enum SaveAction {
    Serialize(AuthAccountStore),
    /// Write the marker holding this hash.
    WriteMarker(String),
    SaveKeyring(AuthAccountStore),
    DeleteFile,
    /// Save this copy (marked as owing a keyring write) to the file.
    SaveFile(AuthAccountStore),
    ClearMarker,
    Finish(Result<(), AuthError>),
}

pub enum SavePhaseV {
    Start(StoreView),
    AwaitSerialized(StoreView),
    AwaitMarkerWrite(StoreView),
    AwaitKeyringSave(StoreView),
    AwaitFileDelete,
    AwaitPendingSave,
    Clearing,
    Done,
}

pub enum SaveEventV {
    Begin,
    Serialized(Result<Seq<u8>, AuthError>),
    MarkerWritten(Result<(), AuthError>),
    KeyringSaved(Result<(), AuthError>),
    FileDeleted(Result<bool, AuthError>),
    PendingSaved(Result<(), AuthError>),
    MarkerCleared,
}

pub enum SaveActionV {
    Serialize(StoreView),
    WriteMarker(Seq<char>),
    SaveKeyring(StoreView),
    DeleteFile,
    SaveFile(StoreView),
    ClearMarker,
    Finish(Result<(), AuthError>),
}

impl View for SavePhase {
    type V = SavePhaseV;

    open spec fn view(&self) -> SavePhaseV {
        match self {
            SavePhase::Start { store } => SavePhaseV::Start(store@),
            SavePhase::AwaitSerialized { store } => SavePhaseV::AwaitSerialized(store@),
            SavePhase::AwaitMarkerWrite { store } => SavePhaseV::AwaitMarkerWrite(store@),
            SavePhase::AwaitKeyringSave { store } => SavePhaseV::AwaitKeyringSave(store@),
            SavePhase::AwaitFileDelete => SavePhaseV::AwaitFileDelete,
            SavePhase::AwaitPendingSave => SavePhaseV::AwaitPendingSave,
            SavePhase::Clearing => SavePhaseV::Clearing,
            SavePhase::Done => SavePhaseV::Done,
        }
    }
}

impl View for SaveEvent {
    type V = SaveEventV;

    open spec fn view(&self) -> SaveEventV {
        match self {
            SaveEvent::Begin => SaveEventV::Begin,
            SaveEvent::Serialized(r) => SaveEventV::Serialized(
                match r {
                    Ok(b) => Ok(b@),
                    Err(e) => Err(*e),
                },
            ),
            SaveEvent::MarkerWritten(r) => SaveEventV::MarkerWritten(*r),
            SaveEvent::KeyringSaved(r) => SaveEventV::KeyringSaved(*r),
            SaveEvent::FileDeleted(r) => SaveEventV::FileDeleted(*r),
            SaveEvent::PendingSaved(r) => SaveEventV::PendingSaved(*r),
            SaveEvent::MarkerCleared => SaveEventV::MarkerCleared,
        }
    }
}

impl View for SaveAction {
    type V = SaveActionV;

    open spec fn view(&self) -> SaveActionV {
        match self {
            SaveAction::Serialize(s) => SaveActionV::Serialize(s@),
            SaveAction::WriteMarker(h) => SaveActionV::WriteMarker(h@),
            SaveAction::SaveKeyring(s) => SaveActionV::SaveKeyring(s@),
            SaveAction::DeleteFile => SaveActionV::DeleteFile,
            SaveAction::SaveFile(s) => SaveActionV::SaveFile(s@),
            SaveAction::ClearMarker => SaveActionV::ClearMarker,
            SaveAction::Finish(r) => SaveActionV::Finish(*r),
        }
    }
}

/// Whether `e` answers the I/O a save in phase `p` asked for.
pub open spec fn spec_save_expects(p: SavePhaseV, e: SaveEventV) -> bool {
    match p {
        SavePhaseV::Start(_) => e is Begin,
        SavePhaseV::AwaitSerialized(_) => e is Serialized,
        SavePhaseV::AwaitMarkerWrite(_) => e is MarkerWritten,
        SavePhaseV::AwaitKeyringSave(_) => e is KeyringSaved,
        SavePhaseV::AwaitFileDelete => e is FileDeleted,
        SavePhaseV::AwaitPendingSave => e is PendingSaved,
        SavePhaseV::Clearing => e is MarkerCleared,
        SavePhaseV::Done => false,
    }
}

/// The file copy written when the keyring refuses a store.
pub open spec fn spec_pending_copy(s: StoreView) -> StoreView {
    StoreView { pending_keyring_write: true, ..s }
}

/// One step of a save: write the marker (the hash of the serialized
/// store, pending flag cleared), then the keyring. When the keyring takes
/// the store, the file copy is removed and, once that worked, the marker.
/// When the keyring refuses it, the store is saved to the file marked as
/// owing a keyring write, and the marker is removed. Failing to serialize,
/// to write the marker or to save the file copy fails the save.
pub open spec fn spec_save_step(p: SavePhaseV, e: SaveEventV) -> (SavePhaseV, SaveActionV) {
    match (p, e) {
        (SavePhaseV::Start(s), _) => (SavePhaseV::AwaitSerialized(s), SaveActionV::Serialize(spec_normalized(s))),
        (SavePhaseV::AwaitSerialized(_), SaveEventV::Serialized(Err(x))) => (SavePhaseV::Done, SaveActionV::Finish(Err(x))),
        (SavePhaseV::AwaitSerialized(s), SaveEventV::Serialized(Ok(b))) => (SavePhaseV::AwaitMarkerWrite(s), SaveActionV::WriteMarker(spec_store_hash(b))),
        (SavePhaseV::AwaitMarkerWrite(_), SaveEventV::MarkerWritten(Err(x))) => (SavePhaseV::Done, SaveActionV::Finish(Err(x))),
        (SavePhaseV::AwaitMarkerWrite(s), _) => (SavePhaseV::AwaitKeyringSave(s), SaveActionV::SaveKeyring(s)),
        (SavePhaseV::AwaitKeyringSave(_), SaveEventV::KeyringSaved(Ok(_))) => (SavePhaseV::AwaitFileDelete, SaveActionV::DeleteFile),
        (SavePhaseV::AwaitKeyringSave(s), _) => (SavePhaseV::AwaitPendingSave, SaveActionV::SaveFile(spec_pending_copy(s))),
        (SavePhaseV::AwaitFileDelete, SaveEventV::FileDeleted(Ok(_))) => (SavePhaseV::Clearing, SaveActionV::ClearMarker),
        (SavePhaseV::AwaitFileDelete, _) => (SavePhaseV::Done, SaveActionV::Finish(Ok(()))),
        (SavePhaseV::AwaitPendingSave, SaveEventV::PendingSaved(Err(x))) => (SavePhaseV::Done, SaveActionV::Finish(Err(x))),
        (SavePhaseV::AwaitPendingSave, _) => (SavePhaseV::Clearing, SaveActionV::ClearMarker),
        (SavePhaseV::Clearing, _) => (SavePhaseV::Done, SaveActionV::Finish(Ok(()))),
        _ => (SavePhaseV::Done, SaveActionV::Finish(Ok(()))),
    }
}

/// One step of a save: see `spec_save_step`.
pub fn save_step(phase: SavePhase, event: SaveEvent) -> (r: (SavePhase, SaveAction))
    requires
        spec_save_expects(phase@, event@),
    ensures
        (r.0@, r.1@) == spec_save_step(phase@, event@),
{
    match phase {
        SavePhase::Start { store } => {
            let n = normalized_for_hash(&store);
            (SavePhase::AwaitSerialized { store }, SaveAction::Serialize(n))
        },
        SavePhase::AwaitSerialized { store } => match event {
            SaveEvent::Serialized(Err(x)) => (SavePhase::Done, SaveAction::Finish(Err(x))),
            SaveEvent::Serialized(Ok(b)) => {
                let h = store_hash(b.as_slice());
                (SavePhase::AwaitMarkerWrite { store }, SaveAction::WriteMarker(h))
            },
            _ => (SavePhase::Done, SaveAction::Finish(Ok(()))),
        },
        SavePhase::AwaitMarkerWrite { store } => match event {
            SaveEvent::MarkerWritten(Err(x)) => (SavePhase::Done, SaveAction::Finish(Err(x))),
            _ => {
                let copy = store.clone();
                (SavePhase::AwaitKeyringSave { store }, SaveAction::SaveKeyring(copy))
            },
        },
        SavePhase::AwaitKeyringSave { store } => match event {
            SaveEvent::KeyringSaved(Ok(())) => (SavePhase::AwaitFileDelete, SaveAction::DeleteFile),
            _ => {
                let mut pending = store;
                pending.pending_keyring_write = true;
                (SavePhase::AwaitPendingSave, SaveAction::SaveFile(pending))
            },
        },
        SavePhase::AwaitFileDelete => match event {
            SaveEvent::FileDeleted(Ok(_)) => (SavePhase::Clearing, SaveAction::ClearMarker),
            _ => (SavePhase::Done, SaveAction::Finish(Ok(()))),
        },
        SavePhase::AwaitPendingSave => match event {
            SaveEvent::PendingSaved(Err(x)) => (SavePhase::Done, SaveAction::Finish(Err(x))),
            _ => (SavePhase::Clearing, SaveAction::ClearMarker),
        },
        SavePhase::Clearing => (SavePhase::Done, SaveAction::Finish(Ok(()))),
        SavePhase::Done => (SavePhase::Done, SaveAction::Finish(Ok(()))),
    }
}

/// Whether a failed load of the whole store may fall back to reading only
/// the active credentials: not while a transaction marker exists, and not
/// for invalid data (which includes conflicting copies).
pub open spec fn spec_may_fall_back(err: AuthError, marker_exists: bool) -> bool {
    !marker_exists && err.spec_kind() != super::error::ErrorKind::InvalidData
}

pub fn may_fall_back_to_active(err: &AuthError, marker_exists: bool) -> (r: bool)
    ensures
        r == spec_may_fall_back(*err, marker_exists),
{
    !marker_exists && err.kind() != super::error::ErrorKind::InvalidData
}

/// What the storage answers during one load: the marker, each copy, how a
/// store serializes, and whether removing the file works.
pub struct LoadWorld {
    pub marker: Result<Option<Seq<char>>, AuthError>,
    pub keyring: Result<Option<StoreView>, AuthError>,
    pub file: Result<Option<StoreView>, AuthError>,
    pub serialize: spec_fn(StoreView) -> Seq<u8>,
    pub file_delete: Result<bool, AuthError>,
}

/// The event the storage answers an action with.
pub open spec fn spec_load_event(a: LoadActionV, w: LoadWorld) -> LoadEventV {
    match a {
        LoadActionV::ReadMarker => LoadEventV::Marker(w.marker),
        LoadActionV::LoadKeyring => LoadEventV::Keyring(w.keyring),
        LoadActionV::LoadFile => LoadEventV::File(w.file),
        LoadActionV::Serialize(s) => LoadEventV::Serialized(Ok((w.serialize)(s))),
        LoadActionV::DeleteFile => LoadEventV::FileDeleted(w.file_delete),
        LoadActionV::ClearMarker => LoadEventV::MarkerCleared,
        LoadActionV::Finish(_) => LoadEventV::Begin,
    }
}

/// Runs a load for at most `fuel` steps: the result (if it finished) and
/// the actions performed, in order.
pub open spec fn spec_load_run(p: LoadPhaseV, e: LoadEventV, w: LoadWorld, fuel: nat) -> (Option<Result<Option<StoreView>, AuthError>>, Seq<LoadActionV>)
    decreases fuel,
{
    if fuel == 0 {
        (None, Seq::empty())
    } else {
        let (p2, a) = spec_load_step(p, e);
        match a {
            LoadActionV::Finish(r) => (Some(r), seq![a]),
            _ => {
                let (r, t) = spec_load_run(p2, spec_load_event(a, w), w, (fuel - 1) as nat);
                (r, seq![a] + t)
            },
        }
    }
}

/// A complete load against `w`.
pub open spec fn spec_auto_load(w: LoadWorld) -> (Option<Result<Option<StoreView>, AuthError>>, Seq<LoadActionV>) {
    spec_load_run(LoadPhaseV::Start, LoadEventV::Begin, w, 8)
}

/// The marker hash of a store, as a save writes it.
pub open spec fn spec_marker_of(w_serialize: spec_fn(StoreView) -> Seq<u8>, s: StoreView) -> Seq<char> {
    spec_store_hash(w_serialize(spec_normalized(s)))
}

/// An interrupted write whose keyring copy matches the marker is recovered
/// from the keyring; the stale file is removed, and the marker too once
/// that worked.
pub proof fn lemma_load_recovers_keyring_copy(w: LoadWorld, k: StoreView)
    requires
        w.keyring == Ok::<Option<StoreView>, AuthError>(Some(k)),
        w.marker == Ok::<Option<Seq<char>>, AuthError>(Some(spec_marker_of(w.serialize, k))),
    ensures
        spec_auto_load(w).0 == Some(Ok::<Option<StoreView>, AuthError>(Some(k))),
        spec_auto_load(w).1.contains(LoadActionV::DeleteFile),
        w.file_delete is Ok ==> spec_auto_load(w).1.contains(LoadActionV::ClearMarker),
{
    reveal_with_fuel(spec_load_run, 8);
    let t = spec_auto_load(w).1;
    assert(t[3] == LoadActionV::DeleteFile);
    if w.file_delete is Ok {
        assert(t[4] == LoadActionV::ClearMarker);
    }
}

/// An interrupted write whose keyring copy does not match the marker, but
/// whose file copy does, is recovered from the file and the marker removed.
pub proof fn lemma_load_recovers_file_copy(w: LoadWorld, f: StoreView)
    requires
        w.marker matches Ok(Some(h)) && h == spec_marker_of(w.serialize, f),
        w.keyring matches Ok(o) && (o matches Some(k) ==> spec_marker_of(w.serialize, k) != spec_marker_of(w.serialize, f)),
        w.file == Ok::<Option<StoreView>, AuthError>(Some(f)),
    ensures
        spec_auto_load(w).0 == Some(Ok::<Option<StoreView>, AuthError>(Some(f))),
        spec_auto_load(w).1.contains(LoadActionV::ClearMarker),
        !spec_auto_load(w).1.contains(LoadActionV::DeleteFile),
{
    reveal_with_fuel(spec_load_run, 8);
    let t = spec_auto_load(w).1;
    match w.keyring {
        Ok(Some(k)) => {
            assert(t[5] == LoadActionV::ClearMarker);
        },
        _ => {
            assert(t[4] == LoadActionV::ClearMarker);
        },
    }
}

/// A marker that matches neither copy fails the load.
pub proof fn lemma_load_refuses_unmatched_marker(w: LoadWorld)
    requires
        w.marker matches Ok(Some(h)) && (w.keyring matches Ok(o) && (o matches Some(k) ==> spec_marker_of(w.serialize, k) != h))
            && (w.file matches Ok(o) && (o matches Some(f) ==> spec_marker_of(w.serialize, f) != h)),
    ensures
        spec_auto_load(w).0 == Some(Err::<Option<StoreView>, AuthError>(AuthError::UnresolvedTransaction)),
{
    reveal_with_fuel(spec_load_run, 8);
}

/// Without a marker, a file copy that owes a keyring write is used (its
/// pending flag cleared), whatever the keyring holds.
pub proof fn lemma_load_prefers_pending_file(w: LoadWorld, f: StoreView)
    requires
        w.marker == Ok::<Option<Seq<char>>, AuthError>(None),
        w.file == Ok::<Option<StoreView>, AuthError>(Some(f)),
        f.pending_keyring_write,
    ensures
        spec_auto_load(w).0 == Some(
            Ok::<Option<StoreView>, AuthError>(Some(StoreView { pending_keyring_write: false, ..f })),
        ),
{
    reveal_with_fuel(spec_load_run, 8);
}

/// Without a marker, a file copy holding profiles is what loads (its
/// pending flag cleared) whenever the keyring holds no store, fails, or
/// holds that same store; in the last case the file copy is removed.
pub proof fn lemma_load_keeps_file_with_profiles(w: LoadWorld, f: StoreView)
    requires
        w.marker == Ok::<Option<Seq<char>>, AuthError>(None),
        w.file == Ok::<Option<StoreView>, AuthError>(Some(f)),
        f.account_profiles is Some,
        w.keyring matches Ok(Some(k)) ==> k == (StoreView { pending_keyring_write: false, ..f }),
    ensures
        spec_auto_load(w).0 == Some(
            Ok::<Option<StoreView>, AuthError>(Some(StoreView { pending_keyring_write: false, ..f })),
        ),
        (w.keyring matches Ok(Some(_))) ==> spec_auto_load(w).1.contains(LoadActionV::DeleteFile),
{
    reveal_with_fuel(spec_load_run, 8);
    let t = spec_auto_load(w).1;
    if w.keyring matches Ok(Some(_)) {
        assert(t[3] == LoadActionV::DeleteFile);
    }
}

/// Without a marker, a file copy with profiles that does not owe a keyring
/// write, next to a different keyring store, fails the load as a conflict;
/// neither copy is removed.
pub proof fn lemma_load_refuses_conflict(w: LoadWorld, f: StoreView, k: StoreView)
    requires
        w.marker == Ok::<Option<Seq<char>>, AuthError>(None),
        w.file == Ok::<Option<StoreView>, AuthError>(Some(f)),
        !f.pending_keyring_write,
        f.account_profiles is Some,
        w.keyring == Ok::<Option<StoreView>, AuthError>(Some(k)),
        k != f,
    ensures
        spec_auto_load(w).0 == Some(Err::<Option<StoreView>, AuthError>(AuthError::ConflictingStores)),
        !spec_auto_load(w).1.contains(LoadActionV::DeleteFile),
{
    reveal_with_fuel(spec_load_run, 8);
    assert(StoreView { pending_keyring_write: false, ..f } == f);
    let t = spec_auto_load(w).1;
    assert(t.len() == 4);
    assert(t[0] != LoadActionV::DeleteFile && t[1] != LoadActionV::DeleteFile && t[2] != LoadActionV::DeleteFile && t[3] != LoadActionV::DeleteFile);
}

/// Without a marker, a plain file copy (no pending write, no profiles) or
/// no file yields to the keyring store when there is one, and is used
/// otherwise.
pub proof fn lemma_load_plain_prefers_keyring(w: LoadWorld)
    requires
        w.marker == Ok::<Option<Seq<char>>, AuthError>(None),
        w.file matches Ok(o) && (o matches Some(f) ==> !spec_needs_reconcile(f)),
    ensures
        spec_auto_load(w).0 == Some(
            Ok::<Option<StoreView>, AuthError>(
                match (w.keyring, w.file) {
                    (Ok(Some(k)), _) => Some(k),
                    (_, Ok(o)) => o,
                    _ => None,
                },
            ),
        ),
{
    reveal_with_fuel(spec_load_run, 8);
}

/// What the storage answers during one save.
pub struct SaveWorld {
    pub serialize: spec_fn(StoreView) -> Seq<u8>,
    pub marker_write: Result<(), AuthError>,
    pub keyring_save: Result<(), AuthError>,
    pub file_delete: Result<bool, AuthError>,
    pub pending_save: Result<(), AuthError>,
}

pub open spec fn spec_save_event(a: SaveActionV, w: SaveWorld) -> SaveEventV {
    match a {
        SaveActionV::Serialize(s) => SaveEventV::Serialized(Ok((w.serialize)(s))),
        SaveActionV::WriteMarker(_) => SaveEventV::MarkerWritten(w.marker_write),
        SaveActionV::SaveKeyring(_) => SaveEventV::KeyringSaved(w.keyring_save),
        SaveActionV::DeleteFile => SaveEventV::FileDeleted(w.file_delete),
        SaveActionV::SaveFile(_) => SaveEventV::PendingSaved(w.pending_save),
        SaveActionV::ClearMarker => SaveEventV::MarkerCleared,
        SaveActionV::Finish(_) => SaveEventV::Begin,
    }
}

/// Runs a save for at most `fuel` steps: the result (if it finished) and
/// the actions performed, in order.
pub open spec fn spec_save_run(p: SavePhaseV, e: SaveEventV, w: SaveWorld, fuel: nat) -> (Option<Result<(), AuthError>>, Seq<SaveActionV>)
    decreases fuel,
{
    if fuel == 0 {
        (None, Seq::empty())
    } else {
        let (p2, a) = spec_save_step(p, e);
        match a {
            SaveActionV::Finish(r) => (Some(r), seq![a]),
            _ => {
                let (r, t) = spec_save_run(p2, spec_save_event(a, w), w, (fuel - 1) as nat);
                (r, seq![a] + t)
            },
        }
    }
}

/// A complete save of `s` against `w`.
pub open spec fn spec_auto_save(s: StoreView, w: SaveWorld) -> (Option<Result<(), AuthError>>, Seq<SaveActionV>) {
    spec_save_run(SavePhaseV::Start(s), SaveEventV::Begin, w, 8)
}

/// A save writes the marker of the store before the keyring; when the
/// keyring takes the store the save succeeds without writing the file, and
/// removes the file copy (and then the marker).
pub proof fn lemma_save_through_keyring(s: StoreView, w: SaveWorld)
    requires
        w.marker_write is Ok,
        w.keyring_save is Ok,
    ensures
        spec_auto_save(s, w).0 == Some(Ok::<(), AuthError>(())),
        spec_auto_save(s, w).1[1] == SaveActionV::WriteMarker(spec_marker_of(w.serialize, s)),
        spec_auto_save(s, w).1[2] == SaveActionV::SaveKeyring(s),
        spec_auto_save(s, w).1[3] == SaveActionV::DeleteFile,
        w.file_delete is Ok ==> spec_auto_save(s, w).1[4] == SaveActionV::ClearMarker,
{
    reveal_with_fuel(spec_save_run, 8);
}

/// When the keyring refuses the store, the save writes the store to the
/// file marked as owing a keyring write, and its result is that write's.
pub proof fn lemma_save_falls_back_to_file(s: StoreView, w: SaveWorld)
    requires
        w.marker_write is Ok,
        w.keyring_save is Err,
    ensures
        spec_auto_save(s, w).0 == Some(w.pending_save),
        spec_auto_save(s, w).1[3] == SaveActionV::SaveFile(spec_pending_copy(s)),
        w.pending_save is Ok ==> spec_auto_save(s, w).1[4] == SaveActionV::ClearMarker,
{
    reveal_with_fuel(spec_save_run, 8);
    match w.pending_save {
        Ok(u) => {
            assert(w.pending_save == Ok::<(), AuthError>(()));
        },
        Err(_) => {},
    }
}

/// A failed marker write fails the save before anything else is written.
pub proof fn lemma_save_needs_marker(s: StoreView, w: SaveWorld)
    requires
        w.marker_write is Err,
    ensures
        spec_auto_save(s, w).0 == Some(w.marker_write),
        spec_auto_save(s, w).1.len() == 3,
{
    reveal_with_fuel(spec_save_run, 8);
}

/// What is read back is what was written: a store without a pending flag
/// that the keyring took loads back from the keyring (the file copy and the
/// marker gone), and one the keyring refused loads back from the file copy
/// whatever the keyring still holds.
pub proof fn lemma_load_returns_saved_store(s: StoreView, kept_keyring: Result<Option<StoreView>, AuthError>, ser: spec_fn(StoreView) -> Seq<u8>, del: Result<bool, AuthError>)
    requires
        !s.pending_keyring_write,
    ensures
        spec_auto_load(
            LoadWorld {
                marker: Ok(None),
                keyring: Ok(Some(s)),
                file: Ok(None),
                serialize: ser,
                file_delete: del,
            },
        ).0 == Some(Ok::<Option<StoreView>, AuthError>(Some(s))),
        spec_auto_load(
            LoadWorld {
                marker: Ok(None),
                keyring: kept_keyring,
                file: Ok(Some(spec_pending_copy(s))),
                serialize: ser,
                file_delete: del,
            },
        ).0 == Some(Ok::<Option<StoreView>, AuthError>(Some(s))),
        spec_auto_load(
            LoadWorld {
                marker: Ok(Some(spec_marker_of(ser, s))),
                keyring: Ok(Some(s)),
                file: kept_keyring,
                serialize: ser,
                file_delete: del,
            },
        ).0 == Some(Ok::<Option<StoreView>, AuthError>(Some(s))),
{
    reveal_with_fuel(spec_load_run, 8);
    assert(StoreView { pending_keyring_write: false, ..spec_pending_copy(s) } == s);
}

} // verus!
