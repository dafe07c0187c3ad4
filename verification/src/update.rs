//! Background update lifecycle.
//!
//! The `UpdateLifecycleManager` is the per-process owner of the update state
//! machine: `Idle -> Checking -> {Idle, Available} -> Downloading ->
//! ReadyToInstall -> Installing`, with `Failed -> Idle` on explicit retry.
//! Exactly one flow may be in flight at a time, enforced by a single
//! mutual-exclusion flag on the manager; an overlapping attempt is answered
//! with `AlreadyInProgress` rather than queued. The network transfers
//! themselves are performed by the surrounding application, which reports
//! their outcomes here as plain values.

use vstd::prelude::*;

verus! {

use vstd::string::StringExecFns;

/// A semantic version, ordered lexicographically by major, minor, patch.
#[derive(Debug, Clone, Copy, PartialEq, Eq, Structural)]
pub struct Version {
    pub major: u64,
    pub minor: u64,
    pub patch: u64,
}

/// `a` precedes `b` in version order.
pub open spec fn version_lt(a: Version, b: Version) -> bool {
    a.major < b.major || (a.major == b.major && (a.minor < b.minor || (a.minor == b.minor
        && a.patch < b.patch)))
}

impl Version {
    /// Whether `self` is a strictly newer version than `current`.
    pub fn newer_than(&self, current: &Version) -> (r: bool)
        ensures
            r == version_lt(*current, *self),
    {
        if self.major != current.major {
            self.major > current.major
        } else if self.minor != current.minor {
            self.minor > current.minor
        } else {
            self.patch > current.patch
        }
    }
}

/// Metadata describing an available update, produced by the remote source.
#[derive(Debug, Clone, PartialEq, Eq)]
pub struct UpdateManifest {
    pub version: Version,
    pub size: u64,
    pub url: String,
}

/// The update state machine. At most one instance exists per process.
#[derive(Debug, Clone, PartialEq, Eq)]
pub enum UpdateState {
    Idle,
    Checking,
    Available(UpdateManifest),
    Downloading { manifest: UpdateManifest, received: u64 },
    ReadyToInstall(UpdateManifest),
    Installing(UpdateManifest),
    Failed(String),
}

/// Why an update operation failed. Reasons are human-readable strings for the
/// UI layer; none of these is fatal to the process.
#[derive(Debug, Clone, PartialEq, Eq)]
pub enum UpdateError {
    CheckFailed(String),
    DownloadFailed(String),
    InstallFailed(String),
    AlreadyInProgress,
}

/// A check, download or install flow is currently in flight.
pub open spec fn flow_in_flight(s: UpdateState) -> bool {
    ||| s is Checking
    ||| s is Downloading
    ||| s is ReadyToInstall
    ||| s is Installing
}

/// The edges of the update state machine: forward motion through the flow,
/// `Failed` reachable from the active states, and `Failed -> Idle` on explicit
/// retry. A step that changes nothing (a refused overlapping call) is allowed.
pub open spec fn transition_ok(pre: UpdateState, post: UpdateState) -> bool {
    ||| post == pre
    ||| (!flow_in_flight(pre) && post is Checking)
    ||| (pre is Checking && (post is Idle || post is Available || post is Failed))
    ||| (pre matches UpdateState::Available(m) && post == (UpdateState::Downloading {
        manifest: m,
        received: 0u64,
    }))
    ||| (pre matches UpdateState::Downloading { manifest, received } && (post
        matches UpdateState::Downloading { manifest: m2, received: r2 } && m2 == manifest && r2
        >= received || post == UpdateState::ReadyToInstall(manifest) || post is Failed))
    ||| (pre matches UpdateState::ReadyToInstall(m) && post == UpdateState::Installing(m))
    ||| (pre is Installing && post is Failed)
    ||| (pre is Failed && post is Idle)
}

/// At most one flow is ever mid-transfer: a step of the state machine enters
/// the downloading phase only from `Available` — the single manifest of the
/// most recent check — and the installing phase only from `ReadyToInstall` of
/// the same flow. Together with the refusal of `begin_check` and
/// `begin_install` while the flag is set, overlapping calls beyond the first
/// can never bring a second download or installation into flight.
pub proof fn lemma_single_flow_entry(pre: UpdateState, post: UpdateState)
    requires
        transition_ok(pre, post),
    ensures
        post is Downloading && !(pre is Downloading) ==> pre is Available,
        post is Installing && !(pre is Installing) ==> pre is ReadyToInstall,
{
}

/// Owner of the update state machine and of its mutual-exclusion flag.
#[derive(Debug, Clone, PartialEq, Eq)]
pub struct UpdateLifecycleManager {
    /// The version the process is running.
    pub current: Version,
    pub state: UpdateState,
    /// The single mutual-exclusion flag: set exactly while a flow is in flight.
    pub busy: bool,
}

impl UpdateLifecycleManager {
    /// The flag mirrors the state, and download progress never exceeds the
    /// manifest size.
    pub open spec fn wf(self) -> bool {
        &&& self.busy == flow_in_flight(self.state)
        &&& (self.state matches UpdateState::Downloading { manifest, received } ==> received
            <= manifest.size)
    }

    /// A fresh manager for the running version, with no flow in flight.
    pub fn new(current: Version) -> (r: UpdateLifecycleManager)
        ensures
            r.current == current,
            r.state == UpdateState::Idle,
            r.wf(),
    {
        UpdateLifecycleManager { current, state: UpdateState::Idle, busy: false }
    }

    /// Starts an update check. While another flow is in flight the call is
    /// refused with `AlreadyInProgress` and nothing changes; otherwise the
    /// manager enters `Checking` and the application queries the remote
    /// source, reporting through `complete_check`.
    pub fn begin_check(&mut self) -> (r: Result<(), UpdateError>)
        requires
            old(self).wf(),
        ensures
            final(self).wf(),
            final(self).current == old(self).current,
            transition_ok(old(self).state, final(self).state),
            old(self).busy ==> r == Err::<(), UpdateError>(UpdateError::AlreadyInProgress)
                && *final(self) == *old(self),
            !old(self).busy ==> r is Ok && final(self).state == UpdateState::Checking,
    {
        if self.busy {
            return Err(UpdateError::AlreadyInProgress);
        }
        self.state = UpdateState::Checking;
        self.busy = true;
        Ok(())
    }

    /// Records what the remote source answered to a check.
    ///
    /// The result is `Ok(true)` exactly when the source offered a manifest
    /// whose version is newer than the running one; that manifest becomes
    /// `Available`. An older or missing manifest returns `Ok(false)` and the
    /// manager goes back to `Idle`. A failed query moves to `Failed` and is
    /// reported as `CheckFailed`. No download is performed by a check.
    pub fn complete_check(&mut self, outcome: Result<Option<UpdateManifest>, String>) -> (r:
        Result<bool, UpdateError>)
        requires
            old(self).wf(),
            old(self).state == UpdateState::Checking,
        ensures
            final(self).wf(),
            final(self).current == old(self).current,
            transition_ok(old(self).state, final(self).state),
            r == Ok::<bool, UpdateError>(true) <==> (outcome matches Ok(Some(m)) && version_lt(
                old(self).current,
                m.version,
            )),
            outcome matches Ok(Some(m)) ==> (if version_lt(old(self).current, m.version) {
                final(self).state == UpdateState::Available(m)
            } else {
                r == Ok::<bool, UpdateError>(false) && final(self).state == UpdateState::Idle
            }),
            outcome matches Ok(None) ==> r == Ok::<bool, UpdateError>(false) && final(self).state
                == UpdateState::Idle,
            outcome matches Err(reason) ==> r == Err::<bool, UpdateError>(UpdateError::CheckFailed(
                reason,
            )) && final(self).state == UpdateState::Failed(reason),
    {
        match outcome {
            Ok(Some(manifest)) => {
                if manifest.version.newer_than(&self.current) {
                    self.state = UpdateState::Available(manifest);
                    self.busy = false;
                    Ok(true)
                } else {
                    self.state = UpdateState::Idle;
                    self.busy = false;
                    Ok(false)
                }
            },
            Ok(None) => {
                self.state = UpdateState::Idle;
                self.busy = false;
                Ok(false)
            },
            Err(reason) => {
                self.state = UpdateState::Failed(reason.clone());
                self.busy = false;
                Err(UpdateError::CheckFailed(reason))
            },
        }
    }

    /// Starts installation of the update found by the most recent check.
    ///
    /// While a flow is in flight the call is refused with `AlreadyInProgress`
    /// and nothing changes, so of overlapping install attempts exactly one
    /// proceeds. If the most recent check found no update, the call is a no-op
    /// returning success (`Ok(None)`). Otherwise the available manifest enters
    /// `Downloading` with no bytes received and is handed back (`Ok(Some(m))`)
    /// for the application to fetch.
    pub fn begin_install(&mut self) -> (r: Result<Option<UpdateManifest>, UpdateError>)
        requires
            old(self).wf(),
        ensures
            final(self).wf(),
            final(self).current == old(self).current,
            transition_ok(old(self).state, final(self).state),
            old(self).busy ==> r == Err::<Option<UpdateManifest>, UpdateError>(
                UpdateError::AlreadyInProgress,
            ) && *final(self) == *old(self),
            !old(self).busy && !(old(self).state matches UpdateState::Available(_)) ==> r == Ok::<
                Option<UpdateManifest>,
                UpdateError,
            >(None) && *final(self) == *old(self),
            old(self).state matches UpdateState::Available(m) ==> r == Ok::<
                Option<UpdateManifest>,
                UpdateError,
            >(Some(m)) && final(self).state == (UpdateState::Downloading {
                manifest: m,
                received: 0u64,
            }),
    {
        if self.busy {
            return Err(UpdateError::AlreadyInProgress);
        }
        match &self.state {
            UpdateState::Available(manifest) => {
                let m = manifest.clone_manifest();
                let handed = m.clone_manifest();
                self.state = UpdateState::Downloading { manifest: m, received: 0 };
                self.busy = true;
                Ok(Some(handed))
            },
            _ => Ok(None),
        }
    }

    /// Records a progress report of the running download: `chunk` more bytes
    /// arrived. The received counter never decreases and saturates at the
    /// manifest size, so the reported progress stays within `0..=100` percent.
    pub fn download_progress(&mut self, chunk: u64)
        requires
            old(self).wf(),
            old(self).state is Downloading,
        ensures
            final(self).wf(),
            final(self).current == old(self).current,
            transition_ok(old(self).state, final(self).state),
            old(self).state matches UpdateState::Downloading { manifest, received }
                ==> final(self).state == (UpdateState::Downloading {
                manifest,
                received: (if received + chunk <= manifest.size {
                    (received + chunk) as u64
                } else {
                    manifest.size
                }),
            }),
    {
        let (manifest, received) = match &self.state {
            UpdateState::Downloading { manifest, received } => (
                manifest.clone_manifest(),
                *received,
            ),
            _ => unreached(),
        };
        let room = manifest.size - received;
        let new_received = if chunk <= room {
            received + chunk
        } else {
            manifest.size
        };
        self.state = UpdateState::Downloading { manifest, received: new_received };
    }

    /// The progress of the running download as a percentage in `0..=100`; a
    /// manifest of size zero counts as fully received.
    pub fn progress_percent(&self) -> (r: u64)
        requires
            self.wf(),
            self.state is Downloading,
        ensures
            r <= 100,
            self.state matches UpdateState::Downloading { manifest, received } ==> r as int == (
            if manifest.size == 0 {
                100
            } else {
                received * 100 / manifest.size as int
            }),
    {
        match &self.state {
            UpdateState::Downloading { manifest, received } => {
                if manifest.size == 0 {
                    100
                } else {
                    let wide: u128 = (*received as u128) * 100 / (manifest.size as u128);
                    proof {
                        assert(*received * 100 <= manifest.size * 100) by (nonlinear_arith)
                            requires
                                *received <= manifest.size,
                        ;
                        assert(*received * 100 / manifest.size as int <= manifest.size * 100
                            / manifest.size as int) by (nonlinear_arith)
                            requires
                                *received * 100 <= manifest.size * 100,
                                manifest.size > 0,
                        ;
                        assert(manifest.size * 100 / manifest.size as int == 100)
                            by (nonlinear_arith)
                            requires
                                manifest.size > 0,
                        ;
                    }
                    wide as u64
                }
            },
            _ => unreached(),
        }
    }

    /// Records the end of the download. Success hands the flow to
    /// `ReadyToInstall`; a failure reason moves to `Failed` and is reported as
    /// `DownloadFailed`.
    pub fn complete_download(&mut self, outcome: Result<(), String>) -> (r: Result<(), UpdateError>)
        requires
            old(self).wf(),
            old(self).state is Downloading,
        ensures
            final(self).wf(),
            final(self).current == old(self).current,
            transition_ok(old(self).state, final(self).state),
            outcome is Ok ==> r is Ok && (old(self).state matches UpdateState::Downloading {
                manifest,
                received,
            } && final(self).state == UpdateState::ReadyToInstall(manifest)),
            outcome matches Err(reason) ==> r == Err::<(), UpdateError>(
                UpdateError::DownloadFailed(reason),
            ) && final(self).state == UpdateState::Failed(reason),
    {
        let manifest = match &self.state {
            UpdateState::Downloading { manifest, .. } => manifest.clone_manifest(),
            _ => unreached(),
        };
        match outcome {
            Ok(()) => {
                self.state = UpdateState::ReadyToInstall(manifest);
                Ok(())
            },
            Err(reason) => {
                self.state = UpdateState::Failed(reason.clone());
                self.busy = false;
                Err(UpdateError::DownloadFailed(reason))
            },
        }
    }

    /// Hands the downloaded artifact to the installer: the flow moves from
    /// `ReadyToInstall` to `Installing`. The artifact itself is held by the
    /// application; installation is reported through `complete_install`.
    pub fn start_install(&mut self)
        requires
            old(self).wf(),
            old(self).state is ReadyToInstall,
        ensures
            final(self).wf(),
            final(self).current == old(self).current,
            transition_ok(old(self).state, final(self).state),
            old(self).state matches UpdateState::ReadyToInstall(m) ==> final(self).state
                == UpdateState::Installing(m),
    {
        let manifest = match &self.state {
            UpdateState::ReadyToInstall(manifest) => manifest.clone_manifest(),
            _ => unreached(),
        };
        self.state = UpdateState::Installing(manifest);
    }

    /// Records the installer's outcome. On success the process is about to
    /// restart, so the manager stays `Installing` and no further flow can
    /// start. A failure reason moves to `Failed` and is reported as
    /// `InstallFailed`; no rollback of partially applied changes is attempted
    /// here — that responsibility lies with the external installer.
    pub fn complete_install(&mut self, outcome: Result<(), String>) -> (r: Result<(), UpdateError>)
        requires
            old(self).wf(),
            old(self).state is Installing,
        ensures
            final(self).wf(),
            final(self).current == old(self).current,
            transition_ok(old(self).state, final(self).state),
            outcome is Ok ==> r is Ok && *final(self) == *old(self),
            outcome matches Err(reason) ==> r == Err::<(), UpdateError>(UpdateError::InstallFailed(
                reason,
            )) && final(self).state == UpdateState::Failed(reason),
    {
        match outcome {
            Ok(()) => Ok(()),
            Err(reason) => {
                self.state = UpdateState::Failed(reason.clone());
                self.busy = false;
                Err(UpdateError::InstallFailed(reason))
            },
        }
    }

    /// Explicit retry after a failure: `Failed -> Idle`. There is no automatic
    /// retry; the caller decides when to check or install again.
    pub fn retry(&mut self)
        requires
            old(self).wf(),
            old(self).state is Failed,
        ensures
            final(self).wf(),
            final(self).current == old(self).current,
            transition_ok(old(self).state, final(self).state),
            final(self).state == UpdateState::Idle,
    {
        self.state = UpdateState::Idle;
        self.busy = false;
    }

    /// The UI-facing message for an update error: the human-readable reason of
    /// a failed step, or a fixed sentence for a refused overlapping call.
    pub fn error_message(e: &UpdateError) -> (r: String)
        ensures
            r@ == error_message_spec(*e),
    {
        match e {
            UpdateError::CheckFailed(reason) => reason.clone(),
            UpdateError::DownloadFailed(reason) => reason.clone(),
            UpdateError::InstallFailed(reason) => reason.clone(),
            UpdateError::AlreadyInProgress => String::from_str("an update flow is already in progress"),
        }
    }
}

/// The message `error_message` returns for each error.
pub open spec fn error_message_spec(e: UpdateError) -> Seq<char> {
    match e {
        UpdateError::CheckFailed(reason) => reason@,
        UpdateError::DownloadFailed(reason) => reason@,
        UpdateError::InstallFailed(reason) => reason@,
        UpdateError::AlreadyInProgress => "an update flow is already in progress"@,
    }
}

impl UpdateManifest {
    /// A field-for-field copy; `Clone` on a type with a `String` field carries
    /// no specification, so the copy is spelled out.
    pub fn clone_manifest(&self) -> (r: UpdateManifest)
        ensures
            r == *self,
    {
        UpdateManifest { version: self.version, size: self.size, url: self.url.clone() }
    }
}

} // verus!
