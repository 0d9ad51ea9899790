//! The update manager: a state machine for checking, downloading and
//! installing application updates, with a best-effort rollback
//! reference kept in the settings store.
//!
//! The shell performs the network work (querying the update source,
//! streaming the artifact) and hands the outcome of each step back as
//! an event; every decision between those steps is made and proved
//! here. The one ordering that matters: the currently running version
//! is persisted as `last_version` in the same step that the manager
//! accepts an update, before any byte of the artifact is applied.

use vstd::prelude::*;
use vstd::arithmetic::div_mod::lemma_multiply_divide_lt;
use vstd::string::StringExecFns;
use crate::settings::AppSettings;
use crate::settings::SettingsModel;
use crate::settings::StoreDoc;
use crate::settings::load_from;
use crate::settings::load_settings;
use crate::settings::save_settings;
use crate::settings::store_into;

verus! {

/// Where one update cycle stands.
pub enum UpdateState {
    /// Nothing in flight; also the state after a failed download.
    Idle,
    /// The update source is being queried.
    Checking,
    /// The cycle ended: the running build is current.
    NoUpdateFound,
    /// The cycle ended: the query itself failed; a later trigger
    /// starts a fresh cycle.
    CheckFailed,
    /// A newer version exists and the rollback reference is persisted.
    UpdateAvailable { version: String },
    /// The artifact is being streamed.
    Downloading { version: String },
    /// The artifact is installed and takes effect on next restart.
    Installed { version: String },
}

/// Mathematical image of [`UpdateState`].
pub enum UpdateStateModel {
    Idle,
    Checking,
    NoUpdateFound,
    CheckFailed,
    UpdateAvailable { version: Seq<char> },
    Downloading { version: Seq<char> },
    Installed { version: Seq<char> },
}

impl View for UpdateState {
    type V = UpdateStateModel;

    open spec fn view(&self) -> UpdateStateModel {
        match self {
            UpdateState::Idle => UpdateStateModel::Idle,
            UpdateState::Checking => UpdateStateModel::Checking,
            UpdateState::NoUpdateFound => UpdateStateModel::NoUpdateFound,
            UpdateState::CheckFailed => UpdateStateModel::CheckFailed,
            UpdateState::UpdateAvailable { version } => UpdateStateModel::UpdateAvailable {
                version: version@,
            },
            UpdateState::Downloading { version } => UpdateStateModel::Downloading {
                version: version@,
            },
            UpdateState::Installed { version } => UpdateStateModel::Installed {
                version: version@,
            },
        }
    }
}

/// The version a mid-cycle state carries.
pub open spec fn state_version(s: UpdateStateModel) -> Seq<char>
    recommends
        s is UpdateAvailable || s is Downloading || s is Installed,
{
    match s {
        UpdateStateModel::UpdateAvailable { version } => version,
        UpdateStateModel::Downloading { version } => version,
        UpdateStateModel::Installed { version } => version,
        _ => Seq::empty(),
    }
}

/// What the update source answered to one check.
pub enum CheckOutcome {
    /// A build newer than the running one exists.
    Found { version: String },
    /// The running build is current.
    UpToDate,
    /// The query failed (network, signature, ...).
    Failed { reason: String },
}

/// How one download-and-install attempt ended.
pub enum DownloadOutcome {
    /// The artifact is installed; it takes effect on next restart.
    Completed,
    /// The attempt failed; partial data is discarded.
    Failed { reason: String },
}

/// Mathematical image of [`UpdateManager`].
pub struct ManagerModel {
    pub current_version: Seq<char>,
    pub state: UpdateStateModel,
}

/// Drives one update cycle for the build that is currently running.
pub struct UpdateManager {
    /// The version of the running build.
    pub current_version: String,
    /// Where the cycle stands.
    pub state: UpdateState,
}

impl View for UpdateManager {
    type V = ManagerModel;

    open spec fn view(&self) -> ManagerModel {
        ManagerModel { current_version: self.current_version@, state: self.state@ }
    }
}

impl UpdateManager {
    /// A manager for the running build, with nothing in flight.
    pub fn new(current_version: String) -> (m: UpdateManager)
        ensures
            m@.current_version == current_version@,
            m@.state is Idle,
    {
        UpdateManager { current_version, state: UpdateState::Idle }
    }

    /// Start a fresh cycle by querying the update source. A cycle can
    /// only start when none is in flight: from idle or from a state
    /// that ended the previous cycle.
    pub fn begin_check(&mut self)
        requires
            !(old(self)@.state is Checking),
            !(old(self)@.state is UpdateAvailable),
            !(old(self)@.state is Downloading),
        ensures
            final(self)@.current_version == old(self)@.current_version,
            final(self)@.state is Checking,
    {
        self.state = UpdateState::Checking;
    }

    /// Take the update source's answer. When a newer version was
    /// found, the currently running version is persisted into the
    /// store as the rollback reference in this very step — before any
    /// download begins — so a manual rollback has a reference point
    /// even if the process dies mid-update. The other answers end the
    /// cycle and leave the store untouched.
    pub fn record_check(&mut self, outcome: &CheckOutcome, doc: &mut StoreDoc)
        requires
            old(self)@.state is Checking,
        ensures
            final(self)@.current_version == old(self)@.current_version,
            (outcome matches CheckOutcome::Found { version } ==> {
                &&& final(self)@.state == (UpdateStateModel::UpdateAvailable {
                    version: version@,
                })
                &&& final(doc)@ == store_into(
                    (SettingsModel {
                        last_version: Some(old(self)@.current_version),
                        ..load_from(old(doc)@)
                    }),
                    old(doc)@,
                )
            }),
            outcome is UpToDate ==> final(self)@.state is NoUpdateFound && *final(doc) == *old(doc),
            outcome is Failed ==> final(self)@.state is CheckFailed && *final(doc) == *old(doc),
    {
        match outcome {
            CheckOutcome::Found { version } => {
                let mut settings = load_settings(doc);
                settings.last_version = Some(self.current_version.clone());
                save_settings(&settings, doc);
                self.state = UpdateState::UpdateAvailable { version: version.clone() };
            },
            CheckOutcome::UpToDate => {
                self.state = UpdateState::NoUpdateFound;
            },
            CheckOutcome::Failed { reason: _ } => {
                self.state = UpdateState::CheckFailed;
            },
        }
    }

    /// Start streaming the accepted update. Only reachable once the
    /// rollback reference write of [`Self::record_check`] happened.
    pub fn begin_download(&mut self)
        requires
            old(self)@.state is UpdateAvailable,
        ensures
            final(self)@.current_version == old(self)@.current_version,
            final(self)@.state == (UpdateStateModel::Downloading {
                version: state_version(old(self)@.state),
            }),
    {
        let version = match &self.state {
            UpdateState::UpdateAvailable { version } => version.clone(),
            _ => vstd::pervasive::unreached(),
        };
        self.state = UpdateState::Downloading { version };
    }

    /// Take the end of the download-and-install attempt. Success
    /// installs for the next restart; failure discards the partial
    /// data and reverts the cycle to idle.
    pub fn record_download(&mut self, outcome: &DownloadOutcome)
        requires
            old(self)@.state is Downloading,
        ensures
            final(self)@.current_version == old(self)@.current_version,
            outcome is Completed ==> final(self)@.state == (UpdateStateModel::Installed {
                version: state_version(old(self)@.state),
            }),
            outcome is Failed ==> final(self)@.state is Idle,
    {
        match outcome {
            DownloadOutcome::Completed => {
                let version = match &self.state {
                    UpdateState::Downloading { version } => version.clone(),
                    _ => vstd::pervasive::unreached(),
                };
                self.state = UpdateState::Installed { version };
            },
            DownloadOutcome::Failed { reason: _ } => {
                self.state = UpdateState::Idle;
            },
        }
    }
}

/// Integer percentage of a download, clamped at 100 when the reported
/// byte count overshoots the announced total.
pub open spec fn percent_of(downloaded: u64, total: u64) -> u64
    recommends
        total > 0,
{
    if downloaded >= total {
        100
    } else {
        ((downloaded * 100) / (total as int)) as u64
    }
}

/// Progress of a running download as a whole percentage, or `None`
/// when the source announced no usable total.
pub fn progress_percent(downloaded: u64, total: Option<u64>) -> (p: Option<u64>)
    ensures
        (match total {
            Some(t) => t > 0,
            None => false,
        }) ==> p == Some(percent_of(downloaded, total.unwrap())),
        (match total {
            Some(t) => t == 0,
            None => true,
        }) ==> p is None,
{
    match total {
        Some(t) => {
            if t == 0 {
                None
            } else if downloaded >= t {
                Some(100)
            } else {
                let v: u128 = (downloaded as u128) * 100 / (t as u128);
                proof {
                    lemma_multiply_divide_lt(downloaded as int * 100, t as int, 100);
                }
                Some(v as u64)
            }
        },
        None => None,
    }
}

/// What a rollback request reports: the manager never downgrades by
/// itself, it only hands back the recorded reference.
pub enum RollbackOutcome {
    /// The version that ran before the last successful install.
    Previous { version: String },
    /// Nothing was ever recorded; rollback has no reference point.
    Unavailable,
}

/// Report the rollback reference from the settings. Total on every
/// input: a missing reference is an `Unavailable` answer, never an
/// error.
pub fn rollback_update(settings: &AppSettings) -> (r: RollbackOutcome)
    ensures
        settings@.last_version is Some ==> (r matches RollbackOutcome::Previous { version }
            && Some(version@) == settings@.last_version),
        settings@.last_version is None ==> r == RollbackOutcome::Unavailable,
{
    match &settings.last_version {
        Some(v) => RollbackOutcome::Previous { version: v.clone() },
        None => RollbackOutcome::Unavailable,
    }
}

/// The user-facing sentence for a rollback report.
pub fn rollback_message(r: &RollbackOutcome) -> (m: String)
    ensures
        (r matches RollbackOutcome::Previous { version } ==> m@ == "Previous version was "@
            + version@ + ". Please download from GitHub releases."@),
        r is Unavailable ==> m@ == "No previous version available for rollback"@,
{
    match r {
        RollbackOutcome::Previous { version } => {
            let mut m = String::from_str("Previous version was ");
            m.append(version.as_str());
            m.append(". Please download from GitHub releases.");
            m
        },
        RollbackOutcome::Unavailable => String::from_str(
            "No previous version available for rollback",
        ),
    }
}

/// The immediate answer a manual, user-triggered check hands back to
/// the hosted application: availability is reported at once, the
/// download itself continues in the background; only a failed query is
/// an error, carried as its reason.
pub fn manual_check_response(outcome: &CheckOutcome) -> (m: Result<String, String>)
    ensures
        (outcome matches CheckOutcome::Found { version } ==> m matches Ok(t) && t@ == "Update "@
            + version@ + " available - downloading..."@),
        outcome is UpToDate ==> (m matches Ok(t) && t@ == "No updates available"@),
        (outcome matches CheckOutcome::Failed { reason } ==> m matches Err(e) && e@ == reason@),
{
    match outcome {
        CheckOutcome::Found { version } => {
            let mut m = String::from_str("Update ");
            m.append(version.as_str());
            m.append(" available - downloading...");
            Ok(m)
        },
        CheckOutcome::UpToDate => Ok(String::from_str("No updates available")),
        CheckOutcome::Failed { reason } => Err(reason.clone()),
    }
}

/// Law: accepting an update persists the pre-install running version
/// as the rollback reference, and that write lands before any download
/// byte moves. [`UpdateManager::record_check`] rewrites the store in
/// the very step that makes `UpdateAvailable` reachable, and neither
/// [`UpdateManager::begin_download`] nor
/// [`UpdateManager::record_download`] touches the store, so after a
/// completed `UpdateAvailable` to `Installed` transition — or after an
/// interruption anywhere between the write and the install — the store
/// still resolves `last_version` to the version that was running when
/// the update was accepted.
pub proof fn lemma_rollback_reference_survives_install(d: crate::settings::DocModel, current: Seq<char>)
    ensures
        load_from(
            store_into(
                (SettingsModel { last_version: Some(current), ..load_from(d) }),
                d,
            ),
        ).last_version == Some(current),
{
}

} // verus!
