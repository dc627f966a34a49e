//! Installing a release: the installer's decisions as a state machine.
//!
//! The installer never touches the file system or the network itself. Each
//! step names the next action; whoever drives it performs that action and
//! reports what happened as the next event. The running executable is renamed
//! over only after the staged artifact's checksum matched the release's.
use vstd::prelude::*;
use crate::checksum::{md5_hex, md5sum};
use crate::update::TTDashUpgradeTarget;
use crate::version::{TTDashVersion, version_text};

verus! {

/// Where the previous executable is copied before it is replaced.
pub fn backup_path() -> (r: &'static str)
    ensures
        r@ == "/tmp/ttdash.prev"@,
{
    "/tmp/ttdash.prev"
}

/// Where a release's artifact is staged: one path per version, so an
/// interrupted attempt at the same version finds what it left.
pub open spec fn staging_path_of(v: TTDashVersion) -> Seq<char> {
    "/tmp/ttdash-download-"@ + version_text(v)
}

#[derive(Debug, Clone, Copy, PartialEq, Eq, Structural)]
pub enum InstallPhase {
    /// Waiting for the contents of a file already at the staging path.
    CheckExisting,
    /// Waiting for the download into the staging path.
    Download,
    /// Waiting for the contents of the freshly downloaded file.
    Verify,
    /// Waiting for the staged file to be made executable.
    SetPermissions,
    /// Waiting for the running executable to be copied to the backup path.
    Backup,
    /// Waiting for the staged file to be renamed over the running executable.
    Replace,
    /// Waiting for the process image to be replaced.
    Exec,
    /// Given up; the running executable is untouched or already replaced.
    Failed,
    /// The downloaded artifact failed its checksum.
    Aborted,
}

/// Why an install gave up.
#[derive(Debug, Clone, Copy, PartialEq, Eq, Structural)]
pub enum InstallFailure {
    /// The download failed.
    Network,
    /// A file could not be read, made executable or renamed.
    Filesystem,
    /// The process image could not be replaced.
    ProcessReplace,
    /// An event that does not answer the last action.
    OutOfOrder,
}

/// What the driver of an install is to do next.
#[derive(Debug, Clone, Copy, PartialEq, Eq, Structural)]
pub enum InstallAction {
    /// Read the staged file and report its contents.
    ReadStaged,
    /// Download the release's URL into the staging path, replacing what is there.
    Download,
    /// Give the staged file the execute permissions.
    SetExecutable,
    /// Remove an earlier backup, then copy the running executable to the
    /// backup path; this may fail without stopping the install.
    Backup,
    /// Rename the staged file over the running executable.
    Replace,
    /// Replace the process image with the new executable, passing the
    /// arguments the running program was started with.
    Exec,
    /// The downloaded artifact is not the release: terminate the process
    /// rather than run or keep unverified code.
    Abort,
    /// Stop the install; the running program carries on.
    Fail(InstallFailure),
}

/// What the driver observed when it performed the last action.
pub enum InstallEvent {
    /// The staged file's contents, or `None` when it could not be read.
    StagedContents(Option<Vec<u8>>),
    /// Whether the download completed.
    Downloaded(bool),
    /// Whether the staged file was made executable.
    PermissionsSet(bool),
    /// Whether the backup copy was written.
    BackedUp(bool),
    /// Whether the rename succeeded.
    Replaced(bool),
    /// Replacing the process image returned, which means it failed.
    ExecFailed,
}

/// An install of one release in progress.
pub struct Installer {
    target: TTDashUpgradeTarget,
    argv0: String,
    argv: Vec<String>,
    staging: String,
    phase: InstallPhase,
    verified: bool,
}

pub struct InstallerView {
    pub version: TTDashVersion,
    pub md5sum: Seq<char>,
    pub url: Seq<char>,
    pub argv0: Seq<char>,
    pub argv: Seq<String>,
    pub staging: Seq<char>,
    pub phase: InstallPhase,
    /// Some contents of the staged file had the release's checksum.
    pub verified: bool,
}

impl View for Installer {
    type V = InstallerView;

    closed spec fn view(&self) -> InstallerView {
        InstallerView {
            version: self.target.version,
            md5sum: self.target.md5sum@,
            url: self.target.url@,
            argv0: self.argv0@,
            argv: self.argv@,
            staging: self.staging@,
            phase: self.phase,
            verified: self.verified,
        }
    }
}

/// The phases from which the live executable may be changed, or that follow
/// such a change, all come after a checksum matched.
pub open spec fn installer_wf(s: InstallerView) -> bool {
    (s.phase == InstallPhase::SetPermissions || s.phase == InstallPhase::Backup || s.phase
        == InstallPhase::Replace || s.phase == InstallPhase::Exec) ==> s.verified
}

pub open spec fn with_phase(s: InstallerView, phase: InstallPhase) -> InstallerView {
    InstallerView { phase, ..s }
}

/// The staged contents `b` are the release's artifact.
pub open spec fn checksum_matches(s: InstallerView, b: Seq<u8>) -> bool {
    md5_hex(b) == s.md5sum
}

/// Where an event that does not answer the last action leads.
pub open spec fn out_of_order(s: InstallerView) -> (InstallerView, InstallAction) {
    if s.phase == InstallPhase::Failed || s.phase == InstallPhase::Aborted {
        (s, InstallAction::Fail(InstallFailure::OutOfOrder))
    } else {
        (with_phase(s, InstallPhase::Failed), InstallAction::Fail(InstallFailure::OutOfOrder))
    }
}

/// The installer's next state and action after an event.
pub open spec fn transition(s: InstallerView, e: InstallEvent) -> (InstallerView, InstallAction) {
    let verified = InstallerView { phase: InstallPhase::SetPermissions, verified: true, ..s };
    match s.phase {
        InstallPhase::CheckExisting => match e {
            InstallEvent::StagedContents(Some(b)) => if checksum_matches(s, b@) {
                (verified, InstallAction::SetExecutable)
            } else {
                (with_phase(s, InstallPhase::Download), InstallAction::Download)
            },
            InstallEvent::StagedContents(None) => (
                with_phase(s, InstallPhase::Download),
                InstallAction::Download,
            ),
            _ => out_of_order(s),
        },
        InstallPhase::Download => match e {
            InstallEvent::Downloaded(true) => (
                with_phase(s, InstallPhase::Verify),
                InstallAction::ReadStaged,
            ),
            InstallEvent::Downloaded(false) => (
                with_phase(s, InstallPhase::Failed),
                InstallAction::Fail(InstallFailure::Network),
            ),
            _ => out_of_order(s),
        },
        InstallPhase::Verify => match e {
            InstallEvent::StagedContents(Some(b)) => if checksum_matches(s, b@) {
                (verified, InstallAction::SetExecutable)
            } else {
                (with_phase(s, InstallPhase::Aborted), InstallAction::Abort)
            },
            InstallEvent::StagedContents(None) => (
                with_phase(s, InstallPhase::Failed),
                InstallAction::Fail(InstallFailure::Filesystem),
            ),
            _ => out_of_order(s),
        },
        InstallPhase::SetPermissions => match e {
            InstallEvent::PermissionsSet(true) => (
                with_phase(s, InstallPhase::Backup),
                InstallAction::Backup,
            ),
            InstallEvent::PermissionsSet(false) => (
                with_phase(s, InstallPhase::Failed),
                InstallAction::Fail(InstallFailure::Filesystem),
            ),
            _ => out_of_order(s),
        },
        InstallPhase::Backup => match e {
            InstallEvent::BackedUp(_) => (
                with_phase(s, InstallPhase::Replace),
                InstallAction::Replace,
            ),
            _ => out_of_order(s),
        },
        InstallPhase::Replace => match e {
            InstallEvent::Replaced(true) => (with_phase(s, InstallPhase::Exec), InstallAction::Exec),
            InstallEvent::Replaced(false) => (
                with_phase(s, InstallPhase::Failed),
                InstallAction::Fail(InstallFailure::Filesystem),
            ),
            _ => out_of_order(s),
        },
        InstallPhase::Exec => match e {
            InstallEvent::ExecFailed => (
                with_phase(s, InstallPhase::Failed),
                InstallAction::Fail(InstallFailure::ProcessReplace),
            ),
            _ => out_of_order(s),
        },
        _ => out_of_order(s),
    }
}

/// The actions an installer names, in order, as it is given `events`.
pub open spec fn run(s: InstallerView, events: Seq<InstallEvent>) -> Seq<InstallAction>
    decreases events.len(),
{
    if events.len() == 0 {
        Seq::empty()
    } else {
        let (next, a) = transition(s, events[0]);
        seq![a] + run(next, events.drop_first())
    }
}

/// Each step keeps the installer well formed.
pub proof fn lemma_transition_wf(s: InstallerView, e: InstallEvent)
    requires
        installer_wf(s),
    ensures
        installer_wf(transition(s, e).0),
{
}

/// The live executable is renamed over only by an installer that has seen
/// staged contents with the release's checksum, and an installer comes to
/// have seen them only from an event that reports such contents.
pub proof fn lemma_replace_only_after_checksum(s: InstallerView, e: InstallEvent)
    requires
        installer_wf(s),
    ensures
        transition(s, e).1 == InstallAction::Replace ==> s.verified,
        transition(s, e).1 == InstallAction::Exec ==> s.verified,
        transition(s, e).0.verified ==> s.verified || (e matches InstallEvent::StagedContents(
            Some(b),
        ) && checksum_matches(s, b@)),
{
}

proof fn lemma_no_download_after_check(s: InstallerView, events: Seq<InstallEvent>)
    requires
        s.phase != InstallPhase::CheckExisting,
    ensures
        forall|i: int| 0 <= i < run(s, events).len() ==> run(s, events)[i] != InstallAction::Download,
    decreases events.len(),
{
    if events.len() > 0 {
        let next = transition(s, events[0]).0;
        lemma_no_download_after_check(next, events.drop_first());
        let tail = run(next, events.drop_first());
        assert forall|i: int| 0 <= i < run(s, events).len() implies run(s, events)[i]
            != InstallAction::Download by {
            if i > 0 {
                assert(run(s, events)[i] == tail[i - 1]);
            }
        }
    }
}

proof fn lemma_aborted_stays_out(s: InstallerView, events: Seq<InstallEvent>)
    requires
        s.phase == InstallPhase::Aborted,
    ensures
        forall|i: int|
            0 <= i < run(s, events).len() ==> run(s, events)[i] == InstallAction::Fail(
                InstallFailure::OutOfOrder,
            ),
    decreases events.len(),
{
    if events.len() > 0 {
        let next = transition(s, events[0]).0;
        lemma_aborted_stays_out(next, events.drop_first());
        let tail = run(next, events.drop_first());
        assert forall|i: int| 0 <= i < run(s, events).len() implies run(s, events)[i]
            == InstallAction::Fail(InstallFailure::OutOfOrder) by {
            if i > 0 {
                assert(run(s, events)[i] == tail[i - 1]);
            }
        }
    }
}

/// A staged file that already has the release's checksum is used as it is:
/// whatever happens afterwards, the install downloads nothing.
pub proof fn lemma_valid_staged_file_not_downloaded(
    s: InstallerView,
    staged: Vec<u8>,
    rest: Seq<InstallEvent>,
)
    requires
        s.phase == InstallPhase::CheckExisting,
        checksum_matches(s, staged@),
    ensures
        forall|i: int|
            0 <= i < run(s, seq![InstallEvent::StagedContents(Some(staged))] + rest).len()
                ==> run(s, seq![InstallEvent::StagedContents(Some(staged))] + rest)[i]
                != InstallAction::Download,
{
    let events = seq![InstallEvent::StagedContents(Some(staged))] + rest;
    let next = transition(s, events[0]).0;
    assert(events.drop_first() =~= rest);
    lemma_no_download_after_check(next, rest);
    assert forall|i: int| 0 <= i < run(s, events).len() implies run(s, events)[i]
        != InstallAction::Download by {
        if i > 0 {
            assert(run(s, events)[i] == run(next, rest)[i - 1]);
        }
    }
}

/// A staged file that is missing, unreadable or has another checksum is
/// downloaded again, and the fresh download is checked: it goes on to be
/// installed only if it has the release's checksum, else the install aborts.
pub proof fn lemma_mismatched_staged_file_downloaded(
    s: InstallerView,
    staged: Option<Vec<u8>>,
    fresh: Vec<u8>,
)
    requires
        s.phase == InstallPhase::CheckExisting,
        staged matches Some(b) ==> !checksum_matches(s, b@),
    ensures
        run(
            s,
            seq![
                InstallEvent::StagedContents(staged),
                InstallEvent::Downloaded(true),
                InstallEvent::StagedContents(Some(fresh)),
            ],
        ) == seq![
            InstallAction::Download,
            InstallAction::ReadStaged,
            if checksum_matches(s, fresh@) {
                InstallAction::SetExecutable
            } else {
                InstallAction::Abort
            },
        ],
{
    let events = seq![
        InstallEvent::StagedContents(staged),
        InstallEvent::Downloaded(true),
        InstallEvent::StagedContents(Some(fresh)),
    ];
    let s1 = transition(s, events[0]).0;
    let s2 = transition(s1, events[1]).0;
    let s3 = transition(s2, events[2]).0;
    assert(events.drop_first() =~= seq![events[1], events[2]]);
    assert(seq![events[1], events[2]].drop_first() =~= seq![events[2]]);
    assert(seq![events[2]].drop_first() =~= Seq::<InstallEvent>::empty());
    assert(run(s3, Seq::<InstallEvent>::empty()) == Seq::<InstallAction>::empty());
    assert(run(s2, seq![events[2]]) == seq![transition(s2, events[2]).1] + run(
        s3,
        Seq::<InstallEvent>::empty(),
    ));
    assert(run(s1, seq![events[1], events[2]]) == seq![transition(s1, events[1]).1] + run(
        s2,
        seq![events[2]],
    ));
    assert(run(s, events) == seq![transition(s, events[0]).1] + run(
        s1,
        seq![events[1], events[2]],
    ));
    assert(run(s, events) =~= seq![
        transition(s, events[0]).1,
        transition(s1, events[1]).1,
        transition(s2, events[2]).1,
    ]);
}

/// A freshly downloaded artifact without the release's checksum is never
/// installed: whatever happens afterwards, nothing is renamed over the live
/// executable and the process image is not replaced.
pub proof fn lemma_unverified_download_never_installed(
    s: InstallerView,
    fresh: Vec<u8>,
    rest: Seq<InstallEvent>,
)
    requires
        s.phase == InstallPhase::Verify,
        !checksum_matches(s, fresh@),
    ensures
        forall|i: int|
            0 <= i < run(s, seq![InstallEvent::StagedContents(Some(fresh))] + rest).len() ==> (
            #[trigger] run(s, seq![InstallEvent::StagedContents(Some(fresh))] + rest)[i]
                != InstallAction::Replace && run(
                s,
                seq![InstallEvent::StagedContents(Some(fresh))] + rest,
            )[i] != InstallAction::Exec),
{
    let events = seq![InstallEvent::StagedContents(Some(fresh))] + rest;
    let next = transition(s, events[0]).0;
    assert(events.drop_first() =~= rest);
    lemma_aborted_stays_out(next, rest);
    assert forall|i: int| 0 <= i < run(s, events).len() implies run(s, events)[i]
        != InstallAction::Replace && run(s, events)[i] != InstallAction::Exec by {
        if i > 0 {
            assert(run(s, events)[i] == run(next, rest)[i - 1]);
        }
    }
}

/// The staging path of a version.
pub fn staging_path(v: &TTDashVersion) -> (r: String)
    ensures
        r@ == staging_path_of(*v),
{
    let mut path = String::from_str("/tmp/ttdash-download-");
    let text = v.to_string();
    path.append(text.as_str());
    path
}

impl Installer {
    /// Starts installing `target` over the executable `argv0`, to be
    /// restarted with `argv`; the first action reads what is already staged.
    pub fn new(target: TTDashUpgradeTarget, argv0: String, argv: Vec<String>) -> (r: (
        Installer,
        InstallAction,
    ))
        ensures
            r.0@.version == target.version,
            r.0@.md5sum == target.md5sum@,
            r.0@.url == target.url@,
            r.0@.argv0 == argv0@,
            r.0@.argv == argv@,
            r.0@.staging == staging_path_of(target.version),
            r.0@.phase == InstallPhase::CheckExisting,
            !r.0@.verified,
            installer_wf(r.0@),
            r.1 == InstallAction::ReadStaged,
    {
        let staging = staging_path(&target.version);
        let installer = Installer {
            target,
            argv0,
            argv,
            staging,
            phase: InstallPhase::CheckExisting,
            verified: false,
        };
        (installer, InstallAction::ReadStaged)
    }

    /// Takes the outcome of the last action and names the next one.
    pub fn step(&mut self, event: InstallEvent) -> (a: InstallAction)
        ensures
            (final(self)@, a) == transition(old(self)@, event),
            installer_wf(old(self)@) ==> installer_wf(final(self)@),
    {
        let matched = match &event {
            InstallEvent::StagedContents(Some(b)) => {
                let sum = md5sum(b.as_slice());
                sum == self.target.md5sum
            },
            _ => false,
        };
        let (phase, action) = match self.phase {
            InstallPhase::CheckExisting => match event {
                InstallEvent::StagedContents(Some(_)) => if matched {
                    self.verified = true;
                    (InstallPhase::SetPermissions, InstallAction::SetExecutable)
                } else {
                    (InstallPhase::Download, InstallAction::Download)
                },
                InstallEvent::StagedContents(None) => (
                    InstallPhase::Download,
                    InstallAction::Download,
                ),
                _ => (InstallPhase::Failed, InstallAction::Fail(InstallFailure::OutOfOrder)),
            },
            InstallPhase::Download => match event {
                InstallEvent::Downloaded(true) => (InstallPhase::Verify, InstallAction::ReadStaged),
                InstallEvent::Downloaded(false) => (
                    InstallPhase::Failed,
                    InstallAction::Fail(InstallFailure::Network),
                ),
                _ => (InstallPhase::Failed, InstallAction::Fail(InstallFailure::OutOfOrder)),
            },
            InstallPhase::Verify => match event {
                InstallEvent::StagedContents(Some(_)) => if matched {
                    self.verified = true;
                    (InstallPhase::SetPermissions, InstallAction::SetExecutable)
                } else {
                    (InstallPhase::Aborted, InstallAction::Abort)
                },
                InstallEvent::StagedContents(None) => (
                    InstallPhase::Failed,
                    InstallAction::Fail(InstallFailure::Filesystem),
                ),
                _ => (InstallPhase::Failed, InstallAction::Fail(InstallFailure::OutOfOrder)),
            },
            InstallPhase::SetPermissions => match event {
                InstallEvent::PermissionsSet(true) => (InstallPhase::Backup, InstallAction::Backup),
                InstallEvent::PermissionsSet(false) => (
                    InstallPhase::Failed,
                    InstallAction::Fail(InstallFailure::Filesystem),
                ),
                _ => (InstallPhase::Failed, InstallAction::Fail(InstallFailure::OutOfOrder)),
            },
            InstallPhase::Backup => match event {
                InstallEvent::BackedUp(_) => (InstallPhase::Replace, InstallAction::Replace),
                _ => (InstallPhase::Failed, InstallAction::Fail(InstallFailure::OutOfOrder)),
            },
            InstallPhase::Replace => match event {
                InstallEvent::Replaced(true) => (InstallPhase::Exec, InstallAction::Exec),
                InstallEvent::Replaced(false) => (
                    InstallPhase::Failed,
                    InstallAction::Fail(InstallFailure::Filesystem),
                ),
                _ => (InstallPhase::Failed, InstallAction::Fail(InstallFailure::OutOfOrder)),
            },
            InstallPhase::Exec => match event {
                InstallEvent::ExecFailed => (
                    InstallPhase::Failed,
                    InstallAction::Fail(InstallFailure::ProcessReplace),
                ),
                _ => (InstallPhase::Failed, InstallAction::Fail(InstallFailure::OutOfOrder)),
            },
            InstallPhase::Failed => (InstallPhase::Failed, InstallAction::Fail(InstallFailure::OutOfOrder)),
            InstallPhase::Aborted => (
                InstallPhase::Aborted,
                InstallAction::Fail(InstallFailure::OutOfOrder),
            ),
        };
        self.phase = phase;
        action
    }

    pub fn phase(&self) -> (r: InstallPhase)
        ensures
            r == self@.phase,
    {
        self.phase
    }

    /// Where the artifact is staged.
    pub fn staging_path(&self) -> (r: &str)
        ensures
            r@ == self@.staging,
    {
        self.staging.as_str()
    }

    /// Where the artifact is downloaded from.
    pub fn url(&self) -> (r: &str)
        ensures
            r@ == self@.url,
    {
        self.target.url.as_str()
    }

    /// The path of the running executable.
    pub fn executable(&self) -> (r: &str)
        ensures
            r@ == self@.argv0,
    {
        self.argv0.as_str()
    }

    /// The arguments the new executable is started with.
    pub fn arguments(&self) -> (r: &Vec<String>)
        ensures
            r@ == self@.argv,
    {
        &self.argv
    }

    /// The release being installed.
    pub fn version(&self) -> (r: TTDashVersion)
        ensures
            r == self@.version,
    {
        self.target.version
    }
}

} // verus!
