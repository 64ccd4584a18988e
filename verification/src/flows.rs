//! The decision flows of the longer background tasks, each a state machine:
//! the caller performs the command it is given and reports the outcome as
//! the next event. Setting up a lab account, installing the Cadence
//! archives, and unpacking one double-wrapped archive.

use vstd::prelude::*;
use crate::text::contains_seq;
use crate::tools::{
    cadence_archives, cadence_tool_name, gtar_target, gtar_target_name, name_views, names_sorted,
    strip_suffix, tar_gz_names,
};
use crate::users::{bashrc_update, launcher_entry, launcher_path, lemma_update_configures, useradd_args};

verus! {

// ---------------------------------------------------------------------------
// Setting up a lab account
// ---------------------------------------------------------------------------

/// Where setting up an account stands.
#[derive(Debug, Clone, Copy, PartialEq, Eq, Structural)]
pub enum ProvisionStage {
    /// Waiting to learn whether the account exists.
    Probing,
    /// Waiting for `useradd`.
    Creating,
    /// Waiting to learn whether the `.bashrc` exists and sources the launcher.
    CheckingBashrc,
    /// Waiting for the `.bashrc`'s content.
    Reading,
    /// Waiting for the updated `.bashrc` to be written.
    Writing,
    /// Finished.
    Done,
    /// Given up.
    Failed,
}

/// How setting up an account ended.
#[derive(Debug, Clone, Copy, PartialEq, Eq, Structural)]
pub enum ProvisionEnd {
    /// The `.bashrc` now sources the launcher.
    Configured,
    /// The `.bashrc` already sourced the launcher.
    AlreadyConfigured,
    /// There is no `.bashrc` to configure.
    BashrcMissing,
    /// The `.bashrc` could not be read; it was left alone.
    BashrcUnreadable,
    /// `useradd` failed.
    UseraddFailed,
    /// The updated `.bashrc` could not be written.
    WriteFailed,
}

/// What the caller learned.
pub enum ProvisionEvent {
    AccountExists(bool),
    AccountCreated(bool),
    Bashrc { present: bool, configured: bool },
    BashrcRead(Option<String>),
    BashrcWritten(bool),
}

/// [`ProvisionEvent`] with its text as characters.
pub enum ProvisionEventView {
    AccountExists(bool),
    AccountCreated(bool),
    Bashrc { present: bool, configured: bool },
    BashrcRead(Option<Seq<char>>),
    BashrcWritten(bool),
}

impl View for ProvisionEvent {
    type V = ProvisionEventView;

    open spec fn view(&self) -> ProvisionEventView {
        match self {
            ProvisionEvent::AccountExists(b) => ProvisionEventView::AccountExists(*b),
            ProvisionEvent::AccountCreated(b) => ProvisionEventView::AccountCreated(*b),
            ProvisionEvent::Bashrc { present, configured } => ProvisionEventView::Bashrc {
                present: *present,
                configured: *configured,
            },
            ProvisionEvent::BashrcRead(c) => ProvisionEventView::BashrcRead(
                match c {
                    Some(s) => Some(s@),
                    None => None,
                },
            ),
            ProvisionEvent::BashrcWritten(b) => ProvisionEventView::BashrcWritten(*b),
        }
    }
}

/// What the caller has to do next.
pub enum ProvisionCmd {
    /// Find out whether the account exists.
    ProbeAccount,
    /// Run `useradd` with these arguments.
    CreateAccount(Vec<String>),
    /// Find out whether the `.bashrc` exists and sources the launcher.
    ProbeBashrc,
    /// Read the `.bashrc`.
    ReadBashrc,
    /// Write this content to the `.bashrc`.
    WriteBashrc(String),
    /// Stop: the set-up ended so.
    Finish(ProvisionEnd),
    /// The event does not fit the stage; nothing to do.
    Ignore,
}

/// [`ProvisionCmd`] with its text as characters.
pub enum ProvisionCmdView {
    ProbeAccount,
    CreateAccount(Seq<Seq<char>>),
    ProbeBashrc,
    ReadBashrc,
    WriteBashrc(Seq<char>),
    Finish(ProvisionEnd),
    Ignore,
}

impl View for ProvisionCmd {
    type V = ProvisionCmdView;

    open spec fn view(&self) -> ProvisionCmdView {
        match self {
            ProvisionCmd::ProbeAccount => ProvisionCmdView::ProbeAccount,
            ProvisionCmd::CreateAccount(a) => ProvisionCmdView::CreateAccount(
                a@.map_values(|s: String| s@),
            ),
            ProvisionCmd::ProbeBashrc => ProvisionCmdView::ProbeBashrc,
            ProvisionCmd::ReadBashrc => ProvisionCmdView::ReadBashrc,
            ProvisionCmd::WriteBashrc(c) => ProvisionCmdView::WriteBashrc(c@),
            ProvisionCmd::Finish(e) => ProvisionCmdView::Finish(*e),
            ProvisionCmd::Ignore => ProvisionCmdView::Ignore,
        }
    }
}

/// The arguments of `useradd` for a lab account.
pub open spec fn useradd_argv(user: Seq<char>, role: Seq<char>, id: Seq<char>) -> Seq<Seq<char>> {
    seq!["-m"@, "-s"@, "/bin/bash"@, "-c"@, "VLSI Lab "@ + role + " ["@ + id + "]"@, user]
}

/// One step of setting up the account `user` (with `role` and `id`).
pub open spec fn provision_step(
    stage: ProvisionStage,
    user: Seq<char>,
    role: Seq<char>,
    id: Seq<char>,
    e: ProvisionEventView,
) -> (ProvisionStage, ProvisionCmdView) {
    match (stage, e) {
        (ProvisionStage::Probing, ProvisionEventView::AccountExists(exists)) => if exists {
            (ProvisionStage::CheckingBashrc, ProvisionCmdView::ProbeBashrc)
        } else {
            (ProvisionStage::Creating, ProvisionCmdView::CreateAccount(useradd_argv(user, role, id)))
        },
        (ProvisionStage::Creating, ProvisionEventView::AccountCreated(ok)) => if ok {
            (ProvisionStage::CheckingBashrc, ProvisionCmdView::ProbeBashrc)
        } else {
            (ProvisionStage::Failed, ProvisionCmdView::Finish(ProvisionEnd::UseraddFailed))
        },
        (ProvisionStage::CheckingBashrc, ProvisionEventView::Bashrc { present, configured }) => if !present {
            (ProvisionStage::Done, ProvisionCmdView::Finish(ProvisionEnd::BashrcMissing))
        } else if configured {
            (ProvisionStage::Done, ProvisionCmdView::Finish(ProvisionEnd::AlreadyConfigured))
        } else {
            (ProvisionStage::Reading, ProvisionCmdView::ReadBashrc)
        },
        (ProvisionStage::Reading, ProvisionEventView::BashrcRead(content)) => match content {
            None => (ProvisionStage::Done, ProvisionCmdView::Finish(ProvisionEnd::BashrcUnreadable)),
            Some(c) => if contains_seq(c, launcher_path()) {
                (ProvisionStage::Done, ProvisionCmdView::Finish(ProvisionEnd::Configured))
            } else {
                (ProvisionStage::Writing, ProvisionCmdView::WriteBashrc(c + launcher_entry()))
            },
        },
        (ProvisionStage::Writing, ProvisionEventView::BashrcWritten(ok)) => if ok {
            (ProvisionStage::Done, ProvisionCmdView::Finish(ProvisionEnd::Configured))
        } else {
            (ProvisionStage::Failed, ProvisionCmdView::Finish(ProvisionEnd::WriteFailed))
        },
        _ => (stage, ProvisionCmdView::Ignore),
    }
}

/// Setting up one lab account: create it when missing, then make its
/// `.bashrc` source the EDA launcher.
pub struct UserProvisioning {
    stage: ProvisionStage,
    username: String,
    role: String,
    identifier: String,
}

impl UserProvisioning {
    /// Where the set-up stands.
    pub closed spec fn stage(&self) -> ProvisionStage {
        self.stage
    }

    /// The account name, role and identifier.
    pub closed spec fn account(&self) -> (Seq<char>, Seq<char>, Seq<char>) {
        (self.username@, self.role@, self.identifier@)
    }

    /// Starts setting up `username`: first find out whether it exists.
    pub fn new(username: &str, role: &str, identifier: &str) -> (r: (Self, ProvisionCmd))
        ensures
            r.0.stage() == ProvisionStage::Probing,
            r.0.account() == (username@, role@, identifier@),
            r.1@ == ProvisionCmdView::ProbeAccount,
    {
        (
            UserProvisioning {
                stage: ProvisionStage::Probing,
                username: String::from_str(username),
                role: String::from_str(role),
                identifier: String::from_str(identifier),
            },
            ProvisionCmd::ProbeAccount,
        )
    }

    /// Takes in what the last command found and gives the next command.
    pub fn step(&mut self, e: ProvisionEvent) -> (c: ProvisionCmd)
        ensures
            (final(self).stage(), c@) == provision_step(
                old(self).stage(),
                old(self).account().0,
                old(self).account().1,
                old(self).account().2,
                e@,
            ),
            final(self).account() == old(self).account(),
    {
        match (self.stage, e) {
            (ProvisionStage::Probing, ProvisionEvent::AccountExists(exists)) => {
                if exists {
                    self.stage = ProvisionStage::CheckingBashrc;
                    ProvisionCmd::ProbeBashrc
                } else {
                    self.stage = ProvisionStage::Creating;
                    ProvisionCmd::CreateAccount(
                        useradd_args(
                            self.username.as_str(),
                            self.role.as_str(),
                            self.identifier.as_str(),
                        ),
                    )
                }
            },
            (ProvisionStage::Creating, ProvisionEvent::AccountCreated(ok)) => {
                if ok {
                    self.stage = ProvisionStage::CheckingBashrc;
                    ProvisionCmd::ProbeBashrc
                } else {
                    self.stage = ProvisionStage::Failed;
                    ProvisionCmd::Finish(ProvisionEnd::UseraddFailed)
                }
            },
            (ProvisionStage::CheckingBashrc, ProvisionEvent::Bashrc { present, configured }) => {
                if !present {
                    self.stage = ProvisionStage::Done;
                    ProvisionCmd::Finish(ProvisionEnd::BashrcMissing)
                } else if configured {
                    self.stage = ProvisionStage::Done;
                    ProvisionCmd::Finish(ProvisionEnd::AlreadyConfigured)
                } else {
                    self.stage = ProvisionStage::Reading;
                    ProvisionCmd::ReadBashrc
                }
            },
            (ProvisionStage::Reading, ProvisionEvent::BashrcRead(content)) => match content {
                None => {
                    self.stage = ProvisionStage::Done;
                    ProvisionCmd::Finish(ProvisionEnd::BashrcUnreadable)
                },
                Some(c) => match bashrc_update(c.as_str()) {
                    None => {
                        self.stage = ProvisionStage::Done;
                        ProvisionCmd::Finish(ProvisionEnd::Configured)
                    },
                    Some(updated) => {
                        self.stage = ProvisionStage::Writing;
                        ProvisionCmd::WriteBashrc(updated)
                    },
                },
            },
            (ProvisionStage::Writing, ProvisionEvent::BashrcWritten(ok)) => {
                if ok {
                    self.stage = ProvisionStage::Done;
                    ProvisionCmd::Finish(ProvisionEnd::Configured)
                } else {
                    self.stage = ProvisionStage::Failed;
                    ProvisionCmd::Finish(ProvisionEnd::WriteFailed)
                }
            },
            _ => ProvisionCmd::Ignore,
        }
    }
}

/// Whatever the set-up writes to a `.bashrc` sources the launcher.
pub proof fn lemma_provision_writes_launcher(
    stage: ProvisionStage,
    user: Seq<char>,
    role: Seq<char>,
    id: Seq<char>,
    e: ProvisionEventView,
)
    ensures
        provision_step(stage, user, role, id, e).1 matches ProvisionCmdView::WriteBashrc(w)
            ==> contains_seq(w, launcher_path()),
{
    if let ProvisionEventView::BashrcRead(Some(c)) = e {
        lemma_update_configures(c);
    }
}

/// The set-up never creates an account that exists already, and creates a
/// missing one before looking at its `.bashrc`.
pub proof fn lemma_provision_creates_only_missing(
    user: Seq<char>,
    role: Seq<char>,
    id: Seq<char>,
    exists: bool,
)
    ensures
        provision_step(ProvisionStage::Probing, user, role, id, ProvisionEventView::AccountExists(exists)).1
            is CreateAccount <==> !exists,
{
}

// ---------------------------------------------------------------------------
// Installing the Cadence archives
// ---------------------------------------------------------------------------

/// Where the Cadence installation stands.
#[derive(Debug, Clone, Copy, PartialEq, Eq, Structural)]
pub enum CadenceStage {
    /// Waiting to learn whether `CADENCE/TOOLS` exists.
    CheckingTools,
    /// Waiting for `/opt/cadence` to be created.
    MakingDest,
    /// Waiting for the double-wrapped archives to be unpacked.
    UnpackingGtar,
    /// Waiting for the file names of the tools folder.
    Listing,
    /// Waiting for an archive to be extracted.
    Extracting,
    /// Finished.
    Done,
    /// Given up.
    Failed,
}

/// Why the Cadence installation gave up.
#[derive(Debug, Clone, Copy, PartialEq, Eq, Structural)]
pub enum CadenceFailure {
    ToolsDirMissing,
    DestNotMade,
    ListingFailed,
}

/// What the caller learned.
pub enum CadenceEvent {
    ToolsDir(bool),
    DestMade(bool),
    GtarDone,
    /// The file names of the tools folder, or `None` when it could not be read.
    Listed(Option<Vec<String>>),
    Extracted(bool),
}

/// [`CadenceEvent`] with its text as characters.
pub enum CadenceEventView {
    ToolsDir(bool),
    DestMade(bool),
    GtarDone,
    Listed(Option<Seq<Seq<char>>>),
    Extracted(bool),
}

impl View for CadenceEvent {
    type V = CadenceEventView;

    open spec fn view(&self) -> CadenceEventView {
        match self {
            CadenceEvent::ToolsDir(b) => CadenceEventView::ToolsDir(*b),
            CadenceEvent::DestMade(b) => CadenceEventView::DestMade(*b),
            CadenceEvent::GtarDone => CadenceEventView::GtarDone,
            CadenceEvent::Listed(l) => CadenceEventView::Listed(
                match l {
                    Some(v) => Some(name_views(v@)),
                    None => None,
                },
            ),
            CadenceEvent::Extracted(b) => CadenceEventView::Extracted(*b),
        }
    }
}

/// What the caller has to do next.
pub enum CadenceCmd {
    /// Find out whether `CADENCE/TOOLS` exists.
    CheckTools,
    /// Create `/opt/cadence`.
    MakeDest,
    /// Unpack the double-wrapped archives of the tools folder.
    UnpackGtar,
    /// List the file names of the tools folder.
    ListFiles,
    /// Extract this archive, which installs this tool.
    Extract { file_name: String, tool_name: String },
    /// Stop after the extraction pass: record the phase and report.
    Finish { installed: usize, failed: usize, none_found: bool },
    /// Stop: the installation gave up.
    Fail(CadenceFailure),
    /// The event does not fit the stage; nothing to do.
    Ignore,
}

/// [`CadenceCmd`] with its text as characters.
pub enum CadenceCmdView {
    CheckTools,
    MakeDest,
    UnpackGtar,
    ListFiles,
    Extract { file_name: Seq<char>, tool_name: Seq<char> },
    Finish { installed: nat, failed: nat, none_found: bool },
    Fail(CadenceFailure),
    Ignore,
}

impl View for CadenceCmd {
    type V = CadenceCmdView;

    open spec fn view(&self) -> CadenceCmdView {
        match self {
            CadenceCmd::CheckTools => CadenceCmdView::CheckTools,
            CadenceCmd::MakeDest => CadenceCmdView::MakeDest,
            CadenceCmd::UnpackGtar => CadenceCmdView::UnpackGtar,
            CadenceCmd::ListFiles => CadenceCmdView::ListFiles,
            CadenceCmd::Extract { file_name, tool_name } => CadenceCmdView::Extract {
                file_name: file_name@,
                tool_name: tool_name@,
            },
            CadenceCmd::Finish { installed, failed, none_found } => CadenceCmdView::Finish {
                installed: *installed as nat,
                failed: *failed as nat,
                none_found: *none_found,
            },
            CadenceCmd::Fail(f) => CadenceCmdView::Fail(*f),
            CadenceCmd::Ignore => CadenceCmdView::Ignore,
        }
    }
}

/// The Cadence installation as plain values: the stage, the archives in
/// extraction order, how many were handled, and how many of those were
/// installed and how many failed.
pub struct CadenceModel {
    pub stage: CadenceStage,
    pub archives: Seq<Seq<char>>,
    pub next: nat,
    pub installed: nat,
    pub failed: nat,
}

/// The command to extract the `i`-th archive.
pub open spec fn extract_cmd(archives: Seq<Seq<char>>, i: int) -> CadenceCmdView {
    CadenceCmdView::Extract {
        file_name: archives[i],
        tool_name: strip_suffix(archives[i], ".tar.gz"@),
    }
}

/// One step of the Cadence installation. `listed` is the extraction order
/// of the files named by a `Listed` event.
pub open spec fn cadence_step(s: CadenceModel, e: CadenceEventView, listed: Seq<Seq<char>>) -> (
    CadenceModel,
    CadenceCmdView,
) {
    match (s.stage, e) {
        (CadenceStage::CheckingTools, CadenceEventView::ToolsDir(found)) => if found {
            (CadenceModel { stage: CadenceStage::MakingDest, ..s }, CadenceCmdView::MakeDest)
        } else {
            (
                CadenceModel { stage: CadenceStage::Failed, ..s },
                CadenceCmdView::Fail(CadenceFailure::ToolsDirMissing),
            )
        },
        (CadenceStage::MakingDest, CadenceEventView::DestMade(ok)) => if ok {
            (CadenceModel { stage: CadenceStage::UnpackingGtar, ..s }, CadenceCmdView::UnpackGtar)
        } else {
            (
                CadenceModel { stage: CadenceStage::Failed, ..s },
                CadenceCmdView::Fail(CadenceFailure::DestNotMade),
            )
        },
        (CadenceStage::UnpackingGtar, CadenceEventView::GtarDone) => (
            CadenceModel { stage: CadenceStage::Listing, ..s },
            CadenceCmdView::ListFiles,
        ),
        (CadenceStage::Listing, CadenceEventView::Listed(names)) => match names {
            None => (
                CadenceModel { stage: CadenceStage::Failed, ..s },
                CadenceCmdView::Fail(CadenceFailure::ListingFailed),
            ),
            Some(_) => if listed.len() == 0 {
                (
                    CadenceModel { stage: CadenceStage::Done, archives: listed, ..s },
                    CadenceCmdView::Finish { installed: 0, failed: 0, none_found: true },
                )
            } else {
                (
                    CadenceModel { stage: CadenceStage::Extracting, archives: listed, ..s },
                    extract_cmd(listed, 0),
                )
            },
        },
        (CadenceStage::Extracting, CadenceEventView::Extracted(ok)) => {
            let installed = if ok {
                s.installed + 1
            } else {
                s.installed
            };
            let failed = if ok {
                s.failed
            } else {
                s.failed + 1
            };
            let next = s.next + 1;
            if next < s.archives.len() {
                (
                    CadenceModel { next, installed, failed, ..s },
                    extract_cmd(s.archives, next as int),
                )
            } else {
                (
                    CadenceModel { stage: CadenceStage::Done, next, installed, failed, ..s },
                    CadenceCmdView::Finish { installed, failed, none_found: false },
                )
            }
        },
        _ => (s, CadenceCmdView::Ignore),
    }
}

/// Every archive handled is counted once, as installed or as failed; while
/// extracting, an archive is still to come.
pub open spec fn cadence_wf(s: CadenceModel) -> bool {
    &&& s.installed + s.failed == s.next
    &&& s.next <= s.archives.len()
    &&& s.stage == CadenceStage::Extracting ==> s.next < s.archives.len()
    &&& (s.stage == CadenceStage::CheckingTools || s.stage == CadenceStage::MakingDest
        || s.stage == CadenceStage::UnpackingGtar || s.stage == CadenceStage::Listing) ==> s.next == 0
}

/// Installing every `.tar.gz` archive of `CADENCE/TOOLS` into `/opt/cadence`,
/// in name order, after unpacking the double-wrapped ones.
pub struct CadenceInstall {
    stage: CadenceStage,
    archives: Vec<String>,
    next: usize,
    installed: usize,
    failed: usize,
}

impl CadenceInstall {
    /// The installation as plain values.
    pub closed spec fn model(&self) -> CadenceModel {
        CadenceModel {
            stage: self.stage,
            archives: name_views(self.archives@),
            next: self.next as nat,
            installed: self.installed as nat,
            failed: self.failed as nat,
        }
    }

    #[verifier::type_invariant]
    closed spec fn inv(self) -> bool {
        cadence_wf(self.model())
    }

    /// Starts the installation: first find out whether the tools folder exists.
    pub fn new() -> (r: (Self, CadenceCmd))
        ensures
            r.0.model() == (CadenceModel {
                stage: CadenceStage::CheckingTools,
                archives: Seq::empty(),
                next: 0,
                installed: 0,
                failed: 0,
            }),
            r.1@ == CadenceCmdView::CheckTools,
            cadence_wf(r.0.model()),
    {
        let r = CadenceInstall {
            stage: CadenceStage::CheckingTools,
            archives: Vec::new(),
            next: 0,
            installed: 0,
            failed: 0,
        };
        assert(name_views(r.archives@) =~= Seq::<Seq<char>>::empty());
        (r, CadenceCmd::CheckTools)
    }

    /// Takes in what the last command found and gives the next command.
    /// The archives of a listing are its `.tar.gz` files sorted by name.
    pub fn step(&mut self, e: CadenceEvent) -> (c: CadenceCmd)
        ensures
            (final(self).model(), c@) == cadence_step(old(self).model(), e@, final(self).model().archives),
            cadence_wf(final(self).model()),
            old(self).model().stage == CadenceStage::Listing ==> (e matches CadenceEvent::Listed(Some(names))
                ==> {
                &&& names_sorted(final(self).model().archives)
                &&& final(self).model().archives.to_multiset() == tar_gz_names(
                    name_views(names@),
                ).to_multiset()
            }),
    {
        let mut cur = CadenceInstall {
            stage: CadenceStage::Done,
            archives: Vec::new(),
            next: 0,
            installed: 0,
            failed: 0,
        };
        proof {
            assert(name_views(cur.archives@) =~= Seq::<Seq<char>>::empty());
        }
        std::mem::swap(self, &mut cur);
        proof {
            use_type_invariant(&cur);
        }
        let ghost old_model = cur.model();
        let CadenceInstall { stage, archives, next, installed, failed } = cur;
        proof {
            assert(name_views(archives@).len() == archives@.len());
            assert(installed + failed == next);
            assert(next <= archives@.len());
            assert(stage == CadenceStage::Extracting ==> next < archives@.len());
        }
        let (updated, cmd) = match (stage, e) {
            (CadenceStage::CheckingTools, CadenceEvent::ToolsDir(found)) => {
                let st = if found {
                    CadenceStage::MakingDest
                } else {
                    CadenceStage::Failed
                };
                let c = if found {
                    CadenceCmd::MakeDest
                } else {
                    CadenceCmd::Fail(CadenceFailure::ToolsDirMissing)
                };
                (CadenceInstall { stage: st, archives, next, installed, failed }, c)
            },
            (CadenceStage::MakingDest, CadenceEvent::DestMade(ok)) => {
                let st = if ok {
                    CadenceStage::UnpackingGtar
                } else {
                    CadenceStage::Failed
                };
                let c = if ok {
                    CadenceCmd::UnpackGtar
                } else {
                    CadenceCmd::Fail(CadenceFailure::DestNotMade)
                };
                (CadenceInstall { stage: st, archives, next, installed, failed }, c)
            },
            (CadenceStage::UnpackingGtar, CadenceEvent::GtarDone) => (
                CadenceInstall { stage: CadenceStage::Listing, archives, next, installed, failed },
                CadenceCmd::ListFiles,
            ),
            (CadenceStage::Listing, CadenceEvent::Listed(names)) => match names {
                None => (
                    CadenceInstall { stage: CadenceStage::Failed, archives, next, installed, failed },
                    CadenceCmd::Fail(CadenceFailure::ListingFailed),
                ),
                Some(files) => {
                    let found = cadence_archives(&files);
                    if found.len() == 0 {
                        (
                            CadenceInstall {
                                stage: CadenceStage::Done,
                                archives: found,
                                next,
                                installed,
                                failed,
                            },
                            CadenceCmd::Finish { installed: 0, failed: 0, none_found: true },
                        )
                    } else {
                        let c = extract_at(&found, 0);
                        (
                            CadenceInstall {
                                stage: CadenceStage::Extracting,
                                archives: found,
                                next,
                                installed,
                                failed,
                            },
                            c,
                        )
                    }
                },
            },
            (CadenceStage::Extracting, CadenceEvent::Extracted(ok)) => {
                let len = archives.len();
                proof {
                    assert(next < len);
                }
                let ins = if ok {
                    installed + 1
                } else {
                    installed
                };
                let fl = if ok {
                    failed
                } else {
                    failed + 1
                };
                let n = next + 1;
                if n < len {
                    let c = extract_at(&archives, n);
                    (
                        CadenceInstall {
                            stage: CadenceStage::Extracting,
                            archives,
                            next: n,
                            installed: ins,
                            failed: fl,
                        },
                        c,
                    )
                } else {
                    (
                        CadenceInstall {
                            stage: CadenceStage::Done,
                            archives,
                            next: n,
                            installed: ins,
                            failed: fl,
                        },
                        CadenceCmd::Finish { installed: ins, failed: fl, none_found: false },
                    )
                }
            },
            (st, _) => (CadenceInstall { stage: st, archives, next, installed, failed }, CadenceCmd::Ignore),
        };
        *self = updated;
        cmd
    }
}

fn extract_at(archives: &Vec<String>, i: usize) -> (c: CadenceCmd)
    requires
        i < archives@.len(),
    ensures
        c@ == extract_cmd(name_views(archives@), i as int),
{
    let file_name = archives[i].clone();
    let tool_name = match cadence_tool_name(file_name.as_str()) {
        Some(t) => t,
        None => file_name.clone(),
    };
    CadenceCmd::Extract { file_name, tool_name }
}

/// A finished extraction pass accounts for every archive, as installed or
/// as failed.
pub proof fn lemma_cadence_counts(s: CadenceModel, e: CadenceEventView, listed: Seq<Seq<char>>)
    requires
        cadence_wf(s),
    ensures
        cadence_step(s, e, listed).1 matches CadenceCmdView::Finish { installed, failed, .. }
            ==> installed + failed == cadence_step(s, e, listed).0.archives.len(),
{
}

/// The archives are extracted in order, each once: the command after the
/// `i`-th extraction is the `i + 1`-th archive's, or the end of the pass.
pub proof fn lemma_cadence_in_order(s: CadenceModel, ok: bool, listed: Seq<Seq<char>>)
    requires
        cadence_wf(s),
        s.stage == CadenceStage::Extracting,
    ensures
        cadence_step(s, CadenceEventView::Extracted(ok), listed).0.next == s.next + 1,
        s.next + 1 < s.archives.len() ==> cadence_step(s, CadenceEventView::Extracted(ok), listed).1
            == extract_cmd(s.archives, (s.next + 1) as int),
        s.next + 1 == s.archives.len() ==> cadence_step(s, CadenceEventView::Extracted(ok), listed).1
            is Finish,
{
}

/// How many of `oks` are `true`.
pub open spec fn count_ok(oks: Seq<bool>) -> nat
    decreases oks.len(),
{
    if oks.len() == 0 {
        0
    } else {
        count_ok(oks.drop_last()) + if oks.last() {
            1nat
        } else {
            0nat
        }
    }
}

/// The installation after the extraction outcomes `oks`, one event each.
pub open spec fn after_extractions(s: CadenceModel, oks: Seq<bool>) -> CadenceModel
    decreases oks.len(),
{
    if oks.len() == 0 {
        s
    } else {
        cadence_step(after_extractions(s, oks.drop_last()), CadenceEventView::Extracted(oks.last()), Seq::empty()).0
    }
}

/// A successful extraction counts one more installed archive and leaves
/// the failures alone; a failed one counts one more failure and leaves the
/// installed count alone; and the pass reports the counts it kept.
pub proof fn lemma_cadence_extraction_counted(s: CadenceModel, ok: bool, listed: Seq<Seq<char>>)
    requires
        cadence_wf(s),
        s.stage == CadenceStage::Extracting,
    ensures
        cadence_step(s, CadenceEventView::Extracted(ok), listed).0.installed == s.installed + (if ok {
            1nat
        } else {
            0nat
        }),
        cadence_step(s, CadenceEventView::Extracted(ok), listed).0.failed == s.failed + (if ok {
            0nat
        } else {
            1nat
        }),
        cadence_step(s, CadenceEventView::Extracted(ok), listed).1 matches CadenceCmdView::Finish {
            installed,
            failed,
            none_found,
        } ==> installed == s.installed + (if ok {
            1nat
        } else {
            0nat
        }) && failed == s.failed + (if ok {
            0nat
        } else {
            1nat
        }) && !none_found,
{
}

/// Over a whole pass, the installed count grows by the number of
/// successful extractions and the failed count by the number of failed
/// ones.
pub proof fn lemma_cadence_pass_counts(s: CadenceModel, oks: Seq<bool>)
    requires
        cadence_wf(s),
        s.stage == CadenceStage::Extracting,
        s.next + oks.len() <= s.archives.len(),
    ensures
        after_extractions(s, oks).installed == s.installed + count_ok(oks),
        after_extractions(s, oks).failed + count_ok(oks) == s.failed + oks.len(),
        after_extractions(s, oks).next == s.next + oks.len(),
        after_extractions(s, oks).archives == s.archives,
        s.next + oks.len() < s.archives.len() ==> after_extractions(s, oks).stage == CadenceStage::Extracting,
        cadence_wf(after_extractions(s, oks)),
    decreases oks.len(),
{
    if oks.len() > 0 {
        lemma_cadence_pass_counts(s, oks.drop_last());
        lemma_cadence_extraction_counted(after_extractions(s, oks.drop_last()), oks.last(), Seq::empty());
    }
}

// ---------------------------------------------------------------------------
// Unpacking one double-wrapped archive
// ---------------------------------------------------------------------------

/// Where unpacking a double-wrapped archive stands.
#[derive(Debug, Clone, Copy, PartialEq, Eq, Structural)]
pub enum GtarStage {
    /// Waiting to learn whether the target folder exists.
    CheckingDest,
    /// Waiting for the scratch folder to be emptied and created.
    Preparing,
    /// Waiting for the archive to be extracted into the scratch folder.
    Extracting,
    /// Waiting for the payload below the wrapper folders to be found.
    Unwrapping,
    /// Waiting for the target folder to be created.
    MakingDest,
    /// Waiting for the payload to be moved into the target folder.
    Moving,
    /// Finished.
    Done,
    /// Given up.
    Failed,
}

/// How unpacking a double-wrapped archive ended.
#[derive(Debug, Clone, Copy, PartialEq, Eq, Structural)]
pub enum GtarEnd {
    /// No target folder name follows from the file name; skipped.
    NoTarget,
    /// The target folder exists already; skipped.
    AlreadyThere,
    /// The scratch folder could not be created.
    ScratchFailed,
    /// The archive could not be extracted.
    ExtractFailed,
    /// The target folder could not be created.
    DestFailed,
    /// Something was moved into the target folder.
    Installed,
    /// The extraction left nothing to move.
    NothingMoved,
}

/// What the caller learned.
#[derive(Debug, Clone, Copy, PartialEq, Eq, Structural)]
pub enum GtarEvent {
    DestExists(bool),
    ScratchReady(bool),
    Extracted(bool),
    PayloadFound,
    DestMade(bool),
    /// How many entries were moved into the target folder.
    Moved(usize),
}

/// What the caller has to do next.
pub enum GtarCmd {
    /// Find out whether the target folder (under the destination) exists.
    CheckDest(String),
    /// Empty and create this scratch folder (under the temporary directory).
    PrepareScratch(String),
    /// Extract the archive into the scratch folder.
    ExtractToScratch,
    /// Descend through single wrapper folders to the payload.
    FindPayload,
    /// Create the target folder.
    MakeDest,
    /// Move the payload's entries into the target folder.
    MoveEntries,
    /// Stop: remove the scratch folder when `cleanup`, and report.
    Finish { end: GtarEnd, moved: usize, cleanup: bool },
    /// The event does not fit the stage; nothing to do.
    Ignore,
}

/// [`GtarCmd`] with its text as characters.
pub enum GtarCmdView {
    CheckDest(Seq<char>),
    PrepareScratch(Seq<char>),
    ExtractToScratch,
    FindPayload,
    MakeDest,
    MoveEntries,
    Finish { end: GtarEnd, moved: nat, cleanup: bool },
    Ignore,
}

impl View for GtarCmd {
    type V = GtarCmdView;

    open spec fn view(&self) -> GtarCmdView {
        match self {
            GtarCmd::CheckDest(t) => GtarCmdView::CheckDest(t@),
            GtarCmd::PrepareScratch(t) => GtarCmdView::PrepareScratch(t@),
            GtarCmd::ExtractToScratch => GtarCmdView::ExtractToScratch,
            GtarCmd::FindPayload => GtarCmdView::FindPayload,
            GtarCmd::MakeDest => GtarCmdView::MakeDest,
            GtarCmd::MoveEntries => GtarCmdView::MoveEntries,
            GtarCmd::Finish { end, moved, cleanup } => GtarCmdView::Finish {
                end: *end,
                moved: *moved as nat,
                cleanup: *cleanup,
            },
            GtarCmd::Ignore => GtarCmdView::Ignore,
        }
    }
}

/// The scratch folder a double-wrapped archive is extracted into.
pub open spec fn scratch_name(target: Seq<char>) -> Seq<char> {
    "cadence_gtar_extract_"@ + target
}

/// One step of unpacking a double-wrapped archive into `target`.
pub open spec fn gtar_step(stage: GtarStage, target: Seq<char>, e: GtarEvent) -> (GtarStage, GtarCmdView) {
    match (stage, e) {
        (GtarStage::CheckingDest, GtarEvent::DestExists(exists)) => if exists {
            (GtarStage::Done, GtarCmdView::Finish { end: GtarEnd::AlreadyThere, moved: 0, cleanup: false })
        } else {
            (GtarStage::Preparing, GtarCmdView::PrepareScratch(scratch_name(target)))
        },
        (GtarStage::Preparing, GtarEvent::ScratchReady(ok)) => if ok {
            (GtarStage::Extracting, GtarCmdView::ExtractToScratch)
        } else {
            (GtarStage::Failed, GtarCmdView::Finish { end: GtarEnd::ScratchFailed, moved: 0, cleanup: false })
        },
        (GtarStage::Extracting, GtarEvent::Extracted(ok)) => if ok {
            (GtarStage::Unwrapping, GtarCmdView::FindPayload)
        } else {
            (GtarStage::Failed, GtarCmdView::Finish { end: GtarEnd::ExtractFailed, moved: 0, cleanup: true })
        },
        (GtarStage::Unwrapping, GtarEvent::PayloadFound) => (GtarStage::MakingDest, GtarCmdView::MakeDest),
        (GtarStage::MakingDest, GtarEvent::DestMade(ok)) => if ok {
            (GtarStage::Moving, GtarCmdView::MoveEntries)
        } else {
            (GtarStage::Failed, GtarCmdView::Finish { end: GtarEnd::DestFailed, moved: 0, cleanup: true })
        },
        (GtarStage::Moving, GtarEvent::Moved(k)) => (
            GtarStage::Done,
            GtarCmdView::Finish {
                end: if k > 0 {
                    GtarEnd::Installed
                } else {
                    GtarEnd::NothingMoved
                },
                moved: k as nat,
                cleanup: true,
            },
        ),
        _ => (stage, GtarCmdView::Ignore),
    }
}

/// Unpacking one double-wrapped archive (`NAME.tar.gz.gtar` and the like)
/// into its own folder under the Cadence destination.
pub struct GtarInstall {
    stage: GtarStage,
    target: String,
}

impl GtarInstall {
    /// Where the unpacking stands.
    pub closed spec fn stage(&self) -> GtarStage {
        self.stage
    }

    /// The name of the target folder.
    pub closed spec fn target(&self) -> Seq<char> {
        self.target@
    }

    /// Starts unpacking the archive `file_name`: skipped when no target
    /// folder name follows from it, else first find out whether the target
    /// folder exists.
    pub fn new(file_name: &str) -> (r: (Self, GtarCmd))
        ensures
            match gtar_target(file_name@) {
                None => {
                    &&& r.0.stage() == GtarStage::Failed
                    &&& r.1@ == (GtarCmdView::Finish { end: GtarEnd::NoTarget, moved: 0, cleanup: false })
                },
                Some(t) => {
                    &&& r.0.stage() == GtarStage::CheckingDest
                    &&& r.0.target() == t
                    &&& r.1@ == GtarCmdView::CheckDest(t)
                },
            },
    {
        match gtar_target_name(file_name) {
            None => (
                GtarInstall { stage: GtarStage::Failed, target: String::new() },
                GtarCmd::Finish { end: GtarEnd::NoTarget, moved: 0, cleanup: false },
            ),
            Some(t) => {
                let c = GtarCmd::CheckDest(t.clone());
                (GtarInstall { stage: GtarStage::CheckingDest, target: t }, c)
            },
        }
    }

    /// Takes in what the last command found and gives the next command.
    pub fn step(&mut self, e: GtarEvent) -> (c: GtarCmd)
        ensures
            (final(self).stage(), c@) == gtar_step(old(self).stage(), old(self).target(), e),
            final(self).target() == old(self).target(),
    {
        match (self.stage, e) {
            (GtarStage::CheckingDest, GtarEvent::DestExists(exists)) => {
                if exists {
                    self.stage = GtarStage::Done;
                    GtarCmd::Finish { end: GtarEnd::AlreadyThere, moved: 0, cleanup: false }
                } else {
                    self.stage = GtarStage::Preparing;
                    let mut s = String::from_str("cadence_gtar_extract_");
                    s.append(self.target.as_str());
                    GtarCmd::PrepareScratch(s)
                }
            },
            (GtarStage::Preparing, GtarEvent::ScratchReady(ok)) => {
                if ok {
                    self.stage = GtarStage::Extracting;
                    GtarCmd::ExtractToScratch
                } else {
                    self.stage = GtarStage::Failed;
                    GtarCmd::Finish { end: GtarEnd::ScratchFailed, moved: 0, cleanup: false }
                }
            },
            (GtarStage::Extracting, GtarEvent::Extracted(ok)) => {
                if ok {
                    self.stage = GtarStage::Unwrapping;
                    GtarCmd::FindPayload
                } else {
                    self.stage = GtarStage::Failed;
                    GtarCmd::Finish { end: GtarEnd::ExtractFailed, moved: 0, cleanup: true }
                }
            },
            (GtarStage::Unwrapping, GtarEvent::PayloadFound) => {
                self.stage = GtarStage::MakingDest;
                GtarCmd::MakeDest
            },
            (GtarStage::MakingDest, GtarEvent::DestMade(ok)) => {
                if ok {
                    self.stage = GtarStage::Moving;
                    GtarCmd::MoveEntries
                } else {
                    self.stage = GtarStage::Failed;
                    GtarCmd::Finish { end: GtarEnd::DestFailed, moved: 0, cleanup: true }
                }
            },
            (GtarStage::Moving, GtarEvent::Moved(k)) => {
                self.stage = GtarStage::Done;
                GtarCmd::Finish {
                    end: if k > 0 {
                        GtarEnd::Installed
                    } else {
                        GtarEnd::NothingMoved
                    },
                    moved: k,
                    cleanup: true,
                }
            },
            _ => GtarCmd::Ignore,
        }
    }
}

/// Once the scratch folder exists, every way of stopping removes it again.
pub proof fn lemma_gtar_cleans_up(stage: GtarStage, target: Seq<char>, e: GtarEvent)
    requires
        stage == GtarStage::Extracting || stage == GtarStage::Unwrapping
            || stage == GtarStage::MakingDest || stage == GtarStage::Moving,
    ensures
        gtar_step(stage, target, e).1 matches GtarCmdView::Finish { cleanup, .. } ==> cleanup,
{
}

} // verus!
