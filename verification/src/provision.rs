//! Provisioning one tool: where its files go, and which step follows
//! which as the probes, prompts and file operations report back.

use vstd::prelude::*;
use vstd::string::*;
use crate::archive::{archive_kind, spec_archive_kind, spec_zip_top_level, zip_top_level, ArchiveKind};
use crate::download::{download_path, get_url_filename, spec_download_path, spec_url_filename};
use crate::error::ErrorKind;
use crate::registry::{ToolSpec, ToolSpecView};
use crate::text::{join2, join3, opt_text, same_text, spec_trim, trim};

verus! {

/// The install directory of a tool: its subdirectory under `tools/`.
pub open spec fn spec_install_dir(subdir: Seq<char>) -> Seq<char> {
    "tools/"@ + subdir
}

/// The directory added to the search path: `bin` in the install
/// directory.
pub open spec fn spec_bin_dir(subdir: Seq<char>) -> Seq<char> {
    "tools/"@ + subdir + "/bin"@
}

/// The directory that unpacking leaves under `tools/` and that is then
/// moved to the install directory. Only ZIP releases need the move.
pub open spec fn spec_unpacked_dir(file_name: Seq<char>) -> Option<Seq<char>> {
    match spec_archive_kind(file_name) {
        Some(ArchiveKind::Zip) => Some("tools/"@ + spec_zip_top_level(file_name)),
        _ => None,
    }
}

/// The root under which every tool is installed.
pub fn tools_dir() -> (r: &'static str)
    ensures
        r@ == "tools"@,
{
    "tools"
}

/// Every path that provisioning one tool touches.
#[derive(Clone, Debug, PartialEq, Eq)]
pub struct InstallPlan {
    /// The name of the archive file.
    pub file_name: String,
    /// Where the archive is kept; a file already there is used as it is.
    pub download_path: String,
    /// The archive's kind, `None` where it cannot be unpacked.
    pub kind: Option<ArchiveKind>,
    /// Where the tool ends up.
    pub install_dir: String,
    /// What unpacking leaves behind, where that differs from `install_dir`.
    pub unpacked_dir: Option<String>,
    /// The directory to put on the search path.
    pub bin_dir: String,
}

/// What an `InstallPlan` holds, as character sequences.
pub struct InstallPlanView {
    pub file_name: Seq<char>,
    pub download_path: Seq<char>,
    pub kind: Option<ArchiveKind>,
    pub install_dir: Seq<char>,
    pub unpacked_dir: Option<Seq<char>>,
    pub bin_dir: Seq<char>,
}

impl View for InstallPlan {
    type V = InstallPlanView;

    open spec fn view(&self) -> InstallPlanView {
        InstallPlanView {
            file_name: self.file_name@,
            download_path: self.download_path@,
            kind: self.kind,
            install_dir: self.install_dir@,
            unpacked_dir: opt_text(self.unpacked_dir),
            bin_dir: self.bin_dir@,
        }
    }
}

/// The plan for installing the archive `file_name` into the subdirectory
/// `subdir` of the tools root.
pub open spec fn spec_plan_for_file(subdir: Seq<char>, file_name: Seq<char>) -> InstallPlanView {
    InstallPlanView {
        file_name,
        download_path: spec_download_path(file_name),
        kind: spec_archive_kind(file_name),
        install_dir: spec_install_dir(subdir),
        unpacked_dir: spec_unpacked_dir(file_name),
        bin_dir: spec_bin_dir(subdir),
    }
}

/// The plan for a tool, from the file name that its URL ends in; `Input`
/// where the URL yields none.
pub open spec fn spec_plan_install(tool: ToolSpecView) -> Result<InstallPlanView, ErrorKind> {
    match spec_url_filename(tool.download_url) {
        Some(file_name) => Ok(spec_plan_for_file(tool.install_subdir, file_name)),
        None => Err(ErrorKind::Input),
    }
}

/// The view of the result of laying out an installation.
pub open spec fn install_result_view(r: Result<InstallPlan, ErrorKind>) -> Result<
    InstallPlanView,
    ErrorKind,
> {
    match r {
        Ok(plan) => Ok(plan@),
        Err(e) => Err(e),
    }
}

/// Lays out the installation of a tool whose archive has the given file
/// name.
pub fn plan_for_file(tool: &ToolSpec, file_name: String) -> (r: InstallPlan)
    ensures
        r@ == spec_plan_for_file(tool@.install_subdir, file_name@),
{
    let kind = archive_kind(file_name.as_str());
    let unpacked_dir = match kind {
        Some(ArchiveKind::Zip) => Some(join2("tools/", zip_top_level(file_name.as_str()).as_str())),
        _ => None,
    };
    InstallPlan {
        download_path: download_path(file_name.as_str()),
        kind,
        install_dir: join2("tools/", tool.install_subdir.as_str()),
        unpacked_dir,
        bin_dir: join3("tools/", tool.install_subdir.as_str(), "/bin"),
        file_name,
    }
}

/// Lays out the installation of a tool from its download URL. Fails with
/// `Input` exactly where the URL yields no file name.
pub fn plan_install(tool: &ToolSpec) -> (r: Result<InstallPlan, ErrorKind>)
    ensures
        install_result_view(r) == spec_plan_install(tool@),
{
    match get_url_filename(tool.download_url.as_str()) {
        Some(file_name) => Ok(plan_for_file(tool, file_name)),
        None => Err(ErrorKind::Input),
    }
}

/// How the provisioning of one tool ended.
#[derive(Clone, Copy, Debug, PartialEq, Eq, Structural)]
pub enum Outcome {
    /// The tool was on the search path already; nothing was done.
    AlreadyAvailable,
    /// The operator declined the download.
    Skipped,
    /// The tool was installed and put on the search path.
    Installed,
    /// Provisioning was given up.
    Failed(ErrorKind),
}

/// The steps of provisioning one tool. Each but `Finished` names work for
/// the caller, who reports back with a `Reply`.
#[derive(Clone, Copy, Debug, PartialEq, Eq, Structural)]
pub enum Step {
    /// Run the tool with `--version`.
    Probe,
    /// Ask the operator whether to download.
    Confirm,
    /// Lay out the installation from the download URL.
    Resolve,
    /// Look whether the archive was downloaded before.
    CheckDownload,
    /// Download the archive.
    Download,
    /// Look whether the install directory exists.
    CheckInstallDir,
    /// Remove the install directory with all it holds.
    RemoveInstallDir,
    /// Unpack the archive under the tools root.
    Extract,
    /// Move the unpacked directory to the install directory.
    MoveIntoPlace,
    /// Look whether the `bin` directory exists.
    CheckBinDir,
    /// Put the `bin` directory in front of the search path.
    AddToPath,
    /// Nothing is left to do.
    Finished(Outcome),
}

/// What the caller found or achieved in a step.
#[derive(Clone, Copy, Debug, PartialEq, Eq, Structural)]
pub enum Reply {
    /// The answer to a question is yes; the work of a step is done.
    Yes,
    /// The answer is no; the work could not be done.
    No,
    /// The step failed in the given way.
    Failed(ErrorKind),
}

impl Outcome {
    /// Whether the run goes on with the next tool: it does unless
    /// provisioning failed. A declined download is no failure.
    pub open spec fn spec_continues(self) -> bool {
        !(self is Failed)
    }

    /// Whether the run goes on with the next tool.
    pub fn continues(self) -> (r: bool)
        ensures
            r == self.spec_continues(),
    {
        match self {
            Outcome::Failed(_) => false,
            _ => true,
        }
    }
}

impl Step {
    /// Whether the step reaches the network or changes files or the
    /// search path.
    pub open spec fn spec_has_effect(self) -> bool {
        self == Step::Download || self == Step::RemoveInstallDir || self == Step::Extract || self
            == Step::MoveIntoPlace || self == Step::AddToPath
    }

    /// Whether the step reaches the network or changes files or the
    /// search path.
    pub fn has_effect(self) -> (r: bool)
        ensures
            r == self.spec_has_effect(),
    {
        match self {
            Step::Download | Step::RemoveInstallDir | Step::Extract | Step::MoveIntoPlace | Step::AddToPath => true,
            _ => false,
        }
    }

    /// Whether the step comes before anything is unpacked or removed.
    pub open spec fn spec_before_unpacking(self) -> bool {
        self == Step::Probe || self == Step::Confirm || self == Step::Resolve || self
            == Step::CheckDownload || self == Step::Download || self is Finished
    }

    /// The kind of failure that a plain "no" means in this step.
    pub open spec fn spec_failure_kind(self) -> ErrorKind {
        match self {
            Step::Resolve => ErrorKind::Input,
            Step::Download => ErrorKind::Network,
            Step::Extract => ErrorKind::Archive,
            _ => ErrorKind::Filesystem,
        }
    }
}

/// The step after the archive is at hand: on to the install directory, or
/// the end where the archive's kind cannot be unpacked.
pub open spec fn spec_after_download(kind: Option<ArchiveKind>) -> Step {
    match kind {
        Some(_) => Step::CheckInstallDir,
        None => Step::Finished(Outcome::Failed(ErrorKind::Archive)),
    }
}

/// The step that follows `step` once the caller replied. `kind` is the
/// archive kind of the plan; it is read only after `Resolve`.
pub open spec fn spec_next_step(kind: Option<ArchiveKind>, step: Step, reply: Reply) -> Step {
    match (step, reply) {
        (Step::Finished(outcome), _) => Step::Finished(outcome),
        (Step::Probe, Reply::Yes) => Step::Finished(Outcome::AlreadyAvailable),
        (Step::Probe, _) => Step::Confirm,
        (_, Reply::Failed(e)) => Step::Finished(Outcome::Failed(e)),
        (Step::Confirm, Reply::Yes) => Step::Resolve,
        (Step::Confirm, Reply::No) => Step::Finished(Outcome::Skipped),
        (Step::Resolve, Reply::Yes) => Step::CheckDownload,
        (Step::CheckDownload, Reply::Yes) => spec_after_download(kind),
        (Step::CheckDownload, Reply::No) => Step::Download,
        (Step::Download, Reply::Yes) => spec_after_download(kind),
        (Step::CheckInstallDir, Reply::Yes) => Step::RemoveInstallDir,
        (Step::CheckInstallDir, Reply::No) => Step::Extract,
        (Step::RemoveInstallDir, Reply::Yes) => Step::Extract,
        (Step::Extract, Reply::Yes) => if kind == Some(ArchiveKind::Zip) {
            Step::MoveIntoPlace
        } else {
            Step::CheckBinDir
        },
        (Step::MoveIntoPlace, Reply::Yes) => Step::CheckBinDir,
        (Step::CheckBinDir, Reply::Yes) => Step::AddToPath,
        (Step::AddToPath, Reply::Yes) => Step::Finished(Outcome::Installed),
        (_, Reply::No) => Step::Finished(Outcome::Failed(step.spec_failure_kind())),
    }
}

/// The step reached from `step` after the replies, taken in order.
pub open spec fn spec_step_after(kind: Option<ArchiveKind>, step: Step, replies: Seq<Reply>) -> Step
    decreases replies.len(),
{
    if replies.len() == 0 {
        step
    } else {
        spec_step_after(kind, spec_next_step(kind, step, replies[0]), replies.drop_first())
    }
}

/// The first step of provisioning a tool.
pub fn first_step() -> (r: Step)
    ensures
        r == Step::Probe,
{
    Step::Probe
}

/// Decides what follows a step, given the caller's reply to it.
///
/// A tool that answers the probe is left alone. A declined download ends
/// without failure. An archive that cannot be unpacked ends with
/// `Archive` once it is at hand. An existing install directory is removed
/// before unpacking, and only ZIP releases are moved into place.
pub fn next_step(kind: Option<ArchiveKind>, step: Step, reply: Reply) -> (r: Step)
    ensures
        r == spec_next_step(kind, step, reply),
{
    match step {
        Step::Finished(outcome) => Step::Finished(outcome),
        Step::Probe => match reply {
            Reply::Yes => Step::Finished(Outcome::AlreadyAvailable),
            _ => Step::Confirm,
        },
        _ => match reply {
            Reply::Failed(e) => Step::Finished(Outcome::Failed(e)),
            Reply::No => match step {
                Step::Confirm => Step::Finished(Outcome::Skipped),
                Step::CheckDownload => Step::Download,
                Step::CheckInstallDir => Step::Extract,
                Step::Resolve => Step::Finished(Outcome::Failed(ErrorKind::Input)),
                Step::Download => Step::Finished(Outcome::Failed(ErrorKind::Network)),
                Step::Extract => Step::Finished(Outcome::Failed(ErrorKind::Archive)),
                _ => Step::Finished(Outcome::Failed(ErrorKind::Filesystem)),
            },
            Reply::Yes => match step {
                Step::Confirm => Step::Resolve,
                Step::Resolve => Step::CheckDownload,
                Step::CheckDownload | Step::Download => match kind {
                    Some(_) => Step::CheckInstallDir,
                    None => Step::Finished(Outcome::Failed(ErrorKind::Archive)),
                },
                Step::CheckInstallDir => Step::RemoveInstallDir,
                Step::RemoveInstallDir => Step::Extract,
                Step::Extract => match kind {
                    Some(ArchiveKind::Zip) => Step::MoveIntoPlace,
                    _ => Step::CheckBinDir,
                },
                Step::MoveIntoPlace => Step::CheckBinDir,
                Step::CheckBinDir => Step::AddToPath,
                _ => Step::Finished(Outcome::Installed),
            },
        },
    }
}

/// Once provisioning has finished, further replies change nothing.
pub proof fn lemma_finished_stays(kind: Option<ArchiveKind>, outcome: Outcome, replies: Seq<Reply>)
    ensures
        spec_step_after(kind, Step::Finished(outcome), replies) == Step::Finished(outcome),
    decreases replies.len(),
{
    if replies.len() > 0 {
        lemma_finished_stays(kind, outcome, replies.drop_first());
    }
}

/// A tool that answers the probe is finished at once: whatever replies
/// follow, no step with an effect on network, files or search path is
/// ever reached.
pub proof fn lemma_available_tool_untouched(kind: Option<ArchiveKind>, replies: Seq<Reply>)
    requires
        replies.len() > 0,
        replies[0] == Reply::Yes,
    ensures
        spec_step_after(kind, Step::Probe, replies) == Step::Finished(Outcome::AlreadyAvailable),
        !spec_step_after(kind, Step::Probe, replies).spec_has_effect(),
{
    lemma_finished_stays(kind, Outcome::AlreadyAvailable, replies.drop_first());
}

/// A declined download ends the tool's provisioning without failure, so
/// the run goes on with the next tool.
pub proof fn lemma_declined_is_no_failure(kind: Option<ArchiveKind>)
    ensures
        spec_next_step(kind, Step::Confirm, Reply::No) == Step::Finished(Outcome::Skipped),
        Outcome::Skipped.spec_continues(),
{
}

/// Unpacking starts only from a clean slate: the step before `Extract` is
/// either the check that found no install directory or the removal that
/// succeeded. In particular a directory that was found is removed first.
pub proof fn lemma_extract_follows_clean_dir(kind: Option<ArchiveKind>, step: Step, reply: Reply)
    requires
        spec_next_step(kind, step, reply) == Step::Extract,
    ensures
        (step == Step::CheckInstallDir && reply == Reply::No) || (step == Step::RemoveInstallDir
            && reply == Reply::Yes),
        spec_next_step(kind, Step::CheckInstallDir, Reply::Yes) == Step::RemoveInstallDir,
{
}

/// With an archive of a kind that cannot be unpacked, provisioning never
/// gets past the download: nothing is removed, unpacked or moved.
pub proof fn lemma_unsupported_never_unpacks(step: Step, replies: Seq<Reply>)
    requires
        step.spec_before_unpacking(),
    ensures
        spec_step_after(None, step, replies).spec_before_unpacking(),
    decreases replies.len(),
{
    if replies.len() > 0 {
        lemma_unsupported_never_unpacks(
            spec_next_step(None, step, replies[0]),
            replies.drop_first(),
        );
    }
}

/// With an archive of a kind that cannot be unpacked, having the archive
/// at hand ends provisioning with `Archive`.
pub proof fn lemma_unsupported_fails_at_once()
    ensures
        spec_next_step(None, Step::CheckDownload, Reply::Yes) == Step::Finished(
            Outcome::Failed(ErrorKind::Archive),
        ),
        spec_next_step(None, Step::Download, Reply::Yes) == Step::Finished(
            Outcome::Failed(ErrorKind::Archive),
        ),
{
}

/// The steps of moving the unpacked directory to the install directory.
#[derive(Clone, Copy, Debug, PartialEq, Eq, Structural)]
pub enum MoveStep {
    /// Rename the unpacked directory to the install directory.
    Rename,
    /// Remove what stands at the target.
    RemoveTarget,
    /// Rename once more; this attempt is the last.
    RenameAgain,
    /// The directory is in place.
    Moved,
    /// The move was given up.
    GaveUp,
}

/// What a rename or a removal reported.
#[derive(Clone, Copy, Debug, PartialEq, Eq, Structural)]
pub enum MoveReply {
    /// It succeeded.
    Done,
    /// The target of the rename exists already.
    TargetExists,
    /// It failed otherwise.
    Error,
}

/// The step after `step`: a rename refused because the target exists is
/// tried again, once, after the target was removed.
pub open spec fn spec_next_move(step: MoveStep, reply: MoveReply) -> MoveStep {
    match (step, reply) {
        (MoveStep::Moved, _) => MoveStep::Moved,
        (MoveStep::GaveUp, _) => MoveStep::GaveUp,
        (MoveStep::Rename, MoveReply::Done) => MoveStep::Moved,
        (MoveStep::Rename, MoveReply::TargetExists) => MoveStep::RemoveTarget,
        (MoveStep::RemoveTarget, MoveReply::Done) => MoveStep::RenameAgain,
        (MoveStep::RenameAgain, MoveReply::Done) => MoveStep::Moved,
        _ => MoveStep::GaveUp,
    }
}

/// Decides what follows a step of the move.
pub fn next_move(step: MoveStep, reply: MoveReply) -> (r: MoveStep)
    ensures
        r == spec_next_move(step, reply),
{
    match step {
        MoveStep::Moved => MoveStep::Moved,
        MoveStep::GaveUp => MoveStep::GaveUp,
        MoveStep::Rename => match reply {
            MoveReply::Done => MoveStep::Moved,
            MoveReply::TargetExists => MoveStep::RemoveTarget,
            MoveReply::Error => MoveStep::GaveUp,
        },
        MoveStep::RemoveTarget => match reply {
            MoveReply::Done => MoveStep::RenameAgain,
            _ => MoveStep::GaveUp,
        },
        MoveStep::RenameAgain => match reply {
            MoveReply::Done => MoveStep::Moved,
            _ => MoveStep::GaveUp,
        },
    }
}

/// What the move reports to the provisioning of the tool once it has
/// ended: done, or a filesystem failure.
pub fn move_reply(step: MoveStep) -> (r: Option<Reply>)
    ensures
        r == match step {
            MoveStep::Moved => Some(Reply::Yes),
            MoveStep::GaveUp => Some(Reply::Failed(ErrorKind::Filesystem)),
            _ => None::<Reply>,
        },
{
    match step {
        MoveStep::Moved => Some(Reply::Yes),
        MoveStep::GaveUp => Some(Reply::Failed(ErrorKind::Filesystem)),
        _ => None,
    }
}

/// Whether the operator's answer declines the download: `n` or `no`,
/// in lower or upper case, with white space around it at most.
pub open spec fn spec_declines(answer: Seq<char>) -> bool {
    let t = spec_trim(answer);
    t == "n"@ || t == "N"@ || t == "no"@ || t == "No"@ || t == "NO"@
}

/// Whether the operator's answer accepts the download: `y` or `yes`,
/// in lower or upper case, with white space around it at most.
pub open spec fn spec_accepts(answer: Seq<char>) -> bool {
    let t = spec_trim(answer);
    t == "y"@ || t == "Y"@ || t == "yes"@ || t == "Yes"@ || t == "YES"@
}

/// The reply that an answer to the download prompt stands for. An answer
/// that neither accepts nor declines is a bad input.
pub open spec fn spec_confirm_reply(answer: Seq<char>) -> Reply {
    if spec_declines(answer) {
        Reply::No
    } else if spec_accepts(answer) {
        Reply::Yes
    } else {
        Reply::Failed(ErrorKind::Input)
    }
}

/// Reads the operator's answer to the download prompt. Only a yes starts
/// a download; an answer that is neither yes nor no fails with `Input`.
pub fn confirm_reply(answer: &str) -> (r: Reply)
    ensures
        r == spec_confirm_reply(answer@),
{
    let trimmed = trim(answer);
    let t = trimmed.as_str();
    if same_text(t, "n") || same_text(t, "N") || same_text(t, "no") || same_text(t, "No")
        || same_text(t, "NO") {
        Reply::No
    } else if same_text(t, "y") || same_text(t, "Y") || same_text(t, "yes") || same_text(t, "Yes")
        || same_text(t, "YES") {
        Reply::Yes
    } else {
        Reply::Failed(ErrorKind::Input)
    }
}

/// An answer that is neither yes nor no starts no download: the tool's
/// provisioning ends with `Input`, whatever is reported afterwards.
pub proof fn lemma_invalid_answer_downloads_nothing(
    kind: Option<ArchiveKind>,
    answer: Seq<char>,
    later: Seq<Reply>,
)
    requires
        !spec_declines(answer),
        !spec_accepts(answer),
    ensures
        spec_step_after(kind, Step::Confirm, seq![spec_confirm_reply(answer)] + later)
            == Step::Finished(Outcome::Failed(ErrorKind::Input)),
{
    let replies = seq![spec_confirm_reply(answer)] + later;
    assert(replies[0] == Reply::Failed(ErrorKind::Input));
    assert(replies.drop_first() =~= later);
    lemma_finished_stays(kind, Outcome::Failed(ErrorKind::Input), later);
}

/// No answer both accepts and declines.
pub proof fn lemma_answers_exclusive(answer: Seq<char>)
    ensures
        !(spec_declines(answer) && spec_accepts(answer)),
{
    reveal_strlit("n");
    reveal_strlit("N");
    reveal_strlit("no");
    reveal_strlit("No");
    reveal_strlit("NO");
    reveal_strlit("y");
    reveal_strlit("Y");
    reveal_strlit("yes");
    reveal_strlit("Yes");
    reveal_strlit("YES");
    let t = spec_trim(answer);
    if spec_declines(answer) && spec_accepts(answer) {
        assert(t[0] == 'n' || t[0] == 'N');
        assert(t[0] == 'y' || t[0] == 'Y');
    }
}

/// Follows the steps from `start` through a list of replies, one reply to
/// each step in turn, and returns the step reached.
pub fn replay(kind: Option<ArchiveKind>, start: Step, replies: &Vec<Reply>) -> (r: Step)
    ensures
        r == spec_step_after(kind, start, replies@),
{
    let mut step = start;
    let mut i: usize = 0;
    assert(replies@.subrange(0, replies@.len() as int) =~= replies@);
    while i < replies.len()
        invariant
            i <= replies@.len(),
            spec_step_after(kind, start, replies@) == spec_step_after(
                kind,
                step,
                replies@.subrange(i as int, replies@.len() as int),
            ),
        decreases replies@.len() - i,
    {
        assert(replies@.subrange(i as int, replies@.len() as int).drop_first()
            =~= replies@.subrange(i + 1, replies@.len() as int));
        step = next_step(kind, step, replies[i]);
        i = i + 1;
    }
    step
}

} // verus!
