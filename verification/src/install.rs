//! Installing ffmpeg when none is available: the decisions, as a state
//! machine whose caller performs each action and reports how it went.
//!
//! The installer first tries the platform's package managers in order (a
//! manager is tried when `<manager> --version` runs). When none installs
//! ffmpeg it downloads a static build into a temporary directory, unpacks it,
//! finds the executable and copies it into the cache directory.

use vstd::prelude::*;
use crate::ffmpeg::{binary_name, spec_binary_name, Platform};

verus! {

/// A directory or file that the installer's actions refer to.
#[derive(Debug, Clone, Copy, PartialEq, Eq, Structural)]
pub enum InstallPath {
    /// The temporary download directory.
    TempDir,
    /// The downloaded archive, inside the temporary directory.
    Archive,
    /// The directory the archive is unpacked into (Windows only).
    ExtractDir,
    /// The cache directory that keeps the installed executable.
    CacheDir,
}

/// A package manager that can install ffmpeg.
#[derive(Debug, Clone, Copy, PartialEq, Eq)]
pub struct PackageManager {
    /// The program whose `--version` tells whether the manager is present.
    pub program: &'static str,
    /// Printed before the installation.
    pub announce: &'static str,
    /// The error message when the installation command cannot be run.
    pub failure: &'static str,
}

/// How an installation refuses.
#[derive(Debug, Clone, Copy, PartialEq, Eq)]
pub enum InstallFailure {
    /// The failed operation's own error, under this message.
    Context(&'static str),
    /// This message alone.
    Message(&'static str),
    /// The failed operation's own error.
    Io,
}

/// How an installation ends.
#[derive(Debug, Clone, Copy, PartialEq, Eq)]
pub enum InstallOutcome {
    /// A package manager installed ffmpeg: use the `ffmpeg` on the `PATH`.
    UseSystem,
    /// The executable of this name now sits in the cache directory.
    Installed(&'static str),
    /// The installation failed.
    Refused(InstallFailure),
}

/// A command that the installer runs.
#[derive(Debug, Clone, Copy, PartialEq, Eq)]
pub enum CommandKind {
    /// The installation command of the package manager with this index.
    ManagerInstall(usize),
    /// The download of the static build.
    Download,
    /// The unpacking of the downloaded archive.
    Extract,
}

/// What the caller of the installer does next.
#[derive(Debug, Clone, Copy, PartialEq, Eq)]
pub enum InstallAction {
    /// Run `<program> --version`; `Done` when it ran and succeeded.
    Probe(&'static str),
    /// Run the command (see `install_command`); `Done` on success, `Failed` on a
    /// failure status, `NotStarted` when it could not be run at all.
    Run(CommandKind),
    /// Remove the temporary directory if present, then create it.
    ResetTempDir,
    /// Create the directory and its parents.
    CreateDir(InstallPath),
    /// Search the directory, recursively, for a file of this name.
    Locate(&'static str, InstallPath),
    /// Copy the file found into the cache directory under this name.
    CopyToCache(&'static str),
    /// Make the cached file of this name executable (mode 755).
    MakeExecutable(&'static str),
    /// Remove the temporary directory, ignoring errors.
    RemoveTempDir,
    /// Stop with this outcome.
    Finish(InstallOutcome),
}

/// How the last action went.
#[derive(Debug, Clone, Copy, PartialEq, Eq, Structural)]
pub enum StepResult {
    Done,
    Failed,
    NotStarted,
}

/// Where the installation stands.
#[derive(Debug, Clone, Copy, PartialEq, Eq)]
pub enum InstallStage {
    Start,
    Probing(usize),
    Installing(usize),
    PreparingTemp,
    Downloading,
    CreatingExtractDir,
    Extracting,
    Locating,
    CreatingCacheDir,
    Copying,
    MakingExecutable,
    CleaningUp(InstallOutcome),
    Finished,
}

/// The next stage, a message to print first (if any), and the action to perform.
#[derive(Debug, Clone, Copy, PartialEq, Eq)]
pub struct InstallStep {
    pub stage: InstallStage,
    pub announce: Option<&'static str>,
    pub action: InstallAction,
}

/// What differs between platforms in the download path.
#[derive(Debug, Clone, Copy, PartialEq, Eq)]
pub struct InstallProfile {
    /// Name of the temporary directory, under the system's temporary directory.
    pub temp_name: &'static str,
    /// Name of the archive file, inside the temporary directory.
    pub archive_name: &'static str,
    /// Name of the unpacking directory, inside the temporary directory.
    pub extract_name: &'static str,
    /// Where the archive is unpacked and the executable searched for.
    pub unpack_into: InstallPath,
    /// Printed before the download.
    pub download_announce: &'static str,
    /// The error when the download command fails.
    pub download_failed: &'static str,
    /// The error when unpacking fails.
    pub extract_failed: &'static str,
    /// The error when the unpacked archive holds no executable.
    pub not_found: &'static str,
    /// How a failed copy into the cache is reported.
    pub copy_failure: InstallFailure,
    /// Whether the copied file must be made executable.
    pub make_executable: bool,
}

// ---------------------------------------------------------------------------
// Platform data
// ---------------------------------------------------------------------------

/// The package managers tried, in order.
pub open spec fn spec_managers(platform: Platform) -> Seq<PackageManager> {
    match platform {
        Platform::Linux => seq![
            PackageManager {
                program: "apt",
                announce: "Installing ffmpeg via apt...",
                failure: "Failed to install ffmpeg via apt",
            },
            PackageManager {
                program: "pacman",
                announce: "Installing ffmpeg via pacman...",
                failure: "Failed to install ffmpeg via pacman",
            },
            PackageManager {
                program: "dnf",
                announce: "Installing ffmpeg via dnf...",
                failure: "Failed to install ffmpeg via dnf",
            },
        ],
        Platform::MacOs => seq![
            PackageManager {
                program: "brew",
                announce: "Installing ffmpeg via Homebrew...",
                failure: "Failed to install ffmpeg via brew",
            },
        ],
        _ => Seq::empty(),
    }
}

/// The package managers tried on `platform`, in order.
pub fn managers(platform: Platform) -> (r: &'static [PackageManager])
    ensures
        r@ == spec_managers(platform),
{
    match platform {
        Platform::Linux => {
            let r: &'static [PackageManager] = &[
                PackageManager {
                    program: "apt",
                    announce: "Installing ffmpeg via apt...",
                    failure: "Failed to install ffmpeg via apt",
                },
                PackageManager {
                    program: "pacman",
                    announce: "Installing ffmpeg via pacman...",
                    failure: "Failed to install ffmpeg via pacman",
                },
                PackageManager {
                    program: "dnf",
                    announce: "Installing ffmpeg via dnf...",
                    failure: "Failed to install ffmpeg via dnf",
                },
            ];
            assert(r@ =~= spec_managers(platform));
            r
        },
        Platform::MacOs => {
            let r: &'static [PackageManager] = &[
                PackageManager {
                    program: "brew",
                    announce: "Installing ffmpeg via Homebrew...",
                    failure: "Failed to install ffmpeg via brew",
                },
            ];
            assert(r@ =~= spec_managers(platform));
            r
        },
        _ => {
            let r: &'static [PackageManager] = &[];
            assert(r@ =~= spec_managers(platform));
            r
        },
    }
}

/// The download path's particulars on `platform`.
pub open spec fn spec_profile(platform: Platform) -> InstallProfile {
    match platform {
        Platform::Windows => InstallProfile {
            temp_name: "noir_ffmpeg_dl",
            archive_name: "ffmpeg.zip",
            extract_name: "extracted",
            unpack_into: InstallPath::ExtractDir,
            download_announce: "ffmpeg not found. Downloading...",
            download_failed: "Download failed. Install ffmpeg manually from https://ffmpeg.org/download.html",
            extract_failed: "Extraction failed. Install ffmpeg manually.",
            not_found: "ffmpeg.exe not found after extraction",
            copy_failure: InstallFailure::Context("Failed to copy ffmpeg to cache"),
            make_executable: false,
        },
        Platform::MacOs => InstallProfile {
            temp_name: "noir_ffmpeg_dl",
            archive_name: "ffmpeg.zip",
            extract_name: "extracted",
            unpack_into: InstallPath::TempDir,
            download_announce: "Downloading ffmpeg...",
            download_failed: "Download failed. Install ffmpeg via 'brew install ffmpeg'.",
            extract_failed: "Extraction failed.",
            not_found: "ffmpeg binary not found after extraction",
            copy_failure: InstallFailure::Io,
            make_executable: true,
        },
        _ => InstallProfile {
            temp_name: "noir_ffmpeg_dl",
            archive_name: "ffmpeg.tar.xz",
            extract_name: "extracted",
            unpack_into: InstallPath::TempDir,
            download_announce: "Downloading ffmpeg static build...",
            download_failed: "Download failed. Install ffmpeg via your package manager.",
            extract_failed: "Extraction failed.",
            not_found: "ffmpeg binary not found after extraction",
            copy_failure: InstallFailure::Io,
            make_executable: true,
        },
    }
}

/// The download path's particulars on `platform`.
pub fn profile(platform: Platform) -> (r: InstallProfile)
    ensures
        r == spec_profile(platform),
{
    match platform {
        Platform::Windows => InstallProfile {
            temp_name: "noir_ffmpeg_dl",
            archive_name: "ffmpeg.zip",
            extract_name: "extracted",
            unpack_into: InstallPath::ExtractDir,
            download_announce: "ffmpeg not found. Downloading...",
            download_failed: "Download failed. Install ffmpeg manually from https://ffmpeg.org/download.html",
            extract_failed: "Extraction failed. Install ffmpeg manually.",
            not_found: "ffmpeg.exe not found after extraction",
            copy_failure: InstallFailure::Context("Failed to copy ffmpeg to cache"),
            make_executable: false,
        },
        Platform::MacOs => InstallProfile {
            temp_name: "noir_ffmpeg_dl",
            archive_name: "ffmpeg.zip",
            extract_name: "extracted",
            unpack_into: InstallPath::TempDir,
            download_announce: "Downloading ffmpeg...",
            download_failed: "Download failed. Install ffmpeg via 'brew install ffmpeg'.",
            extract_failed: "Extraction failed.",
            not_found: "ffmpeg binary not found after extraction",
            copy_failure: InstallFailure::Io,
            make_executable: true,
        },
        _ => InstallProfile {
            temp_name: "noir_ffmpeg_dl",
            archive_name: "ffmpeg.tar.xz",
            extract_name: "extracted",
            unpack_into: InstallPath::TempDir,
            download_announce: "Downloading ffmpeg static build...",
            download_failed: "Download failed. Install ffmpeg via your package manager.",
            extract_failed: "Extraction failed.",
            not_found: "ffmpeg binary not found after extraction",
            copy_failure: InstallFailure::Io,
            make_executable: true,
        },
    }
}

// ---------------------------------------------------------------------------
// The transitions
// ---------------------------------------------------------------------------

/// The refusal on a platform that has no installer.
pub open spec fn unsupported_platform() -> &'static str {
    "Unsupported platform. Install ffmpeg manually: https://ffmpeg.org/download.html"
}

/// A step into `stage` that performs `action`, without a message.
pub open spec fn quiet(stage: InstallStage, action: InstallAction) -> InstallStep {
    InstallStep { stage, announce: None, action }
}

/// The last step: stop with `outcome`.
pub open spec fn finish(outcome: InstallOutcome) -> InstallStep {
    quiet(InstallStage::Finished, InstallAction::Finish(outcome))
}

/// Remove the temporary directory, then stop with `outcome`.
pub open spec fn clean_then(outcome: InstallOutcome) -> InstallStep {
    quiet(InstallStage::CleaningUp(outcome), InstallAction::RemoveTempDir)
}

/// Try the package manager with index `i`, or, past the last one, start the
/// download (or refuse, on a platform without one).
pub open spec fn try_manager(platform: Platform, i: int) -> InstallStep {
    let ms = spec_managers(platform);
    if 0 <= i < ms.len() {
        quiet(InstallStage::Probing(i as usize), InstallAction::Probe(ms[i].program))
    } else if platform == Platform::Other {
        finish(InstallOutcome::Refused(InstallFailure::Message(unsupported_platform())))
    } else {
        quiet(InstallStage::PreparingTemp, InstallAction::ResetTempDir)
    }
}

/// The stages that can be current: an index names one of the platform's
/// package managers, and the installation has not finished.
pub open spec fn valid_stage(platform: Platform, stage: InstallStage) -> bool {
    match stage {
        InstallStage::Probing(i) => i < spec_managers(platform).len(),
        InstallStage::Installing(i) => i < spec_managers(platform).len(),
        InstallStage::Finished => false,
        InstallStage::Downloading | InstallStage::Extracting | InstallStage::PreparingTemp
        | InstallStage::CreatingExtractDir => platform != Platform::Other,
        _ => true,
    }
}

/// The step that follows `stage` when its action ended with `result`.
pub open spec fn spec_install_step(platform: Platform, stage: InstallStage, result: StepResult) -> InstallStep {
    let p = spec_profile(platform);
    let ms = spec_managers(platform);
    let bin = spec_binary_name(platform);
    match stage {
        InstallStage::Start => try_manager(platform, 0),
        InstallStage::Probing(i) => if result == StepResult::Done {
            InstallStep {
                stage: InstallStage::Installing(i),
                announce: Some(ms[i as int].announce),
                action: InstallAction::Run(CommandKind::ManagerInstall(i)),
            }
        } else {
            try_manager(platform, i + 1)
        },
        InstallStage::Installing(i) => match result {
            StepResult::Done => finish(InstallOutcome::UseSystem),
            StepResult::Failed => try_manager(platform, i + 1),
            StepResult::NotStarted => finish(
                InstallOutcome::Refused(InstallFailure::Context(ms[i as int].failure)),
            ),
        },
        InstallStage::PreparingTemp => if result == StepResult::Done {
            InstallStep {
                stage: InstallStage::Downloading,
                announce: Some(p.download_announce),
                action: InstallAction::Run(CommandKind::Download),
            }
        } else {
            finish(InstallOutcome::Refused(InstallFailure::Io))
        },
        InstallStage::Downloading => match result {
            StepResult::Done => if p.unpack_into == InstallPath::ExtractDir {
                InstallStep {
                    stage: InstallStage::CreatingExtractDir,
                    announce: Some("Extracting..."),
                    action: InstallAction::CreateDir(InstallPath::ExtractDir),
                }
            } else {
                InstallStep {
                    stage: InstallStage::Extracting,
                    announce: Some("Extracting..."),
                    action: InstallAction::Run(CommandKind::Extract),
                }
            },
            StepResult::Failed => clean_then(
                InstallOutcome::Refused(InstallFailure::Message(p.download_failed)),
            ),
            StepResult::NotStarted => finish(
                InstallOutcome::Refused(InstallFailure::Context("Failed to download ffmpeg")),
            ),
        },
        InstallStage::CreatingExtractDir => if result == StepResult::Done {
            quiet(InstallStage::Extracting, InstallAction::Run(CommandKind::Extract))
        } else {
            finish(InstallOutcome::Refused(InstallFailure::Io))
        },
        InstallStage::Extracting => match result {
            StepResult::Done => quiet(InstallStage::Locating, InstallAction::Locate(bin, p.unpack_into)),
            StepResult::Failed => clean_then(
                InstallOutcome::Refused(InstallFailure::Message(p.extract_failed)),
            ),
            StepResult::NotStarted => finish(
                InstallOutcome::Refused(InstallFailure::Context("Failed to extract ffmpeg")),
            ),
        },
        InstallStage::Locating => if result == StepResult::Done {
            quiet(InstallStage::CreatingCacheDir, InstallAction::CreateDir(InstallPath::CacheDir))
        } else {
            finish(InstallOutcome::Refused(InstallFailure::Message(p.not_found)))
        },
        InstallStage::CreatingCacheDir => if result == StepResult::Done {
            quiet(InstallStage::Copying, InstallAction::CopyToCache(bin))
        } else {
            finish(InstallOutcome::Refused(InstallFailure::Io))
        },
        InstallStage::Copying => if result == StepResult::Done {
            if p.make_executable {
                quiet(InstallStage::MakingExecutable, InstallAction::MakeExecutable(bin))
            } else {
                clean_then(InstallOutcome::Installed(bin))
            }
        } else {
            finish(InstallOutcome::Refused(p.copy_failure))
        },
        InstallStage::MakingExecutable => if result == StepResult::Done {
            clean_then(InstallOutcome::Installed(bin))
        } else {
            finish(InstallOutcome::Refused(InstallFailure::Io))
        },
        InstallStage::CleaningUp(outcome) => finish(outcome),
        InstallStage::Finished => finish(InstallOutcome::Refused(InstallFailure::Io)),
    }
}

/// A measure that every step of the installer decreases.
pub open spec fn stage_rank(stage: InstallStage) -> int {
    match stage {
        InstallStage::Start => 200,
        InstallStage::Probing(i) => 100 - 2 * i,
        InstallStage::Installing(i) => 99 - 2 * i,
        InstallStage::PreparingTemp => 10,
        InstallStage::Downloading => 9,
        InstallStage::CreatingExtractDir => 8,
        InstallStage::Extracting => 7,
        InstallStage::Locating => 6,
        InstallStage::CreatingCacheDir => 5,
        InstallStage::Copying => 4,
        InstallStage::MakingExecutable => 3,
        InstallStage::CleaningUp(_) => 1,
        InstallStage::Finished => 0,
    }
}

/// The installer always gets on: from any current stage, whatever the result
/// of its action, the next step either stops (and only then is its action
/// `Finish`) or moves to a current stage ranked lower; and every command it
/// asks for exists. So an installation ends after finitely many steps, and
/// `install_step` and `install_command` can always be called on what it gives.
pub proof fn lemma_install_progress(platform: Platform, stage: InstallStage, result: StepResult)
    requires
        valid_stage(platform, stage),
    ensures
        ({
            let next = spec_install_step(platform, stage, result);
            &&& (next.stage == InstallStage::Finished) == (next.action is Finish)
            &&& next.stage != InstallStage::Finished ==> valid_stage(platform, next.stage)
                && stage_rank(next.stage) < stage_rank(stage)
            &&& next.action matches InstallAction::Run(kind) ==> valid_command(platform, kind)
        }),
{
    assert(spec_managers(platform).len() <= 3);
}

fn try_manager_exec(platform: Platform, i: usize) -> (r: InstallStep)
    requires
        i <= spec_managers(platform).len(),
    ensures
        r == try_manager(platform, i as int),
{
    let ms = managers(platform);
    if i < ms.len() {
        InstallStep {
            stage: InstallStage::Probing(i),
            announce: None,
            action: InstallAction::Probe(ms[i].program),
        }
    } else if platform == Platform::Other {
        InstallStep {
            stage: InstallStage::Finished,
            announce: None,
            action: InstallAction::Finish(InstallOutcome::Refused(InstallFailure::Message(
                "Unsupported platform. Install ffmpeg manually: https://ffmpeg.org/download.html",
            ))),
        }
    } else {
        InstallStep {
            stage: InstallStage::PreparingTemp,
            announce: None,
            action: InstallAction::ResetTempDir,
        }
    }
}

fn finish_exec(outcome: InstallOutcome) -> (r: InstallStep)
    ensures
        r == finish(outcome),
{
    InstallStep {
        stage: InstallStage::Finished,
        announce: None,
        action: InstallAction::Finish(outcome),
    }
}

fn clean_then_exec(outcome: InstallOutcome) -> (r: InstallStep)
    ensures
        r == clean_then(outcome),
{
    InstallStep {
        stage: InstallStage::CleaningUp(outcome),
        announce: None,
        action: InstallAction::RemoveTempDir,
    }
}

/// The installer's next step after the action of `stage` ended with `result`
/// (the result is ignored at `Start` and when cleaning up).
pub fn install_step(platform: Platform, stage: InstallStage, result: StepResult) -> (r: InstallStep)
    requires
        valid_stage(platform, stage),
    ensures
        r == spec_install_step(platform, stage, result),
{
    let p = profile(platform);
    let ms = managers(platform);
    let bin = binary_name(platform);
    match stage {
        InstallStage::Start => try_manager_exec(platform, 0),
        InstallStage::Probing(i) => {
            if result == StepResult::Done {
                InstallStep {
                    stage: InstallStage::Installing(i),
                    announce: Some(ms[i].announce),
                    action: InstallAction::Run(CommandKind::ManagerInstall(i)),
                }
            } else {
                try_manager_exec(platform, i + 1)
            }
        },
        InstallStage::Installing(i) => match result {
            StepResult::Done => finish_exec(InstallOutcome::UseSystem),
            StepResult::Failed => try_manager_exec(platform, i + 1),
            StepResult::NotStarted => finish_exec(
                InstallOutcome::Refused(InstallFailure::Context(ms[i].failure)),
            ),
        },
        InstallStage::PreparingTemp => {
            if result == StepResult::Done {
                InstallStep {
                    stage: InstallStage::Downloading,
                    announce: Some(p.download_announce),
                    action: InstallAction::Run(CommandKind::Download),
                }
            } else {
                finish_exec(InstallOutcome::Refused(InstallFailure::Io))
            }
        },
        InstallStage::Downloading => match result {
            StepResult::Done => {
                if p.unpack_into == InstallPath::ExtractDir {
                    InstallStep {
                        stage: InstallStage::CreatingExtractDir,
                        announce: Some("Extracting..."),
                        action: InstallAction::CreateDir(InstallPath::ExtractDir),
                    }
                } else {
                    InstallStep {
                        stage: InstallStage::Extracting,
                        announce: Some("Extracting..."),
                        action: InstallAction::Run(CommandKind::Extract),
                    }
                }
            },
            StepResult::Failed => clean_then_exec(
                InstallOutcome::Refused(InstallFailure::Message(p.download_failed)),
            ),
            StepResult::NotStarted => finish_exec(
                InstallOutcome::Refused(InstallFailure::Context("Failed to download ffmpeg")),
            ),
        },
        InstallStage::CreatingExtractDir => {
            if result == StepResult::Done {
                InstallStep {
                    stage: InstallStage::Extracting,
                    announce: None,
                    action: InstallAction::Run(CommandKind::Extract),
                }
            } else {
                finish_exec(InstallOutcome::Refused(InstallFailure::Io))
            }
        },
        InstallStage::Extracting => match result {
            StepResult::Done => InstallStep {
                stage: InstallStage::Locating,
                announce: None,
                action: InstallAction::Locate(bin, p.unpack_into),
            },
            StepResult::Failed => clean_then_exec(
                InstallOutcome::Refused(InstallFailure::Message(p.extract_failed)),
            ),
            StepResult::NotStarted => finish_exec(
                InstallOutcome::Refused(InstallFailure::Context("Failed to extract ffmpeg")),
            ),
        },
        InstallStage::Locating => {
            if result == StepResult::Done {
                InstallStep {
                    stage: InstallStage::CreatingCacheDir,
                    announce: None,
                    action: InstallAction::CreateDir(InstallPath::CacheDir),
                }
            } else {
                finish_exec(InstallOutcome::Refused(InstallFailure::Message(p.not_found)))
            }
        },
        InstallStage::CreatingCacheDir => {
            if result == StepResult::Done {
                InstallStep {
                    stage: InstallStage::Copying,
                    announce: None,
                    action: InstallAction::CopyToCache(bin),
                }
            } else {
                finish_exec(InstallOutcome::Refused(InstallFailure::Io))
            }
        },
        InstallStage::Copying => {
            if result == StepResult::Done {
                if p.make_executable {
                    InstallStep {
                        stage: InstallStage::MakingExecutable,
                        announce: None,
                        action: InstallAction::MakeExecutable(bin),
                    }
                } else {
                    clean_then_exec(InstallOutcome::Installed(bin))
                }
            } else {
                finish_exec(InstallOutcome::Refused(p.copy_failure))
            }
        },
        InstallStage::MakingExecutable => {
            if result == StepResult::Done {
                clean_then_exec(InstallOutcome::Installed(bin))
            } else {
                finish_exec(InstallOutcome::Refused(InstallFailure::Io))
            }
        },
        InstallStage::CleaningUp(outcome) => finish_exec(outcome),
        InstallStage::Finished => finish_exec(InstallOutcome::Refused(InstallFailure::Io)),
    }
}

// ---------------------------------------------------------------------------
// The commands
// ---------------------------------------------------------------------------

/// A piece of a command-line argument: literal text or a path.
#[derive(Debug, Clone, Copy, PartialEq, Eq)]
pub enum ArgPiece {
    Text(&'static str),
    Path(InstallPath),
}

/// A program and its arguments, each argument the concatenation of its pieces.
#[derive(Debug)]
pub struct InstallCommand {
    pub program: &'static str,
    pub args: Vec<Vec<ArgPiece>>,
}

/// The arguments of a command, as sequences of pieces.
pub open spec fn args_view(args: Seq<Vec<ArgPiece>>) -> Seq<Seq<ArgPiece>> {
    args.map_values(|a: Vec<ArgPiece>| a@)
}

/// An argument that is plain text.
pub open spec fn word(s: &'static str) -> Seq<ArgPiece> {
    seq![ArgPiece::Text(s)]
}

/// An argument that is a path.
pub open spec fn path_arg(p: InstallPath) -> Seq<ArgPiece> {
    seq![ArgPiece::Path(p)]
}

/// The commands that a step can run exist: manager indices name a package
/// manager of the platform, and downloads happen on the supported platforms.
pub open spec fn valid_command(platform: Platform, kind: CommandKind) -> bool {
    match kind {
        CommandKind::ManagerInstall(i) => i < spec_managers(platform).len(),
        _ => platform != Platform::Other,
    }
}

/// The program and arguments of each command.
pub open spec fn spec_install_command(platform: Platform, kind: CommandKind) -> (&'static str, Seq<Seq<ArgPiece>>) {
    match kind {
        CommandKind::ManagerInstall(i) => if platform == Platform::Linux {
            if i == 0 {
                ("sudo", seq![word("apt"), word("install"), word("-y"), word("ffmpeg")])
            } else if i == 1 {
                ("sudo", seq![word("pacman"), word("-S"), word("--noconfirm"), word("ffmpeg")])
            } else {
                ("sudo", seq![word("dnf"), word("install"), word("-y"), word("ffmpeg")])
            }
        } else {
            ("brew", seq![word("install"), word("ffmpeg")])
        },
        CommandKind::Download => if platform == Platform::Windows {
            ("powershell", seq![
                word("-NoProfile"),
                word("-Command"),
                seq![
                    ArgPiece::Text("$ProgressPreference='SilentlyContinue'; Invoke-WebRequest -Uri 'https://www.gyan.dev/ffmpeg/builds/ffmpeg-release-essentials.zip' -OutFile '"),
                    ArgPiece::Path(InstallPath::Archive),
                    ArgPiece::Text("'"),
                ],
            ])
        } else if platform == Platform::MacOs {
            ("curl", seq![word("-L"), word("-o"), path_arg(InstallPath::Archive), word("https://evermeet.cx/ffmpeg/ffmpeg-7.1.zip")])
        } else {
            ("curl", seq![word("-L"), word("-o"), path_arg(InstallPath::Archive), word("https://johnvansickle.com/ffmpeg/releases/ffmpeg-release-amd64-static.tar.xz")])
        },
        CommandKind::Extract => if platform == Platform::Windows {
            ("powershell", seq![
                word("-NoProfile"),
                word("-Command"),
                seq![
                    ArgPiece::Text("Expand-Archive -Path '"),
                    ArgPiece::Path(InstallPath::Archive),
                    ArgPiece::Text("' -DestinationPath '"),
                    ArgPiece::Path(InstallPath::ExtractDir),
                    ArgPiece::Text("' -Force"),
                ],
            ])
        } else if platform == Platform::MacOs {
            ("unzip", seq![word("-o"), path_arg(InstallPath::Archive), word("-d"), path_arg(InstallPath::TempDir)])
        } else {
            ("tar", seq![word("-xf"), path_arg(InstallPath::Archive), word("-C"), path_arg(InstallPath::TempDir)])
        },
    }
}

fn word_exec(s: &'static str) -> (r: Vec<ArgPiece>)
    ensures
        r@ == word(s),
{
    let r = vec![ArgPiece::Text(s)];
    assert(r@ =~= word(s));
    r
}

fn path_exec(p: InstallPath) -> (r: Vec<ArgPiece>)
    ensures
        r@ == path_arg(p),
{
    let r = vec![ArgPiece::Path(p)];
    assert(r@ =~= path_arg(p));
    r
}

fn four(program: &'static str, a: Vec<ArgPiece>, b: Vec<ArgPiece>, c: Vec<ArgPiece>, d: Vec<ArgPiece>) -> (r: InstallCommand)
    ensures
        r.program == program,
        args_view(r.args@) == seq![a@, b@, c@, d@],
{
    let args = vec![a, b, c, d];
    assert(args_view(args@) =~= seq![a@, b@, c@, d@]);
    InstallCommand { program, args }
}

/// The program and arguments of a command the installer runs.
pub fn install_command(platform: Platform, kind: CommandKind) -> (r: InstallCommand)
    requires
        valid_command(platform, kind),
    ensures
        (r.program, args_view(r.args@)) == spec_install_command(platform, kind),
{
    match kind {
        CommandKind::ManagerInstall(i) => {
            if platform == Platform::Linux {
                if i == 0 {
                    four("sudo", word_exec("apt"), word_exec("install"), word_exec("-y"), word_exec("ffmpeg"))
                } else if i == 1 {
                    four("sudo", word_exec("pacman"), word_exec("-S"), word_exec("--noconfirm"), word_exec("ffmpeg"))
                } else {
                    four("sudo", word_exec("dnf"), word_exec("install"), word_exec("-y"), word_exec("ffmpeg"))
                }
            } else {
                let args = vec![word_exec("install"), word_exec("ffmpeg")];
                assert(args_view(args@) =~= seq![word("install"), word("ffmpeg")]);
                InstallCommand { program: "brew", args }
            }
        },
        CommandKind::Download => {
            if platform == Platform::Windows {
                let script = vec![
                    ArgPiece::Text("$ProgressPreference='SilentlyContinue'; Invoke-WebRequest -Uri 'https://www.gyan.dev/ffmpeg/builds/ffmpeg-release-essentials.zip' -OutFile '"),
                    ArgPiece::Path(InstallPath::Archive),
                    ArgPiece::Text("'"),
                ];
                let ghost sv = script@;
                let args = vec![word_exec("-NoProfile"), word_exec("-Command"), script];
                assert(args_view(args@) =~= seq![word("-NoProfile"), word("-Command"), sv]);
                assert(sv =~= seq![
                    ArgPiece::Text("$ProgressPreference='SilentlyContinue'; Invoke-WebRequest -Uri 'https://www.gyan.dev/ffmpeg/builds/ffmpeg-release-essentials.zip' -OutFile '"),
                    ArgPiece::Path(InstallPath::Archive),
                    ArgPiece::Text("'"),
                ]);
                InstallCommand { program: "powershell", args }
            } else if platform == Platform::MacOs {
                four("curl", word_exec("-L"), word_exec("-o"), path_exec(InstallPath::Archive), word_exec("https://evermeet.cx/ffmpeg/ffmpeg-7.1.zip"))
            } else {
                four("curl", word_exec("-L"), word_exec("-o"), path_exec(InstallPath::Archive), word_exec("https://johnvansickle.com/ffmpeg/releases/ffmpeg-release-amd64-static.tar.xz"))
            }
        },
        CommandKind::Extract => {
            if platform == Platform::Windows {
                let script = vec![
                    ArgPiece::Text("Expand-Archive -Path '"),
                    ArgPiece::Path(InstallPath::Archive),
                    ArgPiece::Text("' -DestinationPath '"),
                    ArgPiece::Path(InstallPath::ExtractDir),
                    ArgPiece::Text("' -Force"),
                ];
                let ghost sv = script@;
                let args = vec![word_exec("-NoProfile"), word_exec("-Command"), script];
                assert(args_view(args@) =~= seq![word("-NoProfile"), word("-Command"), sv]);
                assert(sv =~= seq![
                    ArgPiece::Text("Expand-Archive -Path '"),
                    ArgPiece::Path(InstallPath::Archive),
                    ArgPiece::Text("' -DestinationPath '"),
                    ArgPiece::Path(InstallPath::ExtractDir),
                    ArgPiece::Text("' -Force"),
                ]);
                InstallCommand { program: "powershell", args }
            } else if platform == Platform::MacOs {
                four("unzip", word_exec("-o"), path_exec(InstallPath::Archive), word_exec("-d"), path_exec(InstallPath::TempDir))
            } else {
                four("tar", word_exec("-xf"), path_exec(InstallPath::Archive), word_exec("-C"), path_exec(InstallPath::TempDir))
            }
        },
    }
}

/// The text of an argument made of one piece of text.
pub open spec fn plain_text(a: Seq<ArgPiece>) -> Option<Seq<char>> {
    if a.len() == 1 && a[0] is Text {
        Some(a[0]->Text_0@)
    } else {
        None
    }
}

/// `s` ends with `suffix`.
pub open spec fn ends_with(s: Seq<char>, suffix: Seq<char>) -> bool {
    s.len() >= suffix.len() && s.subrange(s.len() - suffix.len(), s.len() as int) == suffix
}

/// The static build fetched matches the platform and the unpacker that
/// follows: on Linux `curl -L -o <archive>` fetches the amd64 static `.tar.xz`
/// of johnvansickle.com, which `tar -xf <archive>` unpacks; on macOS it
/// fetches the `.zip` of evermeet.cx, which `unzip -o <archive>` unpacks.
pub proof fn lemma_download_matches_unpacker()
    ensures
        ({
            let (get, args) = spec_install_command(Platform::Linux, CommandKind::Download);
            let (unpack, uargs) = spec_install_command(Platform::Linux, CommandKind::Extract);
            &&& get@ == "curl"@ && args.len() == 4
            &&& plain_text(args[0]) == Some("-L"@) && plain_text(args[1]) == Some("-o"@)
            &&& args[2] == path_arg(InstallPath::Archive)
            &&& plain_text(args[3]) == Some(
                "https://johnvansickle.com/ffmpeg/releases/ffmpeg-release-amd64-static.tar.xz"@,
            )
            &&& ends_with(plain_text(args[3])->0, ".tar.xz"@)
            &&& unpack@ == "tar"@ && uargs.len() == 4
            &&& plain_text(uargs[0]) == Some("-xf"@) && uargs[1] == path_arg(InstallPath::Archive)
        }),
        ({
            let (get, args) = spec_install_command(Platform::MacOs, CommandKind::Download);
            let (unpack, uargs) = spec_install_command(Platform::MacOs, CommandKind::Extract);
            &&& get@ == "curl"@ && args.len() == 4
            &&& plain_text(args[0]) == Some("-L"@) && plain_text(args[1]) == Some("-o"@)
            &&& args[2] == path_arg(InstallPath::Archive)
            &&& plain_text(args[3]) == Some("https://evermeet.cx/ffmpeg/ffmpeg-7.1.zip"@)
            &&& ends_with(plain_text(args[3])->0, ".zip"@)
            &&& unpack@ == "unzip"@ && uargs.len() == 4
            &&& plain_text(uargs[0]) == Some("-o"@) && uargs[1] == path_arg(InstallPath::Archive)
        }),
{
    reveal_strlit("https://johnvansickle.com/ffmpeg/releases/ffmpeg-release-amd64-static.tar.xz");
    reveal_strlit(".tar.xz");
    reveal_strlit("https://evermeet.cx/ffmpeg/ffmpeg-7.1.zip");
    reveal_strlit(".zip");
    let u1 = "https://johnvansickle.com/ffmpeg/releases/ffmpeg-release-amd64-static.tar.xz"@;
    assert(u1.subrange(u1.len() - 7, u1.len() as int) =~= ".tar.xz"@);
    let u2 = "https://evermeet.cx/ffmpeg/ffmpeg-7.1.zip"@;
    assert(u2.subrange(u2.len() - 4, u2.len() as int) =~= ".zip"@);
}

} // verus!
