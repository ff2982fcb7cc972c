use nr::ffmpeg::Platform;
use nr::install::{
    install_command, install_step, managers, profile, ArgPiece, CommandKind, InstallAction,
    InstallFailure, InstallOutcome, InstallPath, InstallStage, StepResult,
};

/// Runs the installer with a fixed answer for each kind of action.
fn drive(platform: Platform, answer: impl Fn(&InstallAction) -> StepResult) -> (Vec<InstallAction>, Vec<&'static str>) {
    let mut actions = Vec::new();
    let mut printed = Vec::new();
    let mut stage = InstallStage::Start;
    let mut result = StepResult::Done;
    for _ in 0..100 {
        let step = install_step(platform, stage, result);
        if let Some(m) = step.announce {
            printed.push(m);
        }
        actions.push(step.action);
        if let InstallAction::Finish(_) = step.action {
            assert_eq!(step.stage, InstallStage::Finished);
            return (actions, printed);
        }
        result = answer(&step.action);
        stage = step.stage;
    }
    panic!("the installer did not finish");
}

fn outcome(actions: &[InstallAction]) -> InstallOutcome {
    match actions.last() {
        Some(InstallAction::Finish(o)) => *o,
        _ => panic!("no outcome"),
    }
}

#[test]
fn linux_package_manager() {
    // apt is absent, pacman is present and works
    let (actions, printed) = drive(Platform::Linux, |a| match a {
        InstallAction::Probe("apt") => StepResult::Failed,
        _ => StepResult::Done,
    });
    assert_eq!(
        actions,
        vec![
            InstallAction::Probe("apt"),
            InstallAction::Probe("pacman"),
            InstallAction::Run(CommandKind::ManagerInstall(1)),
            InstallAction::Finish(InstallOutcome::UseSystem),
        ]
    );
    assert_eq!(printed, vec!["Installing ffmpeg via pacman..."]);
}

#[test]
fn linux_static_build() {
    let (actions, printed) = drive(Platform::Linux, |a| match a {
        InstallAction::Probe(_) => StepResult::Failed,
        _ => StepResult::Done,
    });
    assert_eq!(
        actions,
        vec![
            InstallAction::Probe("apt"),
            InstallAction::Probe("pacman"),
            InstallAction::Probe("dnf"),
            InstallAction::ResetTempDir,
            InstallAction::Run(CommandKind::Download),
            InstallAction::Run(CommandKind::Extract),
            InstallAction::Locate("ffmpeg", InstallPath::TempDir),
            InstallAction::CreateDir(InstallPath::CacheDir),
            InstallAction::CopyToCache("ffmpeg"),
            InstallAction::MakeExecutable("ffmpeg"),
            InstallAction::RemoveTempDir,
            InstallAction::Finish(InstallOutcome::Installed("ffmpeg")),
        ]
    );
    assert_eq!(printed, vec!["Downloading ffmpeg static build...", "Extracting..."]);
}

#[test]
fn failing_manager_falls_through() {
    // apt is present but its installation fails: the next manager is tried
    let (actions, _) = drive(Platform::Linux, |a| match a {
        InstallAction::Probe("apt") => StepResult::Done,
        InstallAction::Run(CommandKind::ManagerInstall(0)) => StepResult::Failed,
        InstallAction::Probe(_) => StepResult::Failed,
        InstallAction::Run(CommandKind::Download) => StepResult::Failed,
        _ => StepResult::Done,
    });
    assert_eq!(actions[2], InstallAction::Probe("pacman"));
    let n = actions.len();
    assert_eq!(actions[n - 2], InstallAction::RemoveTempDir);
    assert_eq!(
        outcome(&actions),
        InstallOutcome::Refused(InstallFailure::Message("Download failed. Install ffmpeg via your package manager."))
    );
}

#[test]
fn manager_that_cannot_start() {
    let (actions, _) = drive(Platform::MacOs, |a| match a {
        InstallAction::Run(_) => StepResult::NotStarted,
        _ => StepResult::Done,
    });
    assert_eq!(
        outcome(&actions),
        InstallOutcome::Refused(InstallFailure::Context("Failed to install ffmpeg via brew"))
    );
}

#[test]
fn windows_download() {
    let (actions, printed) = drive(Platform::Windows, |_| StepResult::Done);
    assert_eq!(
        actions,
        vec![
            InstallAction::ResetTempDir,
            InstallAction::Run(CommandKind::Download),
            InstallAction::CreateDir(InstallPath::ExtractDir),
            InstallAction::Run(CommandKind::Extract),
            InstallAction::Locate("ffmpeg.exe", InstallPath::ExtractDir),
            InstallAction::CreateDir(InstallPath::CacheDir),
            InstallAction::CopyToCache("ffmpeg.exe"),
            InstallAction::RemoveTempDir,
            InstallAction::Finish(InstallOutcome::Installed("ffmpeg.exe")),
        ]
    );
    assert_eq!(printed, vec!["ffmpeg not found. Downloading...", "Extracting..."]);
    let (actions, _) = drive(Platform::Windows, |a| match a {
        InstallAction::CopyToCache(_) => StepResult::Failed,
        _ => StepResult::Done,
    });
    assert_eq!(
        outcome(&actions),
        InstallOutcome::Refused(InstallFailure::Context("Failed to copy ffmpeg to cache"))
    );
    let (actions, _) = drive(Platform::Windows, |a| match a {
        InstallAction::Locate(..) => StepResult::Failed,
        _ => StepResult::Done,
    });
    assert_eq!(
        outcome(&actions),
        InstallOutcome::Refused(InstallFailure::Message("ffmpeg.exe not found after extraction"))
    );
}

#[test]
fn unsupported_platform() {
    let (actions, _) = drive(Platform::Other, |_| StepResult::Done);
    assert_eq!(
        actions,
        vec![InstallAction::Finish(InstallOutcome::Refused(InstallFailure::Message(
            "Unsupported platform. Install ffmpeg manually: https://ffmpeg.org/download.html"
        )))]
    );
}

#[test]
fn commands() {
    let c = install_command(Platform::Linux, CommandKind::ManagerInstall(2));
    assert_eq!(c.program, "sudo");
    assert_eq!(
        c.args,
        vec![
            vec![ArgPiece::Text("dnf")],
            vec![ArgPiece::Text("install")],
            vec![ArgPiece::Text("-y")],
            vec![ArgPiece::Text("ffmpeg")],
        ]
    );
    let c = install_command(Platform::Linux, CommandKind::Extract);
    assert_eq!(c.program, "tar");
    assert_eq!(c.args[1], vec![ArgPiece::Path(InstallPath::Archive)]);
    let c = install_command(Platform::Windows, CommandKind::Extract);
    assert_eq!(c.program, "powershell");
    assert_eq!(c.args[2].len(), 5);
    assert_eq!(managers(Platform::Windows).len(), 0);
    assert_eq!(managers(Platform::Linux).len(), 3);
    assert_eq!(profile(Platform::Linux).archive_name, "ffmpeg.tar.xz");
    assert_eq!(profile(Platform::Windows).unpack_into, InstallPath::ExtractDir);
}
