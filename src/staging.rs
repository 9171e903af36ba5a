use vstd::prelude::*;

use crate::errors::Errors;
use crate::owned::{copy_bytes, copy_string, text};

verus! {

/// Label under which the file access session is opened.
pub const AFC_LABEL: &'static str = "minimuxer";

/// Label under which the install session of `install_ipa` is opened.
pub const INSTALL_LABEL: &'static str = "ideviceinstaller";

/// Label under which the install session of `remove_app` is opened.
pub const REMOVE_LABEL: &'static str = "minimuxer-remove-app";

/// The three workflows that drive the device.
#[derive(Debug, Clone, Copy, PartialEq, Eq, Structural)]
pub enum Task {
    /// Stage a package under the bundle's directory.
    Stage,
    /// Install the staged package.
    Install,
    /// Uninstall the bundle.
    Remove,
}

/// Where a workflow stands.
#[derive(Debug, Clone, Copy, PartialEq, Eq, Structural)]
pub enum Phase {
    CheckConnection,
    FetchDevice,
    StartAfc,
    QueryRoot,
    MakeRoot,
    ConfirmRoot,
    QueryBundle,
    MakeBundle,
    ConfirmBundle,
    OpenFile,
    WriteFile,
    StartInstproxy,
    Install,
    Uninstall,
    Succeeded,
    Failed(Errors),
}

/// One operation for the caller to perform on the device, after which it reports
/// whether the operation succeeded.
#[derive(Debug)]
pub enum DeviceOp {
    /// Check that the device transport is up.
    CheckConnection,
    /// Resolve the paired device.
    FetchDevice,
    /// Open a file access session under this label.
    StartAfc(String),
    /// Query a path's file information.
    FileInfo(String),
    /// Create a directory.
    MakeDirectory(String),
    /// Open a file for writing only.
    OpenFile(String),
    /// Write these bytes, the whole package, to the file that was opened, in one call.
    WriteFile(Vec<u8>),
    /// Open an install management session under this label.
    StartInstproxy(String),
    /// Install the package at `path`, with the option `CFBundleIdentifier = bundle_id`.
    Install { path: String, bundle_id: String },
    /// Uninstall this bundle.
    Uninstall(String),
}

/// What the caller does next.
#[derive(Debug)]
pub enum Step {
    Perform(DeviceOp),
    Finished(Result<(), Errors>),
}

/// A running workflow for one bundle.
#[derive(Debug)]
pub struct Workflow {
    pub task: Task,
    pub bundle_id: String,
    pub package: Vec<u8>,
    pub phase: Phase,
}

/// The staging directory on the device.
pub open spec fn root_path() -> Seq<char> {
    "./PublicStaging"@
}

/// The bundle's directory under the staging directory.
pub open spec fn bundle_path(bundle_id: Seq<char>) -> Seq<char> {
    root_path() + "/"@ + bundle_id
}

/// Where the bundle's package is staged.
pub open spec fn package_path(bundle_id: Seq<char>) -> Seq<char> {
    bundle_path(bundle_id) + "/app.ipa"@
}

/// The phase after `phase` given whether its operation succeeded. A failed query
/// of a directory leads to creating it; every other failure ends the workflow
/// with the error that names the step.
pub open spec fn next_phase(task: Task, phase: Phase, ok: bool) -> Phase {
    match phase {
        Phase::CheckConnection => if ok {
            Phase::FetchDevice
        } else {
            Phase::Failed(Errors::NoConnection)
        },
        Phase::FetchDevice => if !ok {
            Phase::Failed(Errors::NoDevice)
        } else if task == Task::Stage {
            Phase::StartAfc
        } else {
            Phase::StartInstproxy
        },
        Phase::StartAfc => if ok {
            Phase::QueryRoot
        } else {
            Phase::Failed(Errors::CreateAfc)
        },
        Phase::QueryRoot => if ok {
            Phase::QueryBundle
        } else {
            Phase::MakeRoot
        },
        Phase::MakeRoot => if ok {
            Phase::ConfirmRoot
        } else {
            Phase::Failed(Errors::RwAfc)
        },
        Phase::ConfirmRoot => if ok {
            Phase::QueryBundle
        } else {
            Phase::Failed(Errors::RwAfc)
        },
        Phase::QueryBundle => if ok {
            Phase::OpenFile
        } else {
            Phase::MakeBundle
        },
        Phase::MakeBundle => if ok {
            Phase::ConfirmBundle
        } else {
            Phase::Failed(Errors::RwAfc)
        },
        Phase::ConfirmBundle => if ok {
            Phase::OpenFile
        } else {
            Phase::Failed(Errors::RwAfc)
        },
        Phase::OpenFile => if ok {
            Phase::WriteFile
        } else {
            Phase::Failed(Errors::RwAfc)
        },
        Phase::WriteFile => if ok {
            Phase::Succeeded
        } else {
            Phase::Failed(Errors::RwAfc)
        },
        Phase::StartInstproxy => if !ok {
            Phase::Failed(Errors::CreateInstproxy)
        } else if task == Task::Install {
            Phase::Install
        } else {
            Phase::Uninstall
        },
        Phase::Install => if ok {
            Phase::Succeeded
        } else {
            Phase::Failed(Errors::InstallApp)
        },
        Phase::Uninstall => if ok {
            Phase::Succeeded
        } else {
            Phase::Failed(Errors::UninstallApp)
        },
        Phase::Succeeded => Phase::Succeeded,
        Phase::Failed(e) => Phase::Failed(e),
    }
}

/// The phase reached from `phase` when the operations report `outcomes` in turn.
pub open spec fn run(task: Task, phase: Phase, outcomes: Seq<bool>) -> Phase
    decreases outcomes.len(),
{
    if outcomes.len() == 0 {
        phase
    } else {
        run(task, next_phase(task, phase, outcomes[0]), outcomes.drop_first())
    }
}

/// The step that `phase` asks of the caller, for the bundle `b` and its package.
pub open spec fn is_step(r: Step, task: Task, b: Seq<char>, package: Seq<u8>, phase: Phase) -> bool {
    match phase {
        Phase::CheckConnection => r matches Step::Perform(DeviceOp::CheckConnection),
        Phase::FetchDevice => r matches Step::Perform(DeviceOp::FetchDevice),
        Phase::StartAfc => r matches Step::Perform(DeviceOp::StartAfc(l)) && l@ == AFC_LABEL@,
        Phase::QueryRoot | Phase::ConfirmRoot => r matches Step::Perform(DeviceOp::FileInfo(p))
            && p@ == root_path(),
        Phase::MakeRoot => r matches Step::Perform(DeviceOp::MakeDirectory(p)) && p@ == root_path(),
        Phase::QueryBundle | Phase::ConfirmBundle => r matches Step::Perform(
            DeviceOp::FileInfo(p),
        ) && p@ == bundle_path(b),
        Phase::MakeBundle => r matches Step::Perform(DeviceOp::MakeDirectory(p)) && p@
            == bundle_path(b),
        Phase::OpenFile => r matches Step::Perform(DeviceOp::OpenFile(p)) && p@ == package_path(b),
        Phase::WriteFile => r matches Step::Perform(DeviceOp::WriteFile(data)) && data@ == package,
        Phase::StartInstproxy => r matches Step::Perform(DeviceOp::StartInstproxy(l)) && l@ == (
        if task == Task::Install {
            INSTALL_LABEL@
        } else {
            REMOVE_LABEL@
        }),
        Phase::Install => r matches Step::Perform(DeviceOp::Install { path, bundle_id }) && path@
            == package_path(b) && bundle_id@ == b,
        Phase::Uninstall => r matches Step::Perform(DeviceOp::Uninstall(id)) && id@ == b,
        Phase::Succeeded => r matches Step::Finished(Ok(())),
        Phase::Failed(e) => r matches Step::Finished(Err(x)) && x == e,
    }
}

fn root_dir() -> (r: String)
    ensures
        r@ == root_path(),
{
    text("./PublicStaging")
}

fn bundle_dir(bundle_id: &String) -> (r: String)
    ensures
        r@ == bundle_path(bundle_id@),
{
    let mut p = root_dir();
    p.append("/");
    p.append(bundle_id.as_str());
    p
}

fn package_file(bundle_id: &String) -> (r: String)
    ensures
        r@ == package_path(bundle_id@),
{
    let mut p = bundle_dir(bundle_id);
    p.append("/app.ipa");
    p
}

/// Starts staging `bundle_id`'s package: once the connection, the device and a
/// file access session are had, the staging directory and then the bundle's
/// directory are each queried and created only when missing, and the package is
/// written, as `ipa_bytes` whole, to `./PublicStaging/<bundle_id>/app.ipa`.
pub fn yeet_app_afc(bundle_id: String, ipa_bytes: Vec<u8>) -> (r: Workflow)
    ensures
        r.task == Task::Stage,
        r.bundle_id@ == bundle_id@,
        r.package@ == ipa_bytes@,
        r.phase == Phase::CheckConnection,
{
    Workflow { task: Task::Stage, bundle_id, package: ipa_bytes, phase: Phase::CheckConnection }
}

/// Starts installing the package staged for `bundle_id`.
pub fn install_ipa(bundle_id: String) -> (r: Workflow)
    ensures
        r.task == Task::Install,
        r.bundle_id@ == bundle_id@,
        r.package@.len() == 0,
        r.phase == Phase::CheckConnection,
{
    Workflow { task: Task::Install, bundle_id, package: Vec::new(), phase: Phase::CheckConnection }
}

/// Starts uninstalling `bundle_id`.
pub fn remove_app(bundle_id: String) -> (r: Workflow)
    ensures
        r.task == Task::Remove,
        r.bundle_id@ == bundle_id@,
        r.package@.len() == 0,
        r.phase == Phase::CheckConnection,
{
    Workflow { task: Task::Remove, bundle_id, package: Vec::new(), phase: Phase::CheckConnection }
}

impl Workflow {
    /// The operation that the current phase asks for, or the result once finished.
    pub fn current(&self) -> (r: Step)
        ensures
            is_step(r, self.task, self.bundle_id@, self.package@, self.phase),
    {
        match self.phase {
            Phase::CheckConnection => Step::Perform(DeviceOp::CheckConnection),
            Phase::FetchDevice => Step::Perform(DeviceOp::FetchDevice),
            Phase::StartAfc => Step::Perform(DeviceOp::StartAfc(text(AFC_LABEL))),
            Phase::QueryRoot | Phase::ConfirmRoot => Step::Perform(DeviceOp::FileInfo(root_dir())),
            Phase::MakeRoot => Step::Perform(DeviceOp::MakeDirectory(root_dir())),
            Phase::QueryBundle | Phase::ConfirmBundle => Step::Perform(
                DeviceOp::FileInfo(bundle_dir(&self.bundle_id)),
            ),
            Phase::MakeBundle => Step::Perform(DeviceOp::MakeDirectory(bundle_dir(&self.bundle_id))),
            Phase::OpenFile => Step::Perform(DeviceOp::OpenFile(package_file(&self.bundle_id))),
            Phase::WriteFile => Step::Perform(DeviceOp::WriteFile(copy_bytes(&self.package))),
            Phase::StartInstproxy => {
                if self.task == Task::Install {
                    Step::Perform(DeviceOp::StartInstproxy(text(INSTALL_LABEL)))
                } else {
                    Step::Perform(DeviceOp::StartInstproxy(text(REMOVE_LABEL)))
                }
            },
            Phase::Install => Step::Perform(
                DeviceOp::Install {
                    path: package_file(&self.bundle_id),
                    bundle_id: copy_string(&self.bundle_id),
                },
            ),
            Phase::Uninstall => Step::Perform(DeviceOp::Uninstall(copy_string(&self.bundle_id))),
            Phase::Succeeded => Step::Finished(Ok(())),
            Phase::Failed(e) => Step::Finished(Err(e)),
        }
    }

    /// Records whether the operation of the current phase succeeded.
    pub fn advance(&mut self, succeeded: bool)
        ensures
            final(self).task == old(self).task,
            final(self).bundle_id@ == old(self).bundle_id@,
            final(self).package@ == old(self).package@,
            final(self).phase == next_phase(old(self).task, old(self).phase, succeeded),
    {
        let task = self.task;
        self.phase = match self.phase {
            Phase::CheckConnection => if succeeded {
                Phase::FetchDevice
            } else {
                Phase::Failed(Errors::NoConnection)
            },
            Phase::FetchDevice => if !succeeded {
                Phase::Failed(Errors::NoDevice)
            } else if task == Task::Stage {
                Phase::StartAfc
            } else {
                Phase::StartInstproxy
            },
            Phase::StartAfc => if succeeded {
                Phase::QueryRoot
            } else {
                Phase::Failed(Errors::CreateAfc)
            },
            Phase::QueryRoot => if succeeded {
                Phase::QueryBundle
            } else {
                Phase::MakeRoot
            },
            Phase::MakeRoot | Phase::MakeBundle => if !succeeded {
                Phase::Failed(Errors::RwAfc)
            } else if self.phase == Phase::MakeRoot {
                Phase::ConfirmRoot
            } else {
                Phase::ConfirmBundle
            },
            Phase::ConfirmRoot => if succeeded {
                Phase::QueryBundle
            } else {
                Phase::Failed(Errors::RwAfc)
            },
            Phase::QueryBundle => if succeeded {
                Phase::OpenFile
            } else {
                Phase::MakeBundle
            },
            Phase::ConfirmBundle => if succeeded {
                Phase::OpenFile
            } else {
                Phase::Failed(Errors::RwAfc)
            },
            Phase::OpenFile => if succeeded {
                Phase::WriteFile
            } else {
                Phase::Failed(Errors::RwAfc)
            },
            Phase::WriteFile => if succeeded {
                Phase::Succeeded
            } else {
                Phase::Failed(Errors::RwAfc)
            },
            Phase::StartInstproxy => if !succeeded {
                Phase::Failed(Errors::CreateInstproxy)
            } else if task == Task::Install {
                Phase::Install
            } else {
                Phase::Uninstall
            },
            Phase::Install => if succeeded {
                Phase::Succeeded
            } else {
                Phase::Failed(Errors::InstallApp)
            },
            Phase::Uninstall => if succeeded {
                Phase::Succeeded
            } else {
                Phase::Failed(Errors::UninstallApp)
            },
            Phase::Succeeded => Phase::Succeeded,
            Phase::Failed(e) => Phase::Failed(e),
        };
    }
}

/// The directory steps of staging, run against a device whose file system holds
/// the directories `dirs`: a query succeeds when the path is there, a creation
/// adds it. Gives the directories afterwards and the phase reached.
pub open spec fn ensure_dirs(dirs: Set<Seq<char>>, b: Seq<char>, phase: Phase, fuel: nat) -> (
    Set<Seq<char>>,
    Phase,
)
    decreases fuel,
{
    if fuel == 0 {
        (dirs, phase)
    } else {
        match phase {
            Phase::QueryRoot | Phase::ConfirmRoot => ensure_dirs(
                dirs,
                b,
                next_phase(Task::Stage, phase, dirs.contains(root_path())),
                (fuel - 1) as nat,
            ),
            Phase::MakeRoot => ensure_dirs(
                dirs.insert(root_path()),
                b,
                next_phase(Task::Stage, phase, true),
                (fuel - 1) as nat,
            ),
            Phase::QueryBundle | Phase::ConfirmBundle => ensure_dirs(
                dirs,
                b,
                next_phase(Task::Stage, phase, dirs.contains(bundle_path(b))),
                (fuel - 1) as nat,
            ),
            Phase::MakeBundle => ensure_dirs(
                dirs.insert(bundle_path(b)),
                b,
                next_phase(Task::Stage, phase, true),
                (fuel - 1) as nat,
            ),
            _ => (dirs, phase),
        }
    }
}

/// Ensuring the staging and bundle directories reaches the file write whatever
/// was there; doing it a second time for the same bundle also reaches it, and
/// creates nothing.
pub proof fn lemma_staging_idempotent(dirs: Set<Seq<char>>, b: Seq<char>)
    ensures
        ({
            let (once, first) = ensure_dirs(dirs, b, Phase::QueryRoot, 6);
            let (twice, second) = ensure_dirs(once, b, Phase::QueryRoot, 6);
            &&& first == Phase::OpenFile
            &&& once.contains(root_path()) && once.contains(bundle_path(b))
            &&& second == Phase::OpenFile
            &&& twice == once
        }),
{
    reveal_with_fuel(ensure_dirs, 7);
    let r1 = dirs.insert(root_path());
    assert(r1.insert(bundle_path(b)).contains(root_path()));
}

/// Staging from the first directory query, run against a device whose file
/// system holds the directories `dirs` and the files `files`: directory steps go
/// as in `ensure_dirs`, opening the package path succeeds, and the write step
/// stores the bytes it carries, `package`, under that path. Gives the directories,
/// the files and the phase reached.
pub open spec fn stage_on_device(
    dirs: Set<Seq<char>>,
    files: Map<Seq<char>, Seq<u8>>,
    b: Seq<char>,
    package: Seq<u8>,
    phase: Phase,
    fuel: nat,
) -> (Set<Seq<char>>, Map<Seq<char>, Seq<u8>>, Phase)
    decreases fuel,
{
    if fuel == 0 {
        (dirs, files, phase)
    } else {
        match phase {
            Phase::OpenFile => stage_on_device(
                dirs,
                files,
                b,
                package,
                next_phase(Task::Stage, phase, true),
                (fuel - 1) as nat,
            ),
            Phase::WriteFile => stage_on_device(
                dirs,
                files.insert(package_path(b), package),
                b,
                package,
                next_phase(Task::Stage, phase, true),
                (fuel - 1) as nat,
            ),
            _ => {
                let (d, p) = ensure_dirs(dirs, b, phase, 1);
                if p == phase {
                    (dirs, files, phase)
                } else {
                    stage_on_device(d, files, b, package, p, (fuel - 1) as nat)
                }
            },
        }
    }
}

/// Staging a package ends in success with the package file holding exactly the
/// package bytes, whatever the device held; staging the same package again also
/// succeeds and leaves the directories and the files as they were.
pub proof fn lemma_staging_writes_package(
    dirs: Set<Seq<char>>,
    files: Map<Seq<char>, Seq<u8>>,
    b: Seq<char>,
    package: Seq<u8>,
)
    ensures
        ({
            let (d1, f1, first) = stage_on_device(dirs, files, b, package, Phase::QueryRoot, 8);
            let (d2, f2, second) = stage_on_device(d1, f1, b, package, Phase::QueryRoot, 8);
            &&& first == Phase::Succeeded
            &&& f1.contains_key(package_path(b)) && f1[package_path(b)] == package
            &&& d1.contains(root_path()) && d1.contains(bundle_path(b))
            &&& second == Phase::Succeeded
            &&& d2 == d1
            &&& f2 == f1
        }),
{
    reveal_with_fuel(stage_on_device, 9);
    reveal_with_fuel(ensure_dirs, 2);
    let r1 = dirs.insert(root_path());
    assert(r1.insert(bundle_path(b)).contains(root_path()));
    let (d1, f1, first) = stage_on_device(dirs, files, b, package, Phase::QueryRoot, 8);
    assert(f1.insert(package_path(b), package) =~= f1);
}

proof fn lemma_run_failed(task: Task, e: Errors, outcomes: Seq<bool>)
    ensures
        run(task, Phase::Failed(e), outcomes) == Phase::Failed(e),
    decreases outcomes.len(),
{
    if outcomes.len() > 0 {
        lemma_run_failed(task, e, outcomes.drop_first());
    }
}

/// The install workflow ends in success only when its fourth operation, the
/// install request itself, succeeded: when the device rejects it (the package was
/// never staged) the workflow fails with `InstallApp`.
pub proof fn lemma_install_needs_device_approval(outcomes: Seq<bool>)
    ensures
        run(Task::Install, Phase::CheckConnection, outcomes) == Phase::Succeeded ==> outcomes.len()
            >= 4 && outcomes[3],
        outcomes.len() >= 4 && outcomes[0] && outcomes[1] && outcomes[2] && !outcomes[3] ==> run(
            Task::Install,
            Phase::CheckConnection,
            outcomes,
        ) == Phase::Failed(Errors::InstallApp),
{
    reveal_with_fuel(run, 5);
    let t = Task::Install;
    if outcomes.len() >= 1 && !outcomes[0] {
        lemma_run_failed(t, Errors::NoConnection, outcomes.drop_first());
    }
    if outcomes.len() >= 2 && outcomes[0] && !outcomes[1] {
        lemma_run_failed(t, Errors::NoDevice, outcomes.drop_first().drop_first());
    }
    if outcomes.len() >= 3 && outcomes[0] && outcomes[1] && !outcomes[2] {
        lemma_run_failed(t, Errors::CreateInstproxy, outcomes.drop_first().drop_first().drop_first());
    }
    if outcomes.len() >= 4 && outcomes[0] && outcomes[1] && outcomes[2] && !outcomes[3] {
        lemma_run_failed(
            t,
            Errors::InstallApp,
            outcomes.drop_first().drop_first().drop_first().drop_first(),
        );
    }
}

} // verus!
