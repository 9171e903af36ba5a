use minimuxer::errors::Errors;
use minimuxer::staging::{
    install_ipa, remove_app, yeet_app_afc, DeviceOp, Phase, Step, Task, Workflow,
};

/// A device that keeps directories and files by path.
struct FakeDevice {
    connected: bool,
    dirs: Vec<String>,
    files: Vec<(String, Vec<u8>)>,
    open: Option<String>,
    installed: Vec<String>,
    log: Vec<String>,
}

impl FakeDevice {
    fn new() -> FakeDevice {
        FakeDevice { connected: true, dirs: vec![], files: vec![], open: None, installed: vec![], log: vec![] }
    }

    fn perform(&mut self, op: DeviceOp) -> bool {
        self.log.push(format!("{:?}", op));
        match op {
            DeviceOp::CheckConnection => self.connected,
            DeviceOp::FetchDevice | DeviceOp::StartAfc(_) | DeviceOp::StartInstproxy(_) => true,
            DeviceOp::FileInfo(p) => self.dirs.contains(&p) || self.file(&p).is_some(),
            DeviceOp::MakeDirectory(p) => {
                if !self.dirs.contains(&p) {
                    self.dirs.push(p);
                }
                true
            }
            DeviceOp::OpenFile(p) => {
                self.open = Some(p);
                true
            }
            DeviceOp::WriteFile(data) => match self.open.take() {
                Some(p) => {
                    self.files.retain(|(q, _)| *q != p);
                    self.files.push((p, data));
                    true
                }
                None => false,
            },
            DeviceOp::Install { path, bundle_id } => {
                if self.file(&path).is_some() {
                    self.installed.push(bundle_id);
                    true
                } else {
                    false
                }
            }
            DeviceOp::Uninstall(id) => {
                let before = self.installed.len();
                self.installed.retain(|x| *x != id);
                self.installed.len() < before
            }
        }
    }

    fn file(&self, path: &str) -> Option<&Vec<u8>> {
        self.files.iter().find(|(p, _)| p == path).map(|(_, d)| d)
    }

    fn drive(&mut self, mut w: Workflow) -> Result<(), Errors> {
        loop {
            match w.current() {
                Step::Finished(r) => return r,
                Step::Perform(op) => {
                    let ok = self.perform(op);
                    w.advance(ok);
                }
            }
        }
    }
}

#[test]
fn staging_creates_directories_and_file() {
    let mut d = FakeDevice::new();
    assert_eq!(d.drive(yeet_app_afc("com.example.app".to_string(), vec![1, 2, 3])), Ok(()));
    assert_eq!(
        d.dirs,
        vec!["./PublicStaging".to_string(), "./PublicStaging/com.example.app".to_string()]
    );
    assert_eq!(d.files.len(), 1);
    assert_eq!(d.file("./PublicStaging/com.example.app/app.ipa"), Some(&vec![1, 2, 3]));
}

#[test]
fn staging_twice_is_idempotent() {
    let mut d = FakeDevice::new();
    assert_eq!(d.drive(yeet_app_afc("b".to_string(), b"PK\x03\x04".to_vec())), Ok(()));
    let dirs = d.dirs.clone();
    let files = d.files.clone();
    d.log.clear();
    assert_eq!(d.drive(yeet_app_afc("b".to_string(), b"PK\x03\x04".to_vec())), Ok(()));
    assert_eq!(d.dirs, dirs);
    assert_eq!(d.files, files);
    assert_eq!(d.log.iter().filter(|l| l.starts_with("WriteFile")).count(), 1);
    assert!(d.log.iter().all(|l| !l.starts_with("MakeDirectory")));
}

#[test]
fn install_before_staging_fails() {
    let mut d = FakeDevice::new();
    assert_eq!(d.drive(install_ipa("never.staged".to_string())), Err(Errors::InstallApp));
}

#[test]
fn install_after_staging_succeeds() {
    let mut d = FakeDevice::new();
    assert_eq!(d.drive(yeet_app_afc("x.y".to_string(), vec![9])), Ok(()));
    assert_eq!(d.drive(install_ipa("x.y".to_string())), Ok(()));
    assert_eq!(d.installed, vec!["x.y".to_string()]);
    assert_eq!(d.drive(remove_app("x.y".to_string())), Ok(()));
    assert!(d.installed.is_empty());
    assert_eq!(d.drive(remove_app("x.y".to_string())), Err(Errors::UninstallApp));
}

#[test]
fn no_connection_fails_fast() {
    let mut d = FakeDevice::new();
    d.connected = false;
    assert_eq!(d.drive(yeet_app_afc("a".to_string(), vec![])), Err(Errors::NoConnection));
    assert_eq!(d.drive(install_ipa("a".to_string())), Err(Errors::NoConnection));
    assert_eq!(d.drive(remove_app("a".to_string())), Err(Errors::NoConnection));
    assert_eq!(d.log.len(), 3);
}

#[test]
fn step_failures_name_the_step() {
    let cases: Vec<(Task, Vec<bool>, Errors)> = vec![
        (Task::Stage, vec![true, false], Errors::NoDevice),
        (Task::Stage, vec![true, true, false], Errors::CreateAfc),
        (Task::Stage, vec![true, true, true, false, false], Errors::RwAfc),
        (Task::Stage, vec![true, true, true, false, true, false], Errors::RwAfc),
        (Task::Stage, vec![true, true, true, true, false, false], Errors::RwAfc),
        (Task::Stage, vec![true, true, true, true, true, false], Errors::RwAfc),
        (Task::Stage, vec![true, true, true, true, true, true, false], Errors::RwAfc),
        (Task::Install, vec![true, true, false], Errors::CreateInstproxy),
        (Task::Remove, vec![true, true, false], Errors::CreateInstproxy),
    ];
    for (task, outcomes, err) in cases {
        let mut w = match task {
            Task::Stage => yeet_app_afc("id".to_string(), vec![0]),
            Task::Install => install_ipa("id".to_string()),
            Task::Remove => remove_app("id".to_string()),
        };
        for ok in outcomes {
            w.advance(ok);
        }
        assert_eq!(w.phase, Phase::Failed(err));
        assert!(matches!(w.current(), Step::Finished(Err(e)) if e == err));
    }
}

#[test]
fn install_request_names_path_and_bundle() {
    let mut w = install_ipa("com.a".to_string());
    for _ in 0..3 {
        w.advance(true);
    }
    match w.current() {
        Step::Perform(DeviceOp::Install { path, bundle_id }) => {
            assert_eq!(path, "./PublicStaging/com.a/app.ipa");
            assert_eq!(bundle_id, "com.a");
        }
        _ => panic!("expected the install request"),
    }
    let mut r = remove_app("com.a".to_string());
    r.advance(true);
    r.advance(true);
    assert!(matches!(r.current(), Step::Perform(DeviceOp::StartInstproxy(l)) if l == "minimuxer-remove-app"));
}

#[test]
fn write_step_carries_the_whole_package() {
    let package: Vec<u8> = (0..=255u8).collect();
    let mut w = yeet_app_afc("p".to_string(), package.clone());
    for _ in 0..5 {
        w.advance(true);
    }
    assert!(matches!(w.current(), Step::Perform(DeviceOp::OpenFile(p)) if p == "./PublicStaging/p/app.ipa"));
    w.advance(true);
    match w.current() {
        Step::Perform(DeviceOp::WriteFile(data)) => assert_eq!(data, package),
        _ => panic!("expected the write step"),
    }
    w.advance(true);
    assert_eq!(w.phase, Phase::Succeeded);
}
