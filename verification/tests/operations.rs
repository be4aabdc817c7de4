use elan_toolchain::command::{CommandPlan, EnvChange, HostEnv};
use elan_toolchain::errors::{Error, FallbackStep, HostError};
use elan_toolchain::install::{InstallMethod, ToolchainDesc, UpdateStatus};
use elan_toolchain::notifications::Notification;
use elan_toolchain::paths::{FsPath, PathStatus};
use elan_toolchain::platform::Platform;
use elan_toolchain::requests::{Reply, Request, TelemetryEvent};
use elan_toolchain::steps::{AfterRemoval, Next, Outcome, State, Step, Then};
use elan_toolchain::toolchain::{Cfg, Toolchain};

fn path(parts: &[&str]) -> FsPath {
    FsPath { parts: parts.iter().map(|p| p.to_string()).collect() }
}

fn cfg(platform: Platform) -> Cfg {
    Cfg {
        toolchains_dir: path(&["/elan", "toolchains"]),
        elan_dir: path(&["/elan"]),
        download_dir: path(&["/elan", "downloads"]),
        platform,
        recursion_limit: 5,
    }
}

fn rejected() -> Result<ToolchainDesc, HostError> {
    Err(HostError { message: "invalid toolchain name".to_string() })
}

fn accepted(name: &str) -> Result<ToolchainDesc, HostError> {
    Ok(ToolchainDesc { name: name.to_string(), tracking: true })
}

fn failure(message: &str) -> HostError {
    HostError { message: message.to_string() }
}

fn no_env() -> HostEnv {
    HostEnv { recursion_count: None, elan_home: None }
}

fn counted(count: &str) -> HostEnv {
    HostEnv { recursion_count: Some(count.to_string()), elan_home: None }
}

/// A host that keeps its file system in memory and records what it is asked.
struct Host {
    dirs: Vec<FsPath>,
    files: Vec<FsPath>,
    links: Vec<FsPath>,
    asked: Vec<String>,
    told: Vec<Notification>,
    installer_changes: bool,
    telemetry: bool,
    fail: Option<&'static str>,
}

fn host() -> Host {
    Host {
        dirs: vec![],
        files: vec![],
        links: vec![],
        asked: vec![],
        told: vec![],
        installer_changes: true,
        telemetry: false,
        fail: None,
    }
}

fn under(p: &FsPath, root: &FsPath) -> bool {
    p.parts.len() >= root.parts.len() && p.parts[..root.parts.len()] == root.parts[..]
}

fn kind(request: &Request) -> &'static str {
    match request {
        Request::Probe(_) => "probe",
        Request::HashFile(_) => "hash-file",
        Request::RemoveUpdateHash(_) => "remove-hash",
        Request::RemoveFile(_) => "remove-file",
        Request::Uninstall(_) => "uninstall",
        Request::Install(..) => "install",
        Request::TempFile(..) => "temp-file",
        Request::Download(..) => "download",
        Request::Absolute(_) => "absolute",
        Request::TelemetryEnabled => "telemetry-enabled",
        Request::LogTelemetry(..) => "log-telemetry",
        Request::CreateDirAll(_) => "create-dir",
        Request::HardLink(..) => "hard-link",
        Request::SetDefault(_) => "set-default",
        Request::AddOverride(..) => "add-override",
        Request::OpenBrowser(_) => "open-browser",
    }
}

impl Host {
    fn status(&self, p: &FsPath) -> PathStatus {
        let is_directory = self.dirs.contains(p);
        let is_file = self.files.contains(p);
        PathStatus {
            exists: is_directory || is_file,
            is_directory,
            is_file,
            is_symlink: self.links.contains(p),
        }
    }

    fn perform(&mut self, request: Request) -> Reply {
        let what = kind(&request);
        self.asked.push(what.to_string());
        if self.fail == Some(what) {
            return Reply::Failed(failure(what));
        }
        match request {
            Request::Probe(p) => Reply::Status(self.status(&p)),
            Request::HashFile(name) => Reply::Path(path(&["/elan", "update-hashes", &name])),
            Request::Install(method, dest) => {
                if self.installer_changes {
                    if let InstallMethod::Link(_) = method {
                        self.links.push(dest.clone());
                    }
                    self.files.push(dest.join("bin").join("lean"));
                    self.dirs.push(dest);
                }
                Reply::Flag(self.installer_changes)
            }
            Request::Uninstall(p) => {
                self.dirs.retain(|d| !under(d, &p));
                self.files.retain(|d| !under(d, &p));
                self.links.retain(|d| !under(d, &p));
                Reply::Done
            }
            Request::RemoveFile(p) => {
                self.files.retain(|f| f != &p);
                Reply::Done
            }
            Request::TempFile(prefix, extension) => {
                Reply::Path(path(&["/tmp", &format!("{}file{}", prefix, extension)]))
            }
            Request::Absolute(p) => {
                let mut parts = vec!["/cwd".to_string()];
                parts.extend(p.parts);
                Reply::Path(FsPath { parts })
            }
            Request::TelemetryEnabled => Reply::Flag(self.telemetry),
            Request::CreateDirAll(p) => {
                self.dirs.push(p);
                Reply::Done
            }
            Request::HardLink(_, to) => {
                self.files.push(to);
                Reply::Done
            }
            _ => Reply::Done,
        }
    }

    fn run(&mut self, tc: &Toolchain, first: Step) -> Result<Outcome, Error> {
        let mut step = first;
        for _ in 0..100 {
            self.told.extend(step.notices);
            match step.next {
                Next::Done(result) => return result,
                Next::Ask(request, state) => {
                    let reply = self.perform(request);
                    step = tc.resume(state, reply);
                }
            }
        }
        panic!("the operation did not end");
    }
}

fn names(asked: &[String]) -> Vec<&str> {
    asked.iter().map(|s| s.as_str()).collect()
}

fn mine() -> FsPath {
    path(&["/elan", "toolchains", "mine"])
}

#[test]
fn install_of_absent_toolchain_is_installed() {
    let cfg = cfg(Platform::Unix);
    let tc = Toolchain::from(&cfg, "mine", rejected()).unwrap();
    let mut h = host();
    let result = h.run(&tc, tc.install(InstallMethod::Copy(path(&["src"]))));
    assert_eq!(result, Ok(Outcome::Status(UpdateStatus::Installed)));
    assert_eq!(names(&h.asked), vec!["probe", "install"]);
    assert_eq!(
        h.told,
        vec![
            Notification::InstallingToolchain("mine".to_string()),
            Notification::ToolchainDirectory(mine(), "mine".to_string()),
            Notification::InstalledToolchain("mine".to_string()),
        ]
    );
}

#[test]
fn install_over_existing_is_updated() {
    let cfg = cfg(Platform::Unix);
    let tc = Toolchain::from(&cfg, "mine", rejected()).unwrap();
    let mut h = host();
    h.dirs.push(mine());
    let result = h.run(&tc, tc.install(InstallMethod::Copy(path(&["src"]))));
    assert_eq!(result, Ok(Outcome::Status(UpdateStatus::Updated)));
    assert_eq!(
        h.told,
        vec![
            Notification::UpdatingToolchain("mine".to_string()),
            Notification::ToolchainDirectory(mine(), "mine".to_string()),
            Notification::InstalledToolchain("mine".to_string()),
        ]
    );
}

#[test]
fn install_without_change_is_unchanged() {
    let cfg = cfg(Platform::Unix);
    let tc = Toolchain::from(&cfg, "mine", rejected()).unwrap();
    for existed in [false, true] {
        let mut h = host();
        h.installer_changes = false;
        if existed {
            h.dirs.push(mine());
        }
        let result = h.run(&tc, tc.install(InstallMethod::Copy(path(&["src"]))));
        assert_eq!(result, Ok(Outcome::Status(UpdateStatus::Unchanged)));
        assert_eq!(h.told.last(), Some(&Notification::UpdateHashMatches));
    }
}

#[test]
fn install_then_reinstall() {
    let cfg = cfg(Platform::Unix);
    let tc = Toolchain::from(&cfg, "mine", rejected()).unwrap();
    let mut h = host();
    assert_eq!(
        h.run(&tc, tc.install(InstallMethod::Copy(path(&["src"])))),
        Ok(Outcome::Status(UpdateStatus::Installed))
    );
    h.installer_changes = false;
    assert_eq!(
        h.run(&tc, tc.install(InstallMethod::Copy(path(&["src"])))),
        Ok(Outcome::Status(UpdateStatus::Unchanged))
    );
    h.installer_changes = true;
    assert_eq!(
        h.run(&tc, tc.install(InstallMethod::Copy(path(&["src"])))),
        Ok(Outcome::Status(UpdateStatus::Updated))
    );
}

#[test]
fn installer_failure_is_handed_on() {
    let cfg = cfg(Platform::Unix);
    let tc = Toolchain::from(&cfg, "mine", rejected()).unwrap();
    let mut h = host();
    h.fail = Some("install");
    let result = h.run(&tc, tc.install(InstallMethod::Copy(path(&["src"]))));
    assert_eq!(result, Err(Error::Host(failure("install"))));
    assert_eq!(h.told.len(), 2);
}

#[test]
fn install_if_not_installed_uses_existing() {
    let cfg = cfg(Platform::Unix);
    let tc = Toolchain::from(&cfg, "mine", rejected()).unwrap();
    let mut h = host();
    h.dirs.push(mine());
    let result = h.run(&tc, tc.install_if_not_installed(InstallMethod::Copy(path(&["src"]))));
    assert_eq!(result, Ok(Outcome::Status(UpdateStatus::Unchanged)));
    assert_eq!(names(&h.asked), vec!["probe"]);
    assert_eq!(
        h.told,
        vec![
            Notification::LookingForToolchain("mine".to_string()),
            Notification::UsingExistingToolchain("mine".to_string()),
        ]
    );
}

#[test]
fn install_if_not_installed_installs_absent() {
    let cfg = cfg(Platform::Unix);
    let tc = Toolchain::from(&cfg, "mine", rejected()).unwrap();
    let mut h = host();
    let result = h.run(&tc, tc.install_if_not_installed(InstallMethod::Copy(path(&["src"]))));
    assert_eq!(result, Ok(Outcome::Status(UpdateStatus::Installed)));
    assert_eq!(names(&h.asked), vec!["probe", "probe", "install"]);
    assert_eq!(h.told[0], Notification::LookingForToolchain("mine".to_string()));
    assert_eq!(h.told[1], Notification::InstallingToolchain("mine".to_string()));
}

#[test]
fn remove_of_never_installed_changes_nothing() {
    let cfg = cfg(Platform::Unix);
    let tc = Toolchain::from(&cfg, "mine", rejected()).unwrap();
    let mut h = host();
    assert_eq!(h.run(&tc, tc.remove()), Ok(Outcome::Unit));
    assert_eq!(names(&h.asked), vec!["probe"]);
    assert_eq!(h.told, vec![Notification::ToolchainNotInstalled("mine".to_string())]);
}

#[test]
fn remove_custom_toolchain() {
    let cfg = cfg(Platform::Unix);
    let tc = Toolchain::from(&cfg, "mine", rejected()).unwrap();
    let mut h = host();
    h.dirs.push(mine());
    assert_eq!(h.run(&tc, tc.remove()), Ok(Outcome::Unit));
    assert_eq!(names(&h.asked), vec!["probe", "uninstall", "probe"]);
    assert_eq!(
        h.told,
        vec![
            Notification::UninstallingToolchain("mine".to_string()),
            Notification::UninstalledToolchain("mine".to_string()),
        ]
    );
    assert!(h.dirs.is_empty());
}

#[test]
fn remove_distribution_toolchain_deletes_hash_first() {
    let cfg = cfg(Platform::Unix);
    let tc = Toolchain::from(&cfg, "nightly", accepted("nightly")).unwrap();
    let mut h = host();
    h.dirs.push(path(&["/elan", "toolchains", "nightly"]));
    assert_eq!(h.run(&tc, tc.remove()), Ok(Outcome::Unit));
    assert_eq!(
        names(&h.asked),
        vec!["probe", "hash-file", "remove-hash", "uninstall", "probe"]
    );
}

#[test]
fn remove_of_dangling_link_on_unix() {
    let cfg = cfg(Platform::Unix);
    let tc = Toolchain::from(&cfg, "mine", rejected()).unwrap();
    let mut h = host();
    h.links.push(mine());
    assert_eq!(h.run(&tc, tc.remove()), Ok(Outcome::Unit));
    assert_eq!(names(&h.asked), vec!["probe", "uninstall", "probe"]);
}

#[test]
fn remove_failure_after_hash_deletion() {
    let cfg = cfg(Platform::Unix);
    let tc = Toolchain::from(&cfg, "nightly", accepted("nightly")).unwrap();
    let mut h = host();
    h.dirs.push(path(&["/elan", "toolchains", "nightly"]));
    h.fail = Some("uninstall");
    assert_eq!(h.run(&tc, tc.remove()), Err(Error::Host(failure("uninstall"))));
    assert_eq!(
        names(&h.asked),
        vec!["probe", "hash-file", "remove-hash", "uninstall", "probe"]
    );
    assert_eq!(h.told, vec![Notification::UninstallingToolchain("nightly".to_string())]);
}

#[test]
fn remove_stops_when_hash_cannot_be_deleted() {
    let cfg = cfg(Platform::Unix);
    let tc = Toolchain::from(&cfg, "nightly", accepted("nightly")).unwrap();
    let mut h = host();
    h.dirs.push(path(&["/elan", "toolchains", "nightly"]));
    h.fail = Some("remove-hash");
    assert_eq!(h.run(&tc, tc.remove()), Err(Error::Host(failure("remove-hash"))));
    assert_eq!(names(&h.asked), vec!["probe", "hash-file", "remove-hash"]);
}

#[test]
fn installers_replace_prior_install() {
    let cfg = cfg(Platform::Unix);
    let tc = Toolchain::from(&cfg, "mine", rejected()).unwrap();
    let mut h = host();
    h.dirs.push(mine());
    let result = h.run(&tc, tc.install_from_installers(vec!["archive.tar.gz".to_string()]));
    assert_eq!(result, Ok(Outcome::Unit));
    assert_eq!(names(&h.asked), vec!["probe", "uninstall", "probe", "probe", "install"]);
    assert_eq!(
        h.told,
        vec![
            Notification::UninstallingToolchain("mine".to_string()),
            Notification::UninstalledToolchain("mine".to_string()),
            Notification::InstallingToolchain("mine".to_string()),
            Notification::ToolchainDirectory(mine(), "mine".to_string()),
            Notification::InstalledToolchain("mine".to_string()),
        ]
    );
}

#[test]
fn installers_install_the_named_archive() {
    let cfg = cfg(Platform::Unix);
    let tc = Toolchain::from(&cfg, "mine", rejected()).unwrap();
    let step = tc.install_from_installers(vec!["archive.tar.gz".to_string()]);
    let state = match step.next {
        Next::Ask(Request::Probe(p), state) => {
            assert_eq!(p, mine());
            state
        }
        other => panic!("{:?}", other),
    };
    let step = tc.resume(state, Reply::Status(host().status(&mine())));
    let state = match step.next {
        Next::Ask(Request::Probe(_), state) => state,
        other => panic!("{:?}", other),
    };
    let step = tc.resume(state, Reply::Status(host().status(&mine())));
    match step.next {
        Next::Ask(Request::Install(method, dest), _) => {
            assert_eq!(method, InstallMethod::Installer(path(&["archive.tar.gz"])));
            assert_eq!(dest, mine());
        }
        other => panic!("{:?}", other),
    }
}

#[test]
fn zip_installer_is_refused() {
    let cfg = cfg(Platform::Unix);
    let tc = Toolchain::from(&cfg, "mine", rejected()).unwrap();
    let mut h = host();
    let result = h.run(&tc, tc.install_from_installers(vec!["archive.zip".to_string()]));
    assert_eq!(result, Err(Error::BadInstallerType("zip".to_string())));
    assert_eq!(names(&h.asked), vec!["probe"]);
    assert!(h.dirs.is_empty());
}

#[test]
fn zip_installer_is_refused_after_removal_of_prior_install() {
    let cfg = cfg(Platform::Unix);
    let tc = Toolchain::from(&cfg, "mine", rejected()).unwrap();
    let mut h = host();
    h.dirs.push(mine());
    let result = h.run(&tc, tc.install_from_installers(vec!["archive.zip".to_string()]));
    assert_eq!(result, Err(Error::BadInstallerType("zip".to_string())));
    assert_eq!(names(&h.asked), vec!["probe", "uninstall", "probe"]);
}

#[test]
fn installers_need_a_custom_toolchain() {
    let cfg = cfg(Platform::Unix);
    let tc = Toolchain::from(&cfg, "nightly", accepted("nightly")).unwrap();
    let mut h = host();
    h.dirs.push(path(&["/elan", "toolchains", "nightly"]));
    let result = h.run(&tc, tc.install_from_installers(vec!["archive.tar.gz".to_string()]));
    assert_eq!(result, Err(Error::InvalidCustomOperation("nightly".to_string())));
    assert!(h.asked.is_empty());
    assert!(h.told.is_empty());
}

#[test]
fn no_installers_only_removes() {
    let cfg = cfg(Platform::Unix);
    let tc = Toolchain::from(&cfg, "mine", rejected()).unwrap();
    let mut h = host();
    h.dirs.push(mine());
    assert_eq!(h.run(&tc, tc.install_from_installers(vec![])), Ok(Outcome::Unit));
    assert_eq!(names(&h.asked), vec!["probe", "uninstall", "probe"]);
}

#[test]
fn remote_installer_is_downloaded_first() {
    let cfg = cfg(Platform::Unix);
    let tc = Toolchain::from(&cfg, "mine", rejected()).unwrap();
    let mut h = host();
    let result = h.run(
        &tc,
        tc.install_from_installers(vec![
            "https://example.com/lean.tar.gz".to_string(),
            "local.tar.gz".to_string(),
        ]),
    );
    assert_eq!(result, Ok(Outcome::Unit));
    assert_eq!(
        names(&h.asked),
        vec!["probe", "temp-file", "download", "probe", "install", "probe", "install"]
    );
}

#[test]
fn remote_installer_requests() {
    let cfg = cfg(Platform::Unix);
    let tc = Toolchain::from(&cfg, "mine", rejected()).unwrap();
    let step = tc.resume(
        State::RemoveProbe {
            after: AfterRemoval::Install(vec!["https://example.com/lean.tar.gz".to_string()]),
        },
        Reply::Status(host().status(&mine())),
    );
    let state = match step.next {
        Next::Ask(request, state) => {
            assert_eq!(request, Request::TempFile("".to_string(), ".tar.gz".to_string()));
            state
        }
        other => panic!("{:?}", other),
    };
    let step = tc.resume(state, Reply::Path(path(&["/tmp", "x.tar.gz"])));
    let state = match step.next {
        Next::Ask(request, state) => {
            assert_eq!(
                request,
                Request::Download(
                    "https://example.com/lean.tar.gz".to_string(),
                    path(&["/tmp", "x.tar.gz"])
                )
            );
            state
        }
        other => panic!("{:?}", other),
    };
    let step = tc.resume(state, Reply::Done);
    match step.next {
        Next::Ask(Request::Probe(_), State::InstallProbe { method, then }) => {
            assert_eq!(method, InstallMethod::Installer(path(&["/tmp", "x.tar.gz"])));
            assert_eq!(
                then,
                Then::Installers {
                    installers: vec!["https://example.com/lean.tar.gz".to_string()],
                    next: 1
                }
            );
        }
        other => panic!("{:?}", other),
    }
}

#[test]
fn second_installer_failure_leaves_first_installed() {
    let cfg = cfg(Platform::Unix);
    let tc = Toolchain::from(&cfg, "mine", rejected()).unwrap();
    let mut h = host();
    let result = h.run(
        &tc,
        tc.install_from_installers(vec!["a.tar.gz".to_string(), "b.zip".to_string()]),
    );
    assert_eq!(result, Err(Error::BadInstallerType("zip".to_string())));
    assert_eq!(names(&h.asked), vec!["probe", "probe", "install"]);
    assert!(h.dirs.contains(&mine()));
}

#[test]
fn download_failure_ends_the_operation() {
    let cfg = cfg(Platform::Unix);
    let tc = Toolchain::from(&cfg, "mine", rejected()).unwrap();
    let mut h = host();
    h.fail = Some("download");
    let result =
        h.run(&tc, tc.install_from_installers(vec!["http://example.com/l.tar.gz".to_string()]));
    assert_eq!(result, Err(Error::Host(failure("download"))));
    assert_eq!(names(&h.asked), vec!["probe", "temp-file", "download"]);
}

#[test]
fn install_from_dir_copies() {
    let cfg = cfg(Platform::Unix);
    let tc = Toolchain::from(&cfg, "mine", rejected()).unwrap();
    let mut h = host();
    h.dirs.push(path(&["src"]));
    h.dirs.push(path(&["src", "bin"]));
    h.files.push(path(&["src", "bin", "lean"]));
    let step = tc.install_from_dir(path(&["src"]), false);
    assert_eq!(h.run(&tc, step), Ok(Outcome::Unit));
    assert_eq!(names(&h.asked), vec!["probe", "probe", "probe", "install"]);
}

#[test]
fn install_from_dir_checks_the_source() {
    let cfg = cfg(Platform::Unix);
    let tc = Toolchain::from(&cfg, "mine", rejected()).unwrap();
    let mut h = host();
    assert_eq!(
        h.run(&tc, tc.install_from_dir(path(&["src"]), false)),
        Err(Error::NotADirectory(path(&["src", "bin"])))
    );
    assert_eq!(names(&h.asked), vec!["probe"]);
    let mut h = host();
    h.dirs.push(path(&["src", "bin"]));
    assert_eq!(
        h.run(&tc, tc.install_from_dir(path(&["src"]), true)),
        Err(Error::NotAFile(path(&["src", "bin", "lean"])))
    );
    assert_eq!(names(&h.asked), vec!["probe", "probe"]);
}

#[test]
fn install_from_dir_wants_the_suffixed_binary_on_windows() {
    let cfg = cfg(Platform::Windows);
    let tc = Toolchain::from(&cfg, "mine", rejected()).unwrap();
    let mut h = host();
    h.dirs.push(path(&["src", "bin"]));
    h.files.push(path(&["src", "bin", "lean"]));
    assert_eq!(
        h.run(&tc, tc.install_from_dir(path(&["src"]), false)),
        Err(Error::NotAFile(path(&["src", "bin", "lean.exe"])))
    );
}

#[test]
fn install_from_dir_links_to_the_absolute_path() {
    let cfg = cfg(Platform::Unix);
    let tc = Toolchain::from(&cfg, "mine", rejected()).unwrap();
    let step = tc.resume(
        State::DirMain { src: path(&["src"]), link: true },
        Reply::Status(PathStatus {
            exists: true,
            is_directory: false,
            is_file: true,
            is_symlink: false,
        }),
    );
    let state = match step.next {
        Next::Ask(request, state) => {
            assert_eq!(request, Request::Absolute(path(&["src"])));
            state
        }
        other => panic!("{:?}", other),
    };
    let step = tc.resume(state, Reply::Path(path(&["/cwd", "src"])));
    match step.next {
        Next::Ask(Request::Probe(_), State::InstallProbe { method, then }) => {
            assert_eq!(method, InstallMethod::Link(path(&["/cwd", "src"])));
            assert_eq!(then, Then::Discard);
        }
        other => panic!("{:?}", other),
    }
}

#[test]
fn install_from_dir_needs_a_custom_toolchain() {
    let cfg = cfg(Platform::Unix);
    let tc = Toolchain::from(&cfg, "nightly", accepted("nightly")).unwrap();
    let mut h = host();
    for link in [false, true] {
        assert_eq!(
            h.run(&tc, tc.install_from_dir(path(&["src"]), link)),
            Err(Error::InvalidCustomOperation("nightly".to_string()))
        );
    }
    assert!(h.asked.is_empty());
}

#[test]
fn custom_toolchain_from_directory_end_to_end() {
    let cfg = cfg(Platform::Unix);
    let tc = Toolchain::from(&cfg, "mine", rejected()).unwrap();
    let mut h = host();
    h.dirs.push(path(&["src"]));
    h.dirs.push(path(&["src", "bin"]));
    h.files.push(path(&["src", "bin", "lean"]));
    assert_eq!(h.run(&tc, tc.install_from_dir(path(&["src"]), false)), Ok(Outcome::Unit));
    assert!(tc.is_installed(h.status(tc.path())));
    assert!(h.status(&tc.binary_file("lean")).is_file);
    assert_eq!(h.run(&tc, tc.remove()), Ok(Outcome::Unit));
    assert!(!tc.is_installed(h.status(tc.path())));
    assert_eq!(h.run(&tc, tc.install_from_dir(path(&["src"]), true)), Ok(Outcome::Unit));
    assert!(h.status(tc.path()).is_symlink);
    assert!(tc.is_installed(h.status(tc.path())));
}

#[test]
fn dist_install_without_telemetry() {
    let cfg = cfg(Platform::Unix);
    let tc = Toolchain::from(&cfg, "nightly", accepted("nightly")).unwrap();
    let mut h = host();
    assert_eq!(
        h.run(&tc, tc.install_from_dist(true)),
        Ok(Outcome::Status(UpdateStatus::Installed))
    );
    assert_eq!(names(&h.asked), vec!["telemetry-enabled", "hash-file", "probe", "install"]);
}

#[test]
fn dist_install_hands_the_method_to_the_installer() {
    let cfg = cfg(Platform::Unix);
    let tc = Toolchain::from(&cfg, "nightly", accepted("nightly")).unwrap();
    let step = tc.install_from_dist_inner(true);
    let state = match step.next {
        Next::Ask(request, state) => {
            assert_eq!(request, Request::HashFile("nightly".to_string()));
            state
        }
        other => panic!("{:?}", other),
    };
    let step = tc.resume(state, Reply::Path(path(&["/elan", "update-hashes", "nightly"])));
    match step.next {
        Next::Ask(Request::Probe(_), State::InstallProbe { method, then }) => {
            assert_eq!(
                method,
                InstallMethod::Dist {
                    desc: ToolchainDesc { name: "nightly".to_string(), tracking: true },
                    update_hash: Some(path(&["/elan", "update-hashes", "nightly"])),
                    download: tc.download_cfg(),
                    force: true,
                }
            );
            assert_eq!(then, Then::Return);
        }
        other => panic!("{:?}", other),
    }
}

#[test]
fn dist_install_with_telemetry_logs_success() {
    let cfg = cfg(Platform::Unix);
    let tc = Toolchain::from(&cfg, "nightly", accepted("nightly")).unwrap();
    let mut h = host();
    h.telemetry = true;
    assert_eq!(
        h.run(&tc, tc.install_from_dist(false)),
        Ok(Outcome::Status(UpdateStatus::Installed))
    );
    assert_eq!(
        names(&h.asked),
        vec!["telemetry-enabled", "hash-file", "probe", "install", "log-telemetry"]
    );
}

#[test]
fn telemetry_event_names_the_toolchain() {
    let cfg = cfg(Platform::Unix);
    let tc = Toolchain::from(&cfg, "a/b:nightly", accepted("a/b:nightly")).unwrap();
    let step = tc.resume(
        State::InstallRun { existed: true, then: Then::Log },
        Reply::Failed(failure("network")),
    );
    assert!(step.notices.is_empty());
    match step.next {
        Next::Ask(request, State::DistLog { result }) => {
            assert_eq!(
                request,
                Request::LogTelemetry(
                    path(&["/elan", "telemetry"]),
                    TelemetryEvent::ToolchainUpdate {
                        toolchain: "a-b-nightly".to_string(),
                        success: true
                    }
                )
            );
            assert_eq!(result, Err(Error::Host(failure("network"))));
        }
        other => panic!("{:?}", other),
    }
}

#[test]
fn telemetry_failure_does_not_change_the_result() {
    let cfg = cfg(Platform::Unix);
    let tc = Toolchain::from(&cfg, "nightly", accepted("nightly")).unwrap();
    let mut h = host();
    h.fail = Some("log-telemetry");
    assert_eq!(
        h.run(&tc, tc.install_from_dist_with_telemetry(false)),
        Ok(Outcome::Status(UpdateStatus::Installed))
    );
    assert_eq!(
        h.told.last(),
        Some(&Notification::TelemetryCleanupError(failure("log-telemetry")))
    );
    let mut h = host();
    h.fail = Some("install");
    assert_eq!(
        h.run(&tc, tc.install_from_dist_with_telemetry(false)),
        Err(Error::Host(failure("install")))
    );
    assert_eq!(names(&h.asked), vec!["hash-file", "probe", "install", "log-telemetry"]);
}

#[test]
fn dist_install_of_custom_toolchain_is_refused() {
    let cfg = cfg(Platform::Unix);
    let tc = Toolchain::from(&cfg, "mine", rejected()).unwrap();
    let mut h = host();
    let refusal = Err(Error::Host(failure("invalid toolchain name")));
    assert_eq!(h.run(&tc, tc.install_from_dist_inner(false)), refusal);
    assert_eq!(h.run(&tc, tc.install_from_dist_if_not_installed()), refusal);
    assert!(h.asked.is_empty());
    assert_eq!(h.run(&tc, tc.install_from_dist(false)), refusal);
    assert_eq!(names(&h.asked), vec!["telemetry-enabled"]);
    let mut h = host();
    assert_eq!(h.run(&tc, tc.install_from_dist_with_telemetry(false)), refusal);
    assert_eq!(names(&h.asked), vec!["log-telemetry"]);
}

#[test]
fn dist_if_not_installed() {
    let cfg = cfg(Platform::Unix);
    let tc = Toolchain::from(&cfg, "nightly", accepted("nightly")).unwrap();
    let mut h = host();
    assert_eq!(
        h.run(&tc, tc.install_from_dist_if_not_installed()),
        Ok(Outcome::Status(UpdateStatus::Installed))
    );
    assert_eq!(names(&h.asked), vec!["hash-file", "probe", "probe", "install"]);
    h.asked.clear();
    assert_eq!(
        h.run(&tc, tc.install_from_dist_if_not_installed()),
        Ok(Outcome::Status(UpdateStatus::Unchanged))
    );
    assert_eq!(names(&h.asked), vec!["hash-file", "probe"]);
}

#[test]
fn telemetry_setting_failure_ends_dist_install() {
    let cfg = cfg(Platform::Unix);
    let tc = Toolchain::from(&cfg, "nightly", accepted("nightly")).unwrap();
    let mut h = host();
    h.fail = Some("telemetry-enabled");
    assert_eq!(
        h.run(&tc, tc.install_from_dist(false)),
        Err(Error::Host(failure("telemetry-enabled")))
    );
    assert_eq!(names(&h.asked), vec!["telemetry-enabled"]);
}

fn expected_env(count: &str) -> Vec<EnvChange> {
    vec![
        EnvChange::Prepend(
            "LD_LIBRARY_PATH".to_string(),
            vec![path(&["/elan", "toolchains", "mine", "lib"])],
        ),
        EnvChange::Prepend("PATH".to_string(), vec![]),
        EnvChange::SetText("LEAN_RECURSION_COUNT".to_string(), count.to_string()),
        EnvChange::SetText("ELAN_TOOLCHAIN".to_string(), "mine".to_string()),
        EnvChange::SetPath("ELAN_HOME".to_string(), path(&["/elan"])),
    ]
}

#[test]
fn command_for_present_binary() {
    let cfg = cfg(Platform::Unix);
    let tc = Toolchain::from(&cfg, "mine", rejected()).unwrap();
    for count in ["0", "5", "100"] {
        let mut h = host();
        h.dirs.push(mine());
        h.files.push(path(&["/elan", "toolchains", "mine", "bin", "lean"]));
        let result = h.run(&tc, tc.create_command("lean", counted(count)));
        let next: u64 = count.parse::<u64>().unwrap() + 1;
        assert_eq!(
            result,
            Ok(Outcome::Command(CommandPlan {
                program: path(&["/elan", "toolchains", "mine", "bin", "lean"]),
                env: expected_env(&next.to_string()),
            }))
        );
        assert_eq!(names(&h.asked), vec!["probe", "probe"]);
    }
}

#[test]
fn command_for_absent_binary_below_the_limit() {
    let cfg = cfg(Platform::Unix);
    let tc = Toolchain::from(&cfg, "mine", rejected()).unwrap();
    let mut h = host();
    h.dirs.push(mine());
    let result = h.run(&tc, tc.create_command("leanpkg", counted("4")));
    assert_eq!(
        result,
        Ok(Outcome::Command(CommandPlan { program: path(&["leanpkg"]), env: expected_env("5") }))
    );
    let result = h.run(&tc, tc.create_command("leanpkg", no_env()));
    assert_eq!(
        result,
        Ok(Outcome::Command(CommandPlan { program: path(&["leanpkg"]), env: expected_env("1") }))
    );
}

#[test]
fn command_for_absent_binary_at_the_limit() {
    let cfg = cfg(Platform::Unix);
    let tc = Toolchain::from(&cfg, "mine", rejected()).unwrap();
    for count in ["5", "6", "4294967295"] {
        let mut h = host();
        h.dirs.push(mine());
        let result = h.run(&tc, tc.create_command("leanpkg", counted(count)));
        assert_eq!(
            result,
            Err(Error::BinaryNotFound("mine".to_string(), "leanpkg".to_string()))
        );
    }
}

#[test]
fn command_names_the_suffixed_binary_on_windows() {
    let cfg = cfg(Platform::Windows);
    let tc = Toolchain::from(&cfg, "mine", rejected()).unwrap();
    let mut h = host();
    h.dirs.push(mine());
    let result = h.run(&tc, tc.create_command("leanpkg", counted("5")));
    assert_eq!(
        result,
        Err(Error::BinaryNotFound("mine".to_string(), "leanpkg.exe".to_string()))
    );
    h.files.push(path(&["/elan", "toolchains", "mine", "bin", "LEAN.EXE"]));
    match h.run(&tc, tc.create_command("LEAN.EXE", counted("5"))) {
        Ok(Outcome::Command(cmd)) => {
            assert_eq!(cmd.program, path(&["/elan", "toolchains", "mine", "bin", "LEAN.EXE"]));
        }
        other => panic!("{:?}", other),
    }
}

#[test]
fn command_needs_an_installed_toolchain() {
    let cfg = cfg(Platform::Unix);
    let tc = Toolchain::from(&cfg, "a:b", rejected()).unwrap();
    let mut h = host();
    let result = h.run(&tc, tc.create_command("lean", no_env()));
    assert_eq!(result, Err(Error::ToolchainNotInstalled("a-b".to_string())));
    assert_eq!(names(&h.asked), vec!["probe"]);
}

#[test]
fn fallback_command_on_unix() {
    let cfg = cfg(Platform::Unix);
    let tc = Toolchain::from(&cfg, "mine", rejected()).unwrap();
    let primary = Toolchain::from(&cfg, "nightly", accepted("nightly")).unwrap();
    let mut h = host();
    h.dirs.push(mine());
    h.dirs.push(path(&["/elan", "toolchains", "nightly"]));
    let result = h.run(&tc, tc.create_fallback_command("leanpkg", &primary, no_env()));
    let mut env = expected_env("1");
    env.push(EnvChange::SetText("ELAN_TOOLCHAIN".to_string(), "nightly".to_string()));
    assert_eq!(
        result,
        Ok(Outcome::Command(CommandPlan {
            program: path(&["/elan", "toolchains", "mine", "bin", "leanpkg"]),
            env,
        }))
    );
    assert_eq!(names(&h.asked), vec!["probe", "probe"]);
}

#[test]
fn fallback_command_on_windows_links_the_tool() {
    let cfg = cfg(Platform::Windows);
    let tc = Toolchain::from(&cfg, "mine", rejected()).unwrap();
    let primary = Toolchain::from(&cfg, "nightly", accepted("nightly")).unwrap();
    let mut h = host();
    h.dirs.push(mine());
    h.dirs.push(path(&["/elan", "toolchains", "nightly"]));
    let result = h.run(&tc, tc.create_fallback_command("leanpkg.exe", &primary, no_env()));
    match result {
        Ok(Outcome::Command(cmd)) => {
            assert_eq!(cmd.program, path(&["/elan", "fallback", "leanpkg.exe"]));
            assert_eq!(
                cmd.env.last(),
                Some(&EnvChange::SetText("ELAN_TOOLCHAIN".to_string(), "nightly".to_string()))
            );
        }
        other => panic!("{:?}", other),
    }
    assert_eq!(names(&h.asked), vec!["probe", "probe", "create-dir", "probe", "hard-link"]);
    h.asked.clear();
    let again = h.run(&tc, tc.create_fallback_command("leanpkg", &primary, no_env()));
    assert!(again.is_ok());
    assert_eq!(
        names(&h.asked),
        vec!["probe", "probe", "create-dir", "probe", "remove-file", "hard-link"]
    );
}

#[test]
fn fallback_link_request_names_both_files() {
    let cfg = cfg(Platform::Windows);
    let tc = Toolchain::from(&cfg, "mine", rejected()).unwrap();
    let step = tc.resume(
        State::FallbackUnlink { primary_name: "nightly".to_string(), env: no_env() },
        Reply::Done,
    );
    match step.next {
        Next::Ask(request, _) => assert_eq!(
            request,
            Request::HardLink(
                path(&["/elan", "toolchains", "mine", "bin", "leanpkg.exe"]),
                path(&["/elan", "fallback", "leanpkg.exe"])
            )
        ),
        other => panic!("{:?}", other),
    }
}

#[test]
fn fallback_failures_are_tagged() {
    let cfg = cfg(Platform::Windows);
    let tc = Toolchain::from(&cfg, "mine", rejected()).unwrap();
    let primary = Toolchain::from(&cfg, "nightly", accepted("nightly")).unwrap();
    for (what, step) in [
        ("create-dir", FallbackStep::CreateDir),
        ("remove-file", FallbackStep::Unlink),
        ("hard-link", FallbackStep::HardLink),
    ] {
        let mut h = host();
        h.dirs.push(mine());
        h.dirs.push(path(&["/elan", "toolchains", "nightly"]));
        h.files.push(path(&["/elan", "fallback", "leanpkg.exe"]));
        h.fail = Some(what);
        let result = h.run(&tc, tc.create_fallback_command("leanpkg", &primary, no_env()));
        assert_eq!(result, Err(Error::Fallback(step, failure(what))));
    }
}

#[test]
fn fallback_needs_both_toolchains() {
    let cfg = cfg(Platform::Unix);
    let tc = Toolchain::from(&cfg, "mine", rejected()).unwrap();
    let primary = Toolchain::from(&cfg, "nightly", accepted("nightly")).unwrap();
    let mut h = host();
    assert_eq!(
        h.run(&tc, tc.create_fallback_command("leanpkg", &primary, no_env())),
        Err(Error::ToolchainNotInstalled("mine".to_string()))
    );
    h.dirs.push(mine());
    assert_eq!(
        h.run(&tc, tc.create_fallback_command("leanpkg", &primary, no_env())),
        Err(Error::ToolchainNotInstalled("nightly".to_string()))
    );
}

#[test]
fn reply_of_another_kind_is_an_error() {
    let cfg = cfg(Platform::Unix);
    let tc = Toolchain::from(&cfg, "mine", rejected()).unwrap();
    let step = tc.resume(State::RemoveProbe { after: AfterRemoval::Return }, Reply::Done);
    assert_eq!(step.next, Next::Done(Err(Error::UnexpectedReply)));
    let step = tc.resume(State::DirAbsolute, Reply::Flag(true));
    assert_eq!(step.next, Next::Done(Err(Error::UnexpectedReply)));
    let step = tc.resume(
        State::InstallRun { existed: false, then: Then::Return },
        Reply::Path(path(&["x"])),
    );
    assert_eq!(step.next, Next::Done(Err(Error::UnexpectedReply)));
    assert!(step.notices.is_empty());
}

#[test]
fn operations_end_within_their_bound() {
    let cfg = cfg(Platform::Unix);
    let tc = Toolchain::from(&cfg, "mine", rejected()).unwrap();
    let installers: Vec<String> =
        (0..4).map(|i| format!("https://example.com/part{}.tar.gz", i)).collect();
    let mut h = host();
    h.dirs.push(mine());
    assert_eq!(h.run(&tc, tc.install_from_installers(installers)), Ok(Outcome::Unit));
    // One probe to start with, then at most five replies for the removal and
    // five for each installer.
    assert!(h.asked.len() <= 1 + 5 + 5 * 4);
    assert_eq!(h.asked.len(), 3 + 4 * 4);
}

#[test]
fn every_install_request_targets_the_toolchain() {
    let cfg = cfg(Platform::Unix);
    let tc = Toolchain::from(&cfg, "mine", rejected()).unwrap();
    let mut step = tc.install_from_installers(vec![
        "a.tar.gz".to_string(),
        "http://example.com/b.tar.gz".to_string(),
    ]);
    let mut h = host();
    let mut installs = 0;
    loop {
        match step.next {
            Next::Done(result) => {
                assert_eq!(result, Ok(Outcome::Unit));
                break;
            }
            Next::Ask(request, state) => {
                if let Request::Install(method, dest) = &request {
                    assert!(tc.is_valid_install_method(method));
                    assert_eq!(dest, tc.path());
                    installs += 1;
                }
                let reply = h.perform(request);
                step = tc.resume(state, reply);
            }
        }
    }
    assert_eq!(installs, 2);
}
