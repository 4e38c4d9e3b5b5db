use kestrel::include_dir::{
    plan_archive, Buildtime, EntryKind, HookError, Noop, PostBuildHook, PreBuildHook, WalkEntry,
};
use kestrel::names::NameSet;
use kestrel::ready_docker::{needs_pull, pull_notice, pull_warning, RuntimeError};
use kestrel::strings::{copy_all, find, join, stands_at};
use kestrel::vendor_util::{
    vendor_path, vendors_path, CargoVendorPlanError, Dependency, Found, Steps, Vendor, VendorPlan,
    VendorStrategy,
};
use std::path::PathBuf;

fn strings(parts: &[&str]) -> Vec<String> {
    parts.iter().map(|p| p.to_string()).collect()
}

fn chars(text: &str) -> Vec<char> {
    text.chars().collect()
}

#[test]
fn test_try_from_cargo_dep() {
    let dependencies = vec![
        Dependency { name: "serde".to_string(), source: Some("registry+https://github.com/rust-lang/crates.io-index".to_string()) },
        Dependency {
            name: "qip".to_string(),
            source: Some(
                "git+https://github.com/Renmusxd/RustQIP.git?rev=070d5bcd1b248673d89faddae3a19f7894ab357e".to_string(),
            ),
        },
        Dependency { name: "qip".to_string(), source: None },
    ];
    let plan = VendorPlan::try_from_cargo_dep("qip", &dependencies).unwrap();
    assert_eq!(plan.vendor_name, "qip");
    assert_eq!(plan.git_url, "https://github.com/Renmusxd/RustQIP.git");
    assert_eq!(plan.git_rev, "070d5bcd1b248673d89faddae3a19f7894ab357e");

    match VendorPlan::try_from_cargo_dep("tokio", &dependencies) {
        Err(CargoVendorPlanError::DependencyNotFound(name)) => assert_eq!(name, "tokio"),
        other => panic!("{other:?}"),
    }
    assert!(matches!(
        VendorPlan::try_from_cargo_dep("serde", &dependencies),
        Err(CargoVendorPlanError::NotGitDependency(_))
    ));
    assert!(matches!(
        VendorPlan::try_from_cargo_dep("qip", &vec![]),
        Err(CargoVendorPlanError::DependencyNotFound(_))
    ));
}

#[test]
fn sources_of_dependencies() {
    let plan = VendorPlan::try_from_cargo_source("d", Some("https://h/r.git?branch=x?rev=abc")).unwrap();
    assert_eq!(plan.git_url, "https://h/r.git");
    assert_eq!(plan.git_rev, "abc");
    assert_eq!(plan.strategy, VendorStrategy::DotVendor);
    let plan = VendorPlan::try_from_cargo_source("d", Some("git+u?rev=a?rev=b")).unwrap();
    assert_eq!(plan.git_url, "u");
    assert_eq!(plan.git_rev, "a?rev=b");
    let plan = VendorPlan::try_from_cargo_source("d", Some("git+u?rev=")).unwrap();
    assert_eq!(plan.git_rev, "");

    match VendorPlan::try_from_cargo_source("d", None) {
        Err(CargoVendorPlanError::NotGitDependency(name)) => assert_eq!(name, "d"),
        other => panic!("{other:?}"),
    }
    assert!(matches!(
        VendorPlan::try_from_cargo_source("d", Some("registry+https://github.com/rust-lang/crates.io-index")),
        Err(CargoVendorPlanError::NotGitDependency(_))
    ));
    assert!(matches!(
        VendorPlan::try_from_cargo_source("d", Some("git+https://h/r.git#abc")),
        Err(CargoVendorPlanError::NoGitRevision(_))
    ));
    assert!(matches!(
        VendorPlan::try_from_cargo_source("d", Some("git+?rev=abc")),
        Err(CargoVendorPlanError::NoGitUrl(_))
    ));
    assert!(matches!(
        VendorPlan::try_from_cargo_source("d", Some("?x=1?rev=abc")),
        Err(CargoVendorPlanError::NoGitUrl(_))
    ));
    assert!(matches!(
        VendorPlan::try_from_cargo_source("d", Some("git")),
        Err(CargoVendorPlanError::NotGitDependency(_))
    ));
}

#[test]
fn vendor_paths() {
    assert_eq!(vendors_path(), strings(&[".vendor"]));
    assert_eq!(vendor_path("qip", &VendorStrategy::DotVendor), strings(&[".vendor", "qip"]));
    assert_eq!(
        vendor_path("qip", &VendorStrategy::TargetVendor),
        strings(&["target", "release", "vendor", "qip", "revision"])
    );
    let root = PathBuf::from("/ws");
    let path = vendor_path("qip", &VendorStrategy::TargetVendor).iter().fold(root, |p, part| p.join(part));
    assert_eq!(path, PathBuf::from("/ws/target/release/vendor/qip/revision"));
}

#[test]
fn vendor_plans() {
    let mut plan = VendorPlan::new("a".to_string(), "r".to_string(), "u".to_string(), VendorStrategy::TargetVendor);
    assert_eq!(plan.strategy, VendorStrategy::TargetVendor);
    plan.rename("b".to_string());
    plan.set_strategy(VendorStrategy::DotVendor);
    assert_eq!(plan.vendor_name, "b");
    assert_eq!(plan.git_rev, "r");
    assert_eq!(plan.git_url, "u");
    assert_eq!(plan.strategy, VendorStrategy::DotVendor);
    assert_eq!(plan.path_parts(), strings(&[".vendor", "b"]));
    assert_eq!(
        VendorPlan::new_dot_vendor("a".to_string(), "r".to_string(), "u".to_string()).strategy,
        VendorStrategy::DotVendor
    );
    let target = VendorPlan::new_target_vendor("a".to_string(), "r".to_string(), "u".to_string());
    assert_eq!(target.strategy, VendorStrategy::TargetVendor);
    let copy = target.duplicate();
    assert_eq!(copy.vendor_name, "a");
    let vendor: Vendor = target.executed(PathBuf::from("/ws/x"));
    assert_eq!(vendor.path, PathBuf::from("/ws/x"));
    assert_eq!(vendor.plan.git_url, "u");
    assert_eq!(vendor.plan.strategy, VendorStrategy::TargetVendor);
}

#[test]
fn steps_of_a_plan() {
    let dot = VendorPlan::new_dot_vendor("a".to_string(), "r".to_string(), "u".to_string());
    let target = VendorPlan::new_target_vendor("a".to_string(), "r".to_string(), "u".to_string());
    let step = |remove_existing, create_parent, clone| Steps { remove_existing, create_parent, clone };

    assert_eq!(target.steps(&Found::Nothing), step(false, true, true));
    assert_eq!(target.steps(&Found::NoRepository), step(true, true, true));
    assert_eq!(target.steps(&Found::NoOrigin), step(true, true, true));
    assert_eq!(target.steps(&Found::Origin("u".to_string())), step(true, true, true));

    assert_eq!(dot.steps(&Found::Nothing), step(false, true, true));
    assert_eq!(dot.steps(&Found::NoRepository), step(true, false, true));
    assert_eq!(dot.steps(&Found::NoOrigin), step(false, false, true));
    assert_eq!(dot.steps(&Found::Origin("u".to_string())), step(false, false, false));
    assert_eq!(dot.steps(&Found::Origin("v".to_string())), step(true, false, true));
}

#[derive(Debug, Clone)]
struct Failing(&'static str);

impl PreBuildHook for Failing {
    fn before(&self) -> Result<(), HookError> {
        if self.0.is_empty() {
            Ok(())
        } else {
            Err(HookError::Internal(self.0.to_string()))
        }
    }
}

impl PostBuildHook for Failing {
    fn after(&self) -> Result<(), HookError> {
        self.before()
    }
}

#[test]
fn include_dir_build_configuration() {
    let mut build: Buildtime = Buildtime::new(PathBuf::from("contracts"), "contracts".to_string());
    assert_eq!(build.name(), "contracts");
    assert_eq!(build.directory_path(), &PathBuf::from("contracts"));
    assert_eq!(build.archive_name(), "contracts.zip");
    assert!(build.include_patterns().is_empty());
    build.include_pattern("out/**".to_string());
    build.include_pattern("lib/**".to_string());
    build.include_pattern("out/**".to_string());
    assert_eq!(build.include_patterns(), strings(&["out/**", "lib/**"]));
    build.before(Noop);
    build.after(Noop);
    assert!(build.run_before().is_ok());
    assert!(build.run_after().is_ok());
    assert!(Noop.before().is_ok());
    assert!(Noop.after().is_ok());

    let mut failing: Buildtime<Failing, Failing> = Buildtime::new(PathBuf::from("d"), "d".to_string());
    failing.before(Failing(""));
    failing.before(Failing("first"));
    failing.before(Failing("second"));
    failing.after(Failing(""));
    match failing.run_before() {
        Err(e) => assert_eq!(e.message(), "internal error: internal error: first"),
        Ok(()) => panic!("expected a failure"),
    }
    assert!(failing.run_after().is_ok());
    failing.after(Failing("late"));
    assert!(failing.run_after().is_err());
}

#[test]
fn include_vendor_build_configuration() {
    let plan = VendorPlan::new_dot_vendor("qip".to_string(), "r".to_string(), "u".to_string());
    let vendor = plan.executed(PathBuf::from("/ws/.vendor/qip"));
    let mut build: kestrel::include_vendor::Buildtime = kestrel::include_vendor::Buildtime::try_new(vendor).ok().unwrap();
    assert_eq!(build.vendor.plan.vendor_name, "qip");
    assert_eq!(build.include_dir().name(), "qip");
    assert_eq!(build.include_dir().directory_path(), &PathBuf::from("/ws/.vendor/qip"));
    build.include_pattern("a".to_string());
    build.before(Noop);
    build.after(Noop);
    assert_eq!(build.include_dir().include_patterns(), strings(&["a"]));
    assert_eq!(
        kestrel::include_vendor::bundle_outcome(Err(kestrel::include_dir::BuildtimeError::Internal("x".to_string())))
            .unwrap_err()
            .message(),
        "Internal error: internal error: x"
    );
    assert!(kestrel::include_vendor::bundle_outcome(Ok(())).is_ok());
    assert!(build.build(Ok(())).is_ok());
    assert_eq!(
        build
            .build(Err(kestrel::include_dir::BuildtimeError::Internal("gone".to_string())))
            .unwrap_err()
            .message(),
        "Internal error: internal error: gone"
    );
}

#[test]
fn ready_docker_build_configuration() {
    let mut build: kestrel::ready_docker::Buildtime = kestrel::ready_docker::Buildtime::new();
    assert!(build.images().is_empty());
    build.add_image("alpine:3".to_string()).add_image("busybox".to_string()).add_image("alpine:3".to_string());
    assert_eq!(build.images(), strings(&["alpine:3", "busybox"]));
    build.before(kestrel::ready_docker::Noop);
    build.after(kestrel::ready_docker::Noop);
    assert!(build.run_before().is_ok());
    assert!(build.run_after().is_ok());
    assert!(needs_pull(0));
    assert!(!needs_pull(1));
    assert!(!needs_pull(7));
    assert_eq!(pull_warning("Pulling"), "cargo:warning=Docker: Pulling");
    assert_eq!(pull_notice("Pulling"), "Docker: Pulling");
    assert_eq!(RuntimeError::Internal("x".to_string()).message(), "internal error: x");
    assert_eq!(
        kestrel::ready_docker::hook_outcome(Err(kestrel::ready_docker::HookError::Internal("h".to_string())))
            .unwrap_err()
            .message(),
        "internal error: internal error: h"
    );
}

#[test]
fn name_sets_hold_each_name_once() {
    let mut set = NameSet::new();
    assert!(set.is_empty());
    assert!(set.insert("a".to_string()));
    assert!(set.insert("b".to_string()));
    assert!(!set.insert("a".to_string()));
    assert_eq!(set.len(), 2);
    assert!(set.contains("a"));
    assert!(!set.contains("c"));
    assert_eq!(set.to_vec(), strings(&["a", "b"]));
}

#[test]
fn joining_and_finding_text() {
    assert_eq!(join(&strings(&[]), ", "), "");
    assert_eq!(join(&strings(&["a"]), ", "), "a");
    assert_eq!(join(&strings(&["a", "b", "c"]), ", "), "a, b, c");
    assert_eq!(join(&strings(&["", ""]), "-"), "-");
    assert_eq!(copy_all(&strings(&["x", "y"])), strings(&["x", "y"]));
    assert_eq!(find(&chars("abcabc"), &chars("bc")), Some(1));
    assert_eq!(find(&chars("abcabc"), &chars("cb")), None);
    assert_eq!(find(&chars("abc"), &chars("")), Some(0));
    assert_eq!(find(&chars(""), &chars("")), Some(0));
    assert_eq!(find(&chars("ab"), &chars("abc")), None);
    assert_eq!(find(&chars("aab"), &chars("ab")), Some(1));
    assert!(stands_at(&chars("abc"), &chars("bc"), 1));
    assert!(!stands_at(&chars("abc"), &chars("ab"), 1));
}

fn walked(name: &str, kind: EntryKind, mode: u32) -> WalkEntry {
    WalkEntry { name: name.to_string(), kind, mode }
}

#[test]
fn what_goes_into_the_archive() {
    let heeded = vec![
        walked("", EntryKind::Directory, 0o755),
        walked("src", EntryKind::Directory, 0o755),
        walked("src/a.sol", EntryKind::File, 0o644),
        walked("link", EntryKind::Other, 0o777),
    ];
    let explicit = vec![
        walked("src", EntryKind::Directory, 0o755),
        walked("out", EntryKind::Directory, 0o700),
        walked("out/a.json", EntryKind::File, 0o600),
        walked("link", EntryKind::File, 0o644),
        walked("pipe", EntryKind::Other, 0o644),
        walked("out/a.json", EntryKind::File, 0o600),
    ];
    let plan = plan_archive(&heeded, &explicit);
    let names: Vec<(&str, EntryKind, u32)> = plan.iter().map(|e| (e.name.as_str(), e.kind, e.mode)).collect();
    assert_eq!(
        names,
        vec![
            ("", EntryKind::Directory, 0o755),
            ("src", EntryKind::Directory, 0o755),
            ("src/a.sol", EntryKind::File, 0o644),
            ("out", EntryKind::Directory, 0o700),
            ("out/a.json", EntryKind::File, 0o600),
            ("out/a.json", EntryKind::File, 0o600),
        ]
    );
    assert!(plan_archive(&vec![], &vec![]).is_empty());
}

#[derive(Debug, Clone)]
struct Logged {
    name: &'static str,
    fails: bool,
    log: std::sync::Arc<std::sync::Mutex<Vec<&'static str>>>,
}

impl Logged {
    fn note(&self) -> Result<(), HookError> {
        self.log.lock().unwrap().push(self.name);
        if self.fails {
            Err(HookError::Internal(self.name.to_string()))
        } else {
            Ok(())
        }
    }
}

impl PreBuildHook for Logged {
    fn before(&self) -> Result<(), HookError> {
        self.note()
    }
}

impl PostBuildHook for Logged {
    fn after(&self) -> Result<(), HookError> {
        self.note()
    }
}

#[test]
fn hooks_run_in_order_up_to_the_first_failure() {
    let log = std::sync::Arc::new(std::sync::Mutex::new(Vec::new()));
    let hook = |name, fails| Logged { name, fails, log: log.clone() };
    let mut build: Buildtime<Logged, Logged> = Buildtime::new(PathBuf::from("d"), "d".to_string());
    build.before(hook("a", false));
    build.before(hook("b", true));
    build.before(hook("c", true));
    build.after(hook("x", false));
    build.after(hook("y", false));
    assert_eq!(build.run_before().unwrap_err().message(), "internal error: internal error: b");
    assert_eq!(*log.lock().unwrap(), vec!["a", "b"]);
    assert!(build.run_after().is_ok());
    assert_eq!(*log.lock().unwrap(), vec!["a", "b", "x", "y"]);
    build.after(hook("z", true));
    assert_eq!(build.run_after().unwrap_err().message(), "internal error: internal error: z");
    assert_eq!(*log.lock().unwrap(), vec!["a", "b", "x", "y", "x", "y", "z"]);
}
