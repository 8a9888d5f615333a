use rattler_test::activation::{activation_script, ShellKind};
use rattler_test::archive::{
    archive_format, find_entry, is_info_path, locate, locate_in_entries, ArchiveEntry,
    ArchiveFormat, LocateError,
};
use rattler_test::discovery::{tests_from_entries, DirEntryInfo, Tests};
use rattler_test::error::TestError;
use rattler_test::manifest::{dependency_set, is_package_file_spec, read_test_dependencies, Dependency};
use rattler_test::package::{cache_key, exact_pin, package_identity, PackageIdentity};
use rattler_test::session::{removes_test_prefix, RunStep, TestConfiguration, TestRun};

fn entry(path: &str, contents: &[u8]) -> Result<ArchiveEntry, std::io::Error> {
    Ok(ArchiveEntry { path: path.to_string(), contents: contents.to_vec() })
}

fn broken() -> Result<ArchiveEntry, std::io::Error> {
    Err(std::io::Error::new(std::io::ErrorKind::InvalidData, "corrupt entry"))
}

fn identity(file_name: &str) -> PackageIdentity {
    package_identity(file_name).expect("a valid package file name")
}

fn specs(ds: &[Dependency]) -> Vec<String> {
    ds.iter().map(|d| d.spec.clone()).collect()
}

fn manifest(json: &str) -> Vec<Dependency> {
    read_test_dependencies(Ok(json.as_bytes().to_vec())).expect("a valid manifest")
}

fn dir_entry(name: &str, is_dir: bool) -> DirEntryInfo {
    DirEntryInfo { path: format!("/pkg/info/test/{name}"), file_name: name.to_string(), is_dir }
}

#[test]
fn archive_format_follows_extension() {
    assert_eq!(archive_format("foo-1.0-0.conda"), Some(ArchiveFormat::Conda));
    assert_eq!(archive_format("foo-1.0-0.tar.bz2"), Some(ArchiveFormat::TarBz2));
    assert_eq!(archive_format("foo-1.0-0.zip"), None);
    assert_eq!(archive_format("foo-1.0-0.bz2"), None);
}

#[test]
fn identity_splits_at_last_two_dashes() {
    let id = identity("ros-noetic-rosbridge-suite-0.11.14-py39h6fdeb60_14.tar.bz2");
    assert_eq!(id.name, "ros-noetic-rosbridge-suite");
    assert_eq!(id.version, "0.11.14");
    assert_eq!(id.build_string, "py39h6fdeb60_14");
    assert_eq!(id.format, ArchiveFormat::TarBz2);
    let id = identity("clangdev-9.0.1-cling_v0.9_hd1e6b3a_3.conda");
    assert_eq!(id.name, "clangdev");
    assert_eq!(id.build_string, "cling_v0.9_hd1e6b3a_3");
    assert_eq!(id.format, ArchiveFormat::Conda);
    assert!(package_identity("foo-1.0.conda").is_none());
    assert!(package_identity("foo-1.0-0.zip").is_none());
}

#[test]
fn pin_and_cache_key_of_package() {
    let id = identity("foo-1.0-0.tar.bz2");
    assert_eq!(exact_pin(&id), "foo=1.0=0");
    assert_eq!(cache_key(&id), "foo-1.0-0");
    let same = identity("foo-1.0-0.tar.bz2");
    assert_eq!(cache_key(&id), cache_key(&same));
}

#[test]
fn entry_found_identically_in_both_formats() {
    let entries = vec![
        entry("info/index.json", b"{}"),
        entry("info/test/run_test.sh", b"exit 0\n"),
        entry("info/test/run_test.sh", b"second"),
    ];
    assert_eq!(find_entry(&entries, "info/index.json"), Some(0));
    assert_eq!(find_entry(&entries, "info/test/run_test.sh"), Some(1));
    assert_eq!(find_entry(&entries, "info/missing"), None);
    let a = locate_in_entries("a.tar.bz2", ArchiveFormat::TarBz2, entries, "info/test/run_test.sh");
    let entries = vec![
        entry("info/index.json", b"{}"),
        entry("info/test/run_test.sh", b"exit 0\n"),
        entry("info/test/run_test.sh", b"second"),
    ];
    let b = locate_in_entries("a.conda", ArchiveFormat::Conda, entries, "info/test/run_test.sh");
    assert_eq!(a.unwrap(), b"exit 0\n".to_vec());
    assert_eq!(b.unwrap(), b"exit 0\n".to_vec());
}

#[test]
fn missing_entry_reports_archive_and_path() {
    let entries = vec![entry("info/index.json", b"{}")];
    match locate_in_entries("pkg.tar.bz2", ArchiveFormat::TarBz2, entries, "info/x.json") {
        Err(LocateError::NotFound { archive, path }) => {
            assert_eq!(archive, "pkg.tar.bz2");
            assert_eq!(path, "info/x.json");
        }
        other => panic!("unexpected {other:?}"),
    }
}

#[test]
fn conda_content_segment_is_refused() {
    let entries = vec![entry("lib/libfoo.so", b"elf")];
    match locate_in_entries("pkg.conda", ArchiveFormat::Conda, entries, "lib/libfoo.so") {
        Err(LocateError::PathNotSupported(p)) => assert_eq!(p, "lib/libfoo.so"),
        other => panic!("unexpected {other:?}"),
    }
    let entries = vec![entry("lib/libfoo.so", b"elf")];
    let found = locate_in_entries("pkg.tar.bz2", ArchiveFormat::TarBz2, entries, "lib/libfoo.so");
    assert_eq!(found.unwrap(), b"elf".to_vec());
    assert!(is_info_path("info"));
    assert!(is_info_path("info/test/run_test.py"));
    assert!(!is_info_path("information/x"));
}

#[test]
fn scan_stops_at_first_match_or_failure() {
    let entries = || vec![entry("info/a.json", b"a"), broken(), entry("info/b.json", b"b")];
    assert_eq!(find_entry(&entries(), "info/b.json"), Some(1));
    let a = locate_in_entries("p.tar.bz2", ArchiveFormat::TarBz2, entries(), "info/a.json");
    assert_eq!(a.unwrap(), b"a".to_vec());
    let b = locate_in_entries("p.tar.bz2", ArchiveFormat::TarBz2, entries(), "info/b.json");
    assert!(matches!(b, Err(LocateError::Read(_))));
    let c = locate_in_entries("p.conda", ArchiveFormat::Conda, entries(), "info/c.json");
    assert!(matches!(c, Err(LocateError::Read(_))));
}

#[test]
fn undecodable_archive_is_a_read_error() {
    let garbage = b"not an archive".to_vec();
    assert!(matches!(
        locate("x.tar.bz2", ArchiveFormat::TarBz2, &garbage, "info/index.json"),
        Err(LocateError::Read(_))
    ));
    assert!(matches!(
        locate("x.conda", ArchiveFormat::Conda, &garbage, "info/index.json"),
        Err(LocateError::Read(_))
    ));
}

#[test]
fn absent_manifest_means_no_extra_dependencies() {
    let none = read_test_dependencies(Err(LocateError::NotFound {
        archive: "foo-1.0-0.tar.bz2".to_string(),
        path: "info/test/test_time_dependencies.json".to_string(),
    }))
    .unwrap();
    assert!(none.is_empty());
    let deps = dependency_set(none, &identity("foo-1.0-0.tar.bz2")).unwrap();
    assert_eq!(specs(&deps), vec!["foo=1.0=0".to_string()]);
}

#[test]
fn manifest_and_pin_form_dependency_set() {
    let deps = dependency_set(manifest(r#"["pytest>=7"]"#), &identity("foo-1.0-0.tar.bz2")).unwrap();
    assert_eq!(specs(&deps), vec!["pytest>=7".to_string(), "foo=1.0=0".to_string()]);
}

#[test]
fn duplicate_specifiers_and_own_pin_kept_once() {
    let m = manifest(r#"["numpy", "pytest>=7", "numpy", "foo=1.0=0"]"#);
    assert_eq!(specs(&m).len(), 4);
    let deps = dependency_set(m, &identity("foo-1.0-0.conda")).unwrap();
    assert_eq!(
        specs(&deps),
        vec!["numpy".to_string(), "pytest>=7".to_string(), "foo=1.0=0".to_string()]
    );
}

#[test]
fn malformed_manifest_is_fatal() {
    assert!(matches!(
        read_test_dependencies(Ok(b"{\"a\": 1}".to_vec())),
        Err(TestError::TestJSONParseError(_))
    ));
    assert!(matches!(
        read_test_dependencies(Ok(b"[\"a:b:c:d\"]".to_vec())),
        Err(TestError::TestMatchSpecParseError(_))
    ));
    match read_test_dependencies(Ok(b"[\"ok\", \"foo-1.0-0.tar.bz2\"]".to_vec())) {
        Err(TestError::MatchSpecParse(s)) => assert_eq!(s, "foo-1.0-0.tar.bz2"),
        other => panic!("unexpected {other:?}"),
    }
    assert!(matches!(
        read_test_dependencies(Err(LocateError::PathNotSupported("lib/x".to_string()))),
        Err(TestError::ArchivePathNotSupported(_))
    ));
}

#[test]
fn package_file_specifiers_recognised() {
    assert!(is_package_file_spec("foo-1.0-0.conda"));
    assert!(is_package_file_spec("/tmp/foo-1.0-0.tar.bz2#comment"));
    assert!(!is_package_file_spec("foo >=1.0 # from foo-1.0-0.conda"));
    assert!(!is_package_file_spec("pytest>=7"));
}

#[test]
fn scan_keeps_recognised_files_only() {
    let entries = vec![
        dir_entry("run_test.sh", false),
        dir_entry("notes.txt", false),
        dir_entry("data", true),
    ];
    let tests = tests_from_entries(&entries);
    assert_eq!(tests.len(), 1);
    match &tests[0] {
        Tests::Commands(p) => assert_eq!(p, "/pkg/info/test/run_test.sh"),
        other => panic!("unexpected {other:?}"),
    }
    let entries = vec![
        dir_entry("run_test.py", false),
        dir_entry("run_test.bat", false),
        dir_entry("run_test.py", true),
        dir_entry("RUN_TEST.sh", false),
    ];
    let tests = tests_from_entries(&entries);
    assert_eq!(tests.len(), 2);
    assert!(matches!(&tests[0], Tests::Python(_)));
    assert!(matches!(&tests[1], Tests::Commands(_)));
}

#[test]
fn foreign_scripts_pass_and_python_always_runs() {
    let bat = Tests::Commands("/pkg/info/test/run_test.bat".to_string());
    let sh = Tests::Commands("/pkg/info/test/run_test.sh".to_string());
    let py = Tests::Python("/pkg/info/test/run_test.py".to_string());
    assert_eq!(bat.command(ShellKind::Bash, "echo hi".to_string()), None);
    assert_eq!(sh.command(ShellKind::CmdExe, "exit 0".to_string()), None);
    assert_eq!(sh.command(ShellKind::Bash, "exit 0".to_string()), Some("exit 0".to_string()));
    assert_eq!(bat.command(ShellKind::CmdExe, "@echo hi".to_string()), Some("@echo hi".to_string()));
    let expected = Some("python /pkg/info/test/run_test.py".to_string());
    assert_eq!(py.command(ShellKind::Bash, "import foo".to_string()), expected);
    assert_eq!(py.command(ShellKind::CmdExe, "import foo".to_string()), expected);
}

#[test]
fn bash_script_sets_variables_prefix_then_command() {
    let vars = vec![
        ("PATH".to_string(), "/env/bin".to_string()),
        ("CONDA_BUILD".to_string(), "1".to_string()),
    ];
    let script = activation_script(ShellKind::Bash, &vars, "/env", "# activate", "exit 0");
    assert_eq!(script, "export CONDA_BUILD=\"1\"\nexport PREFIX=\"/env\"\n\n# activate\nexit 0\n");
}

#[test]
fn cmd_script_sets_variables_prefix_then_command() {
    let vars = vec![("SRC_DIR".to_string(), "C:\\src".to_string())];
    let script = activation_script(ShellKind::CmdExe, &vars, "C:\\env", "@rem act", "exit 0");
    assert_eq!(script, "@SET \"SRC_DIR=C:\\src\"\n@SET \"PREFIX=C:\\env\"\n\n@rem act\nexit 0\n");
}

#[test]
fn run_stops_at_first_failure() {
    let outcomes = [true, false, true];
    let mut run = TestRun::new(3);
    let mut invoked = Vec::new();
    while let RunStep::Run(i) = run.next_step() {
        invoked.push(i);
        run.record(outcomes[i]);
    }
    assert_eq!(run.next_step(), RunStep::Failed);
    assert_eq!(invoked, vec![0, 1]);
}

#[test]
fn run_of_passing_tests_succeeds() {
    let mut run = TestRun::new(2);
    assert_eq!(run.next_step(), RunStep::Run(0));
    run.record(true);
    assert_eq!(run.next_step(), RunStep::Run(1));
    run.record(true);
    assert_eq!(run.next_step(), RunStep::Passed);
    assert_eq!(TestRun::new(0).next_step(), RunStep::Passed);
}

#[test]
fn prefix_kept_only_when_asked() {
    let mut config = TestConfiguration::default();
    assert!(removes_test_prefix(&config));
    config.keep_test_prefix = true;
    assert!(!removes_test_prefix(&config));
}
