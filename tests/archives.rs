use std::io::{Cursor, Write};
use std::path::{Path, PathBuf};

use rattler_package_streaming::write::{write_conda_package, write_tar_bz2_package, CompressionLevel};
use rattler_test::archive::{locate, ArchiveFormat, LocateError};
use rattler_test::error::TestError;
use rattler_test::setup::prepare_test;

fn named(name: &str) -> tempfile::Builder<'_, '_> {
    let mut b = tempfile::Builder::new();
    b.prefix(name).rand_bytes(0).keep(true);
    b
}

fn package_dir(files: &[(&str, &str)]) -> (tempfile::TempDir, Vec<PathBuf>) {
    let dir = tempfile::tempdir().unwrap();
    let mut made: Vec<PathBuf> = Vec::new();
    let mut paths = Vec::new();
    for (rel, text) in files {
        let parts: Vec<&str> = rel.split('/').collect();
        let mut cur = dir.path().to_path_buf();
        for part in &parts[..parts.len() - 1] {
            let next = cur.join(part);
            if !made.contains(&next) {
                named(part).tempdir_in(&cur).unwrap();
                made.push(next.clone());
            }
            cur = next;
        }
        let mut file = named(parts[parts.len() - 1]).tempfile_in(&cur).unwrap();
        file.write_all(text.as_bytes()).unwrap();
        paths.push(file.path().to_path_buf());
    }
    (dir, paths)
}

fn tar_bz2(base: &Path, paths: &[PathBuf]) -> Vec<u8> {
    let mut out = Vec::new();
    write_tar_bz2_package(&mut out, base, paths, CompressionLevel::Default, None).unwrap();
    out
}

fn conda(base: &Path, paths: &[PathBuf], name: &str) -> Vec<u8> {
    let mut out = Cursor::new(Vec::new());
    write_conda_package(&mut out, base, paths, CompressionLevel::Default, name, None).unwrap();
    out.into_inner()
}

#[test]
fn both_formats_give_the_same_bytes() {
    let (dir, paths) = package_dir(&[
        ("info/index.json", "{\"name\": \"foo\"}"),
        ("info/test/run_test.sh", "exit 0\n"),
        ("lib/data.txt", "payload"),
    ]);
    let t = tar_bz2(dir.path(), &paths);
    let c = conda(dir.path(), &paths, "foo-1.0-0");
    for path in ["info/index.json", "info/test/run_test.sh"] {
        let a = locate("foo-1.0-0.tar.bz2", ArchiveFormat::TarBz2, &t, path).unwrap();
        let b = locate("foo-1.0-0.conda", ArchiveFormat::Conda, &c, path).unwrap();
        assert_eq!(a, b);
    }
    let sh = locate("foo-1.0-0.tar.bz2", ArchiveFormat::TarBz2, &t, "info/test/run_test.sh");
    assert_eq!(sh.unwrap(), b"exit 0\n".to_vec());
    assert_eq!(
        locate("foo-1.0-0.tar.bz2", ArchiveFormat::TarBz2, &t, "lib/data.txt").unwrap(),
        b"payload".to_vec()
    );
    assert!(matches!(
        locate("foo-1.0-0.conda", ArchiveFormat::Conda, &c, "lib/data.txt"),
        Err(LocateError::PathNotSupported(_))
    ));
    assert!(matches!(
        locate("foo-1.0-0.conda", ArchiveFormat::Conda, &c, "info/nothing"),
        Err(LocateError::NotFound { .. })
    ));
}

#[test]
fn setup_reads_test_time_dependencies() {
    let (dir, paths) = package_dir(&[
        ("info/index.json", "{}"),
        ("info/test/test_time_dependencies.json", "[\"pytest>=7\"]"),
    ]);
    for (name, bytes) in [
        ("foo-1.0-0.tar.bz2", tar_bz2(dir.path(), &paths)),
        ("foo-1.0-0.conda", conda(dir.path(), &paths, "foo-1.0-0")),
    ] {
        let setup = prepare_test(name, &bytes).unwrap();
        let specs: Vec<String> = setup.dependencies.iter().map(|d| d.spec.clone()).collect();
        assert_eq!(specs, vec!["pytest>=7".to_string(), "foo=1.0=0".to_string()]);
        assert_eq!(setup.cache_key, "foo-1.0-0");
    }
}

#[test]
fn setup_without_test_directory_pins_package_only() {
    let (dir, paths) = package_dir(&[("info/index.json", "{}"), ("bin/foo", "#!/bin/sh\n")]);
    let setup = prepare_test("foo-1.0-0.tar.bz2", &tar_bz2(dir.path(), &paths)).unwrap();
    let specs: Vec<String> = setup.dependencies.iter().map(|d| d.spec.clone()).collect();
    assert_eq!(specs, vec!["foo=1.0=0".to_string()]);
}

#[test]
fn setup_rejects_unknown_extension_and_unnamed_package() {
    assert!(matches!(prepare_test("foo-1.0-0.zip", &Vec::new()), Err(TestError::ArchiveTypeNotSupported)));
    let (dir, paths) = package_dir(&[("info/index.json", "{}")]);
    let bytes = tar_bz2(dir.path(), &paths);
    assert!(matches!(prepare_test("foo.tar.bz2", &bytes), Err(TestError::TestFailed)));
    assert!(matches!(prepare_test("foo-1.0-0.tar.bz2", &b"junk".to_vec()), Err(TestError::PackageRead(_))));
}
