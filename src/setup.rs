//! Everything a test run needs to know before its environment is built,
//! worked out from the package file's name and bytes.
use vstd::prelude::*;
use crate::archive::{
    archive_format, archive_format_of, locate, reports, scan, tar_bz2_entries, ArchiveFormat,
    LocateError, Scan,
};
use crate::error::TestError;
use crate::manifest::{
    dependency_set, dependency_specs, json_string_array, read_test_dependencies,
    rejected_at_first_unusable, specs_of, usable_spec, all_usable, Dependency, TEST_DEPENDENCIES_PATH,
};
use crate::package::{cache_key, cache_key_of, identity_of, package_identity, pin_of, PackageIdentity};

verus! {

/// `info/test/test_time_dependencies.json`
pub open spec fn test_dependencies_path() -> Seq<char> {
    seq![
        'i', 'n', 'f', 'o', '/', 't', 'e', 's', 't', '/', 't', 'e', 's', 't', '_', 't', 'i', 'm',
        'e', '_', 'd', 'e', 'p', 'e', 'n', 'd', 'e', 'n', 'c', 'i', 'e', 's', '.', 'j', 's', 'o',
        'n',
    ]
}

/// What a test run prepares before building its environment.
#[derive(Debug)]
pub struct TestSetup {
    /// The package under test.
    pub identity: PackageIdentity,
    /// Its directory name in the package cache, evicted before installing.
    pub cache_key: String,
    /// What the test environment is built from.
    pub dependencies: Vec<Dependency>,
}

/// What locating the test-time dependency list came to.
pub ghost enum ManifestStatus {
    /// The archive holds no such file.
    Missing,
    /// The archive could not be decoded up to the file.
    Unreadable,
    /// The format cannot serve the file's path.
    Unsupported,
    /// The file, with these bytes.
    Found(Seq<u8>),
}

pub open spec fn status_of(located: Result<Vec<u8>, LocateError>) -> ManifestStatus {
    match located {
        Ok(b) => ManifestStatus::Found(b@),
        Err(LocateError::NotFound { .. }) => ManifestStatus::Missing,
        Err(LocateError::Read(_)) => ManifestStatus::Unreadable,
        Err(LocateError::PathNotSupported(_)) => ManifestStatus::Unsupported,
    }
}

pub open spec fn status_from_scan(s: Scan) -> ManifestStatus {
    match s {
        Scan::Found(c) => ManifestStatus::Found(c),
        Scan::Failed => ManifestStatus::Unreadable,
        Scan::Missing => ManifestStatus::Missing,
    }
}

/// What the entries of a `.tar.bz2` archive say of its test-time dependency list.
pub open spec fn tar_bz2_status(bytes: Seq<u8>) -> ManifestStatus {
    status_from_scan(scan(tar_bz2_entries(bytes), test_dependencies_path()))
}

/// `r` is the setup for the package `file_name` with test-time specifiers `list`:
/// the package must be identifiable and its exact pin usable.
pub open spec fn set_up_with(file_name: Seq<char>, list: Seq<Seq<char>>, r: Result<TestSetup, TestError>) -> bool {
    match identity_of(file_name) {
        None => (r matches Err(TestError::TestFailed)),
        Some(id) => if usable_spec(pin_of(id)) {
            r matches Ok(s) && s.identity@ == id && s.cache_key@ == cache_key_of(id) && specs_of(
                s.dependencies@,
            ) == dependency_specs(list, pin_of(id))
        } else {
            (r matches Err(TestError::MatchSpecParse(_)))
        },
    }
}

/// `r` is what preparing the package `file_name` gives when locating its
/// test-time dependency list came to `status`.
pub open spec fn prepared(file_name: Seq<char>, status: ManifestStatus, r: Result<TestSetup, TestError>) -> bool {
    match status {
        ManifestStatus::Missing => set_up_with(file_name, Seq::empty(), r),
        ManifestStatus::Unreadable => (r matches Err(TestError::PackageRead(_))),
        ManifestStatus::Unsupported => (r matches Err(TestError::ArchivePathNotSupported(_))),
        ManifestStatus::Found(b) => match json_string_array(b) {
            None => (r matches Err(TestError::TestJSONParseError(_))),
            Some(list) => if all_usable(list) {
                set_up_with(file_name, list, r)
            } else {
                r is Err && rejected_at_first_unusable(list, r->Err_0)
            },
        },
    }
}

/// Prepares the test of the package `file_name` from what locating its
/// test-time dependency list gave.
pub fn prepare_with_manifest(file_name: &str, located: Result<Vec<u8>, LocateError>) -> (r: Result<
    TestSetup,
    TestError,
>)
    ensures
        prepared(file_name@, status_of(located), r),
{
    let manifest = match read_test_dependencies(located) {
        Ok(m) => m,
        Err(e) => return Err(e),
    };
    let identity = match package_identity(file_name) {
        Some(id) => id,
        None => return Err(TestError::TestFailed),
    };
    let dependencies = match dependency_set(manifest, &identity) {
        Ok(ds) => ds,
        Err(e) => return Err(e),
    };
    let key = cache_key(&identity);
    Ok(TestSetup { identity, cache_key: key, dependencies })
}

/// Identifies the package file `file_name` with contents `archive`, and
/// computes the dependency set of its test environment. For a `.tar.bz2`
/// archive the outcome follows from its entries; for a `.conda` archive from
/// whatever its `info` segment was read to hold.
pub fn prepare_test(file_name: &str, archive: &Vec<u8>) -> (r: Result<TestSetup, TestError>)
    ensures
        archive_format_of(file_name@) is None ==> (r matches Err(
            TestError::ArchiveTypeNotSupported,
        )),
        archive_format_of(file_name@) == Some(ArchiveFormat::TarBz2) ==> prepared(
            file_name@,
            tar_bz2_status(archive@),
            r,
        ),
        archive_format_of(file_name@) == Some(ArchiveFormat::Conda) ==> exists|st: ManifestStatus|
            #[trigger] prepared(file_name@, st, r) && !(st is Unsupported),
{
    proof {
        reveal_strlit("info/test/test_time_dependencies.json");
        assert(TEST_DEPENDENCIES_PATH@ =~= test_dependencies_path());
        assert(test_dependencies_path().subrange(0, 5) =~= seq!['i', 'n', 'f', 'o', '/']);
    }
    let format = match archive_format(file_name) {
        Some(f) => f,
        None => return Err(TestError::ArchiveTypeNotSupported),
    };
    let located = locate(file_name, format, archive, TEST_DEPENDENCIES_PATH);
    let ghost status = status_of(located);
    proof {
        let s = choose|s: Scan| reports(located, file_name@, test_dependencies_path(), s);
        assert(status == status_from_scan(s));
    }
    prepare_with_manifest(file_name, located)
}

} // verus!
