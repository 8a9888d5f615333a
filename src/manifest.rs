//! The test-time dependency list of a package, and the full set of
//! dependencies that its test environment is built from.
use vstd::prelude::*;
use crate::archive::{archive_format_of, LocateError};
use crate::error::TestError;
use crate::package::{exact_pin, pin_of, PackageIdentity};
use crate::text::{before_first, chars_before, chars_end_with, str_eq};

verus! {

#[verifier::external_type_specification]
#[verifier::external_body]
pub struct ExMatchSpec(rattler_conda_types::MatchSpec);

/// Where the test-time dependency list lies inside a package.
pub const TEST_DEPENDENCIES_PATH: &'static str = "info/test/test_time_dependencies.json";

/// One dependency: the specifier as written, and as parsed.
#[derive(Debug)]
pub struct Dependency {
    pub spec: String,
    pub match_spec: rattler_conda_types::MatchSpec,
}

/// The specifiers of a list of dependencies, as written.
pub open spec fn specs_of(ds: Seq<Dependency>) -> Seq<Seq<char>> {
    ds.map_values(|d: Dependency| d.spec@)
}

/// The character sequences of a list of strings.
pub open spec fn views_of(v: Seq<String>) -> Seq<Seq<char>> {
    v.map_values(|s: String| s@)
}

/// The strings of a JSON document that is an array of strings, or `None` for
/// any other document.
pub uninterp spec fn json_string_array(bytes: Seq<u8>) -> Option<Seq<Seq<char>>>;

/// Relies on `serde_json::from_slice` into a `Vec<String>`.
#[verifier::external_body]
fn strings_from_json(bytes: &[u8]) -> (r: Result<Vec<String>, serde_json::Error>)
    ensures
        match r {
            Ok(v) => json_string_array(bytes@) == Some(views_of(v@)),
            Err(_) => json_string_array(bytes@) is None,
        },
{
    serde_json::from_slice::<Vec<String>>(bytes)
}

/// The specifier names a package file (its part before any `#` ends in a
/// package extension); such specifiers are not parsed.
pub open spec fn names_package_file(spec: Seq<char>) -> bool {
    archive_format_of(before_first(spec, '#')) is Some
}

/// Whether the specifier parser accepts `spec`.
pub uninterp spec fn match_spec_accepts(spec: Seq<char>) -> bool;

/// A specifier that the test environment can be built from.
pub open spec fn usable_spec(spec: Seq<char>) -> bool {
    !names_package_file(spec) && match_spec_accepts(spec)
}

/// Relies on `MatchSpec::from_str`, which panics on package-file specifiers;
/// the error is kept as its message.
#[verifier::external_body]
fn match_spec_from_str(spec: &str) -> (r: Result<rattler_conda_types::MatchSpec, String>)
    requires
        !names_package_file(spec@),
    ensures
        r is Ok == match_spec_accepts(spec@),
{
    <rattler_conda_types::MatchSpec as std::str::FromStr>::from_str(spec).map_err(|e| e.to_string())
}

/// Whether the specifier names a package file.
pub fn is_package_file_spec(spec: &str) -> (r: bool)
    ensures
        r == names_package_file(spec@),
{
    let head = chars_before(spec, '#');
    let conda = vec!['.', 'c', 'o', 'n', 'd', 'a'];
    let tar_bz2 = vec!['.', 't', 'a', 'r', '.', 'b', 'z', '2'];
    assert(conda@ =~= crate::archive::conda_extension());
    assert(tar_bz2@ =~= crate::archive::tar_bz2_extension());
    chars_end_with(&head, &conda) || chars_end_with(&head, &tar_bz2)
}

/// Every specifier of `specs` is usable.
pub open spec fn all_usable(specs: Seq<Seq<char>>) -> bool {
    forall|i: int| 0 <= i < specs.len() ==> usable_spec(#[trigger] specs[i])
}

/// The first entry of `specs` that is not usable: `specs[i]`, all before it usable.
pub open spec fn first_unusable(specs: Seq<Seq<char>>, i: int) -> bool {
    0 <= i < specs.len() && !usable_spec(specs[i]) && forall|j: int|
        0 <= j < i ==> usable_spec(#[trigger] specs[j])
}

/// The error that an unusable specifier gives.
pub open spec fn rejects_spec(e: TestError, spec: Seq<char>) -> bool {
    if names_package_file(spec) {
        e matches TestError::MatchSpecParse(m) && m@ == spec
    } else {
        e is TestMatchSpecParseError
    }
}

/// `e` is the error of the first unusable specifier of `specs`.
pub open spec fn rejected_at_first_unusable(specs: Seq<Seq<char>>, e: TestError) -> bool {
    exists|i: int| first_unusable(specs, i) && rejects_spec(e, #[trigger] specs[i])
}

/// Parses a specifier, rejecting package-file specifiers.
pub fn parse_dependency(spec: String) -> (r: Result<Dependency, TestError>)
    ensures
        match r {
            Ok(d) => usable_spec(spec@) && d.spec@ == spec@,
            Err(e) => !usable_spec(spec@) && rejects_spec(e, spec@),
        },
{
    if is_package_file_spec(spec.as_str()) {
        return Err(TestError::MatchSpecParse(spec));
    }
    match match_spec_from_str(spec.as_str()) {
        Ok(m) => Ok(Dependency { spec, match_spec: m }),
        Err(msg) => Err(TestError::TestMatchSpecParseError(msg)),
    }
}

/// Parses every specifier of a dependency list, failing on the first that is
/// not usable.
pub fn parse_dependencies(specs: Vec<String>) -> (r: Result<Vec<Dependency>, TestError>)
    ensures
        match r {
            Ok(ds) => specs_of(ds@) == views_of(specs@) && all_usable(views_of(specs@)),
            Err(e) => rejected_at_first_unusable(views_of(specs@), e),
        },
{
    let ghost all = views_of(specs@);
    let mut rest = specs;
    let mut out: Vec<Dependency> = Vec::new();
    while rest.len() > 0
        invariant
            all == views_of(specs@),
            out@.len() + rest@.len() == all.len(),
            specs_of(out@) == all.subrange(0, out@.len() as int),
            views_of(rest@) == all.subrange(out@.len() as int, all.len() as int),
            forall|j: int| 0 <= j < out@.len() ==> usable_spec(#[trigger] all[j]),
        decreases rest@.len(),
    {
        let ghost k = out@.len() as int;
        let ghost before = rest@;
        assert(views_of(before)[0] == all.subrange(k, all.len() as int)[0]);
        let s = rest.remove(0);
        assert(rest@ =~= before.subrange(1, before.len() as int));
        assert(s@ == all[k]);
        assert(views_of(rest@) =~= all.subrange(k + 1, all.len() as int)) by {
            assert forall|j: int| 0 <= j < rest@.len() implies #[trigger] views_of(rest@)[j]
                == all[k + 1 + j] by {
                assert(views_of(before)[j + 1] == all.subrange(k, all.len() as int)[j + 1]);
            }
        }
        match parse_dependency(s) {
            Ok(d) => {
                out.push(d);
                assert(specs_of(out@) =~= all.subrange(0, out@.len() as int));
            },
            Err(e) => {
                assert(first_unusable(all, k));
                assert(views_of(specs@)[k] == all[k]);
                return Err(e);
            },
        }
    }
    assert(all.subrange(0, out@.len() as int) =~= all);
    Ok(out)
}

/// Reads the test-time dependency list out of what locating its file gave.
/// A missing file means no extra dependencies; any other failure is fatal.
pub fn read_test_dependencies(located: Result<Vec<u8>, LocateError>) -> (r: Result<
    Vec<Dependency>,
    TestError,
>)
    ensures
        located matches Err(LocateError::NotFound { .. }) ==> r is Ok && r->Ok_0@.len() == 0,
        located matches Err(LocateError::Read(_)) ==> (r matches Err(TestError::PackageRead(_))),
        located matches Err(LocateError::PathNotSupported(p)) ==> (r matches Err(
            TestError::ArchivePathNotSupported(q),
        ) && q@ == p@),
        located matches Ok(bytes) ==> match json_string_array(bytes@) {
            None => (r matches Err(TestError::TestJSONParseError(_))),
            Some(list) => match r {
                Ok(ds) => specs_of(ds@) == list && all_usable(list),
                Err(e) => rejected_at_first_unusable(list, e),
            },
        },
{
    match located {
        Err(LocateError::NotFound { .. }) => {
            let none: Vec<Dependency> = Vec::new();
            assert(none@.len() == 0);
            Ok(none)
        },
        Err(LocateError::Read(e)) => Err(TestError::PackageRead(e)),
        Err(LocateError::PathNotSupported(p)) => Err(TestError::ArchivePathNotSupported(p)),
        Ok(bytes) => match strings_from_json(bytes.as_slice()) {
            Err(e) => Err(TestError::TestJSONParseError(e)),
            Ok(list) => parse_dependencies(list),
        },
    }
}

/// The specifiers of `list` in order, each kept once, without `pin`.
pub open spec fn distinct_without(list: Seq<Seq<char>>, pin: Seq<char>) -> Seq<Seq<char>>
    decreases list.len(),
{
    if list.len() == 0 {
        Seq::empty()
    } else {
        let kept = distinct_without(list.drop_last(), pin);
        let s = list.last();
        if s == pin || kept.contains(s) {
            kept
        } else {
            kept.push(s)
        }
    }
}

/// The dependency set of a test environment: the test-time specifiers, each
/// once, then the exact pin of the package under test.
pub open spec fn dependency_specs(manifest: Seq<Seq<char>>, pin: Seq<char>) -> Seq<Seq<char>> {
    distinct_without(manifest, pin).push(pin)
}

/// Whether a specifier is among those of `ds`.
fn has_spec(ds: &Vec<Dependency>, spec: &str) -> (r: bool)
    ensures
        r == specs_of(ds@).contains(spec@),
{
    let mut i: usize = 0;
    while i < ds.len()
        invariant
            i <= ds@.len(),
            forall|j: int| 0 <= j < i ==> specs_of(ds@)[j] != spec@,
        decreases ds@.len() - i,
    {
        if str_eq(ds[i].spec.as_str(), spec) {
            assert(specs_of(ds@)[i as int] == spec@);
            return true;
        }
        i = i + 1;
    }
    false
}

/// Builds the dependency set of the test environment from the test-time
/// dependencies and the package's own exact pin, appended last.
pub fn dependency_set(manifest: Vec<Dependency>, pkg: &PackageIdentity) -> (r: Result<
    Vec<Dependency>,
    TestError,
>)
    ensures
        match r {
            Ok(ds) => usable_spec(pin_of(pkg@)) && specs_of(ds@) == dependency_specs(
                specs_of(manifest@),
                pin_of(pkg@),
            ),
            Err(e) => !usable_spec(pin_of(pkg@)) && e is MatchSpecParse,
        },
{
    let pin = exact_pin(pkg);
    if is_package_file_spec(pin.as_str()) {
        return Err(TestError::MatchSpecParse(pin));
    }
    let pinned = match match_spec_from_str(pin.as_str()) {
        Ok(m) => m,
        Err(msg) => return Err(TestError::MatchSpecParse(msg)),
    };
    let ghost all = specs_of(manifest@);
    let mut rest = manifest;
    let mut out: Vec<Dependency> = Vec::new();
    let ghost mut k: int = 0;
    assert(all.subrange(0, 0) =~= Seq::<Seq<char>>::empty());
    while rest.len() > 0
        invariant
            0 <= k <= all.len(),
            k + rest@.len() == all.len(),
            specs_of(rest@) == all.subrange(k, all.len() as int),
            specs_of(out@) == distinct_without(all.subrange(0, k), pin@),
        decreases rest@.len(),
    {
        let ghost before = rest@;
        assert(specs_of(before)[0] == all.subrange(k, all.len() as int)[0]);
        let d = rest.remove(0);
        assert(rest@ =~= before.subrange(1, before.len() as int));
        assert(specs_of(rest@) =~= all.subrange(k + 1, all.len() as int)) by {
            assert forall|j: int| 0 <= j < rest@.len() implies #[trigger] specs_of(rest@)[j]
                == all[k + 1 + j] by {
                assert(specs_of(before)[j + 1] == all.subrange(k, all.len() as int)[j + 1]);
            }
        }
        assert(all.subrange(0, k + 1).drop_last() =~= all.subrange(0, k));
        assert(all.subrange(0, k + 1).last() == d.spec@);
        if !str_eq(d.spec.as_str(), pin.as_str()) && !has_spec(&out, d.spec.as_str()) {
            out.push(d);
            assert(specs_of(out@) =~= distinct_without(all.subrange(0, k + 1), pin@));
        }
        proof {
            k = k + 1;
        }
    }
    assert(all.subrange(0, k) =~= all);
    out.push(Dependency { spec: pin, match_spec: pinned });
    assert(specs_of(out@) =~= dependency_specs(all, pin_of(pkg@)));
    Ok(out)
}

/// The package's own pin is never among the test-time specifiers kept, so the
/// dependency set holds it exactly once, as its last element.
pub proof fn lemma_pin_once_and_last(manifest: Seq<Seq<char>>, pin: Seq<char>)
    ensures
        dependency_specs(manifest, pin).last() == pin,
        !distinct_without(manifest, pin).contains(pin),
    decreases manifest.len(),
{
    if manifest.len() > 0 {
        lemma_pin_once_and_last(manifest.drop_last(), pin);
        let kept = distinct_without(manifest.drop_last(), pin);
        let s = manifest.last();
        if !(s == pin || kept.contains(s)) {
            assert forall|j: int| 0 <= j < kept.push(s).len() implies kept.push(s)[j] != pin by {
                if j < kept.len() {
                    assert(kept[j] == kept.push(s)[j]);
                }
            }
        }
    }
}

/// Without a test-time dependency list, the dependency set is the package's
/// exact pin alone.
pub proof fn lemma_no_manifest_pin_only(pin: Seq<char>)
    ensures
        dependency_specs(Seq::empty(), pin) == seq![pin],
{
    assert(dependency_specs(Seq::empty(), pin) =~= seq![pin]);
}

} // verus!
