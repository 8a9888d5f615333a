//! The identity of a package archive, read from its file name, and the names
//! derived from it.
use vstd::prelude::*;
use crate::archive::{archive_format_of, extension_of, ArchiveFormat};
use crate::text::last_index_of;

verus! {

/// Name, version and build string of a package archive, and its format.
#[derive(Debug)]
pub struct PackageIdentity {
    pub name: String,
    pub version: String,
    pub build_string: String,
    pub format: ArchiveFormat,
}

impl View for PackageIdentity {
    type V = (Seq<char>, Seq<char>, Seq<char>, ArchiveFormat);

    open spec fn view(&self) -> Self::V {
        (self.name@, self.version@, self.build_string@, self.format)
    }
}

/// The identity that a file name `<name>-<version>-<build><extension>` carries:
/// the build string follows the last dash, the version the one before it, and
/// the name is all that precedes.
pub open spec fn identity_of(file_name: Seq<char>) -> Option<(Seq<char>, Seq<char>, Seq<char>, ArchiveFormat)> {
    match archive_format_of(file_name) {
        None => None,
        Some(format) => {
            let stem = file_name.subrange(0, file_name.len() - extension_of(format).len());
            match last_index_of(stem, '-') {
                None => None,
                Some(j) => match last_index_of(stem.subrange(0, j), '-') {
                    None => None,
                    Some(i) => Some(
                        (
                            stem.subrange(0, i),
                            stem.subrange(i + 1, j),
                            stem.subrange(j + 1, stem.len() as int),
                            format,
                        ),
                    ),
                },
            }
        },
    }
}

/// Relies on `ArchiveIdentifier::try_from_filename`: strips the extension, then
/// splits the rest at its last two dashes.
#[verifier::external_body]
fn try_from_filename(file_name: &str) -> (r: Option<PackageIdentity>)
    ensures
        r is Some == identity_of(file_name@) is Some,
        r is Some ==> identity_of(file_name@) == Some(r->Some_0@),
{
    rattler_conda_types::package::ArchiveIdentifier::try_from_filename(file_name).map(|id| {
        PackageIdentity {
            name: id.name,
            version: id.version,
            build_string: id.build_string,
            format: match id.archive_type {
                rattler_conda_types::package::ArchiveType::TarBz2 => ArchiveFormat::TarBz2,
                rattler_conda_types::package::ArchiveType::Conda => ArchiveFormat::Conda,
            },
        }
    })
}

/// The identity of the package archive named `file_name`.
pub fn package_identity(file_name: &str) -> (r: Option<PackageIdentity>)
    ensures
        r is Some == identity_of(file_name@) is Some,
        r is Some ==> identity_of(file_name@) == Some(r->Some_0@),
{
    try_from_filename(file_name)
}

/// `a`, `sep`, `b`, `sep`, `c` joined.
pub open spec fn joined3(a: Seq<char>, b: Seq<char>, c: Seq<char>, sep: char) -> Seq<char> {
    a + seq![sep] + b + seq![sep] + c
}

/// The specifier that pins exactly this build: `<name>=<version>=<build>`.
pub open spec fn pin_of(pkg: (Seq<char>, Seq<char>, Seq<char>, ArchiveFormat)) -> Seq<char> {
    joined3(pkg.0, pkg.1, pkg.2, '=')
}

/// The key of this build in the package cache: `<name>-<version>-<build>`.
pub open spec fn cache_key_of(pkg: (Seq<char>, Seq<char>, Seq<char>, ArchiveFormat)) -> Seq<char> {
    joined3(pkg.0, pkg.1, pkg.2, '-')
}

/// `a`, `sep`, `b`, `sep`, `c` joined into one string.
fn join3(a: &String, b: &String, c: &String, sep: &str) -> (r: String)
    requires
        sep@.len() == 1,
    ensures
        r@ == joined3(a@, b@, c@, sep@[0]),
{
    let mut out = a.clone();
    out.append(sep);
    out.append(b.as_str());
    out.append(sep);
    out.append(c.as_str());
    assert(sep@ =~= seq![sep@[0]]);
    out
}

/// The exact pin of a package, `<name>=<version>=<build>`.
pub fn exact_pin(pkg: &PackageIdentity) -> (r: String)
    ensures
        r@ == pin_of(pkg@),
{
    proof {
        reveal_strlit("=");
    }
    join3(&pkg.name, &pkg.version, &pkg.build_string, "=")
}

/// Relies on `rattler::package_cache::CacheKey`, whose text is
/// `<name>-<version>-<build>`.
#[verifier::external_body]
fn cache_key_text(pkg: &PackageIdentity) -> (r: String)
    ensures
        r@ == cache_key_of(pkg@),
{
    let id = rattler_conda_types::package::ArchiveIdentifier {
        name: pkg.name.clone(),
        version: pkg.version.clone(),
        build_string: pkg.build_string.clone(),
        archive_type: match pkg.format {
            ArchiveFormat::TarBz2 => rattler_conda_types::package::ArchiveType::TarBz2,
            ArchiveFormat::Conda => rattler_conda_types::package::ArchiveType::Conda,
        },
    };
    rattler::package_cache::CacheKey::from(id).to_string()
}

/// The cache key of a package: the name of its directory under `pkgs/` in the
/// package cache.
pub fn cache_key(pkg: &PackageIdentity) -> (r: String)
    ensures
        r@ == cache_key_of(pkg@),
{
    cache_key_text(pkg)
}

} // verus!
