//! Finding one file inside a package archive, in either container format.
use std::io::Read;
use vstd::prelude::*;
use crate::text::{ends_with, starts_with, str_ends_with, str_eq, str_starts_with};

verus! {

/// The two container formats of a conda package.
#[derive(Clone, Copy, Debug, PartialEq, Eq, Structural)]
pub enum ArchiveFormat {
    /// The legacy bzip2-compressed tarball, read as one stream.
    TarBz2,
    /// The zip container whose `info` segment can be read on its own.
    Conda,
}

/// One file of an archive: its path inside the archive and its bytes.
#[derive(Debug)]
pub struct ArchiveEntry {
    pub path: String,
    pub contents: Vec<u8>,
}

/// Why a file could not be taken from an archive.
#[derive(Debug)]
pub enum LocateError {
    /// No entry of the archive has the requested path.
    NotFound { archive: String, path: String },
    /// The archive could not be decoded.
    Read(std::io::Error),
    /// Only the `info` segment of a `.conda` archive is read.
    PathNotSupported(String),
}

pub open spec fn conda_extension() -> Seq<char> {
    seq!['.', 'c', 'o', 'n', 'd', 'a']
}

pub open spec fn tar_bz2_extension() -> Seq<char> {
    seq!['.', 't', 'a', 'r', '.', 'b', 'z', '2']
}

/// The format that a file name announces by its extension.
pub open spec fn archive_format_of(file_name: Seq<char>) -> Option<ArchiveFormat> {
    if ends_with(file_name, conda_extension()) {
        Some(ArchiveFormat::Conda)
    } else if ends_with(file_name, tar_bz2_extension()) {
        Some(ArchiveFormat::TarBz2)
    } else {
        None
    }
}

pub open spec fn extension_of(format: ArchiveFormat) -> Seq<char> {
    match format {
        ArchiveFormat::Conda => conda_extension(),
        ArchiveFormat::TarBz2 => tar_bz2_extension(),
    }
}

/// Relies on `ArchiveType::split_str`: `.conda` and `.tar.bz2` suffixes, in that order.
#[verifier::external_body]
pub(crate) fn split_archive_type(file_name: &str) -> (r: Option<ArchiveFormat>)
    ensures
        r == archive_format_of(file_name@),
{
    rattler_conda_types::package::ArchiveType::split_str(file_name).map(|(_, t)| match t {
        rattler_conda_types::package::ArchiveType::TarBz2 => ArchiveFormat::TarBz2,
        rattler_conda_types::package::ArchiveType::Conda => ArchiveFormat::Conda,
    })
}

/// The archive format of a package file, told by the extension of its name.
pub fn archive_format(file_name: &str) -> (r: Option<ArchiveFormat>)
    ensures
        r == archive_format_of(file_name@),
{
    split_archive_type(file_name)
}

/// One entry as the decoder gave it: its path and bytes, or `None` where
/// decoding failed at that point.
pub open spec fn entry_view(e: Result<ArchiveEntry, std::io::Error>) -> Option<(Seq<char>, Seq<u8>)> {
    match e {
        Ok(a) => Some((a.path@, a.contents@)),
        Err(_) => None,
    }
}

/// What a decoder gave, entry by entry, in container order.
pub open spec fn entries_view(es: Seq<Result<ArchiveEntry, std::io::Error>>) -> Seq<
    Option<(Seq<char>, Seq<u8>)>,
> {
    es.map_values(|e: Result<ArchiveEntry, std::io::Error>| entry_view(e))
}

/// The entries that decoding the `.tar.bz2` archive `bytes` gives, in order,
/// `None` for each one that fails to decode.
pub uninterp spec fn tar_bz2_entries(bytes: Seq<u8>) -> Seq<Option<(Seq<char>, Seq<u8>)>>;

/// Relies on `rattler_package_streaming::read::stream_tar_bz2` and the `tar`
/// entries it yields, in the order of the stream.
#[verifier::external_body]
fn read_tar_bz2(bytes: &[u8]) -> (r: Vec<Result<ArchiveEntry, std::io::Error>>)
    ensures
        entries_view(r@) == tar_bz2_entries(bytes@),
{
    let mut archive = rattler_package_streaming::read::stream_tar_bz2(bytes);
    let entries = match archive.entries() { Ok(entries) => entries, Err(e) => return vec![Err(e)] };
    entries.map(|entry| {
        let mut entry = entry?;
        let path = entry.path()?.to_string_lossy().into_owned();
        let mut contents = Vec::new();
        entry.read_to_end(&mut contents)?;
        Ok(ArchiveEntry { path, contents })
    }).collect()
}

/// Relies on `rattler_package_streaming::seek::stream_conda_info` and the `tar`
/// entries it yields. Which `info-*` member it reads is not fixed by the bytes
/// (the zip reader lists members in hash-map order), so nothing is stated.
#[verifier::external_body]
fn read_conda_info(bytes: &[u8]) -> (r: Vec<Result<ArchiveEntry, std::io::Error>>) {
    let opened = rattler_package_streaming::seek::stream_conda_info(std::io::Cursor::new(bytes))
        .map_err(|e| std::io::Error::new(std::io::ErrorKind::InvalidData, e));
    let mut archive = match opened { Ok(archive) => archive, Err(e) => return vec![Err(e)] };
    let entries = match archive.entries() { Ok(entries) => entries, Err(e) => return vec![Err(e)] };
    entries.map(|entry| {
        let mut entry = entry?;
        let path = entry.path()?.to_string_lossy().into_owned();
        let mut contents = Vec::new();
        entry.read_to_end(&mut contents)?;
        Ok(ArchiveEntry { path, contents })
    }).collect()
}

/// How a scan of the entries for one path ends.
pub ghost enum Scan {
    /// An entry with the path came first: its contents.
    Found(Seq<u8>),
    /// Decoding failed before such an entry.
    Failed,
    /// Every entry decoded and none has the path.
    Missing,
}

/// Scans entries in order: the first that has `path` or failed to decode ends it.
pub open spec fn scan(es: Seq<Option<(Seq<char>, Seq<u8>)>>, path: Seq<char>) -> Scan
    decreases es.len(),
{
    if es.len() == 0 {
        Scan::Missing
    } else {
        match es[0] {
            None => Scan::Failed,
            Some(e) => if e.0 == path {
                Scan::Found(e.1)
            } else {
                scan(es.drop_first(), path)
            },
        }
    }
}

/// `path` lies in the metadata segment: it is `info` or below it.
pub open spec fn in_info_segment(path: Seq<char>) -> bool {
    path == seq!['i', 'n', 'f', 'o'] || starts_with(path, seq!['i', 'n', 'f', 'o', '/'])
}

/// Whether `format` can serve `path` at all.
pub open spec fn servable(format: ArchiveFormat, path: Seq<char>) -> bool {
    format == ArchiveFormat::TarBz2 || in_info_segment(path)
}

/// What a search of decoded entries gives: `None` where the format cannot serve
/// the path, else how the scan for it ends.
pub open spec fn search_outcome(
    format: ArchiveFormat,
    es: Seq<Option<(Seq<char>, Seq<u8>)>>,
    path: Seq<char>,
) -> Option<Scan> {
    if servable(format, path) {
        Some(scan(es, path))
    } else {
        None
    }
}

/// `r` is what a scan that ended as `s` reports for `path` in `archive`.
pub open spec fn reports(r: Result<Vec<u8>, LocateError>, archive: Seq<char>, path: Seq<char>, s: Scan) -> bool {
    match s {
        Scan::Found(c) => (r matches Ok(b) && b@ == c),
        Scan::Failed => (r matches Err(LocateError::Read(_))),
        Scan::Missing => (r matches Err(LocateError::NotFound { archive: a, path: p }) && a@
            == archive && p@ == path),
    }
}

/// Whether `path` names the `info` segment or a file below it.
pub fn is_info_path(path: &str) -> (r: bool)
    ensures
        r == in_info_segment(path@),
{
    proof {
        reveal_strlit("info");
        reveal_strlit("info/");
        assert("info"@ =~= seq!['i', 'n', 'f', 'o']);
        assert("info/"@ =~= seq!['i', 'n', 'f', 'o', '/']);
    }
    str_eq(path, "info") || str_starts_with(path, "info/")
}

/// The index of the entry that ends the scan for `path`: the first one that has
/// that path or failed to decode.
pub fn find_entry(entries: &Vec<Result<ArchiveEntry, std::io::Error>>, path: &str) -> (r: Option<
    usize,
>)
    ensures
        match r {
            Some(i) => i < entries@.len() && scan(entries_view(entries@), path@) == match entry_view(
                entries@[i as int],
            ) {
                Some(e) => Scan::Found(e.1),
                None => Scan::Failed,
            },
            None => scan(entries_view(entries@), path@) == Scan::Missing,
        },
{
    let ghost es = entries_view(entries@);
    assert(es.subrange(0, es.len() as int) =~= es);
    let mut i: usize = 0;
    while i < entries.len()
        invariant
            i <= entries@.len(),
            es == entries_view(entries@),
            scan(es, path@) == scan(es.subrange(i as int, es.len() as int), path@),
        decreases entries@.len() - i,
    {
        let ghost rest = es.subrange(i as int, es.len() as int);
        assert(rest[0] == es[i as int]);
        match &entries[i] {
            Ok(e) => {
                if str_eq(e.path.as_str(), path) {
                    return Some(i);
                }
            },
            Err(_) => {
                return Some(i);
            },
        }
        assert(rest.drop_first() =~= es.subrange(i + 1, es.len() as int));
        i = i + 1;
    }
    assert(es.subrange(i as int, es.len() as int) =~= Seq::<Option<(Seq<char>, Seq<u8>)>>::empty());
    None
}

/// Takes the file at `path` out of what a decoder of `format` gave.
pub fn locate_in_entries(
    archive: &str,
    format: ArchiveFormat,
    entries: Vec<Result<ArchiveEntry, std::io::Error>>,
    path: &str,
) -> (r: Result<Vec<u8>, LocateError>)
    ensures
        match search_outcome(format, entries_view(entries@), path@) {
            None => (r matches Err(LocateError::PathNotSupported(p)) && p@ == path@),
            Some(s) => reports(r, archive@, path@, s),
        },
{
    if format == ArchiveFormat::Conda && !is_info_path(path) {
        return Err(LocateError::PathNotSupported(path.to_string()));
    }
    match find_entry(&entries, path) {
        Some(i) => {
            let mut entries = entries;
            match entries.remove(i) {
                Ok(e) => Ok(e.contents),
                Err(e) => Err(LocateError::Read(e)),
            }
        },
        None => Err(LocateError::NotFound { archive: archive.to_string(), path: path.to_string() }),
    }
}

/// Reads the file at `path` out of the package archive `bytes`, named `archive`,
/// without unpacking anything else. For `.tar.bz2` the outcome is that of the
/// scan of its entries; for `.conda` the file is one of those of an `info`
/// segment, found, missing or unreadable.
pub fn locate(archive: &str, format: ArchiveFormat, bytes: &Vec<u8>, path: &str) -> (r: Result<
    Vec<u8>,
    LocateError,
>)
    ensures
        !servable(format, path@) ==> (r matches Err(LocateError::PathNotSupported(p)) && p@
            == path@),
        format == ArchiveFormat::TarBz2 ==> reports(r, archive@, path@, scan(tar_bz2_entries(bytes@), path@)),
        servable(format, path@) ==> exists|s: Scan| #[trigger] reports(r, archive@, path@, s),
{
    if format == ArchiveFormat::Conda && !is_info_path(path) {
        return Err(LocateError::PathNotSupported(path.to_string()));
    }
    let entries = match format {
        ArchiveFormat::TarBz2 => read_tar_bz2(bytes.as_slice()),
        ArchiveFormat::Conda => read_conda_info(bytes.as_slice()),
    };
    let ghost es = entries_view(entries@);
    let r = locate_in_entries(archive, format, entries, path);
    assert(reports(r, archive@, path@, scan(es, path@)));
    r
}

/// A file is found by its path alone: for every path in the metadata segment,
/// the search gives the same outcome whichever format the entries came from,
/// namely how the scan for that path ends.
pub proof fn lemma_search_format_independent(es: Seq<Option<(Seq<char>, Seq<u8>)>>, path: Seq<char>)
    requires
        in_info_segment(path),
    ensures
        search_outcome(ArchiveFormat::TarBz2, es, path) == search_outcome(
            ArchiveFormat::Conda,
            es,
            path,
        ),
        search_outcome(ArchiveFormat::Conda, es, path) == Some(scan(es, path)),
{
}

} // verus!
