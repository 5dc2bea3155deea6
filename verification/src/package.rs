//! Fetching a third-party package: reusing a cached archive whose checksum
//! still matches, or packing it with `npm pack`, then unpacking it into the
//! tool image directory.

use vstd::prelude::*;
use vstd::utf8::{decode_utf8, valid_utf8};

use sha1::{Digest, Sha1};

use crate::archive::Origin;
use crate::error::{copy_error, ErrorKind, ErrorView};
use crate::listing::{listing_view, DirEntry, DirEntryView};
use crate::text::{
    chars_of, copy_string, join_path, opt_chars, owned, parent_path, path_join, path_parent,
    string_from_chars, strings_view,
    tool_version, tool_version_text, trim_chars, trimmed,
};

verus! {

/// What the registry says of a package version.
pub struct PackageDetails {
    /// The version, as it is written (`1.4.0`).
    pub version: String,
    /// Where the tarball can be downloaded.
    pub tarball_url: String,
    /// The SHA-1 checksum of the tarball, in lower-case hex.
    pub shasum: String,
}

/// The SHA-1 digest of `data`.
pub uninterp spec fn sha1_digest(data: Seq<u8>) -> Seq<u8>;

/// Computes the SHA-1 digest of `data`.
///
/// Trusted: calls `<sha1::Sha1 as Digest>::digest`. The digest is named; the
/// one fact stated beside the name is its documented length of 20 bytes.
#[verifier::external_body]
fn sha1_of(data: &[u8]) -> (d: Vec<u8>)
    ensures
        d@ == sha1_digest(data@),
        d@.len() == 20,
{
    Sha1::digest(data).to_vec()
}

/// The lower-case hexadecimal digit for `n < 16`.
pub open spec fn hex_digit(n: int) -> char {
    if n < 10 {
        (48 + n) as char
    } else {
        (87 + n) as char
    }
}

/// `data` in lower-case hexadecimal, two digits per byte, high digit first.
pub open spec fn hex_lower(data: Seq<u8>) -> Seq<char>
    decreases data.len(),
{
    if data.len() == 0 {
        Seq::empty()
    } else {
        seq![hex_digit(data[0] as int / 16), hex_digit(data[0] as int % 16)] + hex_lower(data.drop_first())
    }
}

/// Encodes `data` as lower-case hexadecimal.
///
/// Trusted: calls `hex::encode`, documented as encoding each byte as two
/// lower-case hex digits.
#[verifier::external_body]
fn hex_encode(data: &[u8]) -> (s: String)
    ensures
        s@ == hex_lower(data@),
{
    hex::encode(data)
}

/// The checksum text of an archive's contents: its SHA-1 digest in hex.
pub open spec fn shasum_text(contents: Seq<u8>) -> Seq<char> {
    hex_lower(sha1_digest(contents))
}

/// Calculates the checksum text of `contents`.
pub fn calculate_shasum(contents: &[u8]) -> (s: String)
    ensures
        s@ == shasum_text(contents@),
{
    let digest = sha1_of(contents);
    hex_encode(digest.as_slice())
}

/// Whether a cached archive is still the one recorded: the stored checksum
/// equals the checksum of the archive's contents, exactly.
pub fn shasum_matches(stored: &String, contents: &[u8]) -> (b: bool)
    ensures
        b == (stored@ == shasum_text(contents@)),
{
    let calculated = calculate_shasum(contents);
    *stored == calculated
}

/// The arguments of `npm pack` for a package version: `pack`,
/// `--no-update-notifier` and `name@version`.
pub open spec fn npm_pack_args_view(name: Seq<char>, version: Seq<char>) -> Seq<Seq<char>> {
    seq!["pack"@, "--no-update-notifier"@, tool_version_text(name, version)]
}

/// Builds the arguments that run `npm pack` for `name` at `version`.
pub fn npm_pack_args(name: &str, version: &str) -> (args: Vec<String>)
    ensures
        strings_view(args@) == npm_pack_args_view(name@, version@),
{
    let mut args: Vec<String> = Vec::new();
    args.push(owned("pack"));
    args.push(owned("--no-update-notifier"));
    args.push(tool_version(name, version));
    assert(strings_view(args@) =~= npm_pack_args_view(name@, version@));
    args
}

/// What `String::from_utf8_lossy` makes of `bytes`.
pub uninterp spec fn utf8_lossy(bytes: Seq<u8>) -> Seq<char>;

/// Reads `bytes` as UTF-8, replacing what is not valid.
///
/// Trusted: calls `String::from_utf8_lossy`. Its result is named; beside the
/// name stands the documented fact that valid UTF-8 is decoded unchanged.
#[verifier::external_body]
fn from_utf8_lossy(bytes: &[u8]) -> (s: String)
    ensures
        s@ == utf8_lossy(bytes@),
        valid_utf8(bytes@) ==> s@ == decode_utf8(bytes@),
{
    String::from_utf8_lossy(bytes).into_owned()
}

/// Where `npm pack`, run in `dir`, left the tarball: the file it printed,
/// with surrounding white space (its trailing newline) cut, in `dir`.
pub open spec fn packed_tarball_path(dir: Seq<char>, stdout: Seq<u8>) -> Seq<char> {
    path_join(dir, trimmed(utf8_lossy(stdout)))
}

/// Finds the tarball that `npm pack` reported on `stdout`.
pub fn packed_tarball(dir: &str, stdout: &[u8]) -> (path: String)
    ensures
        path@ == packed_tarball_path(dir@, stdout@),
        valid_utf8(stdout@) ==> path@ == path_join(dir@, trimmed(decode_utf8(stdout@))),
{
    let text = from_utf8_lossy(stdout);
    let chars = chars_of(text.as_str());
    let name = string_from_chars(&trim_chars(&chars));
    join_path(dir, name.as_str())
}

/// The directory that an unpacked package extracted to, given the listing of
/// the directory it was unpacked in: the one entry, when there is exactly
/// one and it is a directory.
pub open spec fn unpack_dir_of(in_dir: Seq<char>, entries: Seq<DirEntryView>) -> Option<Seq<char>> {
    if entries.len() == 1 && entries[0].is_dir {
        Some(path_join(in_dir, entries[0].name))
    } else {
        None
    }
}

/// Figures out the unpacked package directory: packages typically extract
/// to a `package` directory, but not always. Anything other than a single
/// directory is a `PackageUnpackError`.
pub fn find_unpack_dir(in_dir: &str, entries: &Vec<DirEntry>) -> (res: Result<String, ErrorKind>)
    ensures
        match unpack_dir_of(in_dir@, listing_view(entries@)) {
            Some(d) => res matches Ok(p) && p@ == d,
            None => res matches Err(e) && e@ == ErrorView::PackageUnpackError,
        },
{
    if entries.len() == 1 && entries[0].is_dir {
        Ok(join_path(in_dir, entries[0].name.as_str()))
    } else {
        Err(ErrorKind::PackageUnpackError)
    }
}

/// The total that the unpacking progress counts to: the uncompressed size
/// where the archive knows it, else the compressed size.
pub fn progress_total(uncompressed: Option<u64>, compressed: u64) -> (total: u64)
    ensures
        total == match uncompressed {
            Some(n) => n,
            None => compressed,
        },
{
    match uncompressed {
        Some(n) => n,
        None => compressed,
    }
}

} // verus!

verus! {

/// What the caller reports after carrying out the last action.
pub enum FetchEvent {
    /// The action succeeded.
    Done,
    /// The action failed with this error.
    Failed(ErrorKind),
    /// The cached archive and its stored checksum, each absent when it could
    /// not be read.
    CacheRead { stored: Option<String>, contents: Option<Vec<u8>> },
    /// `npm pack` ran: whether it reported success, and what it printed.
    NpmPackOutput { success: bool, stdout: Vec<u8> },
    /// A fresh staging directory was created at this path.
    StagingDir(String),
    /// The listing of the directory that was asked for.
    Listing(Vec<DirEntry>),
}

/// What the caller must do next.
#[derive(Debug, PartialEq, Eq)]
pub enum FetchAction {
    /// Read the cached archive and the checksum stored beside it.
    ReadCache { cache_file: String, shasum_file: String },
    /// Open the archive at `file` and load it as a tarball from `origin`:
    /// both the cached archive and the one `npm pack` left are local files.
    LoadArchive { file: String, origin: Origin },
    /// Make sure the directory that will hold `path` exists.
    EnsureContainingDir { path: String },
    /// Run `npm` with `args` in `dir`.
    RunNpmPack { args: Vec<String>, dir: String },
    /// Rename `from` to `to`.
    MoveFile { from: String, to: String },
    /// Create a fresh staging directory.
    CreateStagingDir,
    /// Unpack the loaded archive into `into`.
    Unpack { into: String },
    /// Make sure nothing exists at `dir`.
    EnsureDirAbsent { dir: String },
    /// List the entries of `dir`.
    ListDir { dir: String },
    /// Write `shasum` to `file`.
    WriteShasum { file: String, shasum: String },
    /// Remove the staging directory `dir` and what it holds; how that goes
    /// does not matter.
    RemoveStagingDir { dir: String },
    /// The fetch is over, with this outcome.
    Finish(Result<(), ErrorKind>),
}

/// Where a fetch stands; `cached` tells whether the archive being unpacked
/// came from the cache, and `staging` is the directory it is unpacked in.
pub enum FetchPhase {
    ReadingCache,
    LoadingCached,
    PreparingCacheDir,
    Packing,
    MovingTarball,
    LoadingFetched,
    Staging { cached: bool },
    Unpacking { cached: bool, staging: String },
    PreparingImageDir { cached: bool, staging: String },
    ClearingImageDir { cached: bool, staging: String },
    ListingStaging { cached: bool, staging: String },
    InstallingImage { cached: bool, staging: String },
    RemovingStaging { cached: bool, failure: Option<ErrorKind> },
    SavingShasum,
    Finished,
}

/// The fetch of one package version into the tool image directory.
pub struct PackageFetch {
    name: String,
    version: String,
    shasum: String,
    cache_file: String,
    cache_dir: String,
    shasum_file: String,
    image_dir: String,
    phase: FetchPhase,
}

pub enum FetchEventView {
    Done,
    Failed(ErrorView),
    CacheRead { stored: Option<Seq<char>>, contents: Option<Seq<u8>> },
    NpmPackOutput { success: bool, stdout: Seq<u8> },
    StagingDir(Seq<char>),
    Listing(Seq<DirEntryView>),
}

pub enum FetchActionView {
    ReadCache { cache_file: Seq<char>, shasum_file: Seq<char> },
    LoadArchive { file: Seq<char>, origin: Origin },
    EnsureContainingDir { path: Seq<char> },
    RunNpmPack { args: Seq<Seq<char>>, dir: Seq<char> },
    MoveFile { from: Seq<char>, to: Seq<char> },
    CreateStagingDir,
    Unpack { into: Seq<char> },
    EnsureDirAbsent { dir: Seq<char> },
    ListDir { dir: Seq<char> },
    WriteShasum { file: Seq<char>, shasum: Seq<char> },
    RemoveStagingDir { dir: Seq<char> },
    Finish(Result<(), ErrorView>),
}

pub enum FetchPhaseView {
    ReadingCache,
    LoadingCached,
    PreparingCacheDir,
    Packing,
    MovingTarball,
    LoadingFetched,
    Staging { cached: bool },
    Unpacking { cached: bool, staging: Seq<char> },
    PreparingImageDir { cached: bool, staging: Seq<char> },
    ClearingImageDir { cached: bool, staging: Seq<char> },
    ListingStaging { cached: bool, staging: Seq<char> },
    InstallingImage { cached: bool, staging: Seq<char> },
    RemovingStaging { cached: bool, failure: Option<ErrorView> },
    SavingShasum,
    Finished,
}

pub struct FetchView {
    pub name: Seq<char>,
    pub version: Seq<char>,
    pub shasum: Seq<char>,
    pub cache_file: Seq<char>,
    pub cache_dir: Seq<char>,
    pub shasum_file: Seq<char>,
    pub image_dir: Seq<char>,
    pub phase: FetchPhaseView,
}

pub open spec fn opt_bytes_view(b: Option<Vec<u8>>) -> Option<Seq<u8>> {
    match b {
        Some(v) => Some(v@),
        None => None,
    }
}

impl View for FetchEvent {
    type V = FetchEventView;

    open spec fn view(&self) -> FetchEventView {
        match self {
            FetchEvent::Done => FetchEventView::Done,
            FetchEvent::Failed(e) => FetchEventView::Failed(e@),
            FetchEvent::CacheRead { stored, contents } => FetchEventView::CacheRead {
                stored: opt_chars(*stored),
                contents: opt_bytes_view(*contents),
            },
            FetchEvent::NpmPackOutput { success, stdout } => FetchEventView::NpmPackOutput {
                success: *success,
                stdout: stdout@,
            },
            FetchEvent::StagingDir(p) => FetchEventView::StagingDir(p@),
            FetchEvent::Listing(es) => FetchEventView::Listing(listing_view(es@)),
        }
    }
}

impl View for FetchAction {
    type V = FetchActionView;

    open spec fn view(&self) -> FetchActionView {
        match self {
            FetchAction::ReadCache { cache_file, shasum_file } => FetchActionView::ReadCache {
                cache_file: cache_file@,
                shasum_file: shasum_file@,
            },
            FetchAction::LoadArchive { file, origin } => FetchActionView::LoadArchive {
                file: file@,
                origin: *origin,
            },
            FetchAction::EnsureContainingDir { path } => FetchActionView::EnsureContainingDir {
                path: path@,
            },
            FetchAction::RunNpmPack { args, dir } => FetchActionView::RunNpmPack {
                args: strings_view(args@),
                dir: dir@,
            },
            FetchAction::MoveFile { from, to } => FetchActionView::MoveFile {
                from: from@,
                to: to@,
            },
            FetchAction::CreateStagingDir => FetchActionView::CreateStagingDir,
            FetchAction::Unpack { into } => FetchActionView::Unpack { into: into@ },
            FetchAction::EnsureDirAbsent { dir } => FetchActionView::EnsureDirAbsent {
                dir: dir@,
            },
            FetchAction::ListDir { dir } => FetchActionView::ListDir { dir: dir@ },
            FetchAction::WriteShasum { file, shasum } => FetchActionView::WriteShasum {
                file: file@,
                shasum: shasum@,
            },
            FetchAction::RemoveStagingDir { dir } => FetchActionView::RemoveStagingDir {
                dir: dir@,
            },
            FetchAction::Finish(r) => FetchActionView::Finish(
                match r {
                    Ok(()) => Ok(()),
                    Err(e) => Err(e@),
                },
            ),
        }
    }
}

impl View for FetchPhase {
    type V = FetchPhaseView;

    open spec fn view(&self) -> FetchPhaseView {
        match self {
            FetchPhase::ReadingCache => FetchPhaseView::ReadingCache,
            FetchPhase::LoadingCached => FetchPhaseView::LoadingCached,
            FetchPhase::PreparingCacheDir => FetchPhaseView::PreparingCacheDir,
            FetchPhase::Packing => FetchPhaseView::Packing,
            FetchPhase::MovingTarball => FetchPhaseView::MovingTarball,
            FetchPhase::LoadingFetched => FetchPhaseView::LoadingFetched,
            FetchPhase::Staging { cached } => FetchPhaseView::Staging { cached: *cached },
            FetchPhase::Unpacking { cached, staging } => FetchPhaseView::Unpacking {
                cached: *cached,
                staging: staging@,
            },
            FetchPhase::PreparingImageDir { cached, staging } =>
                FetchPhaseView::PreparingImageDir { cached: *cached, staging: staging@ },
            FetchPhase::ClearingImageDir { cached, staging } => FetchPhaseView::ClearingImageDir {
                cached: *cached,
                staging: staging@,
            },
            FetchPhase::ListingStaging { cached, staging } => FetchPhaseView::ListingStaging {
                cached: *cached,
                staging: staging@,
            },
            FetchPhase::InstallingImage { cached, staging } => FetchPhaseView::InstallingImage {
                cached: *cached,
                staging: staging@,
            },
            FetchPhase::RemovingStaging { cached, failure } => FetchPhaseView::RemovingStaging {
                cached: *cached,
                failure: match failure {
                    Some(e) => Some(e@),
                    None => None,
                },
            },
            FetchPhase::SavingShasum => FetchPhaseView::SavingShasum,
            FetchPhase::Finished => FetchPhaseView::Finished,
        }
    }
}

impl View for PackageFetch {
    type V = FetchView;

    closed spec fn view(&self) -> FetchView {
        FetchView {
            name: self.name@,
            version: self.version@,
            shasum: self.shasum@,
            cache_file: self.cache_file@,
            cache_dir: self.cache_dir@,
            shasum_file: self.shasum_file@,
            image_dir: self.image_dir@,
            phase: self.phase@,
        }
    }
}

/// Whether `e` is an answer that the phase `p` waits for.
pub open spec fn fetch_event_fits(p: FetchPhaseView, e: FetchEventView) -> bool {
    match p {
        FetchPhaseView::ReadingCache => e is CacheRead,
        FetchPhaseView::Packing => e is NpmPackOutput || e is Failed,
        FetchPhaseView::Staging { .. } => e is StagingDir || e is Failed,
        FetchPhaseView::ListingStaging { .. } => e is Listing || e is Failed,
        FetchPhaseView::Finished => false,
        _ => e is Done || e is Failed,
    }
}

/// `s` in phase `p`.
pub open spec fn with_phase(s: FetchView, p: FetchPhaseView) -> FetchView {
    FetchView { phase: p, ..s }
}

/// `s` finished with outcome `r`.
pub open spec fn fetch_finish(s: FetchView, r: Result<(), ErrorView>) -> (FetchView, FetchActionView) {
    (with_phase(s, FetchPhaseView::Finished), FetchActionView::Finish(r))
}

/// Once unpacking is over, well or not, the staging directory is removed;
/// `failure` is the error the fetch will end with, if any.
pub open spec fn remove_staging(
    s: FetchView,
    cached: bool,
    staging: Seq<char>,
    failure: Option<ErrorView>,
) -> (FetchView, FetchActionView) {
    (
        with_phase(s, FetchPhaseView::RemovingStaging { cached, failure }),
        FetchActionView::RemoveStagingDir { dir: staging },
    )
}

/// One step of a fetch: the phase it moves to and what must be done next,
/// given what the last action gave.
///
/// A cached archive is used when its stored checksum matches its contents
/// and it loads; otherwise the package is packed with `npm pack` and moved
/// into the cache. Either way it is unpacked into a staging directory and
/// the single directory it holds is moved to the image directory; the
/// staging directory is then removed, whether unpacking went well or not.
/// Only an archive that did not come from the cache has its checksum saved,
/// after that. Each failure ends the fetch with its error, given context
/// where the step has one; a failure to load the cached archive falls back
/// to packing. Events
/// that a phase does not wait for are ruled out by `fetch_event_fits`.
pub open spec fn fetch_next(s: FetchView, e: FetchEventView) -> (FetchView, FetchActionView) {
    match s.phase {
        FetchPhaseView::ReadingCache => match e {
            FetchEventView::CacheRead { stored: Some(stored), contents: Some(contents) }
                if stored == shasum_text(contents) => (
                with_phase(s, FetchPhaseView::LoadingCached),
                FetchActionView::LoadArchive { file: s.cache_file, origin: Origin::Local },
            ),
            _ => (
                with_phase(s, FetchPhaseView::PreparingCacheDir),
                FetchActionView::EnsureContainingDir { path: s.cache_file },
            ),
        },
        FetchPhaseView::LoadingCached => match e {
            FetchEventView::Done => (
                with_phase(s, FetchPhaseView::Staging { cached: true }),
                FetchActionView::CreateStagingDir,
            ),
            _ => (
                with_phase(s, FetchPhaseView::PreparingCacheDir),
                FetchActionView::EnsureContainingDir { path: s.cache_file },
            ),
        },
        FetchPhaseView::PreparingCacheDir => match e {
            FetchEventView::Done => (
                with_phase(s, FetchPhaseView::Packing),
                FetchActionView::RunNpmPack {
                    args: npm_pack_args_view(s.name, s.version),
                    dir: s.cache_dir,
                },
            ),
            _ => fetch_finish(s, Err(ErrorView::ContainingDirError { path: s.cache_file })),
        },
        FetchPhaseView::Packing => match e {
            FetchEventView::NpmPackOutput { success, stdout } => if success {
                (
                    with_phase(s, FetchPhaseView::MovingTarball),
                    FetchActionView::MoveFile {
                        from: packed_tarball_path(s.cache_dir, stdout),
                        to: s.cache_file,
                    },
                )
            } else {
                fetch_finish(
                    s,
                    Err(
                        ErrorView::NpmPackMetadataFetchError {
                            package: tool_version_text(s.name, s.version),
                        },
                    ),
                )
            },
            FetchEventView::Failed(cause) => fetch_finish(s, Err(cause)),
            _ => fetch_finish(s, Err(ErrorView::PackageUnpackError)),
        },
        FetchPhaseView::MovingTarball => match e {
            FetchEventView::Done => (
                with_phase(s, FetchPhaseView::LoadingFetched),
                FetchActionView::LoadArchive { file: s.cache_file, origin: Origin::Local },
            ),
            _ => fetch_finish(
                s,
                Err(
                    ErrorView::SetupToolImageError {
                        tool: s.name,
                        version: s.version,
                        dir: s.cache_dir,
                    },
                ),
            ),
        },
        FetchPhaseView::LoadingFetched => match e {
            FetchEventView::Done => (
                with_phase(s, FetchPhaseView::Staging { cached: false }),
                FetchActionView::CreateStagingDir,
            ),
            _ => fetch_finish(s, Err(ErrorView::PackageNotFound { package: s.name })),
        },
        FetchPhaseView::Staging { cached } => match e {
            FetchEventView::StagingDir(staging) => (
                with_phase(s, FetchPhaseView::Unpacking { cached, staging }),
                FetchActionView::Unpack { into: staging },
            ),
            FetchEventView::Failed(cause) => fetch_finish(s, Err(cause)),
            _ => fetch_finish(s, Err(ErrorView::PackageUnpackError)),
        },
        FetchPhaseView::Unpacking { cached, staging } => match e {
            FetchEventView::Done => (
                with_phase(s, FetchPhaseView::PreparingImageDir { cached, staging }),
                FetchActionView::EnsureContainingDir { path: s.image_dir },
            ),
            _ => remove_staging(
                s,
                cached,
                staging,
                Some(ErrorView::UnpackArchiveError { tool: s.name, version: s.version }),
            ),
        },
        FetchPhaseView::PreparingImageDir { cached, staging } => match e {
            FetchEventView::Done => (
                with_phase(s, FetchPhaseView::ClearingImageDir { cached, staging }),
                FetchActionView::EnsureDirAbsent { dir: s.image_dir },
            ),
            _ => remove_staging(
                s,
                cached,
                staging,
                Some(ErrorView::ContainingDirError { path: s.image_dir }),
            ),
        },
        FetchPhaseView::ClearingImageDir { cached, staging } => match e {
            FetchEventView::Done => (
                with_phase(s, FetchPhaseView::ListingStaging { cached, staging }),
                FetchActionView::ListDir { dir: staging },
            ),
            FetchEventView::Failed(cause) => remove_staging(s, cached, staging, Some(cause)),
            _ => remove_staging(s, cached, staging, Some(ErrorView::PackageUnpackError)),
        },
        FetchPhaseView::ListingStaging { cached, staging } => match e {
            FetchEventView::Listing(entries) => match unpack_dir_of(staging, entries) {
                Some(dir) => (
                    with_phase(s, FetchPhaseView::InstallingImage { cached, staging }),
                    FetchActionView::MoveFile { from: dir, to: s.image_dir },
                ),
                None => remove_staging(s, cached, staging, Some(ErrorView::PackageUnpackError)),
            },
            _ => remove_staging(s, cached, staging, Some(ErrorView::PackageUnpackError)),
        },
        FetchPhaseView::InstallingImage { cached, staging } => match e {
            FetchEventView::Done => remove_staging(s, cached, staging, None),
            _ => remove_staging(
                s,
                cached,
                staging,
                Some(
                    ErrorView::SetupToolImageError {
                        tool: s.name,
                        version: s.version,
                        dir: s.image_dir,
                    },
                ),
            ),
        },
        FetchPhaseView::RemovingStaging { cached, failure } => match failure {
            Some(err) => fetch_finish(s, Err(err)),
            None => if cached {
                fetch_finish(s, Ok(()))
            } else {
                (
                    with_phase(s, FetchPhaseView::SavingShasum),
                    FetchActionView::WriteShasum { file: s.shasum_file, shasum: s.shasum },
                )
            },
        },
        FetchPhaseView::SavingShasum => match e {
            FetchEventView::Done => fetch_finish(s, Ok(())),
            _ => fetch_finish(
                s,
                Err(
                    ErrorView::WritePackageShasumError {
                        package: s.name,
                        version: s.version,
                        file: s.shasum_file,
                    },
                ),
            ),
        },
        FetchPhaseView::Finished => (s, FetchActionView::Finish(Ok(()))),
    }
}

} // verus!

verus! {

impl PackageFetch {
    /// Starts fetching `name` as `details` describe it. `cache_file` is where
    /// the archive is cached, `shasum_file` where its checksum is stored, and
    /// `image_dir` where the unpacked package goes; `npm pack` runs in the
    /// directory that holds `cache_file`, which must have a parent. The first
    /// thing to do is to read the cache.
    pub fn start(
        name: &str,
        details: &PackageDetails,
        cache_file: &str,
        shasum_file: &str,
        image_dir: &str,
    ) -> (r: (PackageFetch, FetchAction))
        requires
            path_parent(cache_file@) is Some,
        ensures
            r.0@ == (FetchView {
                name: name@,
                version: details.version@,
                shasum: details.shasum@,
                cache_file: cache_file@,
                cache_dir: path_parent(cache_file@)->0,
                shasum_file: shasum_file@,
                image_dir: image_dir@,
                phase: FetchPhaseView::ReadingCache,
            }),
            r.1@ == (FetchActionView::ReadCache {
                cache_file: cache_file@,
                shasum_file: shasum_file@,
            }),
    {
        let cache_dir = match parent_path(cache_file) {
            Some(dir) => dir,
            None => String::new(),
        };
        let fetch = PackageFetch {
            name: owned(name),
            version: copy_string(&details.version),
            shasum: copy_string(&details.shasum),
            cache_file: owned(cache_file),
            cache_dir,
            shasum_file: owned(shasum_file),
            image_dir: owned(image_dir),
            phase: FetchPhase::ReadingCache,
        };
        let action = FetchAction::ReadCache {
            cache_file: owned(cache_file),
            shasum_file: owned(shasum_file),
        };
        (fetch, action)
    }

    /// Whether the fetch is over.
    pub fn is_finished(&self) -> (b: bool)
        ensures
            b == (self@.phase is Finished),
    {
        match self.phase {
            FetchPhase::Finished => true,
            _ => false,
        }
    }

    fn finish(&mut self, outcome: Result<(), ErrorKind>) -> (a: FetchAction)
        ensures
            final(self)@ == with_phase(old(self)@, FetchPhaseView::Finished),
            a@ == FetchActionView::Finish(
                match outcome {
                    Ok(()) => Ok(()),
                    Err(e) => Err(e@),
                },
            ),
    {
        self.phase = FetchPhase::Finished;
        FetchAction::Finish(outcome)
    }

    fn remove_staging(&mut self, cached: bool, staging: String, failure: Option<ErrorKind>) -> (a:
        FetchAction)
        ensures
            (final(self)@, a@) == remove_staging(
                old(self)@,
                cached,
                staging@,
                match failure {
                    Some(e) => Some(e@),
                    None => None,
                },
            ),
    {
        let dir = copy_string(&staging);
        self.phase = FetchPhase::RemovingStaging { cached, failure };
        FetchAction::RemoveStagingDir { dir }
    }

    /// Takes what the last action gave and says what to do next.
    pub fn on_event(&mut self, event: FetchEvent) -> (a: FetchAction)
        requires
            fetch_event_fits(old(self)@.phase, event@),
        ensures
            (final(self)@, a@) == fetch_next(old(self)@, event@),
            old(self)@.phase is Packing ==> (event@ matches FetchEventView::NpmPackOutput {
                success,
                stdout,
            } ==> (success && valid_utf8(stdout) ==> a@ == (FetchActionView::MoveFile {
                from: path_join(old(self)@.cache_dir, trimmed(decode_utf8(stdout))),
                to: old(self)@.cache_file,
            }))),
    {
        match &self.phase {
            FetchPhase::ReadingCache => {
                let usable = match &event {
                    FetchEvent::CacheRead { stored: Some(stored), contents: Some(contents) } =>
                        shasum_matches(stored, contents.as_slice()),
                    _ => false,
                };
                if usable {
                    self.phase = FetchPhase::LoadingCached;
                    FetchAction::LoadArchive {
                        file: copy_string(&self.cache_file),
                        origin: Origin::Local,
                    }
                } else {
                    self.phase = FetchPhase::PreparingCacheDir;
                    FetchAction::EnsureContainingDir { path: copy_string(&self.cache_file) }
                }
            },
            FetchPhase::LoadingCached => match event {
                FetchEvent::Done => {
                    self.phase = FetchPhase::Staging { cached: true };
                    FetchAction::CreateStagingDir
                },
                _ => {
                    self.phase = FetchPhase::PreparingCacheDir;
                    FetchAction::EnsureContainingDir { path: copy_string(&self.cache_file) }
                },
            },
            FetchPhase::PreparingCacheDir => match event {
                FetchEvent::Done => {
                    self.phase = FetchPhase::Packing;
                    FetchAction::RunNpmPack {
                        args: npm_pack_args(self.name.as_str(), self.version.as_str()),
                        dir: copy_string(&self.cache_dir),
                    }
                },
                _ => {
                    let path = copy_string(&self.cache_file);
                    self.finish(Err(ErrorKind::ContainingDirError { path }))
                },
            },
            FetchPhase::Packing => match event {
                FetchEvent::NpmPackOutput { success, stdout } => {
                    if success {
                        let from = packed_tarball(self.cache_dir.as_str(), stdout.as_slice());
                        self.phase = FetchPhase::MovingTarball;
                        FetchAction::MoveFile { from, to: copy_string(&self.cache_file) }
                    } else {
                        let package = tool_version(self.name.as_str(), self.version.as_str());
                        self.finish(Err(ErrorKind::NpmPackMetadataFetchError { package }))
                    }
                },
                FetchEvent::Failed(cause) => self.finish(Err(cause)),
                _ => self.finish(Err(ErrorKind::PackageUnpackError)),
            },
            FetchPhase::MovingTarball => match event {
                FetchEvent::Done => {
                    self.phase = FetchPhase::LoadingFetched;
                    FetchAction::LoadArchive {
                        file: copy_string(&self.cache_file),
                        origin: Origin::Local,
                    }
                },
                _ => {
                    let tool = copy_string(&self.name);
                    let version = copy_string(&self.version);
                    let dir = copy_string(&self.cache_dir);
                    self.finish(Err(ErrorKind::SetupToolImageError { tool, version, dir }))
                },
            },
            FetchPhase::LoadingFetched => match event {
                FetchEvent::Done => {
                    self.phase = FetchPhase::Staging { cached: false };
                    FetchAction::CreateStagingDir
                },
                _ => {
                    let package = copy_string(&self.name);
                    self.finish(Err(ErrorKind::PackageNotFound { package }))
                },
            },
            FetchPhase::Staging { cached } => {
                let cached = *cached;
                match event {
                    FetchEvent::StagingDir(staging) => {
                        let into = copy_string(&staging);
                        self.phase = FetchPhase::Unpacking { cached, staging };
                        FetchAction::Unpack { into }
                    },
                    FetchEvent::Failed(cause) => self.finish(Err(cause)),
                    _ => self.finish(Err(ErrorKind::PackageUnpackError)),
                }
            },
            FetchPhase::Unpacking { cached, staging } => {
                let cached = *cached;
                let staging = copy_string(staging);
                match event {
                    FetchEvent::Done => {
                        self.phase = FetchPhase::PreparingImageDir { cached, staging };
                        FetchAction::EnsureContainingDir { path: copy_string(&self.image_dir) }
                    },
                    _ => {
                        let tool = copy_string(&self.name);
                        let version = copy_string(&self.version);
                        self.remove_staging(
                            cached,
                            staging,
                            Some(ErrorKind::UnpackArchiveError { tool, version }),
                        )
                    },
                }
            },
            FetchPhase::PreparingImageDir { cached, staging } => {
                let cached = *cached;
                let staging = copy_string(staging);
                match event {
                    FetchEvent::Done => {
                        self.phase = FetchPhase::ClearingImageDir { cached, staging };
                        FetchAction::EnsureDirAbsent { dir: copy_string(&self.image_dir) }
                    },
                    _ => {
                        let path = copy_string(&self.image_dir);
                        self.remove_staging(
                            cached,
                            staging,
                            Some(ErrorKind::ContainingDirError { path }),
                        )
                    },
                }
            },
            FetchPhase::ClearingImageDir { cached, staging } => {
                let cached = *cached;
                let staging = copy_string(staging);
                match event {
                    FetchEvent::Done => {
                        let dir = copy_string(&staging);
                        self.phase = FetchPhase::ListingStaging { cached, staging };
                        FetchAction::ListDir { dir }
                    },
                    FetchEvent::Failed(cause) => self.remove_staging(cached, staging, Some(cause)),
                    _ => self.remove_staging(cached, staging, Some(ErrorKind::PackageUnpackError)),
                }
            },
            FetchPhase::ListingStaging { cached, staging } => {
                let cached = *cached;
                let staging = copy_string(staging);
                match event {
                    FetchEvent::Listing(entries) => match find_unpack_dir(
                        staging.as_str(),
                        &entries,
                    ) {
                        Ok(dir) => {
                            self.phase = FetchPhase::InstallingImage { cached, staging };
                            FetchAction::MoveFile { from: dir, to: copy_string(&self.image_dir) }
                        },
                        Err(e) => self.remove_staging(cached, staging, Some(e)),
                    },
                    _ => self.remove_staging(cached, staging, Some(ErrorKind::PackageUnpackError)),
                }
            },
            FetchPhase::InstallingImage { cached, staging } => {
                let cached = *cached;
                let staging = copy_string(staging);
                match event {
                    FetchEvent::Done => self.remove_staging(cached, staging, None),
                    _ => {
                        let tool = copy_string(&self.name);
                        let version = copy_string(&self.version);
                        let dir = copy_string(&self.image_dir);
                        self.remove_staging(
                            cached,
                            staging,
                            Some(ErrorKind::SetupToolImageError { tool, version, dir }),
                        )
                    },
                }
            },
            FetchPhase::RemovingStaging { cached, failure } => {
                let cached = *cached;
                match failure {
                    Some(err) => {
                        let err = copy_error(err);
                        self.finish(Err(err))
                    },
                    None => {
                        if cached {
                            self.finish(Ok(()))
                        } else {
                            self.phase = FetchPhase::SavingShasum;
                            FetchAction::WriteShasum {
                                file: copy_string(&self.shasum_file),
                                shasum: copy_string(&self.shasum),
                            }
                        }
                    },
                }
            },
            FetchPhase::SavingShasum => match event {
                FetchEvent::Done => self.finish(Ok(())),
                _ => {
                    let package = copy_string(&self.name);
                    let version = copy_string(&self.version);
                    let file = copy_string(&self.shasum_file);
                    self.finish(Err(ErrorKind::WritePackageShasumError { package, version, file }))
                },
            },
            FetchPhase::Finished => FetchAction::Finish(Ok(())),
        }
    }
}

} // verus!

verus! {

/// `name` names a file relative to the directory it is joined onto.
pub open spec fn relative_name(name: Seq<char>) -> bool {
    name.len() == 0 || name[0] != '/'
}

/// Joining relative names onto one directory keeps them apart.
proof fn lemma_join_relative_injective(dir: Seq<char>, a: Seq<char>, b: Seq<char>)
    requires
        relative_name(a),
        relative_name(b),
        path_join(dir, a) == path_join(dir, b),
    ensures
        a == b,
{
    let pa = path_join(dir, a);
    let n: int = if dir.len() == 0 {
        0
    } else if dir.last() == '/' {
        dir.len() as int
    } else {
        dir.len() + 1int
    };
    assert(pa.subrange(n, pa.len() as int) =~= a);
    assert(path_join(dir, b).subrange(n, path_join(dir, b).len() as int) =~= b);
}

/// Law: once `npm pack` has succeeded, the tarball it reported (its output
/// read as text, with the white space around it cut), taken in the
/// directory it ran in, is moved onto the cache file, and the fetch waits
/// for that move. Two reports that name different relative files move
/// different files.
pub proof fn lemma_packed_tarball_moved_to_cache(s: FetchView, out1: Seq<u8>, out2: Seq<u8>)
    requires
        s.phase is Packing,
    ensures
        fetch_next(s, FetchEventView::NpmPackOutput { success: true, stdout: out1 }) == (
        with_phase(s, FetchPhaseView::MovingTarball),
        FetchActionView::MoveFile {
            from: path_join(s.cache_dir, trimmed(utf8_lossy(out1))),
            to: s.cache_file,
        },
    ),
        relative_name(trimmed(utf8_lossy(out1))) && relative_name(trimmed(utf8_lossy(out2)))
            && trimmed(utf8_lossy(out1)) != trimmed(utf8_lossy(out2)) ==> fetch_next(
            s,
            FetchEventView::NpmPackOutput { success: true, stdout: out1 },
        ).1 != fetch_next(s, FetchEventView::NpmPackOutput { success: true, stdout: out2 }).1,
{
    let t1 = trimmed(utf8_lossy(out1));
    let t2 = trimmed(utf8_lossy(out2));
    if relative_name(t1) && relative_name(t2) && t1 != t2 {
        if path_join(s.cache_dir, t1) == path_join(s.cache_dir, t2) {
            lemma_join_relative_injective(s.cache_dir, t1, t2);
        }
    }
}

/// Whether the archive in phase `p` came from the cache, where `p` says.
pub open spec fn cached_of(p: FetchPhaseView) -> Option<bool> {
    match p {
        FetchPhaseView::Staging { cached } => Some(cached),
        FetchPhaseView::Unpacking { cached, .. } => Some(cached),
        FetchPhaseView::PreparingImageDir { cached, .. } => Some(cached),
        FetchPhaseView::ClearingImageDir { cached, .. } => Some(cached),
        FetchPhaseView::ListingStaging { cached, .. } => Some(cached),
        FetchPhaseView::InstallingImage { cached, .. } => Some(cached),
        FetchPhaseView::RemovingStaging { cached, .. } => Some(cached),
        _ => None,
    }
}

/// Law: the checksum is saved only for an archive that did not come from
/// the cache, and only once its image is in place: the step that asks for
/// it is the success of installing an image fetched with `npm pack`, and it
/// writes the package's checksum to the checksum file. An archive counts as
/// cached only after the cached one loaded, and as fetched only after the
/// packed one loaded; no other step changes which it is.
pub proof fn lemma_shasum_saved_only_for_fetched(s: FetchView, e: FetchEventView)
    ensures
        fetch_next(s, e).1 is WriteShasum ==> {
            &&& s.phase == FetchPhaseView::RemovingStaging { cached: false, failure: None }
            &&& fetch_next(s, e).1 == FetchActionView::WriteShasum {
                file: s.shasum_file,
                shasum: s.shasum,
            }
        },
        cached_of(fetch_next(s, e).0.phase) == Some(true) ==> cached_of(s.phase) == Some(true)
            || (s.phase is LoadingCached && e is Done),
        cached_of(fetch_next(s, e).0.phase) == Some(false) ==> cached_of(s.phase) == Some(false)
            || (s.phase is LoadingFetched && e is Done),
{
}

/// Law: the cache decides by checksum. A cached archive whose stored
/// checksum equals the checksum of its contents is loaded from the cache;
/// one that is missing, unreadable or changed is packed anew.
pub proof fn lemma_cache_checked_by_shasum(
    s: FetchView,
    stored: Option<Seq<char>>,
    contents: Option<Seq<u8>>,
)
    requires
        s.phase is ReadingCache,
    ensures
        ({
            let (t, a) = fetch_next(s, FetchEventView::CacheRead { stored, contents });
            if stored is Some && contents is Some && stored->0 == shasum_text(contents->0) {
                t.phase is LoadingCached && a == FetchActionView::LoadArchive {
                    file: s.cache_file,
                    origin: Origin::Local,
                }
            } else {
                t.phase is PreparingCacheDir && a == FetchActionView::EnsureContainingDir {
                    path: s.cache_file,
                }
            }
        }),
{
}

/// The staging directory that phase `p` holds, if it holds one.
pub open spec fn staging_of(p: FetchPhaseView) -> Option<Seq<char>> {
    match p {
        FetchPhaseView::Unpacking { staging, .. } => Some(staging),
        FetchPhaseView::PreparingImageDir { staging, .. } => Some(staging),
        FetchPhaseView::ClearingImageDir { staging, .. } => Some(staging),
        FetchPhaseView::ListingStaging { staging, .. } => Some(staging),
        FetchPhaseView::InstallingImage { staging, .. } => Some(staging),
        _ => None,
    }
}

/// Law: a failed step ends the fetch with an error. Where a staging
/// directory exists it is removed first, and the fetch then ends with the
/// error of the failed step; a cached archive that fails to load is packed
/// anew instead, and a failed removal of the staging directory is ignored.
pub proof fn lemma_failure_ends_fetch(s: FetchView, cause: ErrorView)
    requires
        fetch_event_fits(s.phase, FetchEventView::Failed(cause)),
        !(s.phase is LoadingCached),
        !(s.phase matches FetchPhaseView::RemovingStaging { failure: None, .. }),
    ensures
        ({
            let (t, a) = fetch_next(s, FetchEventView::Failed(cause));
            match staging_of(s.phase) {
                Some(d) => t.phase matches FetchPhaseView::RemovingStaging {
                    failure: Some(_),
                    ..
                } && a == FetchActionView::RemoveStagingDir { dir: d },
                None => t.phase is Finished && a matches FetchActionView::Finish(Err(_)),
            }
        }),
        s.phase matches FetchPhaseView::RemovingStaging { failure: Some(err), .. } ==> fetch_next(
            s,
            FetchEventView::Failed(cause),
        ).1 == FetchActionView::Finish(Err(err)),
{
}

/// Law: the staging directory is removed whatever happens once it exists.
/// A fetch holds the same staging directory from its creation until it
/// leaves the phases that use it, and it leaves them only by removing that
/// directory; the removal is the only way into the phase that ends it.
pub proof fn lemma_staging_removed(s: FetchView, e: FetchEventView)
    requires
        fetch_event_fits(s.phase, e),
    ensures
        ({
            let (t, a) = fetch_next(s, e);
            &&& staging_of(s.phase) matches Some(d) ==> match staging_of(t.phase) {
                Some(d2) => d2 == d,
                None => t.phase is RemovingStaging && a == FetchActionView::RemoveStagingDir {
                    dir: d,
                },
            }
            &&& (staging_of(s.phase) is None && staging_of(t.phase) is Some) ==> (s.phase is Staging
                && e == FetchEventView::StagingDir(staging_of(t.phase)->0))
            &&& t.phase is RemovingStaging && !(s.phase is RemovingStaging) ==> staging_of(
                s.phase,
            ) is Some
        }),
{
}

/// The actions a fetch asks for, from `s` on, when the caller answers with
/// `events`, up to the first answer that does not fit.
pub open spec fn fetch_run(s: FetchView, events: Seq<FetchEventView>) -> Seq<FetchActionView>
    decreases events.len(),
{
    if events.len() == 0 || !fetch_event_fits(s.phase, events[0]) {
        Seq::empty()
    } else {
        seq![fetch_next(s, events[0]).1] + fetch_run(fetch_next(s, events[0]).0, events.drop_first())
    }
}

/// A phase reached by using the cached archive.
pub open spec fn on_cached_path(p: FetchPhaseView) -> bool {
    ||| p == FetchPhaseView::Finished
    ||| cached_of(p) == Some(true)
}

/// An action that leaves the cache and its checksum as they are: it runs no
/// `npm pack`, writes no checksum, and moves only into the image directory.
pub open spec fn keeps_cache(a: FetchActionView, image_dir: Seq<char>) -> bool {
    &&& !(a is RunNpmPack)
    &&& !(a is WriteShasum)
    &&& a matches FetchActionView::MoveFile { to, .. } ==> to == image_dir
}

/// Once the cached archive is in use, every action keeps the cache.
pub proof fn lemma_cached_run_keeps_cache(s: FetchView, events: Seq<FetchEventView>)
    requires
        on_cached_path(s.phase),
    ensures
        forall|i: int|
            0 <= i < fetch_run(s, events).len() ==> keeps_cache(
                #[trigger] fetch_run(s, events)[i],
                s.image_dir,
            ),
    decreases events.len(),
{
    if events.len() > 0 && fetch_event_fits(s.phase, events[0]) {
        let (t, a) = fetch_next(s, events[0]);
        assert(on_cached_path(t.phase));
        assert(t.image_dir == s.image_dir);
        lemma_cached_run_keeps_cache(t, events.drop_first());
        let run = fetch_run(s, events);
        assert forall|i: int| 0 <= i < run.len() implies keeps_cache(
            #[trigger] run[i],
            s.image_dir,
        ) by {
            if i > 0 {
                assert(run[i] == fetch_run(t, events.drop_first())[i - 1]);
            }
        }
    }
}

/// Law: a fetch whose cache is intact (the archive's contents match the
/// stored checksum, and the archive loads) runs no `npm pack`, leaves the
/// cached archive and its checksum as they are, and moves nothing but the
/// unpacked package into the image directory, whatever follows.
pub proof fn lemma_intact_cache_runs_no_npm_pack(
    s: FetchView,
    contents: Seq<u8>,
    rest: Seq<FetchEventView>,
)
    requires
        s.phase is ReadingCache,
    ensures
        ({
            let events = seq![
                FetchEventView::CacheRead {
                    stored: Some(shasum_text(contents)),
                    contents: Some(contents),
                },
                FetchEventView::Done,
            ] + rest;
            let run = fetch_run(s, events);
            &&& run.len() >= 2
            &&& run[0] == FetchActionView::LoadArchive { file: s.cache_file, origin: Origin::Local }
            &&& forall|i: int| 0 <= i < run.len() ==> keeps_cache(#[trigger] run[i], s.image_dir)
        }),
{
    let e0 = FetchEventView::CacheRead {
        stored: Some(shasum_text(contents)),
        contents: Some(contents),
    };
    let events = seq![e0, FetchEventView::Done] + rest;
    let (t1, a1) = fetch_next(s, e0);
    let (t2, a2) = fetch_next(t1, FetchEventView::Done);
    assert(events[0] == e0);
    assert(events.drop_first()[0] == FetchEventView::Done);
    assert(events.drop_first().drop_first() =~= rest);
    lemma_cached_run_keeps_cache(t2, rest);
    let run = fetch_run(s, events);
    let run1 = fetch_run(t1, events.drop_first());
    assert(run == seq![a1] + run1);
    assert(run1 == seq![a2] + fetch_run(t2, rest));
    assert forall|i: int| 0 <= i < run.len() implies keeps_cache(#[trigger] run[i], s.image_dir) by {
        if i >= 2 {
            assert(run[i] == fetch_run(t2, rest)[i - 2]);
        } else if i == 1 {
            assert(run[1] == a2);
        }
    }
}

} // verus!
