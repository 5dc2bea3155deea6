use volta::archive::Origin;
use volta::error::ErrorKind;
use volta::listing::DirEntry;
use volta::package::{
    calculate_shasum, find_unpack_dir, npm_pack_args, packed_tarball, progress_total,
    shasum_matches, FetchAction, FetchEvent, PackageDetails, PackageFetch,
};

fn dir(name: &str) -> DirEntry {
    DirEntry { name: name.to_string(), is_dir: true, is_file: false }
}

fn file(name: &str) -> DirEntry {
    DirEntry { name: name.to_string(), is_dir: false, is_file: true }
}

const ABC_SHA1: &str = "a9993e364706816aba3e25717850c26c9cd0d89d";

#[test]
fn calculate_shasum_known_values() {
    assert_eq!(calculate_shasum(b"abc"), ABC_SHA1);
    assert_eq!(calculate_shasum(b""), "da39a3ee5e6b4b0d3255bfef95601890afd80709");
}

#[test]
fn shasum_matches_only_the_same_contents() {
    assert!(shasum_matches(&ABC_SHA1.to_string(), b"abc"));
    assert!(!shasum_matches(&ABC_SHA1.to_string(), b"abd"));
    assert!(!shasum_matches(&ABC_SHA1.to_uppercase(), b"abc"));
    assert!(!shasum_matches(&format!("{}\n", ABC_SHA1), b"abc"));
}

#[test]
fn npm_pack_args_name_the_version() {
    assert_eq!(
        npm_pack_args("cowsay", "1.4.0"),
        vec!["pack".to_string(), "--no-update-notifier".to_string(), "cowsay@1.4.0".to_string()]
    );
}

#[test]
fn packed_tarball_trims_npm_output() {
    assert_eq!(
        packed_tarball("/home/u/.volta/tools/inventory/packages", b"cowsay-1.4.0.tgz\n"),
        "/home/u/.volta/tools/inventory/packages/cowsay-1.4.0.tgz"
    );
    assert_eq!(packed_tarball("/tmp", b"  x.tgz \r\n"), "/tmp/x.tgz");
}

#[test]
fn packed_tarball_replaces_invalid_utf8() {
    assert_eq!(packed_tarball("/tmp", b"a\xffb.tgz\n"), "/tmp/a\u{FFFD}b.tgz");
}

#[test]
fn find_unpack_dir_single_directory() {
    assert_eq!(find_unpack_dir("/tmp/stage", &vec![dir("package")]), Ok("/tmp/stage/package".to_string()));
    assert_eq!(find_unpack_dir("/tmp/stage", &vec![dir("cowsay")]), Ok("/tmp/stage/cowsay".to_string()));
}

#[test]
fn find_unpack_dir_rejects_other_shapes() {
    assert_eq!(find_unpack_dir("/t", &vec![]), Err(ErrorKind::PackageUnpackError));
    assert_eq!(find_unpack_dir("/t", &vec![file("package")]), Err(ErrorKind::PackageUnpackError));
    assert_eq!(
        find_unpack_dir("/t", &vec![dir("package"), dir("other")]),
        Err(ErrorKind::PackageUnpackError)
    );
}

#[test]
fn progress_total_prefers_uncompressed_size() {
    assert_eq!(progress_total(Some(100), 40), 100);
    assert_eq!(progress_total(None, 40), 40);
}

fn details() -> PackageDetails {
    PackageDetails {
        version: "1.4.0".to_string(),
        tarball_url: "https://registry/cowsay-1.4.0.tgz".to_string(),
        shasum: ABC_SHA1.to_string(),
    }
}

fn start() -> (PackageFetch, FetchAction) {
    PackageFetch::start(
        "cowsay",
        &details(),
        "/v/packages/cowsay-1.4.0.tgz",
        "/v/packages/cowsay-1.4.0.shasum",
        "/v/image/packages/cowsay/1.4.0",
    )
}

fn s(x: &str) -> String {
    x.to_string()
}

/// Runs the unpacking half of a fetch and returns the action after the
/// image was moved into place.
fn unpack_and_install(f: &mut PackageFetch) -> FetchAction {
    assert_eq!(f.on_event(FetchEvent::Done), FetchAction::CreateStagingDir);
    assert_eq!(f.on_event(FetchEvent::StagingDir(s("/tmp/st"))), FetchAction::Unpack { into: s("/tmp/st") });
    assert_eq!(
        f.on_event(FetchEvent::Done),
        FetchAction::EnsureContainingDir { path: s("/v/image/packages/cowsay/1.4.0") }
    );
    assert_eq!(
        f.on_event(FetchEvent::Done),
        FetchAction::EnsureDirAbsent { dir: s("/v/image/packages/cowsay/1.4.0") }
    );
    assert_eq!(f.on_event(FetchEvent::Done), FetchAction::ListDir { dir: s("/tmp/st") });
    assert_eq!(
        f.on_event(FetchEvent::Listing(vec![dir("package")])),
        FetchAction::MoveFile { from: s("/tmp/st/package"), to: s("/v/image/packages/cowsay/1.4.0") }
    );
    assert_eq!(f.on_event(FetchEvent::Done), FetchAction::RemoveStagingDir { dir: s("/tmp/st") });
    f.on_event(FetchEvent::Done)
}

#[test]
fn fetch_uses_matching_cache_and_keeps_shasum() {
    let (mut f, first) = start();
    assert_eq!(
        first,
        FetchAction::ReadCache {
            cache_file: s("/v/packages/cowsay-1.4.0.tgz"),
            shasum_file: s("/v/packages/cowsay-1.4.0.shasum")
        }
    );
    let next = f.on_event(FetchEvent::CacheRead { stored: Some(s(ABC_SHA1)), contents: Some(b"abc".to_vec()) });
    assert_eq!(next, FetchAction::LoadArchive { file: s("/v/packages/cowsay-1.4.0.tgz"), origin: Origin::Local });
    assert_eq!(unpack_and_install(&mut f), FetchAction::Finish(Ok(())));
    assert!(f.is_finished());
}

#[test]
fn fetch_packs_when_cache_changed_and_saves_shasum() {
    let (mut f, _) = start();
    let next = f.on_event(FetchEvent::CacheRead { stored: Some(s(ABC_SHA1)), contents: Some(b"abd".to_vec()) });
    assert_eq!(next, FetchAction::EnsureContainingDir { path: s("/v/packages/cowsay-1.4.0.tgz") });
    assert_eq!(
        f.on_event(FetchEvent::Done),
        FetchAction::RunNpmPack {
            args: vec![s("pack"), s("--no-update-notifier"), s("cowsay@1.4.0")],
            dir: s("/v/packages")
        }
    );
    assert_eq!(
        f.on_event(FetchEvent::NpmPackOutput { success: true, stdout: b"cowsay-1.4.0.tgz\n".to_vec() }),
        FetchAction::MoveFile { from: s("/v/packages/cowsay-1.4.0.tgz"), to: s("/v/packages/cowsay-1.4.0.tgz") }
    );
    assert_eq!(
        f.on_event(FetchEvent::Done),
        FetchAction::LoadArchive { file: s("/v/packages/cowsay-1.4.0.tgz"), origin: Origin::Local }
    );
    assert_eq!(
        unpack_and_install(&mut f),
        FetchAction::WriteShasum { file: s("/v/packages/cowsay-1.4.0.shasum"), shasum: s(ABC_SHA1) }
    );
    assert_eq!(f.on_event(FetchEvent::Done), FetchAction::Finish(Ok(())));
}

#[test]
fn fetch_without_cache_packs() {
    let (mut f, _) = start();
    let next = f.on_event(FetchEvent::CacheRead { stored: None, contents: Some(b"abc".to_vec()) });
    assert_eq!(next, FetchAction::EnsureContainingDir { path: s("/v/packages/cowsay-1.4.0.tgz") });
    let (mut g, _) = start();
    let next = g.on_event(FetchEvent::CacheRead { stored: Some(s(ABC_SHA1)), contents: None });
    assert_eq!(next, FetchAction::EnsureContainingDir { path: s("/v/packages/cowsay-1.4.0.tgz") });
}

#[test]
fn fetch_falls_back_when_cached_archive_does_not_load() {
    let (mut f, _) = start();
    f.on_event(FetchEvent::CacheRead { stored: Some(s(ABC_SHA1)), contents: Some(b"abc".to_vec()) });
    let next = f.on_event(FetchEvent::Failed(ErrorKind::Other { message: s("bad tarball") }));
    assert_eq!(next, FetchAction::EnsureContainingDir { path: s("/v/packages/cowsay-1.4.0.tgz") });
}

#[test]
fn fetch_npm_pack_failure_reports_package() {
    let (mut f, _) = start();
    f.on_event(FetchEvent::CacheRead { stored: None, contents: None });
    f.on_event(FetchEvent::Done);
    let next = f.on_event(FetchEvent::NpmPackOutput { success: false, stdout: vec![] });
    assert_eq!(
        next,
        FetchAction::Finish(Err(ErrorKind::NpmPackMetadataFetchError { package: s("cowsay@1.4.0") }))
    );
    assert!(f.is_finished());
}

#[test]
fn fetch_step_errors_carry_context() {
    let (mut f, _) = start();
    f.on_event(FetchEvent::CacheRead { stored: None, contents: None });
    let next = f.on_event(FetchEvent::Failed(ErrorKind::Other { message: s("denied") }));
    assert_eq!(
        next,
        FetchAction::Finish(Err(ErrorKind::ContainingDirError { path: s("/v/packages/cowsay-1.4.0.tgz") }))
    );

    let (mut g, _) = start();
    g.on_event(FetchEvent::CacheRead { stored: None, contents: None });
    g.on_event(FetchEvent::Done);
    g.on_event(FetchEvent::NpmPackOutput { success: true, stdout: b"x.tgz".to_vec() });
    let next = g.on_event(FetchEvent::Failed(ErrorKind::Other { message: s("rename") }));
    assert_eq!(
        next,
        FetchAction::Finish(Err(ErrorKind::SetupToolImageError {
            tool: s("cowsay"),
            version: s("1.4.0"),
            dir: s("/v/packages")
        }))
    );

    let (mut h, _) = start();
    h.on_event(FetchEvent::CacheRead { stored: None, contents: None });
    h.on_event(FetchEvent::Done);
    h.on_event(FetchEvent::NpmPackOutput { success: true, stdout: b"x.tgz".to_vec() });
    h.on_event(FetchEvent::Done);
    let next = h.on_event(FetchEvent::Failed(ErrorKind::Other { message: s("open") }));
    assert_eq!(next, FetchAction::Finish(Err(ErrorKind::PackageNotFound { package: s("cowsay") })));
}

#[test]
fn fetch_unpack_errors() {
    let (mut f, _) = start();
    f.on_event(FetchEvent::CacheRead { stored: Some(s(ABC_SHA1)), contents: Some(b"abc".to_vec()) });
    f.on_event(FetchEvent::Done);
    f.on_event(FetchEvent::StagingDir(s("/tmp/st")));
    let next = f.on_event(FetchEvent::Failed(ErrorKind::Other { message: s("corrupt") }));
    assert_eq!(next, FetchAction::RemoveStagingDir { dir: s("/tmp/st") });
    let next = f.on_event(FetchEvent::Failed(ErrorKind::Other { message: s("busy") }));
    assert_eq!(
        next,
        FetchAction::Finish(Err(ErrorKind::UnpackArchiveError { tool: s("cowsay"), version: s("1.4.0") }))
    );

    let (mut g, _) = start();
    g.on_event(FetchEvent::CacheRead { stored: Some(s(ABC_SHA1)), contents: Some(b"abc".to_vec()) });
    g.on_event(FetchEvent::Done);
    g.on_event(FetchEvent::StagingDir(s("/tmp/st")));
    g.on_event(FetchEvent::Done);
    g.on_event(FetchEvent::Done);
    g.on_event(FetchEvent::Done);
    let next = g.on_event(FetchEvent::Listing(vec![dir("a"), dir("b")]));
    assert_eq!(next, FetchAction::RemoveStagingDir { dir: s("/tmp/st") });
    assert_eq!(g.on_event(FetchEvent::Done), FetchAction::Finish(Err(ErrorKind::PackageUnpackError)));
}

#[test]
fn fetch_shasum_write_failure() {
    let (mut f, _) = start();
    f.on_event(FetchEvent::CacheRead { stored: None, contents: None });
    f.on_event(FetchEvent::Done);
    f.on_event(FetchEvent::NpmPackOutput { success: true, stdout: b"x.tgz".to_vec() });
    f.on_event(FetchEvent::Done);
    let last = unpack_and_install(&mut f);
    assert!(matches!(last, FetchAction::WriteShasum { .. }));
    let next = f.on_event(FetchEvent::Failed(ErrorKind::Other { message: s("disk full") }));
    assert_eq!(
        next,
        FetchAction::Finish(Err(ErrorKind::WritePackageShasumError {
            package: s("cowsay"),
            version: s("1.4.0"),
            file: s("/v/packages/cowsay-1.4.0.shasum")
        }))
    );
}

#[test]
fn fetch_runs_npm_pack_in_the_cache_files_directory() {
    let (mut f, _) = PackageFetch::start(
        "@scope/pkg",
        &details(),
        "/v/packages/@scope/pkg-1.4.0.tgz",
        "/v/packages/@scope/pkg-1.4.0.shasum",
        "/v/image/packages/@scope/pkg/1.4.0",
    );
    f.on_event(FetchEvent::CacheRead { stored: None, contents: None });
    assert_eq!(
        f.on_event(FetchEvent::Done),
        FetchAction::RunNpmPack {
            args: vec![s("pack"), s("--no-update-notifier"), s("@scope/pkg@1.4.0")],
            dir: s("/v/packages/@scope")
        }
    );
}

#[test]
fn error_messages_name_the_package() {
    let e = ErrorKind::UnpackArchiveError { tool: s("cowsay"), version: s("1.4.0") };
    assert!(e.message().starts_with("Could not unpack cowsay v1.4.0"));
    let e = ErrorKind::ReadDirError { dir: s("/v/tools/image/node") };
    assert!(e.message().contains("Could not read contents from directory"));
}
