//! The errors that the library reports, each with the context the user sees.

use vstd::prelude::*;

use crate::text::{concat_text, copy_string, owned};

verus! {

/// What went wrong, with the names and paths the message needs.
#[derive(Debug, PartialEq, Eq)]
pub enum ErrorKind {
    /// An executable could not be found.
    BinaryNotFound { name: String },
    /// The layout directories could not be created under `dir`.
    CreateDirError { dir: String },
    /// The file that marks a finished layout migration could not be written.
    CreateLayoutFileError { file: String },
    /// A directory listing could not be read.
    ReadDirError { dir: String },
    /// A file could not be removed.
    DeleteFileError { file: String },
    /// The checksum of a fetched package could not be saved.
    WritePackageShasumError { package: String, version: String, file: String },
    /// The directory that should hold `path` could not be created.
    ContainingDirError { path: String },
    /// `npm pack` reported a failure for `package`.
    NpmPackMetadataFetchError { package: String },
    /// A tool image could not be moved into `dir`.
    SetupToolImageError { tool: String, version: String, dir: String },
    /// A package archive could not be opened.
    PackageNotFound { package: String },
    /// A package archive could not be unpacked.
    UnpackArchiveError { tool: String, version: String },
    /// An unpacked package did not hold exactly one directory.
    PackageUnpackError,
    /// An error from outside the library, passed on as it came.
    Other { message: String },
}

/// `ErrorKind` with its text as character sequences.
pub enum ErrorView {
    BinaryNotFound { name: Seq<char> },
    CreateDirError { dir: Seq<char> },
    CreateLayoutFileError { file: Seq<char> },
    ReadDirError { dir: Seq<char> },
    DeleteFileError { file: Seq<char> },
    WritePackageShasumError { package: Seq<char>, version: Seq<char>, file: Seq<char> },
    ContainingDirError { path: Seq<char> },
    NpmPackMetadataFetchError { package: Seq<char> },
    SetupToolImageError { tool: Seq<char>, version: Seq<char>, dir: Seq<char> },
    PackageNotFound { package: Seq<char> },
    UnpackArchiveError { tool: Seq<char>, version: Seq<char> },
    PackageUnpackError,
    Other { message: Seq<char> },
}

impl View for ErrorKind {
    type V = ErrorView;

    open spec fn view(&self) -> ErrorView {
        match self {
            ErrorKind::BinaryNotFound { name } => ErrorView::BinaryNotFound { name: name@ },
            ErrorKind::CreateDirError { dir } => ErrorView::CreateDirError { dir: dir@ },
            ErrorKind::CreateLayoutFileError { file } => ErrorView::CreateLayoutFileError {
                file: file@,
            },
            ErrorKind::ReadDirError { dir } => ErrorView::ReadDirError { dir: dir@ },
            ErrorKind::DeleteFileError { file } => ErrorView::DeleteFileError { file: file@ },
            ErrorKind::WritePackageShasumError { package, version, file } =>
                ErrorView::WritePackageShasumError {
                package: package@,
                version: version@,
                file: file@,
            },
            ErrorKind::ContainingDirError { path } => ErrorView::ContainingDirError {
                path: path@,
            },
            ErrorKind::NpmPackMetadataFetchError { package } =>
                ErrorView::NpmPackMetadataFetchError { package: package@ },
            ErrorKind::SetupToolImageError { tool, version, dir } =>
                ErrorView::SetupToolImageError { tool: tool@, version: version@, dir: dir@ },
            ErrorKind::PackageNotFound { package } => ErrorView::PackageNotFound {
                package: package@,
            },
            ErrorKind::UnpackArchiveError { tool, version } => ErrorView::UnpackArchiveError {
                tool: tool@,
                version: version@,
            },
            ErrorKind::PackageUnpackError => ErrorView::PackageUnpackError,
            ErrorKind::Other { message } => ErrorView::Other { message: message@ },
        }
    }
}

/// A copy of `e`.
pub fn copy_error(e: &ErrorKind) -> (r: ErrorKind)
    ensures
        r@ == e@,
{
    match e {
        ErrorKind::BinaryNotFound { name } => ErrorKind::BinaryNotFound { name: copy_string(name) },
        ErrorKind::CreateDirError { dir } => ErrorKind::CreateDirError { dir: copy_string(dir) },
        ErrorKind::CreateLayoutFileError { file } => ErrorKind::CreateLayoutFileError {
            file: copy_string(file),
        },
        ErrorKind::ReadDirError { dir } => ErrorKind::ReadDirError { dir: copy_string(dir) },
        ErrorKind::DeleteFileError { file } => ErrorKind::DeleteFileError {
            file: copy_string(file),
        },
        ErrorKind::WritePackageShasumError { package, version, file } =>
            ErrorKind::WritePackageShasumError {
            package: copy_string(package),
            version: copy_string(version),
            file: copy_string(file),
        },
        ErrorKind::ContainingDirError { path } => ErrorKind::ContainingDirError {
            path: copy_string(path),
        },
        ErrorKind::NpmPackMetadataFetchError { package } =>
            ErrorKind::NpmPackMetadataFetchError { package: copy_string(package) },
        ErrorKind::SetupToolImageError { tool, version, dir } => ErrorKind::SetupToolImageError {
            tool: copy_string(tool),
            version: copy_string(version),
            dir: copy_string(dir),
        },
        ErrorKind::PackageNotFound { package } => ErrorKind::PackageNotFound {
            package: copy_string(package),
        },
        ErrorKind::UnpackArchiveError { tool, version } => ErrorKind::UnpackArchiveError {
            tool: copy_string(tool),
            version: copy_string(version),
        },
        ErrorKind::PackageUnpackError => ErrorKind::PackageUnpackError,
        ErrorKind::Other { message } => ErrorKind::Other { message: copy_string(message) },
    }
}

/// The message an error shows the user.
pub open spec fn error_message(e: ErrorView) -> Seq<char> {
    match e {
        ErrorView::BinaryNotFound { name } => "Could not find executable \""@
            + name
            + "\"\n\nUse `volta install` to add a package to your toolchain (see `volta help install` for more info)."@,
        ErrorView::CreateDirError { dir } => "Could not create directory "@
            + dir
            + "\n\nPlease ensure that you have the correct permissions."@,
        ErrorView::CreateLayoutFileError { file } => "Could not create layout file "@
            + file
            + "\n\nPlease ensure you have correct permissions to the Volta directory."@,
        ErrorView::ReadDirError { dir } => "Could not read contents from directory "@
            + dir
            + "\n\nPlease ensure you have correct permissions to the Volta directory."@,
        ErrorView::DeleteFileError { file } => "Could not remove file '"@
            + file
            + "'\n\nPlease ensure you have correct permissions to the Volta directory."@,
        ErrorView::WritePackageShasumError { package, version, file } => "Could not write shasum for "@
            + package
            + "-"@
            + version
            + " to "@
            + file
            + "\n\nPlease ensure you have correct permissions to the Volta directory."@,
        ErrorView::ContainingDirError { path } => "Could not create the containing directory for "@
            + path
            + "\n\nPlease ensure you have correct permissions to the Volta directory."@,
        ErrorView::NpmPackMetadataFetchError { package } => "Could not retrieve package metadata for "@
            + package
            + "\n\nPlease verify your internet connection."@,
        ErrorView::SetupToolImageError { tool, version, dir } => "Could not create environment for "@
            + tool
            + " v"@
            + version
            + "\nat "@
            + dir
            + "\n\nPlease ensure you have correct permissions to the Volta directory."@,
        ErrorView::PackageNotFound { package } => "Could not find package \""@
            + package
            + "\"\n\nPlease verify the requested package name."@,
        ErrorView::UnpackArchiveError { tool, version } => "Could not unpack "@
            + tool
            + " v"@
            + version
            + "\n\nPlease ensure the correct version is specified."@,
        ErrorView::PackageUnpackError => "Could not determine package directory layout.\n\nPlease ensure the package is correctly formatted."@,
        ErrorView::Other { message } => message,
    }
}

impl ErrorKind {
    /// The message this error shows the user.
    pub fn message(&self) -> (m: String)
        ensures
            m@ == error_message(self@),
    {
        match self {
            ErrorKind::BinaryNotFound { name } => {
                let m = concat_text("Could not find executable \"", name.as_str());
                let m = concat_text(m.as_str(), "\"\n\nUse `volta install` to add a package to your toolchain (see `volta help install` for more info).");
                m
            },
            ErrorKind::CreateDirError { dir } => {
                let m = concat_text("Could not create directory ", dir.as_str());
                let m = concat_text(m.as_str(), "\n\nPlease ensure that you have the correct permissions.");
                m
            },
            ErrorKind::CreateLayoutFileError { file } => {
                let m = concat_text("Could not create layout file ", file.as_str());
                let m = concat_text(m.as_str(), "\n\nPlease ensure you have correct permissions to the Volta directory.");
                m
            },
            ErrorKind::ReadDirError { dir } => {
                let m = concat_text("Could not read contents from directory ", dir.as_str());
                let m = concat_text(m.as_str(), "\n\nPlease ensure you have correct permissions to the Volta directory.");
                m
            },
            ErrorKind::DeleteFileError { file } => {
                let m = concat_text("Could not remove file '", file.as_str());
                let m = concat_text(m.as_str(), "'\n\nPlease ensure you have correct permissions to the Volta directory.");
                m
            },
            ErrorKind::WritePackageShasumError { package, version, file } => {
                let m = concat_text("Could not write shasum for ", package.as_str());
                let m = concat_text(m.as_str(), "-");
                let m = concat_text(m.as_str(), version.as_str());
                let m = concat_text(m.as_str(), " to ");
                let m = concat_text(m.as_str(), file.as_str());
                let m = concat_text(m.as_str(), "\n\nPlease ensure you have correct permissions to the Volta directory.");
                m
            },
            ErrorKind::ContainingDirError { path } => {
                let m = concat_text("Could not create the containing directory for ", path.as_str());
                let m = concat_text(m.as_str(), "\n\nPlease ensure you have correct permissions to the Volta directory.");
                m
            },
            ErrorKind::NpmPackMetadataFetchError { package } => {
                let m = concat_text("Could not retrieve package metadata for ", package.as_str());
                let m = concat_text(m.as_str(), "\n\nPlease verify your internet connection.");
                m
            },
            ErrorKind::SetupToolImageError { tool, version, dir } => {
                let m = concat_text("Could not create environment for ", tool.as_str());
                let m = concat_text(m.as_str(), " v");
                let m = concat_text(m.as_str(), version.as_str());
                let m = concat_text(m.as_str(), "\nat ");
                let m = concat_text(m.as_str(), dir.as_str());
                let m = concat_text(m.as_str(), "\n\nPlease ensure you have correct permissions to the Volta directory.");
                m
            },
            ErrorKind::PackageNotFound { package } => {
                let m = concat_text("Could not find package \"", package.as_str());
                let m = concat_text(m.as_str(), "\"\n\nPlease verify the requested package name.");
                m
            },
            ErrorKind::UnpackArchiveError { tool, version } => {
                let m = concat_text("Could not unpack ", tool.as_str());
                let m = concat_text(m.as_str(), " v");
                let m = concat_text(m.as_str(), version.as_str());
                let m = concat_text(m.as_str(), "\n\nPlease ensure the correct version is specified.");
                m
            },
            ErrorKind::PackageUnpackError => owned("Could not determine package directory layout.\n\nPlease ensure the package is correctly formatted."),
            ErrorKind::Other { message } => copy_string(message),
        }
    }
}

} // verus!

