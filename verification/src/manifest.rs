//! The project manifest (`package.json`): the toolchain it asks for and its
//! dependencies.

use vstd::prelude::*;

use semver::VersionReq;
use std::collections::HashMap;

verus! {

/// A semantic-version requirement of the `semver` crate; opaque to the
/// verifier, carried through as it was parsed.
#[verifier::external_type_specification]
#[verifier::external_body]
pub struct ExVersionReq(semver::VersionReq);

/// What `VersionReq::parse` makes of `text`: the requirement, or none when
/// the text is not a valid requirement.
pub uninterp spec fn version_req_parse(text: Seq<char>) -> Option<VersionReq>;

/// Parses a version requirement such as `^10.2` or `>=1.0, <2.0`.
///
/// Trusted: calls `semver::VersionReq::parse`. Its grammar takes pages, so
/// its result is named: it depends on the text alone.
#[verifier::external_body]
fn parse_version_req(text: &str) -> (req: Option<VersionReq>)
    ensures
        req == version_req_parse(text@),
{
    match VersionReq::parse(text) {
        Ok(req) => Some(req),
        Err(_) => None,
    }
}

/// The toolchain section of a manifest as written: the requested Node
/// version under `notion.node` and, optionally, Yarn under `notion.yarn`.
pub struct RawToolchain {
    pub node: String,
    pub yarn: Option<String>,
}

/// A manifest as read from `package.json`, before its versions are parsed.
pub struct RawManifest {
    pub notion: Option<RawToolchain>,
    pub dependencies: HashMap<String, String>,
}

/// A Node manifest file.
#[derive(Debug)]
pub struct Manifest {
    /// The requested version of Node, under the `notion.node` key.
    pub node: VersionReq,
    /// The requested version of Yarn, under the `notion.yarn` key.
    pub yarn: Option<VersionReq>,
    /// The `dependencies` section.
    pub dependencies: HashMap<String, String>,
}

/// Why a manifest could not be read.
#[derive(Debug, PartialEq, Eq)]
pub enum ManifestError {
    /// A requested version is not a valid version requirement.
    InvalidVersionRequirement { text: String },
}

/// The requested Yarn version, parsed: `Some(Some(req))` when it parses,
/// `Some(None)` when none is requested, and `None` when it does not parse.
pub open spec fn parsed_yarn(yarn: Option<String>) -> Option<Option<VersionReq>> {
    match yarn {
        None => Some(None),
        Some(y) => match version_req_parse(y@) {
            Some(r) => Some(Some(r)),
            None => None,
        },
    }
}

impl RawManifest {
    /// The manifest that `self` describes: none when it has no toolchain
    /// section; an error naming the first requested version (Node, then
    /// Yarn) that does not parse; otherwise the parsed versions with the
    /// dependencies unchanged.
    pub fn into_manifest(self) -> (res: Result<Option<Manifest>, ManifestError>)
        ensures
            match self.notion {
                None => res matches Ok(None),
                Some(t) => match version_req_parse(t.node@) {
                    None => res matches Err(ManifestError::InvalidVersionRequirement { text })
                        && text@ == t.node@,
                    Some(node) => match parsed_yarn(t.yarn) {
                        None => res matches Err(
                            ManifestError::InvalidVersionRequirement { text },
                        ) && t.yarn matches Some(y) && text@ == y@,
                        Some(yarn) => res matches Ok(Some(m)) && m.node == node && m.yarn
                            == yarn && m.dependencies == self.dependencies,
                    },
                },
            },
    {
        match self.notion {
            None => Ok(None),
            Some(toolchain) => {
                let node = match parse_version_req(toolchain.node.as_str()) {
                    Some(req) => req,
                    None => {
                        return Err(
                            ManifestError::InvalidVersionRequirement { text: toolchain.node },
                        );
                    },
                };
                let yarn = match toolchain.yarn {
                    None => None,
                    Some(y) => match parse_version_req(y.as_str()) {
                        Some(req) => Some(req),
                        None => {
                            return Err(ManifestError::InvalidVersionRequirement { text: y });
                        },
                    },
                };
                Ok(Some(Manifest { node, yarn, dependencies: self.dependencies }))
            },
        }
    }
}

} // verus!
