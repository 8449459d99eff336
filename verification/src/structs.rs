//! The game's manifests as data: the list of versions and the description
//! of one version.

use vstd::prelude::*;

verus! {

/// An argument of the game or of the runtime: a plain one, or one that
/// holds under rules.
#[derive(Debug)]
pub enum Args {
    Simple(String),
    ComplexArgs,
}

/// An argument that holds under rules, with its values.
#[derive(Debug)]
pub struct ComplexArgs {
    pub rules: Vec<Rules>,
    pub value: Vec<String>,
}

/// A rule: what to do, and for which features and system.
#[derive(Debug)]
pub struct Rules {
    pub action: String,
    pub features: Option<RulesFutures>,
    pub os: Option<RulesOS>,
}

/// The features that a rule asks for.
#[derive(Debug)]
pub struct RulesFutures {
}

/// The system that a rule asks for.
#[derive(Debug)]
pub struct RulesOS {
    pub name: String,
    pub arch: String,
}

/// A file of a version, with where and how large it is.
#[derive(Debug)]
pub struct FileIndex {
    pub id: Option<String>,
    pub sha1: Option<String>,
    pub path: Option<String>,
    pub size: Option<i32>,
    pub totalsize: Option<i32>,
    pub url: Option<String>,
}

/// The list of versions.
#[derive(Debug)]
pub struct ManifestVersion {
    pub latest: LatestVersion,
    pub versions: VersionEntry,
}

/// The newest versions by kind.
#[derive(Debug)]
pub struct LatestVersion {
    pub release: String,
    pub snapshot: String,
}

/// One version in the list.
#[derive(Debug)]
pub struct VersionEntry {
    pub id: String,
    pub version_type: String,
    pub url: String,
    pub time: String,
    pub release_time: String,
    pub sha1: String,
    pub compliance_level: i32,
}

/// The description of one version.
#[derive(Debug)]
pub struct VersionManifest {
    pub arguments: Arguments,
    pub assetindex: AssetIndex,
}

/// The arguments of a version, for the game and for the runtime.
#[derive(Debug)]
pub struct Arguments {
    pub game: Args,
    pub jvm: Args,
}

/// The index of a version's assets.
#[derive(Debug)]
pub struct AssetIndex {
}

/// The address of the list of versions.
pub const MANIFEST_URL: &'static str =
    "https://piston-meta.mojang.com/mc/game/version_manifest_v2.json";

} // verus!
