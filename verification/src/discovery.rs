//! Project discovery: classifying a directory by the configuration files
//! it holds, and the icon shown for each kind.
//!
//! The caller walks the filesystem and reports which marker files exist;
//! the classification itself is decided here.

use vstd::prelude::*;

verus! {

/// A detected project kind, decided from configuration files.
#[derive(Clone, Copy, Debug, PartialEq, Eq, Structural)]
pub enum ProjectType {
    Node,
    Rust,
    Python,
    Go,
    Unknown,
}

/// A project found while scanning the projects folder.
pub struct DiscoveredProject {
    pub id: String,
    pub path: String,
    pub name: String,
    pub project_type: ProjectType,
    pub has_git: bool,
    pub last_modified: i64,
    pub discovered_at: i64,
}

/// Which marker files a scanned directory holds.
pub struct ProjectMarkers {
    pub has_package_json: bool,
    pub has_cargo_toml: bool,
    pub has_pyproject_toml: bool,
    pub has_setup_py: bool,
    pub has_requirements_txt: bool,
    pub has_go_mod: bool,
}

/// The kind that a directory with the given markers is classified as:
/// Node first, then Rust, then Python (any of its three markers), then
/// Go, else unknown.
pub open spec fn spec_project_type(m: ProjectMarkers) -> ProjectType {
    if m.has_package_json {
        ProjectType::Node
    } else if m.has_cargo_toml {
        ProjectType::Rust
    } else if m.has_pyproject_toml || m.has_setup_py || m.has_requirements_txt {
        ProjectType::Python
    } else if m.has_go_mod {
        ProjectType::Go
    } else {
        ProjectType::Unknown
    }
}

/// Classify a directory by its marker files.
pub fn detect_project_type(markers: &ProjectMarkers) -> (t: ProjectType)
    ensures
        t == spec_project_type(*markers),
{
    if markers.has_package_json {
        ProjectType::Node
    } else if markers.has_cargo_toml {
        ProjectType::Rust
    } else if markers.has_pyproject_toml || markers.has_setup_py || markers.has_requirements_txt {
        ProjectType::Python
    } else if markers.has_go_mod {
        ProjectType::Go
    } else {
        ProjectType::Unknown
    }
}

/// The icon name shown for each project kind.
pub open spec fn spec_project_icon(t: ProjectType) -> Seq<char> {
    match t {
        ProjectType::Node => "js"@,
        ProjectType::Rust => "rust"@,
        ProjectType::Python => "python"@,
        ProjectType::Go => "go"@,
        ProjectType::Unknown => "folder"@,
    }
}

/// The icon for a project kind.
pub fn get_project_icon(project_type: &ProjectType) -> (r: &'static str)
    ensures
        r@ == spec_project_icon(*project_type),
{
    match project_type {
        ProjectType::Node => "js",
        ProjectType::Rust => "rust",
        ProjectType::Python => "python",
        ProjectType::Go => "go",
        ProjectType::Unknown => "folder",
    }
}

} // verus!
