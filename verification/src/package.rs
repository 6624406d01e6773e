//! The icon packages that the library knows by name.

use vstd::prelude::*;

verus! {

/// The family of an icon package. It selects the rule by which the package's
/// file names are read.
#[derive(Debug, PartialEq, Eq, Clone, Copy, Hash, Structural)]
pub enum PackageType {
    /// File names end in a size: `alert-24`.
    GithubOcticons,
    /// File names start with `wi-`.
    WeatherIcons,
    /// File names start with `bxl-`, `bx-` or `bxs-`.
    BoxIcons,
    /// File names start with a running number: `001-home`.
    IcoMoonFree,
    /// File names end in their style: `-fill` or `-line`.
    RemixIcon,
    /// File names start with `ic_fluent_`; directories carry languages and styles.
    FluentUISystemIcons,
    /// Any other package: file names are taken as they are.
    Other,
}

/// What the naming of icons needs to know of a package.
#[derive(Debug, Clone, PartialEq, Eq)]
pub struct Package {
    /// The family of the package.
    pub ty: PackageType,
    /// The short display name with which every feature name of the package starts.
    pub short_name: String,
}

} // verus!
