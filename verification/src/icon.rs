//! The icon itself: its feature name and its parsed markup, and the steps by
//! which one is made from a file of a package.

use std::path::PathBuf;
use vstd::prelude::*;

use crate::category::{has_category, texts, Category};
use crate::name::{
    categories_with_name, feature_name, name_tokens, parse_raw_icon_name, pascal_case, raw_name,
    size_in_name, space_joined,
};
use crate::package::{Package, PackageType};
use crate::size::IconSize;

verus! {

/// `std::path::PathBuf`: the library carries paths along and never looks into them.
#[verifier::external_type_specification]
#[verifier::external_body]
pub struct ExPathBuf(PathBuf);

/// An icon of a package: its feature name and its markup as the SVG parser
/// returned it.
#[derive(Debug, Clone)]
pub struct SvgIcon<S> {
    pub svg: S,
    pub name: String,
}

/// What is known of an icon before its file has been read: where the file is,
/// the icon's feature name, and whether the markup is to be parsed as two-tone.
#[derive(Debug, PartialEq, Eq)]
pub struct IconRequest {
    pub path: PathBuf,
    pub name: String,
    pub twotone: bool,
}

/// Why the markup of an icon could not be had, in the words of whoever tried.
#[derive(Debug, Clone, PartialEq, Eq)]
pub enum LoadFailure {
    /// The file could not be read.
    Read(String),
    /// The file was read, but the SVG parser refused what it holds.
    Parse(String),
}

/// Why no icon was made from a file.
#[derive(Debug, PartialEq, Eq)]
pub enum IconError {
    /// The path has no file stem to name the icon by.
    MissingName { package: String, path: PathBuf },
    /// The file could not be read.
    Io { name: String, package: String, path: PathBuf, reason: String },
    /// The SVG parser refused the file.
    Parse { name: String, package: String, path: PathBuf, reason: String },
}

/// The size of an icon: the one that its file name states, else the one
/// inherited from its directories.
pub open spec fn size_of_icon(
    package: PackageType,
    stem: Seq<char>,
    inherited: Option<IconSize>,
) -> Option<IconSize> {
    match size_in_name(package, stem) {
        Some(size) => Some(size),
        None => inherited,
    }
}

/// The feature name of the icon in the file with the stem `stem`, found under
/// directories that hand down the size `size` and the categories `categories`.
pub open spec fn icon_name(
    package: PackageType,
    short_name: Seq<char>,
    stem: Seq<char>,
    size: Option<IconSize>,
    categories: Seq<Seq<char>>,
) -> Seq<char> {
    pascal_case(
        space_joined(
            name_tokens(
                raw_name(package, stem),
                size_of_icon(package, stem, size),
                categories_with_name(package, stem, categories),
                short_name,
            ),
        ),
    )
}

/// Whether the icon's markup is to be parsed as two-tone: whether `twotone` is
/// among its categories once the file name has been read.
pub open spec fn is_twotone(
    package: PackageType,
    stem: Seq<char>,
    categories: Seq<Seq<char>>,
) -> bool {
    categories_with_name(package, stem, categories).contains("twotone"@)
}

/// Whether `request` is what naming the icon in the file at `path` gives: the
/// request for the icon under its feature name where the file has a stem, else
/// the refusal of the path.
pub open spec fn is_request_for(
    request: Result<IconRequest, IconError>,
    package: PackageType,
    short_name: Seq<char>,
    path: PathBuf,
    stem: Option<Seq<char>>,
    size: Option<IconSize>,
    categories: Seq<Seq<char>>,
) -> bool {
    match stem {
        Some(stem) => request matches Ok(icon) && icon.path == path && icon.name@ == icon_name(
            package,
            short_name,
            stem,
            size,
            categories,
        ) && icon.twotone == is_twotone(package, stem, categories),
        None => request matches Err(IconError::MissingName { package: of, path: at }) && of@
            == short_name && at == path,
    }
}

impl IconRequest {
    /// Names the icon in the file at `path`, whose stem is `file_stem`, found
    /// under directories that hand down `size` and `categories`. A size that the
    /// file name states goes before the inherited one. A path without a file stem
    /// is refused.
    pub fn new(
        package: &Package,
        path: PathBuf,
        file_stem: Option<&str>,
        size: Option<IconSize>,
        categories: Vec<Category>,
    ) -> (request: Result<IconRequest, IconError>)
        ensures
            is_request_for(
                request,
                package.ty,
                package.short_name@,
                path,
                match file_stem {
                    Some(stem) => Some(stem@),
                    None => None,
                },
                size,
                texts(categories@),
            ),
    {
        let mut categories = categories;
        match file_stem {
            Some(stem) => {
                let (raw_name, size_from_name) = parse_raw_icon_name(
                    package.ty,
                    stem,
                    &mut categories,
                );
                let size = match size_from_name {
                    Some(stated) => Some(stated),
                    None => size,
                };
                let name = feature_name(
                    raw_name,
                    size,
                    &categories,
                    package.short_name.as_str(),
                );
                let twotone = has_category(&categories, "twotone");
                Ok(IconRequest { path, name, twotone })
            },
            None => Err(IconError::MissingName { package: package.short_name.clone(), path }),
        }
    }
}

/// Whether `made` is what becomes of the icon asked for by `request`, of the
/// package with the short name `short_name`, once reading and parsing its file
/// gave `loaded`: the icon with the markup where there is markup, else the
/// failure together with the icon's name, its package and its path.
pub open spec fn is_made_from<S>(
    made: Result<SvgIcon<S>, IconError>,
    short_name: Seq<char>,
    request: IconRequest,
    loaded: Result<S, LoadFailure>,
) -> bool {
    match loaded {
        Ok(svg) => made matches Ok(icon) && icon.svg == svg && icon.name == request.name,
        Err(LoadFailure::Read(why)) => made matches Err(
            IconError::Io { name, package, path, reason },
        ) && name == request.name && package@ == short_name && path == request.path && reason
            == why,
        Err(LoadFailure::Parse(why)) => made matches Err(
            IconError::Parse { name, package, path, reason },
        ) && name == request.name && package@ == short_name && path == request.path && reason
            == why,
    }
}

impl<S> SvgIcon<S> {
    /// Makes the icon that `request` asked for from what reading and parsing
    /// its file gave: the icon with the markup where there is markup, else the
    /// failure together with the icon's name, its package and its path.
    pub fn new(package: &Package, request: IconRequest, loaded: Result<S, LoadFailure>) -> (made:
        Result<SvgIcon<S>, IconError>)
        ensures
            is_made_from(made, package.short_name@, request, loaded),
    {
        match loaded {
            Ok(svg) => Ok(SvgIcon { svg, name: request.name }),
            Err(LoadFailure::Read(reason)) => Err(
                IconError::Io {
                    name: request.name,
                    package: package.short_name.clone(),
                    path: request.path,
                    reason,
                },
            ),
            Err(LoadFailure::Parse(reason)) => Err(
                IconError::Parse {
                    name: request.name,
                    package: package.short_name.clone(),
                    path: request.path,
                    reason,
                },
            ),
        }
    }
}

} // verus!
