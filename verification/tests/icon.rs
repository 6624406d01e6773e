use std::path::PathBuf;

use icon_reader::category::{copy_of, has_category, Category};
use icon_reader::icon::{IconError, IconRequest, LoadFailure, SvgIcon};
use icon_reader::package::{Package, PackageType};
use icon_reader::size::IconSize;

fn package(ty: PackageType, short_name: &str) -> Package {
    Package { ty, short_name: short_name.to_string() }
}

fn cats(texts: &[&str]) -> Vec<Category> {
    texts.iter().map(|text| Category(text.to_string())).collect()
}

#[test]
fn request_names_the_icon() {
    let request = IconRequest::new(
        &package(PackageType::RemixIcon, "Ri"),
        PathBuf::from("/icons/System/home-fill.svg"),
        Some("home-fill"),
        None,
        cats(&["System"]),
    );
    assert_eq!(
        request,
        Ok(IconRequest {
            path: PathBuf::from("/icons/System/home-fill.svg"),
            name: "RiHomeSystemFill".to_string(),
            twotone: false,
        })
    );
}

#[test]
fn size_in_the_name_goes_before_the_inherited_size() {
    let octicons = package(PackageType::GithubOcticons, "Oc");
    let stated = IconRequest::new(
        &octicons,
        PathBuf::from("alert-24.svg"),
        Some("alert-24"),
        Some(IconSize::Xs),
        Vec::new(),
    );
    assert_eq!(stated.unwrap().name, "OcAlertLg");
    let inherited = IconRequest::new(
        &octicons,
        PathBuf::from("alert.svg"),
        Some("alert"),
        Some(IconSize::Xs),
        Vec::new(),
    );
    assert_eq!(inherited.unwrap().name, "OcAlertXs");
    let none = IconRequest::new(&octicons, PathBuf::from("alert.svg"), Some("alert"), None, Vec::new());
    assert_eq!(none.unwrap().name, "OcAlert");
}

#[test]
fn twotone_category_is_passed_on_as_a_hint() {
    let other = package(PackageType::Other, "Ai");
    let twotone = IconRequest::new(
        &other,
        PathBuf::from("/svg/twotone/bell.svg"),
        Some("bell"),
        None,
        cats(&["twotone"]),
    )
    .unwrap();
    assert!(twotone.twotone);
    assert_eq!(twotone.name, "AiBellTwotone");
    let outlined = IconRequest::new(
        &other,
        PathBuf::from("/svg/outlined/bell.svg"),
        Some("bell"),
        None,
        cats(&["outlined", "Twotone", "twotone "]),
    )
    .unwrap();
    assert!(!outlined.twotone);
}

#[test]
fn twotone_hint_is_taken_after_the_name_was_read() {
    let fluent = package(PackageType::FluentUISystemIcons, "Fluent");
    let request = IconRequest::new(
        &fluent,
        PathBuf::from("x.svg"),
        Some("ic_fluent_x_20_filled"),
        None,
        cats(&["twotone", "en"]),
    )
    .unwrap();
    assert!(!request.twotone);
    assert_eq!(request.name, "FluentX20FilledEn");
}

#[test]
fn path_without_stem_is_refused() {
    let request = IconRequest::new(
        &package(PackageType::Other, "Ai"),
        PathBuf::from("/svg/.."),
        None,
        Some(IconSize::Md),
        cats(&["a"]),
    );
    assert_eq!(
        request,
        Err(IconError::MissingName { package: "Ai".to_string(), path: PathBuf::from("/svg/..") })
    );
}

fn bell() -> IconRequest {
    IconRequest { path: PathBuf::from("/svg/bell.svg"), name: "AiBell".to_string(), twotone: true }
}

#[test]
fn icon_is_made_from_parsed_markup() {
    let icon = SvgIcon::new(&package(PackageType::Other, "Ai"), bell(), Ok("<svg/>".to_string())).unwrap();
    assert_eq!(icon.name, "AiBell");
    assert_eq!(icon.svg, "<svg/>");
}

#[test]
fn read_failure_carries_name_package_and_path() {
    let made = SvgIcon::<String>::new(
        &package(PackageType::Other, "Ai"),
        bell(),
        Err(LoadFailure::Read("permission denied".to_string())),
    );
    assert_eq!(
        made.err(),
        Some(IconError::Io {
            name: "AiBell".to_string(),
            package: "Ai".to_string(),
            path: PathBuf::from("/svg/bell.svg"),
            reason: "permission denied".to_string(),
        })
    );
}

#[test]
fn parse_failure_carries_name_package_and_path() {
    let made = SvgIcon::<String>::new(
        &package(PackageType::Other, "Ai"),
        bell(),
        Err(LoadFailure::Parse("no svg element".to_string())),
    );
    assert_eq!(
        made.err(),
        Some(IconError::Parse {
            name: "AiBell".to_string(),
            package: "Ai".to_string(),
            path: PathBuf::from("/svg/bell.svg"),
            reason: "no svg element".to_string(),
        })
    );
}

#[test]
fn categories_are_the_same_when_their_texts_are() {
    assert_eq!(Category("fill".to_string()), Category("fill".to_string()));
    assert_ne!(Category("fill".to_string()), Category("Fill".to_string()));
    assert!(Category("a".to_string()) < Category("b".to_string()));
    assert_eq!(Category("fill".to_string()).clone(), Category("fill".to_string()));
}

#[test]
fn copy_of_categories_is_independent() {
    let list = cats(&["a", "b"]);
    let mut copy = copy_of(&list);
    assert_eq!(copy, list);
    copy.push(Category("c".to_string()));
    assert_eq!(list, cats(&["a", "b"]));
}

#[test]
fn has_category_finds_exact_texts() {
    let list = cats(&["outlined", "twotone"]);
    assert!(has_category(&list, "twotone"));
    assert!(has_category(&list, "outlined"));
    assert!(!has_category(&list, "two"));
    assert!(!has_category(&list, "TwoTone"));
    assert!(!has_category(&Vec::new(), "twotone"));
}
