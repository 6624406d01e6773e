use icon_reader::category::Category;
use icon_reader::name::{
    feature_name, language_code, parse_raw_icon_name, retain_fluent_categories, spaced_name,
    temp_marker,
};
use icon_reader::package::PackageType;
use icon_reader::size::IconSize;

fn categories(texts: &[&str]) -> Vec<Category> {
    texts.iter().map(|text| Category(text.to_string())).collect()
}

#[test]
fn octicons_size_suffix_is_read_and_taken_off() {
    let mut cats = categories(&["a"]);
    assert_eq!(
        parse_raw_icon_name(PackageType::GithubOcticons, "alert-24", &mut cats),
        ("alert", Some(IconSize::Lg))
    );
    assert_eq!(cats, categories(&["a"]));
    assert_eq!(
        parse_raw_icon_name(PackageType::GithubOcticons, "alert-fill-12", &mut cats),
        ("alert-fill", Some(IconSize::Xs))
    );
    assert_eq!(
        parse_raw_icon_name(PackageType::GithubOcticons, "arrow-up-right-16", &mut cats),
        ("arrow-up-right", Some(IconSize::Sm))
    );
    assert_eq!(
        parse_raw_icon_name(PackageType::GithubOcticons, "x-96", &mut cats),
        ("x", Some(IconSize::Xxl))
    );
}

#[test]
fn octicons_every_tier_is_read_from_its_numeral() {
    let tiers = [
        ("12", IconSize::Xs),
        ("16", IconSize::Sm),
        ("20", IconSize::Md),
        ("24", IconSize::Lg),
        ("48", IconSize::Xl),
        ("96", IconSize::Xxl),
    ];
    for (numeral, tier) in tiers {
        let stem = format!("git-branch-{}", numeral);
        let mut cats = Vec::new();
        assert_eq!(
            parse_raw_icon_name(PackageType::GithubOcticons, &stem, &mut cats),
            ("git-branch", Some(tier))
        );
        assert!(cats.is_empty());
    }
}

#[test]
fn octicons_unknown_size_gives_no_size_and_a_trimmed_name() {
    let mut cats = Vec::new();
    assert_eq!(
        parse_raw_icon_name(PackageType::GithubOcticons, "alert-32", &mut cats),
        ("alert", None)
    );
    assert_eq!(
        parse_raw_icon_name(PackageType::GithubOcticons, "alert-123", &mut cats),
        ("alert", None)
    );
    assert_eq!(parse_raw_icon_name(PackageType::GithubOcticons, "alert", &mut cats), ("alert", None));
    assert_eq!(parse_raw_icon_name(PackageType::GithubOcticons, "alert-", &mut cats), ("alert", None));
    assert!(cats.is_empty());
}

#[test]
fn octicons_short_and_odd_stems_are_read_without_failure() {
    let mut cats = Vec::new();
    assert_eq!(parse_raw_icon_name(PackageType::GithubOcticons, "", &mut cats), ("", None));
    assert_eq!(parse_raw_icon_name(PackageType::GithubOcticons, "a", &mut cats), ("a", None));
    assert_eq!(parse_raw_icon_name(PackageType::GithubOcticons, "7", &mut cats), ("", None));
    assert_eq!(parse_raw_icon_name(PackageType::GithubOcticons, "24", &mut cats), ("", Some(IconSize::Lg)));
    assert_eq!(parse_raw_icon_name(PackageType::GithubOcticons, "é4", &mut cats), ("é", None));
    assert_eq!(
        parse_raw_icon_name(PackageType::GithubOcticons, "a-124", &mut cats),
        ("a", Some(IconSize::Lg))
    );
}

#[test]
fn weather_icons_prefix_is_taken_off() {
    let mut cats = categories(&["x"]);
    assert_eq!(
        parse_raw_icon_name(PackageType::WeatherIcons, "wi-day-sunny", &mut cats),
        ("day-sunny", None)
    );
    assert_eq!(parse_raw_icon_name(PackageType::WeatherIcons, "day-sunny", &mut cats), ("day-sunny", None));
    assert_eq!(parse_raw_icon_name(PackageType::WeatherIcons, "wi-wi-fi", &mut cats), ("wi-fi", None));
    assert_eq!(parse_raw_icon_name(PackageType::WeatherIcons, "kiwi-", &mut cats), ("kiwi-", None));
    assert_eq!(cats, categories(&["x"]));
}

#[test]
fn box_icons_first_matching_prefix_is_taken_off() {
    let mut cats = Vec::new();
    assert_eq!(parse_raw_icon_name(PackageType::BoxIcons, "bxl-github", &mut cats), ("github", None));
    assert_eq!(parse_raw_icon_name(PackageType::BoxIcons, "bx-home", &mut cats), ("home", None));
    assert_eq!(parse_raw_icon_name(PackageType::BoxIcons, "bxs-home", &mut cats), ("home", None));
    assert_eq!(parse_raw_icon_name(PackageType::BoxIcons, "home", &mut cats), ("home", None));
    assert_eq!(parse_raw_icon_name(PackageType::BoxIcons, "bx-bxs-home", &mut cats), ("bxs-home", None));
    assert_eq!(parse_raw_icon_name(PackageType::BoxIcons, "bxl-bx-home", &mut cats), ("bx-home", None));
    assert_eq!(parse_raw_icon_name(PackageType::BoxIcons, "bxx-home", &mut cats), ("bxx-home", None));
    assert!(cats.is_empty());
}

#[test]
fn icomoon_leading_number_is_taken_off() {
    let mut cats = Vec::new();
    assert_eq!(parse_raw_icon_name(PackageType::IcoMoonFree, "001-home", &mut cats), ("-home", None));
    assert_eq!(parse_raw_icon_name(PackageType::IcoMoonFree, "1234-pencil2", &mut cats), ("-pencil2", None));
    assert_eq!(parse_raw_icon_name(PackageType::IcoMoonFree, "home", &mut cats), ("home", None));
    assert!(cats.is_empty());
}

#[test]
fn remix_fill_suffix_becomes_one_category() {
    let mut cats = categories(&["System"]);
    assert_eq!(parse_raw_icon_name(PackageType::RemixIcon, "home-fill", &mut cats), ("home", None));
    assert_eq!(cats, categories(&["System", "fill"]));
}

#[test]
fn remix_line_suffix_becomes_one_category() {
    let mut cats = categories(&["System"]);
    assert_eq!(parse_raw_icon_name(PackageType::RemixIcon, "home-line", &mut cats), ("home", None));
    assert_eq!(cats, categories(&["System", "line"]));
}

#[test]
fn remix_other_names_add_no_category() {
    let mut cats = categories(&["System"]);
    assert_eq!(parse_raw_icon_name(PackageType::RemixIcon, "home", &mut cats), ("home", None));
    assert_eq!(parse_raw_icon_name(PackageType::RemixIcon, "fill-home", &mut cats), ("fill-home", None));
    assert_eq!(parse_raw_icon_name(PackageType::RemixIcon, "homefill", &mut cats), ("homefill", None));
    assert_eq!(cats, categories(&["System"]));
}

#[test]
fn remix_takes_one_suffix_only() {
    let mut cats = Vec::new();
    assert_eq!(parse_raw_icon_name(PackageType::RemixIcon, "a-line-fill", &mut cats), ("a-line", None));
    assert_eq!(cats, categories(&["fill"]));
    let mut cats = Vec::new();
    assert_eq!(parse_raw_icon_name(PackageType::RemixIcon, "a-fill-line", &mut cats), ("a-fill", None));
    assert_eq!(cats, categories(&["line"]));
}

#[test]
fn fluent_prefix_is_taken_off_and_categories_are_filtered() {
    let mut cats = categories(&["Add Circle", "en", "SVG", "x Temp LTR", "de", "Temp RTL", "EN"]);
    assert_eq!(
        parse_raw_icon_name(PackageType::FluentUISystemIcons, "ic_fluent_add_circle_20_regular", &mut cats),
        ("add_circle_20_regular", None)
    );
    assert_eq!(cats, categories(&["en", "x Temp LTR", "de", "Temp RTL"]));
}

#[test]
fn fluent_keeps_every_language_code() {
    let codes = [
        "ar", "bg", "ca", "da", "de", "en", "es", "et", "eu", "fi", "fr", "gl", "gr", "he", "hu",
        "it", "ja", "kk", "ko", "lt", "lv", "ms", "no", "pt", "ru", "se", "sl", "sr", "sr-cyrl",
        "sr-latn", "sv", "tr", "uk", "zh", "LTR", "RTL",
    ];
    for code in codes {
        assert!(language_code(code));
    }
    let mut cats = categories(&codes);
    retain_fluent_categories(&mut cats);
    assert_eq!(cats, categories(&codes));
    for other in ["", "a", "xx", "EN", "ltr", "sr-", "sr-cyrl ", "english"] {
        assert!(!language_code(other));
    }
}

#[test]
fn temp_markers_are_found_at_the_end_only() {
    assert!(temp_marker("Temp LTR"));
    assert!(temp_marker("Arrow Temp RTL"));
    assert!(!temp_marker("Temp LTR "));
    assert!(!temp_marker("Temp LTR Arrow"));
    assert!(!temp_marker("temp ltr"));
}

#[test]
fn other_packages_leave_the_stem_as_it_is() {
    let mut cats = categories(&["a", "b"]);
    assert_eq!(
        parse_raw_icon_name(PackageType::Other, "wi-bx-001-home-fill-24", &mut cats),
        ("wi-bx-001-home-fill-24", None)
    );
    assert_eq!(cats, categories(&["a", "b"]));
}

#[test]
fn spaced_name_joins_the_tokens_in_order() {
    let cats = categories(&["fill", "line"]);
    assert_eq!(spaced_name("bar", Some(IconSize::Md), &cats, "Foo"), "Foo bar fill line md");
    assert_eq!(spaced_name("bar", None, &cats, "Foo"), "Foo bar fill line");
    assert_eq!(spaced_name("bar", Some(IconSize::Xxl), &Vec::new(), "Foo"), "Foo bar xxl");
    assert_eq!(spaced_name("bar", None, &Vec::new(), "Foo"), "Foo bar");
    assert_eq!(spaced_name("", None, &Vec::new(), ""), " ");
}

#[test]
fn feature_name_is_folded_to_upper_camel_case() {
    let cats = categories(&["fill", "line"]);
    let name = feature_name("bar", Some(IconSize::Md), &cats, "Foo");
    assert_eq!(name, "FooBarFillLineMd");
    assert!(!name.contains(' '));
}

#[test]
fn feature_name_is_the_same_for_the_same_parts() {
    let cats = categories(&["line", "fill"]);
    let first = feature_name("arrow-up", Some(IconSize::Lg), &cats, "Ri");
    let second = feature_name("arrow-up", Some(IconSize::Lg), &cats, "Ri");
    assert_eq!(first, "RiArrowUpLineFillLg");
    assert_eq!(first, second);
}

#[test]
fn feature_name_keeps_the_order_of_the_categories() {
    assert_eq!(feature_name("x", None, &categories(&["one", "two"]), "P"), "PXOneTwo");
    assert_eq!(feature_name("x", None, &categories(&["two", "one"]), "P"), "PXTwoOne");
}

#[test]
fn feature_name_folds_words_inside_tokens() {
    assert_eq!(feature_name("git-pull-request", Some(IconSize::Sm), &Vec::new(), "Oc"), "OcGitPullRequestSm");
    assert_eq!(feature_name("add_circle_20_regular", None, &categories(&["en"]), "Fluent"), "FluentAddCircle20RegularEn");
    assert_eq!(feature_name("-home", None, &Vec::new(), "Im"), "ImHome");
    assert_eq!(feature_name("XMLHttpRequest", None, &Vec::new(), "Bs"), "BsXmlHttpRequest");
}
