//! From a file's name to the feature name of its icon: the rule of each
//! package family for taking a file name apart, and the synthesis of the
//! feature name from its parts.

use vstd::prelude::*;
use vstd::string::StringExecFns;

use crate::category::{texts, Category};
use crate::package::PackageType;
use crate::size::{size_of_numeral, IconSize};
use crate::size::lemma_numeral_names_its_tier;
use crate::text::{
    ends_with, is_numeral, lemma_trailing_numerals_taken_off, same_text, starts_with,
    strip_prefix, strip_suffix, trim_leading_numerals, trim_trailing, trim_trailing_numerals,
    without_leading_numerals, without_prefix, without_suffix, without_trailing,
    without_trailing_numerals,
};

verus! {

/// Whether `text` is one of the language and writing-direction codes under
/// which the Fluent UI System Icons keep their variants.
pub open spec fn is_language_code(text: Seq<char>) -> bool {
    ||| text == "ar"@
    ||| text == "bg"@
    ||| text == "ca"@
    ||| text == "da"@
    ||| text == "de"@
    ||| text == "en"@
    ||| text == "es"@
    ||| text == "et"@
    ||| text == "eu"@
    ||| text == "fi"@
    ||| text == "fr"@
    ||| text == "gl"@
    ||| text == "gr"@
    ||| text == "he"@
    ||| text == "hu"@
    ||| text == "it"@
    ||| text == "ja"@
    ||| text == "kk"@
    ||| text == "ko"@
    ||| text == "lt"@
    ||| text == "lv"@
    ||| text == "ms"@
    ||| text == "no"@
    ||| text == "pt"@
    ||| text == "ru"@
    ||| text == "se"@
    ||| text == "sl"@
    ||| text == "sr"@
    ||| text == "sr-cyrl"@
    ||| text == "sr-latn"@
    ||| text == "sv"@
    ||| text == "tr"@
    ||| text == "uk"@
    ||| text == "zh"@
    ||| text == "LTR"@
    ||| text == "RTL"@
}

/// Whether `text` ends in one of the two markers of a temporary
/// writing-direction variant.
pub open spec fn has_temp_marker(text: Seq<char>) -> bool {
    "Temp LTR"@.is_suffix_of(text) || "Temp RTL"@.is_suffix_of(text)
}

/// Whether a category with the text `text` stays with an icon of the Fluent
/// UI System Icons.
pub open spec fn is_fluent_category(text: Seq<char>) -> bool {
    is_language_code(text) || has_temp_marker(text)
}

/// The last two characters of `stem`; all of it where it is shorter.
pub open spec fn last_two(stem: Seq<char>) -> Seq<char> {
    if stem.len() >= 2 {
        stem.skip(stem.len() - 2)
    } else {
        stem
    }
}

/// The icon's own name: what is left of the file stem `stem` once the
/// decorations of the package family are taken off.
pub open spec fn raw_name(package: PackageType, stem: Seq<char>) -> Seq<char> {
    match package {
        PackageType::GithubOcticons => without_trailing(without_trailing_numerals(stem), '-'),
        PackageType::WeatherIcons => without_prefix(stem, "wi-"@),
        PackageType::BoxIcons => if "bxl-"@.is_prefix_of(stem) {
            without_prefix(stem, "bxl-"@)
        } else if "bx-"@.is_prefix_of(stem) {
            without_prefix(stem, "bx-"@)
        } else {
            without_prefix(stem, "bxs-"@)
        },
        PackageType::IcoMoonFree => without_leading_numerals(stem),
        PackageType::RemixIcon => if "-fill"@.is_suffix_of(stem) {
            without_suffix(stem, "-fill"@)
        } else {
            without_suffix(stem, "-line"@)
        },
        PackageType::FluentUISystemIcons => without_prefix(stem, "ic_fluent_"@),
        PackageType::Other => stem,
    }
}

/// The size that the file stem `stem` itself states, if the package family
/// writes sizes into file names and the stem ends in the numeral of one.
pub open spec fn size_in_name(package: PackageType, stem: Seq<char>) -> Option<IconSize> {
    match package {
        PackageType::GithubOcticons => size_of_numeral(last_two(stem)),
        _ => None,
    }
}

/// The categories of an icon once its file stem `stem` has been read, given
/// the categories `inherited` from the directories above it.
pub open spec fn categories_with_name(
    package: PackageType,
    stem: Seq<char>,
    inherited: Seq<Seq<char>>,
) -> Seq<Seq<char>> {
    match package {
        PackageType::RemixIcon => if "-fill"@.is_suffix_of(stem) {
            inherited.push("fill"@)
        } else if "-line"@.is_suffix_of(stem) {
            inherited.push("line"@)
        } else {
            inherited
        },
        PackageType::FluentUISystemIcons => inherited.filter(
            |text: Seq<char>| is_fluent_category(text),
        ),
        _ => inherited,
    }
}

/// The parts of a feature name in their order: the package's short name, the
/// icon's own name, the categories, and the size's label where there is a size.
pub open spec fn name_tokens(
    raw_name: Seq<char>,
    size: Option<IconSize>,
    categories: Seq<Seq<char>>,
    package_short_name: Seq<char>,
) -> Seq<Seq<char>> {
    seq![package_short_name, raw_name] + categories + match size {
        Some(size) => seq![size.label()],
        None => seq![],
    }
}

/// The tokens written one after the other, with one space between neighbours.
pub open spec fn space_joined(tokens: Seq<Seq<char>>) -> Seq<char>
    decreases tokens.len(),
{
    if tokens.len() == 0 {
        Seq::empty()
    } else if tokens.len() == 1 {
        tokens[0]
    } else {
        space_joined(tokens.drop_last()) + seq![' '] + tokens.last()
    }
}

/// What `heck` makes of `text` when it folds it to upper camel case: the words
/// of `text`, each capitalised, with nothing between them.
pub uninterp spec fn pascal_case(text: Seq<char>) -> Seq<char>;

/// `heck::ToPascalCase::to_pascal_case` on a `str`: the text folded to upper
/// camel case. What comes back depends on the text alone; it is named
/// `pascal_case` and nothing more is claimed of it.
#[verifier::external_body]
fn to_pascal_case(text: &str) -> (folded: String)
    ensures
        folded@ == pascal_case(text@),
{
    heck::ToPascalCase::to_pascal_case(text)
}

/// Whether `text` is a language or writing-direction code of the Fluent UI
/// System Icons.
pub fn language_code(text: &str) -> (known: bool)
    ensures
        known == is_language_code(text@),
{
    same_text(text, "ar") || same_text(text, "bg") || same_text(text, "ca") || same_text(
        text,
        "da",
    ) || same_text(text, "de") || same_text(text, "en") || same_text(text, "es") || same_text(
        text,
        "et",
    ) || same_text(text, "eu") || same_text(text, "fi") || same_text(text, "fr") || same_text(
        text,
        "gl",
    ) || same_text(text, "gr") || same_text(text, "he") || same_text(text, "hu") || same_text(
        text,
        "it",
    ) || same_text(text, "ja") || same_text(text, "kk") || same_text(text, "ko") || same_text(
        text,
        "lt",
    ) || same_text(text, "lv") || same_text(text, "ms") || same_text(text, "no") || same_text(
        text,
        "pt",
    ) || same_text(text, "ru") || same_text(text, "se") || same_text(text, "sl") || same_text(
        text,
        "sr",
    ) || same_text(text, "sr-cyrl") || same_text(text, "sr-latn") || same_text(text, "sv")
        || same_text(text, "tr") || same_text(text, "uk") || same_text(text, "zh") || same_text(
        text,
        "LTR",
    ) || same_text(text, "RTL")
}

/// Whether `text` ends in one of the two markers of a temporary
/// writing-direction variant.
pub fn temp_marker(text: &str) -> (marked: bool)
    ensures
        marked == has_temp_marker(text@),
{
    ends_with(text, "Temp LTR") || ends_with(text, "Temp RTL")
}

/// Keeps, in their order, the categories that stay with an icon of the Fluent
/// UI System Icons, and drops the others.
pub fn retain_fluent_categories(categories: &mut Vec<Category>)
    ensures
        texts(final(categories)@) == texts(old(categories)@).filter(
            |text: Seq<char>| is_fluent_category(text),
        ),
{
    let ghost keep = |text: Seq<char>| is_fluent_category(text);
    let mut kept: Vec<Category> = Vec::new();
    let mut i: usize = 0;
    proof {
        reveal(Seq::filter);
        assert(texts(categories@.take(0)) =~= Seq::<Seq<char>>::empty());
    }
    while i < categories.len()
        invariant
            i <= categories.len(),
            keep == |text: Seq<char>| is_fluent_category(text),
            texts(kept@) == texts(categories@.take(i as int)).filter(keep),
        decreases categories.len() - i,
    {
        let text = categories[i].0.as_str();
        let stays = language_code(text) || temp_marker(text);
        proof {
            reveal(Seq::filter);
            assert(texts(categories@.take(i + 1)).drop_last() =~= texts(
                categories@.take(i as int),
            ));
            assert(texts(categories@.take(i + 1)).last() == categories@[i as int]@);
        }
        if stays {
            let ghost before = texts(kept@);
            kept.push(categories[i].clone());
            assert(texts(kept@) =~= before.push(categories@[i as int]@));
        }
        i += 1;
    }
    assert(categories@.take(i as int) == categories@);
    *categories = kept;
}

/// Takes a file stem apart by the rule of the package family.
///
/// Returns the icon's own name and the size that the stem states, and brings
/// `categories` up to date:
/// - GitHub Octicons: the size is read from the last two characters; the numerals
///   that the stem ends in, and then the hyphens that it ends in, are taken off,
///   whether or not a size was found.
/// - Weather Icons: `wi-` is taken off the front.
/// - Box Icons: the first of `bxl-`, `bx-`, `bxs-` that the stem starts with is
///   taken off.
/// - IcoMoon Free: the numerals that the stem starts with are taken off.
/// - Remix Icon: `-fill`, or else `-line`, is taken off the end and becomes a
///   category, added after those already there.
/// - Fluent UI System Icons: `ic_fluent_` is taken off the front, and of the
///   categories only language codes and temporary direction variants stay.
/// - any other package: the stem is the name.
pub fn parse_raw_icon_name<'a>(
    package: PackageType,
    file_stem: &'a str,
    categories: &mut Vec<Category>,
) -> (parsed: (&'a str, Option<IconSize>))
    ensures
        parsed.0@ == raw_name(package, file_stem@),
        parsed.1 == size_in_name(package, file_stem@),
        texts(final(categories)@) == categories_with_name(
            package,
            file_stem@,
            texts(old(categories)@),
        ),
{
    match package {
        PackageType::GithubOcticons => {
            let length = file_stem.unicode_len();
            let ending = if length >= 2 {
                file_stem.substring_char(length - 2, length)
            } else {
                file_stem
            };
            let size = match IconSize::from_str(ending) {
                Ok(size) => Some(size),
                Err(_) => None,
            };
            let name = trim_trailing(trim_trailing_numerals(file_stem), '-');
            (name, size)
        },
        PackageType::WeatherIcons => (strip_prefix(file_stem, "wi-"), None),
        PackageType::BoxIcons => {
            let name = if starts_with(file_stem, "bxl-") {
                strip_prefix(file_stem, "bxl-")
            } else if starts_with(file_stem, "bx-") {
                strip_prefix(file_stem, "bx-")
            } else {
                strip_prefix(file_stem, "bxs-")
            };
            (name, None)
        },
        PackageType::IcoMoonFree => (trim_leading_numerals(file_stem), None),
        PackageType::RemixIcon => {
            if ends_with(file_stem, "-fill") {
                categories.push(Category(String::from_str("fill")));
                assert(texts(categories@) =~= texts(old(categories)@).push("fill"@));
                (strip_suffix(file_stem, "-fill"), None)
            } else if ends_with(file_stem, "-line") {
                categories.push(Category(String::from_str("line")));
                assert(texts(categories@) =~= texts(old(categories)@).push("line"@));
                (strip_suffix(file_stem, "-line"), None)
            } else {
                (file_stem, None)
            }
        },
        PackageType::FluentUISystemIcons => {
            retain_fluent_categories(categories);
            (strip_prefix(file_stem, "ic_fluent_"), None)
        },
        PackageType::Other => (file_stem, None),
    }
}

/// The parts of a feature name, written one after the other with one space
/// between neighbours: the package's short name, the icon's own name, the
/// categories in their order, and the size's label where there is a size.
pub fn spaced_name(
    raw_name: &str,
    size: Option<IconSize>,
    categories: &Vec<Category>,
    package_short_name: &str,
) -> (spaced: String)
    ensures
        spaced@ == space_joined(
            name_tokens(raw_name@, size, texts(categories@), package_short_name@),
        ),
{
    proof {
        reveal_strlit(" ");
    }
    let ghost names = texts(categories@);
    let mut spaced = String::from_str(package_short_name);
    spaced.append(" ");
    spaced.append(raw_name);
    proof {
        let head = seq![package_short_name@, raw_name@];
        assert(head.drop_last() =~= seq![package_short_name@]);
        assert(space_joined(head.drop_last()) == package_short_name@);
        assert(" "@ =~= seq![' ']);
        assert(head + names.take(0) =~= head);
    }
    let mut i: usize = 0;
    while i < categories.len()
        invariant
            i <= categories.len(),
            names == texts(categories@),
            " "@ == seq![' '],
            spaced@ == space_joined(seq![package_short_name@, raw_name@] + names.take(i as int)),
        decreases categories.len() - i,
    {
        spaced.append(" ");
        spaced.append(categories[i].0.as_str());
        proof {
            let before = seq![package_short_name@, raw_name@] + names.take(i as int);
            let after = seq![package_short_name@, raw_name@] + names.take(i + 1);
            assert(after.drop_last() =~= before);
            assert(after.last() == categories@[i as int]@);
        }
        i += 1;
    }
    assert(names.take(i as int) == names);
    match size {
        Some(size) => {
            spaced.append(" ");
            spaced.append(size.as_str());
            proof {
                let before = seq![package_short_name@, raw_name@] + names;
                let after = name_tokens(raw_name@, Some(size), names, package_short_name@);
                assert(after.drop_last() =~= before);
                assert(after.last() == size.label());
            }
        },
        None => {
            assert(name_tokens(raw_name@, size, names, package_short_name@) =~= seq![
                package_short_name@,
                raw_name@,
            ] + names);
        },
    }
    spaced
}

/// The feature name of an icon: the package's short name, the icon's own
/// name, its categories in their order and its size's label, joined by spaces
/// and then folded to upper camel case.
pub fn feature_name(
    raw_name: &str,
    size: Option<IconSize>,
    categories: &Vec<Category>,
    package_short_name: &str,
) -> (name: String)
    ensures
        name@ == pascal_case(
            space_joined(name_tokens(raw_name@, size, texts(categories@), package_short_name@)),
        ),
{
    let spaced = spaced_name(raw_name, size, categories, package_short_name);
    to_pascal_case(spaced.as_str())
}

/// In a package that writes sizes into file names, a stem made of a name, a
/// hyphen and numerals gives the name without the hyphens that it ends in,
/// whatever the numerals are; where there are two numerals, the size is the one
/// that they are the numeral of, and none where they are the numeral of none.
pub proof fn lemma_numbered_stem(base: Seq<char>, numerals: Seq<char>)
    requires
        forall|i: int| 0 <= i < numerals.len() ==> is_numeral(numerals[i]),
    ensures
        raw_name(PackageType::GithubOcticons, base + seq!['-'] + numerals) == without_trailing(
            base,
            '-',
        ),
        numerals.len() == 2 ==> size_in_name(
            PackageType::GithubOcticons,
            base + seq!['-'] + numerals,
        ) == size_of_numeral(numerals),
{
    let front = base + seq!['-'];
    let stem = front + numerals;
    assert(front.last() == '-');
    lemma_trailing_numerals_taken_off(front, numerals);
    assert(front.drop_last() =~= base);
    if numerals.len() == 2 {
        assert(last_two(stem) =~= numerals);
    }
}

/// A stem made of a name, a hyphen and the numeral of a size gives that size,
/// and the name without the hyphens that it ends in: the name itself where it
/// ends in none.
pub proof fn lemma_size_suffix_is_read(base: Seq<char>, size: IconSize)
    ensures
        size_in_name(PackageType::GithubOcticons, base + seq!['-'] + size.numeral()) == Some(size),
        raw_name(PackageType::GithubOcticons, base + seq!['-'] + size.numeral())
            == without_trailing(base, '-'),
        base.len() == 0 || base.last() != '-' ==> raw_name(
            PackageType::GithubOcticons,
            base + seq!['-'] + size.numeral(),
        ) == base,
{
    reveal_strlit("12");
    reveal_strlit("16");
    reveal_strlit("20");
    reveal_strlit("24");
    reveal_strlit("48");
    reveal_strlit("96");
    lemma_numeral_names_its_tier(size);
    lemma_numbered_stem(base, size.numeral());
}

/// In a package that writes the style at the end of file names, a stem that
/// ends in `-fill` gives the one further category `fill` and loses that ending;
/// one that ends in `-line` gives the one further category `line` and loses
/// that ending; any other gives no further category and stays whole.
pub proof fn lemma_style_suffix_becomes_category(stem: Seq<char>, inherited: Seq<Seq<char>>)
    ensures
        "-fill"@.is_suffix_of(stem) ==> raw_name(PackageType::RemixIcon, stem) + "-fill"@ == stem
            && categories_with_name(PackageType::RemixIcon, stem, inherited) == inherited.push(
            "fill"@,
        ),
        "-line"@.is_suffix_of(stem) ==> raw_name(PackageType::RemixIcon, stem) + "-line"@ == stem
            && categories_with_name(PackageType::RemixIcon, stem, inherited) == inherited.push(
            "line"@,
        ),
        !"-fill"@.is_suffix_of(stem) && !"-line"@.is_suffix_of(stem) ==> raw_name(
            PackageType::RemixIcon,
            stem,
        ) == stem && categories_with_name(PackageType::RemixIcon, stem, inherited) == inherited,
{
    reveal_strlit("-fill");
    reveal_strlit("-line");
    if "-fill"@.is_suffix_of(stem) {
        assert(stem.skip(stem.len() - 5)[4] == 'l');
        assert(!"-line"@.is_suffix_of(stem));
        assert(stem.take(stem.len() - 5) + "-fill"@ =~= stem);
    }
    if "-line"@.is_suffix_of(stem) {
        assert(stem.skip(stem.len() - 5)[4] == 'e');
        assert(stem.take(stem.len() - 5) + "-line"@ =~= stem);
    }
}

} // verus!
