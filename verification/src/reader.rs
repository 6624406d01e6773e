//! The walk through the icon directory of a package.
//!
//! The walk keeps a stack of directories that are still to be listed. The
//! caller lists a directory and shows each entry to the walk, which decides
//! what the entry is: a directory to descend into, a file to pass over, or an
//! icon to load. Each directory hands its categories and its size down to the
//! directories below it, and to no other.

use std::path::PathBuf;
use vstd::prelude::*;

use crate::category::{copy_of, texts, Category};
use crate::icon::{is_made_from, is_request_for, IconError, IconRequest, LoadFailure, SvgIcon};
use crate::name::{has_temp_marker, temp_marker};
use crate::package::{Package, PackageType};
use crate::size::{size_of_numeral, IconSize};
use crate::text::{ends_with, same_text};

verus! {

/// A directory to be listed, with what its icons inherit: the categories of
/// the directories above it and of itself, and the size that the first
/// directory named after a size gave.
#[derive(Debug, PartialEq, Eq)]
pub struct SearchDir {
    pub path: PathBuf,
    pub categories: Vec<Category>,
    pub icon_size: Option<IconSize>,
}

/// The extension of a file's name.
#[derive(Debug, Clone, PartialEq, Eq)]
pub enum Extension {
    /// The name has no extension.
    Missing,
    /// The name has an extension that is no text.
    Undecodable,
    /// The extension, without its dot.
    Text(String),
}

/// An entry of a directory, as the caller found it.
#[derive(Debug, PartialEq, Eq)]
pub enum Entry {
    /// A directory below the listed one: its path, its bare name, and whether
    /// the package takes that name for a category.
    Directory { path: PathBuf, name: String, is_category: bool },
    /// A file: its path, the stem of its name where it has one, and its extension.
    File { path: PathBuf, stem: Option<String>, extension: Extension },
}

/// Why a file was passed over.
#[derive(Debug, PartialEq, Eq, Clone, Copy, Structural)]
pub enum Skipped {
    /// Its name has no extension.
    NoExtension,
    /// Its extension is no text.
    UndecodableExtension,
    /// Its extension is not `svg`.
    OtherFormat,
    /// It is an icon, but not one that the package's filter lets through.
    Filtered,
}

/// What the walk made of an entry.
#[derive(Debug, PartialEq, Eq)]
pub enum Step {
    /// The entry is a directory; it now waits on the stack.
    Descended,
    /// The entry is a file that yields no icon.
    Skipped(Skipped),
    /// The entry is an icon: its file is to be read and parsed, and the outcome
    /// reported to the walk.
    Load(IconRequest),
    /// The entry is an icon that cannot be named; the walk ends here.
    Failed(IconError),
}

/// The categories that a directory hands down: those that it inherited, and
/// after them its own name where the package takes the name for a category.
pub open spec fn child_categories(
    inherited: Seq<Seq<char>>,
    name: Seq<char>,
    is_category: bool,
) -> Seq<Seq<char>> {
    if is_category {
        inherited.push(name)
    } else {
        inherited
    }
}

/// The size that a directory hands down: the one that it inherited, else the
/// one that its own name is the numeral of.
pub open spec fn child_size(inherited: Option<IconSize>, name: Seq<char>) -> Option<IconSize> {
    match inherited {
        Some(size) => Some(size),
        None => size_of_numeral(name),
    }
}

/// Whether the stem of a file's name ends in one of the two style variants of
/// which the Fluent UI System Icons are taken.
pub open spec fn has_fluent_style(stem: Seq<char>) -> bool {
    "20_regular"@.is_suffix_of(stem) || "20_filled"@.is_suffix_of(stem)
}

/// Whether an `svg` file is taken for an icon. Every package takes each of
/// them, but for the Fluent UI System Icons: there the directory must have
/// exactly two categories, none of them a temporary direction variant, and the
/// file's stem must end in one of the two style variants.
pub open spec fn accepts(
    package: PackageType,
    categories: Seq<Seq<char>>,
    stem: Option<Seq<char>>,
) -> bool {
    package == PackageType::FluentUISystemIcons ==> {
        &&& categories.len() == 2
        &&& forall|i: int| 0 <= i < categories.len() ==> !has_temp_marker(#[trigger] categories[i])
        &&& stem matches Some(stem) && has_fluent_style(stem)
    }
}

/// Whether one of the categories is a temporary direction variant.
fn any_temp_marker(categories: &Vec<Category>) -> (found: bool)
    ensures
        found == exists|i: int|
            0 <= i < categories@.len() && has_temp_marker(#[trigger] texts(categories@)[i]),
{
    let mut i: usize = 0;
    while i < categories.len()
        invariant
            i <= categories.len(),
            forall|k: int| 0 <= k < i ==> !has_temp_marker(#[trigger] texts(categories@)[k]),
        decreases categories.len() - i,
    {
        if temp_marker(categories[i].0.as_str()) {
            assert(has_temp_marker(texts(categories@)[i as int]));
            return true;
        }
        i += 1;
    }
    false
}

/// Decides whether an `svg` file with the stem `stem`, in a directory with the
/// categories `categories`, is taken for an icon of the package.
pub fn accept_icon(package: PackageType, categories: &Vec<Category>, stem: Option<&str>) -> (taken:
    bool)
    ensures
        taken == accepts(
            package,
            texts(categories@),
            match stem {
                Some(stem) => Some(stem@),
                None => None,
            },
        ),
{
    if package != PackageType::FluentUISystemIcons {
        return true;
    }
    if categories.len() != 2 {
        return false;
    }
    if any_temp_marker(categories) {
        return false;
    }
    match stem {
        Some(stem) => ends_with(stem, "20_regular") || ends_with(stem, "20_filled"),
        None => false,
    }
}

impl SearchDir {
    /// The directory at `path` below this one, called `name`: it inherits what
    /// this directory hands down, takes its size from its own name where none
    /// was inherited, and adds its name to the categories where the package
    /// takes the name for one. This directory stays as it is.
    pub fn child(&self, path: PathBuf, name: String, is_category: bool) -> (below: SearchDir)
        ensures
            below.path == path,
            texts(below.categories@) == child_categories(
                texts(self.categories@),
                name@,
                is_category,
            ),
            below.icon_size == child_size(self.icon_size, name@),
    {
        let icon_size = match self.icon_size {
            Some(size) => Some(size),
            None => match IconSize::from_str(name.as_str()) {
                Ok(size) => Some(size),
                Err(_) => None,
            },
        };
        let mut categories = copy_of(&self.categories);
        if is_category {
            let ghost inherited = texts(categories@);
            categories.push(Category(name));
            assert(texts(categories@) =~= inherited.push(name@));
        }
        SearchDir { path, categories, icon_size }
    }
}

/// The stem of a file's name as the contracts see it.
pub open spec fn stem_text(stem: Option<String>) -> Option<Seq<char>> {
    match stem {
        Some(stem) => Some(stem@),
        None => None,
    }
}

/// Whether `step` is what the walk makes of a file at `path`, in a directory
/// that hands down `size` and `categories`:
/// - a file without an extension, or with one that is no text, is passed over;
/// - so is a file whose extension is not `svg`;
/// - so is an `svg` file that the package's filter does not let through;
/// - any other `svg` file is an icon to load, under its feature name; where its
///   path has no stem to name it by, the walk fails.
pub open spec fn is_step_for_file(
    step: Step,
    package: PackageType,
    short_name: Seq<char>,
    size: Option<IconSize>,
    categories: Seq<Seq<char>>,
    path: PathBuf,
    stem: Option<Seq<char>>,
    extension: Extension,
) -> bool {
    match extension {
        Extension::Missing => step == Step::Skipped(Skipped::NoExtension),
        Extension::Undecodable => step == Step::Skipped(Skipped::UndecodableExtension),
        Extension::Text(extension) => if extension@ != "svg"@ {
            step == Step::Skipped(Skipped::OtherFormat)
        } else if !accepts(package, categories, stem) {
            step == Step::Skipped(Skipped::Filtered)
        } else {
            match step {
                Step::Load(icon) => is_request_for(
                    Ok(icon),
                    package,
                    short_name,
                    path,
                    stem,
                    size,
                    categories,
                ),
                Step::Failed(refusal) => is_request_for(
                    Err(refusal),
                    package,
                    short_name,
                    path,
                    stem,
                    size,
                    categories,
                ),
                _ => false,
            }
        },
    }
}

/// Decides what a file at `path` is, in the directory `dir` of the package.
pub fn inspect_file(
    package: &Package,
    dir: &SearchDir,
    path: PathBuf,
    stem: Option<String>,
    extension: Extension,
) -> (step: Step)
    ensures
        is_step_for_file(
            step,
            package.ty,
            package.short_name@,
            dir.icon_size,
            texts(dir.categories@),
            path,
            stem_text(stem),
            extension,
        ),
{
    match extension {
        Extension::Missing => Step::Skipped(Skipped::NoExtension),
        Extension::Undecodable => Step::Skipped(Skipped::UndecodableExtension),
        Extension::Text(extension) => {
            if !same_text(extension.as_str(), "svg") {
                return Step::Skipped(Skipped::OtherFormat);
            }
            let file_stem: Option<&str> = match &stem {
                Some(stem) => Some(stem.as_str()),
                None => None,
            };
            if !accept_icon(package.ty, &dir.categories, file_stem) {
                return Step::Skipped(Skipped::Filtered);
            }
            let request = IconRequest::new(
                package,
                path,
                file_stem,
                dir.icon_size,
                copy_of(&dir.categories),
            );
            match request {
                Ok(icon) => Step::Load(icon),
                Err(refusal) => Step::Failed(refusal),
            }
        },
    }
}

/// The walk through the icon directory of one package: the directories that
/// are still to be listed, the most recently found last, and the icons made so
/// far.
#[derive(Debug)]
pub struct Traversal<S> {
    pub package: Package,
    pub pending: Vec<SearchDir>,
    pub icons: Vec<SvgIcon<S>>,
}

impl<S> Traversal<S> {
    /// Whether this is the walk of `package` at its start: the icon directory
    /// `icons_path` alone is to be listed, with no category and no size, and no
    /// icon has been made.
    pub open spec fn starts_at(self, package: Package, icons_path: PathBuf) -> bool {
        &&& self.package == package
        &&& self.icons@.len() == 0
        &&& self.pending@.len() == 1
        &&& self.pending@[0].path == icons_path
        &&& self.pending@[0].categories@.len() == 0
        &&& self.pending@[0].icon_size.is_none()
    }

    /// Whether taking the next directory from this walk gives `next` and leaves
    /// the walk `after`: the directory found most recently leaves the stack, or
    /// there is none and the stack is empty.
    pub open spec fn takes(self, next: Option<SearchDir>, after: Self) -> bool {
        &&& after.package == self.package
        &&& after.icons == self.icons
        &&& match next {
            Some(dir) => self.pending@.len() > 0 && dir == self.pending@.last() && after.pending@
                == self.pending@.drop_last(),
            None => self.pending@.len() == 0 && after.pending@.len() == 0,
        }
    }

    /// Whether showing this walk the entry `entry` of the directory `dir` gives
    /// `step` and leaves the walk `after`. A directory is put on the stack with
    /// what `dir` hands down to it. A file is judged as `is_step_for_file` says,
    /// and the stack stays as it is.
    pub open spec fn visits(self, dir: SearchDir, entry: Entry, step: Step, after: Self) -> bool {
        &&& after.package == self.package
        &&& after.icons == self.icons
        &&& match entry {
            Entry::Directory { path, name, is_category } => {
                &&& step is Descended
                &&& after.pending@.len() == self.pending@.len() + 1
                &&& after.pending@.drop_last() == self.pending@
                &&& after.pending@.last().path == path
                &&& texts(after.pending@.last().categories@) == child_categories(
                    texts(dir.categories@),
                    name@,
                    is_category,
                )
                &&& after.pending@.last().icon_size == child_size(dir.icon_size, name@)
            },
            Entry::File { path, stem, extension } => {
                &&& after.pending == self.pending
                &&& is_step_for_file(
                    step,
                    self.package.ty,
                    self.package.short_name@,
                    dir.icon_size,
                    texts(dir.categories@),
                    path,
                    stem_text(stem),
                    extension,
                )
            },
        }
    }

    /// Starts the walk of `package` at its icon directory `icons_path`: that
    /// directory alone is to be listed, with no category and no size, and no
    /// icon has been made.
    pub fn new(package: Package, icons_path: PathBuf) -> (walk: Self)
        ensures
            walk.starts_at(package, icons_path),
    {
        let mut pending: Vec<SearchDir> = Vec::new();
        pending.push(SearchDir { path: icons_path, categories: Vec::new(), icon_size: None });
        Traversal { package, pending, icons: Vec::new() }
    }

    /// Whether every directory has been listed.
    pub fn is_finished(&self) -> (finished: bool)
        ensures
            finished == (self.pending@.len() == 0),
    {
        self.pending.len() == 0
    }

    /// Takes the directory that is to be listed next: the one found most
    /// recently. There is none when the walk is finished.
    pub fn next_directory(&mut self) -> (next: Option<SearchDir>)
        ensures
            old(self).takes(next, *final(self)),
    {
        self.pending.pop()
    }

    /// Shows the walk an entry of the directory `dir`, which it handed out
    /// before. A directory is put on the stack with what `dir` hands down to it;
    /// `dir` and the directories already on the stack stay as they are. A file is
    /// judged as `inspect_file` says, and the stack stays as it is.
    pub fn visit(&mut self, dir: &SearchDir, entry: Entry) -> (step: Step)
        ensures
            old(self).visits(*dir, entry, step, *final(self)),
    {
        match entry {
            Entry::Directory { path, name, is_category } => {
                let below = dir.child(path, name, is_category);
                self.pending.push(below);
                assert(self.pending@.drop_last() == old(self).pending@);
                Step::Descended
            },
            Entry::File { path, stem, extension } => inspect_file(
                &self.package,
                dir,
                path,
                stem,
                extension,
            ),
        }
    }

    /// Reports what reading and parsing the file of `request` gave. Where it
    /// gave markup, the icon is added after those made so far; else the walk
    /// fails with the failure, the icon's name, its package and its path, and no
    /// icon is added.
    pub fn loaded(&mut self, request: IconRequest, loaded: Result<S, LoadFailure>) -> (added:
        Result<(), IconError>)
        ensures
            final(self).package == old(self).package,
            final(self).pending == old(self).pending,
            match added {
                Ok(()) => {
                    &&& final(self).icons@.len() == old(self).icons@.len() + 1
                    &&& final(self).icons@.drop_last() == old(self).icons@
                    &&& is_made_from(
                        Ok(final(self).icons@.last()),
                        old(self).package.short_name@,
                        request,
                        loaded,
                    )
                },
                Err(failure) => final(self).icons == old(self).icons && is_made_from::<S>(
                    Err(failure),
                    old(self).package.short_name@,
                    request,
                    loaded,
                ),
            },
    {
        match SvgIcon::new(&self.package, request, loaded) {
            Ok(icon) => {
                self.icons.push(icon);
                assert(self.icons@.drop_last() == old(self).icons@);
                Ok(())
            },
            Err(failure) => Err(failure),
        }
    }

    /// Ends the walk and hands out the icons made, in the order in which they
    /// were made.
    pub fn finish(self) -> (icons: Vec<SvgIcon<S>>)
        ensures
            icons == self.icons,
    {
        self.icons
    }
}

/// A directory hands down what it inherited and its own name, and nothing
/// else: a category of a directory is one that its parent handed down, or its
/// own name. What a sibling added to its own categories is not among them.
pub proof fn lemma_child_inherits_from_parent_alone(
    inherited: Seq<Seq<char>>,
    name: Seq<char>,
    is_category: bool,
    text: Seq<char>,
)
    ensures
        child_categories(inherited, name, is_category).contains(text) <==> inherited.contains(text)
            || (is_category && text == name),
{
    if is_category {
        let below = inherited.push(name);
        if below.contains(text) {
            let i = choose|i: int| 0 <= i < below.len() && below[i] == text;
            if i < inherited.len() {
                assert(inherited[i] == text);
            }
        }
        if inherited.contains(text) {
            let i = choose|i: int| 0 <= i < inherited.len() && inherited[i] == text;
            assert(below[i] == text);
        }
        assert(below[inherited.len() as int] == name);
    }
}

/// Two directories found one after the other in the same directory do not see
/// each other: each waits on the stack with what the directory above hands
/// down and its own name, the second as if the first had not been found. The
/// directory above and the stack below the two are as they were.
pub proof fn lemma_siblings_are_isolated<S>(
    walk: Traversal<S>,
    dir: SearchDir,
    first: Entry,
    first_step: Step,
    between: Traversal<S>,
    second: Entry,
    second_step: Step,
    after: Traversal<S>,
)
    requires
        first is Directory,
        second is Directory,
        walk.visits(dir, first, first_step, between),
        between.visits(dir, second, second_step, after),
    ensures
        after.pending@.len() == walk.pending@.len() + 2,
        after.pending@.take(walk.pending@.len() as int) == walk.pending@,
        after.pending@[walk.pending@.len() as int] == between.pending@.last(),
        texts(after.pending@.last().categories@) == child_categories(
            texts(dir.categories@),
            second->Directory_name@,
            second->Directory_is_category,
        ),
        after.pending@.last().icon_size == child_size(dir.icon_size, second->Directory_name@),
        forall|text: Seq<char>|
            texts(after.pending@.last().categories@).contains(text) ==> texts(
                dir.categories@,
            ).contains(text) || text == second->Directory_name@,
{
    let below = walk.pending@.len() as int;
    assert(after.pending@.drop_last() == between.pending@);
    assert(between.pending@.drop_last() == walk.pending@);
    assert(after.pending@[below] == after.pending@.drop_last()[below]);
    assert(after.pending@.take(below) =~= after.pending@.drop_last().drop_last());
    assert forall|text: Seq<char>|
        texts(after.pending@.last().categories@).contains(text) implies texts(
        dir.categories@,
    ).contains(text) || text == second->Directory_name@ by {
        lemma_child_inherits_from_parent_alone(
            texts(dir.categories@),
            second->Directory_name@,
            second->Directory_is_category,
            text,
        );
    }
}

/// No step of the walk changes a directory that waits on the stack: what a
/// directory was handed when it was found is what it has when it is listed,
/// whatever was found and listed in between.
pub proof fn lemma_waiting_directories_stay<S>(
    walk: Traversal<S>,
    dir: SearchDir,
    entry: Entry,
    step: Step,
    next: Option<SearchDir>,
    after: Traversal<S>,
    i: int,
)
    requires
        walk.visits(dir, entry, step, after) || walk.takes(next, after),
        0 <= i < walk.pending@.len(),
        i < after.pending@.len(),
    ensures
        after.pending@[i] == walk.pending@[i],
{
    if walk.visits(dir, entry, step, after) {
        if entry is Directory {
            assert(after.pending@.drop_last()[i] == after.pending@[i]);
        }
    } else {
        assert(walk.pending@.drop_last()[i] == walk.pending@[i]);
    }
}

/// The filter of the Fluent UI System Icons lets an `svg` file through exactly
/// where its directory has two categories, neither of them a temporary
/// direction variant, and its stem ends in one of the two style variants. With
/// one category or with three, as with any number but two, the file is passed
/// over. Every other package lets every `svg` file through.
pub proof fn lemma_fluent_filter(
    package: PackageType,
    categories: Seq<Seq<char>>,
    stem: Option<Seq<char>>,
)
    ensures
        package != PackageType::FluentUISystemIcons ==> accepts(package, categories, stem),
        categories.len() != 2 ==> !accepts(PackageType::FluentUISystemIcons, categories, stem),
        categories.len() == 2 ==> (accepts(PackageType::FluentUISystemIcons, categories, stem) <==> {
            &&& !has_temp_marker(categories[0])
            &&& !has_temp_marker(categories[1])
            &&& stem matches Some(stem) && has_fluent_style(stem)
        }),
{
}

/// A walk whose icon directory has no entries is over once that directory has
/// been taken from the stack: nothing is left to list, and no icon was made.
pub proof fn lemma_empty_directory<S>(
    walk: Traversal<S>,
    package: Package,
    icons_path: PathBuf,
    next: Option<SearchDir>,
    after: Traversal<S>,
)
    requires
        walk.starts_at(package, icons_path),
        walk.takes(next, after),
    ensures
        next matches Some(dir) && dir.path == icons_path,
        after.pending@.len() == 0,
        after.icons@.len() == 0,
{
}

} // verus!
