//! Categories: the tags that group icons by style or variant.

use vstd::prelude::*;

verus! {

/// A tag that an icon carries, such as a style or a language code. Two
/// categories are the same when their texts are.
#[derive(Debug, PartialEq, Eq, PartialOrd, Ord, Hash)]
pub struct Category(pub String);

impl View for Category {
    type V = Seq<char>;

    open spec fn view(&self) -> Seq<char> {
        self.0@
    }
}

impl Clone for Category {
    fn clone(&self) -> (copy: Self)
        ensures
            copy@ == self@,
    {
        Category(self.0.clone())
    }
}

/// The texts of a list of categories, in the list's order.
pub open spec fn texts(categories: Seq<Category>) -> Seq<Seq<char>> {
    categories.map_values(|category: Category| category@)
}

/// Copies a list of categories; the copy shares nothing with the list.
pub fn copy_of(categories: &Vec<Category>) -> (copy: Vec<Category>)
    ensures
        texts(copy@) == texts(categories@),
{
    let mut copy: Vec<Category> = Vec::new();
    let mut i: usize = 0;
    while i < categories.len()
        invariant
            i <= categories.len(),
            copy.len() == i,
            forall|k: int| 0 <= k < i ==> copy@[k]@ == categories@[k]@,
        decreases categories.len() - i,
    {
        copy.push(categories[i].clone());
        i += 1;
    }
    assert(texts(copy@) =~= texts(categories@));
    copy
}

/// Whether one of the categories has the text `text`.
pub fn has_category(categories: &Vec<Category>, text: &str) -> (found: bool)
    ensures
        found == texts(categories@).contains(text@),
{
    let mut i: usize = 0;
    while i < categories.len()
        invariant
            i <= categories.len(),
            forall|k: int| 0 <= k < i ==> categories@[k]@ != text@,
        decreases categories.len() - i,
    {
        if crate::text::same_text(categories[i].0.as_str(), text) {
            assert(texts(categories@)[i as int] == text@);
            return true;
        }
        i += 1;
    }
    false
}

} // verus!
