//! The six size tiers of an icon.

use vstd::prelude::*;

use crate::text::same_text;

verus! {

/// The size tier of an icon.
#[derive(Debug, PartialEq, Eq, PartialOrd, Ord, Clone, Copy, Hash, Structural)]
pub enum IconSize {
    Xs,
    Sm,
    Md,
    Lg,
    Xl,
    Xxl,
}

/// A text that names none of the six size tiers.
#[derive(Debug, Clone, PartialEq, Eq)]
pub struct UnrecognizedSize {
    /// The text that was offered as a size.
    pub text: String,
}

/// The tier that the pixel-size numeral `text` stands for, if it stands for one.
pub open spec fn size_of_numeral(text: Seq<char>) -> Option<IconSize> {
    if text == "12"@ {
        Some(IconSize::Xs)
    } else if text == "16"@ {
        Some(IconSize::Sm)
    } else if text == "20"@ {
        Some(IconSize::Md)
    } else if text == "24"@ {
        Some(IconSize::Lg)
    } else if text == "48"@ {
        Some(IconSize::Xl)
    } else if text == "96"@ {
        Some(IconSize::Xxl)
    } else {
        None
    }
}

/// The tier that has the label `text`, if one has.
pub open spec fn size_of_label(text: Seq<char>) -> Option<IconSize> {
    if text == "xs"@ {
        Some(IconSize::Xs)
    } else if text == "sm"@ {
        Some(IconSize::Sm)
    } else if text == "md"@ {
        Some(IconSize::Md)
    } else if text == "lg"@ {
        Some(IconSize::Lg)
    } else if text == "xl"@ {
        Some(IconSize::Xl)
    } else if text == "xxl"@ {
        Some(IconSize::Xxl)
    } else {
        None
    }
}

impl IconSize {
    /// The lowercase label of the tier, as it stands in a feature name.
    pub open spec fn label(self) -> Seq<char> {
        match self {
            IconSize::Xs => "xs"@,
            IconSize::Sm => "sm"@,
            IconSize::Md => "md"@,
            IconSize::Lg => "lg"@,
            IconSize::Xl => "xl"@,
            IconSize::Xxl => "xxl"@,
        }
    }

    /// The pixel-size numeral by which directory and file names refer to the tier.
    pub open spec fn numeral(self) -> Seq<char> {
        match self {
            IconSize::Xs => "12"@,
            IconSize::Sm => "16"@,
            IconSize::Md => "20"@,
            IconSize::Lg => "24"@,
            IconSize::Xl => "48"@,
            IconSize::Xxl => "96"@,
        }
    }

    /// Renders the tier as its label.
    pub fn as_str(&self) -> (label: &'static str)
        ensures
            label@ == self.label(),
    {
        match self {
            IconSize::Xs => "xs",
            IconSize::Sm => "sm",
            IconSize::Md => "md",
            IconSize::Lg => "lg",
            IconSize::Xl => "xl",
            IconSize::Xxl => "xxl",
        }
    }

    /// Reads a tier from its pixel-size numeral. Any other text is refused and
    /// handed back in the error.
    pub fn from_str(text: &str) -> (parsed: Result<IconSize, UnrecognizedSize>)
        ensures
            match parsed {
                Ok(size) => size_of_numeral(text@) == Some(size),
                Err(refused) => size_of_numeral(text@).is_none() && refused.text@ == text@,
            },
    {
        if same_text(text, "12") {
            Ok(IconSize::Xs)
        } else if same_text(text, "16") {
            Ok(IconSize::Sm)
        } else if same_text(text, "20") {
            Ok(IconSize::Md)
        } else if same_text(text, "24") {
            Ok(IconSize::Lg)
        } else if same_text(text, "48") {
            Ok(IconSize::Xl)
        } else if same_text(text, "96") {
            Ok(IconSize::Xxl)
        } else {
            Err(UnrecognizedSize { text: text.to_owned() })
        }
    }
}

/// The numeral of a tier is read back as that tier.
pub proof fn lemma_numeral_names_its_tier(size: IconSize)
    ensures
        size_of_numeral(size.numeral()) == Some(size),
{
    reveal_strlit("12");
    reveal_strlit("16");
    reveal_strlit("20");
    reveal_strlit("24");
    reveal_strlit("48");
    reveal_strlit("96");
    assert("12"@[0] == '1' && "12"@[1] == '2');
    assert("16"@[0] == '1' && "16"@[1] == '6');
    assert("20"@[0] == '2' && "20"@[1] == '0');
    assert("24"@[0] == '2' && "24"@[1] == '4');
    assert("48"@[0] == '4');
    assert("96"@[0] == '9');
}

/// A text stands for a tier exactly when it is that tier's numeral: the six
/// numerals name six different tiers, and no other text names any.
pub proof fn lemma_numerals_are_unambiguous(text: Seq<char>, size: IconSize)
    ensures
        size_of_numeral(text) == Some(size) <==> text == size.numeral(),
{
    lemma_numeral_names_its_tier(size);
}

/// The label of a tier leads back to that tier.
pub proof fn lemma_label_names_its_tier(size: IconSize)
    ensures
        size_of_label(size.label()) == Some(size),
{
    reveal_strlit("xs");
    reveal_strlit("sm");
    reveal_strlit("md");
    reveal_strlit("lg");
    reveal_strlit("xl");
    reveal_strlit("xxl");
    assert("xs"@[0] == 'x' && "xs"@[1] == 's');
    assert("sm"@[0] == 's');
    assert("md"@[0] == 'm');
    assert("lg"@[0] == 'l');
    assert("xl"@[0] == 'x' && "xl"@[1] == 'l');
    assert("xxl"@.len() == 3);
}

/// From a label to its tier and back to the label changes nothing, and no two
/// tiers share a label.
pub proof fn lemma_labels_are_unambiguous(text: Seq<char>, size: IconSize)
    ensures
        size_of_label(text) == Some(size) <==> text == size.label(),
{
    lemma_label_names_its_tier(size);
}

/// From a numeral to its tier and on to the label: each of the six numerals
/// leads to one label, and a text that is no numeral leads to none.
pub proof fn lemma_numeral_to_label(text: Seq<char>)
    ensures
        match size_of_numeral(text) {
            Some(size) => text == size.numeral() && size_of_label(size.label()) == Some(size),
            None => forall|size: IconSize| text != #[trigger] size.numeral(),
        },
{
    match size_of_numeral(text) {
        Some(size) => {
            lemma_label_names_its_tier(size);
        },
        None => {
            assert forall|size: IconSize| text != #[trigger] size.numeral() by {
                lemma_numerals_are_unambiguous(text, size);
            }
        },
    }
}

} // verus!
