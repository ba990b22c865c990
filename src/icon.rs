use vstd::prelude::*;

verus! {

/// The icons shown next to the tab names.
#[derive(Debug, Copy, Clone, PartialEq, Eq, Structural)]
pub enum Icon {
    Language,
    DraftingCompass,
}

/// The CSS class that renders an icon.
pub open spec fn icon_class(icon: Icon) -> Seq<char> {
    match icon {
        Icon::Language => "fa-language"@,
        Icon::DraftingCompass => "fa-drafting-compass"@,
    }
}

impl Icon {
    pub fn to_class(self) -> (r: &'static str)
        ensures
            r@ == icon_class(self),
    {
        match self {
            Icon::Language => "fa-language",
            Icon::DraftingCompass => "fa-drafting-compass",
        }
    }
}

} // verus!
