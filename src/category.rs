use vstd::prelude::*;

use crate::text::same_text;

verus! {

/// The two groups of announcements.
#[derive(Clone, Copy, Debug, PartialEq, Eq, Structural)]
pub enum Category {
    Morning,
    Curfew,
}

/// The name a user types for a category.
pub open spec fn category_name(c: Category) -> Seq<char> {
    match c {
        Category::Morning => "morning"@,
        Category::Curfew => "curfew"@,
    }
}

/// The category whose name is exactly `name` (case-sensitive), if any.
pub open spec fn category_named(name: Seq<char>) -> Option<Category> {
    if name == "morning"@ {
        Some(Category::Morning)
    } else if name == "curfew"@ {
        Some(Category::Curfew)
    } else {
        None
    }
}

impl Category {
    /// The name of the category, as users write it.
    pub fn name(&self) -> (r: &'static str)
        ensures
            r@ == category_name(*self),
    {
        match self {
            Category::Morning => "morning",
            Category::Curfew => "curfew",
        }
    }
}

/// Reads a category name: "morning" or "curfew", exactly.
pub fn parse_category(name: &str) -> (r: Option<Category>)
    ensures
        r == category_named(name@),
{
    if same_text(name, "morning") {
        Some(Category::Morning)
    } else if same_text(name, "curfew") {
        Some(Category::Curfew)
    } else {
        None
    }
}

} // verus!
