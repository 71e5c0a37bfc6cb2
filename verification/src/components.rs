//! Plain data the page components render.
use vstd::prelude::*;

verus! {

/// Content that may still be on its way: a placeholder text until the real
/// content arrives.
#[derive(Clone, Debug, Eq, PartialEq)]
pub enum PlaceholderOrContent {
    Placeholder(String),
    Content(String),
}

/// One row of the contribution list: a project open for hand-ins.
#[derive(Clone, Debug, PartialEq, Eq)]
pub struct ContributionListItem {
    pub id: i32,
    pub title: String,
    pub due: String,
}

/// The contribution list as a whole.
#[derive(Clone, Debug, PartialEq, Eq)]
pub struct Contributions {
    pub contributions: Vec<ContributionListItem>,
}

} // verus!
