use vstd::prelude::*;

verus! {

/// The query parameters of a meal listing: a paging window and an optional
/// name search.
#[derive(Debug, Clone)]
pub struct GetMealItemsInformation {
    pub start: Option<i64>,
    pub end: Option<i64>,
    pub search: Option<String>,
}

} // verus!
