use vstd::prelude::*;

verus! {

/// The body of an ingredient-creation request.
#[derive(Debug, Clone)]
pub struct IngredientItemCreationInformation {
    pub name: String,
}

/// The query parameters of an ingredient listing: a paging window, an
/// optional name search, and whether to list only the caller's own items.
#[derive(Debug, Clone)]
pub struct GetIngredientItemsInformation {
    pub start: Option<i64>,
    pub end: Option<i64>,
    pub search: Option<String>,
    pub mine: Option<bool>,
}

} // verus!
