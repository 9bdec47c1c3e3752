use vstd::prelude::*;

use crate::pagination::{page_or_default, per_page_or_default, requested_page, requested_per_page};

verus! {

/// The publication state of a dictionary entry.
#[derive(Debug, PartialEq, Eq, Structural, Clone, Copy)]
pub enum Status {
    Publsihed,
    Draft,
    NeedRevision,
    Scheduled,
}

/// The filters and paging of a definition listing request.
pub struct ShortDefinitionQuery {
    pub category: Option<String>,
    pub author: Option<String>,
    pub publication_date: Option<String>,
    pub page: Option<i64>,
    pub per_page: Option<i64>,
}

impl ShortDefinitionQuery {
    /// The page and page size the listing uses: the request's own, or the
    /// first page of twenty-five.
    pub fn paging(&self) -> (r: (i64, i64))
        ensures
            r.0 == page_or_default(self.page),
            r.1 == per_page_or_default(self.per_page),
    {
        (requested_page(&self.page), requested_per_page(&self.per_page))
    }
}

/// One section of a definition's body.
pub struct DefinitionContent {
    pub id: i64,
    pub title: String,
    pub slug: String,
    pub content: String,
    pub order: i64,
    pub definition_id: i64,
}

/// The key information shown for a definition in listings; the timestamp is
/// seconds since the Unix epoch.
pub struct ShortDefinition {
    pub title: String,
    pub resume: String,
    pub slug: String,
    pub total_views: i64,
    pub updated_at: i64,
    pub total_votes: i64,
    pub author_id: i64,
    pub thumbnail: Option<String>,
}

/// One page of definitions together with the page count.
pub struct ShortDefinitionResponse {
    pub data: Vec<ShortDefinition>,
    pub total_pages: i64,
}

impl ShortDefinitionResponse {
    pub fn new(data: Vec<ShortDefinition>, total_pages: i64) -> (r: Self)
        ensures
            r.data@ == data@,
            r.total_pages == total_pages,
    {
        ShortDefinitionResponse { data, total_pages }
    }
}

/// A dictionary entry; the timestamps are seconds since the Unix epoch.
pub struct Definition {
    pub id: i64,
    pub title: String,
    pub resume: String,
    pub slug: String,
    pub created_at: i64,
    pub total_views: i64,
    pub updated_at: i64,
    pub total_votes: i64,
    pub author_id: i64,
    pub thumbnail: Option<String>,
}

/// A whole definition: the entry and its body sections.
pub struct DefinitionResponse {
    pub definition: Definition,
    pub content: Vec<DefinitionContent>,
}

impl DefinitionResponse {
    pub fn new(definition: Definition, content: Vec<DefinitionContent>) -> (r: Self)
        ensures
            r.definition == definition,
            r.content@ == content@,
    {
        DefinitionResponse { definition, content }
    }
}

} // verus!
