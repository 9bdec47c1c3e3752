use vstd::prelude::*;

use crate::pagination::{page_or_default, per_page_or_default, requested_page, requested_per_page};

verus! {

/// The filters and paging of a company listing request.
pub struct ShortCompanyQuery {
    pub country: Option<String>,
    pub exchange: Option<String>,
    pub industry: Option<String>,
    pub sector: Option<String>,
    pub page: Option<i64>,
    pub per_page: Option<i64>,
}

impl ShortCompanyQuery {
    /// The page and page size the listing uses: the request's own, or the
    /// first page of twenty-five.
    pub fn paging(&self) -> (r: (i64, i64))
        ensures
            r.0 == page_or_default(self.page),
            r.1 == per_page_or_default(self.per_page),
    {
        (requested_page(&self.page), requested_per_page(&self.per_page))
    }
}

/// The key information shown for a company in listings.
pub struct ShortCompany {
    pub ticker: String,
    pub name: Option<String>,
    pub country_id: Option<i64>,
    pub exchange_id: Option<i64>,
    pub industry_id: Option<i64>,
    pub sector_id: Option<i64>,
}

/// One page of companies together with the page count.
pub struct ShortCompanyResponse {
    pub data: Vec<ShortCompany>,
    pub total_pages: i64,
}

impl ShortCompanyResponse {
    pub fn new(data: Vec<ShortCompany>, total_pages: i64) -> (r: Self)
        ensures
            r.data@ == data@,
            r.total_pages == total_pages,
    {
        ShortCompanyResponse { data, total_pages }
    }
}

} // verus!
