use elerem::companies::{ShortCompany, ShortCompanyQuery, ShortCompanyResponse};
use elerem::countries::CountryIndexes;
use elerem::dictionary::{DefinitionContent, ShortDefinitionQuery, Status};
use elerem::responses::{AppJson, ErrorMessage};

#[test]
fn company_query_paging_defaults() {
    let query = ShortCompanyQuery {
        country: Some("FR".to_owned()),
        exchange: None,
        industry: None,
        sector: None,
        page: None,
        per_page: None,
    };
    assert_eq!(query.paging(), (1, 25));
    let query = ShortCompanyQuery { page: Some(3), per_page: Some(50), ..query };
    assert_eq!(query.paging(), (3, 50));
}

#[test]
fn company_response_carries_its_page() {
    let data = vec![ShortCompany {
        ticker: "AAPL".to_owned(),
        name: Some("Apple".to_owned()),
        country_id: Some(1),
        exchange_id: Some(2),
        industry_id: None,
        sector_id: None,
    }];
    let response = ShortCompanyResponse::new(data, 7);
    assert_eq!(response.total_pages, 7);
    assert_eq!(response.data.len(), 1);
    assert_eq!(response.data[0].ticker, "AAPL");
}

#[test]
fn definition_query_paging_defaults() {
    let query = ShortDefinitionQuery {
        category: None,
        author: None,
        publication_date: None,
        page: None,
        per_page: Some(10),
    };
    assert_eq!(query.paging(), (1, 10));
}

#[test]
fn dictionary_types_hold_their_fields() {
    let content = DefinitionContent {
        id: 1,
        title: "Interest".to_owned(),
        slug: "interest".to_owned(),
        content: "What money costs.".to_owned(),
        order: 2,
        definition_id: 9,
    };
    assert_eq!(content.order, 2);
    assert_eq!(content.definition_id, 9);
    assert_eq!(Status::Draft, Status::Draft);
    assert_ne!(Status::Publsihed, Status::Scheduled);
}

#[test]
fn wrappers_hold_their_payloads() {
    let body = AppJson(41u32);
    assert_eq!(body.0, 41);
    let message = ErrorMessage::new("oupsi".to_owned());
    assert_eq!(message.message, "oupsi");
    match CountryIndexes::Iso("FR".to_owned()) {
        CountryIndexes::Iso(code) => assert_eq!(code, "FR"),
        CountryIndexes::Id(_) => panic!("wrong index kind"),
    }
}
