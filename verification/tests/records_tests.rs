use elerem::currencies::{ExchangeRatePayload};
use elerem::dates::Date;
use elerem::decimal::Decimal;
use elerem::dictionary::{Definition, DefinitionContent, DefinitionResponse};
use elerem::transactions::records::{
    AssetDetail, InvestmentDetail, Transaction, TransactionDetail, TransactionRequest,
};

fn sample_transaction() -> Transaction {
    Transaction {
        user_id: 0,
        details_id: None,
        account_id: 12,
        date: Date { year: 2024, month: 5, day: 6 },
        amount: Decimal { mantissa: -995, scale: 2 },
        category: "fees".to_owned(),
    }
}

#[test]
fn owner_assignment_touches_only_ownership() {
    let mut t = sample_transaction();
    t.assign_owner(42, 7);
    assert_eq!(t.user_id, 42);
    assert_eq!(t.details_id, Some(7));
    assert_eq!(t.account_id, 12);
    assert_eq!(t.amount, Decimal { mantissa: -995, scale: 2 });
    assert_eq!(t.category, "fees");
}

#[test]
fn investment_needs_both_halves() {
    let details = TransactionDetail {
        description: None,
        comment: None,
        original_amount: Decimal { mantissa: 100, scale: 0 },
        fee: Decimal { mantissa: 0, scale: 0 },
    };
    let investment = InvestmentDetail {
        quantity: Decimal { mantissa: 3, scale: 0 },
        cost: Decimal { mantissa: 300, scale: 0 },
        asset_id: 0,
    };
    let asset = AssetDetail {
        category: "stock".to_owned(),
        name: "ACME".to_owned(),
        company_id: None,
    };
    let mut req = TransactionRequest {
        details,
        investment_details: Some(investment),
        transaction: sample_transaction(),
        asset: Some(asset),
    };
    assert!(req.has_investment());
    req.asset = None;
    assert!(!req.has_investment());
}

#[test]
fn investment_binds_to_its_asset() {
    let investment = InvestmentDetail {
        quantity: Decimal { mantissa: 3, scale: 0 },
        cost: Decimal { mantissa: 300, scale: 0 },
        asset_id: 0,
    };
    let bound = investment.with_asset(91);
    assert_eq!(bound.asset_id, 91);
    assert_eq!(bound.quantity, Decimal { mantissa: 3, scale: 0 });
}

#[test]
fn exchange_rate_resolves_currency_codes() {
    let payload = ExchangeRatePayload {
        base: "USD".to_owned(),
        target: "EUR".to_owned(),
        conversion_rate: "0.93".to_owned(),
        precision: 10,
        scale: 2,
        date: Date { year: 2024, month: 7, day: 1 },
        source: "ecb".to_owned(),
    };
    let rate = payload.into_rate(840, 978);
    assert_eq!(rate.base_id, 840);
    assert_eq!(rate.target_id, 978);
    assert_eq!(rate.conversion_rate, "0.93");
    assert_eq!(rate.date, Date { year: 2024, month: 7, day: 1 });
}

#[test]
fn definition_response_holds_its_sections() {
    let definition = Definition {
        id: 3,
        title: "Bond".to_owned(),
        resume: "A loan".to_owned(),
        slug: "bond".to_owned(),
        created_at: 1_700_000_000,
        total_views: 12,
        updated_at: 1_700_000_100,
        total_votes: 4,
        author_id: 1,
        thumbnail: None,
    };
    let content = vec![DefinitionContent {
        id: 8,
        title: "Basics".to_owned(),
        slug: "basics".to_owned(),
        content: "Lending".to_owned(),
        order: 1,
        definition_id: 3,
    }];
    let response = DefinitionResponse::new(definition, content);
    assert_eq!(response.definition.slug, "bond");
    assert_eq!(response.content.len(), 1);
    assert_eq!(response.content[0].definition_id, 3);
}
