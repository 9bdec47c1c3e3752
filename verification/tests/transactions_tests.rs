use elerem::dates::Date;
use elerem::decimal::Decimal;
use elerem::transactions::accounts::{AccountRequest, Account, Amount, Fee, Rate};
use elerem::transactions::files::{Source, TransactionFile, TransactionsFilesRequest};
use elerem::transactions::import::{
    parse_credit_agricole_rows, parse_firstrade_rows, CreditAgricoleRow,
};

#[test]
fn source_names_are_recognised() {
    assert_eq!(Source::from_text("firstrade"), Source::Firstrade);
    assert_eq!(Source::from_text("credit"), Source::CreditAgricole);
    assert_eq!(Source::from_text("somethingelse"), Source::Custom);
    assert_eq!(Source::from_text(""), Source::Custom);
}

#[test]
fn file_path_is_under_media() {
    let f = TransactionFile::new("statement.csv".to_owned(), vec![1, 2, 3]);
    assert_eq!(f.path(), "media/statement.csv");
    assert_eq!(f.data, vec![1, 2, 3]);
}

#[test]
fn upload_request_builds_field_by_field() {
    let mut req = TransactionsFilesRequest::new();
    assert_eq!(req.source, Source::Custom);
    assert_eq!(req.account_id, None);
    assert_eq!(req.currency_id, None);
    assert_eq!(req.files.len(), 0);

    req.apply_field("source", "s", b"firstrade".to_vec(), Some("firstrade"));
    assert_eq!(req.source, Source::Firstrade);

    req.apply_field("currencyId", "c", b"978".to_vec(), Some("978"));
    assert_eq!(req.currency_id, Some(978));

    req.apply_field("account_id", "a", b"oops".to_vec(), Some("oops"));
    assert_eq!(req.account_id, None);

    req.apply_field("statement", "march.csv", vec![9, 9], Some("\t\t"));
    assert_eq!(req.files.len(), 1);
    assert_eq!(req.files[0].name, "march.csv");
    assert_eq!(req.files[0].data, vec![9, 9]);
    // Unrelated fields kept their values.
    assert_eq!(req.source, Source::Firstrade);
    assert_eq!(req.currency_id, Some(978));
}

#[test]
fn fees_and_rates_attach_to_the_account() {
    let req = AccountRequest {
        account: Account {
            name: "broker".to_owned(),
            category: "invest".to_owned(),
            company: "First".to_owned(),
            description: None,
            currency_id: 840,
            amount: Decimal { mantissa: 100000, scale: 2 },
        },
        fees: vec![Amount {
            description: Some("custody".to_owned()),
            percentage: true,
            recurrence: "yearly".to_owned(),
            amount: Decimal { mantissa: 50, scale: 2 },
        }],
        rates: vec![Amount {
            description: None,
            percentage: true,
            recurrence: "yearly".to_owned(),
            amount: Decimal { mantissa: 300, scale: 2 },
        }],
    };
    let fees: Vec<Fee> = req.fees_for_account(17);
    assert_eq!(fees.len(), 1);
    assert_eq!(fees[0].account_id, 17);
    assert!(fees[0].active && fees[0].percentage);
    assert_eq!(fees[0].recurrence, "yearly");
    assert_eq!(fees[0].amount, Decimal { mantissa: 50, scale: 2 });
    assert_eq!(fees[0].description.as_deref(), Some("custody"));
    let rates: Vec<Rate> = req.rates_for_account(17);
    assert_eq!(rates.len(), 1);
    assert_eq!(rates[0].account_id, 17);
    assert_eq!(rates[0].description, None);
}

#[test]
fn bank_statement_parses_row_by_row() {
    let text = "Date,Description,Debit,Credit\n2024-03-01,groceries,12.50,\n2024-03-02,salary,,1800\n";
    let rows = parse_credit_agricole_rows(text).expect("well-formed statement");
    assert_eq!(rows.len(), 2);
    assert_eq!(rows[0].date, Date { year: 2024, month: 3, day: 1 });
    assert_eq!(rows[0].description, "groceries");
    assert_eq!(rows[0].debit, Some(Decimal { mantissa: 1250, scale: 2 }));
    assert_eq!(rows[0].credit, None);
    assert_eq!(rows[1].credit, Some(Decimal { mantissa: 1800, scale: 0 }));
    assert_eq!(rows[1].debit, None);
}

#[test]
fn bank_statement_accepts_crlf() {
    let text = "Date,Description,Debit,Credit\r\n2024-03-01,cafe,3.20,\r\n";
    let rows = parse_credit_agricole_rows(text).expect("CRLF statement");
    assert_eq!(rows.len(), 1);
    assert_eq!(rows[0].description, "cafe");
}

#[test]
fn bank_statement_rejects_bad_lines() {
    assert!(parse_credit_agricole_rows("Date,Description,Debit,Credit\nnot-a-date,x,,\n").is_none());
    assert!(parse_credit_agricole_rows("Date,Description,Debit,Credit\n2024-03-01,x,\n").is_none());
    assert!(parse_credit_agricole_rows("Wrong,Header\n").is_none());
    assert!(parse_credit_agricole_rows("").is_none());
}

#[test]
fn bank_row_from_fields() {
    let row = CreditAgricoleRow::new("2024-12-31", "year end", "0.99", "junk")
        .expect("valid date");
    assert_eq!(row.date, Date { year: 2024, month: 12, day: 31 });
    assert_eq!(row.debit, Some(Decimal { mantissa: 99, scale: 2 }));
    assert_eq!(row.credit, None);
    assert!(CreditAgricoleRow::new("yesterday", "x", "", "").is_none());
}

#[test]
fn brokerage_statement_parses_trades() {
    let header = "Symbol,Quantity,Price,Action,Description,TradeDate,SettledDate,Interest,Amount,Commission,Fee,CUSIP,RecordType";
    let line = "AAPL,10,178.25,BUY,APPLE INC,2024-02-05,2024-02-07,0,-1782.50,0,0.05,037833100,Trade";
    let text = format!("{header}\n{line}\n");
    let rows = parse_firstrade_rows(&text).expect("well-formed statement");
    assert_eq!(rows.len(), 1);
    let row = &rows[0];
    assert_eq!(row.symbol, "AAPL");
    assert_eq!(row.quantity, Decimal { mantissa: 10, scale: 0 });
    assert_eq!(row.price, Decimal { mantissa: 17825, scale: 2 });
    assert_eq!(row.action, "BUY");
    assert_eq!(row.description, "APPLE INC");
    assert_eq!(row.trade_date, Date { year: 2024, month: 2, day: 5 });
    assert_eq!(row.settled_date, Date { year: 2024, month: 2, day: 7 });
    assert_eq!(row.amount, Decimal { mantissa: -178250, scale: 2 });
    assert_eq!(row.fee, Decimal { mantissa: 5, scale: 2 });
}

#[test]
fn brokerage_statement_rejects_bad_trades() {
    let header = "Symbol,Quantity,Price,Action,Description,TradeDate,SettledDate,Interest,Amount,Commission,Fee,CUSIP,RecordType";
    let short = format!("{header}\nAAPL,10,178.25\n");
    assert!(parse_firstrade_rows(&short).is_none());
    let bad_price = format!(
        "{header}\nAAPL,10,n/a,BUY,APPLE INC,2024-02-05,2024-02-07,0,-1782.50,0,0.05,037833100,Trade\n"
    );
    assert!(parse_firstrade_rows(&bad_price).is_none());
    assert!(parse_firstrade_rows("nonsense").is_none());
}
