use vstd::prelude::*;

use crate::dates::{is_iso_date, iso_day, iso_month, iso_year, parse_iso_date, Date};
use crate::decimal::{
    decimal_mantissa, decimal_scale, is_decimal_value, parse_decimal, Decimal,
};
use crate::text::{split_on_char, split_spec, str_eq, views_of};

verus! {

/// A line with its trailing carriage return, if any, removed.
pub open spec fn trim_cr(s: Seq<char>) -> Seq<char> {
    if s.len() > 0 && s.last() == '\r' {
        s.drop_last()
    } else {
        s
    }
}

fn strip_cr(line: &str) -> (r: String)
    ensures
        r@ == trim_cr(line@),
{
    let n = line.unicode_len();
    if n > 0 && line.get_char(n - 1) == '\r' {
        let r = line.substring_char(0, n - 1).to_owned();
        proof {
            assert(line@.subrange(0, n - 1) =~= line@.drop_last());
        }
        r
    } else {
        line.to_owned()
    }
}

/// The date a valid ISO field denotes.
pub open spec fn date_of(s: Seq<char>) -> Date {
    Date { year: iso_year(s) as i32, month: iso_month(s) as u8, day: iso_day(s) as u8 }
}

/// The amount a valid decimal field denotes.
pub open spec fn decimal_of(s: Seq<char>) -> Decimal {
    Decimal { mantissa: decimal_mantissa(s) as i64, scale: decimal_scale(s) as u32 }
}

/// The amount a field denotes, where it is one.
pub open spec fn decimal_opt(s: Seq<char>) -> Option<Decimal> {
    if is_decimal_value(s) {
        Some(decimal_of(s))
    } else {
        None
    }
}

/// The lines of a statement file.
pub open spec fn statement_lines(text: Seq<char>) -> Seq<Seq<char>> {
    split_spec(text, '\n')
}

/// The record lines: everything after the header, a trailing empty line
/// ignored.
pub open spec fn data_lines(lines: Seq<Seq<char>>) -> Seq<Seq<char>> {
    if lines.len() > 1 && lines.last().len() == 0 {
        lines.drop_last().skip(1)
    } else {
        lines.skip(1)
    }
}

/// The comma-separated fields of one record line.  The grammar is plain:
/// every comma separates, so a field cannot hold one, and quoting is not
/// part of it.
pub open spec fn line_fields(line: Seq<char>) -> Seq<Seq<char>> {
    split_spec(trim_cr(line), ',')
}

/// One money movement of a bank statement.
pub struct CreditAgricoleRow {
    pub date: Date,
    pub description: String,
    pub debit: Option<Decimal>,
    pub credit: Option<Decimal>,
}

impl CreditAgricoleRow {
    /// A row from its four fields: the date must be a calendar date; a debit
    /// or credit that is no amount is left unset.
    pub fn new(date: &str, description: &str, debit: &str, credit: &str) -> (r: Option<Self>)
        ensures
            r is Some <==> is_iso_date(date@),
            r matches Some(row) ==> {
                &&& row.date == date_of(date@)
                &&& row.description@ == description@
                &&& row.debit == decimal_opt(debit@)
                &&& row.credit == decimal_opt(credit@)
            },
    {
        let d = match parse_iso_date(date) {
            Some(d) => d,
            None => {
                return None;
            },
        };
        Some(
            CreditAgricoleRow {
                date: d,
                description: description.to_owned(),
                debit: parse_decimal(debit),
                credit: parse_decimal(credit),
            },
        )
    }
}

/// A record line of a bank statement: date, description, debit, credit.
pub open spec fn ca_line_ok(line: Seq<char>) -> bool {
    &&& line_fields(line).len() == 4
    &&& is_iso_date(line_fields(line)[0])
}

pub open spec fn ca_row_matches(row: CreditAgricoleRow, line: Seq<char>) -> bool {
    let f = line_fields(line);
    &&& row.date == date_of(f[0])
    &&& row.description@ == f[1]
    &&& row.debit == decimal_opt(f[2])
    &&& row.credit == decimal_opt(f[3])
}

/// A well-formed bank statement: the expected header, then record lines.
pub open spec fn ca_file_ok(text: Seq<char>) -> bool {
    let lines = statement_lines(text);
    &&& trim_cr(lines[0]) == "Date,Description,Debit,Credit"@
    &&& forall|i: int|
        0 <= i < data_lines(lines).len() ==> ca_line_ok(#[trigger] data_lines(lines)[i])
}

/// Parses a bank statement export: a header line, then one row per money
/// movement, in the plain unquoted grammar of `line_fields`.  The whole
/// file is turned away if any line is malformed, as the statement importer
/// stops on the first bad record.
pub fn parse_credit_agricole_rows(text: &str) -> (r: Option<Vec<CreditAgricoleRow>>)
    ensures
        r is Some <==> ca_file_ok(text@),
        r matches Some(rows) ==> {
            &&& rows@.len() == data_lines(statement_lines(text@)).len()
            &&& forall|i: int|
                0 <= i < rows@.len() ==> ca_row_matches(
                    #[trigger] rows@[i],
                    data_lines(statement_lines(text@))[i],
                )
        },
{
    let lines = split_on_char(text, '\n');
    let ghost lv = views_of(lines@);
    let header = strip_cr(lines[0].as_str());
    if !str_eq(header.as_str(), "Date,Description,Debit,Credit") {
        return None;
    }
    let n = lines.len();
    let end: usize = if n > 1 && lines[n - 1].as_str().unicode_len() == 0 {
        n - 1
    } else {
        n
    };
    proof {
        assert(data_lines(lv).len() == end - 1);
        assert(forall|k: int| 0 <= k < end - 1 ==> #[trigger] data_lines(lv)[k] == lv[k + 1]);
    }
    let mut rows: Vec<CreditAgricoleRow> = Vec::new();
    let mut i: usize = 1;
    while i < end
        invariant
            1 <= i <= end <= n,
            n == lines@.len(),
            lv == views_of(lines@),
            lv == statement_lines(text@),
            forall|k: int| 0 <= k < n ==> #[trigger] lv[k] == lines@[k]@,
            data_lines(lv).len() == end - 1,
            forall|k: int| 0 <= k < end - 1 ==> #[trigger] data_lines(lv)[k] == lv[k + 1],
            rows@.len() == i - 1,
            forall|k: int| 0 <= k < i - 1 ==> ca_line_ok(#[trigger] lv[k + 1]),
            forall|k: int|
                0 <= k < i - 1 ==> ca_row_matches(#[trigger] rows@[k], lv[k + 1]),
        decreases end - i,
    {
        let line = strip_cr(lines[i].as_str());
        let fields = split_on_char(line.as_str(), ',');
        proof {
            assert(views_of(fields@) == line_fields(lv[i as int]));
        }
        if fields.len() != 4 {
            proof {
                assert(!ca_line_ok(data_lines(lv)[i - 1]));
            }
            return None;
        }
        let row = match CreditAgricoleRow::new(
            fields[0].as_str(),
            fields[1].as_str(),
            fields[2].as_str(),
            fields[3].as_str(),
        ) {
            Some(row) => row,
            None => {
                proof {
                    assert(views_of(fields@)[0] == fields@[0]@);
                    assert(!ca_line_ok(data_lines(lv)[i - 1]));
                }
                return None;
            },
        };
        proof {
            assert(views_of(fields@)[0] == fields@[0]@);
            assert(views_of(fields@)[1] == fields@[1]@);
            assert(views_of(fields@)[2] == fields@[2]@);
            assert(views_of(fields@)[3] == fields@[3]@);
            assert(ca_row_matches(row, lv[i as int]));
            assert(ca_line_ok(lv[i as int]));
        }
        rows.push(row);
        i = i + 1;
    }
    proof {
        assert(ca_file_ok(text@));
    }
    Some(rows)
}

/// One trade of a brokerage statement.
pub struct FirstradeRow {
    pub symbol: String,
    pub quantity: Decimal,
    pub price: Decimal,
    pub action: String,
    pub description: String,
    pub trade_date: Date,
    pub settled_date: Date,
    pub interest: Decimal,
    pub amount: Decimal,
    pub commission: Decimal,
    pub fee: Decimal,
}

/// A record line of a brokerage statement: thirteen fields, the dates real
/// dates, every money column an amount.
pub open spec fn ft_line_ok(line: Seq<char>) -> bool {
    let f = line_fields(line);
    &&& f.len() == 13
    &&& is_decimal_value(f[1])
    &&& is_decimal_value(f[2])
    &&& is_iso_date(f[5])
    &&& is_iso_date(f[6])
    &&& is_decimal_value(f[7])
    &&& is_decimal_value(f[8])
    &&& is_decimal_value(f[9])
    &&& is_decimal_value(f[10])
}

pub open spec fn ft_row_matches(row: FirstradeRow, line: Seq<char>) -> bool {
    let f = line_fields(line);
    &&& row.symbol@ == f[0]
    &&& row.quantity == decimal_of(f[1])
    &&& row.price == decimal_of(f[2])
    &&& row.action@ == f[3]
    &&& row.description@ == f[4]
    &&& row.trade_date == date_of(f[5])
    &&& row.settled_date == date_of(f[6])
    &&& row.interest == decimal_of(f[7])
    &&& row.amount == decimal_of(f[8])
    &&& row.commission == decimal_of(f[9])
    &&& row.fee == decimal_of(f[10])
}

/// A well-formed brokerage statement: the expected header, then trades.
pub open spec fn ft_file_ok(text: Seq<char>) -> bool {
    let lines = statement_lines(text);
    &&& trim_cr(lines[0])
        == "Symbol,Quantity,Price,Action,Description,TradeDate,SettledDate,Interest,Amount,Commission,Fee,CUSIP,RecordType"@
    &&& forall|i: int|
        0 <= i < data_lines(lines).len() ==> ft_line_ok(#[trigger] data_lines(lines)[i])
}

/// Parses a brokerage statement export: a header line, then one row per
/// trade, in the plain unquoted grammar of `line_fields`.  The last two
/// columns name the security's identifier and record kind; the trade rows
/// do not carry them.
pub fn parse_firstrade_rows(text: &str) -> (r: Option<Vec<FirstradeRow>>)
    ensures
        r is Some <==> ft_file_ok(text@),
        r matches Some(rows) ==> {
            &&& rows@.len() == data_lines(statement_lines(text@)).len()
            &&& forall|i: int|
                0 <= i < rows@.len() ==> ft_row_matches(
                    #[trigger] rows@[i],
                    data_lines(statement_lines(text@))[i],
                )
        },
{
    let lines = split_on_char(text, '\n');
    let ghost lv = views_of(lines@);
    let header = strip_cr(lines[0].as_str());
    if !str_eq(
        header.as_str(),
        "Symbol,Quantity,Price,Action,Description,TradeDate,SettledDate,Interest,Amount,Commission,Fee,CUSIP,RecordType",
    ) {
        return None;
    }
    let n = lines.len();
    let end: usize = if n > 1 && lines[n - 1].as_str().unicode_len() == 0 {
        n - 1
    } else {
        n
    };
    proof {
        assert(data_lines(lv).len() == end - 1);
        assert(forall|k: int| 0 <= k < end - 1 ==> #[trigger] data_lines(lv)[k] == lv[k + 1]);
    }
    let mut rows: Vec<FirstradeRow> = Vec::new();
    let mut i: usize = 1;
    while i < end
        invariant
            1 <= i <= end <= n,
            n == lines@.len(),
            lv == views_of(lines@),
            lv == statement_lines(text@),
            forall|k: int| 0 <= k < n ==> #[trigger] lv[k] == lines@[k]@,
            data_lines(lv).len() == end - 1,
            forall|k: int| 0 <= k < end - 1 ==> #[trigger] data_lines(lv)[k] == lv[k + 1],
            rows@.len() == i - 1,
            forall|k: int| 0 <= k < i - 1 ==> ft_line_ok(#[trigger] lv[k + 1]),
            forall|k: int|
                0 <= k < i - 1 ==> ft_row_matches(#[trigger] rows@[k], lv[k + 1]),
        decreases end - i,
    {
        let line = strip_cr(lines[i].as_str());
        let fields = split_on_char(line.as_str(), ',');
        proof {
            assert(views_of(fields@) == line_fields(lv[i as int]));
            assert(forall|k: int|
                0 <= k < fields@.len() ==> #[trigger] views_of(fields@)[k] == fields@[k]@);
        }
        if fields.len() != 13 {
            proof {
                assert(!ft_line_ok(data_lines(lv)[i - 1]));
            }
            return None;
        }
        let quantity = parse_decimal(fields[1].as_str());
        let price = parse_decimal(fields[2].as_str());
        let trade_date = parse_iso_date(fields[5].as_str());
        let settled_date = parse_iso_date(fields[6].as_str());
        let interest = parse_decimal(fields[7].as_str());
        let amount = parse_decimal(fields[8].as_str());
        let commission = parse_decimal(fields[9].as_str());
        let fee = parse_decimal(fields[10].as_str());
        let row = match (quantity, price, trade_date, settled_date, interest, amount, commission,
        fee) {
            (
                Some(quantity),
                Some(price),
                Some(trade_date),
                Some(settled_date),
                Some(interest),
                Some(amount),
                Some(commission),
                Some(fee),
            ) => FirstradeRow {
                symbol: fields[0].clone(),
                quantity,
                price,
                action: fields[3].clone(),
                description: fields[4].clone(),
                trade_date,
                settled_date,
                interest,
                amount,
                commission,
                fee,
            },
            _ => {
                proof {
                    assert(!ft_line_ok(data_lines(lv)[i - 1]));
                }
                return None;
            },
        };
        proof {
            assert(ft_row_matches(row, lv[i as int]));
            assert(ft_line_ok(lv[i as int]));
        }
        rows.push(row);
        i = i + 1;
    }
    proof {
        assert(ft_file_ok(text@));
    }
    Some(rows)
}

/// The ledger half of an imported movement.
pub struct Transaction {
    pub user_id: i64,
    pub details_id: i64,
    pub exchange_rate_id: Option<i64>,
    pub date: Date,
    pub amount: Decimal,
    pub category: String,
}

/// The descriptive half of an imported movement.
pub struct TransactionDetail {
    pub date: Date,
    pub description: Option<String>,
    pub comment: Option<String>,
    pub file_id: i64,
    pub currency_id: i64,
    pub investment_details_id: Option<i64>,
    pub original_amount: Decimal,
}

/// An imported movement ready to store: the ledger entry and its details.
pub struct TransactionWrapper {
    pub transaction: Transaction,
    pub details: TransactionDetail,
}

} // verus!
