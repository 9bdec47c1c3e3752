use vstd::prelude::*;

use crate::numeric::{int_literal_value, is_i64_literal, parse_i64};
use crate::text::str_eq;

verus! {

/// Which broker's statement format an uploaded file is in.
#[derive(Debug, PartialEq, Eq, Structural, Clone, Copy)]
pub enum Source {
    Firstrade,
    CreditAgricole,
    Custom,
}

/// The format a source field names; anything unknown is custom.
pub open spec fn source_of_text(v: Seq<char>) -> Source {
    if v == "firstrade"@ {
        Source::Firstrade
    } else if v == "credit"@ {
        Source::CreditAgricole
    } else {
        Source::Custom
    }
}

impl Source {
    pub fn from_text(value: &str) -> (r: Self)
        ensures
            r == source_of_text(value@),
    {
        if str_eq(value, "firstrade") {
            Source::Firstrade
        } else if str_eq(value, "credit") {
            Source::CreditAgricole
        } else {
            Source::Custom
        }
    }
}

/// One uploaded statement file.
pub struct TransactionFile {
    pub name: String,
    pub data: Vec<u8>,
}

impl TransactionFile {
    pub fn new(name: String, data: Vec<u8>) -> (r: Self)
        ensures
            r.name@ == name@,
            r.data@ == data@,
    {
        TransactionFile { name, data }
    }

    /// Where the file is stored: under the media directory, by its own name.
    pub fn path(&self) -> (r: String)
        ensures
            r@ == "media/"@ + self.name@,
    {
        let mut r = String::new();
        r.append("media/");
        r.append(self.name.as_str());
        r
    }
}

/// The number a text field carries, if it is one.
pub open spec fn parsed_id(text: Option<&str>) -> Option<i64> {
    match text {
        Some(t) => if is_i64_literal(t@) {
            Some(int_literal_value(t@) as i64)
        } else {
            None
        },
        None => None,
    }
}

/// An upload request assembled field by field from a multipart form.
pub struct TransactionsFilesRequest {
    pub user_id: i64,
    pub source: Source,
    pub account_id: Option<i64>,
    pub currency_id: Option<i64>,
    pub files: Vec<TransactionFile>,
}

impl TransactionsFilesRequest {
    /// An empty request: no owner, custom format, no account, no currency,
    /// no files.
    pub fn new() -> (r: Self)
        ensures
            r.user_id == 0,
            r.source == Source::Custom,
            r.account_id is None,
            r.currency_id is None,
            r.files@.len() == 0,
    {
        TransactionsFilesRequest {
            user_id: 0,
            source: Source::Custom,
            account_id: None,
            currency_id: None,
            files: Vec::new(),
        }
    }

    /// Takes in one field of the form.  A field named `source` picks the
    /// statement format; `currencyId` and `account_id` carry numbers, unset
    /// when the text is no number; any other field is a statement file.
    /// `text` is the field's data read as text, where it is text.
    pub fn apply_field(&mut self, name: &str, file_name: &str, data: Vec<u8>, text: Option<&str>)
        ensures
            final (self).user_id == old(self).user_id,
            name@ == "source"@ ==> {
                &&& (match text {
                    Some(t) => final (self).source == source_of_text(t@),
                    None => final (self).source == Source::Custom,
                })
                &&& final (self).account_id == old(self).account_id
                &&& final (self).currency_id == old(self).currency_id
                &&& final (self).files@ == old(self).files@
            },
            name@ == "currencyId"@ ==> {
                &&& final (self).currency_id == parsed_id(text)
                &&& final (self).source == old(self).source
                &&& final (self).account_id == old(self).account_id
                &&& final (self).files@ == old(self).files@
            },
            name@ == "account_id"@ ==> {
                &&& final (self).account_id == parsed_id(text)
                &&& final (self).source == old(self).source
                &&& final (self).currency_id == old(self).currency_id
                &&& final (self).files@ == old(self).files@
            },
            (name@ != "source"@ && name@ != "currencyId"@ && name@ != "account_id"@) ==> {
                &&& final (self).source == old(self).source
                &&& final (self).account_id == old(self).account_id
                &&& final (self).currency_id == old(self).currency_id
                &&& final (self).files@.len() == old(self).files@.len() + 1
                &&& final (self).files@.last().name@ == file_name@
                &&& final (self).files@.last().data@ == data@
                &&& final (self).files@.take(old(self).files@.len() as int) == old(self).files@
            },
    {
        proof {
            reveal_strlit("source");
            reveal_strlit("currencyId");
            reveal_strlit("account_id");
            assert("source"@.len() == 6);
            assert("currencyId"@.len() == 10);
            assert("account_id"@.len() == 10);
            assert("currencyId"@[0] == 'c' && "account_id"@[0] == 'a');
            assert("source"@ != "currencyId"@);
            assert("source"@ != "account_id"@);
            assert("currencyId"@ != "account_id"@);
        }
        if str_eq(name, "source") {
            self.source = match text {
                Some(t) => Source::from_text(t),
                None => Source::Custom,
            };
        } else if str_eq(name, "currencyId") {
            self.currency_id = match text {
                Some(t) => parse_i64(t),
                None => None,
            };
        } else if str_eq(name, "account_id") {
            self.account_id = match text {
                Some(t) => parse_i64(t),
                None => None,
            };
        } else {
            let ghost prior = self.files@;
            self.files.push(TransactionFile::new(file_name.to_owned(), data));
            proof {
                assert(self.files@.take(prior.len() as int) =~= prior);
            }
        }
    }
}

} // verus!
