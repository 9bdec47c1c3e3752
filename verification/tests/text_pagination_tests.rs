use elerem::pagination::{page_offset, requested_page, requested_per_page, total_pages};
use elerem::responses::{response_status, CRUDError};
use elerem::text::{list_contains_str, split_on_char, str_eq};

#[test]
fn splits_on_commas() {
    let fields = split_on_char("a,b,,c", ',');
    assert_eq!(fields, vec!["a", "b", "", "c"]);
}

#[test]
fn split_without_separator_is_one_field() {
    assert_eq!(split_on_char("alone", ','), vec!["alone"]);
    assert_eq!(split_on_char("", ','), vec![""]);
}

#[test]
fn split_keeps_edge_fields() {
    assert_eq!(split_on_char(",x,", ','), vec!["", "x", ""]);
}

#[test]
fn list_membership() {
    let list = vec!["a.com".to_owned(), "b.org".to_owned()];
    assert!(list_contains_str(&list, "a.com"));
    assert!(!list_contains_str(&list, "c.net"));
    assert!(!list_contains_str(&Vec::new(), "a.com"));
}

#[test]
fn string_equality() {
    assert!(str_eq("abc", "abc"));
    assert!(!str_eq("abc", "abd"));
    assert!(!str_eq("abc", "ab"));
}

#[test]
fn paging_defaults() {
    assert_eq!(requested_page(&None), 1);
    assert_eq!(requested_page(&Some(4)), 4);
    assert_eq!(requested_per_page(&None), 25);
    assert_eq!(requested_per_page(&Some(100)), 100);
}

#[test]
fn page_arithmetic() {
    assert_eq!(page_offset(1, 25), 0);
    assert_eq!(page_offset(3, 25), 50);
    assert_eq!(total_pages(0, 25), 0);
    assert_eq!(total_pages(1, 25), 1);
    assert_eq!(total_pages(25, 25), 1);
    assert_eq!(total_pages(26, 25), 2);
    assert_eq!(total_pages(100, 10), 10);
}

#[test]
fn crud_errors_map_to_statuses() {
    assert_eq!(CRUDError::NotFound.status(), 404);
    assert_eq!(CRUDError::WrongParameters.status(), 404);
    assert_eq!(CRUDError::MaxRetry.status(), 406);
    assert_eq!(CRUDError::Write.status(), 500);
    assert_eq!(CRUDError::Delete.status(), 500);
    assert_eq!(CRUDError::JsonError.status(), 500);
    assert_eq!(CRUDError::InternalError.status(), 500);
    assert_eq!(response_status::<u32>(&Ok(1)), 200);
    assert_eq!(response_status::<u32>(&Err(CRUDError::MaxRetry)), 406);
}
