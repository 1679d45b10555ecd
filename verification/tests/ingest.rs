use receipt_guard::guard::ingest;
use receipt_guard::receipt::{Error, Outcome};

fn body(text: &str) -> Result<Vec<u8>, String> {
    Ok(text.as_bytes().to_vec())
}

const TARGET: &str = "{\"retailer\":\"Target\",\"purchase_date\":\"2022-01-01\",\
         \"purchase_time\":\"13:01\",\"items\":[{\"short_description\":\
         \"Pepsi - 12-oz\",\"price\":\"1.25\"}],\"total\":\"1.25\"}";

#[test]
fn accepts_complete_receipt() {
    let out = ingest("application/json", body(TARGET), 4096);
    match out {
        Outcome::Accept(receipt) => {
            assert_eq!(receipt.retailer, "Target");
            assert_eq!(receipt.purchase_date, "2022-01-01");
            assert_eq!(receipt.purchase_time, "13:01");
            assert_eq!(receipt.items.len(), 1);
            assert_eq!(receipt.items[0].short_description, "Pepsi - 12-oz");
            assert_eq!(receipt.items[0].price, "1.25");
            assert_eq!(receipt.total, "1.25");
        }
        _ => panic!("a complete receipt must be accepted"),
    }
}

#[test]
fn forwards_on_other_media_type() {
    assert!(matches!(
        ingest("text/plain", body(TARGET), 4096),
        Outcome::Forward
    ));
    assert!(matches!(
        ingest("application/xml", body("<receipt/>"), 4096),
        Outcome::Forward
    ));
    assert!(matches!(ingest("", body(TARGET), 4096), Outcome::Forward));
    assert!(matches!(
        ingest("application/jsonx", body(TARGET), 4096),
        Outcome::Forward
    ));
}

#[test]
fn media_type_match_ignores_ascii_case() {
    assert!(matches!(
        ingest("Application/JSON", body(TARGET), 4096),
        Outcome::Accept(_)
    ));
    assert!(matches!(
        ingest("APPLICATION/JSON", body(TARGET), 4096),
        Outcome::Accept(_)
    ));
}

#[test]
fn size_ceiling_is_exact() {
    let n = TARGET.len();
    assert!(matches!(
        ingest("application/json", body(TARGET), n),
        Outcome::Accept(_)
    ));
    assert!(matches!(
        ingest("application/json", body(TARGET), n - 1),
        Outcome::Reject(Error::PayloadTooLarge)
    ));
}

#[test]
fn rejects_malformed_json() {
    assert!(matches!(
        ingest("application/json", body("{not json"), 4096),
        Outcome::Reject(Error::MalformedJson)
    ));
    assert!(matches!(
        ingest("application/json", body(""), 4096),
        Outcome::Reject(Error::MalformedJson)
    ));
}

#[test]
fn rejects_items_of_wrong_kind() {
    let text = "{\"retailer\":\"A\",\"purchase_date\":\"2024-01-01\",\
         \"purchase_time\":\"12:00\",\"items\":\"not-an-array\",\
         \"total\":\"1.00\"}";
    assert!(matches!(
        ingest("application/json", body(text), 4096),
        Outcome::Reject(Error::StructuralMismatch)
    ));
}

#[test]
fn rejects_missing_field() {
    let text = "{\"retailer\":\"A\",\"purchase_date\":\"2024-01-01\",\
         \"purchase_time\":\"12:00\",\"items\":[]}";
    assert!(matches!(
        ingest("application/json", body(text), 4096),
        Outcome::Reject(Error::StructuralMismatch)
    ));
}

#[test]
fn rejects_non_string_scalar_field() {
    let text = "{\"retailer\":\"A\",\"purchase_date\":\"2024-01-01\",\
         \"purchase_time\":\"12:00\",\"items\":[],\"total\":1.0}";
    assert!(matches!(
        ingest("application/json", body(text), 4096),
        Outcome::Reject(Error::StructuralMismatch)
    ));
}

#[test]
fn rejects_incomplete_item() {
    let text = "{\"retailer\":\"A\",\"purchase_date\":\"2024-01-01\",\
         \"purchase_time\":\"12:00\",\
         \"items\":[{\"short_description\":\"A\"}],\"total\":\"1.00\"}";
    assert!(matches!(
        ingest("application/json", body(text), 4096),
        Outcome::Reject(Error::StructuralMismatch)
    ));
}

#[test]
fn rejects_non_object_document() {
    assert!(matches!(
        ingest("application/json", body("[1,2,3]"), 4096),
        Outcome::Reject(Error::StructuralMismatch)
    ));
    assert!(matches!(
        ingest("application/json", body("\"receipt\""), 4096),
        Outcome::Reject(Error::StructuralMismatch)
    ));
}

#[test]
fn accepts_empty_items_array() {
    let text = "{\"retailer\":\"A\",\"purchase_date\":\"2024-01-01\",\
         \"purchase_time\":\"12:00\",\"items\":[],\"total\":\"0.00\"}";
    match ingest("application/json", body(text), 4096) {
        Outcome::Accept(receipt) => assert_eq!(receipt.items.len(), 0),
        _ => panic!("an empty items array is legal"),
    }
}

#[test]
fn keeps_item_order() {
    let text = "{\"retailer\":\"A\",\"purchase_date\":\"2024-01-01\",\
         \"purchase_time\":\"12:00\",\"items\":[\
         {\"short_description\":\"A\",\"price\":\"1.00\"},\
         {\"short_description\":\"B\",\"price\":\"2.00\"}\
         ],\"total\":\"3.00\"}";
    match ingest("application/json", body(text), 4096) {
        Outcome::Accept(receipt) => {
            assert_eq!(receipt.items.len(), 2);
            assert_eq!(receipt.items[0].short_description, "A");
            assert_eq!(receipt.items[0].price, "1.00");
            assert_eq!(receipt.items[1].short_description, "B");
            assert_eq!(receipt.items[1].price, "2.00");
        }
        _ => panic!("two well-formed items must be accepted"),
    }
}

#[test]
fn reports_io_failure_with_cause() {
    let out = ingest(
        "application/json",
        Err(String::from("connection reset")),
        4096,
    );
    match out {
        Outcome::Reject(Error::IoFailure(cause)) => {
            assert_eq!(cause, "connection reset");
        }
        _ => panic!("a failed read must be reported as an io failure"),
    }
}

#[test]
fn io_failure_checked_before_size() {
    let out = ingest("application/json", Err(String::from("timeout")), 0);
    assert!(matches!(out, Outcome::Reject(Error::IoFailure(_))));
}
