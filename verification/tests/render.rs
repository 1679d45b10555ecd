use receipt_guard::guard::ingest;
use receipt_guard::receipt::Outcome;
use receipt_guard::render::{get_receipt_points, process_receipt};

fn accept(text: &str) -> receipt_guard::receipt::Receipt {
    match ingest("application/json", Ok(text.as_bytes().to_vec()), 1 << 20) {
        Outcome::Accept(receipt) => receipt,
        _ => panic!("the test body must be accepted"),
    }
}

#[test]
fn renders_exact_json_text() {
    let text = "{\"retailer\":\"Target\",\"purchase_date\":\"2022-01-01\",\
         \"purchase_time\":\"13:01\",\"items\":[{\"short_description\":\
         \"Pepsi - 12-oz\",\"price\":\"1.25\"}],\"total\":\"1.25\"}";
    let receipt = accept(text);
    let rendered = process_receipt(&receipt);
    assert_eq!(rendered, text.as_bytes());
}

#[test]
fn renders_two_items_in_order() {
    let text = "{\"retailer\":\"A\",\"purchase_date\":\"2024-01-01\",\
         \"purchase_time\":\"12:00\",\"items\":[\
         {\"short_description\":\"A\",\"price\":\"1.00\"},\
         {\"short_description\":\"B\",\"price\":\"2.00\"}\
         ],\"total\":\"3.00\"}";
    let receipt = accept(text);
    assert_eq!(process_receipt(&receipt), text.as_bytes());
}

#[test]
fn escapes_quotes_and_backslashes() {
    let receipt = accept(
        "{\"retailer\":\"say \\\"hi\\\" \\\\ bye\",\"purchase_date\":\"d\",\
         \"purchase_time\":\"t\",\"items\":[],\"total\":\"0\"}",
    );
    assert_eq!(receipt.retailer, "say \"hi\" \\ bye");
    let rendered = process_receipt(&receipt);
    let expected = "{\"retailer\":\"say \\\"hi\\\" \\\\ bye\",\"purchase_date\":\"d\",\
                    \"purchase_time\":\"t\",\"items\":[],\"total\":\"0\"}";
    assert_eq!(rendered, expected.as_bytes());
}

#[test]
fn escapes_control_bytes_as_unicode() {
    let receipt = accept(
        "{\"retailer\":\"a\\nb\\u0001c\",\"purchase_date\":\"d\",\
         \"purchase_time\":\"t\",\"items\":[],\"total\":\"0\"}",
    );
    assert_eq!(receipt.retailer, "a\nb\u{1}c");
    let rendered = process_receipt(&receipt);
    let expected = "{\"retailer\":\"a\\u000ab\\u0001c\",\"purchase_date\":\"d\",\
                    \"purchase_time\":\"t\",\"items\":[],\"total\":\"0\"}";
    assert_eq!(rendered, expected.as_bytes());
}

#[test]
fn round_trip_preserves_every_field() {
    let bodies = [
        "{\"retailer\":\"Target\",\"purchase_date\":\"2022-01-01\",\
         \"purchase_time\":\"13:01\",\"items\":[{\"short_description\":\
         \"Pepsi - 12-oz\",\"price\":\"1.25\"}],\"total\":\"1.25\"}"
        .to_string(),
        // Field values with quotes, backslashes, controls and non-ASCII
        // text must survive the trip verbatim.
        "{\"retailer\":\"M&M \\\"Corner\\\\Market\\u0009 caf\u{e9}\",\
         \"purchase_date\":\"2022-03-20\",\"purchase_time\":\"14:33\",\
         \"items\":[{\"short_description\":\"Gatorade \\n 28oz\",\
         \"price\":\"2.25\"},{\"short_description\":\"\",\"price\":\"0\"}],\
         \"total\":\"4.50\"}"
            .to_string(),
    ];
    for text in bodies.iter() {
        let first = accept(text);
        let rendered = process_receipt(&first);
        let again = match ingest("application/json", Ok(rendered.clone()), 1 << 20) {
            Outcome::Accept(receipt) => receipt,
            _ => panic!("rendered text must be accepted again"),
        };
        assert_eq!(first.retailer, again.retailer);
        assert_eq!(first.purchase_date, again.purchase_date);
        assert_eq!(first.purchase_time, again.purchase_time);
        assert_eq!(first.total, again.total);
        assert_eq!(first.items.len(), again.items.len());
        for (a, b) in first.items.iter().zip(again.items.iter()) {
            assert_eq!(a.short_description, b.short_description);
            assert_eq!(a.price, b.price);
        }
        // And the rendering itself is already a fixed point.
        assert_eq!(process_receipt(&again), rendered);
    }
}

#[test]
fn points_response_echoes_the_id() {
    let r = get_receipt_points(String::from("7fb1377b-b223-49d9-a31a-5a02701dd310"));
    assert_eq!(r, "Receipt ID: 7fb1377b-b223-49d9-a31a-5a02701dd310");
}
