use opendal_core::backend::HttpClient;
use opendal_core::d1::d1_status_ok;
use opendal_core::d1::D1Core;
use opendal_core::d1::D1Field;
use opendal_core::d1::D1Param;
use opendal_core::d1::D1Row;

fn d1_core() -> D1Core {
    D1Core {
        authorization: Some("Bearer token".to_string()),
        account_id: "acc 1".to_string(),
        database_id: "db-2".to_string(),
        client: HttpClient { client: reqwest::Client::new() },
        table: "kv".to_string(),
        key_field: "key".to_string(),
        value_field: "value".to_string(),
    }
}

#[test]
fn the_query_url_is_percent_encoded() {
    let plan = d1_core()
        .create_d1_query_request("SELECT 1", vec![D1Param::Text("p".to_string())])
        .unwrap();
    assert_eq!(
        plan.url,
        "https://api.cloudflare.com/client/v4/accounts/acc%201/d1/database/db-2/query"
    );
    assert_eq!(plan.sql, "SELECT 1");
    assert_eq!(plan.authorization.as_deref(), Some("Bearer token"));
    assert_eq!(plan.params.len(), 1);
}

#[test]
fn the_statements_name_the_configured_columns() {
    let c = d1_core();
    assert_eq!(c.get_query(), "SELECT value FROM kv WHERE key = ? LIMIT 1");
    assert_eq!(
        c.get_range_query(40, 25),
        "SELECT value FROM kv WHERE key = ? LIMIT 25 OFFSET 40"
    );
    assert_eq!(
        c.get_range_query(0, -1),
        "SELECT value FROM kv WHERE key = ? LIMIT -1 OFFSET 0"
    );
    assert_eq!(
        c.set_query(),
        "INSERT INTO kv (key, value) VALUES (?, ?) ON CONFLICT (key) \
         DO UPDATE SET value = EXCLUDED.value"
    );
    assert_eq!(c.delete_query(), "DELETE FROM kv WHERE key = ?");
}

#[test]
fn the_value_column_is_extracted_from_the_first_row() {
    let c = d1_core();
    let rows = vec![
        D1Row {
            entries: vec![
                D1Field { name: "key".to_string(), value: b"k1".to_vec() },
                D1Field { name: "value".to_string(), value: b"payload".to_vec() },
            ],
        },
        D1Row {
            entries: vec![D1Field { name: "value".to_string(), value: b"second".to_vec() }],
        },
    ];
    assert_eq!(c.extract_value(&rows).map(|v| v.as_slice()), Some(b"payload".as_slice()));
    let keyless = vec![D1Row {
        entries: vec![D1Field { name: "key".to_string(), value: b"k1".to_vec() }],
    }];
    assert!(c.extract_value(&keyless).is_none());
    let empty: Vec<D1Row> = Vec::new();
    assert!(c.extract_value(&empty).is_none());
}

#[test]
fn only_ok_and_partial_content_succeed() {
    assert!(d1_status_ok(200));
    assert!(d1_status_ok(206));
    assert!(!d1_status_ok(404));
    assert!(!d1_status_ok(500));
}
