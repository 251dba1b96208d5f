use hotline::dc::{build_specification, index_html, templated, SpecificationEndpoint};
use hotline::esp::{err, nvs_needs_erase, EspError};

#[test]
fn specification_from_mac() {
    let endpoints = vec![
        SpecificationEndpoint { method: String::from("close"), parameters: vec![] },
        SpecificationEndpoint { method: String::from("open"), parameters: vec![] },
    ];
    let spec = build_specification(
        "relay".to_string(),
        [0x24, 0x0A, 0xC4, 0x00, 0xFF, 0x1B],
        endpoints,
    );
    assert_eq!(spec.id, "relay-24-0A-C4-00-FF-1B");
    assert_eq!(spec.device_type, "relay");
    assert_eq!(spec.mac, "24:0A:C4:00:FF:1B");
    assert_eq!(spec.endpoints.len(), 2);
    assert_eq!(spec.endpoints[0].method, "close");
    assert_eq!(spec.endpoints[1].method, "open");
}

#[test]
fn templated_page() {
    let expected = format!(
        r#"
<!DOCTYPE html>
<html>
    <head>
        <meta charset="utf-8">
        <title>esp-rs web server</title>
    </head>
    <body>
        {}
    </body>
</html>
"#,
        "hello"
    );
    assert_eq!(templated("hello"), expected);
    assert!(index_html().contains("<body>\n        relay\n    </body>"));
    assert_eq!(index_html(), templated("relay"));
}

#[test]
fn esp_status_codes() {
    assert!(err(0).is_ok());
    let e = err(0x110d).unwrap_err();
    assert_eq!(e.code(), 0x110d);
    assert_eq!(EspError::from(-1).code(), -1);
    assert!(nvs_needs_erase(0x110d));
    assert!(nvs_needs_erase(0x1110));
    assert!(!nvs_needs_erase(0));
    assert!(!nvs_needs_erase(0x1101));
}
