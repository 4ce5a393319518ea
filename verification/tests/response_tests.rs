use supabase_function_rs::response::process_response;
use supabase_function_rs::{
    FunctionInvokeOptions, FunctionRegion, FunctionsClient, FunctionsError, FunctionsFetchError,
    FunctionsHttpError, FunctionsRelayError, FunctionsResponse, HttpMethod, InvokeBody,
    ResponseData,
};

fn header_value<'a>(headers: &'a [(String, String)], key: &str) -> Option<&'a str> {
    headers.iter().find(|(k, _)| k == key).map(|(_, v)| v.as_str())
}

#[test]
fn test_relay_error_beats_success_status() {
    let headers = vec![("x-relay-error".to_string(), "true".to_string())];
    let r = process_response(200, "200 OK".to_string(), &headers, b"{}".to_vec());
    match r {
        Err(FunctionsError::RelayError(m)) => {
            assert_eq!(m, "Relay Error invoking the Edge Function");
        }
        _ => panic!("Expected a relay error"),
    }
}

#[test]
fn test_relay_header_other_value_is_ignored() {
    let headers = vec![("x-relay-error".to_string(), "false".to_string())];
    let r = process_response(200, "200 OK".to_string(), &headers, b"hello".to_vec());
    match r {
        Ok(FunctionsResponse::Success { data: ResponseData::Text(t) }) => assert_eq!(t, "hello"),
        _ => panic!("Expected a text success"),
    }
}

#[test]
fn test_http_error_carries_status_text() {
    let headers: Vec<(String, String)> = Vec::new();
    let r = process_response(404, "404 Not Found".to_string(), &headers, Vec::new());
    match r {
        Err(FunctionsError::HttpError(m)) => assert_eq!(m, "404 Not Found"),
        _ => panic!("Expected an HTTP error"),
    }
}

#[test]
fn test_json_success_payload() {
    let headers = vec![("content-type".to_string(), "application/json".to_string())];
    let r = process_response(200, "200 OK".to_string(), &headers, br#"{"key":"value"}"#.to_vec());
    match r {
        Ok(FunctionsResponse::Success { data: ResponseData::Json(json) }) => {
            assert_eq!(json["key"], "value");
        }
        _ => panic!("Expected a JSON success"),
    }
}

#[test]
fn test_json_content_type_with_charset_parameter() {
    let headers = vec![(
        "content-type".to_string(),
        "application/json; charset=utf-8".to_string(),
    )];
    let r = process_response(200, "200 OK".to_string(), &headers, br#"{"a":1}"#.to_vec());
    match r {
        Ok(FunctionsResponse::Success { data: ResponseData::Json(json) }) => {
            assert_eq!(json["a"], 1);
        }
        _ => panic!("Expected a JSON success"),
    }
}

#[test]
fn test_malformed_json_is_a_fetch_error() {
    let headers = vec![("content-type".to_string(), "application/json".to_string())];
    let r = process_response(200, "200 OK".to_string(), &headers, b"{not json".to_vec());
    match r {
        Err(FunctionsError::FetchError(_)) => {}
        _ => panic!("Expected a fetch error"),
    }
}

#[test]
fn test_octet_stream_yields_bytes() {
    let headers = vec![(
        "content-type".to_string(),
        "application/octet-stream".to_string(),
    )];
    let r = process_response(200, "200 OK".to_string(), &headers, vec![1, 2, 3, 4, 5]);
    match r {
        Ok(FunctionsResponse::Success { data: ResponseData::Bytes(b) }) => {
            assert_eq!(b, vec![1, 2, 3, 4, 5]);
        }
        _ => panic!("Expected a byte success"),
    }
}

#[test]
fn test_event_stream_yields_text() {
    let headers = vec![("content-type".to_string(), "text/event-stream".to_string())];
    let r = process_response(200, "200 OK".to_string(), &headers, b"data: 1\n\n".to_vec());
    match r {
        Ok(FunctionsResponse::Success { data: ResponseData::Text(t) }) => {
            assert_eq!(t, "data: 1\n\n");
        }
        _ => panic!("Expected a text success"),
    }
}

#[test]
fn test_form_data_content_type_decodes_json_object() {
    let headers = vec![("content-type".to_string(), "multipart/form-data".to_string())];
    let r = process_response(
        200,
        "200 OK".to_string(),
        &headers,
        br#"{"field1":"value1","field2":"value2"}"#.to_vec(),
    );
    match r {
        Ok(FunctionsResponse::Success { data: ResponseData::FormData(fields) }) => {
            assert_eq!(fields.len(), 2);
            assert_eq!(header_value(&fields, "field1"), Some("value1"));
            assert_eq!(header_value(&fields, "field2"), Some("value2"));
        }
        _ => panic!("Expected a form-data success"),
    }
}

#[test]
fn test_form_data_content_type_rejects_non_object() {
    let headers = vec![("content-type".to_string(), "multipart/form-data".to_string())];
    let r = process_response(200, "200 OK".to_string(), &headers, b"[1,2]".to_vec());
    match r {
        Err(FunctionsError::FetchError(_)) => {}
        _ => panic!("Expected a fetch error"),
    }
}

#[test]
fn test_absent_content_type_defaults_to_text() {
    let headers: Vec<(String, String)> = Vec::new();
    let r = process_response(200, "200 OK".to_string(), &headers, b"plain body".to_vec());
    match r {
        Ok(FunctionsResponse::Success { data: ResponseData::Text(t) }) => {
            assert_eq!(t, "plain body");
        }
        _ => panic!("Expected a text success"),
    }
}

#[test]
fn test_unknown_content_type_defaults_to_text() {
    let headers = vec![("content-type".to_string(), "application/x-unknown".to_string())];
    let r = process_response(200, "200 OK".to_string(), &headers, b"whatever".to_vec());
    match r {
        Ok(FunctionsResponse::Success { data: ResponseData::Text(t) }) => {
            assert_eq!(t, "whatever");
        }
        _ => panic!("Expected a text success"),
    }
}

#[test]
fn test_invalid_utf8_body_decodes_lossily() {
    let headers: Vec<(String, String)> = Vec::new();
    let r = process_response(200, "200 OK".to_string(), &headers, vec![0xff, b'h', b'i']);
    match r {
        Ok(FunctionsResponse::Success { data: ResponseData::Text(t) }) => {
            assert_eq!(t, "\u{fffd}hi");
        }
        _ => panic!("Expected a text success"),
    }
}

#[test]
fn test_set_auth_twice_overwrites() {
    let mut client = FunctionsClient::new("http://localhost".to_string(), None, None);
    client.set_auth("first-token".to_string());
    client.set_auth("second-token".to_string());
    let plan = client
        .build_request("fn", None)
        .expect("build must succeed");
    let auth_entries: Vec<&(String, String)> = plan
        .headers
        .iter()
        .filter(|(k, _)| k == "authorization")
        .collect();
    assert_eq!(auth_entries.len(), 1);
    assert_eq!(auth_entries[0].1, "Bearer second-token");
}

#[test]
fn test_wildcard_region_emits_no_header() {
    let client = FunctionsClient::new("http://localhost".to_string(), None, None);
    let mut options = FunctionInvokeOptions::default();
    options.region = Some(FunctionRegion::Any);
    let plan = client.build_request("fn", Some(options)).expect("build must succeed");
    assert_eq!(header_value(&plan.headers, "x-region"), None);
    let plan2 = client.build_request("fn", None).expect("build must succeed");
    assert_eq!(header_value(&plan2.headers, "x-region"), None);
}

#[test]
fn test_every_region_code_is_canonical() {
    let cases = [
        (FunctionRegion::Any, "any"),
        (FunctionRegion::ApNortheast1, "ap-northeast-1"),
        (FunctionRegion::ApNortheast2, "ap-northeast-2"),
        (FunctionRegion::ApSouth1, "ap-south-1"),
        (FunctionRegion::ApSoutheast1, "ap-southeast-1"),
        (FunctionRegion::ApSoutheast2, "ap-southeast-2"),
        (FunctionRegion::CaCentral1, "ca-central-1"),
        (FunctionRegion::EuCentral1, "eu-central-1"),
        (FunctionRegion::EuWest1, "eu-west-1"),
        (FunctionRegion::EuWest2, "eu-west-2"),
        (FunctionRegion::EuWest3, "eu-west-3"),
        (FunctionRegion::SaEast1, "sa-east-1"),
        (FunctionRegion::UsEast1, "us-east-1"),
        (FunctionRegion::UsWest1, "us-west-1"),
        (FunctionRegion::UsWest2, "us-west-2"),
    ];
    for (region, code) in cases {
        assert_eq!(region.as_str(), code);
    }
}

#[test]
fn test_every_region_but_wildcard_sets_header() {
    let regions = [
        FunctionRegion::ApNortheast1,
        FunctionRegion::ApNortheast2,
        FunctionRegion::ApSouth1,
        FunctionRegion::ApSoutheast1,
        FunctionRegion::ApSoutheast2,
        FunctionRegion::CaCentral1,
        FunctionRegion::EuCentral1,
        FunctionRegion::EuWest1,
        FunctionRegion::EuWest2,
        FunctionRegion::EuWest3,
        FunctionRegion::SaEast1,
        FunctionRegion::UsEast1,
        FunctionRegion::UsWest1,
        FunctionRegion::UsWest2,
    ];
    let client = FunctionsClient::new("http://localhost".to_string(), None, None);
    for region in regions {
        let mut options = FunctionInvokeOptions::default();
        options.region = Some(region);
        let plan = client.build_request("fn", Some(options)).expect("build must succeed");
        assert_eq!(header_value(&plan.headers, "x-region"), Some(region.as_str()));
    }
}

#[test]
fn test_method_defaults_to_post() {
    let client = FunctionsClient::new("http://localhost".to_string(), None, None);
    let plan = client.build_request("fn", None).expect("build must succeed");
    assert_eq!(plan.method, HttpMethod::Post);
    assert_eq!(plan.method.as_str(), "POST");
}

#[test]
fn test_method_names() {
    assert_eq!(HttpMethod::Post.as_str(), "POST");
    assert_eq!(HttpMethod::Get.as_str(), "GET");
    assert_eq!(HttpMethod::Put.as_str(), "PUT");
    assert_eq!(HttpMethod::Patch.as_str(), "PATCH");
    assert_eq!(HttpMethod::Delete.as_str(), "DELETE");
}

#[test]
fn test_persistent_header_names_are_normalized() {
    let headers = vec![("X-Custom".to_string(), "v1".to_string())];
    let client = FunctionsClient::new("http://localhost".to_string(), Some(headers), None);
    let plan = client.build_request("fn", None).expect("build must succeed");
    assert_eq!(header_value(&plan.headers, "x-custom"), Some("v1"));
}

#[test]
fn test_invalid_persistent_header_name_is_a_fetch_error() {
    let headers = vec![("bad name".to_string(), "v".to_string())];
    let client = FunctionsClient::new("http://localhost".to_string(), Some(headers), None);
    match client.build_request("fn", None) {
        Err(FunctionsError::FetchError(m)) => assert_eq!(m, "Invalid header name"),
        _ => panic!("Expected a fetch error"),
    }
}

#[test]
fn test_invalid_persistent_header_value_is_a_fetch_error() {
    let headers = vec![("x-ok".to_string(), "bad\nvalue".to_string())];
    let client = FunctionsClient::new("http://localhost".to_string(), Some(headers), None);
    match client.build_request("fn", None) {
        Err(FunctionsError::FetchError(m)) => assert_eq!(m, "Invalid header value"),
        _ => panic!("Expected a fetch error"),
    }
}

#[test]
fn test_error_constructors_and_messages() {
    let fetch = FunctionsFetchError::new("boom".to_string());
    assert_eq!(fetch.message(), "FetchError: boom");
    let relay = FunctionsRelayError::new("boom".to_string());
    assert_eq!(relay.message(), "RelayError: boom");
    let http = FunctionsHttpError::new("boom".to_string());
    assert_eq!(http.message(), "HttpError: boom");
}

#[test]
fn test_body_variant_content_types() {
    let client = FunctionsClient::new("http://localhost".to_string(), None, None);
    let cases: Vec<(InvokeBody, Option<&str>)> = vec![
        (InvokeBody::File(vec![1]), Some("application/octet-stream")),
        (InvokeBody::Blob(vec![1]), Some("application/octet-stream")),
        (InvokeBody::ArrayBuffer(vec![1]), Some("application/octet-stream")),
        (InvokeBody::String("s".to_string()), Some("text/plain")),
        (
            InvokeBody::Json(vec![("k".to_string(), serde_json::Value::Null)]),
            Some("application/json"),
        ),
        (InvokeBody::FormData(vec![("a".to_string(), "b".to_string())]), None),
    ];
    for (body, expected) in cases {
        let mut options = FunctionInvokeOptions::default();
        options.body = Some(body);
        let plan = client.build_request("fn", Some(options)).expect("build must succeed");
        assert_eq!(header_value(&plan.headers, "content-type"), expected);
    }
}
