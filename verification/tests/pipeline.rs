//! The request pipeline end to end: decoding, retry, and the two stub
//! scenarios against a scripted transport.

use connect_1password::backoff::Backoff;
use connect_1password::client::{retry_with_backoff, Client, ScriptStep, ScriptedTransport};
use connect_1password::decode::{decode_response, HttpResponse};
use connect_1password::error::Kind;
use connect_1password::items::{self, DeleteReturnType};
use connect_1password::models::item::{ApiCredentialItem, ItemBuilder, ItemCategory};
use connect_1password::models::vault::VaultData;
use connect_1password::request::{build_request, Method};
use connect_1password::vaults;

const VAULT_BODY: &str = "{\"id\":\"v1\",\"name\":\"Automated\",\"attribute_version\":1,\
                          \"content_version\":2,\"type\":\"USER_CREATED\"}";

fn ok_response(body: &str) -> HttpResponse {
    HttpResponse { status: 200, body: Ok(body.as_bytes().to_vec()) }
}

#[test]
fn backoff_yields_exactly_the_retry_count() {
    let schedule = Backoff::new(5, 100, 20_000).schedule();
    assert_eq!(schedule, vec![100, 200, 400, 800, 1600]);
}

#[test]
fn backoff_caps_at_the_maximum_and_never_decreases() {
    let schedule = Backoff::new(6, 100, 250).schedule();
    assert_eq!(schedule.len(), 6);
    assert_eq!(schedule, vec![100, 200, 250, 250, 250, 250]);
    for w in &schedule {
        assert!(100 <= *w && *w <= 250);
    }
    for pair in schedule.windows(2) {
        assert!(pair[0] <= pair[1]);
    }
}

#[test]
fn decode_typed_and_raw_from_one_body() {
    let r = decode_response::<VaultData>(ok_response(VAULT_BODY));
    let (vault, raw) = r.unwrap_or_else(|_| panic!("expected a decoded vault"));
    assert_eq!(vault.id, "v1");
    assert_eq!(vault.name, "Automated");
    assert_eq!(vault.attribute_version, 1);
    assert_eq!(vault.content_version, 2);
    assert_eq!(vault.vault_type, "USER_CREATED");
    assert!(vault.description.is_none());
    assert_eq!(raw["name"].as_str(), Some("Automated"));
}

#[test]
fn decode_is_idempotent_on_the_same_bytes() {
    let r1 = decode_response::<VaultData>(ok_response(VAULT_BODY)).unwrap();
    let r2 = decode_response::<VaultData>(ok_response(VAULT_BODY)).unwrap();
    assert_eq!(r1.0.id, r2.0.id);
    assert_eq!(r1.0.name, r2.0.name);
    assert_eq!(r1.0.description, r2.0.description);
    assert_eq!(r1.0.attribute_version, r2.0.attribute_version);
    assert_eq!(r1.0.content_version, r2.0.content_version);
    assert_eq!(r1.0.vault_type, r2.0.vault_type);
    assert_eq!(r1.1, r2.1);
}

#[test]
fn empty_body_decodes_as_the_empty_object() {
    let resp = HttpResponse { status: 200, body: Ok(Vec::new()) };
    let (_, raw) = decode_response::<DeleteReturnType>(resp).unwrap_or_else(|_| {
        panic!("an empty body must decode as the empty object, not fail to parse")
    });
    let empty: serde_json::Value = serde_json::from_str("{}").unwrap();
    assert_eq!(raw, empty);
}

#[test]
fn status_error_takes_precedence_over_typed_decode_failure() {
    // the body is valid JSON but does not decode as a vault
    let resp = HttpResponse { status: 422, body: Ok(b"{\"message\":\"nope\"}".to_vec()) };
    let err = decode_response::<VaultData>(resp).err().unwrap();
    match err.kind {
        Kind::RequestNotSuccessful(rns) => {
            assert_eq!(rns.status, 422);
            assert_eq!(rns.body, "{\"message\":\"nope\"}");
        }
        _ => panic!("a non-success status must be reported before a typed-decode failure"),
    }
}

#[test]
fn typed_decode_failure_surfaces_after_a_success_status() {
    let resp = HttpResponse { status: 200, body: Ok(b"{\"message\":\"nope\"}".to_vec()) };
    let err = decode_response::<VaultData>(resp).err().unwrap();
    assert!(matches!(err.kind, Kind::ParsingError));
    assert!(err.cause.is_some(), "the typed refusal names the member that did not fit");
}

#[test]
fn invalid_utf8_is_its_own_error() {
    let resp = HttpResponse { status: 200, body: Ok(vec![0xff, 0xfe]) };
    let err = decode_response::<DeleteReturnType>(resp).err().unwrap();
    assert!(matches!(err.kind, Kind::Utf8Error));
    assert!(err.cause.is_some(), "the text failure's message travels as the cause");
}

#[test]
fn malformed_json_is_a_parse_error() {
    let resp = HttpResponse { status: 200, body: Ok(b"{not json".to_vec()) };
    let err = decode_response::<DeleteReturnType>(resp).err().unwrap();
    assert!(matches!(err.kind, Kind::ParsingError));
    assert!(err.cause.is_some());
}

#[test]
fn body_read_failure_is_a_network_error() {
    let resp = HttpResponse { status: 200, body: Err("connection reset".to_string()) };
    let err = decode_response::<DeleteReturnType>(resp).err().unwrap();
    assert!(matches!(err.kind, Kind::NetworkError));
    assert_eq!(err.cause.as_deref(), Some("connection reset"));
    assert_eq!(err.render(), "network error: connection reset");
}

#[test]
fn retry_exhaustion_attempts_one_send_per_wait_plus_the_first() {
    // an empty script fails every send
    let mut transport = ScriptedTransport::new(Vec::new());
    let backoff = Backoff::new(3, 1, 10);
    let params: [(&str, &str); 0] = [];
    let req = build_request(Method::Get, "http://h", "v1/vaults", &params, "t", None).unwrap();
    let err = retry_with_backoff(&mut transport, &req, &backoff).err().unwrap();
    assert_eq!(transport.pos, 4, "three retries make four sends in all");
    assert!(matches!(err.kind, Kind::RetryError));
    assert_eq!(err.cause.as_deref(), Some("no scripted response is left"));
    assert_eq!(err.render(), "retry error: no scripted response is left");
}

#[test]
fn retry_stops_at_the_first_success() {
    let script = vec![
        ScriptStep::Fail("cold start".to_string()),
        ScriptStep::Respond(204, Vec::new()),
        ScriptStep::Respond(204, Vec::new()),
    ];
    let mut transport = ScriptedTransport::new(script);
    let backoff = Backoff::new(3, 1, 10);
    let params: [(&str, &str); 0] = [];
    let req = build_request(Method::Get, "http://h", "v1/vaults", &params, "t", None).unwrap();
    let resp = retry_with_backoff(&mut transport, &req, &backoff).unwrap();
    assert_eq!(resp.status, 204);
    assert_eq!(transport.pos, 2, "no send after the first success");
}

#[test]
fn list_vaults_against_a_stub_transport() {
    let body = format!("[{}]", VAULT_BODY);
    let script = vec![ScriptStep::Respond(200, body.into_bytes())];
    let transport = ScriptedTransport::new(script);
    let mut client = Client::new("token", "http://localhost:8080", transport);
    let (vaults, raw) = vaults::all(&mut client).unwrap();
    assert_eq!(vaults.len(), 1);
    assert_eq!(vaults[0].name, "Automated");
    let arr = raw.as_array().unwrap();
    assert_eq!(arr.len(), 1);
    assert!(arr[0].is_object());
}

#[test]
fn create_item_with_a_bad_token_classifies_as_a_credential_error() {
    let script = vec![ScriptStep::Respond(
        401,
        b"{\"message\":\"Invalid bearer token\"}".to_vec(),
    )];
    let transport = ScriptedTransport::new(script);
    let mut client = Client::new("bad-token", "http://localhost:8080", transport);
    let builder = ItemBuilder::new("v1", ItemCategory::ApiCredential);
    let item = ApiCredentialItem::build(&builder).unwrap();
    let err = items::add(&mut client, item).err().unwrap();
    match err.kind {
        Kind::VaultError(ve) => {
            assert_eq!(ve.status, 401);
            assert_eq!(ve.message, "Invalid bearer token");
        }
        _ => panic!("a 401 with the service's message must classify as a credential error"),
    }
}

#[test]
fn unrecognized_failures_are_wrapped_as_internal() {
    let script = vec![ScriptStep::Respond(500, b"{\"message\":\"boom\"}".to_vec())];
    let transport = ScriptedTransport::new(script);
    let mut client = Client::new("token", "http://localhost:8080", transport);
    let err = vaults::all(&mut client).err().unwrap();
    assert!(matches!(err.kind, Kind::InternalError));
    assert!(err.cause.is_some());
}

#[test]
fn send_request_fails_fast_on_a_bad_token_without_sending() {
    let transport = ScriptedTransport::new(vec![ScriptStep::Respond(200, b"{}".to_vec())]);
    let mut client = Client::new("bad\ttoken\x01", "http://h", transport);
    let err = client
        .send_request::<DeleteReturnType>("GET", "v1/vaults", &[], None)
        .err()
        .unwrap();
    assert!(matches!(err.kind, Kind::InvalidHeaderValue));
    assert_eq!(client.transport.pos, 0, "no attempt may precede the header check");
}

#[test]
fn delete_decodes_an_empty_body() {
    let script = vec![ScriptStep::Respond(204, Vec::new())];
    let transport = ScriptedTransport::new(script);
    let mut client = Client::new("token", "http://h", transport);
    items::remove(&mut client, "v1", "item1").unwrap();
}

#[test]
fn get_vault_with_an_unknown_uuid_classifies_by_the_body_message() {
    let script = vec![ScriptStep::Respond(
        400,
        b"{\"message\":\"Invalid Vault UUID\"}".to_vec(),
    )];
    let transport = ScriptedTransport::new(script);
    let mut client = Client::new("token", "http://h", transport);
    let err = vaults::get(&mut client, "foo").err().unwrap();
    match err.kind {
        Kind::VaultError(ve) => {
            assert_eq!(ve.status, 400);
            assert_eq!(ve.message, "Invalid Vault UUID");
        }
        _ => panic!("the vault-UUID message must classify as a service-level error"),
    }
}

#[test]
fn get_item_decodes_nested_fields_and_sections() {
    let body = "{\"id\":\"i1\",\"title\":\"Dell XYZ\",\"vault\":{\"id\":\"v1\"},\
                \"category\":\"API_CREDENTIAL\",\
                \"urls\":[{\"url\":\"https://example.test\",\"primary\":true}],\
                \"favorite\":null,\"tags\":[\"a\",\"b\"],\
                \"fields\":[{\"type\":\"CONCEALED\",\"value\":\"k\",\"generate\":false,\
                \"section\":{\"id\":\"s1\"}}],\
                \"sections\":[{\"id\":\"s1\",\"label\":\"API Key\"}]}";
    let script = vec![ScriptStep::Respond(200, body.as_bytes().to_vec())];
    let transport = ScriptedTransport::new(script);
    let mut client = Client::new("token", "http://h", transport);
    let (item, raw) = items::get(&mut client, "v1", "i1").unwrap();
    assert_eq!(item.title, "Dell XYZ");
    assert_eq!(item.vault.id, "v1");
    assert_eq!(item.category.as_deref(), Some("API_CREDENTIAL"));
    let urls = item.urls.unwrap();
    assert_eq!(urls.len(), 1);
    assert_eq!(urls[0].url, "https://example.test");
    assert!(urls[0].primary);
    assert_eq!(item.favorite, None, "a null member reads as absent");
    assert_eq!(item.tags, Some(vec!["a".to_string(), "b".to_string()]));
    assert_eq!(item.fields.len(), 1);
    assert_eq!(item.fields[0].field_type.as_deref(), Some("CONCEALED"));
    assert_eq!(item.fields[0].value.as_deref(), Some("k"));
    assert_eq!(item.fields[0].generate, Some(false));
    assert_eq!(item.fields[0].section.as_ref().unwrap().id, "s1");
    assert_eq!(item.sections.len(), 1);
    assert_eq!(item.sections[0].label.as_deref(), Some("API Key"));
    assert_eq!(raw["fields"][0]["section"]["id"].as_str(), Some("s1"));
}

#[test]
fn list_items_decodes_each_element() {
    let body = "[{\"id\":\"i1\",\"title\":\"One\",\"vault\":{\"id\":\"v1\"}},\
                {\"id\":\"i2\",\"title\":\"Two\",\"vault\":{\"id\":\"v1\"}}]";
    let script = vec![ScriptStep::Respond(200, body.as_bytes().to_vec())];
    let transport = ScriptedTransport::new(script);
    let mut client = Client::new("token", "http://h", transport);
    let (list, _) = items::all(&mut client, "v1").unwrap();
    assert_eq!(list.len(), 2);
    assert_eq!(list[0].title, "One");
    assert_eq!(list[1].id, "i2");
}

#[test]
fn a_version_outside_the_unsigned_range_refuses_to_decode() {
    let body = "{\"id\":\"v1\",\"name\":\"n\",\"attribute_version\":5000000000,\
                \"content_version\":1,\"type\":\"t\"}";
    let resp = HttpResponse { status: 200, body: Ok(body.as_bytes().to_vec()) };
    let err = decode_response::<VaultData>(resp).err().unwrap();
    assert!(matches!(err.kind, Kind::ParsingError));
    assert!(err.cause.is_some(), "the typed refusal names the member that did not fit");
}

#[test]
fn a_list_with_one_bad_element_refuses_to_decode() {
    let body = format!("[{}, 17]", VAULT_BODY);
    let resp = HttpResponse { status: 200, body: Ok(body.into_bytes()) };
    let err = decode_response::<Vec<VaultData>>(resp).err().unwrap();
    assert!(matches!(err.kind, Kind::ParsingError));
}

#[test]
fn exhausted_retries_surface_as_internal_with_the_rendered_cause() {
    // an empty script fails every send, so the listing exhausts its retries
    let transport = ScriptedTransport::new(Vec::new());
    let mut client = Client::new("token", "http://h", transport);
    let err = vaults::all(&mut client).err().unwrap();
    assert!(matches!(err.kind, Kind::InternalError));
    assert_eq!(
        err.cause.as_deref(),
        Some("retry error: no scripted response is left")
    );
    assert_eq!(client.transport.pos, 2, "one initial send and one retry");
}

#[test]
fn fail_fast_token_surfaces_as_internal_with_the_header_message() {
    let transport = ScriptedTransport::new(vec![ScriptStep::Respond(200, b"[]".to_vec())]);
    let mut client = Client::new("bad\x01token", "http://h", transport);
    let err = vaults::all(&mut client).err().unwrap();
    assert!(matches!(err.kind, Kind::InternalError));
    assert_eq!(err.cause.as_deref(), Some("invalid header value"));
    assert_eq!(client.transport.pos, 0, "nothing is sent for a bad token");
}

#[test]
fn client_keeps_its_token() {
    let transport = ScriptedTransport::new(Vec::new());
    let client = Client::new("secret-token", "http://h", transport);
    assert_eq!(client.token(), "secret-token");
}
