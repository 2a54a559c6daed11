//! Query-string encoding, JSON serialization, and text helpers.

use connect_1password::models::item::{
    ApiCredentialItem, DefaultItem, FullItem, ItemBuilder, ItemCategory, LoginItem,
};
use connect_1password::request::{build_request, method_from_str, url_encode, Method};
use connect_1password::text::u16_to_string;

#[test]
fn encode_two_pairs_keeps_trailing_separator() {
    let params = [("a", "1"), ("b", "2")];
    assert_eq!(url_encode(&params), "a=1&b=2&");
}

#[test]
fn encode_escapes_plus_signs_in_values() {
    let params = [("q", "a+b+c")];
    assert_eq!(url_encode(&params), "q=a%2Bb%2Bc&");
}

#[test]
fn encode_escapes_plus_signs_in_keys_too() {
    let params = [("k+1", "v")];
    assert_eq!(url_encode(&params), "k%2B1=v&");
}

#[test]
fn encode_empty_placeholder_pair() {
    let params = [("", "")];
    assert_eq!(url_encode(&params), "=&");
}

#[test]
fn encode_no_pairs_is_empty() {
    let params: [(&str, &str); 0] = [];
    assert_eq!(url_encode(&params), "");
}

#[test]
fn u16_rendering_exact() {
    assert_eq!(u16_to_string(0), "0");
    assert_eq!(u16_to_string(905), "905");
    assert_eq!(u16_to_string(65535), "65535");
}

#[test]
fn method_names_round_trip() {
    assert_eq!(method_from_str("GET").name(), "GET");
    assert_eq!(method_from_str("POST").name(), "POST");
    assert_eq!(method_from_str("PUT").name(), "PUT");
    assert_eq!(method_from_str("DELETE").name(), "DELETE");
    // anything unrecognized falls back to GET
    assert_eq!(method_from_str("PATCH").name(), "GET");
}

#[test]
fn build_request_composes_url_and_headers() {
    let params = [("a", "1")];
    let req = build_request(
        Method::Get,
        "http://localhost:8080",
        "v1/vaults",
        &params,
        "token123",
        None,
    )
    .unwrap();
    assert_eq!(req.url, "http://localhost:8080/v1/vaults?a=1&");
    assert_eq!(req.accept, "application/json");
    assert_eq!(req.authorization, "Bearer token123");
    assert!(req.body.is_none());
}

#[test]
fn build_request_refuses_control_characters_in_token() {
    let params: [(&str, &str); 0] = [];
    let r = build_request(Method::Get, "http://h", "v1/vaults", &params, "bad\ntoken", None);
    match r {
        Err(e) => {
            assert!(matches!(
                e.kind,
                connect_1password::error::Kind::InvalidHeaderValue
            ));
            assert_eq!(e.message(), "invalid header value");
        }
        Ok(_) => panic!("a token with a line break must be refused"),
    }
}

fn login_item() -> FullItem {
    let builder = ItemBuilder::new("vault-1", ItemCategory::Login);
    let builder = LoginItem::title(builder, "Secure server login");
    let builder = LoginItem::username(builder, "Bob");
    let builder = LoginItem::password(builder, "hunter+2");
    LoginItem::build(&builder).unwrap()
}

#[test]
fn serialized_item_parses_back_with_the_same_content() {
    let item = login_item();
    let text = item.to_json();
    let v: serde_json::Value = serde_json::from_str(&text).unwrap();
    assert_eq!(v["title"].as_str(), Some("Secure server login"));
    assert_eq!(v["vault"]["id"].as_str(), Some("vault-1"));
    assert_eq!(v["category"].as_str(), Some("LOGIN"));
    assert!(v["urls"].is_null());
    assert_eq!(v["favorite"].as_bool(), Some(false));
    assert!(v["tags"].is_null());
    let fields = v["fields"].as_array().unwrap();
    assert_eq!(fields.len(), 2);
    assert_eq!(fields[0]["purpose"].as_str(), Some("USERNAME"));
    assert_eq!(fields[0]["value"].as_str(), Some("Bob"));
    assert_eq!(fields[1]["purpose"].as_str(), Some("PASSWORD"));
    assert_eq!(fields[1]["value"].as_str(), Some("hunter+2"));
    assert!(fields[1]["generate"].is_null());
    assert_eq!(v["sections"].as_array().unwrap().len(), 0);
}

#[test]
fn serialized_item_escapes_strings() {
    let builder = ItemBuilder::new("v", ItemCategory::Login);
    let builder = LoginItem::title(builder, "a \"quoted\\\" title\n");
    let item = DefaultItem::build(&builder).unwrap();
    let text = item.to_json();
    let v: serde_json::Value = serde_json::from_str(&text).unwrap();
    assert_eq!(v["title"].as_str(), Some("a \"quoted\\\" title\n"));
}

#[test]
fn serialized_api_credential_item_exact_text() {
    let builder = ItemBuilder::new("v", ItemCategory::ApiCredential);
    let item = DefaultItem::build(&builder).unwrap();
    assert_eq!(
        item.to_json(),
        "{\"title\":\"\",\"vault\":{\"id\":\"v\"},\"category\":\"API_CREDENTIAL\",\
         \"urls\":null,\"favorite\":false,\"tags\":null,\"fields\":[],\"sections\":[]}"
    );
}

#[test]
fn api_key_builder_sets_title_and_concealed_field() {
    let builder = ItemBuilder::new("v", ItemCategory::ApiCredential);
    let builder = ApiCredentialItem::api_key(builder, "smelly-socks", "Dell XYZ");
    let item = ApiCredentialItem::build(&builder).unwrap();
    assert_eq!(item.title, "Dell XYZ");
    assert_eq!(item.fields.len(), 1);
    assert_eq!(item.fields[0].field_type.as_deref(), Some("CONCEALED"));
    assert_eq!(item.fields[0].value.as_deref(), Some("smelly-socks"));
    assert_eq!(item.fields[0].generate, Some(false));
    assert_eq!(item.sections.len(), 1);
    assert_eq!(item.sections[0].label.as_deref(), Some("API Key"));
    // the fresh section id ties the field to its section
    let sid = item.sections[0].id.clone();
    assert_eq!(sid.len(), 36);
    assert_eq!(item.fields[0].section.as_ref().unwrap().id, sid);
}

#[test]
fn api_key_empty_key_asks_for_generation() {
    let builder = ItemBuilder::new("v", ItemCategory::ApiCredential);
    let builder = ApiCredentialItem::api_key(builder, "", "Dell XYZ");
    let item = ApiCredentialItem::build(&builder).unwrap();
    assert_eq!(item.fields[0].generate, Some(true));
}
