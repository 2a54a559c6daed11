//! The error taxonomy: labels, rendering, enrichment, and the structured
//! extraction the resource layer classifies with.

use connect_1password::error::{
    body_message, classify_status_failure, process_vault_error, Error, Kind,
    RequestNotSuccessful, VaultError,
};
use connect_1password::models::item::{
    DefaultItem, FieldType, ItemBuilder, ItemCategory, LoginItem, SectionID, SectionObject,
};
use connect_1password::models::{LoginItem as LoginItemField, LoginItemBuilder, StatusWrapper};

#[test]
fn every_kind_renders_its_fixed_label() {
    assert_eq!(Error::new(Kind::InternalError).message(), "internal error");
    assert_eq!(Error::new(Kind::InvalidHeaderValue).message(), "invalid header value");
    assert_eq!(Error::new(Kind::NetworkError).message(), "network error");
    assert_eq!(Error::new(Kind::NotImplementedError).message(), "not implemented error");
    assert_eq!(Error::new(Kind::ParsingError).message(), "parsing error");
    assert_eq!(Error::new(Kind::RetryError).message(), "retry error");
    assert_eq!(
        Error::new(Kind::Utf8Error).message(),
        "parsing bytes experienced a UTF8 error"
    );
}

#[test]
fn kind_labels_are_the_variant_names() {
    assert_eq!(Kind::NetworkError.label(), "NetworkError");
    assert_eq!(Kind::RetryError.label(), "RetryError");
    assert_eq!(
        Kind::RequestNotSuccessful(RequestNotSuccessful::new(400, "x".to_string())).label(),
        "RequestNotSuccessful"
    );
}

#[test]
fn unsuccessful_status_renders_code_and_body() {
    let e = Error::new(Kind::RequestNotSuccessful(RequestNotSuccessful::new(
        422,
        "{\"message\":\"nope\"}".to_string(),
    )));
    assert_eq!(
        e.render(),
        "client returned an unsuccessful HTTP status code: StatusCode: 422, \
         Body: {\"message\":\"nope\"}"
    );
}

#[test]
fn vault_error_renders_code_and_message() {
    let e = Error::new_vault_error(VaultError::new(401, "Invalid bearer token".to_string()));
    assert_eq!(
        e.render(),
        "vault error: StatusCode: 401, Message: Invalid bearer token"
    );
}

#[test]
fn a_cause_is_appended_after_a_separator() {
    let e = Error::new_retry_error("socket closed".to_string());
    assert_eq!(e.message(), "retry error");
    assert_eq!(e.render(), "retry error: socket closed");
    let enriched = Error::new(Kind::InternalError).with("root cause".to_string());
    assert_eq!(enriched.render(), "internal error: root cause");
}

#[test]
fn process_vault_error_extracts_the_status_from_the_structure() {
    let e = Error::new(Kind::RequestNotSuccessful(RequestNotSuccessful::new(
        503,
        "busy".to_string(),
    )));
    let op = process_vault_error(&e).unwrap();
    assert_eq!(op.status_code, Some(503));
    assert_eq!(op.captures, Some(vec!["StatusCode".to_string(), "503".to_string()]));
}

#[test]
fn process_vault_error_without_a_status_yields_none() {
    let e = Error::new(Kind::NetworkError);
    let op = process_vault_error(&e).unwrap();
    assert_eq!(op.status_code, None);
    assert!(op.captures.is_none());
}

#[test]
fn body_message_reads_the_message_member() {
    assert_eq!(
        body_message("{\"message\":\"Invalid bearer token\"}").as_deref(),
        Some("Invalid bearer token")
    );
    assert_eq!(body_message("{\"other\":1}"), None);
    assert_eq!(body_message("not json"), None);
    assert_eq!(body_message("[1,2]"), None);
    assert_eq!(body_message("{\"message\":42}"), None);
}

#[test]
fn classification_matches_the_parsed_body_not_rendered_text() {
    let rns = RequestNotSuccessful::new(401, "{\"message\":\"Invalid bearer token\"}".to_string());
    let ve = classify_status_failure(&rns, "Invalid bearer token").unwrap();
    assert_eq!(ve.status, 401);
    assert_eq!(ve.message, "Invalid bearer token");

    // the words appearing in the body text alone must not classify
    let decoy = RequestNotSuccessful::new(
        401,
        "{\"note\":\"Invalid bearer token\"}".to_string(),
    );
    assert!(classify_status_failure(&decoy, "Invalid bearer token").is_none());
}

#[test]
fn status_wrapper_writes_decimal_text() {
    assert_eq!(StatusWrapper { status: 401 }.to_text(), "401");
}

#[test]
fn login_item_requires_a_title() {
    let builder = ItemBuilder::new("v1", ItemCategory::Login);
    let builder = LoginItem::username(builder, "Bob");
    let builder = LoginItem::password(builder, "");
    let err = LoginItem::build(&builder).err().unwrap();
    assert!(matches!(err.kind, Kind::InternalError));
    assert_eq!(err.render(), "internal error: Title is required");
}

#[test]
fn login_password_empty_asks_for_generation() {
    let builder = ItemBuilder::new("v1", ItemCategory::Login);
    let builder = LoginItem::title(builder, "Test login item");
    let builder = LoginItem::username(builder, "Bob");
    let builder = LoginItem::password(builder, "");
    let item = LoginItem::build(&builder).unwrap();
    assert_eq!(item.title, "Test login item");
    let pw = &item.fields[1];
    assert_eq!(pw.purpose.as_deref(), Some("PASSWORD"));
    assert_eq!(pw.value, None);
    assert_eq!(pw.generate, Some(true));
}

#[test]
fn add_otp_ties_the_field_to_a_fresh_section() {
    let builder = ItemBuilder::new("v1", ItemCategory::Login);
    let builder = LoginItem::title(builder, "Test login item");
    let builder = builder.add_otp("replaceme");
    let item = DefaultItem::build(&builder).unwrap();
    assert_eq!(item.sections.len(), 1);
    assert_eq!(item.sections[0].label.as_deref(), Some("OTP"));
    let otp = &item.fields[0];
    assert_eq!(otp.field_type.as_deref(), Some("OTP"));
    assert_eq!(otp.value.as_deref(), Some("replaceme"));
    assert_eq!(otp.generate, Some(true));
    assert_eq!(otp.section.as_ref().unwrap().id, item.sections[0].id);
}

#[test]
fn login_item_builder_collects_credential_fields() {
    let builder = LoginItemBuilder::new("v1");
    let builder = LoginItemField::username(builder, "Bob");
    let builder = LoginItemField::password(builder, "pw");
    let item = builder.build();
    assert_eq!(item.title, None);
    assert_eq!(item.vault.id, "v1");
    assert_eq!(item.category.as_deref(), Some("LOGIN"));
    assert!(!item.favorite);
    assert_eq!(item.fields.len(), 2);
    assert_eq!(item.fields[0].purpose.as_deref(), Some("USERNAME"));
    assert_eq!(item.fields[0].value.as_deref(), Some("Bob"));
    assert_eq!(item.fields[1].purpose.as_deref(), Some("PASSWORD"));
    assert_eq!(item.fields[1].value.as_deref(), Some("pw"));
}

#[test]
fn section_ids_are_uuid_sized() {
    let s = SectionID::new();
    assert_eq!(s.id.len(), 36);
    let o = SectionObject::new(&s.id, "API Key");
    assert_eq!(o.id, s.id);
    assert_eq!(o.label.as_deref(), Some("API Key"));
}

#[test]
fn category_and_field_type_names() {
    assert_eq!(ItemCategory::ApiCredential.value(), "API_CREDENTIAL");
    assert_eq!(ItemCategory::Login.value(), "LOGIN");
    assert_eq!(ItemCategory::Password.value(), "PASSWORD");
    assert!(matches!(ItemCategory::default(), ItemCategory::ApiCredential));
    assert_eq!(FieldType::Concealed.value(), "CONCEALED");
}
