//! Tests of the wire codec: member presence and omission, exact
//! rendered text, and the decode of response shapes.

use sendgrid_rest::codec::{
    decode_create_response, decode_template, decode_template_version, encode_content,
    encode_create_template, encode_email_address, encode_personalization, encode_template_version,
    encode_version_request,
};
use sendgrid_rest::models::{
    Content, CreateSendGridTemplate, EmailAddress, Personalization,
    SendGridTemplateVersionRequest, TransactionalTemplateVersion, Warning,
};

fn address(email: &str, name: Option<&str>) -> EmailAddress {
    EmailAddress { email: email.to_string(), name: name.map(|n| n.to_string()) }
}

#[test]
fn email_address_without_name_omits_the_member() {
    let v = encode_email_address(&address("ada@example.com", None));
    assert!(v.get("name").is_none());
    assert_eq!(v.get("email").unwrap().as_str().unwrap(), "ada@example.com");
    assert_eq!(serde_json::to_string(&v).unwrap(), "{\"email\":\"ada@example.com\"}");
}

#[test]
fn email_address_with_name_carries_the_member() {
    let v = encode_email_address(&address("ada@example.com", Some("Ada")));
    assert_eq!(v.get("name").unwrap().as_str().unwrap(), "Ada");
    assert_eq!(v.get("email").unwrap().as_str().unwrap(), "ada@example.com");
}

#[test]
fn personalization_emits_null_for_absent_cc_and_bcc() {
    let p = Personalization {
        to: vec![address("to@example.com", None)],
        dynamic_template_data: None,
        cc: None,
        bcc: None,
    };
    let v = encode_personalization(&p);
    assert!(v.get("cc").unwrap().is_null());
    assert!(v.get("bcc").unwrap().is_null());
    assert!(v.get("dynamic_template_data").is_none());
    assert_eq!(v.get("to").unwrap().as_array().unwrap().len(), 1);
}

#[test]
fn personalization_placeholders_keep_the_last_of_equal_keys() {
    let p = Personalization {
        to: vec![address("to@example.com", None)],
        dynamic_template_data: Some(vec![
            ("code".to_string(), "first".to_string()),
            ("code".to_string(), "second".to_string()),
        ]),
        cc: None,
        bcc: None,
    };
    let v = encode_personalization(&p);
    let data = v.get("dynamic_template_data").unwrap();
    assert_eq!(data.as_object().unwrap().len(), 1);
    assert_eq!(data.get("code").unwrap().as_str().unwrap(), "second");
}

#[test]
fn content_renders_its_media_type_under_the_wire_name() {
    let c = Content { content_type: "text/html".to_string(), value: "<p>x</p>".to_string() };
    let v = encode_content(&c);
    assert_eq!(
        serde_json::to_string(&v).unwrap(),
        "{\"type\":\"text/html\",\"value\":\"<p>x</p>\"}"
    );
}

#[test]
fn create_template_renders_exactly() {
    let c = CreateSendGridTemplate {
        name: "My Template".to_string(),
        generation: "dynamic".to_string(),
    };
    let v = encode_create_template(&c);
    assert_eq!(
        serde_json::to_string(&v).unwrap(),
        "{\"generation\":\"dynamic\",\"name\":\"My Template\"}"
    );
}

#[test]
fn version_request_omits_absent_members() {
    let rq = SendGridTemplateVersionRequest {
        template_id: "d-1".to_string(),
        active: None,
        name: "n".to_string(),
        html_content: None,
        plain_content: None,
        generate_plain_content: None,
        subject: "s".to_string(),
        editor: None,
        test_data: None,
    };
    let v = encode_version_request(&rq);
    let o = v.as_object().unwrap();
    assert_eq!(o.len(), 3);
    assert_eq!(v.get("template_id").unwrap().as_str().unwrap(), "d-1");
    assert_eq!(v.get("name").unwrap().as_str().unwrap(), "n");
    assert_eq!(v.get("subject").unwrap().as_str().unwrap(), "s");
}

#[test]
fn version_request_carries_present_members() {
    let rq = SendGridTemplateVersionRequest {
        template_id: "d-1".to_string(),
        active: Some(1),
        name: "n".to_string(),
        html_content: Some("<p>h</p>".to_string()),
        plain_content: Some("h".to_string()),
        generate_plain_content: Some(true),
        subject: "s".to_string(),
        editor: Some("code".to_string()),
        test_data: None,
    };
    let v = encode_version_request(&rq);
    assert_eq!(v.get("active").unwrap().as_i64().unwrap(), 1);
    assert_eq!(v.get("generate_plain_content").unwrap().as_bool().unwrap(), true);
    assert_eq!(v.get("editor").unwrap().as_str().unwrap(), "code");
    assert!(v.get("test_data").is_none());
}

#[test]
fn template_version_round_trips_with_absent_members() {
    let v = TransactionalTemplateVersion {
        id: None,
        template_id: None,
        active: None,
        name: "Welcome".to_string(),
        subject: "Hello".to_string(),
        updated_at: None,
        generate_plain_content: None,
        html_content: None,
        plain_content: None,
        editor: None,
        thumbnail_url: None,
        warning: None,
        test_data: None,
    };
    let text = serde_json::to_string(&encode_template_version(&v)).unwrap();
    assert_eq!(text, "{\"name\":\"Welcome\",\"subject\":\"Hello\"}");
    let parsed: serde_json::Value = serde_json::from_str(&text).unwrap();
    let back = decode_template_version(&parsed).unwrap();
    assert_eq!(back.name, "Welcome");
    assert_eq!(back.subject, "Hello");
    assert!(back.id.is_none());
    assert!(back.template_id.is_none());
    assert!(back.active.is_none());
    assert!(back.updated_at.is_none());
    assert!(back.generate_plain_content.is_none());
    assert!(back.html_content.is_none());
    assert!(back.plain_content.is_none());
    assert!(back.editor.is_none());
    assert!(back.thumbnail_url.is_none());
    assert!(back.warning.is_none());
    assert!(back.test_data.is_none());
}

#[test]
fn template_version_round_trips_with_all_members() {
    let v = TransactionalTemplateVersion {
        id: Some("v-1".to_string()),
        template_id: Some("d-1".to_string()),
        active: Some(1),
        name: "Welcome".to_string(),
        subject: "Hello".to_string(),
        updated_at: Some("2020-01-01".to_string()),
        generate_plain_content: Some(false),
        html_content: Some("<p>x</p>".to_string()),
        plain_content: Some("x".to_string()),
        editor: Some("code".to_string()),
        thumbnail_url: Some("https://example.com/t.png".to_string()),
        warning: Some(Warning { message: "careful".to_string() }),
        test_data: Some("{}".to_string()),
    };
    let text = serde_json::to_string(&encode_template_version(&v)).unwrap();
    let parsed: serde_json::Value = serde_json::from_str(&text).unwrap();
    let back = decode_template_version(&parsed).unwrap();
    assert_eq!(back.id.as_deref(), Some("v-1"));
    assert_eq!(back.template_id.as_deref(), Some("d-1"));
    assert_eq!(back.active, Some(1));
    assert_eq!(back.updated_at.as_deref(), Some("2020-01-01"));
    assert_eq!(back.generate_plain_content, Some(false));
    assert_eq!(back.html_content.as_deref(), Some("<p>x</p>"));
    assert_eq!(back.plain_content.as_deref(), Some("x"));
    assert_eq!(back.editor.as_deref(), Some("code"));
    assert_eq!(back.thumbnail_url.as_deref(), Some("https://example.com/t.png"));
    assert_eq!(back.warning.unwrap().message, "careful");
    assert_eq!(back.test_data.as_deref(), Some("{}"));
}

#[test]
fn version_decode_treats_null_as_absent() {
    let parsed: serde_json::Value =
        serde_json::from_str("{\"name\":\"n\",\"subject\":\"s\",\"id\":null,\"active\":null}")
            .unwrap();
    let back = decode_template_version(&parsed).unwrap();
    assert!(back.id.is_none());
    assert!(back.active.is_none());
}

#[test]
fn version_decode_rejects_wrong_member_types() {
    let parsed: serde_json::Value =
        serde_json::from_str("{\"name\":\"n\",\"subject\":\"s\",\"active\":\"yes\"}").unwrap();
    assert!(decode_template_version(&parsed).is_none());
    let missing: serde_json::Value = serde_json::from_str("{\"name\":\"n\"}").unwrap();
    assert!(decode_template_version(&missing).is_none());
    let out_of_range: serde_json::Value =
        serde_json::from_str("{\"name\":\"n\",\"subject\":\"s\",\"active\":3000000000}").unwrap();
    assert!(decode_template_version(&out_of_range).is_none());
}

#[test]
fn template_decode_keeps_version_order() {
    let body = "{\"id\":\"d-1\",\"name\":\"t\",\"generation\":\"dynamic\",\
                \"updated_at\":\"2020-01-01\",\"versions\":[\
                {\"name\":\"first\",\"subject\":\"a\"},\
                {\"name\":\"second\",\"subject\":\"b\"}]}";
    let parsed: serde_json::Value = serde_json::from_str(body).unwrap();
    let t = decode_template(&parsed).unwrap();
    assert_eq!(t.id, "d-1");
    assert_eq!(t.generation, "dynamic");
    assert_eq!(t.versions.len(), 2);
    assert_eq!(t.versions[0].name, "first");
    assert_eq!(t.versions[1].name, "second");
}

#[test]
fn template_decode_rejects_a_bad_version() {
    let body = "{\"id\":\"d-1\",\"name\":\"t\",\"generation\":\"dynamic\",\
                \"updated_at\":\"2020-01-01\",\"versions\":[{\"name\":\"only\"}]}";
    let parsed: serde_json::Value = serde_json::from_str(body).unwrap();
    assert!(decode_template(&parsed).is_none());
}

#[test]
fn create_response_reads_the_id_member() {
    let parsed: serde_json::Value =
        serde_json::from_str("{\"id\":\"d-abc123\",\"name\":\"My Template\"}").unwrap();
    let r = decode_create_response(&parsed).unwrap();
    assert_eq!(r.template_id.as_deref(), Some("d-abc123"));
    let without: serde_json::Value = serde_json::from_str("{\"name\":\"x\"}").unwrap();
    assert!(decode_create_response(&without).unwrap().template_id.is_none());
}
