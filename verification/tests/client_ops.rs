//! Tests of the client operations: the requests each builder issues
//! and the classification of provider responses.

use sendgrid_rest::client::{HttpMethod, SendGridRestClient};
use sendgrid_rest::config::SendGridConfig;
use sendgrid_rest::endpoints::SendGridEndpoint;
use sendgrid_rest::errors::SendGridError;
use sendgrid_rest::models::EmailAddress;

fn client() -> SendGridRestClient {
    SendGridRestClient::new("SECRET-REDACTED".to_string(), None)
}

fn address(email: &str, name: Option<&str>) -> EmailAddress {
    EmailAddress { email: email.to_string(), name: name.map(|n| n.to_string()) }
}

#[test]
fn endpoint_paths_are_fixed() {
    assert_eq!(String::from(SendGridEndpoint::MailSend), "/mail/send");
    assert_eq!(String::from(SendGridEndpoint::Templates), "/templates");
    assert_eq!(SendGridEndpoint::MailSend.path(), "/mail/send");
}

#[test]
fn config_defaults_to_the_production_host() {
    assert_eq!(SendGridConfig::default().rest_api_host, "https://api.sendgrid.com/v3/");
    assert_eq!(SendGridConfig::test_env().rest_api_host, "https://api.sendgrid.com/v3/");
}

#[test]
fn send_request_has_url_headers_and_envelope() {
    let c = client();
    let r = c.build_send_email_request(
        address("from@example.com", Some("From")),
        vec![address("to@example.com", None)],
        None,
        None,
        "d-tpl",
        Some(vec![("code".to_string(), "1234".to_string())]),
    );
    assert_eq!(r.method, HttpMethod::Post);
    assert_eq!(r.url, "https://api.sendgrid.com/v3/mail/send");
    assert_eq!(r.headers.len(), 2);
    assert_eq!(r.headers[0].0, "Content-Type");
    assert_eq!(r.headers[0].1, "application/json");
    assert_eq!(r.headers[1].0, "Authorization");
    assert_eq!(r.headers[1].1, "Bearer SECRET-REDACTED");
    let body: serde_json::Value = serde_json::from_str(r.body.as_deref().unwrap()).unwrap();
    assert_eq!(body.get("template_id").unwrap().as_str().unwrap(), "d-tpl");
    assert_eq!(body.get("subject").unwrap().as_str().unwrap(), "");
    let ps = body.get("personalizations").unwrap().as_array().unwrap();
    assert_eq!(ps.len(), 1);
    assert_eq!(
        ps[0].get("to").unwrap().as_array().unwrap()[0]
            .get("email")
            .unwrap()
            .as_str()
            .unwrap(),
        "to@example.com"
    );
    assert_eq!(
        ps[0].get("dynamic_template_data").unwrap().get("code").unwrap().as_str().unwrap(),
        "1234"
    );
    assert_eq!(body.get("from").unwrap().get("name").unwrap().as_str().unwrap(), "From");
}

#[test]
fn send_accepted_is_success_with_empty_body() {
    let r = SendGridRestClient::classify_send_email_response("d-tpl", 202, "");
    assert!(r.is_ok());
    let r = SendGridRestClient::classify_send_email_response("d-tpl", 202, "anything at all");
    assert!(r.is_ok());
}

#[test]
fn send_ok_with_blank_body_is_success() {
    assert!(SendGridRestClient::classify_send_email_response("d-tpl", 200, " \t\r\n").is_ok());
}

#[test]
fn send_ok_with_garbage_body_is_a_decode_error() {
    let r = SendGridRestClient::classify_send_email_response("d-tpl", 200, "not json");
    match r {
        Err(SendGridError::DecodeError { raw_body }) => assert_eq!(raw_body, "not json"),
        other => panic!("expected a decode error, got {:?}", other),
    }
}

#[test]
fn send_bad_request_carries_the_description() {
    let r = SendGridRestClient::classify_send_email_response(
        "d-tpl",
        400,
        "{\"description\": \"X\"}",
    );
    match r {
        Err(SendGridError::BadRequest { context, description }) => {
            assert_eq!(context, "d-tpl");
            assert_eq!(description, "X");
        },
        other => panic!("expected a bad request, got {:?}", other),
    }
}

#[test]
fn send_bad_request_with_unreadable_body_embeds_it() {
    let r = SendGridRestClient::classify_send_email_response("d-tpl", 400, "<html>oops</html>");
    match r {
        Err(SendGridError::TransportError { message }) => assert_eq!(message, "<html>oops</html>"),
        other => panic!("expected a transport error, got {:?}", other),
    }
}

#[test]
fn send_unauthorized_ignores_the_body() {
    let r = SendGridRestClient::classify_send_email_response("d-tpl", 401, "{\"whatever\": 1}");
    assert!(matches!(r, Err(SendGridError::Unauthorized)));
    let r = SendGridRestClient::classify_send_email_response("d-tpl", 401, "");
    assert!(matches!(r, Err(SendGridError::Unauthorized)));
}

#[test]
fn send_provider_failures_classify_by_status() {
    assert!(matches!(
        SendGridRestClient::classify_send_email_response("d-tpl", 500, ""),
        Err(SendGridError::InternalServerError)
    ));
    assert!(matches!(
        SendGridRestClient::classify_send_email_response("d-tpl", 503, ""),
        Err(SendGridError::ServiceUnavailable)
    ));
}

#[test]
fn send_unexpected_status_is_the_catch_all() {
    let r = SendGridRestClient::classify_send_email_response("d-tpl", 418, "teapot");
    match r {
        Err(SendGridError::UnexpectedStatus { code, raw_body }) => {
            assert_eq!(code, 418);
            assert_eq!(raw_body, "teapot");
        },
        other => panic!("expected an unexpected status, got {:?}", other),
    }
}

#[test]
fn send_unexpected_status_with_an_object_body_decodes_as_success() {
    let r = SendGridRestClient::classify_send_email_response("d-tpl", 418, "{\"description\":\"X\"}");
    assert!(r.is_ok());
}

#[test]
fn create_template_request_posts_name_and_dynamic_generation() {
    let c = client();
    let r = c.build_create_template_request("My Template");
    assert_eq!(r.method, HttpMethod::Post);
    assert_eq!(r.url, "https://api.sendgrid.com/v3/templates");
    let body: serde_json::Value = serde_json::from_str(r.body.as_deref().unwrap()).unwrap();
    assert_eq!(body.as_object().unwrap().len(), 2);
    assert_eq!(body.get("name").unwrap().as_str().unwrap(), "My Template");
    assert_eq!(body.get("generation").unwrap().as_str().unwrap(), "dynamic");
}

#[test]
fn create_template_reads_the_assigned_id() {
    let r = SendGridRestClient::classify_create_template_response(
        "My Template",
        201,
        "{\"id\":\"d-abc123\",\"name\":\"My Template\",\"generation\":\"dynamic\"}",
    )
    .unwrap();
    assert_eq!(r.template_id.as_deref(), Some("d-abc123"));
}

#[test]
fn create_template_blank_success_has_no_id() {
    let r = SendGridRestClient::classify_create_template_response("My Template", 202, "").unwrap();
    assert!(r.template_id.is_none());
}

#[test]
fn get_template_request_is_a_bodyless_get() {
    let c = client();
    let r = c.build_get_template_request("d-abc123");
    assert_eq!(r.method, HttpMethod::Get);
    assert_eq!(r.url, "https://api.sendgrid.com/v3/templates/d-abc123");
    assert!(r.body.is_none());
    assert_eq!(r.headers.len(), 2);
}

#[test]
fn get_template_reads_versions_in_order() {
    let body = "{\"id\":\"d-1\",\"name\":\"t\",\"generation\":\"dynamic\",\
                \"updated_at\":\"2020-01-01\",\"versions\":[\
                {\"name\":\"first\",\"subject\":\"a\"},\
                {\"name\":\"second\",\"subject\":\"b\"},\
                {\"name\":\"third\",\"subject\":\"c\"}]}";
    let t = SendGridRestClient::classify_get_template_response("d-1", 200, body)
        .unwrap()
        .unwrap();
    assert_eq!(t.versions.len(), 3);
    assert_eq!(t.versions[0].name, "first");
    assert_eq!(t.versions[1].name, "second");
    assert_eq!(t.versions[2].name, "third");
}

#[test]
fn get_template_blank_success_is_no_content() {
    let r = SendGridRestClient::classify_get_template_response("d-1", 200, "  ").unwrap();
    assert!(r.is_none());
}

#[test]
fn update_template_request_always_posts_to_versions() {
    let c = client();
    let r = c.build_update_template_request("n", "d-abc123", "<p>h</p>", "h", "s");
    assert_eq!(r.method, HttpMethod::Post);
    assert_eq!(r.url, "https://api.sendgrid.com/v3/templates/d-abc123/versions");
    let body: serde_json::Value = serde_json::from_str(r.body.as_deref().unwrap()).unwrap();
    assert_eq!(body.get("template_id").unwrap().as_str().unwrap(), "d-abc123");
    assert_eq!(body.get("active").unwrap().as_i64().unwrap(), 1);
    assert_eq!(body.get("generate_plain_content").unwrap().as_bool().unwrap(), true);
    assert_eq!(body.get("editor").unwrap().as_str().unwrap(), "code");
    assert!(body.get("test_data").is_none());
}

#[test]
fn update_template_decodes_the_new_version() {
    let body = "{\"id\":\"v-9\",\"template_id\":\"d-1\",\"name\":\"n\",\"subject\":\"s\",\
                \"active\":1,\"warning\":{\"message\":\"careful\"}}";
    let v = SendGridRestClient::classify_update_template_response("d-1", 201, body)
        .unwrap()
        .unwrap();
    assert_eq!(v.id.as_deref(), Some("v-9"));
    assert_eq!(v.active, Some(1));
    assert_eq!(v.warning.unwrap().message, "careful");
}

#[test]
fn update_template_bad_body_is_a_decode_error() {
    let r = SendGridRestClient::classify_update_template_response("d-1", 200, "{\"name\":3}");
    assert!(matches!(r, Err(SendGridError::DecodeError { .. })));
}

#[test]
fn host_override_is_used_verbatim() {
    let c = SendGridRestClient::new(
        "SECRET-REDACTED".to_string(),
        Some("https://staging.example.com/v3".to_string()),
    );
    let r = c.build_get_template_request("d-1");
    assert_eq!(r.url, "https://staging.example.com/v3/templates/d-1");
}
