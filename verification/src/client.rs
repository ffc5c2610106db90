//! The REST client core: it owns the credential and the base host,
//! builds fully-qualified requests from typed inputs, and classifies
//! HTTP responses into typed results or errors.
//!
//! The transport exchange itself is the caller's: each operation is a
//! request builder paired with a response classifier, and the caller
//! performs one HTTP exchange between the two.

use vstd::prelude::*;

use crate::codec::{
    content_error_from_json, create_response_from_json, decode_content_error,
    decode_create_response, decode_template, decode_template_version, encode_create_template,
    encode_email, encode_version_request, opt_view, result_view, template_from_json,
    version_from_json,
};
use crate::config::{production_host, SendGridConfig};
use crate::endpoints::SendGridEndpoint;
use crate::errors::{SendGridError, SendGridErrorView};
use crate::json::{blank, jparse, jv_is_object, jv_parse, jv_to_string, rendered};
use crate::models::{
    address_list_view, opt_address_list_view, placeholder_list_view, CreateSendGridTemplate,
    CreateSendGridTemplateResponse, CreateSendGridTemplateResponseView, CreateSendGridTemplateView,
    EmailAddress, EmailAddressView, Personalization, PersonalizationView, SendGridEmail,
    SendGridEmailResponse, SendGridEmailResponseView, SendGridEmailView,
    SendGridTemplateVersionRequest, SendGridTemplateVersionRequestView, TransactionalTemplate,
    TransactionalTemplateVersion, TransactionalTemplateVersionView, TransactionalTemplateView,
};

verus! {

/// An HTTP method this client issues.
#[derive(Clone, Copy, PartialEq, Eq, Structural, Debug)]
pub enum HttpMethod {
    Get,
    Post,
}

/// One fully-built HTTP request: everything a transport needs to
/// perform the exchange.
pub struct HttpRequest {
    pub method: HttpMethod,
    pub url: String,
    pub headers: Vec<(String, String)>,
    pub body: Option<String>,
}

/// The view of a header list.
pub open spec fn header_list_view(h: Vec<(String, String)>) -> Seq<(Seq<char>, Seq<char>)> {
    h@.map_values(|p: (String, String)| (p.0@, p.1@))
}

/// The two headers every request carries: the JSON content type and
/// the bearer credential.
pub open spec fn standard_headers(token: Seq<char>) -> Seq<(Seq<char>, Seq<char>)> {
    seq![("Content-Type"@, "application/json"@), ("Authorization"@, "Bearer "@ + token)]
}

/// Joins a base host and a path suffix, collapsing the slash where the
/// host already ends with one.
pub open spec fn spec_join_url(host: Seq<char>, path: Seq<char>) -> Seq<char> {
    if host.len() > 0 && path.len() > 0 && host.last() == '/' && path.first() == '/' {
        host + path.skip(1)
    } else {
        host + path
    }
}

/// Joins a base host and a path suffix.
fn join_url(host: &str, path: &str) -> (r: String)
    ensures
        r@ == spec_join_url(host@, path@),
{
    let hl = host.unicode_len();
    let pl = path.unicode_len();
    let mut url = String::from_str(host);
    if hl > 0 && pl > 0 && host.get_char(hl - 1) == '/' && path.get_char(0) == '/' {
        url.append(path.substring_char(1, pl));
        proof {
            assert(path@.subrange(1, pl as int) =~= path@.skip(1));
        }
    } else {
        url.append(path);
    }
    url
}

/// Decides whether a body consists of whitespace alone.
pub fn is_blank(s: &str) -> (r: bool)
    ensures
        r == blank(s@),
{
    let n = s.unicode_len();
    let mut i: usize = 0;
    while i < n
        invariant
            n == s@.len(),
            i <= n,
            forall|j: int|
                0 <= j < i ==> (s@[j] == ' ' || s@[j] == '\t' || s@[j] == '\n' || s@[j] == '\r'),
        decreases n - i,
    {
        let c = s.get_char(i);
        if !(c == ' ' || c == '\t' || c == '\n' || c == '\r') {
            return false;
        }
        i += 1;
    }
    true
}

/// The envelope that one send call constructs: exactly one
/// personalization, the template reference, and an empty subject — the
/// template supplies subject and content.
pub open spec fn send_envelope(
    from: EmailAddressView,
    to: Seq<EmailAddressView>,
    cc: Option<Seq<EmailAddressView>>,
    bcc: Option<Seq<EmailAddressView>>,
    template_id: Seq<char>,
    placeholders: Option<Seq<(Seq<char>, Seq<char>)>>,
) -> SendGridEmailView {
    SendGridEmailView {
        from,
        personalizations: seq![
            PersonalizationView { to, dynamic_template_data: placeholders, cc, bcc },
        ],
        template_id: Some(template_id),
        subject: Seq::empty(),
    }
}

/// The version request that one update call constructs: it activates
/// the new version, asks the provider to generate plain content, uses
/// the code editor, and carries no test data.
pub open spec fn update_version_request(
    name: Seq<char>,
    template_id: Seq<char>,
    html_content: Seq<char>,
    plain_content: Seq<char>,
    subject: Seq<char>,
) -> SendGridTemplateVersionRequestView {
    SendGridTemplateVersionRequestView {
        template_id,
        active: Some(1),
        name,
        html_content: Some(html_content),
        plain_content: Some(plain_content),
        generate_plain_content: Some(true),
        subject,
        editor: Some("code"@),
        test_data: None,
    }
}

/// The error a 400 response classifies into: the structured provider
/// reason where the body decodes as one, otherwise a transport-level
/// error embedding the raw body.
pub open spec fn bad_request_outcome(context: Seq<char>, body: Seq<char>) -> SendGridErrorView {
    match jparse(body) {
        Some(j) => (match content_error_from_json(j) {
            Some(d) => SendGridErrorView::BadRequest { context, description: d },
            None => SendGridErrorView::TransportError { message: body },
        }),
        None => SendGridErrorView::TransportError { message: body },
    }
}

/// The outcome of a send exchange, as a function of status and body.
/// An accepted send (202) is unconditional success: the provider
/// echoes no content, so no requirement is put on the body.
pub open spec fn send_outcome(context: Seq<char>, status: u16, body: Seq<char>) -> Result<
    SendGridEmailResponseView,
    SendGridErrorView,
> {
    if status == 202 {
        Ok(SendGridEmailResponseView {  })
    } else if status == 200 || status == 201 {
        if blank(body) {
            Ok(SendGridEmailResponseView {  })
        } else {
            match jparse(body) {
                Some(j) => if j is Obj {
                    Ok(SendGridEmailResponseView {  })
                } else {
                    Err(SendGridErrorView::DecodeError { raw_body: body })
                },
                None => Err(SendGridErrorView::DecodeError { raw_body: body }),
            }
        }
    } else if status == 400 {
        Err(bad_request_outcome(context, body))
    } else if status == 401 {
        Err(SendGridErrorView::Unauthorized)
    } else if status == 500 {
        Err(SendGridErrorView::InternalServerError)
    } else if status == 503 {
        Err(SendGridErrorView::ServiceUnavailable)
    } else {
        match jparse(body) {
            Some(j) => if j is Obj {
                Ok(SendGridEmailResponseView {  })
            } else {
                Err(SendGridErrorView::UnexpectedStatus { code: status, raw_body: body })
            },
            None => Err(SendGridErrorView::UnexpectedStatus { code: status, raw_body: body }),
        }
    }
}

/// The outcome of a template-creation exchange.
pub open spec fn create_template_outcome(context: Seq<char>, status: u16, body: Seq<char>) -> Result<
    CreateSendGridTemplateResponseView,
    SendGridErrorView,
> {
    if status == 200 || status == 201 || status == 202 {
        if blank(body) {
            Ok(CreateSendGridTemplateResponseView { template_id: None })
        } else {
            match jparse(body) {
                Some(j) => (match create_response_from_json(j) {
                    Some(c) => Ok(c),
                    None => Err(SendGridErrorView::DecodeError { raw_body: body }),
                }),
                None => Err(SendGridErrorView::DecodeError { raw_body: body }),
            }
        }
    } else if status == 400 {
        Err(bad_request_outcome(context, body))
    } else if status == 401 {
        Err(SendGridErrorView::Unauthorized)
    } else if status == 500 {
        Err(SendGridErrorView::InternalServerError)
    } else if status == 503 {
        Err(SendGridErrorView::ServiceUnavailable)
    } else {
        match jparse(body) {
            Some(j) => (match create_response_from_json(j) {
                Some(c) => Ok(c),
                None => (match content_error_from_json(j) {
                    Some(d) => Err(
                        SendGridErrorView::BadRequest { context, description: d },
                    ),
                    None => Err(
                        SendGridErrorView::UnexpectedStatus { code: status, raw_body: body },
                    ),
                }),
            }),
            None => Err(SendGridErrorView::UnexpectedStatus { code: status, raw_body: body }),
        }
    }
}

/// The outcome of a template-read exchange; a blank success body is
/// "no content", not an error.
pub open spec fn get_template_outcome(context: Seq<char>, status: u16, body: Seq<char>) -> Result<
    Option<TransactionalTemplateView>,
    SendGridErrorView,
> {
    if status == 200 || status == 201 || status == 202 {
        if blank(body) {
            Ok(None)
        } else {
            match jparse(body) {
                Some(j) => (match template_from_json(j) {
                    Some(t) => Ok(Some(t)),
                    None => Err(SendGridErrorView::DecodeError { raw_body: body }),
                }),
                None => Err(SendGridErrorView::DecodeError { raw_body: body }),
            }
        }
    } else if status == 400 {
        Err(bad_request_outcome(context, body))
    } else if status == 401 {
        Err(SendGridErrorView::Unauthorized)
    } else if status == 500 {
        Err(SendGridErrorView::InternalServerError)
    } else if status == 503 {
        Err(SendGridErrorView::ServiceUnavailable)
    } else {
        match jparse(body) {
            Some(j) => (match template_from_json(j) {
                Some(t) => Ok(Some(t)),
                None => (match content_error_from_json(j) {
                    Some(d) => Err(
                        SendGridErrorView::BadRequest { context, description: d },
                    ),
                    None => Err(
                        SendGridErrorView::UnexpectedStatus { code: status, raw_body: body },
                    ),
                }),
            }),
            None => Err(SendGridErrorView::UnexpectedStatus { code: status, raw_body: body }),
        }
    }
}

/// The outcome of a version-creation exchange; a blank success body is
/// "no content", not an error.
pub open spec fn update_template_outcome(context: Seq<char>, status: u16, body: Seq<char>) -> Result<
    Option<TransactionalTemplateVersionView>,
    SendGridErrorView,
> {
    if status == 200 || status == 201 || status == 202 {
        if blank(body) {
            Ok(None)
        } else {
            match jparse(body) {
                Some(j) => (match version_from_json(j) {
                    Some(t) => Ok(Some(t)),
                    None => Err(SendGridErrorView::DecodeError { raw_body: body }),
                }),
                None => Err(SendGridErrorView::DecodeError { raw_body: body }),
            }
        }
    } else if status == 400 {
        Err(bad_request_outcome(context, body))
    } else if status == 401 {
        Err(SendGridErrorView::Unauthorized)
    } else if status == 500 {
        Err(SendGridErrorView::InternalServerError)
    } else if status == 503 {
        Err(SendGridErrorView::ServiceUnavailable)
    } else {
        match jparse(body) {
            Some(j) => (match version_from_json(j) {
                Some(t) => Ok(Some(t)),
                None => (match content_error_from_json(j) {
                    Some(d) => Err(
                        SendGridErrorView::BadRequest { context, description: d },
                    ),
                    None => Err(
                        SendGridErrorView::UnexpectedStatus { code: status, raw_body: body },
                    ),
                }),
            }),
            None => Err(SendGridErrorView::UnexpectedStatus { code: status, raw_body: body }),
        }
    }
}

/// The view of a result whose success value is optional.
pub open spec fn result_opt_view<T: View, E: View>(r: Result<Option<T>, E>) -> Result<
    Option<T::V>,
    E::V,
> {
    match r {
        Ok(o) => Ok(opt_view(o)),
        Err(e) => Err(e@),
    }
}

/// Classifies a 400 response body.
fn classify_bad_request(context: &str, body: &str) -> (r: SendGridError)
    ensures
        r@ == bad_request_outcome(context@, body@),
{
    match jv_parse(body) {
        Ok(v) => {
            match decode_content_error(&v) {
                Some(e) => SendGridError::BadRequest {
                    context: String::from_str(context),
                    description: e.description,
                },
                None => SendGridError::TransportError { message: String::from_str(body) },
            }
        },
        Err(_) => SendGridError::TransportError { message: String::from_str(body) },
    }
}

/// The client: an opaque bearer credential and the base host.  Both
/// are immutable after construction, so one instance is safe to share.
#[derive(Clone)]
pub struct SendGridRestClient {
    app_token: String,
    host: String,
}

impl SendGridRestClient {
    /// The credential this client authenticates with.
    pub closed spec fn spec_token(self) -> Seq<char> {
        self.app_token@
    }

    /// The base host this client composes URLs against.
    pub closed spec fn spec_host(self) -> Seq<char> {
        self.host@
    }

    /// The URL of the mail-send operation.
    pub open spec fn mail_send_url(self) -> Seq<char> {
        spec_join_url(self.spec_host(), "/mail/send"@)
    }

    /// The URL of the template collection.
    pub open spec fn templates_url(self) -> Seq<char> {
        spec_join_url(self.spec_host(), "/templates"@)
    }

    /// The URL of one template resource.
    pub open spec fn template_url(self, template_id: Seq<char>) -> Seq<char> {
        self.templates_url() + "/"@ + template_id
    }

    /// The URL of one template's version collection.
    pub open spec fn versions_url(self, template_id: Seq<char>) -> Seq<char> {
        self.template_url(template_id) + "/versions"@
    }

    /// Builds a client against the given host, or against the
    /// production host where none is given.
    pub fn new(app_token: String, rest_api_host: Option<String>) -> (r: Self)
        ensures
            r.spec_token() == app_token@,
            r.spec_host() == (match rest_api_host {
                Some(h) => h@,
                None => production_host(),
            }),
    {
        match rest_api_host {
            Some(rest_api_host) => Self::new_with_config(
                app_token,
                SendGridConfig { rest_api_host },
            ),
            None => Self::new_with_config(app_token, SendGridConfig::default()),
        }
    }

    /// Builds a client from a configuration.
    pub fn new_with_config(app_token: String, config: SendGridConfig) -> (r: Self)
        ensures
            r.spec_token() == app_token@,
            r.spec_host() == config.rest_api_host@,
    {
        SendGridRestClient { app_token, host: config.rest_api_host }
    }

    /// The standard header pair of every request.
    fn standard_header_list(&self) -> (r: Vec<(String, String)>)
        ensures
            header_list_view(r) == standard_headers(self.spec_token()),
    {
        let mut h: Vec<(String, String)> = Vec::new();
        h.push((String::from_str("Content-Type"), String::from_str("application/json")));
        let mut auth = String::from_str("Bearer ");
        auth.append(self.app_token.as_str());
        h.push((String::from_str("Authorization"), auth));
        proof {
            assert(header_list_view(h) =~= standard_headers(self.spec_token()));
        }
        h
    }

    /// Builds the envelope of one send call.
    pub fn build_send_email(
        email_from: EmailAddress,
        email_to: Vec<EmailAddress>,
        email_cc: Option<Vec<EmailAddress>>,
        email_bcc: Option<Vec<EmailAddress>>,
        template_id: &str,
        placeholders: Option<Vec<(String, String)>>,
    ) -> (r: SendGridEmail)
        ensures
            r@ == send_envelope(
                email_from@,
                address_list_view(email_to),
                opt_address_list_view(email_cc),
                opt_address_list_view(email_bcc),
                template_id@,
                (match placeholders {
                    Some(d) => Some(placeholder_list_view(d)),
                    None => None,
                }),
            ),
    {
        let mut personalizations: Vec<Personalization> = Vec::new();
        personalizations.push(
            Personalization {
                to: email_to,
                dynamic_template_data: placeholders,
                cc: email_cc,
                bcc: email_bcc,
            },
        );
        let r = SendGridEmail {
            from: email_from,
            personalizations,
            template_id: Some(String::from_str(template_id)),
            subject: String::new(),
        };
        proof {
            assert(r@.personalizations =~= send_envelope(
                email_from@,
                address_list_view(email_to),
                opt_address_list_view(email_cc),
                opt_address_list_view(email_bcc),
                template_id@,
                (match placeholders {
                    Some(d) => Some(placeholder_list_view(d)),
                    None => None,
                }),
            ).personalizations);
            assert(r@.subject =~= Seq::<char>::empty());
        }
        r
    }

    /// Builds the send request: a `POST` to the mail-send endpoint,
    /// with the standard headers and the envelope as its body.
    pub fn build_send_email_request(
        &self,
        email_from: EmailAddress,
        email_to: Vec<EmailAddress>,
        email_cc: Option<Vec<EmailAddress>>,
        email_bcc: Option<Vec<EmailAddress>>,
        template_id: &str,
        placeholders: Option<Vec<(String, String)>>,
    ) -> (r: HttpRequest)
        ensures
            r.method == HttpMethod::Post,
            r.url@ == self.mail_send_url(),
            header_list_view(r.headers) == standard_headers(self.spec_token()),
            (r.body matches Some(b) && b@ == rendered(
                send_envelope(
                    email_from@,
                    address_list_view(email_to),
                    opt_address_list_view(email_cc),
                    opt_address_list_view(email_bcc),
                    template_id@,
                    (match placeholders {
                        Some(d) => Some(placeholder_list_view(d)),
                        None => None,
                    }),
                ).wire_json(),
            )),
    {
        let envelope = Self::build_send_email(
            email_from,
            email_to,
            email_cc,
            email_bcc,
            template_id,
            placeholders,
        );
        let payload = encode_email(&envelope);
        let body = jv_to_string(&payload);
        HttpRequest {
            method: HttpMethod::Post,
            url: join_url(self.host.as_str(), SendGridEndpoint::MailSend.path()),
            headers: self.standard_header_list(),
            body: Some(body),
        }
    }

    /// Classifies the response of a send exchange.
    pub fn classify_send_email_response(context: &str, status: u16, body: &str) -> (r: Result<
        SendGridEmailResponse,
        SendGridError,
    >)
        ensures
            result_view(r) == send_outcome(context@, status, body@),
    {
        if status == 202 {
            Ok(SendGridEmailResponse {  })
        } else if status == 200 || status == 201 {
            if is_blank(body) {
                return Ok(SendGridEmailResponse {  });
            }
            match jv_parse(body) {
                Ok(v) => {
                    if jv_is_object(&v) {
                        Ok(SendGridEmailResponse {  })
                    } else {
                        Err(SendGridError::DecodeError { raw_body: String::from_str(body) })
                    }
                },
                Err(_) => Err(SendGridError::DecodeError { raw_body: String::from_str(body) }),
            }
        } else if status == 400 {
            Err(classify_bad_request(context, body))
        } else if status == 401 {
            Err(SendGridError::Unauthorized)
        } else if status == 500 {
            Err(SendGridError::InternalServerError)
        } else if status == 503 {
            Err(SendGridError::ServiceUnavailable)
        } else {
            match jv_parse(body) {
                Ok(v) => {
                    if jv_is_object(&v) {
                        Ok(SendGridEmailResponse {  })
                    } else {
                        Err(
                            SendGridError::UnexpectedStatus {
                                code: status,
                                raw_body: String::from_str(body),
                            },
                        )
                    }
                },
                Err(_) => Err(
                    SendGridError::UnexpectedStatus {
                        code: status,
                        raw_body: String::from_str(body),
                    },
                ),
            }
        }
    }

    /// Builds the creation request: a `POST` to the template
    /// collection whose body names the template and asks for the
    /// dynamic generation.
    pub fn build_create_template_request(&self, name: &str) -> (r: HttpRequest)
        ensures
            r.method == HttpMethod::Post,
            r.url@ == self.templates_url(),
            header_list_view(r.headers) == standard_headers(self.spec_token()),
            (r.body matches Some(b) && b@ == rendered(
                (CreateSendGridTemplateView { name: name@, generation: "dynamic"@ }).wire_json(),
            )),
    {
        let payload = CreateSendGridTemplate {
            name: String::from_str(name),
            generation: String::from_str("dynamic"),
        };
        let value = encode_create_template(&payload);
        let body = jv_to_string(&value);
        HttpRequest {
            method: HttpMethod::Post,
            url: join_url(self.host.as_str(), SendGridEndpoint::Templates.path()),
            headers: self.standard_header_list(),
            body: Some(body),
        }
    }

    /// Classifies the response of a template-creation exchange.
    pub fn classify_create_template_response(context: &str, status: u16, body: &str) -> (r: Result<
        CreateSendGridTemplateResponse,
        SendGridError,
    >)
        ensures
            result_view(r) == create_template_outcome(context@, status, body@),
    {
        if status == 200 || status == 201 || status == 202 {
            if is_blank(body) {
                return Ok(CreateSendGridTemplateResponse { template_id: None });
            }
            match jv_parse(body) {
                Ok(v) => {
                    match decode_create_response(&v) {
                        Some(c) => Ok(c),
                        None => Err(
                            SendGridError::DecodeError { raw_body: String::from_str(body) },
                        ),
                    }
                },
                Err(_) => Err(SendGridError::DecodeError { raw_body: String::from_str(body) }),
            }
        } else if status == 400 {
            Err(classify_bad_request(context, body))
        } else if status == 401 {
            Err(SendGridError::Unauthorized)
        } else if status == 500 {
            Err(SendGridError::InternalServerError)
        } else if status == 503 {
            Err(SendGridError::ServiceUnavailable)
        } else {
            match jv_parse(body) {
                Ok(v) => {
                    match decode_create_response(&v) {
                        Some(c) => Ok(c),
                        None => {
                            match decode_content_error(&v) {
                                Some(e) => Err(
                                    SendGridError::BadRequest {
                                        context: String::from_str(context),
                                        description: e.description,
                                    },
                                ),
                                None => Err(
                                    SendGridError::UnexpectedStatus {
                                        code: status,
                                        raw_body: String::from_str(body),
                                    },
                                ),
                            }
                        },
                    }
                },
                Err(_) => Err(
                    SendGridError::UnexpectedStatus {
                        code: status,
                        raw_body: String::from_str(body),
                    },
                ),
            }
        }
    }

    /// Builds the read request: a `GET` of one template resource, with
    /// no body.
    pub fn build_get_template_request(&self, template_id: &str) -> (r: HttpRequest)
        ensures
            r.method == HttpMethod::Get,
            r.url@ == self.template_url(template_id@),
            header_list_view(r.headers) == standard_headers(self.spec_token()),
            r.body is None,
    {
        let mut url = join_url(self.host.as_str(), SendGridEndpoint::Templates.path());
        url.append("/");
        url.append(template_id);
        HttpRequest {
            method: HttpMethod::Get,
            url,
            headers: self.standard_header_list(),
            body: None,
        }
    }

    /// Classifies the response of a template-read exchange.
    pub fn classify_get_template_response(context: &str, status: u16, body: &str) -> (r: Result<
        Option<TransactionalTemplate>,
        SendGridError,
    >)
        ensures
            result_opt_view(r) == get_template_outcome(context@, status, body@),
    {
        if status == 200 || status == 201 || status == 202 {
            if is_blank(body) {
                return Ok(None);
            }
            match jv_parse(body) {
                Ok(v) => {
                    match decode_template(&v) {
                        Some(t) => Ok(Some(t)),
                        None => Err(
                            SendGridError::DecodeError { raw_body: String::from_str(body) },
                        ),
                    }
                },
                Err(_) => Err(SendGridError::DecodeError { raw_body: String::from_str(body) }),
            }
        } else if status == 400 {
            Err(classify_bad_request(context, body))
        } else if status == 401 {
            Err(SendGridError::Unauthorized)
        } else if status == 500 {
            Err(SendGridError::InternalServerError)
        } else if status == 503 {
            Err(SendGridError::ServiceUnavailable)
        } else {
            match jv_parse(body) {
                Ok(v) => {
                    match decode_template(&v) {
                        Some(t) => Ok(Some(t)),
                        None => {
                            match decode_content_error(&v) {
                                Some(e) => Err(
                                    SendGridError::BadRequest {
                                        context: String::from_str(context),
                                        description: e.description,
                                    },
                                ),
                                None => Err(
                                    SendGridError::UnexpectedStatus {
                                        code: status,
                                        raw_body: String::from_str(body),
                                    },
                                ),
                            }
                        },
                    }
                },
                Err(_) => Err(
                    SendGridError::UnexpectedStatus {
                        code: status,
                        raw_body: String::from_str(body),
                    },
                ),
            }
        }
    }

    /// Builds the update request: always a `POST` to the template's
    /// version collection — the provider has no in-place edit, so every
    /// update creates a new version.
    pub fn build_update_template_request(
        &self,
        name: &str,
        template_id: &str,
        html_content: &str,
        plain_content: &str,
        subject: &str,
    ) -> (r: HttpRequest)
        ensures
            r.method == HttpMethod::Post,
            r.url@ == self.versions_url(template_id@),
            header_list_view(r.headers) == standard_headers(self.spec_token()),
            (r.body matches Some(b) && b@ == rendered(
                update_version_request(
                    name@,
                    template_id@,
                    html_content@,
                    plain_content@,
                    subject@,
                ).wire_json(),
            )),
    {
        let request = SendGridTemplateVersionRequest {
            template_id: String::from_str(template_id),
            active: Some(1),
            name: String::from_str(name),
            html_content: Some(String::from_str(html_content)),
            plain_content: Some(String::from_str(plain_content)),
            generate_plain_content: Some(true),
            subject: String::from_str(subject),
            editor: Some(String::from_str("code")),
            test_data: None,
        };
        let value = encode_version_request(&request);
        let body = jv_to_string(&value);
        let mut url = join_url(self.host.as_str(), SendGridEndpoint::Templates.path());
        url.append("/");
        url.append(template_id);
        url.append("/versions");
        HttpRequest {
            method: HttpMethod::Post,
            url,
            headers: self.standard_header_list(),
            body: Some(body),
        }
    }

    /// Classifies the response of a version-creation exchange.
    pub fn classify_update_template_response(context: &str, status: u16, body: &str) -> (r: Result<
        Option<TransactionalTemplateVersion>,
        SendGridError,
    >)
        ensures
            result_opt_view(r) == update_template_outcome(context@, status, body@),
    {
        if status == 200 || status == 201 || status == 202 {
            if is_blank(body) {
                return Ok(None);
            }
            match jv_parse(body) {
                Ok(v) => {
                    match decode_template_version(&v) {
                        Some(t) => Ok(Some(t)),
                        None => Err(
                            SendGridError::DecodeError { raw_body: String::from_str(body) },
                        ),
                    }
                },
                Err(_) => Err(SendGridError::DecodeError { raw_body: String::from_str(body) }),
            }
        } else if status == 400 {
            Err(classify_bad_request(context, body))
        } else if status == 401 {
            Err(SendGridError::Unauthorized)
        } else if status == 500 {
            Err(SendGridError::InternalServerError)
        } else if status == 503 {
            Err(SendGridError::ServiceUnavailable)
        } else {
            match jv_parse(body) {
                Ok(v) => {
                    match decode_template_version(&v) {
                        Some(t) => Ok(Some(t)),
                        None => {
                            match decode_content_error(&v) {
                                Some(e) => Err(
                                    SendGridError::BadRequest {
                                        context: String::from_str(context),
                                        description: e.description,
                                    },
                                ),
                                None => Err(
                                    SendGridError::UnexpectedStatus {
                                        code: status,
                                        raw_body: String::from_str(body),
                                    },
                                ),
                            }
                        },
                    }
                },
                Err(_) => Err(
                    SendGridError::UnexpectedStatus {
                        code: status,
                        raw_body: String::from_str(body),
                    },
                ),
            }
        }
    }
}

} // verus!
