//! The wire model: the request and response payload shapes exchanged
//! with the provider, together with their specification-level views.
//!
//! Every shape is plain data.  Its JSON form, member presence and
//! omission rules included, is stated in `codec`.

use vstd::prelude::*;

verus! {

/// The view of an optional string.
pub open spec fn opt_string_view(o: Option<String>) -> Option<Seq<char>> {
    match o {
        Some(s) => Some(s@),
        None => None,
    }
}

/// A mail participant: an address and an optional display name.
pub struct EmailAddress {
    pub email: String,
    pub name: Option<String>,
}

/// The view of an `EmailAddress`.
pub struct EmailAddressView {
    pub email: Seq<char>,
    pub name: Option<Seq<char>>,
}

impl View for EmailAddress {
    type V = EmailAddressView;

    open spec fn view(&self) -> EmailAddressView {
        EmailAddressView { email: self.email@, name: opt_string_view(self.name) }
    }
}

impl EmailAddressView {
    /// A valid address has a non-empty email.
    pub open spec fn wf(self) -> bool {
        self.email.len() > 0
    }
}

/// One delivery's recipient set and per-recipient placeholder data.
pub struct Personalization {
    pub to: Vec<EmailAddress>,
    pub dynamic_template_data: Option<Vec<(String, String)>>,
    pub cc: Option<Vec<EmailAddress>>,
    pub bcc: Option<Vec<EmailAddress>>,
}

/// The view of a `Personalization`.
pub struct PersonalizationView {
    pub to: Seq<EmailAddressView>,
    pub dynamic_template_data: Option<Seq<(Seq<char>, Seq<char>)>>,
    pub cc: Option<Seq<EmailAddressView>>,
    pub bcc: Option<Seq<EmailAddressView>>,
}

/// The view of a list of addresses.
pub open spec fn address_list_view(l: Vec<EmailAddress>) -> Seq<EmailAddressView> {
    l@.map_values(|a: EmailAddress| a@)
}

/// The view of an optional list of addresses.
pub open spec fn opt_address_list_view(o: Option<Vec<EmailAddress>>) -> Option<
    Seq<EmailAddressView>,
> {
    match o {
        Some(l) => Some(address_list_view(l)),
        None => None,
    }
}

/// The view of a placeholder list: each pair of strings, in order.
pub open spec fn placeholder_list_view(d: Vec<(String, String)>) -> Seq<(Seq<char>, Seq<char>)> {
    d@.map_values(|p: (String, String)| (p.0@, p.1@))
}

impl View for Personalization {
    type V = PersonalizationView;

    open spec fn view(&self) -> PersonalizationView {
        PersonalizationView {
            to: address_list_view(self.to),
            dynamic_template_data: (match self.dynamic_template_data {
                Some(d) => Some(placeholder_list_view(d)),
                None => None,
            }),
            cc: opt_address_list_view(self.cc),
            bcc: opt_address_list_view(self.bcc),
        }
    }
}

/// One block of inline content, as a media type and a value.
pub struct Content {
    pub content_type: String,
    pub value: String,
}

/// The view of a `Content`.
pub struct ContentView {
    pub content_type: Seq<char>,
    pub value: Seq<char>,
}

impl View for Content {
    type V = ContentView;

    open spec fn view(&self) -> ContentView {
        ContentView { content_type: self.content_type@, value: self.value@ }
    }
}

/// The envelope: the top-level payload of one outbound send request.
pub struct SendGridEmail {
    pub from: EmailAddress,
    pub personalizations: Vec<Personalization>,
    pub template_id: Option<String>,
    pub subject: String,
}

/// The view of a `SendGridEmail`.
pub struct SendGridEmailView {
    pub from: EmailAddressView,
    pub personalizations: Seq<PersonalizationView>,
    pub template_id: Option<Seq<char>>,
    pub subject: Seq<char>,
}

impl View for SendGridEmail {
    type V = SendGridEmailView;

    open spec fn view(&self) -> SendGridEmailView {
        SendGridEmailView {
            from: self.from@,
            personalizations: self.personalizations@.map_values(|p: Personalization| p@),
            template_id: opt_string_view(self.template_id),
            subject: self.subject@,
        }
    }
}

/// The provider echoes no content on an accepted send; success carries
/// no data.
#[derive(Debug, Clone)]
pub struct SendGridEmailResponse {}

/// The view of a `SendGridEmailResponse`.
pub struct SendGridEmailResponseView {}

impl View for SendGridEmailResponse {
    type V = SendGridEmailResponseView;

    open spec fn view(&self) -> SendGridEmailResponseView {
        SendGridEmailResponseView {  }
    }
}

impl Default for SendGridEmailResponse {
    /// The empty success value.
    fn default() -> (r: Self)
        ensures
            r == (SendGridEmailResponse {  }),
    {
        SendGridEmailResponse {  }
    }
}

/// The creation request payload: a name, and the template generation,
/// which this client always sets to `"dynamic"`.
#[derive(Debug)]
pub struct CreateSendGridTemplate {
    pub name: String,
    pub generation: String,
}

/// The view of a `CreateSendGridTemplate`.
pub struct CreateSendGridTemplateView {
    pub name: Seq<char>,
    pub generation: Seq<char>,
}

impl View for CreateSendGridTemplate {
    type V = CreateSendGridTemplateView;

    open spec fn view(&self) -> CreateSendGridTemplateView {
        CreateSendGridTemplateView { name: self.name@, generation: self.generation@ }
    }
}

/// The creation response: the provider-assigned template identifier,
/// the owning key for subsequent version operations.
#[derive(Debug, Clone)]
pub struct CreateSendGridTemplateResponse {
    pub template_id: Option<String>,
}

/// The view of a `CreateSendGridTemplateResponse`.
pub struct CreateSendGridTemplateResponseView {
    pub template_id: Option<Seq<char>>,
}

impl View for CreateSendGridTemplateResponse {
    type V = CreateSendGridTemplateResponseView;

    open spec fn view(&self) -> CreateSendGridTemplateResponseView {
        CreateSendGridTemplateResponseView { template_id: opt_string_view(self.template_id) }
    }
}

impl Default for CreateSendGridTemplateResponse {
    /// The "no content" form of a creation response.
    fn default() -> (r: Self)
        ensures
            r.template_id is None,
    {
        CreateSendGridTemplateResponse { template_id: None }
    }
}

/// A reusable transactional template resource, with its versions.
#[derive(Debug)]
pub struct TransactionalTemplate {
    pub id: String,
    pub name: String,
    pub generation: String,
    pub updated_at: String,
    pub versions: Vec<TransactionalTemplateVersion>,
}

/// The view of a `TransactionalTemplate`.
pub struct TransactionalTemplateView {
    pub id: Seq<char>,
    pub name: Seq<char>,
    pub generation: Seq<char>,
    pub updated_at: Seq<char>,
    pub versions: Seq<TransactionalTemplateVersionView>,
}

impl View for TransactionalTemplate {
    type V = TransactionalTemplateView;

    open spec fn view(&self) -> TransactionalTemplateView {
        TransactionalTemplateView {
            id: self.id@,
            name: self.name@,
            generation: self.generation@,
            updated_at: self.updated_at@,
            versions: self.versions@.map_values(|v: TransactionalTemplateVersion| v@),
        }
    }
}

/// One content revision of a template.
#[derive(Debug)]
pub struct TransactionalTemplateVersion {
    pub id: Option<String>,
    pub template_id: Option<String>,
    pub active: Option<i32>,
    pub name: String,
    pub subject: String,
    pub updated_at: Option<String>,
    pub generate_plain_content: Option<bool>,
    pub html_content: Option<String>,
    pub plain_content: Option<String>,
    pub editor: Option<String>,
    pub thumbnail_url: Option<String>,
    pub warning: Option<Warning>,
    pub test_data: Option<String>,
}

/// The view of a `TransactionalTemplateVersion`.
pub struct TransactionalTemplateVersionView {
    pub id: Option<Seq<char>>,
    pub template_id: Option<Seq<char>>,
    pub active: Option<i32>,
    pub name: Seq<char>,
    pub subject: Seq<char>,
    pub updated_at: Option<Seq<char>>,
    pub generate_plain_content: Option<bool>,
    pub html_content: Option<Seq<char>>,
    pub plain_content: Option<Seq<char>>,
    pub editor: Option<Seq<char>>,
    pub thumbnail_url: Option<Seq<char>>,
    pub warning: Option<WarningView>,
    pub test_data: Option<Seq<char>>,
}

impl View for TransactionalTemplateVersion {
    type V = TransactionalTemplateVersionView;

    open spec fn view(&self) -> TransactionalTemplateVersionView {
        TransactionalTemplateVersionView {
            id: opt_string_view(self.id),
            template_id: opt_string_view(self.template_id),
            active: self.active,
            name: self.name@,
            subject: self.subject@,
            updated_at: opt_string_view(self.updated_at),
            generate_plain_content: self.generate_plain_content,
            html_content: opt_string_view(self.html_content),
            plain_content: opt_string_view(self.plain_content),
            editor: opt_string_view(self.editor),
            thumbnail_url: opt_string_view(self.thumbnail_url),
            warning: (match self.warning {
                Some(w) => Some(w@),
                None => None,
            }),
            test_data: opt_string_view(self.test_data),
        }
    }
}

/// The version-request payload: the shape posted to create a new
/// version of a template.
#[derive(Debug)]
pub struct SendGridTemplateVersionRequest {
    pub template_id: String,
    pub active: Option<i32>,
    pub name: String,
    pub html_content: Option<String>,
    pub plain_content: Option<String>,
    pub generate_plain_content: Option<bool>,
    pub subject: String,
    pub editor: Option<String>,
    pub test_data: Option<String>,
}

/// The view of a `SendGridTemplateVersionRequest`.
pub struct SendGridTemplateVersionRequestView {
    pub template_id: Seq<char>,
    pub active: Option<i32>,
    pub name: Seq<char>,
    pub html_content: Option<Seq<char>>,
    pub plain_content: Option<Seq<char>>,
    pub generate_plain_content: Option<bool>,
    pub subject: Seq<char>,
    pub editor: Option<Seq<char>>,
    pub test_data: Option<Seq<char>>,
}

impl View for SendGridTemplateVersionRequest {
    type V = SendGridTemplateVersionRequestView;

    open spec fn view(&self) -> SendGridTemplateVersionRequestView {
        SendGridTemplateVersionRequestView {
            template_id: self.template_id@,
            active: self.active,
            name: self.name@,
            html_content: opt_string_view(self.html_content),
            plain_content: opt_string_view(self.plain_content),
            generate_plain_content: self.generate_plain_content,
            subject: self.subject@,
            editor: opt_string_view(self.editor),
            test_data: opt_string_view(self.test_data),
        }
    }
}

/// A warning the provider attaches to a version resource.
#[derive(Debug)]
pub struct Warning {
    pub message: String,
}

/// The view of a `Warning`.
pub struct WarningView {
    pub message: Seq<char>,
}

impl View for Warning {
    type V = WarningView;

    open spec fn view(&self) -> WarningView {
        WarningView { message: self.message@ }
    }
}

} // verus!
