//! The serialization contracts of the wire model, and the executable
//! encoders and decoders proved against them.
//!
//! Member presence follows the provider's wire protocol: an optional
//! member is omitted when absent — never emitted as `null` — except the
//! `cc` and `bcc` members of a personalization, which are always
//! present.

use vstd::prelude::*;

use crate::errors::SendGridContentError;
use crate::json::{
    jmap_model, jmodel, jobj_insert, jobj_new, jv_array, jv_as_array, jv_as_bool, jv_as_i64,
    jv_as_str, jv_bool, jv_get, jv_i64, jv_is_null, jv_is_object, jv_null, jv_object, jv_string,
    no_members, JsonVal,
};
use crate::models::{
    address_list_view, opt_address_list_view, opt_string_view, placeholder_list_view,
    CreateSendGridTemplate, CreateSendGridTemplateResponse, CreateSendGridTemplateResponseView,
    Content, ContentView, CreateSendGridTemplateView, EmailAddress, EmailAddressView,
    Personalization,
    PersonalizationView, SendGridEmail, SendGridEmailView, SendGridTemplateVersionRequest,
    SendGridTemplateVersionRequestView, TransactionalTemplate, TransactionalTemplateVersion,
    TransactionalTemplateVersionView, TransactionalTemplateView, Warning, WarningView,
};

verus! {

/// The view of an optional value.
pub open spec fn opt_view<T: View>(o: Option<T>) -> Option<T::V> {
    match o {
        Some(t) => Some(t@),
        None => None,
    }
}

/// The view of a result.
pub open spec fn result_view<T: View, E: View>(r: Result<T, E>) -> Result<T::V, E::V> {
    match r {
        Ok(t) => Ok(t@),
        Err(e) => Err(e@),
    }
}

/// The members of a JSON object, where the value is one.
pub open spec fn members_of(j: JsonVal) -> Map<Seq<char>, JsonVal>
    recommends
        j is Obj,
{
    match j {
        JsonVal::Obj(m) => m,
        _ => no_members(),
    }
}

/// Inserts a string member when present, omits it when absent.
pub open spec fn insert_opt_str(
    m: Map<Seq<char>, JsonVal>,
    k: Seq<char>,
    o: Option<Seq<char>>,
) -> Map<Seq<char>, JsonVal> {
    match o {
        Some(s) => m.insert(k, JsonVal::Str(s)),
        None => m,
    }
}

/// Inserts an integer member when present, omits it when absent.
pub open spec fn insert_opt_i32(
    m: Map<Seq<char>, JsonVal>,
    k: Seq<char>,
    o: Option<i32>,
) -> Map<Seq<char>, JsonVal> {
    match o {
        Some(n) => m.insert(k, JsonVal::Int(n as int)),
        None => m,
    }
}

/// Inserts a boolean member when present, omits it when absent.
pub open spec fn insert_opt_bool(
    m: Map<Seq<char>, JsonVal>,
    k: Seq<char>,
    o: Option<bool>,
) -> Map<Seq<char>, JsonVal> {
    match o {
        Some(b) => m.insert(k, JsonVal::Bool(b)),
        None => m,
    }
}

impl EmailAddressView {
    /// The wire members of an address: `email` always, `name` only when
    /// present.
    pub open spec fn wire_members(self) -> Map<Seq<char>, JsonVal> {
        insert_opt_str(
            no_members().insert("email"@, JsonVal::Str(self.email)),
            "name"@,
            self.name,
        )
    }

    /// The wire form of an address.
    pub open spec fn wire_json(self) -> JsonVal {
        JsonVal::Obj(self.wire_members())
    }
}

/// The wire form of a list of addresses.
pub open spec fn address_array(l: Seq<EmailAddressView>) -> JsonVal {
    JsonVal::Arr(l.map_values(|a: EmailAddressView| a.wire_json()))
}

/// The wire form of an optional list of addresses: absent lists appear
/// as `null`.
pub open spec fn optional_address_array(o: Option<Seq<EmailAddressView>>) -> JsonVal {
    match o {
        Some(l) => address_array(l),
        None => JsonVal::Null,
    }
}

/// The members of a placeholder object, taken in list order; a later
/// pair with the same name replaces an earlier one.
pub open spec fn placeholder_members(d: Seq<(Seq<char>, Seq<char>)>) -> Map<Seq<char>, JsonVal>
    decreases d.len(),
{
    if d.len() == 0 {
        no_members()
    } else {
        placeholder_members(d.drop_last()).insert(d.last().0, JsonVal::Str(d.last().1))
    }
}

impl PersonalizationView {
    /// The wire members of a personalization: `to` always,
    /// `dynamic_template_data` only when present, `cc` and `bcc` always,
    /// `null` when absent.
    pub open spec fn wire_members(self) -> Map<Seq<char>, JsonVal> {
        let m = no_members().insert("to"@, address_array(self.to));
        let m = (match self.dynamic_template_data {
            Some(d) => m.insert("dynamic_template_data"@, JsonVal::Obj(placeholder_members(d))),
            None => m,
        });
        m.insert("cc"@, optional_address_array(self.cc)).insert(
            "bcc"@,
            optional_address_array(self.bcc),
        )
    }

    /// The wire form of a personalization.
    pub open spec fn wire_json(self) -> JsonVal {
        JsonVal::Obj(self.wire_members())
    }
}

impl ContentView {
    /// The wire members of an inline content block: its media type,
    /// under the provider's `type` name, and its value.
    pub open spec fn wire_members(self) -> Map<Seq<char>, JsonVal> {
        no_members().insert("type"@, JsonVal::Str(self.content_type)).insert(
            "value"@,
            JsonVal::Str(self.value),
        )
    }

    /// The wire form of an inline content block.
    pub open spec fn wire_json(self) -> JsonVal {
        JsonVal::Obj(self.wire_members())
    }
}

impl SendGridEmailView {
    /// The wire members of the envelope: `from`, `personalizations` and
    /// `subject` always, `template_id` only when present.
    pub open spec fn wire_members(self) -> Map<Seq<char>, JsonVal> {
        let m = no_members().insert("from"@, self.from.wire_json()).insert(
            "personalizations"@,
            JsonVal::Arr(self.personalizations.map_values(|p: PersonalizationView| p.wire_json())),
        );
        insert_opt_str(m, "template_id"@, self.template_id).insert(
            "subject"@,
            JsonVal::Str(self.subject),
        )
    }

    /// The wire form of the envelope.
    pub open spec fn wire_json(self) -> JsonVal {
        JsonVal::Obj(self.wire_members())
    }
}

impl CreateSendGridTemplateView {
    /// The wire members of a creation request: `name` and `generation`.
    pub open spec fn wire_members(self) -> Map<Seq<char>, JsonVal> {
        no_members().insert("name"@, JsonVal::Str(self.name)).insert(
            "generation"@,
            JsonVal::Str(self.generation),
        )
    }

    /// The wire form of a creation request.
    pub open spec fn wire_json(self) -> JsonVal {
        JsonVal::Obj(self.wire_members())
    }
}

impl WarningView {
    /// The wire members of a warning: its `message`.
    pub open spec fn wire_members(self) -> Map<Seq<char>, JsonVal> {
        no_members().insert("message"@, JsonVal::Str(self.message))
    }

    /// The wire form of a warning.
    pub open spec fn wire_json(self) -> JsonVal {
        JsonVal::Obj(self.wire_members())
    }
}

impl SendGridTemplateVersionRequestView {
    /// The wire members of a version request; every optional member is
    /// omitted when absent.
    pub open spec fn wire_members(self) -> Map<Seq<char>, JsonVal> {
        let m = no_members().insert("template_id"@, JsonVal::Str(self.template_id));
        let m = insert_opt_i32(m, "active"@, self.active);
        let m = m.insert("name"@, JsonVal::Str(self.name));
        let m = insert_opt_str(m, "html_content"@, self.html_content);
        let m = insert_opt_str(m, "plain_content"@, self.plain_content);
        let m = insert_opt_bool(m, "generate_plain_content"@, self.generate_plain_content);
        let m = m.insert("subject"@, JsonVal::Str(self.subject));
        let m = insert_opt_str(m, "editor"@, self.editor);
        insert_opt_str(m, "test_data"@, self.test_data)
    }

    /// The wire form of a version request.
    pub open spec fn wire_json(self) -> JsonVal {
        JsonVal::Obj(self.wire_members())
    }
}

impl TransactionalTemplateVersionView {
    /// The wire members of a version resource; every optional member is
    /// omitted when absent.
    pub open spec fn wire_members(self) -> Map<Seq<char>, JsonVal> {
        let m = insert_opt_str(no_members(), "id"@, self.id);
        let m = insert_opt_str(m, "template_id"@, self.template_id);
        let m = insert_opt_i32(m, "active"@, self.active);
        let m = m.insert("name"@, JsonVal::Str(self.name));
        let m = m.insert("subject"@, JsonVal::Str(self.subject));
        let m = insert_opt_str(m, "updated_at"@, self.updated_at);
        let m = insert_opt_bool(m, "generate_plain_content"@, self.generate_plain_content);
        let m = insert_opt_str(m, "html_content"@, self.html_content);
        let m = insert_opt_str(m, "plain_content"@, self.plain_content);
        let m = insert_opt_str(m, "editor"@, self.editor);
        let m = insert_opt_str(m, "thumbnail_url"@, self.thumbnail_url);
        let m = (match self.warning {
            Some(w) => m.insert("warning"@, w.wire_json()),
            None => m,
        });
        insert_opt_str(m, "test_data"@, self.test_data)
    }

    /// The wire form of a version resource.
    pub open spec fn wire_json(self) -> JsonVal {
        JsonVal::Obj(self.wire_members())
    }
}

/// Encodes an address; `name` is omitted when absent.
pub fn encode_email_address(a: &EmailAddress) -> (r: serde_json::Value)
    ensures
        jmodel(r) == a@.wire_json(),
{
    let mut m = jobj_new();
    jobj_insert(&mut m, "email", jv_string(a.email.as_str()));
    match &a.name {
        Some(n) => {
            jobj_insert(&mut m, "name", jv_string(n.as_str()));
        },
        None => {},
    }
    jv_object(m)
}

/// Encodes a list of addresses, in order.
pub fn encode_address_array(l: &Vec<EmailAddress>) -> (r: serde_json::Value)
    ensures
        jmodel(r) == address_array(address_list_view(*l)),
{
    let mut items: Vec<serde_json::Value> = Vec::new();
    let mut i: usize = 0;
    while i < l.len()
        invariant
            i <= l.len(),
            items@.len() == i,
            forall|j: int| 0 <= j < i ==> jmodel(#[trigger] items@[j]) == l@[j]@.wire_json(),
        decreases l.len() - i,
    {
        let v = encode_email_address(&l[i]);
        items.push(v);
        i += 1;
    }
    let r = jv_array(items);
    proof {
        let lv = address_list_view(*l);
        assert(items@.map(|j: int, w: serde_json::Value| jmodel(w)) =~= lv.map_values(
            |a: EmailAddressView| a.wire_json(),
        ));
    }
    r
}

/// Encodes an optional list of addresses; an absent list encodes as
/// `null`.
pub fn encode_optional_address_array(o: &Option<Vec<EmailAddress>>) -> (r: serde_json::Value)
    ensures
        jmodel(r) == optional_address_array(opt_address_list_view(*o)),
{
    match o {
        Some(l) => encode_address_array(l),
        None => jv_null(),
    }
}

/// Encodes a placeholder list as one object, in list order.
pub fn encode_placeholders(d: &Vec<(String, String)>) -> (r: serde_json::Value)
    ensures
        jmodel(r) == JsonVal::Obj(placeholder_members(placeholder_list_view(*d))),
{
    let mut m = jobj_new();
    let mut i: usize = 0;
    while i < d.len()
        invariant
            i <= d.len(),
            jmap_model(m) == placeholder_members(placeholder_list_view(*d).take(i as int)),
        decreases d.len() - i,
    {
        let pair = &d[i];
        jobj_insert(&mut m, pair.0.as_str(), jv_string(pair.1.as_str()));
        proof {
            let dv = placeholder_list_view(*d);
            assert(dv.take(i as int + 1).drop_last() =~= dv.take(i as int));
            assert(dv.take(i as int + 1).last() == dv[i as int]);
        }
        i += 1;
    }
    proof {
        let dv = placeholder_list_view(*d);
        assert(dv.take(d@.len() as int) =~= dv);
    }
    jv_object(m)
}

/// Encodes a personalization.
pub fn encode_personalization(p: &Personalization) -> (r: serde_json::Value)
    ensures
        jmodel(r) == p@.wire_json(),
{
    let mut m = jobj_new();
    jobj_insert(&mut m, "to", encode_address_array(&p.to));
    match &p.dynamic_template_data {
        Some(d) => {
            jobj_insert(&mut m, "dynamic_template_data", encode_placeholders(d));
        },
        None => {},
    }
    jobj_insert(&mut m, "cc", encode_optional_address_array(&p.cc));
    jobj_insert(&mut m, "bcc", encode_optional_address_array(&p.bcc));
    jv_object(m)
}

/// Encodes the envelope of a send request.
pub fn encode_email(e: &SendGridEmail) -> (r: serde_json::Value)
    ensures
        jmodel(r) == e@.wire_json(),
{
    let mut items: Vec<serde_json::Value> = Vec::new();
    let mut i: usize = 0;
    while i < e.personalizations.len()
        invariant
            i <= e.personalizations.len(),
            items@.len() == i,
            forall|j: int|
                0 <= j < i ==> jmodel(#[trigger] items@[j]) == e.personalizations@[j]@.wire_json(),
        decreases e.personalizations.len() - i,
    {
        let v = encode_personalization(&e.personalizations[i]);
        items.push(v);
        i += 1;
    }
    let mut m = jobj_new();
    jobj_insert(&mut m, "from", encode_email_address(&e.from));
    let arr = jv_array(items);
    proof {
        assert(e@.personalizations == e.personalizations@.map_values(|p: Personalization| p@));
        assert((match jmodel(arr) {
            JsonVal::Arr(s) => s,
            _ => Seq::empty(),
        }) =~= e@.personalizations.map_values(|p: PersonalizationView| p.wire_json()));
    }
    jobj_insert(&mut m, "personalizations", arr);
    match &e.template_id {
        Some(t) => {
            jobj_insert(&mut m, "template_id", jv_string(t.as_str()));
        },
        None => {},
    }
    jobj_insert(&mut m, "subject", jv_string(e.subject.as_str()));
    jv_object(m)
}

/// Encodes an inline content block.
pub fn encode_content(c: &Content) -> (r: serde_json::Value)
    ensures
        jmodel(r) == c@.wire_json(),
{
    let mut m = jobj_new();
    jobj_insert(&mut m, "type", jv_string(c.content_type.as_str()));
    jobj_insert(&mut m, "value", jv_string(c.value.as_str()));
    jv_object(m)
}

/// Encodes a creation request.
pub fn encode_create_template(c: &CreateSendGridTemplate) -> (r: serde_json::Value)
    ensures
        jmodel(r) == c@.wire_json(),
{
    let mut m = jobj_new();
    jobj_insert(&mut m, "name", jv_string(c.name.as_str()));
    jobj_insert(&mut m, "generation", jv_string(c.generation.as_str()));
    jv_object(m)
}

/// Encodes a warning.
pub fn encode_warning(w: &Warning) -> (r: serde_json::Value)
    ensures
        jmodel(r) == w@.wire_json(),
{
    let mut m = jobj_new();
    jobj_insert(&mut m, "message", jv_string(w.message.as_str()));
    jv_object(m)
}

/// Encodes a version request; optional members are omitted when
/// absent.
pub fn encode_version_request(rq: &SendGridTemplateVersionRequest) -> (r: serde_json::Value)
    ensures
        jmodel(r) == rq@.wire_json(),
{
    let mut m = jobj_new();
    jobj_insert(&mut m, "template_id", jv_string(rq.template_id.as_str()));
    match &rq.active {
        Some(n) => {
            jobj_insert(&mut m, "active", jv_i64(*n as i64));
        },
        None => {},
    }
    jobj_insert(&mut m, "name", jv_string(rq.name.as_str()));
    match &rq.html_content {
        Some(s) => {
            jobj_insert(&mut m, "html_content", jv_string(s.as_str()));
        },
        None => {},
    }
    match &rq.plain_content {
        Some(s) => {
            jobj_insert(&mut m, "plain_content", jv_string(s.as_str()));
        },
        None => {},
    }
    match &rq.generate_plain_content {
        Some(b) => {
            jobj_insert(&mut m, "generate_plain_content", jv_bool(*b));
        },
        None => {},
    }
    jobj_insert(&mut m, "subject", jv_string(rq.subject.as_str()));
    match &rq.editor {
        Some(s) => {
            jobj_insert(&mut m, "editor", jv_string(s.as_str()));
        },
        None => {},
    }
    match &rq.test_data {
        Some(s) => {
            jobj_insert(&mut m, "test_data", jv_string(s.as_str()));
        },
        None => {},
    }
    jv_object(m)
}

/// Encodes a version resource; optional members are omitted when
/// absent.
pub fn encode_template_version(v: &TransactionalTemplateVersion) -> (r: serde_json::Value)
    ensures
        jmodel(r) == v@.wire_json(),
{
    let mut m = jobj_new();
    match &v.id {
        Some(s) => {
            jobj_insert(&mut m, "id", jv_string(s.as_str()));
        },
        None => {},
    }
    match &v.template_id {
        Some(s) => {
            jobj_insert(&mut m, "template_id", jv_string(s.as_str()));
        },
        None => {},
    }
    match &v.active {
        Some(n) => {
            jobj_insert(&mut m, "active", jv_i64(*n as i64));
        },
        None => {},
    }
    jobj_insert(&mut m, "name", jv_string(v.name.as_str()));
    jobj_insert(&mut m, "subject", jv_string(v.subject.as_str()));
    match &v.updated_at {
        Some(s) => {
            jobj_insert(&mut m, "updated_at", jv_string(s.as_str()));
        },
        None => {},
    }
    match &v.generate_plain_content {
        Some(b) => {
            jobj_insert(&mut m, "generate_plain_content", jv_bool(*b));
        },
        None => {},
    }
    match &v.html_content {
        Some(s) => {
            jobj_insert(&mut m, "html_content", jv_string(s.as_str()));
        },
        None => {},
    }
    match &v.plain_content {
        Some(s) => {
            jobj_insert(&mut m, "plain_content", jv_string(s.as_str()));
        },
        None => {},
    }
    match &v.editor {
        Some(s) => {
            jobj_insert(&mut m, "editor", jv_string(s.as_str()));
        },
        None => {},
    }
    match &v.thumbnail_url {
        Some(s) => {
            jobj_insert(&mut m, "thumbnail_url", jv_string(s.as_str()));
        },
        None => {},
    }
    match &v.warning {
        Some(w) => {
            jobj_insert(&mut m, "warning", encode_warning(w));
        },
        None => {},
    }
    match &v.test_data {
        Some(s) => {
            jobj_insert(&mut m, "test_data", jv_string(s.as_str()));
        },
        None => {},
    }
    jv_object(m)
}

/// A required string member: its characters, or `None` where it is
/// missing or not a string.
pub open spec fn str_member(m: Map<Seq<char>, JsonVal>, k: Seq<char>) -> Option<Seq<char>> {
    if m.dom().contains(k) {
        match m[k] {
            JsonVal::Str(s) => Some(s),
            _ => None,
        }
    } else {
        None
    }
}

/// An optional string member: absent and `null` read as absent; any
/// other non-string value is a mismatch (the outer `None`).
pub open spec fn opt_str_member(m: Map<Seq<char>, JsonVal>, k: Seq<char>) -> Option<
    Option<Seq<char>>,
> {
    if m.dom().contains(k) {
        match m[k] {
            JsonVal::Str(s) => Some(Some(s)),
            JsonVal::Null => Some(None),
            _ => None,
        }
    } else {
        Some(None)
    }
}

/// An optional integer member that must fit in an `i32`.
pub open spec fn opt_i32_member(m: Map<Seq<char>, JsonVal>, k: Seq<char>) -> Option<Option<i32>> {
    if m.dom().contains(k) {
        match m[k] {
            JsonVal::Int(n) => if i32::MIN <= n <= i32::MAX {
                Some(Some(n as i32))
            } else {
                None
            },
            JsonVal::Null => Some(None),
            _ => None,
        }
    } else {
        Some(None)
    }
}

/// An optional boolean member.
pub open spec fn opt_bool_member(m: Map<Seq<char>, JsonVal>, k: Seq<char>) -> Option<Option<bool>> {
    if m.dom().contains(k) {
        match m[k] {
            JsonVal::Bool(b) => Some(Some(b)),
            JsonVal::Null => Some(None),
            _ => None,
        }
    } else {
        Some(None)
    }
}

/// The warning read out of a JSON value: an object with a string
/// `message`.
pub open spec fn warning_from_json(j: JsonVal) -> Option<WarningView> {
    match j {
        JsonVal::Obj(m) => (match str_member(m, "message"@) {
            Some(s) => Some(WarningView { message: s }),
            None => None,
        }),
        _ => None,
    }
}

/// An optional warning member.
pub open spec fn opt_warning_member(m: Map<Seq<char>, JsonVal>, k: Seq<char>) -> Option<
    Option<WarningView>,
> {
    if m.dom().contains(k) {
        match m[k] {
            JsonVal::Null => Some(None),
            _ => (match warning_from_json(m[k]) {
                Some(w) => Some(Some(w)),
                None => None,
            }),
        }
    } else {
        Some(None)
    }
}

/// The version resource read out of a JSON value: an object whose
/// `name` and `subject` are required strings; every other member is
/// optional, absent or `null` reading as absent.
pub open spec fn version_from_json(j: JsonVal) -> Option<TransactionalTemplateVersionView> {
    if !(j is Obj) {
        None
    } else {
        let m = members_of(j);
        if str_member(m, "name"@) is None || str_member(m, "subject"@) is None || opt_str_member(
            m,
            "id"@,
        ) is None || opt_str_member(m, "template_id"@) is None || opt_i32_member(m, "active"@)
            is None || opt_str_member(m, "updated_at"@) is None || opt_bool_member(
            m,
            "generate_plain_content"@,
        ) is None || opt_str_member(m, "html_content"@) is None || opt_str_member(
            m,
            "plain_content"@,
        ) is None || opt_str_member(m, "editor"@) is None || opt_str_member(m, "thumbnail_url"@)
            is None || opt_warning_member(m, "warning"@) is None || opt_str_member(m, "test_data"@)
            is None {
            None
        } else {
            Some(
                TransactionalTemplateVersionView {
                    id: opt_str_member(m, "id"@)->0,
                    template_id: opt_str_member(m, "template_id"@)->0,
                    active: opt_i32_member(m, "active"@)->0,
                    name: str_member(m, "name"@)->0,
                    subject: str_member(m, "subject"@)->0,
                    updated_at: opt_str_member(m, "updated_at"@)->0,
                    generate_plain_content: opt_bool_member(m, "generate_plain_content"@)->0,
                    html_content: opt_str_member(m, "html_content"@)->0,
                    plain_content: opt_str_member(m, "plain_content"@)->0,
                    editor: opt_str_member(m, "editor"@)->0,
                    thumbnail_url: opt_str_member(m, "thumbnail_url"@)->0,
                    warning: opt_warning_member(m, "warning"@)->0,
                    test_data: opt_str_member(m, "test_data"@)->0,
                },
            )
        }
    }
}

/// The version resources read out of a JSON array, in order; one
/// mismatching element fails the whole array.
pub open spec fn versions_from_seq(s: Seq<JsonVal>) -> Option<
    Seq<TransactionalTemplateVersionView>,
>
    decreases s.len(),
{
    if s.len() == 0 {
        Some(Seq::empty())
    } else {
        match (versions_from_seq(s.drop_last()), version_from_json(s.last())) {
            (Some(rest), Some(v)) => Some(rest.push(v)),
            _ => None,
        }
    }
}

/// The template resource read out of a JSON value: an object whose
/// `id`, `name`, `generation` and `updated_at` are required strings and
/// whose `versions` is a required array of version resources.
pub open spec fn template_from_json(j: JsonVal) -> Option<TransactionalTemplateView> {
    if !(j is Obj) {
        None
    } else {
        let m = members_of(j);
        if str_member(m, "id"@) is None || str_member(m, "name"@) is None || str_member(
            m,
            "generation"@,
        ) is None || str_member(m, "updated_at"@) is None || !m.dom().contains("versions"@) {
            None
        } else {
            match m["versions"@] {
                JsonVal::Arr(s) => (match versions_from_seq(s) {
                    Some(vs) => Some(
                        TransactionalTemplateView {
                            id: str_member(m, "id"@)->0,
                            name: str_member(m, "name"@)->0,
                            generation: str_member(m, "generation"@)->0,
                            updated_at: str_member(m, "updated_at"@)->0,
                            versions: vs,
                        },
                    ),
                    None => None,
                }),
                _ => None,
            }
        }
    }
}

/// The creation response read out of a JSON value: an object whose
/// optional `id` member carries the provider-assigned template
/// identifier.
pub open spec fn create_response_from_json(j: JsonVal) -> Option<
    CreateSendGridTemplateResponseView,
> {
    if !(j is Obj) {
        None
    } else {
        match opt_str_member(members_of(j), "id"@) {
            Some(o) => Some(CreateSendGridTemplateResponseView { template_id: o }),
            None => None,
        }
    }
}

/// The structured provider error read out of a JSON value: an object
/// whose `description` is a required string.
pub open spec fn content_error_from_json(j: JsonVal) -> Option<Seq<char>> {
    match j {
        JsonVal::Obj(m) => str_member(m, "description"@),
        _ => None,
    }
}

/// Reads a required string member out of an object value.
fn obj_req_str(v: &serde_json::Value, k: &str) -> (r: Option<String>)
    requires
        jmodel(*v) is Obj,
    ensures
        (match r {
            Some(s) => str_member(members_of(jmodel(*v)), k@) == Some(s@),
            None => str_member(members_of(jmodel(*v)), k@) is None,
        }),
{
    match jv_get(v, k) {
        Some(w) => jv_as_str(w),
        None => None,
    }
}

/// Reads an optional string member out of an object value.
fn obj_opt_str(v: &serde_json::Value, k: &str) -> (r: Option<Option<String>>)
    requires
        jmodel(*v) is Obj,
    ensures
        (match r {
            Some(o) => opt_str_member(members_of(jmodel(*v)), k@) == Some(opt_string_view(o)),
            None => opt_str_member(members_of(jmodel(*v)), k@) is None,
        }),
{
    match jv_get(v, k) {
        None => Some(None),
        Some(w) => {
            if jv_is_null(w) {
                Some(None)
            } else {
                match jv_as_str(w) {
                    Some(s) => Some(Some(s)),
                    None => None,
                }
            }
        },
    }
}

/// Reads an optional integer member that must fit in an `i32`.
fn obj_opt_i32(v: &serde_json::Value, k: &str) -> (r: Option<Option<i32>>)
    requires
        jmodel(*v) is Obj,
    ensures
        (match r {
            Some(o) => opt_i32_member(members_of(jmodel(*v)), k@) == Some(o),
            None => opt_i32_member(members_of(jmodel(*v)), k@) is None,
        }),
{
    match jv_get(v, k) {
        None => Some(None),
        Some(w) => {
            if jv_is_null(w) {
                Some(None)
            } else {
                match jv_as_i64(w) {
                    Some(n) => {
                        if i32::MIN as i64 <= n && n <= i32::MAX as i64 {
                            Some(Some(n as i32))
                        } else {
                            None
                        }
                    },
                    None => None,
                }
            }
        },
    }
}

/// Reads an optional boolean member out of an object value.
fn obj_opt_bool(v: &serde_json::Value, k: &str) -> (r: Option<Option<bool>>)
    requires
        jmodel(*v) is Obj,
    ensures
        (match r {
            Some(o) => opt_bool_member(members_of(jmodel(*v)), k@) == Some(o),
            None => opt_bool_member(members_of(jmodel(*v)), k@) is None,
        }),
{
    match jv_get(v, k) {
        None => Some(None),
        Some(w) => {
            if jv_is_null(w) {
                Some(None)
            } else {
                match jv_as_bool(w) {
                    Some(b) => Some(Some(b)),
                    None => None,
                }
            }
        },
    }
}

/// Decodes a warning resource.
pub fn decode_warning(v: &serde_json::Value) -> (r: Option<Warning>)
    ensures
        opt_view(r) == warning_from_json(jmodel(*v)),
{
    if !jv_is_object(v) {
        return None;
    }
    match obj_req_str(v, "message") {
        Some(s) => Some(Warning { message: s }),
        None => None,
    }
}

/// Reads an optional warning member out of an object value.
fn obj_opt_warning(v: &serde_json::Value, k: &str) -> (r: Option<Option<Warning>>)
    requires
        jmodel(*v) is Obj,
    ensures
        (match r {
            Some(o) => opt_warning_member(members_of(jmodel(*v)), k@) == Some(opt_view(o)),
            None => opt_warning_member(members_of(jmodel(*v)), k@) is None,
        }),
{
    match jv_get(v, k) {
        None => Some(None),
        Some(w) => {
            if jv_is_null(w) {
                Some(None)
            } else {
                match decode_warning(w) {
                    Some(wa) => Some(Some(wa)),
                    None => None,
                }
            }
        },
    }
}

/// Decodes a version resource.
pub fn decode_template_version(v: &serde_json::Value) -> (r: Option<TransactionalTemplateVersion>)
    ensures
        opt_view(r) == version_from_json(jmodel(*v)),
{
    if !jv_is_object(v) {
        return None;
    }
    let name = match obj_req_str(v, "name") {
        Some(s) => s,
        None => {
            return None;
        },
    };
    let subject = match obj_req_str(v, "subject") {
        Some(s) => s,
        None => {
            return None;
        },
    };
    let id = match obj_opt_str(v, "id") {
        Some(o) => o,
        None => {
            return None;
        },
    };
    let template_id = match obj_opt_str(v, "template_id") {
        Some(o) => o,
        None => {
            return None;
        },
    };
    let active = match obj_opt_i32(v, "active") {
        Some(o) => o,
        None => {
            return None;
        },
    };
    let updated_at = match obj_opt_str(v, "updated_at") {
        Some(o) => o,
        None => {
            return None;
        },
    };
    let generate_plain_content = match obj_opt_bool(v, "generate_plain_content") {
        Some(o) => o,
        None => {
            return None;
        },
    };
    let html_content = match obj_opt_str(v, "html_content") {
        Some(o) => o,
        None => {
            return None;
        },
    };
    let plain_content = match obj_opt_str(v, "plain_content") {
        Some(o) => o,
        None => {
            return None;
        },
    };
    let editor = match obj_opt_str(v, "editor") {
        Some(o) => o,
        None => {
            return None;
        },
    };
    let thumbnail_url = match obj_opt_str(v, "thumbnail_url") {
        Some(o) => o,
        None => {
            return None;
        },
    };
    let warning = match obj_opt_warning(v, "warning") {
        Some(o) => o,
        None => {
            return None;
        },
    };
    let test_data = match obj_opt_str(v, "test_data") {
        Some(o) => o,
        None => {
            return None;
        },
    };
    Some(
        TransactionalTemplateVersion {
            id,
            template_id,
            active,
            name,
            subject,
            updated_at,
            generate_plain_content,
            html_content,
            plain_content,
            editor,
            thumbnail_url,
            warning,
            test_data,
        },
    )
}

/// Every element of an array that reads as a version sequence reads as
/// a version itself.
proof fn lemma_versions_from_seq_elem(s: Seq<JsonVal>, i: int)
    requires
        0 <= i < s.len(),
        versions_from_seq(s) is Some,
    ensures
        version_from_json(s[i]) is Some,
    decreases s.len(),
{
    if i < s.len() - 1 {
        lemma_versions_from_seq_elem(s.drop_last(), i);
    }
}

/// Decodes a template resource, its versions included.
#[verifier::loop_isolation(false)]
pub fn decode_template(v: &serde_json::Value) -> (r: Option<TransactionalTemplate>)
    ensures
        opt_view(r) == template_from_json(jmodel(*v)),
{
    if !jv_is_object(v) {
        return None;
    }
    let id = match obj_req_str(v, "id") {
        Some(s) => s,
        None => {
            return None;
        },
    };
    let name = match obj_req_str(v, "name") {
        Some(s) => s,
        None => {
            return None;
        },
    };
    let generation = match obj_req_str(v, "generation") {
        Some(s) => s,
        None => {
            return None;
        },
    };
    let updated_at = match obj_req_str(v, "updated_at") {
        Some(s) => s,
        None => {
            return None;
        },
    };
    let arr = match jv_get(v, "versions") {
        Some(w) => w,
        None => {
            return None;
        },
    };
    let items = match jv_as_array(arr) {
        Some(a) => a,
        None => {
            return None;
        },
    };
    let ghost s = items@.map(|j: int, w: serde_json::Value| jmodel(w));
    let mut versions: Vec<TransactionalTemplateVersion> = Vec::new();
    let mut i: usize = 0;
    while i < items.len()
        invariant
            i <= items.len(),
            s == items@.map(|j: int, w: serde_json::Value| jmodel(w)),
            versions_from_seq(s.take(i as int)) == Some(
                versions@.map_values(|t: TransactionalTemplateVersion| t@),
            ),
        decreases items.len() - i,
    {
        let ver = match decode_template_version(&items[i]) {
            Some(t) => t,
            None => {
                proof {
                    assert(s[i as int] == jmodel(items@[i as int]));
                    if versions_from_seq(s) is Some {
                        lemma_versions_from_seq_elem(s, i as int);
                    }
                }
                return None;
            },
        };
        proof {
            assert(s.take(i as int + 1).drop_last() =~= s.take(i as int));
            assert(s.take(i as int + 1).last() == s[i as int]);
            assert(versions@.push(ver).map_values(|t: TransactionalTemplateVersion| t@)
                =~= versions@.map_values(|t: TransactionalTemplateVersion| t@).push(ver@));
        }
        versions.push(ver);
        i += 1;
    }
    proof {
        assert(s.take(items@.len() as int) =~= s);
    }
    Some(TransactionalTemplate { id, name, generation, updated_at, versions })
}

/// Decodes a creation response: its optional `id` member is the
/// provider-assigned template identifier.
pub fn decode_create_response(v: &serde_json::Value) -> (r: Option<CreateSendGridTemplateResponse>)
    ensures
        opt_view(r) == create_response_from_json(jmodel(*v)),
{
    if !jv_is_object(v) {
        return None;
    }
    match obj_opt_str(v, "id") {
        Some(o) => Some(CreateSendGridTemplateResponse { template_id: o }),
        None => None,
    }
}

/// Decodes the structured provider error of a 400 response.
pub fn decode_content_error(v: &serde_json::Value) -> (r: Option<SendGridContentError>)
    ensures
        (match r {
            Some(e) => content_error_from_json(jmodel(*v)) == Some(e.description@),
            None => content_error_from_json(jmodel(*v)) is None,
        }),
{
    if !jv_is_object(v) {
        return None;
    }
    match obj_req_str(v, "description") {
        Some(s) => Some(SendGridContentError { description: s }),
        None => None,
    }
}

} // verus!
