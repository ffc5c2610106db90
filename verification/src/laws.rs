//! Properties of the wire forms and of the response classification,
//! stated over the same specification functions the operation
//! contracts use.

use vstd::prelude::*;

use crate::client::{get_template_outcome, send_outcome};
use crate::codec::{
    content_error_from_json, members_of, template_from_json, version_from_json, versions_from_seq,
    warning_from_json,
};
use crate::errors::SendGridErrorView;
use crate::json::{blank, jparse, JsonVal};
use crate::models::{EmailAddressView, TransactionalTemplateView, TransactionalTemplateVersionView};

verus! {

/// The wire form of a valid address without a display name carries no
/// `name` member at all — absent means omitted, never `null`.
pub proof fn lemma_email_address_omits_absent_name(a: EmailAddressView)
    requires
        a.wf(),
        a.name is None,
    ensures
        a.wire_json() is Obj,
        members_of(a.wire_json()).dom().contains("email"@),
        members_of(a.wire_json())["email"@] == JsonVal::Str(a.email),
        !members_of(a.wire_json()).dom().contains("name"@),
{
    reveal_strlit("email");
    reveal_strlit("name");
    assert("name"@.len() == 4);
    assert("email"@.len() == 5);
    assert("name"@ != "email"@);
}

/// An accepted send — HTTP 202 — is success with no error, an empty
/// body or any other.
pub proof fn lemma_send_accepted_is_success(context: Seq<char>, body: Seq<char>)
    ensures
        send_outcome(context, 202, body) is Ok,
{
}

/// A send answered 400 with a body carrying a structured description
/// classifies as `BadRequest` with exactly that description.
pub proof fn lemma_send_bad_request_carries_description(
    context: Seq<char>,
    body: Seq<char>,
    j: JsonVal,
    d: Seq<char>,
)
    requires
        jparse(body) == Some(j),
        content_error_from_json(j) == Some(d),
    ensures
        (send_outcome(context, 400, body) matches Err(e) && e == (SendGridErrorView::BadRequest {
            context,
            description: d,
        })),
{
}

/// A send answered 401 classifies as `Unauthorized`, whatever the
/// body holds.
pub proof fn lemma_send_unauthorized(context: Seq<char>, body: Seq<char>)
    ensures
        (send_outcome(context, 401, body) matches Err(e) && e
            == SendGridErrorView::Unauthorized),
{
}

/// An array that reads as a version sequence reads element by
/// element, keeping length and order.
proof fn lemma_versions_from_seq_props(s: Seq<JsonVal>)
    requires
        versions_from_seq(s) is Some,
    ensures
        versions_from_seq(s)->0.len() == s.len(),
        forall|i: int|
            0 <= i < s.len() ==> Some(#[trigger] versions_from_seq(s)->0[i]) == version_from_json(
                s[i],
            ),
    decreases s.len(),
{
    if s.len() > 0 {
        lemma_versions_from_seq_props(s.drop_last());
        assert(forall|i: int| 0 <= i < s.len() - 1 ==> s.drop_last()[i] == s[i]);
    }
}

/// A template read off a 200 response with a well-formed template
/// body carries exactly as many versions as the body's `versions`
/// array, in order.
pub proof fn lemma_get_template_versions_match(
    context: Seq<char>,
    body: Seq<char>,
    j: JsonVal,
    t: TransactionalTemplateView,
    s: Seq<JsonVal>,
)
    requires
        !blank(body),
        jparse(body) == Some(j),
        template_from_json(j) == Some(t),
        members_of(j)["versions"@] == JsonVal::Arr(s),
    ensures
        (get_template_outcome(context, 200, body) matches Ok(o) && o == Some(t)),
        t.versions.len() == s.len(),
        forall|i: int|
            0 <= i < s.len() ==> Some(#[trigger] t.versions[i]) == version_from_json(s[i]),
{
    lemma_versions_from_seq_props(s);
}

/// Encoding a version resource and reading it back yields the same
/// value: every member present round-trips, and every absent member
/// stays absent rather than turning into a default.
pub proof fn lemma_version_wire_round_trip(v: TransactionalTemplateVersionView)
    ensures
        version_from_json(v.wire_json()) == Some(v),
{
    reveal_strlit("id");
    reveal_strlit("template_id");
    reveal_strlit("active");
    reveal_strlit("name");
    reveal_strlit("subject");
    reveal_strlit("updated_at");
    reveal_strlit("generate_plain_content");
    reveal_strlit("html_content");
    reveal_strlit("plain_content");
    reveal_strlit("editor");
    reveal_strlit("thumbnail_url");
    reveal_strlit("warning");
    reveal_strlit("message");
    reveal_strlit("test_data");
    assert("id"@.len() == 2);
    assert("template_id"@.len() == 11);
    assert("active"@.len() == 6);
    assert("name"@.len() == 4);
    assert("subject"@.len() == 7);
    assert("updated_at"@.len() == 10);
    assert("generate_plain_content"@.len() == 22);
    assert("html_content"@.len() == 12);
    assert("plain_content"@.len() == 13);
    assert("editor"@.len() == 6);
    assert("thumbnail_url"@.len() == 13);
    assert("warning"@.len() == 7);
    assert("test_data"@.len() == 9);
    assert("active"@[0] == 'a' && "editor"@[0] == 'e');
    assert("subject"@[0] == 's' && "warning"@[0] == 'w');
    assert("plain_content"@[0] == 'p' && "thumbnail_url"@[0] == 't');
    assert("active"@ != "editor"@);
    assert("subject"@ != "warning"@);
    assert("plain_content"@ != "thumbnail_url"@);
    if v.warning is Some {
        assert(warning_from_json((v.warning->0).wire_json()) == Some(v.warning->0));
    }
    assert(version_from_json(v.wire_json()) == Some(v));
}

} // verus!
