//! Endpoint management: the form shapes, their normalization into records,
//! and the rendered endpoint list fragment the management page swaps in.

use vstd::prelude::*;
use vstd::string::*;

use crate::text::{dec_i64, i64_to_dec, push_char};
use crate::vault::{CreateEndpoint, Endpoint, UpdateEndpoint};

verus! {

/// The creation form as posted.  Checkbox and optional fields arrive as
/// optional text.
pub struct CreateEndpointForm {
    pub name: String,
    pub url: String,
    pub insecure: Option<String>,
    pub username: Option<String>,
    pub password: Option<String>,
}

/// The update form as posted.
pub struct UpdateEndpointForm {
    pub name: String,
    pub url: String,
    pub insecure: Option<String>,
    pub username: Option<String>,
    pub password: Option<String>,
}

/// An optional text field, with the empty string read as absent.
pub open spec fn nonempty_or_none(o: Option<String>) -> Option<String> {
    match o {
        Some(s) => if s@.len() > 0 {
            Some(s)
        } else {
            None
        },
        None => None,
    }
}

/// Exec twin of [`nonempty_or_none`].
fn normalize_field(o: Option<String>) -> (r: Option<String>)
    ensures
        r == nonempty_or_none(o),
{
    match o {
        Some(s) => {
            if s.as_str().is_empty() {
                None
            } else {
                Some(s)
            }
        },
        None => None,
    }
}

/// Normalize a posted creation form: the checkbox reads as its presence,
/// empty username and password read as absent.
pub fn form_to_create(form: CreateEndpointForm) -> (r: CreateEndpoint)
    ensures
        r.name == form.name,
        r.url == form.url,
        r.insecure == form.insecure is Some,
        r.username == nonempty_or_none(form.username),
        r.password == nonempty_or_none(form.password),
{
    CreateEndpoint {
        name: form.name,
        url: form.url,
        insecure: form.insecure.is_some(),
        username: normalize_field(form.username),
        password: normalize_field(form.password),
    }
}

/// Normalize a posted update form the same way; name, URL and the TLS flag
/// are always set by the form.
pub fn form_to_update(form: UpdateEndpointForm) -> (r: UpdateEndpoint)
    ensures
        r.name == Some(form.name),
        r.url == Some(form.url),
        r.insecure == Some(form.insecure is Some),
        r.username == nonempty_or_none(form.username),
        r.password == nonempty_or_none(form.password),
{
    UpdateEndpoint {
        name: Some(form.name),
        url: Some(form.url),
        insecure: Some(form.insecure.is_some()),
        username: normalize_field(form.username),
        password: normalize_field(form.password),
    }
}

// ---------------------------------------------------------------------------
// HTML escaping
// ---------------------------------------------------------------------------
/// What one character contributes to an escaped attribute value.
pub open spec fn escaped_char(c: char) -> Seq<char> {
    if c == '&' {
        "&amp;"@
    } else if c == '"' {
        "&quot;"@
    } else if c == '<' {
        "&lt;"@
    } else if c == '>' {
        "&gt;"@
    } else {
        seq![c]
    }
}

/// An attribute value with its markup-significant characters escaped.
pub open spec fn escape_attr_spec(s: Seq<char>) -> Seq<char>
    decreases s.len(),
{
    if s.len() == 0 {
        Seq::empty()
    } else {
        escape_attr_spec(s.drop_last()) + escaped_char(s.last())
    }
}

/// Escape a value for an HTML attribute.
pub fn escape_attr(value: &str) -> (r: String)
    ensures
        r@ == escape_attr_spec(value@),
{
    let n = value.unicode_len();
    let mut out = String::new();
    let mut i: usize = 0;
    proof {
        assert(value@.take(0) =~= Seq::<char>::empty());
        assert(out@ =~= escape_attr_spec(value@.take(0)));
    }
    #[verifier::loop_isolation(false)]
    while i < n
        invariant
            0 <= i <= n,
            out@ == escape_attr_spec(value@.take(i as int)),
        decreases n - i,
    {
        let c = value.get_char(i);
        proof {
            assert(value@.take(i as int + 1).drop_last() =~= value@.take(i as int));
            assert(value@.take(i as int + 1).last() == c);
        }
        if c == '&' {
            out.append("&amp;");
        } else if c == '"' {
            out.append("&quot;");
        } else if c == '<' {
            out.append("&lt;");
        } else if c == '>' {
            out.append("&gt;");
        } else {
            push_char(&mut out, c);
            proof {
                assert(out@ =~= escape_attr_spec(value@.take(i as int)) + escaped_char(c));
            }
        }
        i = i + 1;
    }
    proof {
        assert(value@.take(n as int) =~= value@);
    }
    out
}

// ---------------------------------------------------------------------------
// The endpoint list fragment
// ---------------------------------------------------------------------------
/// A boolean as its rendered text.
pub open spec fn bool_str(b: bool) -> Seq<char> {
    if b {
        "true"@
    } else {
        "false"@
    }
}

/// The username attribute value: the name, or nothing.
pub open spec fn username_attr(u: Option<String>) -> Seq<char> {
    match u {
        Some(n) => n@,
        None => ""@,
    }
}

/// The avatar's extra class when the endpoint is the active one.
pub open spec fn avatar_class_spec(is_active: bool) -> Seq<char> {
    if is_active {
        "bg-green"@
    } else {
        ""@
    }
}

/// The badge shown on the active endpoint.
pub open spec fn active_badge_spec(is_active: bool) -> Seq<char> {
    if is_active {
        "<span class=\"badge bg-green-lt ms-2\">Active</span>"@
    } else {
        ""@
    }
}

/// The badge shown when certificate validation is off.
pub open spec fn insecure_badge_spec(insecure: bool) -> Seq<char> {
    if insecure {
        "<span class=\"badge bg-yellow-lt ms-2\">\n                                        <i class=\"ti ti-shield-off\"></i> Insecure\n                                    </span>"@
    } else {
        ""@
    }
}

/// The badge naming the configured username, when there is one.
pub open spec fn username_badge_spec(u: Option<String>) -> Seq<char> {
    match u {
        Some(n) => "<span class=\"badge bg-blue-lt ms-2\">\n                                        <i class=\"ti ti-user\"></i> "@ + n@ + "\n                                    </span>"@,
        None => ""@,
    }
}

/// One endpoint's list item.
pub open spec fn render_item_spec(ep: Endpoint, is_active: bool) -> Seq<char> {
        "<div class=\"list-group-item\">\n                <div class=\"row align-items-center\">\n                    <div class=\"col-auto\">\n                        <span class=\"avatar "@
        + avatar_class_spec(is_active)
        + "\"><i class=\"ti ti-server\"></i></span>\n                    </div>\n                    <div class=\"col\" style=\"cursor: pointer;\" onclick=\"document.getElementById('select-form-"@
        + dec_i64(ep.id as int)
        + "').submit();\">\n                        <div class=\"text-truncate\">\n                            <strong>"@
        + ep.name@
        + "</strong>\n                            "@
        + active_badge_spec(is_active)
        + "\n                        </div>\n                        <div class=\"text-muted\">\n                            <code>"@
        + ep.url@
        + "</code>\n                            "@
        + insecure_badge_spec(ep.insecure)
        + "\n                            "@
        + username_badge_spec(ep.username)
        + "\n                        </div>\n                    </div>\n                    <div class=\"col-auto\">\n                        <form id=\"select-form-"@
        + dec_i64(ep.id as int)
        + "\" action=\"/endpoints/"@
        + dec_i64(ep.id as int)
        + "/select\" method=\"post\" style=\"display: none;\"></form>\n                        <div class=\"btn-list\">\n                            <button\n                                class=\"btn btn-sm btn-icon btn-success\"\n                                onclick=\"event.stopPropagation(); testConnection(event, "@
        + dec_i64(ep.id as int)
        + ", '"@
        + ep.name@
        + "')\"\n                                title=\"Test connection\">\n                                <i class=\"ti ti-plug-connected\"></i>\n                            </button>\n                            <button\n                                class=\"btn btn-sm btn-icon btn-ghost-primary\"\n                                onclick=\"event.stopPropagation(); openEditEndpoint(this);\"\n                                data-endpoint-id=\""@
        + dec_i64(ep.id as int)
        + "\"\n                                data-endpoint-name=\""@
        + escape_attr_spec(ep.name@)
        + "\"\n                                data-endpoint-url=\""@
        + escape_attr_spec(ep.url@)
        + "\"\n                                data-endpoint-insecure=\""@
        + bool_str(ep.insecure)
        + "\"\n                                data-endpoint-username=\""@
        + escape_attr_spec(username_attr(ep.username))
        + "\"\n                                title=\"Edit endpoint\">\n                                <i class=\"ti ti-pencil\"></i>\n                            </button>\n                            <button\n                                class=\"btn btn-sm btn-icon btn-ghost-secondary\"\n                                onclick=\"event.stopPropagation(); document.getElementById('select-form-"@
        + dec_i64(ep.id as int)
        + "').submit();\"\n                                title=\"Use this endpoint\">\n                                <i class=\"ti ti-check\"></i>\n                            </button>\n                            <button\n                                class=\"btn btn-sm btn-icon btn-ghost-danger\"\n                                onclick=\"event.stopPropagation(); confirmDelete("@
        + dec_i64(ep.id as int)
        + ", '"@
        + ep.name@
        + "');\"\n                                title=\"Delete\">\n                                <i class=\"ti ti-trash\"></i>\n                            </button>\n                        </div>\n                    </div>\n                </div>\n            </div>"@
}

/// Whether this endpoint is the active one.
pub open spec fn is_active_spec(active_id: Option<i64>, id: i64) -> bool {
    active_id == Some(id)
}

/// All the list items, in order.
pub open spec fn render_items_spec(eps: Seq<Endpoint>, active_id: Option<i64>) -> Seq<char>
    decreases eps.len(),
{
    if eps.len() == 0 {
        Seq::empty()
    } else {
        render_items_spec(eps.drop_last(), active_id) + render_item_spec(
            eps.last(),
            is_active_spec(active_id, eps.last().id),
        )
    }
}

/// The whole fragment: an empty-state card when there are no endpoints,
/// otherwise the list of items.
pub open spec fn render_endpoints_list_spec(eps: Seq<Endpoint>, active_id: Option<i64>) -> Seq<
    char,
> {
    if eps.len() == 0 {
        "<div class=\"empty\">\n            <div class=\"empty-icon\"><i class=\"ti ti-server-off\"></i></div>\n            <p class=\"empty-title\">Žádné endpointy</p>\n        </div>"@
    } else {
        "<div class=\"list-group list-group-flush\">"@ + render_items_spec(eps, active_id) + "</div>"@
    }
}

/// Render one endpoint's list item.
fn render_item(ep: &Endpoint, is_active: bool) -> (r: String)
    ensures
        r@ == render_item_spec(*ep, is_active),
{
    let id_digits = i64_to_dec(ep.id);
    let avatar: &str = if is_active {
        "bg-green"
    } else {
        ""
    };
    let active_badge: &str = if is_active {
        "<span class=\"badge bg-green-lt ms-2\">Active</span>"
    } else {
        ""
    };
    let insecure_badge: &str = if ep.insecure {
        "<span class=\"badge bg-yellow-lt ms-2\">\n                                        <i class=\"ti ti-shield-off\"></i> Insecure\n                                    </span>"
    } else {
        ""
    };
    let username_badge: String = match &ep.username {
        Some(n) => {
            let mut b: String = "<span class=\"badge bg-blue-lt ms-2\">\n                                        <i class=\"ti ti-user\"></i> ".to_owned();
            b.append(n.as_str());
            b.append("\n                                    </span>");
            b
        },
        None => "".to_owned(),
    };
    let insecure_text: &str = if ep.insecure {
        "true"
    } else {
        "false"
    };
    let escaped_name = escape_attr(ep.name.as_str());
    let escaped_url = escape_attr(ep.url.as_str());
    let escaped_username = match &ep.username {
        Some(n) => escape_attr(n.as_str()),
        None => escape_attr(""),
    };
    proof {
        assert(escaped_username@ == escape_attr_spec(username_attr(ep.username)));
    }
    let mut out: String = "<div class=\"list-group-item\">\n                <div class=\"row align-items-center\">\n                    <div class=\"col-auto\">\n                        <span class=\"avatar ".to_owned();
    out.append(avatar);
    out.append("\"><i class=\"ti ti-server\"></i></span>\n                    </div>\n                    <div class=\"col\" style=\"cursor: pointer;\" onclick=\"document.getElementById('select-form-");
    out.append(id_digits.as_str());
    out.append("').submit();\">\n                        <div class=\"text-truncate\">\n                            <strong>");
    out.append(ep.name.as_str());
    out.append("</strong>\n                            ");
    out.append(active_badge);
    out.append("\n                        </div>\n                        <div class=\"text-muted\">\n                            <code>");
    out.append(ep.url.as_str());
    out.append("</code>\n                            ");
    out.append(insecure_badge);
    out.append("\n                            ");
    out.append(username_badge.as_str());
    out.append("\n                        </div>\n                    </div>\n                    <div class=\"col-auto\">\n                        <form id=\"select-form-");
    out.append(id_digits.as_str());
    out.append("\" action=\"/endpoints/");
    out.append(id_digits.as_str());
    out.append("/select\" method=\"post\" style=\"display: none;\"></form>\n                        <div class=\"btn-list\">\n                            <button\n                                class=\"btn btn-sm btn-icon btn-success\"\n                                onclick=\"event.stopPropagation(); testConnection(event, ");
    out.append(id_digits.as_str());
    out.append(", '");
    out.append(ep.name.as_str());
    out.append("')\"\n                                title=\"Test connection\">\n                                <i class=\"ti ti-plug-connected\"></i>\n                            </button>\n                            <button\n                                class=\"btn btn-sm btn-icon btn-ghost-primary\"\n                                onclick=\"event.stopPropagation(); openEditEndpoint(this);\"\n                                data-endpoint-id=\"");
    out.append(id_digits.as_str());
    out.append("\"\n                                data-endpoint-name=\"");
    out.append(escaped_name.as_str());
    out.append("\"\n                                data-endpoint-url=\"");
    out.append(escaped_url.as_str());
    out.append("\"\n                                data-endpoint-insecure=\"");
    out.append(insecure_text);
    out.append("\"\n                                data-endpoint-username=\"");
    out.append(escaped_username.as_str());
    out.append("\"\n                                title=\"Edit endpoint\">\n                                <i class=\"ti ti-pencil\"></i>\n                            </button>\n                            <button\n                                class=\"btn btn-sm btn-icon btn-ghost-secondary\"\n                                onclick=\"event.stopPropagation(); document.getElementById('select-form-");
    out.append(id_digits.as_str());
    out.append("').submit();\"\n                                title=\"Use this endpoint\">\n                                <i class=\"ti ti-check\"></i>\n                            </button>\n                            <button\n                                class=\"btn btn-sm btn-icon btn-ghost-danger\"\n                                onclick=\"event.stopPropagation(); confirmDelete(");
    out.append(id_digits.as_str());
    out.append(", '");
    out.append(ep.name.as_str());
    out.append("');\"\n                                title=\"Delete\">\n                                <i class=\"ti ti-trash\"></i>\n                            </button>\n                        </div>\n                    </div>\n                </div>\n            </div>");
    proof {
        assert(out@ =~= render_item_spec(*ep, is_active));
    }
    out
}

/// Render the endpoint list fragment the management page swaps in.
#[verifier::loop_isolation(false)]
pub fn render_endpoints_list(endpoints: &Vec<Endpoint>, active_id: Option<i64>) -> (r: String)
    ensures
        r@ == render_endpoints_list_spec(endpoints@, active_id),
{
    if endpoints.len() == 0 {
        return "<div class=\"empty\">\n            <div class=\"empty-icon\"><i class=\"ti ti-server-off\"></i></div>\n            <p class=\"empty-title\">Žádné endpointy</p>\n        </div>".to_owned();
    }
    let mut out: String = "<div class=\"list-group list-group-flush\">".to_owned();
    let n = endpoints.len();
    let mut i: usize = 0;
    proof {
        assert(endpoints@.take(0) =~= Seq::<Endpoint>::empty());
        assert(out@ =~= "<div class=\"list-group list-group-flush\">"@ + render_items_spec(endpoints@.take(0), active_id));
    }
    while i < n
        invariant
            0 <= i <= n,
            out@ == "<div class=\"list-group list-group-flush\">"@ + render_items_spec(endpoints@.take(i as int), active_id),
        decreases n - i,
    {
        let ep = &endpoints[i];
        let is_active = match active_id {
            Some(a) => a == ep.id,
            None => false,
        };
        let item = render_item(ep, is_active);
        proof {
            assert(endpoints@.take(i as int + 1).drop_last() =~= endpoints@.take(i as int));
            assert(endpoints@.take(i as int + 1).last() == endpoints@[i as int]);
        }
        out.append(item.as_str());
        proof {
            assert(out@ =~= "<div class=\"list-group list-group-flush\">"@ + render_items_spec(endpoints@.take(i as int + 1), active_id));
        }
        i = i + 1;
    }
    proof {
        assert(endpoints@.take(n as int) =~= endpoints@);
    }
    out.append("</div>");
    out
}

} // verus!
