//! Request construction: resolving the sync mode and building the payload,
//! endpoint, verb and headers of the one HTTP request a sync operation sends.

use vstd::prelude::*;
use vstd::string::*;

use crate::json::{json_field, json_lookup, json_str_field, JsonValue};
use crate::net::{parse_proxy, reqwest_error_text};
use crate::text::{lower_of, lower_str, trim_str, trimmed_of};

verus! {

/// The two ways content is synchronized: as a new sub-page under the parent
/// page, or appended as child blocks of the parent page.
#[derive(Clone, Copy, Debug, PartialEq, Eq, Structural)]
pub enum SyncMode {
    SubPage,
    Append,
}

/// The verb of the outbound request. Notion's block-append endpoint only
/// accepts PATCH, so the verb is part of the contract, not a detail.
#[derive(Clone, Copy, Debug, PartialEq, Eq, Structural)]
pub enum HttpVerb {
    Post,
    Patch,
}

/// The mode a raw `syncMode` string resolves to: SubPage exactly when it
/// reads "subpage" after trimming and lowercasing, Append otherwise.
pub open spec fn resolved_mode(sync_mode: Seq<char>) -> SyncMode {
    if lower_of(trimmed_of(sync_mode)) == "subpage"@ {
        SyncMode::SubPage
    } else {
        SyncMode::Append
    }
}

/// Trims and lowercases `sync_mode` and resolves it: SubPage on exactly
/// "subpage", Append on anything else (a deliberate safe default).
pub fn resolve_mode(sync_mode: &str) -> (mode: SyncMode)
    ensures
        mode == resolved_mode(sync_mode@),
{
    let trimmed = trim_str(sync_mode);
    let lowered = lower_str(trimmed);
    if lowered == String::from_str("subpage") {
        SyncMode::SubPage
    } else {
        SyncMode::Append
    }
}

/// The verb each mode requires.
pub open spec fn verb_of(mode: SyncMode) -> HttpVerb {
    match mode {
        SyncMode::SubPage => HttpVerb::Post,
        SyncMode::Append => HttpVerb::Patch,
    }
}

/// Picks the verb for `mode`: POST creates a page, PATCH appends blocks.
pub fn verb_for(mode: SyncMode) -> (v: HttpVerb)
    ensures
        v == verb_of(mode),
{
    match mode {
        SyncMode::SubPage => HttpVerb::Post,
        SyncMode::Append => HttpVerb::Patch,
    }
}

/// The endpoint each mode addresses; in Append mode it embeds the parent
/// page identifier as supplied.
pub open spec fn endpoint_of(mode: SyncMode, parent_id: Seq<char>) -> Seq<char> {
    match mode {
        SyncMode::SubPage => "https://api.notion.com/v1/pages"@,
        SyncMode::Append => "https://api.notion.com/v1/blocks/"@ + parent_id + "/children"@,
    }
}

/// Builds the endpoint for `mode` and `parent_page_id`.
pub fn build_endpoint(mode: SyncMode, parent_page_id: &str) -> (e: String)
    ensures
        e@ == endpoint_of(mode, parent_page_id@),
{
    match mode {
        SyncMode::SubPage => String::from_str("https://api.notion.com/v1/pages"),
        SyncMode::Append => {
            let mut e = String::from_str("https://api.notion.com/v1/blocks/");
            e.append(parent_page_id);
            e.append("/children");
            e
        },
    }
}

/// The three fixed headers of every sync request, with the bearer `token`
/// and the pinned API version.
pub open spec fn headers_wf(hs: Seq<(String, String)>, token: Seq<char>) -> bool {
    &&& hs.len() == 3
    &&& hs[0].0@ == "Authorization"@ && hs[0].1@ == "Bearer "@ + token
    &&& hs[1].0@ == "Content-Type"@ && hs[1].1@ == "application/json"@
    &&& hs[2].0@ == "Notion-Version"@ && hs[2].1@ == "2022-06-28"@
}

/// Builds the fixed header list for `token`.
pub fn build_headers(token: &str) -> (hs: Vec<(String, String)>)
    ensures
        headers_wf(hs@, token@),
{
    let mut auth = String::from_str("Bearer ");
    auth.append(token);
    let mut hs: Vec<(String, String)> = Vec::new();
    hs.push((String::from_str("Authorization"), auth));
    hs.push((String::from_str("Content-Type"), String::from_str("application/json")));
    hs.push((String::from_str("Notion-Version"), String::from_str("2022-06-28")));
    hs
}

/// The exact shape of a SubPage payload: `parent.type = "page_id"`,
/// `parent.page_id` = the parent page identifier, a single-element title
/// property naming `title`, and the caller's children verbatim.
pub open spec fn is_subpage_payload(
    p: JsonValue,
    parent_id: Seq<char>,
    title: Seq<char>,
    children: Seq<JsonValue>,
) -> bool {
    &&& p matches JsonValue::Obj(top)
    &&& top@.len() == 3
    &&& top@[0].0@ == "parent"@
    &&& top@[0].1 matches JsonValue::Obj(parent) && {
        &&& parent@.len() == 2
        &&& parent@[0].0@ == "type"@
        &&& parent@[0].1 matches JsonValue::Text(t) && t@ == "page_id"@
        &&& parent@[1].0@ == "page_id"@
        &&& parent@[1].1 matches JsonValue::Text(pid) && pid@ == parent_id
    }
    &&& top@[1].0@ == "properties"@
    &&& top@[1].1 matches JsonValue::Obj(props) && {
        &&& props@.len() == 1
        &&& props@[0].0@ == "title"@
        &&& props@[0].1 matches JsonValue::Obj(title_prop) && {
            &&& title_prop@.len() == 1
            &&& title_prop@[0].0@ == "title"@
            &&& title_prop@[0].1 matches JsonValue::Arr(title_items) && {
                &&& title_items@.len() == 1
                &&& title_items@[0] matches JsonValue::Obj(title_item) && {
                    &&& title_item@.len() == 2
                    &&& title_item@[0].0@ == "type"@
                    &&& title_item@[0].1 matches JsonValue::Text(tt) && tt@ == "text"@
                    &&& title_item@[1].0@ == "text"@
                    &&& title_item@[1].1 matches JsonValue::Obj(text_obj) && {
                        &&& text_obj@.len() == 1
                        &&& text_obj@[0].0@ == "content"@
                        &&& text_obj@[0].1 matches JsonValue::Text(c) && c@ == title
                    }
                }
            }
        }
    }
    &&& top@[2].0@ == "children"@
    &&& top@[2].1 matches JsonValue::Arr(cs) && cs@ == children
}

/// The exact shape of an Append payload: only the caller's children,
/// verbatim; no parent and no properties member.
pub open spec fn is_append_payload(p: JsonValue, children: Seq<JsonValue>) -> bool {
    &&& p matches JsonValue::Obj(top)
    &&& top@.len() == 1
    &&& top@[0].0@ == "children"@
    &&& top@[0].1 matches JsonValue::Arr(cs) && cs@ == children
}

/// Builds the payload for `mode` from the caller's fields, with `children`
/// passed through verbatim.
pub fn build_payload(
    mode: SyncMode,
    parent_page_id: &str,
    title: &str,
    children: Vec<JsonValue>,
) -> (p: JsonValue)
    ensures
        mode == SyncMode::SubPage ==> is_subpage_payload(p, parent_page_id@, title@, children@),
        mode == SyncMode::Append ==> is_append_payload(p, children@),
{
    match mode {
        SyncMode::SubPage => {
            let mut parent_obj: Vec<(String, JsonValue)> = Vec::new();
            parent_obj.push(
                (String::from_str("type"), JsonValue::Text(String::from_str("page_id"))),
            );
            parent_obj.push(
                (String::from_str("page_id"), JsonValue::Text(String::from_str(parent_page_id))),
            );

            let mut text_obj: Vec<(String, JsonValue)> = Vec::new();
            text_obj.push((String::from_str("content"), JsonValue::Text(String::from_str(title))));

            let mut title_item: Vec<(String, JsonValue)> = Vec::new();
            title_item.push((String::from_str("type"), JsonValue::Text(String::from_str("text"))));
            title_item.push((String::from_str("text"), JsonValue::Obj(text_obj)));

            let mut title_items: Vec<JsonValue> = Vec::new();
            title_items.push(JsonValue::Obj(title_item));

            let mut title_prop: Vec<(String, JsonValue)> = Vec::new();
            title_prop.push((String::from_str("title"), JsonValue::Arr(title_items)));

            let mut props: Vec<(String, JsonValue)> = Vec::new();
            props.push((String::from_str("title"), JsonValue::Obj(title_prop)));

            let mut top: Vec<(String, JsonValue)> = Vec::new();
            top.push((String::from_str("parent"), JsonValue::Obj(parent_obj)));
            top.push((String::from_str("properties"), JsonValue::Obj(props)));
            top.push((String::from_str("children"), JsonValue::Arr(children)));
            JsonValue::Obj(top)
        },
        SyncMode::Append => {
            let mut top: Vec<(String, JsonValue)> = Vec::new();
            top.push((String::from_str("children"), JsonValue::Arr(children)));
            JsonValue::Obj(top)
        },
    }
}

/// Law: a SubPage payload never omits the parent — its `parent` member is an
/// object whose `page_id` member is the parent page identifier.
pub proof fn lemma_subpage_payload_names_parent(
    p: JsonValue,
    parent_id: Seq<char>,
    title: Seq<char>,
    children: Seq<JsonValue>,
)
    requires
        is_subpage_payload(p, parent_id, title, children),
    ensures
        json_field(p, "parent"@) matches Some(par) && json_str_field(par, "page_id"@) == Some(
            parent_id,
        ),
{
    reveal_strlit("type");
    reveal_strlit("page_id");
    let top = p->Obj_0;
    let parent_fields = top@[0].1->Obj_0;
    assert(parent_fields@[0].0@ == "type"@);
    assert(json_lookup(parent_fields@.drop_first(), "page_id"@) == Some(parent_fields@[1].1));
}

/// Law: an Append payload carries the children and nothing else — it has no
/// `parent` and no `properties` member.
pub proof fn lemma_append_payload_omits_parent(p: JsonValue, children: Seq<JsonValue>)
    requires
        is_append_payload(p, children),
    ensures
        json_field(p, "parent"@) is None,
        json_field(p, "properties"@) is None,
        json_field(p, "children"@) matches Some(c) && c matches JsonValue::Arr(items) && items@
            == children,
{
    reveal_strlit("children");
    reveal_strlit("parent");
    reveal_strlit("properties");
    let top = p->Obj_0;
    assert(top@[0].0@ == "children"@);
    assert(json_lookup(top@.drop_first(), "parent"@) is None);
    assert(json_lookup(top@.drop_first(), "properties"@) is None);
}

/// Law: an Append-mode request always goes out as PATCH, and its endpoint
/// always embeds the parent page identifier as supplied.
pub proof fn lemma_append_request_verb_and_endpoint(parent_id: Seq<char>)
    ensures
        verb_of(SyncMode::Append) == HttpVerb::Patch,
        endpoint_of(SyncMode::Append, parent_id) == "https://api.notion.com/v1/blocks/"@
            + parent_id + "/children"@,
{
}

/// A caller's sync request, as handed in by the front-end.
pub struct SyncRequest {
    /// The bearer credential, passed through opaquely.
    pub token: String,
    /// The Notion page identifier, hyphenated or not.
    pub parent_page_id: String,
    /// The title of the page created in SubPage mode.
    pub title: String,
    /// The raw mode string; anything but "subpage" resolves to Append.
    pub sync_mode: String,
    /// The content blocks; must be a JSON array.
    pub children: JsonValue,
    /// An optional proxy address; blank means a direct connection.
    pub proxy_url: Option<String>,
}

/// Everything the transport needs to send the one sync request.
#[derive(Debug)]
pub struct PreparedRequest {
    pub mode: SyncMode,
    pub verb: HttpVerb,
    pub endpoint: String,
    pub headers: Vec<(String, String)>,
    pub payload: JsonValue,
    pub proxy: Option<reqwest::Proxy>,
}

/// The proxy address a request asks for: the trimmed `proxy_url`, unless it
/// is absent or blank, in which case the connection is direct.
pub open spec fn proxy_token_of(proxy_url: Option<String>) -> Option<Seq<char>> {
    match proxy_url {
        Some(raw) => if trimmed_of(raw@).len() == 0 {
            None
        } else {
            Some(trimmed_of(raw@))
        },
        None => None,
    }
}

/// A prepared request carries exactly what `req` asks for: the verb,
/// endpoint, headers and payload of `req`'s resolved mode, and a proxy
/// exactly when `req` names a non-blank one.
pub open spec fn plan_matches_request(plan: PreparedRequest, req: SyncRequest) -> bool {
    let mode = resolved_mode(req.sync_mode@);
    &&& plan.mode == mode
    &&& plan.verb == verb_of(mode)
    &&& plan.endpoint@ == endpoint_of(mode, req.parent_page_id@)
    &&& headers_wf(plan.headers@, req.token@)
    &&& req.children matches JsonValue::Arr(items) && {
        &&& mode == SyncMode::SubPage ==> is_subpage_payload(
            plan.payload,
            req.parent_page_id@,
            req.title@,
            items@,
        )
        &&& mode == SyncMode::Append ==> is_append_payload(plan.payload, items@)
    }
    &&& plan.proxy is Some <==> proxy_token_of(req.proxy_url) is Some
}

/// Turns `req` into the one request to send, or the error that stops it:
/// a validation error when `children` is not a JSON array (before anything
/// else is looked at), a configuration error when the named proxy address
/// cannot be parsed.
pub fn prepare_sync(req: SyncRequest) -> (r: Result<PreparedRequest, String>)
    ensures
        !(req.children is Arr) ==> (r matches Err(m) && m@
            == "Notion 同步失败: children 参数格式无效"@),
        req.children is Arr && proxy_token_of(req.proxy_url) is None ==> (r matches Ok(plan)
            && plan_matches_request(plan, req)),
        req.children is Arr && proxy_token_of(req.proxy_url) is Some ==> match r {
            Ok(plan) => plan_matches_request(plan, req),
            Err(m) => exists|detail: Seq<char>| m@ == "Notion 代理地址无效: "@ + detail,
        },
{
    let SyncRequest { token, parent_page_id, title, sync_mode, children, proxy_url } = req;
    let children_items: Vec<JsonValue> = match children {
        JsonValue::Arr(items) => items,
        _ => {
            return Err(String::from_str("Notion 同步失败: children 参数格式无效"));
        },
    };

    let proxy: Option<reqwest::Proxy> = match &proxy_url {
        None => None,
        Some(raw) => {
            let trimmed = trim_str(raw.as_str());
            if trimmed.is_empty() {
                None
            } else {
                match parse_proxy(trimmed) {
                    Ok(p) => Some(p),
                    Err(error) => {
                        let detail = reqwest_error_text(&error);
                        let mut m = String::from_str("Notion 代理地址无效: ");
                        m.append(detail.as_str());
                        proof {
                            assert(m@ == "Notion 代理地址无效: "@ + detail@);
                        }
                        return Err(m);
                    },
                }
            }
        },
    };

    let mode = resolve_mode(sync_mode.as_str());
    let verb = verb_for(mode);
    let endpoint = build_endpoint(mode, parent_page_id.as_str());
    let headers = build_headers(token.as_str());
    let payload = build_payload(mode, parent_page_id.as_str(), title.as_str(), children_items);
    Ok(PreparedRequest { mode, verb, endpoint, headers, payload, proxy })
}

} // verus!
