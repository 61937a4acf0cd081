//! Response normalization: mapping the outcome of the one HTTP call — a
//! transport failure, an unparsable body, or a parsed JSON body with its
//! status — into a sync result or a descriptive error message.

use vstd::prelude::*;
use vstd::string::*;

use crate::json::{get_str_field, json_str_field, JsonValue};
use crate::request::SyncMode;
use crate::text::{remove_hyphens, strip_hyphens};

verus! {

/// What came back over the wire, once the transport is done: a body that
/// parsed as JSON, or one that did not.
pub enum ResponseBody {
    Parsed(JsonValue),
    Unparsable,
}

/// The outcome of the one HTTP call, as the transport reports it.
pub enum HttpOutcome {
    /// The request could not be sent or no response arrived; the payload
    /// describes the underlying transport error.
    TransportFailure(String),
    /// Notion answered with `status` and `body`.
    Responded { status: u16, body: ResponseBody },
}

/// The normalized result of a successful sync.
#[derive(Debug, PartialEq, Eq, Clone)]
pub struct NotionSyncResult {
    pub id: String,
    pub url: Option<String>,
}

/// 2xx, as `StatusCode::is_success` reads it.
pub open spec fn is_success_status(status: u16) -> bool {
    200 <= status < 300
}

/// The human-readable detail of a remote failure: the body's `message`
/// member when the body parsed and has one, a generic label otherwise, and
/// a fixed placeholder when the body could not be parsed.
pub open spec fn remote_error_detail(body: ResponseBody) -> Seq<char> {
    match body {
        ResponseBody::Parsed(b) => match json_str_field(b, "message"@) {
            Some(m) => m,
            None => "未知错误"@,
        },
        ResponseBody::Unparsable => "无法解析 Notion 响应"@,
    }
}

/// The id a SubPage success reports: the body's `id` member, empty when it
/// is absent or the body did not parse.
pub open spec fn subpage_id_of(body: ResponseBody) -> Seq<char> {
    match body {
        ResponseBody::Parsed(b) => match json_str_field(b, "id"@) {
            Some(s) => s,
            None => Seq::empty(),
        },
        ResponseBody::Unparsable => Seq::empty(),
    }
}

/// The url a SubPage success reports: the body's `url` member, when it is a
/// string.
pub open spec fn subpage_url_of(body: ResponseBody) -> Option<Seq<char>> {
    match body {
        ResponseBody::Parsed(b) => json_str_field(b, "url"@),
        ResponseBody::Unparsable => None,
    }
}

/// What an optional string reads as.
pub open spec fn opt_str_view(o: Option<String>) -> Option<Seq<char>> {
    match o {
        Some(s) => Some(s@),
        None => None,
    }
}

/// The message of a transport failure: the underlying error, the endpoint
/// attempted, and a hint to check network and proxy settings.
pub open spec fn transport_error_message(detail: Seq<char>, endpoint: Seq<char>) -> Seq<char> {
    "Notion 请求失败: "@ + detail + "。端点: "@ + endpoint
        + "。请检查网络或代理设置（Notion 在部分网络环境可能不可直连）"@
}

/// Normalizes `outcome` for a request sent in `mode` to `endpoint`:
/// - a transport failure becomes an error naming the cause and the endpoint;
/// - a non-2xx status becomes an error carrying the remote `message`;
/// - a 2xx status in SubPage mode parses `id` and `url` out of the body;
/// - a 2xx status in Append mode synthesizes the result: the id is
///   `parent_page_id` as supplied, the url points at it with hyphens removed.
pub fn interpret_response(
    mode: SyncMode,
    parent_page_id: &str,
    endpoint: &str,
    outcome: HttpOutcome,
) -> (r: Result<NotionSyncResult, String>)
    ensures
        outcome matches HttpOutcome::TransportFailure(detail) ==> (r matches Err(m) && m@
            == transport_error_message(detail@, endpoint@)),
        outcome matches HttpOutcome::Responded { status, body } ==> {
            &&& !is_success_status(status) ==> (r matches Err(m) && m@ == "Notion 同步失败: "@
                + remote_error_detail(body))
            &&& is_success_status(status) && mode == SyncMode::SubPage ==> (r matches Ok(res)
                && res.id@ == subpage_id_of(body) && opt_str_view(res.url) == subpage_url_of(body))
            &&& is_success_status(status) && mode == SyncMode::Append ==> (r matches Ok(res)
                && res.id@ == parent_page_id@ && opt_str_view(res.url) == Some(
                "https://www.notion.so/"@ + strip_hyphens(parent_page_id@),
            ))
        },
{
    match outcome {
        HttpOutcome::TransportFailure(detail) => {
            let mut m = String::from_str("Notion 请求失败: ");
            m.append(detail.as_str());
            m.append("。端点: ");
            m.append(endpoint);
            m.append("。请检查网络或代理设置（Notion 在部分网络环境可能不可直连）");
            Err(m)
        },
        HttpOutcome::Responded { status, body } => {
            if !(200 <= status && status < 300) {
                let mut m = String::from_str("Notion 同步失败: ");
                match &body {
                    ResponseBody::Parsed(b) => {
                        match get_str_field(b, "message") {
                            Some(message) => {
                                m.append(message.as_str());
                            },
                            None => {
                                m.append("未知错误");
                            },
                        }
                    },
                    ResponseBody::Unparsable => {
                        m.append("无法解析 Notion 响应");
                    },
                }
                Err(m)
            } else {
                match mode {
                    SyncMode::SubPage => {
                        match &body {
                            ResponseBody::Parsed(b) => {
                                let id = match get_str_field(b, "id") {
                                    Some(s) => s,
                                    None => String::new(),
                                };
                                let url = get_str_field(b, "url");
                                Ok(NotionSyncResult { id, url })
                            },
                            ResponseBody::Unparsable => {
                                Ok(NotionSyncResult { id: String::new(), url: None })
                            },
                        }
                    },
                    SyncMode::Append => {
                        let mut url = String::from_str("https://www.notion.so/");
                        let normalized = remove_hyphens(parent_page_id);
                        url.append(normalized.as_str());
                        let id = String::from_str(parent_page_id);
                        Ok(NotionSyncResult { id, url: Some(url) })
                    },
                }
            }
        },
    }
}

/// The message reported when the HTTP client itself cannot be constructed,
/// carrying the builder's error text.
pub fn client_init_error_message(detail: &str) -> (m: String)
    ensures
        m@ == "初始化 Notion HTTP 客户端失败: "@ + detail@,
{
    let mut m = String::from_str("初始化 Notion HTTP 客户端失败: ");
    m.append(detail);
    m
}

} // verus!
