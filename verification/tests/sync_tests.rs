use notion_sync::greet;
use notion_sync::json::{get_str_field, JsonValue};
use notion_sync::request::{
    build_endpoint, build_headers, build_payload, prepare_sync, resolve_mode, verb_for, HttpVerb,
    SyncMode, SyncRequest,
};
use notion_sync::response::{
    client_init_error_message, interpret_response, HttpOutcome, NotionSyncResult, ResponseBody,
};
use notion_sync::text::remove_hyphens;

fn sample_children() -> Vec<JsonValue> {
    let mut block: Vec<(String, JsonValue)> = Vec::new();
    block.push((
        "type".to_string(),
        JsonValue::Text("paragraph".to_string()),
    ));
    vec![JsonValue::Obj(block)]
}

fn sample_request(sync_mode: &str, proxy_url: Option<&str>) -> SyncRequest {
    SyncRequest {
        token: "secret-token".to_string(),
        parent_page_id: "abc123".to_string(),
        title: "My Page".to_string(),
        sync_mode: sync_mode.to_string(),
        children: JsonValue::Arr(sample_children()),
        proxy_url: proxy_url.map(|p| p.to_string()),
    }
}

#[test]
fn greet_formats_the_name() {
    assert_eq!(greet("Ferris"), "Hello, Ferris! You've been greeted from Rust!");
}

#[test]
fn resolve_mode_trims_and_lowercases() {
    assert_eq!(resolve_mode(" SubPage "), SyncMode::SubPage);
    assert_eq!(resolve_mode("subpage"), SyncMode::SubPage);
    assert_eq!(resolve_mode("  SUBPAGE"), SyncMode::SubPage);
}

#[test]
fn resolve_mode_defaults_to_append() {
    assert_eq!(resolve_mode("append"), SyncMode::Append);
    assert_eq!(resolve_mode(""), SyncMode::Append);
    assert_eq!(resolve_mode("subpag"), SyncMode::Append);
    assert_eq!(resolve_mode("sub page"), SyncMode::Append);
}

#[test]
fn append_mode_uses_patch_and_embeds_parent_id() {
    assert_eq!(verb_for(SyncMode::Append), HttpVerb::Patch);
    assert_eq!(
        build_endpoint(SyncMode::Append, "abc123"),
        "https://api.notion.com/v1/blocks/abc123/children"
    );
}

#[test]
fn subpage_mode_uses_post_on_the_pages_endpoint() {
    assert_eq!(verb_for(SyncMode::SubPage), HttpVerb::Post);
    assert_eq!(
        build_endpoint(SyncMode::SubPage, "abc123"),
        "https://api.notion.com/v1/pages"
    );
}

#[test]
fn headers_carry_bearer_token_and_pinned_version() {
    let hs = build_headers("tkn");
    assert_eq!(hs.len(), 3);
    assert_eq!(hs[0], ("Authorization".to_string(), "Bearer tkn".to_string()));
    assert_eq!(
        hs[1],
        ("Content-Type".to_string(), "application/json".to_string())
    );
    assert_eq!(
        hs[2],
        ("Notion-Version".to_string(), "2022-06-28".to_string())
    );
}

#[test]
fn subpage_payload_has_exact_shape() {
    let payload = build_payload(SyncMode::SubPage, "pid-1", "Title", sample_children());

    let parent = JsonValue::Obj(vec![
        ("type".to_string(), JsonValue::Text("page_id".to_string())),
        ("page_id".to_string(), JsonValue::Text("pid-1".to_string())),
    ]);
    let title_item = JsonValue::Obj(vec![
        ("type".to_string(), JsonValue::Text("text".to_string())),
        (
            "text".to_string(),
            JsonValue::Obj(vec![(
                "content".to_string(),
                JsonValue::Text("Title".to_string()),
            )]),
        ),
    ]);
    let properties = JsonValue::Obj(vec![(
        "title".to_string(),
        JsonValue::Obj(vec![("title".to_string(), JsonValue::Arr(vec![title_item]))]),
    )]);
    let expected = JsonValue::Obj(vec![
        ("parent".to_string(), parent),
        ("properties".to_string(), properties),
        ("children".to_string(), JsonValue::Arr(sample_children())),
    ]);
    assert_eq!(payload, expected);
}

#[test]
fn append_payload_carries_only_children() {
    let payload = build_payload(SyncMode::Append, "pid-1", "Title", sample_children());
    let expected = JsonValue::Obj(vec![(
        "children".to_string(),
        JsonValue::Arr(sample_children()),
    )]);
    assert_eq!(payload, expected);
}

#[test]
fn non_array_children_fail_validation_before_anything_else() {
    let mut req = sample_request("subpage", None);
    req.children = JsonValue::Obj(vec![(
        "not".to_string(),
        JsonValue::Text("an array".to_string()),
    )]);
    let r = prepare_sync(req);
    assert_eq!(r.unwrap_err(), "Notion 同步失败: children 参数格式无效");
}

#[test]
fn blank_proxy_means_direct_connection() {
    let plan = prepare_sync(sample_request("append", Some("   "))).unwrap();
    assert!(plan.proxy.is_none());

    let plan = prepare_sync(sample_request("append", None)).unwrap();
    assert!(plan.proxy.is_none());
}

#[test]
fn valid_proxy_is_kept() {
    let plan = prepare_sync(sample_request("append", Some(" http://127.0.0.1:8080 "))).unwrap();
    assert!(plan.proxy.is_some());
}

#[test]
fn unparseable_proxy_is_a_configuration_error() {
    let r = prepare_sync(sample_request("append", Some("http://")));
    let message = r.err().expect("an unparseable proxy address must be rejected");
    assert!(message.starts_with("Notion 代理地址无效: "), "{message}");
}

#[test]
fn prepared_subpage_request_is_complete() {
    let plan = prepare_sync(sample_request(" SubPage ", None)).unwrap();
    assert_eq!(plan.verb, HttpVerb::Post);
    assert_eq!(plan.endpoint, "https://api.notion.com/v1/pages");
    assert_eq!(plan.headers.len(), 3);
    match &plan.payload {
        JsonValue::Obj(top) => {
            assert_eq!(top.len(), 3);
            assert_eq!(top[0].0, "parent");
            assert_eq!(top[1].0, "properties");
            assert_eq!(top[2].0, "children");
        }
        other => panic!("expected an object payload, got {other:?}"),
    }
}

#[test]
fn prepared_append_request_is_complete() {
    let plan = prepare_sync(sample_request("whatever", None)).unwrap();
    assert_eq!(plan.verb, HttpVerb::Patch);
    assert_eq!(plan.endpoint, "https://api.notion.com/v1/blocks/abc123/children");
    match &plan.payload {
        JsonValue::Obj(top) => {
            assert_eq!(top.len(), 1);
            assert_eq!(top[0].0, "children");
        }
        other => panic!("expected an object payload, got {other:?}"),
    }
}

#[test]
fn transport_failure_names_cause_and_endpoint() {
    let r = interpret_response(
        SyncMode::SubPage,
        "abc123",
        "https://api.notion.com/v1/pages",
        HttpOutcome::TransportFailure("connection refused".to_string()),
    );
    let message = r.unwrap_err();
    assert_eq!(
        message,
        "Notion 请求失败: connection refused。端点: https://api.notion.com/v1/pages。\
         请检查网络或代理设置（Notion 在部分网络环境可能不可直连）"
    );
}

#[test]
fn remote_error_message_is_propagated() {
    let body = ResponseBody::Parsed(JsonValue::Obj(vec![(
        "message".to_string(),
        JsonValue::Text("validation_error".to_string()),
    )]));
    let r = interpret_response(
        SyncMode::SubPage,
        "abc123",
        "https://api.notion.com/v1/pages",
        HttpOutcome::Responded { status: 400, body },
    );
    let message = r.unwrap_err();
    assert!(message.contains("validation_error"), "{message}");
    assert_eq!(message, "Notion 同步失败: validation_error");
}

#[test]
fn remote_error_without_message_uses_generic_label() {
    let body = ResponseBody::Parsed(JsonValue::Obj(vec![(
        "code".to_string(),
        JsonValue::Text("oops".to_string()),
    )]));
    let r = interpret_response(
        SyncMode::Append,
        "abc123",
        "https://api.notion.com/v1/blocks/abc123/children",
        HttpOutcome::Responded { status: 500, body },
    );
    assert_eq!(r.unwrap_err(), "Notion 同步失败: 未知错误");
}

#[test]
fn unparsable_error_body_uses_placeholder() {
    let r = interpret_response(
        SyncMode::SubPage,
        "abc123",
        "https://api.notion.com/v1/pages",
        HttpOutcome::Responded { status: 502, body: ResponseBody::Unparsable },
    );
    assert_eq!(r.unwrap_err(), "Notion 同步失败: 无法解析 Notion 响应");
}

#[test]
fn subpage_success_parses_id_and_url() {
    let body = ResponseBody::Parsed(JsonValue::Obj(vec![
        ("id".to_string(), JsonValue::Text("page-xyz".to_string())),
        (
            "url".to_string(),
            JsonValue::Text("https://notion.so/page-xyz".to_string()),
        ),
    ]));
    let r = interpret_response(
        SyncMode::SubPage,
        "abc123",
        "https://api.notion.com/v1/pages",
        HttpOutcome::Responded { status: 200, body },
    );
    assert_eq!(
        r.unwrap(),
        NotionSyncResult {
            id: "page-xyz".to_string(),
            url: Some("https://notion.so/page-xyz".to_string()),
        }
    );
}

#[test]
fn subpage_success_defaults_missing_fields() {
    let body = ResponseBody::Parsed(JsonValue::Obj(vec![(
        "object".to_string(),
        JsonValue::Text("page".to_string()),
    )]));
    let r = interpret_response(
        SyncMode::SubPage,
        "abc123",
        "https://api.notion.com/v1/pages",
        HttpOutcome::Responded { status: 200, body },
    );
    assert_eq!(
        r.unwrap(),
        NotionSyncResult { id: "".to_string(), url: None }
    );
}

#[test]
fn append_success_synthesizes_id_and_url() {
    let body = ResponseBody::Parsed(JsonValue::Obj(vec![(
        "results".to_string(),
        JsonValue::Arr(Vec::new()),
    )]));
    let r = interpret_response(
        SyncMode::Append,
        "1234-5678-90ab",
        "https://api.notion.com/v1/blocks/1234-5678-90ab/children",
        HttpOutcome::Responded { status: 200, body },
    );
    assert_eq!(
        r.unwrap(),
        NotionSyncResult {
            id: "1234-5678-90ab".to_string(),
            url: Some("https://www.notion.so/1234567890ab".to_string()),
        }
    );
}

#[test]
fn remove_hyphens_strips_only_hyphens() {
    assert_eq!(remove_hyphens("1234-5678-90ab"), "1234567890ab");
    assert_eq!(remove_hyphens("----"), "");
    assert_eq!(remove_hyphens(""), "");
    assert_eq!(remove_hyphens("abc"), "abc");
}

#[test]
fn get_str_field_reads_only_string_members_of_objects() {
    let obj = JsonValue::Obj(vec![
        ("message".to_string(), JsonValue::Text("hi".to_string())),
        ("count".to_string(), JsonValue::Num("3".to_string())),
    ]);
    assert_eq!(get_str_field(&obj, "message"), Some("hi".to_string()));
    assert_eq!(get_str_field(&obj, "count"), None);
    assert_eq!(get_str_field(&obj, "absent"), None);
    assert_eq!(get_str_field(&JsonValue::Arr(Vec::new()), "message"), None);
}

#[test]
fn client_init_error_carries_the_detail() {
    assert_eq!(
        client_init_error_message("boom"),
        "初始化 Notion HTTP 客户端失败: boom"
    );
}
