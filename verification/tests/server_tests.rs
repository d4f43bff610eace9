use leap_mcp::json::Json;
use leap_mcp::server::{parse_error_response, McpServer};
use leap_mcp::types::JsonRpcRequest;

fn obj(fields: Vec<(&str, Json)>) -> Json {
    Json::Obj(fields.into_iter().map(|(k, v)| (k.to_string(), v)).collect())
}

fn s(text: &str) -> Json {
    Json::Str(text.to_string())
}

fn num(token: &str) -> Json {
    Json::Num(token.to_string())
}

fn request(id: Option<Json>, method: &str, params: Option<Json>) -> JsonRpcRequest {
    JsonRpcRequest { jsonrpc: "2.0".to_string(), id, method: method.to_string(), params }
}

fn field<'a>(j: &'a Json, key: &str) -> &'a Json {
    match j {
        Json::Obj(fields) => {
            for (k, v) in fields {
                if k == key {
                    return v;
                }
            }
            panic!("no field {key}");
        }
        _ => panic!("not an object"),
    }
}

fn has_field(j: &Json, key: &str) -> bool {
    match j {
        Json::Obj(fields) => fields.iter().any(|(k, _)| k == key),
        _ => false,
    }
}

fn item<'a>(j: &'a Json, i: usize) -> &'a Json {
    match j {
        Json::Arr(items) => &items[i],
        _ => panic!("not an array"),
    }
}

fn call_tool(server: &McpServer, id: Json, name: &str, args: Vec<(&str, Json)>) -> Vec<Json> {
    let params = obj(vec![("name", s(name)), ("arguments", obj(args))]);
    server.process_request(request(Some(id), "tools/call", Some(params)))
}

#[test]
fn echo_hi_result_text() {
    let server = McpServer::new();
    let lines = call_tool(&server, num("1"), "echo", vec![("message", s("hi"))]);
    assert_eq!(lines.len(), 1);
    let result = field(&lines[0], "result");
    assert_eq!(field(item(field(result, "content"), 0), "text"), &s("Echo: hi"));
    assert_eq!(field(result, "isError"), &Json::Bool(false));
}

#[test]
fn echo_missing_message() {
    let server = McpServer::new();
    let lines = call_tool(&server, num("1"), "echo", vec![]);
    let err = field(&lines[0], "error");
    assert_eq!(field(err, "code"), &num("-32603"));
    assert_eq!(
        field(err, "message"),
        &s("Internal error: Missing 'message' argument")
    );
}

#[test]
fn add_integers_renders_without_fraction() {
    let server = McpServer::new();
    let lines = call_tool(&server, num("1"), "add", vec![("a", num("2")), ("b", num("3"))]);
    let result = field(&lines[0], "result");
    assert_eq!(field(item(field(result, "content"), 0), "text"), &s("2 + 3 = 5"));
}

#[test]
fn add_fractions() {
    let server = McpServer::new();
    let lines = call_tool(
        &server,
        num("1"),
        "add",
        vec![("a", num("2.5")), ("b", num("0.25"))],
    );
    let result = field(&lines[0], "result");
    assert_eq!(
        field(item(field(result, "content"), 0), "text"),
        &s("2.5 + 0.25 = 2.75")
    );
}

#[test]
fn add_renders_exponent_tokens() {
    let server = McpServer::new();
    let result = server
        .execute_tool(
            "add",
            &vec![
                ("a".to_string(), num("1e3")),
                ("b".to_string(), num("0")),
            ],
        )
        .unwrap();
    assert_eq!(result, "1000 + 0 = 1000");
}

#[test]
fn add_missing_and_mistyped_arguments() {
    let server = McpServer::new();
    let args = vec![("a".to_string(), num("2"))];
    assert_eq!(
        server.execute_tool("add", &args),
        Err("Missing 'b' argument".to_string())
    );
    let args = vec![("a".to_string(), s("2")), ("b".to_string(), num("3"))];
    assert_eq!(
        server.execute_tool("add", &args),
        Err("Missing 'a' argument".to_string())
    );
}

#[test]
fn unknown_tool_is_internal_error_without_result() {
    let server = McpServer::new();
    let lines = call_tool(&server, num("7"), "nonexistent", vec![]);
    assert_eq!(lines.len(), 1);
    let err = field(&lines[0], "error");
    assert_eq!(field(err, "code"), &num("-32603"));
    assert_eq!(field(err, "message"), &s("Internal error: Unknown tool: nonexistent"));
    assert!(!has_field(&lines[0], "result"));
}

#[test]
fn tools_list_is_stable_across_requests() {
    let server = McpServer::new();
    let first = server.process_request(request(Some(num("1")), "tools/list", None));
    let _ = call_tool(&server, num("2"), "echo", vec![("message", s("x"))]);
    let _ = server.process_request(request(Some(num("3")), "resources/read", None));
    let second = server.process_request(request(Some(num("1")), "tools/list", None));
    assert_eq!(first, second);
    let tools = field(field(&first[0], "result"), "tools");
    assert_eq!(field(item(tools, 0), "name"), &s("echo"));
    assert_eq!(field(item(tools, 1), "name"), &s("add"));
    assert_eq!(
        field(item(tools, 0), "description"),
        &s("Echoes back the input message")
    );
    let schema = field(item(tools, 1), "inputSchema");
    assert_eq!(field(schema, "type"), &s("object"));
}

#[test]
fn response_id_echoes_number_and_string() {
    let server = McpServer::new();
    let lines = server.process_request(request(Some(num("42")), "tools/list", None));
    assert_eq!(field(&lines[0], "id"), &num("42"));
    let lines = server.process_request(request(Some(s("abc")), "tools/list", None));
    assert_eq!(field(&lines[0], "id"), &s("abc"));
    let lines = server.process_request(request(Some(s("abc")), "no/such/method", None));
    assert_eq!(field(&lines[0], "id"), &s("abc"));
}

#[test]
fn no_id_yields_no_lines() {
    let server = McpServer::new();
    assert!(server.process_request(request(None, "tools/list", None)).is_empty());
    assert!(server.process_request(request(None, "no/such/method", None)).is_empty());
    let params = obj(vec![("name", s("echo")), ("arguments", obj(vec![("message", s("hi"))]))]);
    assert!(server
        .process_request(request(None, "tools/call", Some(params)))
        .is_empty());
}

#[test]
fn initialized_yields_three_notifications_in_order() {
    let server = McpServer::new();
    let lines = server.process_request(request(None, "initialized", None));
    assert_eq!(lines.len(), 3);
    assert_eq!(field(&lines[0], "method"), &s("tools/listChanged"));
    assert_eq!(field(&lines[1], "method"), &s("resources/listChanged"));
    assert_eq!(field(&lines[2], "method"), &s("prompts/listChanged"));
    for line in &lines {
        assert!(!has_field(line, "id"));
        assert_eq!(field(line, "params"), &obj(vec![]));
    }
    let with_id = server.process_request(request(Some(num("5")), "initialized", None));
    assert_eq!(with_id.len(), 3);
}

#[test]
fn parse_error_shape() {
    let response = parse_error_response("expected value at line 1 column 1");
    assert_eq!(response.id, s("parse_error"));
    assert!(response.result.is_none());
    {
        let err = response.error.as_ref().expect("an error");
        assert_eq!(err.code, -32700);
        assert_eq!(err.message, "Parse error: expected value at line 1 column 1");
    }
    let line = response.into_json();
    assert_eq!(field(field(&line, "error"), "code"), &num("-32700"));
    assert_eq!(field(&line, "id"), &s("parse_error"));
}

#[test]
fn resources_read_example_and_missing() {
    let server = McpServer::new();
    let params = obj(vec![("uri", s("file:///example.txt"))]);
    let lines = server.process_request(request(Some(num("1")), "resources/read", Some(params)));
    let contents = item(field(field(&lines[0], "result"), "contents"), 0);
    assert_eq!(field(contents, "uri"), &s("file:///example.txt"));
    assert_eq!(field(contents, "mimeType"), &s("text/plain"));
    assert_eq!(
        field(contents, "text"),
        &s("This is an example text file content.\nIt contains some sample text for demonstration purposes.")
    );

    let params = obj(vec![("uri", s("file:///missing.txt"))]);
    let lines = server.process_request(request(Some(num("2")), "resources/read", Some(params)));
    let err = field(&lines[0], "error");
    assert_eq!(field(err, "code"), &num("-32603"));
    assert_eq!(
        field(err, "message"),
        &s("Internal error: Resource not found: file:///missing.txt")
    );
}

#[test]
fn resources_read_requires_params() {
    let server = McpServer::new();
    let lines = server.process_request(request(Some(num("1")), "resources/read", None));
    assert_eq!(
        field(field(&lines[0], "error"), "message"),
        &s("Internal error: Missing params")
    );
}

#[test]
fn resources_list_announces_example_file() {
    let server = McpServer::new();
    let lines = server.process_request(request(Some(num("1")), "resources/list", None));
    let resources = field(field(&lines[0], "result"), "resources");
    let entry = item(resources, 0);
    assert_eq!(field(entry, "uri"), &s("file:///example.txt"));
    assert_eq!(field(entry, "name"), &s("Example File"));
    assert_eq!(field(entry, "mimeType"), &s("text/plain"));
}

#[test]
fn initialize_announces_fixed_capabilities() {
    let server = McpServer::new();
    let params = obj(vec![
        ("protocolVersion", s("2024-11-05")),
        ("capabilities", obj(vec![])),
        (
            "clientInfo",
            obj(vec![("name", s("client")), ("version", s("1.0"))]),
        ),
    ]);
    let lines = server.process_request(request(Some(num("1")), "initialize", Some(params)));
    let result = field(&lines[0], "result");
    assert_eq!(field(result, "protocolVersion"), &s("2024-11-05"));
    let caps = field(result, "capabilities");
    assert_eq!(field(field(caps, "tools"), "listChanged"), &Json::Bool(true));
    assert_eq!(field(field(caps, "resources"), "listChanged"), &Json::Bool(true));
    assert_eq!(field(field(caps, "prompts"), "listChanged"), &Json::Bool(true));
    let info = field(result, "serverInfo");
    assert_eq!(field(info, "name"), &s("leap-mcp"));
    assert_eq!(field(info, "version"), &s("0.1.0"));
}

#[test]
fn initialize_rejects_missing_fields() {
    let server = McpServer::new();
    let lines = server.process_request(request(Some(num("1")), "initialize", None));
    assert_eq!(
        field(field(&lines[0], "error"), "message"),
        &s("Internal error: missing field `protocolVersion`")
    );
    let params = obj(vec![("protocolVersion", s("2024-11-05"))]);
    let lines = server.process_request(request(Some(num("2")), "initialize", Some(params)));
    assert_eq!(
        field(field(&lines[0], "error"), "message"),
        &s("Internal error: missing field `capabilities`")
    );
}

#[test]
fn prompts_list_and_get() {
    let server = McpServer::new();
    let lines = server.process_request(request(Some(num("1")), "prompts/list", None));
    let prompts = field(field(&lines[0], "result"), "prompts");
    assert_eq!(field(item(prompts, 0), "name"), &s("hello"));

    let params = obj(vec![("name", s("hello"))]);
    let lines = server.process_request(request(Some(num("2")), "prompts/get", Some(params)));
    let messages = field(field(&lines[0], "result"), "messages");
    let message = item(messages, 0);
    assert_eq!(field(message, "role"), &s("user"));
    assert_eq!(
        field(item(field(message, "content"), 0), "text"),
        &s("Hello from leap-mcp prompts!")
    );

    let params = obj(vec![("name", s("goodbye"))]);
    let lines = server.process_request(request(Some(num("3")), "prompts/get", Some(params)));
    assert_eq!(
        field(field(&lines[0], "error"), "message"),
        &s("Internal error: Unknown prompt: goodbye")
    );
}

#[test]
fn unknown_method_names_the_method() {
    let server = McpServer::new();
    let lines = server.process_request(request(Some(num("1")), "tools/delete", None));
    assert_eq!(
        field(field(&lines[0], "error"), "message"),
        &s("Internal error: Unknown method: tools/delete")
    );
}

#[test]
fn tools_call_requires_params_and_fields() {
    let server = McpServer::new();
    let lines = server.process_request(request(Some(num("1")), "tools/call", None));
    assert_eq!(
        field(field(&lines[0], "error"), "message"),
        &s("Internal error: Missing params")
    );
    let params = obj(vec![("name", s("echo"))]);
    let lines = server.process_request(request(Some(num("2")), "tools/call", Some(params)));
    assert_eq!(
        field(field(&lines[0], "error"), "message"),
        &s("Internal error: missing field `arguments`")
    );
    let params = obj(vec![("arguments", obj(vec![]))]);
    let lines = server.process_request(request(Some(num("3")), "tools/call", Some(params)));
    assert_eq!(
        field(field(&lines[0], "error"), "message"),
        &s("Internal error: missing field `name`")
    );
}

#[test]
fn mistyped_params_are_rejected() {
    let server = McpServer::new();
    let params = obj(vec![("name", num("3")), ("arguments", obj(vec![]))]);
    let lines = server.process_request(request(Some(num("1")), "tools/call", Some(params)));
    assert_eq!(
        field(field(&lines[0], "error"), "message"),
        &s("Internal error: invalid field `name`")
    );
    let params = obj(vec![("name", s("echo")), ("arguments", s("nope"))]);
    let lines = server.process_request(request(Some(num("2")), "tools/call", Some(params)));
    assert_eq!(
        field(field(&lines[0], "error"), "message"),
        &s("Internal error: invalid field `arguments`")
    );
    let lines = server.process_request(request(Some(num("3")), "tools/call", Some(s("x"))));
    assert_eq!(
        field(field(&lines[0], "error"), "message"),
        &s("Internal error: invalid params")
    );
    let params = obj(vec![("uri", Json::Null)]);
    let lines = server.process_request(request(Some(num("4")), "resources/read", Some(params)));
    assert_eq!(
        field(field(&lines[0], "error"), "message"),
        &s("Internal error: invalid field `uri`")
    );
    let params = obj(vec![
        ("protocolVersion", s("2024-11-05")),
        ("capabilities", obj(vec![])),
        ("clientInfo", s("nope")),
    ]);
    let lines = server.process_request(request(Some(num("5")), "initialize", Some(params)));
    assert_eq!(
        field(field(&lines[0], "error"), "message"),
        &s("Internal error: invalid field `clientInfo`")
    );
}

#[test]
fn prompt_arguments_are_accepted_and_ignored() {
    let server = McpServer::new();
    let params = obj(vec![
        ("name", s("hello")),
        ("arguments", obj(vec![("anything", num("1"))])),
    ]);
    let lines = server.process_request(request(Some(num("1")), "prompts/get", Some(params)));
    assert!(has_field(&lines[0], "result"));
}

#[test]
fn response_field_order_is_tag_id_payload() {
    let server = McpServer::new();
    let lines = server.process_request(request(Some(num("9")), "tools/list", None));
    match &lines[0] {
        Json::Obj(fields) => {
            let keys: Vec<&str> = fields.iter().map(|(k, _)| k.as_str()).collect();
            assert_eq!(keys, vec!["jsonrpc", "id", "result"]);
        }
        _ => panic!("not an object"),
    }
    assert_eq!(field(&lines[0], "jsonrpc"), &s("2.0"));
}
