//! The dispatcher and its eight handlers over the static tool, resource and
//! prompt tables, together with the transport-level decisions: which lines a
//! request yields, and what each of them holds.

use vstd::prelude::*;
use vstd::string::StringExecFns;

use crate::doubles::{double_render, double_sum_render, render_sum, render_token_double};
use crate::json::{
    fields_of, json_clone, jsons_view, lemma_fields_of, lemma_obj_get_view, lemma_views_of,
    lookup_field, view_json, views_of, vobj_get, Json, JsonV,
};
use crate::text::str_eq;
use crate::types::{
    error_jsonv, spec_parse_initialize, spec_parse_prompt_get, spec_parse_resource_read,
    spec_parse_tool_call, InitializeParams, JsonRpcNotification, JsonRpcRequest, McpError,
    McpResponse, PromptGetParams, Prompt, Resource, ResourceReadParams, Tool, ToolCallParams,
};

verus! {

#[verifier::ext_equal]
pub struct ToolV {
    pub name: Seq<char>,
    pub description: Seq<char>,
    pub input_schema: JsonV,
}

impl View for Tool {
    type V = ToolV;

    open spec fn view(&self) -> ToolV {
        ToolV {
            name: self.name@,
            description: self.description@,
            input_schema: self.input_schema@,
        }
    }
}

#[verifier::ext_equal]
pub struct ResourceV {
    pub uri: Seq<char>,
    pub name: Seq<char>,
    pub description: Seq<char>,
    pub mime_type: Seq<char>,
}

impl View for Resource {
    type V = ResourceV;

    open spec fn view(&self) -> ResourceV {
        ResourceV {
            uri: self.uri@,
            name: self.name@,
            description: self.description@,
            mime_type: self.mime_type@,
        }
    }
}

#[verifier::ext_equal]
pub struct PromptV {
    pub name: Seq<char>,
    pub description: Seq<char>,
}

impl View for Prompt {
    type V = PromptV;

    open spec fn view(&self) -> PromptV {
        PromptV { name: self.name@, description: self.description@ }
    }
}

/// The input schema the `echo` tool announces.
pub open spec fn spec_echo_schema() -> JsonV {
    JsonV::Obj(
        seq![
            ("type"@, JsonV::Str("object"@)),
            (
                "properties"@,
                JsonV::Obj(
                    seq![
                        (
                            "message"@,
                            JsonV::Obj(
                                seq![
                                    ("type"@, JsonV::Str("string"@)),
                                    ("description"@, JsonV::Str("The message to echo"@)),
                                ],
                            ),
                        ),
                    ],
                ),
            ),
            ("required"@, JsonV::Arr(seq![JsonV::Str("message"@)])),
        ],
    )
}

/// The input schema the `add` tool announces.
pub open spec fn spec_add_schema() -> JsonV {
    JsonV::Obj(
        seq![
            ("type"@, JsonV::Str("object"@)),
            (
                "properties"@,
                JsonV::Obj(
                    seq![
                        (
                            "a"@,
                            JsonV::Obj(
                                seq![
                                    ("type"@, JsonV::Str("number"@)),
                                    ("description"@, JsonV::Str("First number"@)),
                                ],
                            ),
                        ),
                        (
                            "b"@,
                            JsonV::Obj(
                                seq![
                                    ("type"@, JsonV::Str("number"@)),
                                    ("description"@, JsonV::Str("Second number"@)),
                                ],
                            ),
                        ),
                    ],
                ),
            ),
            ("required"@, JsonV::Arr(seq![JsonV::Str("a"@), JsonV::Str("b"@)])),
        ],
    )
}

/// The statically configured tools, in announcement order.
pub open spec fn spec_tools_config() -> Seq<ToolV> {
    seq![
        ToolV {
            name: "echo"@,
            description: "Echoes back the input message"@,
            input_schema: spec_echo_schema(),
        },
        ToolV {
            name: "add"@,
            description: "Adds two numbers together"@,
            input_schema: spec_add_schema(),
        },
    ]
}

/// The statically configured resources.
pub open spec fn spec_resources_config() -> Seq<ResourceV> {
    seq![
        ResourceV {
            uri: "file:///example.txt"@,
            name: "Example File"@,
            description: "An example text file"@,
            mime_type: "text/plain"@,
        },
    ]
}

/// The statically configured prompts.
pub open spec fn spec_prompts_config() -> Seq<PromptV> {
    seq![PromptV { name: "hello"@, description: "Returns a friendly greeting"@ }]
}

#[verifier::ext_equal]
pub struct ServerV {
    pub tools: Seq<ToolV>,
    pub resources: Seq<ResourceV>,
    pub prompts: Seq<PromptV>,
}

/// The server: the three descriptor tables, immutable once constructed.
pub struct McpServer {
    tools: Vec<Tool>,
    resources: Vec<Resource>,
    prompts: Vec<Prompt>,
}

impl View for McpServer {
    type V = ServerV;

    closed spec fn view(&self) -> ServerV {
        ServerV {
            tools: self.tools@.map_values(|t: Tool| t@),
            resources: self.resources@.map_values(|r: Resource| r@),
            prompts: self.prompts@.map_values(|p: Prompt| p@),
        }
    }
}

impl McpServer {
    /// Every server holds exactly the static configuration.
    #[verifier::type_invariant]
    closed spec fn inv(self) -> bool {
        self@ == ServerV {
            tools: spec_tools_config(),
            resources: spec_resources_config(),
            prompts: spec_prompts_config(),
        }
    }
}

fn echo_schema() -> (r: Json)
    ensures
        r@ == spec_echo_schema(),
{
    let mut m: Vec<(String, Json)> = Vec::new();
    m.push(("type".to_owned(), Json::Str("string".to_owned())));
    m.push(("description".to_owned(), Json::Str("The message to echo".to_owned())));
    proof {
        lemma_fields_of(m@);
        assert(fields_of(m@)[0] == (m@[0].0@, view_json(m@[0].1)));
        assert(fields_of(m@)[1] == (m@[1].0@, view_json(m@[1].1)));
        assert(fields_of(m@) =~= seq![
            ("type"@, JsonV::Str("string"@)),
            ("description"@, JsonV::Str("The message to echo"@)),
        ]);
    }
    let message = Json::Obj(m);
    let mut props: Vec<(String, Json)> = Vec::new();
    props.push(("message".to_owned(), message));
    proof {
        lemma_fields_of(props@);
        assert(fields_of(props@)[0] == (props@[0].0@, view_json(props@[0].1)));
        assert(fields_of(props@) =~= spec_echo_schema()->Obj_0[1].1->Obj_0);
    }
    let mut req: Vec<Json> = Vec::new();
    req.push(Json::Str("message".to_owned()));
    proof {
        lemma_views_of(req@);
        assert(views_of(req@)[0] == view_json(req@[0]));
        assert(views_of(req@) =~= seq![JsonV::Str("message"@)]);
    }
    let mut top: Vec<(String, Json)> = Vec::new();
    top.push(("type".to_owned(), Json::Str("object".to_owned())));
    top.push(("properties".to_owned(), Json::Obj(props)));
    top.push(("required".to_owned(), Json::Arr(req)));
    proof {
        lemma_fields_of(top@);
        assert(fields_of(top@)[0] == (top@[0].0@, view_json(top@[0].1)));
        assert(fields_of(top@)[1] == (top@[1].0@, view_json(top@[1].1)));
        assert(fields_of(top@)[2] == (top@[2].0@, view_json(top@[2].1)));
        assert(fields_of(top@) =~= spec_echo_schema()->Obj_0);
    }
    Json::Obj(top)
}

fn number_prop(description: &str) -> (r: Json)
    ensures
        r@ == JsonV::Obj(
            seq![("type"@, JsonV::Str("number"@)), ("description"@, JsonV::Str(description@))],
        ),
{
    let mut m: Vec<(String, Json)> = Vec::new();
    m.push(("type".to_owned(), Json::Str("number".to_owned())));
    m.push(("description".to_owned(), Json::Str(description.to_owned())));
    proof {
        lemma_fields_of(m@);
        assert(fields_of(m@)[0] == (m@[0].0@, view_json(m@[0].1)));
        assert(fields_of(m@)[1] == (m@[1].0@, view_json(m@[1].1)));
        assert(fields_of(m@) =~= seq![
            ("type"@, JsonV::Str("number"@)),
            ("description"@, JsonV::Str(description@)),
        ]);
    }
    Json::Obj(m)
}

fn add_schema() -> (r: Json)
    ensures
        r@ == spec_add_schema(),
{
    let mut props: Vec<(String, Json)> = Vec::new();
    props.push(("a".to_owned(), number_prop("First number")));
    props.push(("b".to_owned(), number_prop("Second number")));
    proof {
        lemma_fields_of(props@);
        assert(fields_of(props@)[0] == (props@[0].0@, view_json(props@[0].1)));
        assert(fields_of(props@)[1] == (props@[1].0@, view_json(props@[1].1)));
        assert(fields_of(props@) =~= spec_add_schema()->Obj_0[1].1->Obj_0);
    }
    let mut req: Vec<Json> = Vec::new();
    req.push(Json::Str("a".to_owned()));
    req.push(Json::Str("b".to_owned()));
    proof {
        lemma_views_of(req@);
        assert(views_of(req@)[0] == view_json(req@[0]));
        assert(views_of(req@)[1] == view_json(req@[1]));
        assert(views_of(req@) =~= seq![JsonV::Str("a"@), JsonV::Str("b"@)]);
    }
    let mut top: Vec<(String, Json)> = Vec::new();
    top.push(("type".to_owned(), Json::Str("object".to_owned())));
    top.push(("properties".to_owned(), Json::Obj(props)));
    top.push(("required".to_owned(), Json::Arr(req)));
    proof {
        lemma_fields_of(top@);
        assert(fields_of(top@)[0] == (top@[0].0@, view_json(top@[0].1)));
        assert(fields_of(top@)[1] == (top@[1].0@, view_json(top@[1].1)));
        assert(fields_of(top@)[2] == (top@[2].0@, view_json(top@[2].1)));
        assert(fields_of(top@) =~= spec_add_schema()->Obj_0);
    }
    Json::Obj(top)
}

impl McpServer {
    /// Build the server with its static tables: the two tools, one resource
    /// and one prompt.
    pub fn new() -> (r: Self) {
        let tools = vec![
            Tool {
                name: "echo".to_owned(),
                description: "Echoes back the input message".to_owned(),
                input_schema: echo_schema(),
            },
            Tool {
                name: "add".to_owned(),
                description: "Adds two numbers together".to_owned(),
                input_schema: add_schema(),
            },
        ];
        let resources = vec![
            Resource {
                uri: "file:///example.txt".to_owned(),
                name: "Example File".to_owned(),
                description: "An example text file".to_owned(),
                mime_type: "text/plain".to_owned(),
            },
        ];
        let prompts = vec![
            Prompt {
                name: "hello".to_owned(),
                description: "Returns a friendly greeting".to_owned(),
            },
        ];
        proof {
            assert(tools@.map_values(|t: Tool| t@) =~= spec_tools_config());
            assert(resources@.map_values(|x: Resource| x@) =~= spec_resources_config());
            assert(prompts@.map_values(|p: Prompt| p@) =~= spec_prompts_config());
        }
        let r = McpServer { tools, resources, prompts };
        proof {
            assert(r@ =~= ServerV {
                tools: spec_tools_config(),
                resources: spec_resources_config(),
                prompts: spec_prompts_config(),
            });
        }
        r
    }

    /// Run one tool by name: `echo` yields `Echo: ` before the message, and
    /// `add` yields `<a> + <b> = <a+b>` with each number rendered as the
    /// host renders doubles; anything else is unknown.
    pub fn execute_tool(&self, name: &str, arguments: &Vec<(String, Json)>) -> (r: Result<
        String,
        String,
    >)
        ensures
            match r {
                Ok(text) => spec_execute_tool(name@, fields_of(arguments@)) == Ok::<
                    Seq<char>,
                    Seq<char>,
                >(text@),
                Err(m) => spec_execute_tool(name@, fields_of(arguments@)) == Err::<
                    Seq<char>,
                    Seq<char>,
                >(m@),
            },
    {
        if str_eq(name, "echo") {
            proof {
                lemma_obj_get_view(arguments@, "message"@);
            }
            match lookup_field(arguments, "message") {
                Some(Json::Str(s)) => {
                    let mut out = "Echo: ".to_owned();
                    out.append(s.as_str());
                    Ok(out)
                },
                _ => Err("Missing 'message' argument".to_owned()),
            }
        } else if str_eq(name, "add") {
            proof {
                lemma_obj_get_view(arguments@, "a"@);
                lemma_obj_get_view(arguments@, "b"@);
            }
            let ta = match lookup_field(arguments, "a") {
                Some(Json::Num(s)) => s,
                _ => {
                    return Err("Missing 'a' argument".to_owned());
                },
            };
            let ra = match render_token_double(ta.as_str()) {
                Some(t) => t,
                None => {
                    return Err("Missing 'a' argument".to_owned());
                },
            };
            let tb = match lookup_field(arguments, "b") {
                Some(Json::Num(s)) => s,
                _ => {
                    return Err("Missing 'b' argument".to_owned());
                },
            };
            let rb = match render_token_double(tb.as_str()) {
                Some(t) => t,
                None => {
                    return Err("Missing 'b' argument".to_owned());
                },
            };
            let mut out = ra;
            out.append(" + ");
            out.append(rb.as_str());
            out.append(" = ");
            match render_sum(ta.as_str(), tb.as_str()) {
                Some(sum) => {
                    out.append(sum.as_str());
                    Ok(out)
                },
                None => {
                    proof {
                        assert(false);
                    }
                    Err(String::new())
                },
            }
        } else {
            let mut m = "Unknown tool: ".to_owned();
            m.append(name);
            Err(m)
        }
    }

    /// Look a resource's content up by URI; only the one example file exists.
    pub fn read_resource(&self, uri: &str) -> (r: Result<String, String>)
        ensures
            match r {
                Ok(text) => spec_read_resource(uri@) == Ok::<Seq<char>, Seq<char>>(text@),
                Err(m) => spec_read_resource(uri@) == Err::<Seq<char>, Seq<char>>(m@),
            },
    {
        if str_eq(uri, "file:///example.txt") {
            Ok(
                "This is an example text file content.\nIt contains some sample text for demonstration purposes.".to_owned(),
            )
        } else {
            let mut m = "Resource not found: ".to_owned();
            m.append(uri);
            Err(m)
        }
    }
}

/// What running a tool yields for each tool name and argument set.
pub open spec fn spec_execute_tool(name: Seq<char>, args: Seq<(Seq<char>, JsonV)>) -> Result<
    Seq<char>,
    Seq<char>,
> {
    if name == "echo"@ {
        match vobj_get(args, "message"@) {
            Some(JsonV::Str(m)) => Ok("Echo: "@ + m),
            _ => Err("Missing 'message' argument"@),
        }
    } else if name == "add"@ {
        match vobj_get(args, "a"@) {
            Some(JsonV::Num(ta)) => match double_render(ta) {
                Some(ra) => match vobj_get(args, "b"@) {
                    Some(JsonV::Num(tb)) => match double_render(tb) {
                        Some(rb) => Ok(ra + " + "@ + rb + " = "@ + double_sum_render(ta, tb)),
                        None => Err("Missing 'b' argument"@),
                    },
                    _ => Err("Missing 'b' argument"@),
                },
                None => Err("Missing 'a' argument"@),
            },
            _ => Err("Missing 'a' argument"@),
        }
    } else {
        Err("Unknown tool: "@ + name)
    }
}

/// The identifier a response carries: the request's, or null in its absence.
pub open spec fn spec_id_of(id: Option<Json>) -> JsonV {
    match id {
        Some(j) => j@,
        None => JsonV::Null,
    }
}

/// A successful response envelope: the tag, the echoed identifier, the
/// given result payload, and no error.
pub open spec fn is_ok_response(resp: McpResponse, id: Option<Json>, result: JsonV) -> bool {
    &&& resp.jsonrpc@ == "2.0"@
    &&& resp.id@ == spec_id_of(id)
    &&& match resp.result {
        Some(j) => j@ == result,
        None => false,
    }
    &&& resp.error is None
}

/// The fixed `initialize` result: the protocol version, the three
/// capability areas each flagging list-change notifications, and the
/// server identification.
pub open spec fn spec_initialize_result() -> JsonV {
    JsonV::Obj(
        seq![
            ("protocolVersion"@, JsonV::Str("2024-11-05"@)),
            (
                "capabilities"@,
                JsonV::Obj(
                    seq![
                        ("tools"@, JsonV::Obj(seq![("listChanged"@, JsonV::Bool(true))])),
                        ("resources"@, JsonV::Obj(seq![("listChanged"@, JsonV::Bool(true))])),
                        ("prompts"@, JsonV::Obj(seq![("listChanged"@, JsonV::Bool(true))])),
                    ],
                ),
            ),
            (
                "serverInfo"@,
                JsonV::Obj(
                    seq![
                        ("name"@, JsonV::Str("leap-mcp"@)),
                        ("version"@, JsonV::Str("0.1.0"@)),
                    ],
                ),
            ),
        ],
    )
}

/// The announced projection of one tool descriptor.
pub open spec fn spec_tool_jsonv(t: ToolV) -> JsonV {
    JsonV::Obj(
        seq![
            ("name"@, JsonV::Str(t.name)),
            ("description"@, JsonV::Str(t.description)),
            ("inputSchema"@, t.input_schema),
        ],
    )
}

/// The `tools/list` result: every configured tool, in configuration order.
pub open spec fn spec_tools_list_result(ts: Seq<ToolV>) -> JsonV {
    JsonV::Obj(seq![("tools"@, JsonV::Arr(ts.map_values(|t: ToolV| spec_tool_jsonv(t))))])
}

/// The announced projection of one resource descriptor.
pub open spec fn spec_resource_jsonv(x: ResourceV) -> JsonV {
    JsonV::Obj(
        seq![
            ("uri"@, JsonV::Str(x.uri)),
            ("name"@, JsonV::Str(x.name)),
            ("description"@, JsonV::Str(x.description)),
            ("mimeType"@, JsonV::Str(x.mime_type)),
        ],
    )
}

/// The `resources/list` result.
pub open spec fn spec_resources_list_result(xs: Seq<ResourceV>) -> JsonV {
    JsonV::Obj(
        seq![("resources"@, JsonV::Arr(xs.map_values(|x: ResourceV| spec_resource_jsonv(x))))],
    )
}

/// The announced projection of one prompt descriptor.
pub open spec fn spec_prompt_jsonv(p: PromptV) -> JsonV {
    JsonV::Obj(seq![("name"@, JsonV::Str(p.name)), ("description"@, JsonV::Str(p.description))])
}

/// The `prompts/list` result.
pub open spec fn spec_prompts_list_result(ps: Seq<PromptV>) -> JsonV {
    JsonV::Obj(seq![("prompts"@, JsonV::Arr(ps.map_values(|p: PromptV| spec_prompt_jsonv(p))))])
}

/// The `tools/call` result: one text content item and `isError` false —
/// tool failures are never reported in band.
pub open spec fn spec_tool_call_result(text: Seq<char>) -> JsonV {
    JsonV::Obj(
        seq![
            (
                "content"@,
                JsonV::Arr(
                    seq![
                        JsonV::Obj(
                            seq![("type"@, JsonV::Str("text"@)), ("text"@, JsonV::Str(text))],
                        ),
                    ],
                ),
            ),
            ("isError"@, JsonV::Bool(false)),
        ],
    )
}

/// The `resources/read` result: the echoed URI, a MIME type fixed to
/// `text/plain`, and the content.
pub open spec fn spec_resource_read_result(uri: Seq<char>, text: Seq<char>) -> JsonV {
    JsonV::Obj(
        seq![
            (
                "contents"@,
                JsonV::Arr(
                    seq![
                        JsonV::Obj(
                            seq![
                                ("uri"@, JsonV::Str(uri)),
                                ("mimeType"@, JsonV::Str("text/plain"@)),
                                ("text"@, JsonV::Str(text)),
                            ],
                        ),
                    ],
                ),
            ),
        ],
    )
}

/// The `prompts/get` result: one user message with one text content item.
pub open spec fn spec_prompt_get_result(text: Seq<char>) -> JsonV {
    JsonV::Obj(
        seq![
            (
                "messages"@,
                JsonV::Arr(
                    seq![
                        JsonV::Obj(
                            seq![
                                ("role"@, JsonV::Str("user"@)),
                                (
                                    "content"@,
                                    JsonV::Arr(
                                        seq![
                                            JsonV::Obj(
                                                seq![
                                                    ("type"@, JsonV::Str("text"@)),
                                                    ("text"@, JsonV::Str(text)),
                                                ],
                                            ),
                                        ],
                                    ),
                                ),
                            ],
                        ),
                    ],
                ),
            ),
        ],
    )
}

/// The lines a batch of notifications serializes to, in order.
pub open spec fn notes_jsonv(ns: Seq<JsonRpcNotification>) -> Seq<JsonV> {
    Seq::new(ns.len(), |i: int| ns[i].to_jsonv())
}

/// The notification lines a method triggers: three list-change
/// announcements for `initialized`, none otherwise.
pub open spec fn spec_note_lines(method: Seq<char>) -> Seq<JsonV> {
    if method == "initialized"@ {
        seq![
            spec_notification("tools/listChanged"@),
            spec_notification("resources/listChanged"@),
            spec_notification("prompts/listChanged"@),
        ]
    } else {
        Seq::empty()
    }
}

/// The line a one-way notification serializes to: the tag, the method, and
/// an empty parameter object.
pub open spec fn spec_notification(method: Seq<char>) -> JsonV {
    JsonV::Obj(
        seq![
            ("jsonrpc"@, JsonV::Str("2.0"@)),
            ("method"@, JsonV::Str(method)),
            ("params"@, JsonV::Obj(Seq::empty())),
        ],
    )
}

/// What reading a resource yields for each URI.
pub open spec fn spec_read_resource(uri: Seq<char>) -> Result<Seq<char>, Seq<char>> {
    if uri == "file:///example.txt"@ {
        Ok(
            "This is an example text file content.\nIt contains some sample text for demonstration purposes."@,
        )
    } else {
        Err("Resource not found: "@ + uri)
    }
}

/// The `initialize` parameter value: the given one, or an empty object.
pub open spec fn spec_init_params(params: Option<Json>) -> JsonV {
    match params {
        Some(p) => p@,
        None => JsonV::Obj(Seq::empty()),
    }
}

/// What `initialize` yields for each parameter set.
pub open spec fn spec_initialize_outcome(params: Option<Json>) -> Result<JsonV, Seq<char>> {
    match spec_parse_initialize(spec_init_params(params)) {
        Ok(_) => Ok(spec_initialize_result()),
        Err(m) => Err(m),
    }
}

/// What `tools/call` yields for each parameter set.
pub open spec fn spec_tool_call_outcome(params: Option<Json>) -> Result<JsonV, Seq<char>> {
    match params {
        None => Err("Missing params"@),
        Some(p) => match spec_parse_tool_call(p@) {
            Ok(tp) => match spec_execute_tool(tp.name, tp.arguments) {
                Ok(text) => Ok(spec_tool_call_result(text)),
                Err(m) => Err(m),
            },
            Err(m) => Err(m),
        },
    }
}

/// What `resources/read` yields for each parameter set.
pub open spec fn spec_resource_read_outcome(params: Option<Json>) -> Result<JsonV, Seq<char>> {
    match params {
        None => Err("Missing params"@),
        Some(p) => match spec_parse_resource_read(p@) {
            Ok(uri) => match spec_read_resource(uri) {
                Ok(text) => Ok(spec_resource_read_result(uri, text)),
                Err(m) => Err(m),
            },
            Err(m) => Err(m),
        },
    }
}

/// What `prompts/get` yields for each parameter set.
pub open spec fn spec_prompt_get_outcome(params: Option<Json>) -> Result<JsonV, Seq<char>> {
    match params {
        None => Err("Missing params"@),
        Some(p) => match spec_parse_prompt_get(p@) {
            Ok(name) => if name == "hello"@ {
                Ok(spec_prompt_get_result("Hello from leap-mcp prompts!"@))
            } else {
                Err("Unknown prompt: "@ + name)
            },
            Err(m) => Err(m),
        },
    }
}

/// What the dispatcher yields for each method and parameter set: a result
/// payload, no payload for the one-way `initialized`, or an error message.
pub open spec fn spec_outcome(method: Seq<char>, params: Option<Json>) -> Result<
    Option<JsonV>,
    Seq<char>,
> {
    if method == "initialize"@ {
        match spec_initialize_outcome(params) {
            Ok(p) => Ok(Some(p)),
            Err(m) => Err(m),
        }
    } else if method == "tools/list"@ {
        Ok(Some(spec_tools_list_result(spec_tools_config())))
    } else if method == "tools/call"@ {
        match spec_tool_call_outcome(params) {
            Ok(p) => Ok(Some(p)),
            Err(m) => Err(m),
        }
    } else if method == "resources/list"@ {
        Ok(Some(spec_resources_list_result(spec_resources_config())))
    } else if method == "resources/read"@ {
        match spec_resource_read_outcome(params) {
            Ok(p) => Ok(Some(p)),
            Err(m) => Err(m),
        }
    } else if method == "prompts/list"@ {
        Ok(Some(spec_prompts_list_result(spec_prompts_config())))
    } else if method == "prompts/get"@ {
        match spec_prompt_get_outcome(params) {
            Ok(p) => Ok(Some(p)),
            Err(m) => Err(m),
        }
    } else if method == "initialized"@ {
        Ok(None)
    } else {
        Err("Unknown method: "@ + method)
    }
}

fn list_changed_flag() -> (r: Json)
    ensures
        r@ == JsonV::Obj(seq![("listChanged"@, JsonV::Bool(true))]),
{
    let mut f: Vec<(String, Json)> = Vec::new();
    f.push(("listChanged".to_owned(), Json::Bool(true)));
    proof {
        lemma_fields_of(f@);
        assert(fields_of(f@)[0] == (f@[0].0@, view_json(f@[0].1)));
        assert(fields_of(f@) =~= seq![("listChanged"@, JsonV::Bool(true))]);
    }
    Json::Obj(f)
}

fn initialize_result() -> (r: Json)
    ensures
        r@ == spec_initialize_result(),
{
    let mut caps: Vec<(String, Json)> = Vec::new();
    caps.push(("tools".to_owned(), list_changed_flag()));
    caps.push(("resources".to_owned(), list_changed_flag()));
    caps.push(("prompts".to_owned(), list_changed_flag()));
    proof {
        lemma_fields_of(caps@);
        assert(fields_of(caps@)[0] == (caps@[0].0@, view_json(caps@[0].1)));
        assert(fields_of(caps@)[1] == (caps@[1].0@, view_json(caps@[1].1)));
        assert(fields_of(caps@)[2] == (caps@[2].0@, view_json(caps@[2].1)));
        assert(fields_of(caps@) =~= spec_initialize_result()->Obj_0[1].1->Obj_0);
    }
    let mut info: Vec<(String, Json)> = Vec::new();
    info.push(("name".to_owned(), Json::Str("leap-mcp".to_owned())));
    info.push(("version".to_owned(), Json::Str("0.1.0".to_owned())));
    proof {
        lemma_fields_of(info@);
        assert(fields_of(info@)[0] == (info@[0].0@, view_json(info@[0].1)));
        assert(fields_of(info@)[1] == (info@[1].0@, view_json(info@[1].1)));
        assert(fields_of(info@) =~= spec_initialize_result()->Obj_0[2].1->Obj_0);
    }
    let mut top: Vec<(String, Json)> = Vec::new();
    top.push(("protocolVersion".to_owned(), Json::Str("2024-11-05".to_owned())));
    top.push(("capabilities".to_owned(), Json::Obj(caps)));
    top.push(("serverInfo".to_owned(), Json::Obj(info)));
    proof {
        lemma_fields_of(top@);
        assert(fields_of(top@)[0] == (top@[0].0@, view_json(top@[0].1)));
        assert(fields_of(top@)[1] == (top@[1].0@, view_json(top@[1].1)));
        assert(fields_of(top@)[2] == (top@[2].0@, view_json(top@[2].1)));
        assert(fields_of(top@) =~= spec_initialize_result()->Obj_0);
    }
    Json::Obj(top)
}

fn ok_response(id: Option<Json>, result: Json) -> (r: McpResponse)
    ensures
        is_ok_response(r, id, result@),
{
    McpResponse {
        jsonrpc: "2.0".to_owned(),
        id: match id {
            Some(j) => j,
            None => Json::Null,
        },
        result: Some(result),
        error: None,
    }
}

fn make_notification(method: &str) -> (r: JsonRpcNotification)
    ensures
        r.to_jsonv() == spec_notification(method@),
{
    let r = JsonRpcNotification {
        jsonrpc: "2.0".to_owned(),
        method: method.to_owned(),
        params: Json::Obj(Vec::new()),
    };
    proof {
        assert(r.to_jsonv() =~~= spec_notification(method@));
    }
    r
}

impl McpServer {
    /// Answer `initialize`: validate the parameters and announce the fixed
    /// capabilities; the client's declared version is not negotiated.
    pub fn handle_initialize(&self, request: JsonRpcRequest) -> (r: Result<
        Option<McpResponse>,
        String,
    >)
        ensures
            match r {
                Ok(Some(resp)) => spec_initialize_outcome(request.params) matches Ok(p)
                    && is_ok_response(resp, request.id, p),
                Ok(None) => false,
                Err(m) => spec_initialize_outcome(request.params) matches Err(em) && em == m@,
            },
    {
        let parsed = match &request.params {
            Some(p) => InitializeParams::from_json(p),
            None => {
                let empty = Json::Obj(Vec::new());
                proof {
                    assert(empty@ == spec_init_params(request.params));
                }
                InitializeParams::from_json(&empty)
            },
        };
        match parsed {
            Ok(_params) => Ok(Some(ok_response(request.id, initialize_result()))),
            Err(m) => Err(m),
        }
    }

    /// Answer `tools/list`: project every configured tool, in order.
    pub fn handle_tools_list(&self, request: JsonRpcRequest) -> (r: Result<
        Option<McpResponse>,
        String,
    >)
        ensures
            match r {
                Ok(Some(resp)) => is_ok_response(
                    resp,
                    request.id,
                    spec_tools_list_result(spec_tools_config()),
                ),
                _ => false,
            },
    {
        proof {
            use_type_invariant(self);
        }
        let mut arr: Vec<Json> = Vec::new();
        let n = self.tools.len();
        let mut i: usize = 0;
        while i < n
            invariant
                n == self.tools@.len(),
                self@.tools == spec_tools_config(),
                self@.tools =~= self.tools@.map_values(|t: Tool| t@),
                i <= n,
                arr@.len() == i,
                forall|k: int| 0 <= k < i ==> #[trigger] arr@[k]@ == spec_tool_jsonv(
                    spec_tools_config()[k],
                ),
            decreases n - i,
        {
            let t = &self.tools[i];
            let mut tf: Vec<(String, Json)> = Vec::new();
            tf.push(("name".to_owned(), Json::Str(t.name.clone())));
            tf.push(("description".to_owned(), Json::Str(t.description.clone())));
            tf.push(("inputSchema".to_owned(), json_clone(&t.input_schema)));
            let tj = Json::Obj(tf);
            proof {
                lemma_fields_of(tf@);
                assert(fields_of(tf@)[0] == (tf@[0].0@, view_json(tf@[0].1)));
                assert(fields_of(tf@)[1] == (tf@[1].0@, view_json(tf@[1].1)));
                assert(fields_of(tf@)[2] == (tf@[2].0@, view_json(tf@[2].1)));
                assert(t@ == spec_tools_config()[i as int]);
                assert(fields_of(tf@) =~= spec_tool_jsonv(spec_tools_config()[i as int])->Obj_0);
            }
            arr.push(tj);
            i = i + 1;
        }
        let mut fields: Vec<(String, Json)> = Vec::new();
        let aj = Json::Arr(arr);
        proof {
            lemma_views_of(aj->Arr_0@);
            let ts = spec_tools_config();
            assert forall|k: int| 0 <= k < ts.len() implies views_of(aj->Arr_0@)[k]
                == ts.map_values(|t: ToolV| spec_tool_jsonv(t))[k] by {
                assert(views_of(aj->Arr_0@)[k] == aj->Arr_0@[k]@);
            }
            assert(views_of(aj->Arr_0@) =~= ts.map_values(|t: ToolV| spec_tool_jsonv(t)));
        }
        fields.push(("tools".to_owned(), aj));
        proof {
            lemma_fields_of(fields@);
            assert(fields_of(fields@)[0] == (fields@[0].0@, view_json(fields@[0].1)));
            assert(fields_of(fields@) =~= spec_tools_list_result(spec_tools_config())->Obj_0);
        }
        Ok(Some(ok_response(request.id, Json::Obj(fields))))
    }

    /// Answer `resources/list`: project every configured resource, in order.
    pub fn handle_resources_list(&self, request: JsonRpcRequest) -> (r: Result<
        Option<McpResponse>,
        String,
    >)
        ensures
            match r {
                Ok(Some(resp)) => is_ok_response(
                    resp,
                    request.id,
                    spec_resources_list_result(spec_resources_config()),
                ),
                _ => false,
            },
    {
        proof {
            use_type_invariant(self);
        }
        let mut arr: Vec<Json> = Vec::new();
        let n = self.resources.len();
        let mut i: usize = 0;
        while i < n
            invariant
                n == self.resources@.len(),
                self@.resources == spec_resources_config(),
                self@.resources =~= self.resources@.map_values(|x: Resource| x@),
                i <= n,
                arr@.len() == i,
                forall|k: int| 0 <= k < i ==> #[trigger] arr@[k]@ == spec_resource_jsonv(
                    spec_resources_config()[k],
                ),
            decreases n - i,
        {
            let x = &self.resources[i];
            let mut xf: Vec<(String, Json)> = Vec::new();
            xf.push(("uri".to_owned(), Json::Str(x.uri.clone())));
            xf.push(("name".to_owned(), Json::Str(x.name.clone())));
            xf.push(("description".to_owned(), Json::Str(x.description.clone())));
            xf.push(("mimeType".to_owned(), Json::Str(x.mime_type.clone())));
            let xj = Json::Obj(xf);
            proof {
                lemma_fields_of(xf@);
                assert(fields_of(xf@)[0] == (xf@[0].0@, view_json(xf@[0].1)));
                assert(fields_of(xf@)[1] == (xf@[1].0@, view_json(xf@[1].1)));
                assert(fields_of(xf@)[2] == (xf@[2].0@, view_json(xf@[2].1)));
                assert(fields_of(xf@)[3] == (xf@[3].0@, view_json(xf@[3].1)));
                assert(x@ == spec_resources_config()[i as int]);
                assert(fields_of(xf@) =~= spec_resource_jsonv(
                    spec_resources_config()[i as int],
                )->Obj_0);
            }
            arr.push(xj);
            i = i + 1;
        }
        let mut fields: Vec<(String, Json)> = Vec::new();
        let aj = Json::Arr(arr);
        proof {
            lemma_views_of(aj->Arr_0@);
            let xs = spec_resources_config();
            assert forall|k: int| 0 <= k < xs.len() implies views_of(aj->Arr_0@)[k]
                == xs.map_values(|x: ResourceV| spec_resource_jsonv(x))[k] by {
                assert(views_of(aj->Arr_0@)[k] == aj->Arr_0@[k]@);
            }
            assert(views_of(aj->Arr_0@) =~= xs.map_values(|x: ResourceV| spec_resource_jsonv(x)));
        }
        fields.push(("resources".to_owned(), aj));
        proof {
            lemma_fields_of(fields@);
            assert(fields_of(fields@)[0] == (fields@[0].0@, view_json(fields@[0].1)));
            assert(fields_of(fields@) =~= spec_resources_list_result(
                spec_resources_config(),
            )->Obj_0);
        }
        Ok(Some(ok_response(request.id, Json::Obj(fields))))
    }

    /// Answer `prompts/list`: project every configured prompt, in order.
    pub fn handle_prompts_list(&self, request: JsonRpcRequest) -> (r: Result<
        Option<McpResponse>,
        String,
    >)
        ensures
            match r {
                Ok(Some(resp)) => is_ok_response(
                    resp,
                    request.id,
                    spec_prompts_list_result(spec_prompts_config()),
                ),
                _ => false,
            },
    {
        proof {
            use_type_invariant(self);
        }
        let mut arr: Vec<Json> = Vec::new();
        let n = self.prompts.len();
        let mut i: usize = 0;
        while i < n
            invariant
                n == self.prompts@.len(),
                self@.prompts == spec_prompts_config(),
                self@.prompts =~= self.prompts@.map_values(|p: Prompt| p@),
                i <= n,
                arr@.len() == i,
                forall|k: int| 0 <= k < i ==> #[trigger] arr@[k]@ == spec_prompt_jsonv(
                    spec_prompts_config()[k],
                ),
            decreases n - i,
        {
            let p = &self.prompts[i];
            let mut pf: Vec<(String, Json)> = Vec::new();
            pf.push(("name".to_owned(), Json::Str(p.name.clone())));
            pf.push(("description".to_owned(), Json::Str(p.description.clone())));
            let pj = Json::Obj(pf);
            proof {
                lemma_fields_of(pf@);
                assert(fields_of(pf@)[0] == (pf@[0].0@, view_json(pf@[0].1)));
                assert(fields_of(pf@)[1] == (pf@[1].0@, view_json(pf@[1].1)));
                assert(p@ == spec_prompts_config()[i as int]);
                assert(fields_of(pf@) =~= spec_prompt_jsonv(spec_prompts_config()[i as int])->Obj_0);
            }
            arr.push(pj);
            i = i + 1;
        }
        let mut fields: Vec<(String, Json)> = Vec::new();
        let aj = Json::Arr(arr);
        proof {
            lemma_views_of(aj->Arr_0@);
            let ps = spec_prompts_config();
            assert forall|k: int| 0 <= k < ps.len() implies views_of(aj->Arr_0@)[k]
                == ps.map_values(|p: PromptV| spec_prompt_jsonv(p))[k] by {
                assert(views_of(aj->Arr_0@)[k] == aj->Arr_0@[k]@);
            }
            assert(views_of(aj->Arr_0@) =~= ps.map_values(|p: PromptV| spec_prompt_jsonv(p)));
        }
        fields.push(("prompts".to_owned(), aj));
        proof {
            lemma_fields_of(fields@);
            assert(fields_of(fields@)[0] == (fields@[0].0@, view_json(fields@[0].1)));
            assert(fields_of(fields@) =~= spec_prompts_list_result(spec_prompts_config())->Obj_0);
        }
        Ok(Some(ok_response(request.id, Json::Obj(fields))))
    }

    /// Answer `tools/call`: validate the parameters, run the named tool,
    /// and wrap its text as a content item.
    pub fn handle_tools_call(&self, request: JsonRpcRequest) -> (r: Result<
        Option<McpResponse>,
        String,
    >)
        ensures
            match r {
                Ok(Some(resp)) => spec_tool_call_outcome(request.params) matches Ok(p)
                    && is_ok_response(resp, request.id, p),
                Ok(None) => false,
                Err(m) => spec_tool_call_outcome(request.params) matches Err(em) && em == m@,
            },
    {
        let p = match request.params {
            Some(p) => p,
            None => {
                return Err("Missing params".to_owned());
            },
        };
        let params = match ToolCallParams::from_json(&p) {
            Ok(tp) => tp,
            Err(m) => {
                return Err(m);
            },
        };
        match self.execute_tool(params.name.as_str(), &params.arguments) {
            Ok(text) => Ok(Some(ok_response(request.id, tool_call_result(text)))),
            Err(m) => Err(m),
        }
    }

    /// Answer `resources/read`: look the URI up and return its content with
    /// the MIME type fixed to `text/plain`.
    pub fn handle_resources_read(&self, request: JsonRpcRequest) -> (r: Result<
        Option<McpResponse>,
        String,
    >)
        ensures
            match r {
                Ok(Some(resp)) => spec_resource_read_outcome(request.params) matches Ok(p)
                    && is_ok_response(resp, request.id, p),
                Ok(None) => false,
                Err(m) => spec_resource_read_outcome(request.params) matches Err(em) && em == m@,
            },
    {
        let p = match request.params {
            Some(p) => p,
            None => {
                return Err("Missing params".to_owned());
            },
        };
        let params = match ResourceReadParams::from_json(&p) {
            Ok(rp) => rp,
            Err(m) => {
                return Err(m);
            },
        };
        match self.read_resource(params.uri.as_str()) {
            Ok(text) => Ok(
                Some(ok_response(request.id, resource_read_result(params.uri, text))),
            ),
            Err(m) => Err(m),
        }
    }

    /// Answer `prompts/get`: look the prompt up by name; its arguments are
    /// accepted but never inspected.
    pub fn handle_prompts_get(&self, request: JsonRpcRequest) -> (r: Result<
        Option<McpResponse>,
        String,
    >)
        ensures
            match r {
                Ok(Some(resp)) => spec_prompt_get_outcome(request.params) matches Ok(p)
                    && is_ok_response(resp, request.id, p),
                Ok(None) => false,
                Err(m) => spec_prompt_get_outcome(request.params) matches Err(em) && em == m@,
            },
    {
        let p = match request.params {
            Some(p) => p,
            None => {
                return Err("Missing params".to_owned());
            },
        };
        let params = match PromptGetParams::from_json(&p) {
            Ok(gp) => gp,
            Err(m) => {
                return Err(m);
            },
        };
        if str_eq(params.name.as_str(), "hello") {
            Ok(
                Some(
                    ok_response(request.id, prompt_get_result("Hello from leap-mcp prompts!")),
                ),
            )
        } else {
            let mut m = "Unknown prompt: ".to_owned();
            m.append(params.name.as_str());
            Err(m)
        }
    }

    /// Acknowledge `initialized`: no response, but announce a list change
    /// for tools, resources and prompts, in that order.
    pub fn handle_initialized(&self) -> (r: Vec<JsonRpcNotification>)
        ensures
            r@.len() == 3,
            r@[0].to_jsonv() == spec_notification("tools/listChanged"@),
            r@[1].to_jsonv() == spec_notification("resources/listChanged"@),
            r@[2].to_jsonv() == spec_notification("prompts/listChanged"@),
    {
        let mut notes: Vec<JsonRpcNotification> = Vec::new();
        notes.push(make_notification("tools/listChanged"));
        notes.push(make_notification("resources/listChanged"));
        notes.push(make_notification("prompts/listChanged"));
        notes
    }

    /// Dispatch one parsed request by its method name: the notifications it
    /// triggers, and its response, or the error the transport reports.
    pub fn handle_request(&self, request: JsonRpcRequest) -> (r: (
        Vec<JsonRpcNotification>,
        Result<Option<McpResponse>, String>,
    ))
        ensures
            notes_jsonv(r.0@) == spec_note_lines(request.method@),
            match r.1 {
                Ok(Some(resp)) => spec_outcome(request.method@, request.params) matches Ok(Some(p))
                    && is_ok_response(resp, request.id, p),
                Ok(None) => spec_outcome(request.method@, request.params) == Ok::<
                    Option<JsonV>,
                    Seq<char>,
                >(None),
                Err(m) => spec_outcome(request.method@, request.params) matches Err(em) && em
                    == m@,
            },
    {
        broadcast use vstd::string::group_string_axioms;

        proof {
            reveal_strlit("initialize");
            reveal_strlit("tools/list");
            reveal_strlit("tools/call");
            reveal_strlit("resources/list");
            reveal_strlit("resources/read");
            reveal_strlit("prompts/list");
            reveal_strlit("prompts/get");
            reveal_strlit("initialized");
            assert("initialized"@.len() == 11);
            assert("initialize"@.len() == 10);
            assert("tools/list"@.len() == 10);
            assert("tools/call"@.len() == 10);
            assert("resources/list"@.len() == 14);
            assert("resources/read"@.len() == 14);
            assert("prompts/list"@.len() == 12);
            assert("prompts/get"@[0] == 'p');
            assert("initialized"@[0] == 'i');
        }
        let mut notes: Vec<JsonRpcNotification> = Vec::new();
        let res: Result<Option<McpResponse>, String> = if str_eq(
            request.method.as_str(),
            "initialize",
        ) {
            self.handle_initialize(request)
        } else if str_eq(request.method.as_str(), "tools/list") {
            self.handle_tools_list(request)
        } else if str_eq(request.method.as_str(), "tools/call") {
            self.handle_tools_call(request)
        } else if str_eq(request.method.as_str(), "resources/list") {
            self.handle_resources_list(request)
        } else if str_eq(request.method.as_str(), "resources/read") {
            self.handle_resources_read(request)
        } else if str_eq(request.method.as_str(), "prompts/list") {
            self.handle_prompts_list(request)
        } else if str_eq(request.method.as_str(), "prompts/get") {
            self.handle_prompts_get(request)
        } else if str_eq(request.method.as_str(), "initialized") {
            notes = self.handle_initialized();
            Ok(None)
        } else {
            let mut m = "Unknown method: ".to_owned();
            m.append(request.method.as_str());
            Err(m)
        };
        proof {
            assert(notes_jsonv(notes@) =~= spec_note_lines(request.method@));
        }
        (notes, res)
    }
}

/// A success envelope on the wire: the tag, the identifier, the result.
pub open spec fn spec_ok_envelope(id: JsonV, result: JsonV) -> JsonV {
    JsonV::Obj(
        seq![("jsonrpc"@, JsonV::Str("2.0"@)), ("id"@, id), ("result"@, result)],
    )
}

/// An error envelope on the wire: the tag, the identifier, the error
/// descriptor, and no result.
pub open spec fn spec_err_envelope(id: JsonV, code: int, message: Seq<char>) -> JsonV {
    JsonV::Obj(
        seq![
            ("jsonrpc"@, JsonV::Str("2.0"@)),
            ("id"@, id),
            ("error"@, error_jsonv(code, message)),
        ],
    )
}

/// The response line a request is owed, if any: none without an identifier,
/// none for `initialized`, and otherwise the result or the internal error.
pub open spec fn spec_response_line(req: JsonRpcRequest) -> Option<JsonV> {
    match req.id {
        None => None,
        Some(id) => match spec_outcome(req.method@, req.params) {
            Ok(Some(payload)) => Some(spec_ok_envelope(id@, payload)),
            Ok(None) => None,
            Err(m) => Some(spec_err_envelope(id@, -32603, "Internal error: "@ + m)),
        },
    }
}

/// Every line a request yields, in order: the `initialized` notifications
/// first, then the response line if one is owed.
pub open spec fn spec_lines(req: JsonRpcRequest) -> Seq<JsonV> {
    match spec_response_line(req) {
        Some(l) => spec_note_lines(req.method@) + seq![l],
        None => spec_note_lines(req.method@),
    }
}

/// The single response a line that cannot be parsed yields: the parse
/// error code, the fixed sentinel identifier, and the parser's diagnostic.
pub fn parse_error_response(diagnostic: &str) -> (r: McpResponse)
    ensures
        r.to_jsonv() == spec_err_envelope(
            JsonV::Str("parse_error"@),
            -32700,
            "Parse error: "@ + diagnostic@,
        ),
        r.result is None,
        r.error matches Some(e) && e.code == -32700 && e.message@ == "Parse error: "@
            + diagnostic@,
        r.id@ == JsonV::Str("parse_error"@),
{
    let mut msg = "Parse error: ".to_owned();
    msg.append(diagnostic);
    let r = McpResponse {
        jsonrpc: "2.0".to_owned(),
        id: Json::Str("parse_error".to_owned()),
        result: None,
        error: Some(McpError { code: -32700, message: msg }),
    };
    proof {
        let tv = r.to_jsonv()->Obj_0;
        assert(tv.len() == 3);
        assert(tv[0] == ("jsonrpc"@, JsonV::Str("2.0"@)));
        assert(tv[1] == ("id"@, r.id@));
        assert(tv[2] == ("error"@, error_jsonv(-32700, "Parse error: "@ + diagnostic@)));
        assert(tv =~~= spec_err_envelope(
            JsonV::Str("parse_error"@),
            -32700,
            "Parse error: "@ + diagnostic@,
        )->Obj_0);
        assert(r.to_jsonv() == spec_err_envelope(
            JsonV::Str("parse_error"@),
            -32700,
            "Parse error: "@ + diagnostic@,
        ));
    }
    r
}

impl McpServer {
    /// Process one parsed request end to end: exactly the lines the
    /// transport must write, in order. A request without an identifier, and
    /// `initialized` always, yields no response line.
    pub fn process_request(&self, request: JsonRpcRequest) -> (r: Vec<Json>)
        ensures
            jsons_view(r@) == spec_lines(request),
    {
        let id_copy: Option<Json> = match &request.id {
            Some(j) => Some(json_clone(j)),
            None => None,
        };
        let (notes, res) = self.handle_request(request);
        let ghost all = notes@;
        let mut notes = notes;
        let mut lines: Vec<Json> = Vec::new();
        while notes.len() > 0
            invariant
                lines@.len() + notes@.len() == all.len(),
                notes@ =~= all.subrange(lines@.len() as int, all.len() as int),
                forall|i: int| 0 <= i < lines@.len() ==> #[trigger] lines@[i]@
                    == all[i].to_jsonv(),
            decreases notes@.len(),
        {
            let ghost done = lines@.len() as int;
            let n = notes.remove(0);
            proof {
                assert(n == all[done]);
                assert(notes@ =~= all.subrange(done + 1, all.len() as int));
            }
            lines.push(n.into_json());
        }
        let ghost note_count = lines@.len();
        match res {
            Ok(Some(resp)) => {
                match id_copy {
                    Some(_) => {
                        proof {
                            let tv = resp.to_jsonv()->Obj_0;
                            assert(tv.len() == 3);
                            assert(tv[0] == ("jsonrpc"@, JsonV::Str(resp.jsonrpc@)));
                            assert(tv[1] == ("id"@, resp.id@));
                            assert(tv[2] == ("result"@, resp.result->0@));
                            assert(tv =~~= spec_ok_envelope(
                                spec_id_of(request.id),
                                spec_outcome(request.method@, request.params)->Ok_0->Some_0,
                            )->Obj_0);
                            assert(resp.to_jsonv() == spec_ok_envelope(
                                spec_id_of(request.id),
                                spec_outcome(request.method@, request.params)->Ok_0->Some_0,
                            ));
                            assert(spec_response_line(request) == Some(resp.to_jsonv()));
                        }
                        lines.push(resp.into_json());
                    },
                    None => (),
                }
            },
            Ok(None) => (),
            Err(m) => {
                match id_copy {
                    Some(idj) => {
                        let mut msg = "Internal error: ".to_owned();
                        msg.append(m.as_str());
                        let resp = McpResponse {
                            jsonrpc: "2.0".to_owned(),
                            id: idj,
                            result: None,
                            error: Some(McpError { code: -32603, message: msg }),
                        };
                        proof {
                            let tv = resp.to_jsonv()->Obj_0;
                            assert(tv.len() == 3);
                            assert(tv[0] == ("jsonrpc"@, JsonV::Str("2.0"@)));
                            assert(tv[1] == ("id"@, resp.id@));
                            assert(tv[2] == ("error"@, error_jsonv(-32603, msg@)));
                            assert(tv =~~= spec_err_envelope(
                                spec_id_of(request.id),
                                -32603,
                                "Internal error: "@ + spec_outcome(
                                    request.method@,
                                    request.params,
                                )->Err_0,
                            )->Obj_0);
                            assert(resp.to_jsonv() == spec_err_envelope(
                                spec_id_of(request.id),
                                -32603,
                                "Internal error: "@ + spec_outcome(
                                    request.method@,
                                    request.params,
                                )->Err_0,
                            ));
                            assert(spec_response_line(request) == Some(resp.to_jsonv()));
                        }
                        lines.push(resp.into_json());
                    },
                    None => (),
                }
            },
        }
        proof {
            let sl = spec_lines(request);
            let np = spec_note_lines(request.method@);
            assert(np == notes_jsonv(all));
            assert(np.len() == all.len());
            assert forall|i: int| 0 <= i < note_count implies #[trigger] jsons_view(lines@)[i]
                == np[i] by {
                assert(lines@[i]@ == all[i].to_jsonv());
                assert(np[i] == notes_jsonv(all)[i]);
            }
            if lines@.len() > note_count {
                assert(jsons_view(lines@)[note_count as int] == lines@[note_count as int]@);
            }
            assert(jsons_view(lines@) =~= sl);
        }
        lines
    }
}

fn tool_call_result(text: String) -> (r: Json)
    ensures
        r@ == spec_tool_call_result(text@),
{
    let mut item: Vec<(String, Json)> = Vec::new();
    item.push(("type".to_owned(), Json::Str("text".to_owned())));
    item.push(("text".to_owned(), Json::Str(text)));
    proof {
        lemma_fields_of(item@);
        assert(fields_of(item@)[0] == (item@[0].0@, view_json(item@[0].1)));
        assert(fields_of(item@)[1] == (item@[1].0@, view_json(item@[1].1)));
        assert(fields_of(item@) =~= spec_tool_call_result(text@)->Obj_0[0].1->Arr_0[0]->Obj_0);
    }
    let mut content: Vec<Json> = Vec::new();
    content.push(Json::Obj(item));
    proof {
        lemma_views_of(content@);
        assert(views_of(content@)[0] == view_json(content@[0]));
        assert(views_of(content@) =~= spec_tool_call_result(text@)->Obj_0[0].1->Arr_0);
    }
    let mut fields: Vec<(String, Json)> = Vec::new();
    fields.push(("content".to_owned(), Json::Arr(content)));
    fields.push(("isError".to_owned(), Json::Bool(false)));
    proof {
        lemma_fields_of(fields@);
        assert(fields_of(fields@)[0] == (fields@[0].0@, view_json(fields@[0].1)));
        assert(fields_of(fields@)[1] == (fields@[1].0@, view_json(fields@[1].1)));
        assert(fields_of(fields@) =~= spec_tool_call_result(text@)->Obj_0);
    }
    Json::Obj(fields)
}

fn resource_read_result(uri: String, text: String) -> (r: Json)
    ensures
        r@ == spec_resource_read_result(uri@, text@),
{
    let mut item: Vec<(String, Json)> = Vec::new();
    item.push(("uri".to_owned(), Json::Str(uri)));
    item.push(("mimeType".to_owned(), Json::Str("text/plain".to_owned())));
    item.push(("text".to_owned(), Json::Str(text)));
    proof {
        lemma_fields_of(item@);
        assert(fields_of(item@)[0] == (item@[0].0@, view_json(item@[0].1)));
        assert(fields_of(item@)[1] == (item@[1].0@, view_json(item@[1].1)));
        assert(fields_of(item@)[2] == (item@[2].0@, view_json(item@[2].1)));
        assert(fields_of(item@) =~= spec_resource_read_result(uri@, text@)->Obj_0[0].1->Arr_0[0]
            ->Obj_0);
    }
    let mut contents: Vec<Json> = Vec::new();
    contents.push(Json::Obj(item));
    proof {
        lemma_views_of(contents@);
        assert(views_of(contents@)[0] == view_json(contents@[0]));
        assert(views_of(contents@) =~= spec_resource_read_result(uri@, text@)->Obj_0[0].1->Arr_0);
    }
    let mut fields: Vec<(String, Json)> = Vec::new();
    fields.push(("contents".to_owned(), Json::Arr(contents)));
    proof {
        lemma_fields_of(fields@);
        assert(fields_of(fields@)[0] == (fields@[0].0@, view_json(fields@[0].1)));
        assert(fields_of(fields@) =~= spec_resource_read_result(uri@, text@)->Obj_0);
    }
    Json::Obj(fields)
}

fn prompt_get_result(text: &str) -> (r: Json)
    ensures
        r@ == spec_prompt_get_result(text@),
{
    let mut item: Vec<(String, Json)> = Vec::new();
    item.push(("type".to_owned(), Json::Str("text".to_owned())));
    item.push(("text".to_owned(), Json::Str(text.to_owned())));
    proof {
        lemma_fields_of(item@);
        assert(fields_of(item@)[0] == (item@[0].0@, view_json(item@[0].1)));
        assert(fields_of(item@)[1] == (item@[1].0@, view_json(item@[1].1)));
        assert(fields_of(item@) =~= spec_prompt_get_result(text@)->Obj_0[0].1->Arr_0[0]->Obj_0[1].1
            ->Arr_0[0]->Obj_0);
    }
    let mut content: Vec<Json> = Vec::new();
    content.push(Json::Obj(item));
    proof {
        lemma_views_of(content@);
        assert(views_of(content@)[0] == view_json(content@[0]));
        assert(views_of(content@) =~= spec_prompt_get_result(text@)->Obj_0[0].1->Arr_0[0]->Obj_0[1]
            .1->Arr_0);
    }
    let mut msg: Vec<(String, Json)> = Vec::new();
    msg.push(("role".to_owned(), Json::Str("user".to_owned())));
    msg.push(("content".to_owned(), Json::Arr(content)));
    proof {
        lemma_fields_of(msg@);
        assert(fields_of(msg@)[0] == (msg@[0].0@, view_json(msg@[0].1)));
        assert(fields_of(msg@)[1] == (msg@[1].0@, view_json(msg@[1].1)));
        assert(fields_of(msg@) =~= spec_prompt_get_result(text@)->Obj_0[0].1->Arr_0[0]->Obj_0);
    }
    let mut messages: Vec<Json> = Vec::new();
    messages.push(Json::Obj(msg));
    proof {
        lemma_views_of(messages@);
        assert(views_of(messages@)[0] == view_json(messages@[0]));
        assert(views_of(messages@) =~= spec_prompt_get_result(text@)->Obj_0[0].1->Arr_0);
    }
    let mut fields: Vec<(String, Json)> = Vec::new();
    fields.push(("messages".to_owned(), Json::Arr(messages)));
    proof {
        lemma_fields_of(fields@);
        assert(fields_of(fields@)[0] == (fields@[0].0@, view_json(fields@[0].1)));
        assert(fields_of(fields@) =~= spec_prompt_get_result(text@)->Obj_0);
    }
    Json::Obj(fields)
}

} // verus!
