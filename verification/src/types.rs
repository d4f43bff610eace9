//! The protocol's envelopes, the descriptors of the static tables, and the
//! parameter records each handler reads out of a request, with verified
//! parsers mirroring what the wire format requires of them.

use vstd::prelude::*;

use crate::json::{
    clone_fields, fields_of, lemma_fields_of, lemma_obj_get_view, lookup_field, json_clone,
    view_json, vobj_get, Json, JsonV,
};
use crate::text::{dec_int, i64_to_string};

verus! {

/// One line read from the wire: the protocol tag, an optional correlation
/// identifier, the method name, and optional parameters.
#[derive(Debug, PartialEq)]
pub struct JsonRpcRequest {
    pub jsonrpc: String,
    pub id: Option<Json>,
    pub method: String,
    pub params: Option<Json>,
}

/// A protocol error: a reserved negative code and a descriptive message.
#[derive(Debug, PartialEq)]
pub struct McpError {
    pub code: i32,
    pub message: String,
}

/// One response line: the echoed identifier and exactly one of a result
/// payload or an error descriptor.
#[derive(Debug, PartialEq)]
pub struct McpResponse {
    pub jsonrpc: String,
    pub id: Json,
    pub result: Option<Json>,
    pub error: Option<McpError>,
}

/// A one-way server-to-caller line: no identifier, no reply expected.
#[derive(Debug, PartialEq)]
pub struct JsonRpcNotification {
    pub jsonrpc: String,
    pub method: String,
    pub params: Json,
}

/// A tool descriptor of the static table.
#[derive(Debug, PartialEq)]
pub struct Tool {
    pub name: String,
    pub description: String,
    pub input_schema: Json,
}

/// A resource descriptor of the static table.
#[derive(Debug, PartialEq)]
pub struct Resource {
    pub uri: String,
    pub name: String,
    pub description: String,
    pub mime_type: String,
}

/// A prompt descriptor of the static table.
#[derive(Debug, PartialEq)]
pub struct Prompt {
    pub name: String,
    pub description: String,
}

/// The shape of an error descriptor on the wire.
pub open spec fn error_jsonv(code: int, message: Seq<char>) -> JsonV {
    JsonV::Obj(
        seq![
            ("code"@, JsonV::Num(dec_int(code))),
            ("message"@, JsonV::Str(message)),
        ],
    )
}

impl McpResponse {
    /// The line this response serializes to: the tag, the identifier, then
    /// the result if one is present, then the error if one is present.
    pub open spec fn to_jsonv(self) -> JsonV {
        JsonV::Obj(
            seq![("jsonrpc"@, JsonV::Str(self.jsonrpc@)), ("id"@, self.id@)] + (match self.result {
                Some(r) => seq![("result"@, r@)],
                None => Seq::empty(),
            }) + (match self.error {
                Some(e) => seq![("error"@, error_jsonv(e.code as int, e.message@))],
                None => Seq::empty(),
            }),
        )
    }

    /// The response as a JSON value, ready for the wire.
    pub fn into_json(self) -> (r: Json)
        ensures
            r@ == self.to_jsonv(),
    {
        let McpResponse { jsonrpc, id, result, error } = self;
        let mut fields: Vec<(String, Json)> = Vec::new();
        fields.push(("jsonrpc".to_owned(), Json::Str(jsonrpc)));
        fields.push(("id".to_owned(), id));
        match result {
            Some(r) => fields.push(("result".to_owned(), r)),
            None => (),
        }
        match error {
            Some(e) => {
                let mut efields: Vec<(String, Json)> = Vec::new();
                efields.push(("code".to_owned(), Json::Num(i64_to_string(e.code as i64))));
                efields.push(("message".to_owned(), Json::Str(e.message)));
                proof {
                    lemma_fields_of(efields@);
                    let ev = error_jsonv(e.code as int, e.message@)->Obj_0;
                    assert(fields_of(efields@)[0] == (efields@[0].0@, view_json(efields@[0].1)));
                    assert(fields_of(efields@)[1] == (efields@[1].0@, view_json(efields@[1].1)));
                    assert(fields_of(efields@) =~~= ev);
                }
                fields.push(("error".to_owned(), Json::Obj(efields)));
            },
            None => (),
        }
        proof {
            lemma_fields_of(fields@);
            let fs = fields@;
            assert forall|i: int| 0 <= i < fs.len() implies fields_of(fs)[i] == ((#[trigger] fields_of(
                fs,
            )[i]).0, fields_of(fs)[i].1) && fields_of(fs)[i] == (fs[i].0@, view_json(fs[i].1)) by {
                assert(fields_of(fs)[i] == (fs[i].0@, view_json(fs[i].1)));
            }
            assert(fields_of(fields@) =~~= self.to_jsonv()->Obj_0);
        }
        Json::Obj(fields)
    }
}

impl JsonRpcNotification {
    /// The line this notification serializes to.
    pub open spec fn to_jsonv(self) -> JsonV {
        JsonV::Obj(
            seq![
                ("jsonrpc"@, JsonV::Str(self.jsonrpc@)),
                ("method"@, JsonV::Str(self.method@)),
                ("params"@, self.params@),
            ],
        )
    }

    /// The notification as a JSON value, ready for the wire.
    pub fn into_json(self) -> (r: Json)
        ensures
            r@ == self.to_jsonv(),
    {
        let JsonRpcNotification { jsonrpc, method, params } = self;
        let mut fields: Vec<(String, Json)> = Vec::new();
        fields.push(("jsonrpc".to_owned(), Json::Str(jsonrpc)));
        fields.push(("method".to_owned(), Json::Str(method)));
        fields.push(("params".to_owned(), params));
        proof {
            lemma_fields_of(fields@);
            let fs = fields@;
            assert(fields_of(fs)[0] == (fs[0].0@, view_json(fs[0].1)));
            assert(fields_of(fs)[1] == (fs[1].0@, view_json(fs[1].1)));
            assert(fields_of(fs)[2] == (fs[2].0@, view_json(fs[2].1)));
            assert(fields_of(fields@) =~~= self.to_jsonv()->Obj_0);
        }
        Json::Obj(fields)
    }
}

/// The client identification sent with `initialize`.
#[derive(Debug, PartialEq)]
pub struct ClientInfo {
    pub name: String,
    pub version: String,
}

#[verifier::ext_equal]
pub struct ClientInfoV {
    pub name: Seq<char>,
    pub version: Seq<char>,
}

impl View for ClientInfo {
    type V = ClientInfoV;

    open spec fn view(&self) -> ClientInfoV {
        ClientInfoV { name: self.name@, version: self.version@ }
    }
}

/// The parameters of `initialize`: the client's declared protocol version,
/// its capability flags, and an optional identification.
#[derive(Debug, PartialEq)]
pub struct InitializeParams {
    pub protocol_version: String,
    pub capabilities: Vec<(String, Json)>,
    pub client_info: Option<ClientInfo>,
}

#[verifier::ext_equal]
pub struct InitializeParamsV {
    pub protocol_version: Seq<char>,
    pub capabilities: Seq<(Seq<char>, JsonV)>,
    pub client_info: Option<ClientInfoV>,
}

impl View for InitializeParams {
    type V = InitializeParamsV;

    open spec fn view(&self) -> InitializeParamsV {
        InitializeParamsV {
            protocol_version: self.protocol_version@,
            capabilities: fields_of(self.capabilities@),
            client_info: match self.client_info {
                Some(c) => Some(c@),
                None => None,
            },
        }
    }
}

/// The parameters of `tools/call`: the tool's name and its arguments.
#[derive(Debug, PartialEq)]
pub struct ToolCallParams {
    pub name: String,
    pub arguments: Vec<(String, Json)>,
}

#[verifier::ext_equal]
pub struct ToolCallParamsV {
    pub name: Seq<char>,
    pub arguments: Seq<(Seq<char>, JsonV)>,
}

impl View for ToolCallParams {
    type V = ToolCallParamsV;

    open spec fn view(&self) -> ToolCallParamsV {
        ToolCallParamsV { name: self.name@, arguments: fields_of(self.arguments@) }
    }
}

/// The parameters of `resources/read`: the resource's URI.
#[derive(Debug, PartialEq)]
pub struct ResourceReadParams {
    pub uri: String,
}

/// The parameters of `prompts/get`: the prompt's name and free-form
/// arguments that are accepted but never inspected.
#[derive(Debug, PartialEq)]
pub struct PromptGetParams {
    pub name: String,
    pub arguments: Option<Json>,
}

/// What parsing `initialize` parameters yields for each parameter value.
pub open spec fn spec_parse_initialize(p: JsonV) -> Result<InitializeParamsV, Seq<char>> {
    match p {
        JsonV::Obj(fs) => match vobj_get(fs, "protocolVersion"@) {
            Some(JsonV::Str(pv)) => match vobj_get(fs, "capabilities"@) {
                Some(JsonV::Obj(caps)) => match vobj_get(fs, "clientInfo"@) {
                    None => Ok(
                        InitializeParamsV {
                            protocol_version: pv,
                            capabilities: caps,
                            client_info: None,
                        },
                    ),
                    Some(JsonV::Null) => Ok(
                        InitializeParamsV {
                            protocol_version: pv,
                            capabilities: caps,
                            client_info: None,
                        },
                    ),
                    Some(JsonV::Obj(cfs)) => match (
                        vobj_get(cfs, "name"@),
                        vobj_get(cfs, "version"@),
                    ) {
                        (Some(JsonV::Str(n)), Some(JsonV::Str(v))) => Ok(
                            InitializeParamsV {
                                protocol_version: pv,
                                capabilities: caps,
                                client_info: Some(ClientInfoV { name: n, version: v }),
                            },
                        ),
                        _ => Err("invalid field `clientInfo`"@),
                    },
                    Some(_) => Err("invalid field `clientInfo`"@),
                },
                Some(_) => Err("invalid field `capabilities`"@),
                None => Err("missing field `capabilities`"@),
            },
            Some(_) => Err("invalid field `protocolVersion`"@),
            None => Err("missing field `protocolVersion`"@),
        },
        _ => Err("invalid params"@),
    }
}

/// What parsing `tools/call` parameters yields for each parameter value.
pub open spec fn spec_parse_tool_call(p: JsonV) -> Result<ToolCallParamsV, Seq<char>> {
    match p {
        JsonV::Obj(fs) => match vobj_get(fs, "name"@) {
            Some(JsonV::Str(n)) => match vobj_get(fs, "arguments"@) {
                Some(JsonV::Obj(args)) => Ok(ToolCallParamsV { name: n, arguments: args }),
                Some(_) => Err("invalid field `arguments`"@),
                None => Err("missing field `arguments`"@),
            },
            Some(_) => Err("invalid field `name`"@),
            None => Err("missing field `name`"@),
        },
        _ => Err("invalid params"@),
    }
}

/// What parsing `resources/read` parameters yields: the URI.
pub open spec fn spec_parse_resource_read(p: JsonV) -> Result<Seq<char>, Seq<char>> {
    match p {
        JsonV::Obj(fs) => match vobj_get(fs, "uri"@) {
            Some(JsonV::Str(u)) => Ok(u),
            Some(_) => Err("invalid field `uri`"@),
            None => Err("missing field `uri`"@),
        },
        _ => Err("invalid params"@),
    }
}

/// What parsing `prompts/get` parameters yields: the prompt name.
pub open spec fn spec_parse_prompt_get(p: JsonV) -> Result<Seq<char>, Seq<char>> {
    match p {
        JsonV::Obj(fs) => match vobj_get(fs, "name"@) {
            Some(JsonV::Str(n)) => Ok(n),
            Some(_) => Err("invalid field `name`"@),
            None => Err("missing field `name`"@),
        },
        _ => Err("invalid params"@),
    }
}

impl InitializeParams {
    /// Read the record out of a parameter value.
    pub fn from_json(p: &Json) -> (r: Result<InitializeParams, String>)
        ensures
            match r {
                Ok(ip) => spec_parse_initialize(p@) == Ok::<InitializeParamsV, Seq<char>>(ip@),
                Err(m) => spec_parse_initialize(p@) == Err::<InitializeParamsV, Seq<char>>(m@),
            },
    {
        match p {
            Json::Obj(fields) => {
                proof {
                    lemma_obj_get_view(fields@, "protocolVersion"@);
                    lemma_obj_get_view(fields@, "capabilities"@);
                    lemma_obj_get_view(fields@, "clientInfo"@);
                }
                let protocol_version = match lookup_field(fields, "protocolVersion") {
                    Some(Json::Str(s)) => s.clone(),
                    Some(_) => {
                        return Err("invalid field `protocolVersion`".to_owned());
                    },
                    None => {
                        return Err("missing field `protocolVersion`".to_owned());
                    },
                };
                let capabilities = match lookup_field(fields, "capabilities") {
                    Some(Json::Obj(v)) => clone_fields(v),
                    Some(_) => {
                        return Err("invalid field `capabilities`".to_owned());
                    },
                    None => {
                        return Err("missing field `capabilities`".to_owned());
                    },
                };
                let client_info = match lookup_field(fields, "clientInfo") {
                    None => None,
                    Some(Json::Null) => None,
                    Some(Json::Obj(cf)) => {
                        proof {
                            lemma_obj_get_view(cf@, "name"@);
                            lemma_obj_get_view(cf@, "version"@);
                        }
                        let n = match lookup_field(cf, "name") {
                            Some(Json::Str(s)) => s.clone(),
                            _ => {
                                return Err("invalid field `clientInfo`".to_owned());
                            },
                        };
                        let v = match lookup_field(cf, "version") {
                            Some(Json::Str(s)) => s.clone(),
                            _ => {
                                return Err("invalid field `clientInfo`".to_owned());
                            },
                        };
                        Some(ClientInfo { name: n, version: v })
                    },
                    Some(_) => {
                        return Err("invalid field `clientInfo`".to_owned());
                    },
                };
                Ok(InitializeParams { protocol_version, capabilities, client_info })
            },
            _ => Err("invalid params".to_owned()),
        }
    }
}

impl ToolCallParams {
    /// Read the record out of a parameter value.
    pub fn from_json(p: &Json) -> (r: Result<ToolCallParams, String>)
        ensures
            match r {
                Ok(tp) => spec_parse_tool_call(p@) == Ok::<ToolCallParamsV, Seq<char>>(tp@),
                Err(m) => spec_parse_tool_call(p@) == Err::<ToolCallParamsV, Seq<char>>(m@),
            },
    {
        match p {
            Json::Obj(fields) => {
                proof {
                    lemma_obj_get_view(fields@, "name"@);
                    lemma_obj_get_view(fields@, "arguments"@);
                }
                let name = match lookup_field(fields, "name") {
                    Some(Json::Str(s)) => s.clone(),
                    Some(_) => {
                        return Err("invalid field `name`".to_owned());
                    },
                    None => {
                        return Err("missing field `name`".to_owned());
                    },
                };
                let arguments = match lookup_field(fields, "arguments") {
                    Some(Json::Obj(v)) => clone_fields(v),
                    Some(_) => {
                        return Err("invalid field `arguments`".to_owned());
                    },
                    None => {
                        return Err("missing field `arguments`".to_owned());
                    },
                };
                Ok(ToolCallParams { name, arguments })
            },
            _ => Err("invalid params".to_owned()),
        }
    }
}

impl ResourceReadParams {
    /// Read the record out of a parameter value.
    pub fn from_json(p: &Json) -> (r: Result<ResourceReadParams, String>)
        ensures
            match r {
                Ok(rp) => spec_parse_resource_read(p@) == Ok::<Seq<char>, Seq<char>>(rp.uri@),
                Err(m) => spec_parse_resource_read(p@) == Err::<Seq<char>, Seq<char>>(m@),
            },
    {
        match p {
            Json::Obj(fields) => {
                proof {
                    lemma_obj_get_view(fields@, "uri"@);
                }
                match lookup_field(fields, "uri") {
                    Some(Json::Str(s)) => Ok(ResourceReadParams { uri: s.clone() }),
                    Some(_) => Err("invalid field `uri`".to_owned()),
                    None => Err("missing field `uri`".to_owned()),
                }
            },
            _ => Err("invalid params".to_owned()),
        }
    }
}

impl PromptGetParams {
    /// Read the record out of a parameter value. The arguments are kept but
    /// never inspected.
    pub fn from_json(p: &Json) -> (r: Result<PromptGetParams, String>)
        ensures
            match r {
                Ok(gp) => spec_parse_prompt_get(p@) == Ok::<Seq<char>, Seq<char>>(gp.name@),
                Err(m) => spec_parse_prompt_get(p@) == Err::<Seq<char>, Seq<char>>(m@),
            },
    {
        match p {
            Json::Obj(fields) => {
                proof {
                    lemma_obj_get_view(fields@, "name"@);
                    lemma_obj_get_view(fields@, "arguments"@);
                }
                let name = match lookup_field(fields, "name") {
                    Some(Json::Str(s)) => s.clone(),
                    Some(_) => {
                        return Err("invalid field `name`".to_owned());
                    },
                    None => {
                        return Err("missing field `name`".to_owned());
                    },
                };
                let arguments = match lookup_field(fields, "arguments") {
                    Some(v) => Some(json_clone(v)),
                    None => None,
                };
                Ok(PromptGetParams { name, arguments })
            },
            _ => Err("invalid params".to_owned()),
        }
    }
}

} // verus!
