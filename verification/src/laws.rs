//! The protocol's cross-cutting guarantees, stated and proved over the
//! dispatch and envelope specifications.

use vstd::prelude::*;

use crate::doubles::{double_render, double_sum_render};
use crate::json::{vobj_get, Json, JsonV};
use crate::server::{
    spec_execute_tool, spec_err_envelope, spec_lines, spec_notification, spec_ok_envelope,
    spec_outcome, spec_response_line, spec_tools_config, spec_tools_list_result,
};
use crate::types::{error_jsonv, JsonRpcRequest};

verus! {

/// Running `echo` with any string message yields `Echo: ` followed by
/// that message, verbatim.
pub proof fn law_echo(args: Seq<(Seq<char>, JsonV)>, m: Seq<char>)
    requires
        vobj_get(args, "message"@) == Some(JsonV::Str(m)),
    ensures
        spec_execute_tool("echo"@, args) == Ok::<Seq<char>, Seq<char>>("Echo: "@ + m),
{
}

/// With the message `hi`, the `echo` result text is exactly `Echo: hi`.
pub proof fn law_echo_hi(args: Seq<(Seq<char>, JsonV)>)
    requires
        vobj_get(args, "message"@) == Some(JsonV::Str("hi"@)),
    ensures
        spec_execute_tool("echo"@, args) == Ok::<Seq<char>, Seq<char>>("Echo: hi"@),
{
    reveal_strlit("Echo: ");
    reveal_strlit("hi");
    reveal_strlit("Echo: hi");
    assert("Echo: "@ + "hi"@ =~= "Echo: hi"@);
}

/// Running `add` on two number arguments that denote doubles yields the
/// rendering of the first, ` + `, the rendering of the second, ` = `, and
/// the rendering of their sum.
pub proof fn law_add(
    args: Seq<(Seq<char>, JsonV)>,
    ta: Seq<char>,
    tb: Seq<char>,
    ra: Seq<char>,
    rb: Seq<char>,
)
    requires
        vobj_get(args, "a"@) == Some(JsonV::Num(ta)),
        vobj_get(args, "b"@) == Some(JsonV::Num(tb)),
        double_render(ta) == Some(ra),
        double_render(tb) == Some(rb),
    ensures
        spec_execute_tool("add"@, args) == Ok::<Seq<char>, Seq<char>>(
            ra + " + "@ + rb + " = "@ + double_sum_render(ta, tb),
        ),
{
    reveal_strlit("echo");
    reveal_strlit("add");
    assert("echo"@.len() == 4);
    assert("add"@.len() == 3);
}

/// A tool name other than `echo` and `add` always fails as unknown.
pub proof fn law_unknown_tool(name: Seq<char>, args: Seq<(Seq<char>, JsonV)>)
    requires
        name != "echo"@,
        name != "add"@,
    ensures
        spec_execute_tool(name, args) == Err::<Seq<char>, Seq<char>>("Unknown tool: "@ + name),
{
}

/// `tools/list` answers with exactly the statically configured tool set in
/// configuration order, whatever the parameters; and since no request can
/// change a server, this holds whatever came before.
pub proof fn law_tools_list_fixed(method: Seq<char>, params: Option<Json>)
    requires
        method == "tools/list"@,
    ensures
        spec_outcome(method, params) == Ok::<Option<JsonV>, Seq<char>>(
            Some(spec_tools_list_result(spec_tools_config())),
        ),
{
    reveal_strlit("tools/list");
    reveal_strlit("initialize");
    assert("tools/list"@[0] == 't');
    assert("initialize"@[0] == 'i');
}

/// A request with an identifier and a method other than `initialized` is
/// always owed a response line, and that line carries the request's own
/// identifier, whether it reports a result or an error.
pub proof fn law_response_id(req: JsonRpcRequest)
    requires
        req.id matches Some(..),
        req.method@ != "initialized"@,
    ensures
        spec_response_line(req) matches Some(line) && vobj_get(line->Obj_0, "id"@) == Some(
            req.id->0@,
        ),
{
    reveal_with_fuel(vobj_get, 5);
    reveal_strlit("jsonrpc");
    reveal_strlit("id");
    assert("jsonrpc"@.len() == 7);
    assert("id"@.len() == 2);
    let id = req.id->0;
    match spec_outcome(req.method@, req.params) {
        Ok(Some(payload)) => {
            let line = spec_ok_envelope(id@, payload);
            assert(vobj_get(line->Obj_0, "id"@) == Some(id@));
        },
        Ok(None) => {
            assert(false);
        },
        Err(m) => {
            let line = spec_err_envelope(id@, -32603, "Internal error: "@ + m);
            assert(vobj_get(line->Obj_0, "id"@) == Some(id@));
        },
    }
}

/// A request with no identifier, or with method `initialized`, yields no
/// response line; `initialized` always yields exactly the three
/// list-change notifications, in that order, and nothing else.
pub proof fn law_notifications(req: JsonRpcRequest)
    ensures
        req.id is None || req.method@ == "initialized"@ ==> spec_response_line(req) is None,
        req.method@ == "initialized"@ ==> spec_lines(req) =~= seq![
            spec_notification("tools/listChanged"@),
            spec_notification("resources/listChanged"@),
            spec_notification("prompts/listChanged"@),
        ],
        req.id is None && req.method@ != "initialized"@ ==> spec_lines(req) =~= Seq::<
            JsonV,
        >::empty(),
{
    reveal_strlit("initialize");
    reveal_strlit("tools/list");
    reveal_strlit("tools/call");
    reveal_strlit("resources/list");
    reveal_strlit("resources/read");
    reveal_strlit("prompts/list");
    reveal_strlit("prompts/get");
    reveal_strlit("initialized");
    assert("initialized"@.len() == 11);
    assert("initialize"@.len() == 10);
    assert("tools/list"@.len() == 10);
    assert("tools/call"@.len() == 10);
    assert("resources/list"@.len() == 14);
    assert("resources/read"@.len() == 14);
    assert("prompts/list"@.len() == 12);
    assert("prompts/get"@[0] == 'p');
    assert("initialized"@[0] == 'i');
}

/// A handler failure on a request with an identifier surfaces as exactly
/// one internal-error envelope: the reserved code, the wrapped message,
/// and no result field at all.
pub proof fn law_error_envelope(req: JsonRpcRequest, m: Seq<char>)
    requires
        req.id matches Some(..),
        spec_outcome(req.method@, req.params) == Err::<Option<JsonV>, Seq<char>>(m),
    ensures
        spec_response_line(req) matches Some(line) && vobj_get(line->Obj_0, "error"@) == Some(
            error_jsonv(-32603, "Internal error: "@ + m),
        ) && vobj_get(line->Obj_0, "result"@) is None,
{
    reveal_with_fuel(vobj_get, 5);
    reveal_strlit("jsonrpc");
    reveal_strlit("id");
    reveal_strlit("error");
    reveal_strlit("result");
    assert("jsonrpc"@.len() == 7);
    assert("id"@.len() == 2);
    assert("error"@.len() == 5);
    assert("result"@.len() == 6);
    let id = req.id->0;
    let line = spec_err_envelope(id@, -32603, "Internal error: "@ + m);
    assert(vobj_get(line->Obj_0, "error"@) == Some(error_jsonv(-32603, "Internal error: "@ + m)));
    assert(vobj_get(line->Obj_0, "result"@) is None);
}

} // verus!
