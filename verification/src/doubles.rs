//! The `add` tool works on IEEE double-precision numbers, which the verified
//! code cannot hold directly. What the handlers need of a double is only the
//! text it renders to, so the outside calls return rendered text whose
//! content is named but not interpreted.

use vstd::prelude::*;

verus! {

pub uninterp spec fn double_render(s: Seq<char>) -> Option<Seq<char>>;

pub uninterp spec fn double_sum_render(a: Seq<char>, b: Seq<char>) -> Seq<char>;

/// Relies on serde_json's number parsing, its `as_f64` coercion and the
/// host's default double formatting: the text the double denoted by a JSON
/// number token renders to, or `None` when the token does not denote one.
#[verifier::external_body]
pub fn render_token_double(s: &str) -> (r: Option<String>)
    ensures
        match r {
            Some(t) => double_render(s@) == Some(t@),
            None => double_render(s@) is None,
        },
{
    match serde_json::from_str::<serde_json::Number>(s) {
        Ok(n) => n.as_f64().map(|x| format!("{}", x)),
        Err(_) => None,
    }
}

/// Relies on serde_json's number parsing, its `as_f64` coercion, the host's
/// double addition and its default double formatting: the text the sum of
/// the doubles denoted by two JSON number tokens renders to. The result is
/// `Some` exactly when both tokens denote doubles, that is, exactly when
/// `render_token_double` succeeds on both.
#[verifier::external_body]
pub fn render_sum(a: &str, b: &str) -> (r: Option<String>)
    ensures
        r is Some <==> (double_render(a@) is Some && double_render(b@) is Some),
        r matches Some(t) ==> t@ == double_sum_render(a@, b@),
{
    let x = match serde_json::from_str::<serde_json::Number>(a) {
        Ok(n) => n.as_f64(),
        Err(_) => None,
    };
    let y = match serde_json::from_str::<serde_json::Number>(b) {
        Ok(n) => n.as_f64(),
        Err(_) => None,
    };
    match (x, y) {
        (Some(p), Some(q)) => Some(format!("{}", p + q)),
        _ => None,
    }
}

} // verus!
