use vstd::prelude::*;

use crate::browser_cli::cat2;
use crate::browser_cli::cat3;
use crate::text::owned;
use crate::text::starts_with_seq;
use crate::text::strip_prefix;
use crate::text::trim;
use crate::text::trim_seq;

verus! {

// ---------------------------------------------------------------------------
// Model-visible names of app connector tools
// ---------------------------------------------------------------------------

/// `value` without the prefix `p`, when it has that prefix and something
/// follows it.
pub open spec fn strip_nonempty(value: Seq<char>, p: Seq<char>) -> Option<Seq<char>> {
    if starts_with_seq(value, p) && value.len() > p.len() {
        Some(value.subrange(p.len() as int, value.len() as int))
    } else {
        None
    }
}

fn strip_prefix_nonempty<'a>(value: &'a str, p: &str) -> (r: Option<&'a str>)
    ensures
        match r {
            Some(t) => strip_nonempty(value@, p@) == Some(t@),
            None => strip_nonempty(value@, p@) is None,
        },
{
    match strip_prefix(value, p) {
        Some(rest) => if rest.unicode_len() > 0 {
            Some(rest)
        } else {
            None
        },
        None => None,
    }
}

/// The title of a tool without its connector's `name_` prefix: the connector
/// name is trimmed, and an empty one, a missing one, or a title that is only
/// the prefix leaves the title as it is.
pub open spec fn tool_title_spec(connector_name: Option<Seq<char>>, value: Seq<char>) -> Seq<char> {
    match connector_name {
        Some(n) if trim_seq(n).len() > 0 => match strip_nonempty(value, trim_seq(n) + "_"@) {
            Some(t) => t,
            None => value,
        },
        _ => value,
    }
}

pub fn normalize_codex_apps_tool_title(connector_name: Option<&str>, value: &str) -> (r: String)
    ensures
        r@ == tool_title_spec(
            match connector_name {
                Some(n) => Some(n@),
                None => None,
            },
            value@,
        ),
{
    match connector_name {
        Some(n) => {
            let name = trim(n);
            if name.unicode_len() == 0 {
                return owned(value);
            }
            let prefix = cat2(name, "_");
            match strip_prefix_nonempty(value, prefix.as_str()) {
                Some(t) => owned(t),
                None => owned(value),
            }
        },
        None => owned(value),
    }
}

/// The callable name of a tool, from the already sanitized tool name and the
/// sanitized (trimmed) connector name and id: the connector name's prefix
/// is dropped when something follows it, else the connector id's, else the
/// name stays. Empty connector names and ids are ignored.
pub open spec fn callable_name_spec(
    tool_name: Seq<char>,
    connector_id: Option<Seq<char>>,
    connector_name: Option<Seq<char>>,
) -> Seq<char> {
    let by_name = match connector_name {
        Some(n) if n.len() > 0 => strip_nonempty(tool_name, n),
        _ => None,
    };
    let by_id = match connector_id {
        Some(i) if i.len() > 0 => strip_nonempty(tool_name, i),
        _ => None,
    };
    match by_name {
        Some(t) => t,
        None => match by_id {
            Some(t) => t,
            None => tool_name,
        },
    }
}

fn strip_if_given<'a>(tool_name: &'a str, prefix: Option<&str>) -> (r: Option<&'a str>)
    ensures
        match r {
            Some(t) => (match prefix {
                Some(p) => p@.len() > 0 && strip_nonempty(tool_name@, p@) == Some(t@),
                None => false,
            }),
            None => (match prefix {
                Some(p) => p@.len() == 0 || strip_nonempty(tool_name@, p@) is None,
                None => true,
            }),
        },
{
    match prefix {
        Some(p) => if p.unicode_len() == 0 {
            None
        } else {
            strip_prefix_nonempty(tool_name, p)
        },
        None => None,
    }
}

/// See `callable_name_spec`; the arguments are the names after
/// sanitizing.
pub fn normalize_codex_apps_callable_name(
    sanitized_tool_name: &str,
    sanitized_connector_id: Option<&str>,
    sanitized_connector_name: Option<&str>,
) -> (r: String)
    ensures
        r@ == callable_name_spec(
            sanitized_tool_name@,
            match sanitized_connector_id {
                Some(i) => Some(i@),
                None => None,
            },
            match sanitized_connector_name {
                Some(n) => Some(n@),
                None => None,
            },
        ),
{
    match strip_if_given(sanitized_tool_name, sanitized_connector_name) {
        Some(t) => owned(t),
        None => match strip_if_given(sanitized_tool_name, sanitized_connector_id) {
            Some(t) => owned(t),
            None => owned(sanitized_tool_name),
        },
    }
}

/// The namespace of an app's tools: the server name, joined by `__` to the
/// sanitized connector name when there is one.
pub fn normalize_codex_apps_callable_namespace(
    server_name: &str,
    sanitized_connector_name: Option<&str>,
) -> (r: String)
    ensures
        r@ == match sanitized_connector_name {
            Some(n) => server_name@ + "__"@ + n@,
            None => server_name@,
        },
{
    match sanitized_connector_name {
        Some(n) => cat3(server_name, "__", n),
        None => owned(server_name),
    }
}

} // verus!
