//! Request classification.
//!
//! Every incoming WebDriver request is classified from its method and path
//! alone: session creation and deletion address both remote ends, and every
//! other session command is forwarded to exactly one of them.  The
//! native/plugin choice is a declarative table over the first path segment
//! after the session id, kept in one place so the routing policy can be
//! audited and tested apart from the forwarding mechanics.

use vstd::prelude::*;
use vstd::string::StrSliceExecFns;
use crate::text::{push_char, str_eq};

verus! {

/// The request methods the intermediary distinguishes.
#[derive(Clone, Copy, Debug, PartialEq, Eq, Structural)]
pub enum Method {
    Get,
    Post,
    Delete,
}

/// One of the two downstream WebDriver remote ends.
#[derive(Clone, Copy, Debug, PartialEq, Eq, Structural)]
pub enum RemoteEnd {
    NativeDriver,
    Plugin,
}

/// Which remote ends a classified command addresses.
#[derive(Clone, Copy, Debug, PartialEq, Eq, Structural)]
pub enum RouteTarget {
    NativeOnly,
    PluginOnly,
    Both,
}

/// The outcome of classifying one request, over character sequences.
pub enum RouteClass {
    /// `POST /session`: open a session against both remote ends.
    NewSession,
    /// `DELETE /session/{id}`: close the session against both remote ends.
    DeleteSession { id_text: Seq<char> },
    /// `/session/{id}/{command}...`: forward to a single remote end.
    SessionCommand { id_text: Seq<char>, first: Seq<char> },
    /// Nothing the intermediary serves.
    Malformed,
}

/// How a request method reads, by the WebDriver wire convention.
pub open spec fn spec_parse_method(s: Seq<char>) -> Option<Method> {
    if s == "GET"@ {
        Some(Method::Get)
    } else if s == "POST"@ {
        Some(Method::Post)
    } else if s == "DELETE"@ {
        Some(Method::Delete)
    } else {
        None
    }
}

/// Reads a request method name.
pub fn parse_method(s: &str) -> (r: Option<Method>)
    ensures
        r == spec_parse_method(s@),
{
    if str_eq(s, "GET") {
        Some(Method::Get)
    } else if str_eq(s, "POST") {
        Some(Method::Post)
    } else if str_eq(s, "DELETE") {
        Some(Method::Delete)
    } else {
        None
    }
}

/// The segments of a path, split at every `/`.  A trailing or doubled
/// separator yields an empty segment, and the empty path is one empty
/// segment, as with the usual splitting convention.
pub open spec fn spec_split(s: Seq<char>) -> Seq<Seq<char>>
    decreases s.len(),
{
    if s.len() == 0 {
        seq![Seq::<char>::empty()]
    } else if s.last() == '/' {
        spec_split(s.drop_last()).push(Seq::<char>::empty())
    } else {
        let p = spec_split(s.drop_last());
        p.update(p.len() - 1, p.last().push(s.last()))
    }
}

/// The segments joined with the separator between them.
pub open spec fn spec_join(parts: Seq<Seq<char>>, sep: char) -> Seq<char>
    decreases parts.len(),
{
    if parts.len() == 0 {
        Seq::<char>::empty()
    } else if parts.len() == 1 {
        parts[0]
    } else {
        spec_join(parts.drop_last(), sep) + seq![sep] + parts.last()
    }
}

/// Splitting has at least one segment, and joining the segments with the
/// separator restores the original path.
pub proof fn lemma_split_join(s: Seq<char>)
    ensures
        spec_split(s).len() >= 1,
        spec_join(spec_split(s), '/') == s,
    decreases s.len(),
{
    if s.len() == 0 {
        assert(spec_join(spec_split(s), '/') =~= s);
    } else {
        lemma_split_join(s.drop_last());
        let p = spec_split(s.drop_last());
        if s.last() == '/' {
            let q = p.push(Seq::<char>::empty());
            assert(q.drop_last() =~= p);
            assert(spec_join(q, '/') =~= s);
        } else {
            let q = p.update(p.len() - 1, p.last().push(s.last()));
            if p.len() == 1 {
                assert(p[0] == spec_join(p, '/'));
                assert(q[0] == p[0].push(s.last()));
                assert(spec_join(q, '/') == q[0]);
                assert(s.drop_last().push(s.last()) =~= s);
            } else {
                assert(q.drop_last() =~= p.drop_last());
                assert(q.last() == p.last().push(s.last()));
                assert(spec_join(q, '/') == spec_join(p.drop_last(), '/') + seq!['/']
                    + p.last().push(s.last()));
                assert(spec_join(p.drop_last(), '/') + seq!['/'] + p.last().push(s.last()) =~= (
                spec_join(p.drop_last(), '/') + seq!['/'] + p.last()).push(s.last()));
                assert(s.drop_last().push(s.last()) =~= s);
            }
        }
    }
}

/// Splits a path into its `/`-separated segments.
pub fn split_path(path: &str) -> (r: Vec<String>)
    ensures
        r.deep_view() == spec_split(path@),
        r@.len() >= 1,
{
    let n = path.unicode_len();
    let mut parts: Vec<String> = Vec::new();
    let mut cur = String::new();
    let mut i: usize = 0;
    while i < n
        invariant
            n == path@.len(),
            i <= n,
            parts.deep_view().push(cur@) == spec_split(path@.take(i as int)),
        decreases n - i,
    {
        let c = path.get_char(i);
        proof {
            assert(path@.take(i as int + 1).drop_last() =~= path@.take(i as int));
            assert(path@.take(i as int + 1).last() == path@[i as int]);
        }
        if c == '/' {
            parts.push(cur);
            cur = String::new();
            proof {
                assert(parts.deep_view().push(cur@) =~= spec_split(path@.take(i as int)).push(
                    Seq::<char>::empty(),
                ));
            }
        } else {
            push_char(&mut cur, c);
            proof {
                let p = spec_split(path@.take(i as int));
                assert(parts.deep_view().push(cur@) =~= p.update(
                    p.len() - 1,
                    p.last().push(path@[i as int]),
                ));
            }
        }
        i = i + 1;
    }
    proof {
        assert(path@.take(n as int) =~= path@);
    }
    parts.push(cur);
    proof {
        lemma_split_join(path@);
        assert(parts.deep_view() =~= spec_split(path@));
    }
    parts
}

/// How a request is classified from its method and path segments.
pub open spec fn spec_classify(method: Method, segs: Seq<Seq<char>>) -> RouteClass {
    if segs.len() >= 2 && segs[0].len() == 0 && segs[1] == "session"@ {
        if segs.len() == 2 && method == Method::Post {
            RouteClass::NewSession
        } else if segs.len() == 3 && method == Method::Delete {
            RouteClass::DeleteSession { id_text: segs[2] }
        } else if segs.len() >= 4 {
            RouteClass::SessionCommand { id_text: segs[2], first: segs[3] }
        } else {
            RouteClass::Malformed
        }
    } else {
        RouteClass::Malformed
    }
}

/// The routing table for single-end commands: the input-synthesis commands
/// under `actions` belong to the native driver, which alone drives the
/// system webview at the OS level; every other command is application-level
/// automation and belongs to the embedded plugin.
pub open spec fn spec_command_end(first: Seq<char>) -> RemoteEnd {
    if first == "actions"@ {
        RemoteEnd::NativeDriver
    } else {
        RemoteEnd::Plugin
    }
}

/// The target class of a classified request, if it names a command at all.
pub open spec fn spec_target_of(c: RouteClass) -> Option<RouteTarget> {
    match c {
        RouteClass::NewSession => Some(RouteTarget::Both),
        RouteClass::DeleteSession { .. } => Some(RouteTarget::Both),
        RouteClass::SessionCommand { first, .. } => if spec_command_end(first)
            == RemoteEnd::NativeDriver {
            Some(RouteTarget::NativeOnly)
        } else {
            Some(RouteTarget::PluginOnly)
        },
        RouteClass::Malformed => None,
    }
}

/// Command routing is deterministic: classification and the target class
/// are functions of the method and path segments alone, so the same
/// command path routes to the same target class on every call.
pub proof fn lemma_routing_deterministic(
    method: Method,
    segs: Seq<Seq<char>>,
    c1: RouteClass,
    c2: RouteClass,
)
    requires
        c1 == spec_classify(method, segs),
        c2 == spec_classify(method, segs),
    ensures
        c1 == c2,
        spec_target_of(c1) == spec_target_of(c2),
{
}

/// The classification of one request, carrying the path segments it needs.
pub enum Route {
    NewSession,
    DeleteSession { id_text: String },
    SessionCommand { id_text: String, first: String },
    Malformed,
}

impl View for Route {
    type V = RouteClass;

    open spec fn view(&self) -> RouteClass {
        match self {
            Route::NewSession => RouteClass::NewSession,
            Route::DeleteSession { id_text } => RouteClass::DeleteSession { id_text: id_text@ },
            Route::SessionCommand { id_text, first } => RouteClass::SessionCommand {
                id_text: id_text@,
                first: first@,
            },
            Route::Malformed => RouteClass::Malformed,
        }
    }
}

/// Classifies a request from its method and path segments.
pub fn classify(method: Method, segs: &Vec<String>) -> (r: Route)
    ensures
        r@ == spec_classify(method, segs.deep_view()),
{
    let n = segs.len();
    if n >= 2 && segs[0].as_str().is_empty() && str_eq(segs[1].as_str(), "session") {
        if n == 2 && method == Method::Post {
            Route::NewSession
        } else if n == 3 && method == Method::Delete {
            Route::DeleteSession { id_text: segs[2].clone() }
        } else if n >= 4 {
            Route::SessionCommand { id_text: segs[2].clone(), first: segs[3].clone() }
        } else {
            Route::Malformed
        }
    } else {
        Route::Malformed
    }
}

/// The remote end a single-end command belongs to, per the routing table.
pub fn command_end(first: &str) -> (r: RemoteEnd)
    ensures
        r == spec_command_end(first@),
{
    if str_eq(first, "actions") {
        RemoteEnd::NativeDriver
    } else {
        RemoteEnd::Plugin
    }
}

/// The target class of a classified request.
pub fn target_of(r: &Route) -> (t: Option<RouteTarget>)
    ensures
        t == spec_target_of(r@),
{
    match r {
        Route::NewSession => Some(RouteTarget::Both),
        Route::DeleteSession { .. } => Some(RouteTarget::Both),
        Route::SessionCommand { first, .. } => {
            match command_end(first.as_str()) {
                RemoteEnd::NativeDriver => Some(RouteTarget::NativeOnly),
                RemoteEnd::Plugin => Some(RouteTarget::PluginOnly),
            }
        },
        Route::Malformed => None,
    }
}

} // verus!
