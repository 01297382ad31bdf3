//! The per-request planner and the session lifecycle steps.
//!
//! For every incoming request the router computes a forwarding plan from the
//! request's method and path and the current session registry: open a new
//! session against both remote ends, close one against both, or forward to
//! exactly one of them under the session id that remote end knows.  The
//! network transfers themselves happen outside the library; the planner and
//! the completion steps here decide everything else.

use vstd::prelude::*;
use vstd::pervasive::unreached;
use crate::digits::{parse_u64, spec_parse_u64, dec_rep, lemma_parse_roundtrip};
use crate::registry::{SessionRegistry, SessionView, opt_str_view};
use crate::route::{
    Method, RemoteEnd, Route, RouteClass, classify, command_end, spec_classify, spec_command_end,
    spec_join, spec_split, split_path,
};
use crate::text::{append_str, push_char};

verus! {

/// The ways a request can fail before anything is forwarded.
#[derive(Clone, Copy, Debug, PartialEq, Eq, Structural)]
pub enum PlanError {
    /// The request names no command the intermediary serves.
    BadRequest,
    /// The client session id in the path is not registered.
    UnknownSession,
    /// The session exists but the addressed remote end has no session id
    /// attached yet.
    NotAttached,
}

/// What the router decides to do with one request.
pub enum Plan {
    /// Open a native-driver session, then a plugin session, then register
    /// both under a fresh client session id.
    StartSession,
    /// Close both underlying sessions, best-effort each, then drop the
    /// registry entry whatever the outcomes.
    EndSession { client_id: u64, native_id: Option<String>, plugin_id: Option<String> },
    /// Forward to one remote end, with the client session id in the path
    /// rewritten to the id that remote end issued.
    Forward { end: RemoteEnd, downstream_path: String },
}

/// The mathematical content of a plan.
pub enum PlanView {
    StartSession,
    EndSession { client_id: u64, native_id: Option<Seq<char>>, plugin_id: Option<Seq<char>> },
    Forward { end: RemoteEnd, downstream_path: Seq<char> },
}

impl View for Plan {
    type V = PlanView;

    open spec fn view(&self) -> PlanView {
        match self {
            Plan::StartSession => PlanView::StartSession,
            Plan::EndSession { client_id, native_id, plugin_id } => PlanView::EndSession {
                client_id: *client_id,
                native_id: opt_str_view(*native_id),
                plugin_id: opt_str_view(*plugin_id),
            },
            Plan::Forward { end, downstream_path } => PlanView::Forward {
                end: *end,
                downstream_path: downstream_path@,
            },
        }
    }
}

/// A plan result, with the plan taken to its mathematical content.
pub open spec fn plan_result_view(r: Result<Plan, PlanError>) -> Result<PlanView, PlanError> {
    match r {
        Ok(p) => Ok(p@),
        Err(e) => Err(e),
    }
}

/// What the router does with a request, as a function of the registry
/// content and the request's method and path segments.
pub open spec fn spec_plan(m: Map<u64, SessionView>, method: Method, segs: Seq<Seq<char>>) -> Result<
    PlanView,
    PlanError,
> {
    match spec_classify(method, segs) {
        RouteClass::Malformed => Err(PlanError::BadRequest),
        RouteClass::NewSession => Ok(PlanView::StartSession),
        RouteClass::DeleteSession { id_text } => match spec_parse_u64(id_text) {
            None => Err(PlanError::UnknownSession),
            Some(cid) => if m.contains_key(cid) {
                Ok(
                    PlanView::EndSession {
                        client_id: cid,
                        native_id: m[cid].native_id,
                        plugin_id: m[cid].plugin_id,
                    },
                )
            } else {
                Err(PlanError::UnknownSession)
            },
        },
        RouteClass::SessionCommand { id_text, first } => match spec_parse_u64(id_text) {
            None => Err(PlanError::UnknownSession),
            Some(cid) => if m.contains_key(cid) {
                let end = spec_command_end(first);
                let did = if end == RemoteEnd::NativeDriver {
                    m[cid].native_id
                } else {
                    m[cid].plugin_id
                };
                match did {
                    None => Err(PlanError::NotAttached),
                    Some(d) => Ok(
                        PlanView::Forward {
                            end,
                            downstream_path: spec_join(segs.update(2, d), '/'),
                        },
                    ),
                }
            } else {
                Err(PlanError::UnknownSession)
            },
        },
    }
}

/// Copies an optional downstream session id.
fn clone_opt_string(o: &Option<String>) -> (r: Option<String>)
    ensures
        opt_str_view(r) == opt_str_view(*o),
{
    match o {
        Some(s) => Some(s.clone()),
        None => None,
    }
}

/// Joins the path segments back together with the session id segment
/// replaced by the downstream id.
fn join_with_replaced_id(segs: &Vec<String>, downstream: &str) -> (r: String)
    requires
        segs@.len() >= 3,
    ensures
        r@ == spec_join(segs.deep_view().update(2, downstream@), '/'),
{
    let ghost u = segs.deep_view().update(2, downstream@);
    let mut r = String::new();
    let mut j: usize = 0;
    let n = segs.len();
    while j < n
        invariant
            n == segs@.len(),
            3 <= n,
            j <= n,
            u == segs.deep_view().update(2, downstream@),
            j == 0 ==> r@ == Seq::<char>::empty(),
            j >= 1 ==> r@ == spec_join(u.take(j as int), '/'),
        decreases n - j,
    {
        let ghost r0 = r@;
        if j > 0 {
            push_char(&mut r, '/');
        }
        if j == 2 {
            append_str(&mut r, downstream);
        } else {
            append_str(&mut r, segs[j].as_str());
        }
        proof {
            assert(u.take(j as int + 1).drop_last() =~= u.take(j as int));
            assert(u.take(j as int + 1).last() == u[j as int]);
            if j == 0 {
                assert(r@ =~= u[0]);
                assert(spec_join(u.take(1), '/') == u.take(1)[0]);
            } else {
                assert(spec_join(u.take(j as int + 1), '/') == spec_join(u.take(j as int), '/')
                    + seq!['/'] + u[j as int]);
                assert(r@ =~= r0 + seq!['/'] + u[j as int]);
            }
        }
        j = j + 1;
    }
    proof {
        assert(u.take(n as int) =~= u);
    }
    r
}

/// Computes the forwarding plan for one request against the current
/// registry content.
pub fn plan_request(reg: &SessionRegistry, method: Method, path: &str) -> (r: Result<
    Plan,
    PlanError,
>)
    ensures
        plan_result_view(r) == spec_plan(reg@, method, spec_split(path@)),
{
    let segs = split_path(path);
    let route = classify(method, &segs);
    match route {
        Route::Malformed => Err(PlanError::BadRequest),
        Route::NewSession => Ok(Plan::StartSession),
        Route::DeleteSession { id_text } => {
            match parse_u64(id_text.as_str()) {
                None => Err(PlanError::UnknownSession),
                Some(cid) => {
                    match reg.lookup(cid) {
                        Err(_) => Err(PlanError::UnknownSession),
                        Ok(entry) => Ok(
                            Plan::EndSession {
                                client_id: cid,
                                native_id: clone_opt_string(&entry.native_id),
                                plugin_id: clone_opt_string(&entry.plugin_id),
                            },
                        ),
                    }
                },
            }
        },
        Route::SessionCommand { id_text, first } => {
            match parse_u64(id_text.as_str()) {
                None => Err(PlanError::UnknownSession),
                Some(cid) => {
                    match reg.lookup(cid) {
                        Err(_) => Err(PlanError::UnknownSession),
                        Ok(entry) => {
                            let end = command_end(first.as_str());
                            let target_id = if matches!(end, RemoteEnd::NativeDriver) {
                                &entry.native_id
                            } else {
                                &entry.plugin_id
                            };
                            match target_id {
                                None => Err(PlanError::NotAttached),
                                Some(did) => {
                                    let p = join_with_replaced_id(&segs, did.as_str());
                                    Ok(Plan::Forward { end, downstream_path: p })
                                },
                            }
                        },
                    }
                },
            }
        },
    }
}

/// Finishes a successful new-session exchange: mints a fresh client session
/// id and registers it with both downstream ids attached.  The fresh id is
/// unique among the open sessions, and both underlying ids stand in the
/// registry before the id is handed back for the response.  Yields nothing
/// only once the id space is exhausted, leaving the registry unchanged.
pub fn complete_new_session(reg: &mut SessionRegistry, native_id: String, plugin_id: String) -> (r:
    Option<u64>)
    requires
        old(reg).wf(),
    ensures
        final(reg).wf(),
        match r {
            Some(cid) => !old(reg).exhausted() && !old(reg)@.contains_key(cid) && final(reg)@
                == old(reg)@.insert(
                cid,
                SessionView {
                    client_id: cid,
                    native_id: Some(native_id@),
                    plugin_id: Some(plugin_id@),
                },
            ),
            None => old(reg).exhausted() && final(reg)@ == old(reg)@,
        },
{
    let cid = match reg.mint_client_id() {
        Some(cid) => cid,
        None => {
            return None;
        },
    };
    match reg.create(cid) {
        Ok(()) => (),
        Err(_) => unreached(),
    }
    match reg.attach_native(cid, native_id) {
        Ok(()) => (),
        Err(_) => unreached(),
    }
    match reg.attach_plugin(cid, plugin_id) {
        Ok(()) => (),
        Err(_) => unreached(),
    }
    proof {
        assert(final(reg)@ =~= old(reg)@.insert(
            cid,
            SessionView { client_id: cid, native_id: Some(native_id@), plugin_id: Some(plugin_id@) },
        ));
    }
    Some(cid)
}

/// Finishes a delete-session exchange: drops the registry entry.  The entry
/// is gone afterwards whatever the two downstream deletes returned, so a
/// failed downstream delete can never leak a registry entry.
pub fn complete_delete_session(reg: &mut SessionRegistry, client_id: u64) -> (was_present: bool)
    requires
        old(reg).wf(),
    ensures
        final(reg).wf(),
        final(reg)@ == old(reg)@.remove(client_id),
        !final(reg)@.contains_key(client_id),
        was_present == old(reg)@.contains_key(client_id),
{
    reg.remove(client_id)
}

/// The path under which one remote end knows a session: the delete-session
/// exchange addresses each remote end under its own session id, and the
/// same path serves the best-effort teardown of a half-created native
/// session when the plugin step of a new-session exchange fails.
pub fn downstream_session_path(downstream_id: &str) -> (r: String)
    ensures
        r@ == "/session/"@ + downstream_id@,
{
    let mut r = "/session/".to_owned();
    append_str(&mut r, downstream_id);
    r
}

/// A failure to reach one of the two remote ends.
pub struct TransportError {
    pub end: RemoteEnd,
    pub detail: String,
}

/// How the new-session exchange ends after the plugin step.
pub enum PluginStepOutcome {
    /// Both remote ends opened a session: register the pair.
    Register { native_id: String, plugin_id: String },
    /// The plugin step failed: the already created native session must be
    /// torn down, best-effort, under the given path, before the plugin
    /// failure is surfaced, so no live native session is left without a
    /// registry entry.
    TearDownAndFail { teardown_path: String, failure: TransportError },
}

/// Settles the plugin step of a new-session exchange, given the native
/// session already opened and what the plugin step returned.
pub fn settle_plugin_step(native_id: String, plugin_result: Result<String, String>) -> (r:
    PluginStepOutcome)
    ensures
        plugin_result is Ok ==> (r matches PluginStepOutcome::Register { native_id: n, plugin_id: p }
            && n == native_id && p == plugin_result.unwrap()),
        plugin_result is Err ==> (r matches PluginStepOutcome::TearDownAndFail {
            teardown_path,
            failure,
        } && teardown_path@ == "/session/"@ + native_id@ && failure.end == RemoteEnd::Plugin
            && failure.detail == plugin_result.unwrap_err()),
{
    match plugin_result {
        Ok(plugin_id) => PluginStepOutcome::Register { native_id, plugin_id },
        Err(detail) => {
            let teardown_path = downstream_session_path(native_id.as_str());
            PluginStepOutcome::TearDownAndFail {
                teardown_path,
                failure: TransportError { end: RemoteEnd::Plugin, detail },
            }
        },
    }
}

impl TransportError {
    /// A message naming the remote end that failed, for the client response.
    pub fn describe(&self) -> (r: String)
        ensures
            self.end == RemoteEnd::NativeDriver ==> r@ == "error from native driver: "@
                + self.detail@,
            self.end == RemoteEnd::Plugin ==> r@ == "error from plugin: "@ + self.detail@,
    {
        let mut r = match self.end {
            RemoteEnd::NativeDriver => "error from native driver: ".to_owned(),
            RemoteEnd::Plugin => "error from plugin: ".to_owned(),
        };
        append_str(&mut r, self.detail.as_str());
        r
    }
}

/// Merges the outcomes of the two best-effort downstream deletes: success
/// only when both succeeded, otherwise the first failure in forwarding
/// order, native driver first.
pub fn merge_delete_outcomes(native: Option<TransportError>, plugin: Option<TransportError>) -> (r:
    Option<TransportError>)
    ensures
        native is Some ==> r == native,
        native is None ==> r == plugin,
{
    match native {
        Some(e) => Some(e),
        None => plugin,
    }
}

/// A command that references a deleted (or never registered) client session
/// id fails with `UnknownSession`, whether it is a delete-session command or
/// a single-end command.
pub proof fn lemma_deleted_session_unknown(
    m: Map<u64, SessionView>,
    client_id: u64,
    method: Method,
    segs: Seq<Seq<char>>,
)
    requires
        !m.contains_key(client_id),
        match spec_classify(method, segs) {
            RouteClass::DeleteSession { id_text } => id_text == dec_rep(client_id as nat),
            RouteClass::SessionCommand { id_text, .. } => id_text == dec_rep(client_id as nat),
            _ => false,
        },
    ensures
        spec_plan(m, method, segs) == Err::<PlanView, PlanError>(PlanError::UnknownSession),
{
    lemma_parse_roundtrip(client_id);
}

} // verus!
