//! Handlers: the units of work a command code is bound to. A handler
//! declares the request shape it consumes and the response shape it
//! produces, and its effect on the shared subsystem state is specified
//! against the state's map abstraction.

use vstd::prelude::*;
use crate::codec::{Payload, PayloadTag, PayloadView, opt_view, copy_bytes};
use crate::error::{DispatchError, ErrorView};
use crate::state::SubsystemState;

verus! {

/// A handler bound to one command: the closed set of behaviours at the
/// interface between the dispatch layer and a subsystem. `Store` and `Fetch`
/// work on the shared record store; `Ack`, `Echo`, `Respond` and `Fail`
/// stand for subsystem work whose effect lies outside this layer, carrying
/// only its declared request shape and its reply.
#[derive(Debug, Clone)]
pub enum Handler {
    /// Stores the request record in the shared subsystem state; no response.
    Store,
    /// Looks the requested identifier up in the shared subsystem state and
    /// responds with the stored record; if the identifier is absent, reports
    /// the business failure `NotFound` with the given message.
    Fetch { missing: String },
    /// Consumes a request of the declared shape and acknowledges without a
    /// response.
    Ack(Option<PayloadTag>),
    /// Responds with the request payload unchanged.
    Echo(PayloadTag),
    /// Consumes a request of the declared shape and responds with a fixed
    /// payload.
    Respond { request: Option<PayloadTag>, response: Payload },
    /// Reports a fixed business failure of the given kind and message.
    Fail { request: Option<PayloadTag>, kind: String, msg: String },
}

impl View for Handler {
    type V = Handler;

    open spec fn view(&self) -> Handler {
        *self
    }
}

impl Handler {
    /// The declared request type of this handler; `None` accepts no payload.
    pub open spec fn spec_request_tag(self) -> Option<PayloadTag> {
        match self {
            Handler::Store => Some(PayloadTag::Record),
            Handler::Fetch { .. } => Some(PayloadTag::Id),
            Handler::Ack(t) => t,
            Handler::Echo(t) => Some(t),
            Handler::Respond { request, .. } => request,
            Handler::Fail { request, .. } => request,
        }
    }

    /// The declared response type of this handler; `None` returns no payload
    /// on success.
    pub open spec fn spec_response_tag(self) -> Option<PayloadTag> {
        match self {
            Handler::Store => None,
            Handler::Fetch { .. } => Some(PayloadTag::Record),
            Handler::Ack(_) => None,
            Handler::Echo(t) => Some(t),
            Handler::Respond { response, .. } => Some(response@.tag()),
            Handler::Fail { .. } => None,
        }
    }

    /// The declared request type of this handler; `None` accepts no payload.
    pub fn request_tag(&self) -> (t: Option<PayloadTag>)
        ensures
            t == self.spec_request_tag(),
    {
        match self {
            Handler::Store => Some(PayloadTag::Record),
            Handler::Fetch { .. } => Some(PayloadTag::Id),
            Handler::Ack(t) => *t,
            Handler::Echo(t) => Some(*t),
            Handler::Respond { request, .. } => *request,
            Handler::Fail { request, .. } => *request,
        }
    }

    /// The declared response type of this handler; `None` returns no payload
    /// on success.
    pub fn response_tag(&self) -> (t: Option<PayloadTag>)
        ensures
            t == self.spec_response_tag(),
    {
        match self {
            Handler::Store => None,
            Handler::Fetch { .. } => Some(PayloadTag::Record),
            Handler::Ack(_) => None,
            Handler::Echo(t) => Some(*t),
            Handler::Respond { response, .. } => Some(response.tag()),
            Handler::Fail { .. } => None,
        }
    }
}

/// What a handler replies when invoked with a decoded request against the
/// given subsystem records. A request whose shape is not the declared one
/// never reaches a handler: the dispatcher rejects it at the decode step, so
/// the mismatch arms here are unreachable through `dispatch`.
pub open spec fn spec_run_result(
    h: Handler,
    req: Option<PayloadView>,
    recs: Map<u64, Seq<u8>>,
) -> Result<Option<PayloadView>, ErrorView> {
    match h {
        Handler::Store => match req {
            Some(PayloadView::Record { .. }) => Ok(None),
            _ => Err(ErrorView::DecodeError),
        },
        Handler::Fetch { missing } => match req {
            Some(PayloadView::Id(id)) => if recs.contains_key(id) {
                Ok(Some(PayloadView::Record { id, data: recs[id] }))
            } else {
                Err(ErrorView::Internal { kind: "NotFound"@, msg: missing@ })
            },
            _ => Err(ErrorView::DecodeError),
        },
        Handler::Ack(_) => Ok(None),
        Handler::Echo(_) => Ok(req),
        Handler::Respond { response, .. } => Ok(Some(response@)),
        Handler::Fail { kind, msg, .. } => Err(ErrorView::Internal { kind: kind@, msg: msg@ }),
    }
}

/// The subsystem records after a handler was invoked: only `Store` writes,
/// and it writes exactly the requested record.
pub open spec fn spec_run_records(
    h: Handler,
    req: Option<PayloadView>,
    recs: Map<u64, Seq<u8>>,
) -> Map<u64, Seq<u8>> {
    match h {
        Handler::Store => match req {
            Some(PayloadView::Record { id, data }) => recs.insert(id, data),
            _ => recs,
        },
        _ => recs,
    }
}

/// The model of a handler's reply.
pub open spec fn reply_view(
    r: Result<Option<Payload>, DispatchError>,
) -> Result<Option<PayloadView>, ErrorView> {
    match r {
        Ok(p) => Ok(opt_view(p)),
        Err(e) => Err(e@),
    }
}

/// Invokes a handler on a decoded request and the resolved live subsystem
/// state.
pub fn run_handler(h: &Handler, req: Option<Payload>, st: &mut SubsystemState) -> (r: Result<
    Option<Payload>,
    DispatchError,
>)
    requires
        old(st).wf(),
    ensures
        final(st).wf(),
        final(st)@ == spec_run_records(*h, opt_view(req), old(st)@),
        reply_view(r) == spec_run_result(*h, opt_view(req), old(st)@),
{
    match h {
        Handler::Store => match req {
            Some(Payload::Record { id, data }) => {
                st.store(id, data);
                Ok(None)
            },
            _ => Err(DispatchError::DecodeError),
        },
        Handler::Fetch { missing } => match req {
            Some(Payload::Id(id)) => match st.fetch(id) {
                Some(d) => {
                    let data = copy_bytes(d);
                    Ok(Some(Payload::Record { id, data }))
                },
                None => Err(
                    DispatchError::Internal {
                        kind: String::from_str("NotFound"),
                        msg: missing.clone(),
                    },
                ),
            },
            _ => Err(DispatchError::DecodeError),
        },
        Handler::Ack(_) => Ok(None),
        Handler::Echo(_) => Ok(req),
        Handler::Respond { response, .. } => Ok(Some(response.duplicate())),
        Handler::Fail { kind, msg, .. } => Err(
            DispatchError::Internal { kind: kind.clone(), msg: msg.clone() },
        ),
    }
}

} // verus!
