use vstd::prelude::*;

use crate::completion::{build_request, content_of, is_request_for, take_content, CompletionRequest};
use crate::error::{error_message, GatewayError};
use crate::pool::{ClientPool, PoolError};
use crate::template::{opt_view, rendered, Templates};

verus! {

/// The body of a `POST /richprompt` request.
#[derive(Debug, Clone)]
pub struct RichPromptReq {
    pub prompt: String,
    pub style: Option<String>,
}

/// An HTTP reply: a status code and a plain-text body.
#[derive(Debug, Clone)]
pub struct HttpReply {
    pub status: u16,
    pub body: String,
}

/// The status code for an outcome: 200 on an answer, 500 on any failure.
pub open spec fn reply_status(outcome: Result<String, GatewayError>) -> u16 {
    match outcome {
        Ok(_) => 200,
        Err(_) => 500,
    }
}

/// The body for an outcome: the answer itself, or the failure's message.
pub open spec fn reply_body(outcome: Result<String, GatewayError>) -> Seq<char> {
    match outcome {
        Ok(c) => c@,
        Err(e) => error_message(e),
    }
}

/// Turns the outcome of a request into its HTTP reply.
pub fn respond(outcome: Result<String, GatewayError>) -> (r: HttpReply)
    ensures
        r.status == reply_status(outcome),
        r.body@ == reply_body(outcome),
{
    match outcome {
        Ok(content) => HttpReply { status: 200, body: content },
        Err(e) => HttpReply { status: 500, body: e.message() },
    }
}

/// What the upstream gave back, as far as the reply depends on it: the text
/// of each choice, or the failure of the call.
pub open spec fn upstream_outcome(
    upstream: Result<Vec<Option<String>>, GatewayError>,
) -> Result<String, GatewayError> {
    match upstream {
        Ok(choices) => content_of(choices@),
        Err(e) => Err(e),
    }
}

/// Ends a request once the upstream call has returned: reads the answer
/// and replies with it, or with the failure.
pub fn conclude(upstream: Result<Vec<Option<String>>, GatewayError>) -> (r: HttpReply)
    ensures
        r.status == reply_status(upstream_outcome(upstream)),
        r.body@ == reply_body(upstream_outcome(upstream)),
        upstream matches Ok(ch) && ch@.len() == 0 ==> r.status == 500 && r.body@
            == "choices is empty"@,
        upstream matches Ok(ch) && ch@.len() > 0 && ch@.last() is None ==> r.status == 500
            && r.body@ == "content is empty"@,
        upstream is Err ==> r.status == 500,
{
    let outcome = match upstream {
        Ok(choices) => take_content(choices),
        Err(e) => Err(e),
    };
    respond(outcome)
}

/// The one upstream call that a request makes: which client, and what to send.
#[derive(Debug, Clone)]
pub struct UpstreamCall {
    pub client: usize,
    pub request: CompletionRequest,
}

/// What every request handler shares: the templates and the client pool.
pub struct Context<C> {
    pub templates: Templates,
    pub pool: ClientPool<C>,
}

impl<C> Context<C> {
    /// Makes the shared context; fails when no client is given.
    pub fn new(templates: Templates, clients: Vec<C>) -> (r: Result<Self, PoolError>)
        ensures
            r is Ok <==> clients@.len() > 0,
            r matches Ok(c) ==> c.pool@ == clients@ && c.templates == templates,
            r matches Err(e) ==> e == PoolError::Empty,
    {
        match ClientPool::new(clients) {
            Ok(pool) => Ok(Context { templates, pool }),
            Err(e) => Err(e),
        }
    }

    /// The system message that this context renders for `req`.
    pub open spec fn system_for(&self, req: RichPromptReq) -> Option<Seq<char>> {
        rendered(
            opt_view(req.style),
            self.templates.system_template@,
            self.templates.system_with_style_template@,
        )
    }

    /// Renders the system message and picks a client: the upstream call to
    /// make, or the failure to reply with.
    pub fn prepare(&self, req: &RichPromptReq) -> (r: Result<UpstreamCall, GatewayError>)
        ensures
            r is Ok <==> self.system_for(*req) is Some,
            r matches Ok(call) ==> call.client < self.pool@.len() && is_request_for(
                call.request,
                self.system_for(*req)->Some_0,
                req.prompt@,
            ),
            r matches Err(e) ==> e == GatewayError::Template,
    {
        match self.templates.render(&req.style) {
            Err(e) => Err(e),
            Ok(system) => {
                let client = self.pool.select();
                let request = build_request(system, req.prompt.clone());
                Ok(UpstreamCall { client, request })
            },
        }
    }
}

} // verus!
