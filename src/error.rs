use vstd::prelude::*;

verus! {

/// A failure while serving one prompt; each becomes an HTTP 500 reply.
#[derive(Debug, Clone, PartialEq, Eq)]
pub enum GatewayError {
    /// The style could not be substituted into the style template.
    Template,
    /// The upstream request could not be assembled.
    Request(String),
    /// The upstream call failed; the upstream's own description.
    Upstream(String),
    /// The upstream answered with no choice at all.
    NoChoices,
    /// The chosen answer carried no text.
    NoContent,
}

/// The human-readable text of an error, as sent back to the caller.
pub open spec fn error_message(e: GatewayError) -> Seq<char> {
    match e {
        GatewayError::Template => "failed to format system_with_style_template"@,
        GatewayError::Request(m) => m@,
        GatewayError::Upstream(m) => m@,
        GatewayError::NoChoices => "choices is empty"@,
        GatewayError::NoContent => "content is empty"@,
    }
}

impl GatewayError {
    /// The text that the reply body carries for this error.
    pub fn message(&self) -> (r: String)
        ensures
            r@ == error_message(*self),
    {
        match self {
            GatewayError::Template => "failed to format system_with_style_template".to_owned(),
            GatewayError::Request(m) => m.clone(),
            GatewayError::Upstream(m) => m.clone(),
            GatewayError::NoChoices => "choices is empty".to_owned(),
            GatewayError::NoContent => "content is empty".to_owned(),
        }
    }
}

} // verus!
