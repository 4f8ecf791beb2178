use vstd::prelude::*;

verus! {

/// A decoded provider reply: the message text of each choice, in order.
pub struct CompletionResponse {
    pub choices: Vec<String>,
}

impl View for CompletionResponse {
    type V = Seq<Seq<char>>;

    open spec fn view(&self) -> Seq<Seq<char>> {
        self.choices@.map_values(|c: String| c@)
    }
}

/// Why no suggestion could be had from the provider.
#[derive(Clone, Copy, Debug, PartialEq, Eq, Structural)]
pub enum SuggestionError {
    /// The provider could not be reached.
    UpstreamTransport,
    /// The provider answered with a failure status or a body of the wrong shape.
    UpstreamProtocol,
}

pub open spec fn error_text(e: SuggestionError) -> Seq<char> {
    match e {
        SuggestionError::UpstreamTransport => "the provider could not be reached"@,
        SuggestionError::UpstreamProtocol => "the provider returned an unusable reply"@,
    }
}

impl SuggestionError {
    /// A short description of the failure, without transport detail.
    pub fn message(&self) -> (r: &'static str)
        ensures
            r@ == error_text(*self),
    {
        match self {
            SuggestionError::UpstreamTransport => "the provider could not be reached",
            SuggestionError::UpstreamProtocol => "the provider returned an unusable reply",
        }
    }
}

/// What came of the one call to the provider.
pub enum ProviderReply {
    /// No response arrived (connection, TLS or timeout failure).
    TransportFailure,
    /// A response arrived with this status; `body` is its decoded content, or
    /// `None` where the body did not decode.
    Received { status: u16, body: Option<CompletionResponse> },
}

pub open spec fn fallback_text() -> Seq<char> {
    "No suggestion available."@
}

/// The suggestion read from the choices of a reply: the first choice's text
/// as it stands, or the fallback text when there is none.
pub open spec fn suggestion_of(choices: Seq<Seq<char>>) -> Seq<char> {
    if choices.len() > 0 {
        choices[0]
    } else {
        fallback_text()
    }
}

pub open spec fn is_success_status(status: u16) -> bool {
    200 <= status <= 299
}

/// The outcome of a provider call: the suggestion, or the error it maps to.
pub open spec fn outcome_of(reply: ProviderReply) -> Result<Seq<char>, SuggestionError> {
    match reply {
        ProviderReply::TransportFailure => Err(SuggestionError::UpstreamTransport),
        ProviderReply::Received { status, body } => {
            if !is_success_status(status) {
                Err(SuggestionError::UpstreamProtocol)
            } else {
                match body {
                    None => Err(SuggestionError::UpstreamProtocol),
                    Some(resp) => Ok(suggestion_of(resp@)),
                }
            }
        },
    }
}

/// Reads the suggestion from a decoded reply. An empty list of choices is no
/// failure: it gives the fallback text.
pub fn extract_suggestion(resp: &CompletionResponse) -> (r: String)
    ensures
        r@ == suggestion_of(resp@),
        resp@.len() > 0 ==> r@ == resp@[0],
        resp@.len() == 0 ==> r@ == fallback_text(),
{
    if resp.choices.len() > 0 {
        resp.choices[0].clone()
    } else {
        String::from_str("No suggestion available.")
    }
}

/// Turns what came of the provider call into a suggestion or an error: a
/// transport failure, a failure status or an undecoded body each fail.
pub fn interpret_reply(reply: &ProviderReply) -> (r: Result<String, SuggestionError>)
    ensures
        match (r, outcome_of(*reply)) {
            (Ok(s), Ok(t)) => s@ == t,
            (Err(e), Err(f)) => e == f,
            _ => false,
        },
        match *reply {
            ProviderReply::Received { status, body: Some(resp) } => is_success_status(status) ==> {
                &&& r is Ok
                &&& resp@.len() > 0 ==> r->Ok_0@ == resp@[0]
                &&& resp@.len() == 0 ==> r->Ok_0@ == fallback_text()
            },
            _ => true,
        },
        *reply matches ProviderReply::Received { status, body } && (!is_success_status(status)
            || body is None) ==> r == Err::<String, SuggestionError>(
            SuggestionError::UpstreamProtocol,
        ),
        *reply is TransportFailure ==> r == Err::<String, SuggestionError>(
            SuggestionError::UpstreamTransport,
        ),
{
    match reply {
        ProviderReply::TransportFailure => Err(SuggestionError::UpstreamTransport),
        ProviderReply::Received { status, body } => {
            if *status < 200 || *status > 299 {
                Err(SuggestionError::UpstreamProtocol)
            } else {
                match body {
                    None => Err(SuggestionError::UpstreamProtocol),
                    Some(resp) => Ok(extract_suggestion(resp)),
                }
            }
        },
    }
}

} // verus!
