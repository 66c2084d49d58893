//! The errors of the board's pages and of its generation streams.
use vstd::prelude::*;
use vstd::string::*;
use crate::state_db::DBError;

verus! {

/// The error type of the `ollama-rs` crate, carried through unchanged.
#[verifier::external_type_specification]
#[verifier::external_body]
pub struct ExOllamaError(ollama_rs::error::OllamaError);

/// The error type of the `askama` crate, carried through unchanged.
#[verifier::external_type_specification]
#[verifier::external_body]
pub struct ExAskamaError(askama::Error);

/// Why a page could not be served.
#[derive(Debug)]
pub enum WebError {
    /// The language model could not be asked for a generation.
    Generation(ollama_rs::error::OllamaError),
    /// A database request failed.
    DB(DBError),
    /// The generation was already turned into a post or a reply.
    GenerationAlreadyUsed,
}

/// Why an item of a generation stream failed.
#[derive(Debug)]
pub enum GenerationError {
    /// The language model's stream reported an error.
    Ollama(ollama_rs::error::OllamaError),
    /// The button for the finished generation could not be rendered.
    Templating(askama::Error),
    /// The finished generation could not be stored.
    DB(DBError),
}

impl From<ollama_rs::error::OllamaError> for WebError {
    fn from(e: ollama_rs::error::OllamaError) -> (r: WebError) {
        WebError::Generation(e)
    }
}

impl vstd::std_specs::convert::FromSpecImpl<ollama_rs::error::OllamaError> for WebError {
    open spec fn obeys_from_spec() -> bool {
        true
    }

    open spec fn from_spec(v: ollama_rs::error::OllamaError) -> WebError {
        WebError::Generation(v)
    }
}

impl From<DBError> for WebError {
    fn from(e: DBError) -> (r: WebError) {
        WebError::DB(e)
    }
}

impl vstd::std_specs::convert::FromSpecImpl<DBError> for WebError {
    open spec fn obeys_from_spec() -> bool {
        true
    }

    open spec fn from_spec(v: DBError) -> WebError {
        WebError::DB(v)
    }
}

impl From<ollama_rs::error::OllamaError> for GenerationError {
    fn from(e: ollama_rs::error::OllamaError) -> (r: GenerationError) {
        GenerationError::Ollama(e)
    }
}

impl vstd::std_specs::convert::FromSpecImpl<ollama_rs::error::OllamaError> for GenerationError {
    open spec fn obeys_from_spec() -> bool {
        true
    }

    open spec fn from_spec(v: ollama_rs::error::OllamaError) -> GenerationError {
        GenerationError::Ollama(v)
    }
}

impl From<askama::Error> for GenerationError {
    fn from(e: askama::Error) -> (r: GenerationError) {
        GenerationError::Templating(e)
    }
}

impl vstd::std_specs::convert::FromSpecImpl<askama::Error> for GenerationError {
    open spec fn obeys_from_spec() -> bool {
        true
    }

    open spec fn from_spec(v: askama::Error) -> GenerationError {
        GenerationError::Templating(v)
    }
}

impl From<DBError> for GenerationError {
    fn from(e: DBError) -> (r: GenerationError) {
        GenerationError::DB(e)
    }
}

impl vstd::std_specs::convert::FromSpecImpl<DBError> for GenerationError {
    open spec fn obeys_from_spec() -> bool {
        true
    }

    open spec fn from_spec(v: DBError) -> GenerationError {
        GenerationError::DB(v)
    }
}

/// The HTTP answer to a failed page: a status code and a plain-text body.
#[derive(Debug)]
pub struct ErrorResponse {
    pub status: u16,
    pub body: String,
}

impl WebError {
    /// The answer given to the browser for any failed page: status 500 with
    /// the text "An internal error occured", whatever the cause, so that no
    /// detail of the failure leaves the server.
    pub fn error_response(&self) -> (r: ErrorResponse)
        ensures
            r.status == 500,
            r.body@ == "An internal error occured"@,
    {
        ErrorResponse { status: 500, body: String::from_str("An internal error occured") }
    }
}

} // verus!
