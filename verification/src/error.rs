//! What can go wrong with a request to the endpoint.

use core::fmt::Display;
use vstd::prelude::*;
use vstd::string::*;

verus! {

#[derive(Debug)]
pub enum EndpointError {
    /// The endpoint has no connection to its server yet.
    NotInitialized,
    /// The endpoint has not registered with its server.
    NotRegistered,
    /// There is no call with this id.
    CallNotActive(String),
    /// The peer answered with a SIP status other than success.
    Sip { code: i32, message: String },
    Other(String),
}

/// An error with its texts as sequences.
pub enum ErrorView {
    NotInitialized,
    NotRegistered,
    CallNotActive(Seq<char>),
    Sip { code: i32, message: Seq<char> },
    Other(Seq<char>),
}

impl View for EndpointError {
    type V = ErrorView;

    open spec fn view(&self) -> ErrorView {
        match self {
            EndpointError::NotInitialized => ErrorView::NotInitialized,
            EndpointError::NotRegistered => ErrorView::NotRegistered,
            EndpointError::CallNotActive(id) => ErrorView::CallNotActive(id@),
            EndpointError::Sip { code, message } => ErrorView::Sip {
                code: *code,
                message: message@,
            },
            EndpointError::Other(message) => ErrorView::Other(message@),
        }
    }
}

/// An error with the text that `e` displays as.
pub fn err<E: Display + ?Sized>(e: &E) -> (r: EndpointError)
    ensures
        r is Other,
        to_string_from_display_ensures(e, r->Other_0),
{
    EndpointError::Other(e.to_string())
}

/// An error with the given text.
pub fn other(message: &str) -> (r: EndpointError)
    ensures
        r@ == ErrorView::Other(message@),
{
    err(message)
}

/// The error of a request for a call that is not there.
pub fn not_active(call_id: &str) -> (r: EndpointError)
    ensures
        r@ == ErrorView::CallNotActive(call_id@),
{
    EndpointError::CallNotActive(call_id.to_owned())
}

/// The error as a model is of the same kind and shows what it carries.
pub proof fn the_model_shows_the_error(e: EndpointError)
    ensures
        e is NotInitialized <==> e@ is NotInitialized,
        e is NotRegistered <==> e@ is NotRegistered,
        e is CallNotActive <==> e@ is CallNotActive,
        e matches EndpointError::CallNotActive(id) ==> e@->CallNotActive_0 == id@,
        e is Sip <==> e@ is Sip,
        e matches EndpointError::Sip { code, message } ==> e@->code == code && e@->message
            == message@,
        e is Other <==> e@ is Other,
        e matches EndpointError::Other(message) ==> e@->Other_0 == message@,
{
}

} // verus!
