use vstd::prelude::*;

verus! {

/// Every way in which an operation of the client can fail.
#[derive(Debug, Clone, PartialEq, Eq)]
pub enum CopilotError {
    /// No configuration root could be determined from the environment.
    ConfigDirectoryNotFound,
    /// No identity token was found in the consulted configuration file.
    CredentialNotFound,
    /// The token endpoint answered with a status outside 200..=299.
    UpstreamAuth { status: u16, body: String },
    /// The service answered a call with a status outside 200..=299.
    UpstreamRequest { status: u16, body: String },
    /// A body was not valid JSON or did not have the expected shape.
    Decode { cause: String },
    /// The requested model is absent from the fetched catalog.
    ModelNotFound { requested_id: String },
    /// A header value holds a byte that HTTP does not allow there.
    HeaderConstruction,
}

/// The mathematical content of a [`CopilotError`].
pub enum ErrorView {
    ConfigDirectoryNotFound,
    CredentialNotFound,
    UpstreamAuth { status: int, body: Seq<char> },
    UpstreamRequest { status: int, body: Seq<char> },
    Decode { cause: Seq<char> },
    ModelNotFound { requested_id: Seq<char> },
    HeaderConstruction,
}

impl View for CopilotError {
    type V = ErrorView;

    open spec fn view(&self) -> ErrorView {
        match *self {
            CopilotError::ConfigDirectoryNotFound => ErrorView::ConfigDirectoryNotFound,
            CopilotError::CredentialNotFound => ErrorView::CredentialNotFound,
            CopilotError::UpstreamAuth { status, body } => ErrorView::UpstreamAuth {
                status: status as int,
                body: body@,
            },
            CopilotError::UpstreamRequest { status, body } => ErrorView::UpstreamRequest {
                status: status as int,
                body: body@,
            },
            CopilotError::Decode { cause } => ErrorView::Decode { cause: cause@ },
            CopilotError::ModelNotFound { requested_id } => ErrorView::ModelNotFound {
                requested_id: requested_id@,
            },
            CopilotError::HeaderConstruction => ErrorView::HeaderConstruction,
        }
    }
}

} // verus!
