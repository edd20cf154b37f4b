use vstd::prelude::*;
use vstd::string::StringExecFns;

verus! {

/// Model of the error taxonomy.
#[verifier::ext_equal]
pub ghost enum ErrorModel {
    /// Transport or network fault reaching the identity provider.
    Upstream(Seq<char>),
    /// Malformed or unparseable provider payload.
    Payload(Seq<char>),
    /// Storage-layer fault.
    Store(Seq<char>),
    /// The required provider credential is absent.
    MissingCredential,
    /// The requested resource does not exist.
    NotFound(Seq<char>),
}

/// The faults a resolution can surface to the HTTP boundary.
#[derive(Debug)]
pub enum ServiceError {
    Upstream(String),
    Payload(String),
    Store(String),
    MissingCredential,
    NotFound(String),
}

impl View for ServiceError {
    type V = ErrorModel;

    open spec fn view(&self) -> ErrorModel {
        match self {
            ServiceError::Upstream(d) => ErrorModel::Upstream(d@),
            ServiceError::Payload(d) => ErrorModel::Payload(d@),
            ServiceError::Store(d) => ErrorModel::Store(d@),
            ServiceError::MissingCredential => ErrorModel::MissingCredential,
            ServiceError::NotFound(m) => ErrorModel::NotFound(m@),
        }
    }
}

/// Server faults carry an internal-fault status; a missing resource carries
/// the not-found status.
pub open spec fn status_of(e: ErrorModel) -> int {
    if e is NotFound {
        404
    } else {
        500
    }
}

/// The human-readable message attached to each fault.
pub open spec fn message_of(e: ErrorModel) -> Seq<char> {
    match e {
        ErrorModel::Upstream(d) => "Internal Server Error, "@ + d,
        ErrorModel::Payload(d) => "Ser/De error: "@ + d,
        ErrorModel::Store(_) => "Database Error"@,
        ErrorModel::MissingCredential => "Missing environment variable"@,
        ErrorModel::NotFound(m) => m,
    }
}

impl ServiceError {
    pub fn status_code(&self) -> (s: u16)
        ensures
            s as int == status_of(self@),
    {
        match self {
            ServiceError::NotFound(_) => 404,
            ServiceError::Upstream(_) => 500,
            ServiceError::Payload(_) => 500,
            ServiceError::Store(_) => 500,
            ServiceError::MissingCredential => 500,
        }
    }

    pub fn message(&self) -> (m: String)
        ensures
            m@ == message_of(self@),
    {
        match self {
            ServiceError::Upstream(d) => {
                let mut m = String::from_str("Internal Server Error, ");
                m.append(d.as_str());
                m
            },
            ServiceError::Payload(d) => {
                let mut m = String::from_str("Ser/De error: ");
                m.append(d.as_str());
                m
            },
            ServiceError::Store(_) => String::from_str("Database Error"),
            ServiceError::MissingCredential => String::from_str("Missing environment variable"),
            ServiceError::NotFound(m) => m.clone(),
        }
    }
}

} // verus!
