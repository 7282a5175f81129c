//! Error types of the store and of the service, and the mapping from a
//! storage transport fault to the store's error.

use vstd::prelude::*;

verus! {

/// A failure of the transfer store.
#[derive(Debug)]
pub enum TransferRepoError {
    /// The backing store could not be reached.
    DatabaseConnectionError(String),
    /// A lookup expected a transfer that is not there.
    TransferNotFound { id: String },
    /// A read or write against the store failed.
    QueryError(String),
}

/// A failure of a summary store. Summaries are recomputed on demand and
/// never persisted, so nothing produces a value of this type; it only
/// closes the repository error family. (A fieldless struct, since an enum
/// with no variants cannot be declared.)
#[derive(Debug)]
pub struct UserStatsRepoError {}

/// A failure of the statistics service: the engine itself is pure
/// computation and adds no failure of its own, so every error is a store
/// error passed through, attributed to the computation.
#[derive(Debug)]
pub enum TransferError {
    RepositoryError(TransferRepoError),
}

/// A storage transport fault, as plain data: one variant per condition a
/// storage client distinguishes, with any formatted detail it carried.
/// The transport edge fills this in; [`TransferRepoError::from_fault`]
/// decides, under a verified contract, which store error each fault
/// becomes.
#[derive(Debug)]
pub enum StoreFault {
    InvalidParams(String),
    Network(String),
    Compression(String),
    Decompression(String),
    RowNotFound,
    SequenceMustHaveLength,
    DeserializeAnyNotSupported,
    NotEnoughData,
    InvalidUtf8Encoding(String),
    InvalidTagEncoding(String),
    VariantDiscriminatorIsOutOfBound(String),
    Custom(String),
    BadResponse(String),
    TimedOut,
    Unsupported(String),
    Other(String),
    Unknown,
}

/// A prefixed message: the literal prefix followed by the detail.
fn prefixed(prefix: &str, detail: String) -> (r: String)
    ensures
        r@ == prefix@ + detail@,
{
    let mut m = String::new();
    m.append(prefix);
    m.append(detail.as_str());
    m
}

impl TransferRepoError {
    /// Which store error a transport fault becomes: connection-level
    /// faults surface as connection errors, a missing row as a not-found
    /// with the unknown id, and everything else as a query error, each
    /// with the fault's own message.
    pub fn from_fault(value: StoreFault) -> (r: TransferRepoError)
        ensures
            match value {
                StoreFault::InvalidParams(m) => r matches TransferRepoError::QueryError(s) && s@
                    == "Invalid parameters: "@ + m@,
                StoreFault::Network(m) => r matches TransferRepoError::DatabaseConnectionError(s)
                    && s@ == "Network error: "@ + m@,
                StoreFault::Compression(m) => r matches TransferRepoError::QueryError(s) && s@
                    == "Compression error: "@ + m@,
                StoreFault::Decompression(m) => r matches TransferRepoError::QueryError(s) && s@
                    == "Decompression error: "@ + m@,
                StoreFault::RowNotFound => r matches TransferRepoError::TransferNotFound { id }
                    && id@ == "unknown"@,
                StoreFault::SequenceMustHaveLength => r matches TransferRepoError::QueryError(s)
                    && s@ == "Sequence must have length"@,
                StoreFault::DeserializeAnyNotSupported => r matches TransferRepoError::QueryError(
                    s,
                ) && s@ == "Deserialization not supported"@,
                StoreFault::NotEnoughData => r matches TransferRepoError::QueryError(s) && s@
                    == "Not enough data"@,
                StoreFault::InvalidUtf8Encoding(m) => r matches TransferRepoError::QueryError(s)
                    && s@ == "UTF-8 encoding error: "@ + m@,
                StoreFault::InvalidTagEncoding(m) => r matches TransferRepoError::QueryError(s)
                    && s@ == "Invalid tag encoding: "@ + m@,
                StoreFault::VariantDiscriminatorIsOutOfBound(m) => r matches
                    TransferRepoError::QueryError(s) && s@
                    == "Variant discriminator out of bound: "@ + m@,
                StoreFault::Custom(m) => r matches TransferRepoError::QueryError(s) && s@
                    == "Custom error: "@ + m@,
                StoreFault::BadResponse(m) => r matches
                    TransferRepoError::DatabaseConnectionError(s) && s@ == "Bad response: "@ + m@,
                StoreFault::TimedOut => r matches TransferRepoError::DatabaseConnectionError(s)
                    && s@ == "Connection timed out"@,
                StoreFault::Unsupported(m) => r matches TransferRepoError::QueryError(s) && s@
                    == "Unsupported operation: "@ + m@,
                StoreFault::Other(m) => r matches TransferRepoError::QueryError(s) && s@
                    == "Other error: "@ + m@,
                StoreFault::Unknown => r matches TransferRepoError::QueryError(s) && s@
                    == "Unknown ClickHouse error"@,
            },
    {
        match value {
            StoreFault::InvalidParams(m) => TransferRepoError::QueryError(
                prefixed("Invalid parameters: ", m),
            ),
            StoreFault::Network(m) => TransferRepoError::DatabaseConnectionError(
                prefixed("Network error: ", m),
            ),
            StoreFault::Compression(m) => TransferRepoError::QueryError(
                prefixed("Compression error: ", m),
            ),
            StoreFault::Decompression(m) => TransferRepoError::QueryError(
                prefixed("Decompression error: ", m),
            ),
            StoreFault::RowNotFound => TransferRepoError::TransferNotFound {
                id: string_of("unknown"),
            },
            StoreFault::SequenceMustHaveLength => TransferRepoError::QueryError(
                string_of("Sequence must have length"),
            ),
            StoreFault::DeserializeAnyNotSupported => TransferRepoError::QueryError(
                string_of("Deserialization not supported"),
            ),
            StoreFault::NotEnoughData => TransferRepoError::QueryError(
                string_of("Not enough data"),
            ),
            StoreFault::InvalidUtf8Encoding(m) => TransferRepoError::QueryError(
                prefixed("UTF-8 encoding error: ", m),
            ),
            StoreFault::InvalidTagEncoding(m) => TransferRepoError::QueryError(
                prefixed("Invalid tag encoding: ", m),
            ),
            StoreFault::VariantDiscriminatorIsOutOfBound(m) => TransferRepoError::QueryError(
                prefixed("Variant discriminator out of bound: ", m),
            ),
            StoreFault::Custom(m) => TransferRepoError::QueryError(
                prefixed("Custom error: ", m),
            ),
            StoreFault::BadResponse(m) => TransferRepoError::DatabaseConnectionError(
                prefixed("Bad response: ", m),
            ),
            StoreFault::TimedOut => TransferRepoError::DatabaseConnectionError(
                string_of("Connection timed out"),
            ),
            StoreFault::Unsupported(m) => TransferRepoError::QueryError(
                prefixed("Unsupported operation: ", m),
            ),
            StoreFault::Other(m) => TransferRepoError::QueryError(
                prefixed("Other error: ", m),
            ),
            StoreFault::Unknown => TransferRepoError::QueryError(
                string_of("Unknown ClickHouse error"),
            ),
        }
    }

    /// What [`TransferRepoError::message`] renders: the error's own line.
    pub open spec fn message_view(self) -> Seq<char> {
        match self {
            TransferRepoError::DatabaseConnectionError(m) => "Database connection failed: "@
                + m@,
            TransferRepoError::TransferNotFound { id } => "Transfer not found with id: "@ + id@,
            TransferRepoError::QueryError(m) => "Database query failed: "@ + m@,
        }
    }

    /// The error rendered for a reader, one line.
    pub fn message(&self) -> (r: String)
        ensures
            r@ == self.message_view(),
    {
        match self {
            TransferRepoError::DatabaseConnectionError(m) => prefixed(
                "Database connection failed: ",
                m.clone(),
            ),
            TransferRepoError::TransferNotFound { id } => prefixed(
                "Transfer not found with id: ",
                id.clone(),
            ),
            TransferRepoError::QueryError(m) => prefixed("Database query failed: ", m.clone()),
        }
    }
}

/// An owned copy of a string literal.
fn string_of(s: &str) -> (r: String)
    ensures
        r@ == s@,
{
    let mut m = String::new();
    m.append(s);
    m
}

impl TransferError {
    /// The error rendered for a reader, one line: the repository error's
    /// own line behind an attribution to the statistics computation.
    pub fn message(&self) -> (r: String)
        ensures
            match self {
                TransferError::RepositoryError(e) => r@ == "Repository error: "@
                    + e.message_view(),
            },
    {
        match self {
            TransferError::RepositoryError(e) => prefixed("Repository error: ", e.message()),
        }
    }

    /// The HTTP status that reports this error: a missing transfer is 404,
    /// everything else is a server-side failure, 500.
    pub fn status_code(&self) -> (code: u16)
        ensures
            code == match self {
                TransferError::RepositoryError(e) => match e {
                    TransferRepoError::DatabaseConnectionError(_) => 500u16,
                    TransferRepoError::TransferNotFound { .. } => 404u16,
                    TransferRepoError::QueryError(_) => 500u16,
                },
            },
    {
        match self {
            TransferError::RepositoryError(e) => match e {
                TransferRepoError::DatabaseConnectionError(_) => 500,
                TransferRepoError::TransferNotFound { .. } => 404,
                TransferRepoError::QueryError(_) => 500,
            },
        }
    }
}

/// The body of an error response: a message and the HTTP status it is
/// served with.
#[derive(Debug, Clone)]
pub struct ApiError {
    pub message: String,
    pub status: u16,
}

impl ApiError {
    pub fn new(message: String, status: u16) -> (r: Self)
        ensures
            r.message == message,
            r.status == status,
    {
        Self { message, status }
    }
}

} // verus!
