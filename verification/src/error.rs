use vstd::prelude::*;

verus! {

/// The application-level error taxonomy.
///
/// `Internal` stands for any unexpected database, pool or driver failure;
/// the underlying cause is logged at the boundary (outside this library)
/// and never shown to the client, so the variant carries no payload here.
/// `Init` marks a startup failure and is fatal to the process.
/// `NotFound` is the expected absence of a requested record.
/// `BadRequest` carries an optional human-readable reason.
#[derive(Debug)]
pub enum AppError {
    Internal,
    Init,
    NotFound,
    BadRequest(Option<String>),
}

/// A driver-level failure, as the store's operations report it before the
/// query executor translates it into an `AppError`. `NotFound` is the
/// driver's "no rows returned" outcome of a returning statement; `Database`
/// is any other database failure the store can produce (here: the id space
/// is exhausted).
#[derive(Debug)]
pub enum DbError {
    NotFound,
    Database,
}

impl AppError {
    /// The HTTP status code this error is reported with.
    pub open spec fn spec_status_code(self) -> u16 {
        match self {
            AppError::NotFound => 404,
            AppError::BadRequest(_) => 400,
            _ => 500,
        }
    }

    /// The HTTP status code and body for this error: 404 "not found",
    /// 400 with the supplied reason (or "bad request"), and an opaque 500
    /// for everything internal.
    pub fn error_response(&self) -> (r: (u16, String))
        ensures
            r.0 == self.spec_status_code(),
            match *self {
                AppError::NotFound => r.1@ == "not found"@,
                AppError::BadRequest(Some(details)) => r.1@ == details@,
                AppError::BadRequest(None) => r.1@ == "bad request"@,
                _ => r.1@ == "Something went wrong"@,
            },
    {
        match self {
            AppError::NotFound => (404, "not found".to_owned()),
            AppError::BadRequest(Some(details)) => (400, details.clone()),
            AppError::BadRequest(None) => (400, "bad request".to_owned()),
            _ => (500, "Something went wrong".to_owned()),
        }
    }
}

} // verus!
