use vstd::prelude::*;

verus! {

/// The two kinds of failure that commands and queries report.
#[derive(Clone, Copy, Debug, PartialEq, Eq, Structural)]
pub enum AppError {
    /// The requested entity does not exist.
    NotFound,
    /// Any other failure, a duplicate username included.
    InternalError,
}

impl AppError {
    /// The HTTP status that stands for this error.
    pub open spec fn status_of(self) -> u16 {
        match self {
            AppError::NotFound => 404,
            AppError::InternalError => 500,
        }
    }

    /// The human-readable message sent with this error.
    pub open spec fn message_of(self) -> Seq<char> {
        match self {
            AppError::NotFound => "not found"@,
            AppError::InternalError => "internal server error"@,
        }
    }

    pub fn status(self) -> (status: u16)
        ensures
            status == self.status_of(),
    {
        match self {
            AppError::NotFound => 404,
            AppError::InternalError => 500,
        }
    }

    pub fn message(self) -> (message: String)
        ensures
            message@ == self.message_of(),
    {
        match self {
            AppError::NotFound => "not found".to_owned(),
            AppError::InternalError => "internal server error".to_owned(),
        }
    }
}

} // verus!
