//! The error taxonomy of the load pipeline.
//!
//! A conversion with no mapping rule aborts the whole load and names both
//! types; every other variant carries the failing collaborator's message as
//! plain text, supplied by the caller that observed it.

use vstd::prelude::*;
use crate::types::ColumnType;

verus! {

/// A failure of the load pipeline.
#[derive(Clone, Debug)]
pub enum LakeApi2SqlError {
    /// No conversion rule exists from the named source type to the declared
    /// destination type.
    NotSupported { dtype: String, column_type: ColumnType },
    /// The decode worker ended abnormally.
    JoinError(String),
    /// The columnar stream could not be decoded.
    ArrowError(String),
    /// An I/O failure outside any protocol.
    IOError(String),
    /// The source stream's transport failed.
    HttpError(String),
    /// The bounded channel's receiving side was gone.
    SendError(String),
    /// The relational transport or protocol failed.
    TiberiusError(String),
}

impl LakeApi2SqlError {
    /// A human-readable description of the failure; an unsupported pairing
    /// names both the source type and the destination wire type.
    pub fn message(&self) -> (m: String)
        ensures
            self matches LakeApi2SqlError::NotSupported { dtype, column_type } ==> m@
                == "no conversion rule for source type "@ + dtype@ + " to destination type "@
                + crate::types::column_type_name(*column_type),
            self matches LakeApi2SqlError::JoinError(s) ==> m@ == s@,
            self matches LakeApi2SqlError::ArrowError(s) ==> m@ == s@,
            self matches LakeApi2SqlError::IOError(s) ==> m@ == s@,
            self matches LakeApi2SqlError::HttpError(s) ==> m@ == s@,
            self matches LakeApi2SqlError::SendError(s) ==> m@ == s@,
            self matches LakeApi2SqlError::TiberiusError(s) ==> m@ == s@,
    {
        match self {
            LakeApi2SqlError::NotSupported { dtype, column_type } => {
                let mut m = String::from_str("no conversion rule for source type ");
                m.append(dtype.as_str());
                m.append(" to destination type ");
                let tn = column_type.name();
                m.append(tn.as_str());
                m
            },
            LakeApi2SqlError::JoinError(s) => s.clone(),
            LakeApi2SqlError::ArrowError(s) => s.clone(),
            LakeApi2SqlError::IOError(s) => s.clone(),
            LakeApi2SqlError::HttpError(s) => s.clone(),
            LakeApi2SqlError::SendError(s) => s.clone(),
            LakeApi2SqlError::TiberiusError(s) => s.clone(),
        }
    }
}

} // verus!
