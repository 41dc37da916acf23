//! Application-level error types and their IPC classification.
//!
//! `XenotesterError` carries a detail string per failure domain and renders a
//! stable human-readable message; `IpcError` pairs that message with a stable
//! machine-readable code so a consumer can classify failures without parsing
//! message text.

use vstd::prelude::*;
use vstd::string::StringExecFns;

verus! {

/// Application-level errors.
#[derive(Debug)]
pub enum XenotesterError {
    /// Screen capture failed; carries the underlying detail.
    CaptureError(String),
    /// An input (mouse/keyboard) operation failed.
    InputError(String),
    /// A required permission is missing.
    PermissionError(String),
    /// Configuration lookup failed.
    ConfigError(String),
    /// Image decoding or processing failed.
    ImageError(String),
    /// The operation was cancelled by an external stop request.
    Cancelled,
}

impl XenotesterError {
    /// The message of this error: a fixed prefix naming the failed operation,
    /// followed by the carried detail.
    pub open spec fn spec_message(&self) -> Seq<char> {
        match self {
            XenotesterError::CaptureError(s) => "Screenshot capture failed: "@ + s@,
            XenotesterError::InputError(s) => "Input operation failed: "@ + s@,
            XenotesterError::PermissionError(s) => "Permission denied: "@ + s@,
            XenotesterError::ConfigError(s) => "Configuration error: "@ + s@,
            XenotesterError::ImageError(s) => "Image processing error: "@ + s@,
            XenotesterError::Cancelled => "Operation cancelled"@,
        }
    }

    /// The stable upper-case code of this error's variant.
    pub open spec fn spec_code(&self) -> Seq<char> {
        match self {
            XenotesterError::CaptureError(_) => "CAPTURE_ERROR"@,
            XenotesterError::InputError(_) => "INPUT_ERROR"@,
            XenotesterError::PermissionError(_) => "PERMISSION_ERROR"@,
            XenotesterError::ConfigError(_) => "CONFIG_ERROR"@,
            XenotesterError::ImageError(_) => "IMAGE_ERROR"@,
            XenotesterError::Cancelled => "CANCELLED"@,
        }
    }

    /// Render the error's message.
    pub fn message(&self) -> (r: String)
        ensures
            r@ == self.spec_message(),
    {
        match self {
            XenotesterError::CaptureError(s) => String::from_str(
                "Screenshot capture failed: ",
            ).concat(s.as_str()),
            XenotesterError::InputError(s) => String::from_str("Input operation failed: ").concat(
                s.as_str(),
            ),
            XenotesterError::PermissionError(s) => String::from_str("Permission denied: ").concat(
                s.as_str(),
            ),
            XenotesterError::ConfigError(s) => String::from_str("Configuration error: ").concat(
                s.as_str(),
            ),
            XenotesterError::ImageError(s) => String::from_str(
                "Image processing error: ",
            ).concat(s.as_str()),
            XenotesterError::Cancelled => "Operation cancelled".to_owned(),
        }
    }
}

/// Serializable error shape for IPC responses: a stable code and a message.
#[derive(Debug)]
pub struct IpcError {
    pub code: String,
    pub message: String,
}

impl IpcError {
    /// Classify an application error for IPC: the variant's stable code
    /// together with the rendered message.
    pub fn from(err: XenotesterError) -> (r: IpcError)
        ensures
            r.code@ == err.spec_code(),
            r.message@ == err.spec_message(),
    {
        let message = err.message();
        let code = match &err {
            XenotesterError::CaptureError(_) => "CAPTURE_ERROR".to_owned(),
            XenotesterError::InputError(_) => "INPUT_ERROR".to_owned(),
            XenotesterError::PermissionError(_) => "PERMISSION_ERROR".to_owned(),
            XenotesterError::ConfigError(_) => "CONFIG_ERROR".to_owned(),
            XenotesterError::ImageError(_) => "IMAGE_ERROR".to_owned(),
            XenotesterError::Cancelled => "CANCELLED".to_owned(),
        };
        IpcError { code, message }
    }
}

/// Build a message from a stable prefix and a detail. The contract pins the
/// prefix, so callers can promise what a message starts with.
pub fn prefixed_message(prefix: &str, detail: &str) -> (r: String)
    ensures
        r@ == prefix@ + detail@,
        prefix@.is_prefix_of(r@),
{
    let r = String::from_str(prefix).concat(detail);
    proof {
        assert(prefix@ =~= (prefix@ + detail@).subrange(0, prefix@.len() as int));
    }
    r
}

} // verus!
