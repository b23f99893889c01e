//! What can go wrong on a device.

use vstd::prelude::*;

verus! {

/// An error of this library.
#[derive(Debug, PartialEq, Eq)]
#[allow(inconsistent_fields)]
pub enum Error {
    /// A C string of the native library is not UTF-8.
    CStringFailed,
    /// The native library could not attach to the process.
    DeviceAttachError,
    /// The native library could not tell the system parameters.
    DeviceQuerySystemParametersFailed { code: i32, message: String },
    /// The native library could not spawn the process.
    SpawnFailed { code: i32, message: String },
    /// The native library could not resume the process.
    ResumeFailed { code: i32, message: String },
    /// The native library could not kill the process.
    KillFailed { code: i32, message: String },
    /// Input could not be sent to the process. Where there is no code, the
    /// native library was not asked.
    DeviceInputFailed { pid: u32, code: Option<i32>, message: String },
}

/// An [`Error`], with its text as a sequence of characters.
#[allow(inconsistent_fields)]
pub enum ErrorView {
    CStringFailed,
    DeviceAttachError,
    DeviceQuerySystemParametersFailed { code: i32, message: Seq<char> },
    SpawnFailed { code: i32, message: Seq<char> },
    ResumeFailed { code: i32, message: Seq<char> },
    KillFailed { code: i32, message: Seq<char> },
    DeviceInputFailed { pid: u32, code: Option<i32>, message: Seq<char> },
}

impl View for Error {
    type V = ErrorView;

    open spec fn view(&self) -> ErrorView {
        match self {
            Error::CStringFailed => ErrorView::CStringFailed,
            Error::DeviceAttachError => ErrorView::DeviceAttachError,
            Error::DeviceQuerySystemParametersFailed { code, message } => {
                ErrorView::DeviceQuerySystemParametersFailed { code: *code, message: message@ }
            },
            Error::SpawnFailed { code, message } => ErrorView::SpawnFailed {
                code: *code,
                message: message@,
            },
            Error::ResumeFailed { code, message } => ErrorView::ResumeFailed {
                code: *code,
                message: message@,
            },
            Error::KillFailed { code, message } => ErrorView::KillFailed {
                code: *code,
                message: message@,
            },
            Error::DeviceInputFailed { pid, code, message } => ErrorView::DeviceInputFailed {
                pid: *pid,
                code: *code,
                message: message@,
            },
        }
    }
}

/// A result, with its error as a view.
pub open spec fn outcome<T>(result: Result<T, Error>) -> Result<T, ErrorView> {
    match result {
        Ok(value) => Ok(value),
        Err(error) => Err(error@),
    }
}

/// An error that the native library reported: its code, and the bytes of its
/// message without the zero that ends them.
#[derive(Debug, PartialEq, Eq)]
pub struct NativeError {
    pub code: i32,
    pub message: Vec<u8>,
}

impl NativeError {
    /// The message as text, where it is text.
    pub open spec fn text(self) -> Seq<char> {
        vstd::utf8::decode_utf8(self.message@)
    }

    /// What a caller is told of this error: `failure`, or, where the message is
    /// not UTF-8, that it could not be read.
    pub open spec fn reported_as(self, failure: ErrorView) -> ErrorView {
        if vstd::utf8::valid_utf8(self.message@) {
            failure
        } else {
            ErrorView::CStringFailed
        }
    }

    /// Reads the message.
    pub fn message_text(&self) -> (text: Result<String, Error>)
        ensures
            match text {
                Ok(message) => vstd::utf8::valid_utf8(self.message@) && message@ == self.text()
                    && vstd::utf8::encode_utf8(message@) == self.message@,
                Err(error) => !vstd::utf8::valid_utf8(self.message@) && error
                    == Error::CStringFailed,
            },
    {
        match core::str::from_utf8(self.message.as_slice()) {
            Ok(text) => {
                proof {
                    vstd::utf8::decode_utf8_encode_utf8(self.message@);
                }
                Ok(text.to_owned())
            },
            Err(_) => Err(Error::CStringFailed),
        }
    }
}

} // verus!
