//! The library's error type.
use vstd::prelude::*;
use crate::text::concat2;

verus! {

/// Everything that can go wrong in a command.
#[derive(Debug)]
pub enum CliError {
    /// No stored authentication.
    AuthMissing,
    /// Stored authentication was rejected.
    AuthExpired,
    /// Configuration or setup problem.
    Config(String),
    /// Bad caller input.
    InvalidInput(String),
    /// The API answered with an error.
    Api { code: String, message: String },
    /// Something asked for does not exist.
    NotFound(String),
    /// A generation was rejected or errored.
    GenerationFailed(String),
    /// A download failed.
    Download(String),
    /// Transport failure.
    Http(String),
    /// Local I/O failure.
    Io(String),
}

/// The text of an error, as shown to the user.
pub open spec fn error_text(e: CliError) -> Seq<char> {
    match e {
        CliError::AuthMissing => "not authenticated: no stored Suno session"@,
        CliError::AuthExpired => "authentication expired"@,
        CliError::Config(m) => "config error: "@ + m@,
        CliError::InvalidInput(m) => "invalid input: "@ + m@,
        CliError::Api { code, message } => "API error ["@ + code@ + "]: "@ + message@,
        CliError::NotFound(m) => "not found: "@ + m@,
        CliError::GenerationFailed(m) => "generation failed: "@ + m@,
        CliError::Download(m) => "download failed: "@ + m@,
        CliError::Http(m) => "HTTP error: "@ + m@,
        CliError::Io(m) => "I/O error: "@ + m@,
    }
}

impl CliError {
    /// The text of the error (what `Display` would show).
    pub fn to_string(&self) -> (r: String)
        ensures
            r@ == error_text(*self),
    {
        match self {
            CliError::AuthMissing => "not authenticated: no stored Suno session".to_string(),
            CliError::AuthExpired => "authentication expired".to_string(),
            CliError::Config(m) => concat2("config error: ", m.as_str()),
            CliError::InvalidInput(m) => concat2("invalid input: ", m.as_str()),
            CliError::Api { code, message } => {
                let mut s = concat2("API error [", code.as_str());
                crate::text::push_str(&mut s, "]: ");
                crate::text::push_str(&mut s, message.as_str());
                s
            },
            CliError::NotFound(m) => concat2("not found: ", m.as_str()),
            CliError::GenerationFailed(m) => concat2("generation failed: ", m.as_str()),
            CliError::Download(m) => concat2("download failed: ", m.as_str()),
            CliError::Http(m) => concat2("HTTP error: ", m.as_str()),
            CliError::Io(m) => concat2("I/O error: ", m.as_str()),
        }
    }
}

} // verus!
