//! The error taxonomy of the transcription core. Every failure ends the
//! current attempt; each variant renders as a descriptive user-facing message.

use vstd::prelude::*;
use vstd::string::StringExecFns;
use crate::text::spec_decimal;
use crate::text::u16_to_decimal;

verus! {

#[derive(Debug)]
pub enum SttError {
    /// The feature flag is off.
    NotEnabled,
    /// No provider in the list matches the configured provider id.
    NoProviderConfigured,
    /// A mutation referenced a provider id absent from the provider list.
    ProviderNotFound { id: String },
    /// A base-URL edit was attempted on a provider with a fixed URL.
    BaseUrlEditNotAllowed { label: String },
    /// The multipart request could not be constructed.
    RequestBuildError { cause: String },
    /// The transport failed before a response arrived.
    NetworkError { cause: String },
    /// The response body could not be drained.
    ResponseReadError { cause: String },
    /// The endpoint answered with a non-success status; the raw body is kept
    /// verbatim for diagnostics.
    HttpStatusError { status: u16, body: String },
    /// The response body was not the expected JSON shape.
    ParseError { cause: String, raw_body: String },
    /// The transcribed text was empty after trimming.
    EmptyTranscription,
}

/// The user-facing message of each error.
pub open spec fn spec_message(e: SttError) -> Seq<char> {
    match e {
        SttError::NotEnabled => "STT API is not enabled"@,
        SttError::NoProviderConfigured => "No STT API provider configured"@,
        SttError::ProviderNotFound { id } => "Provider '"@ + id@ + "' not found"@,
        SttError::BaseUrlEditNotAllowed { label } => "Provider '"@ + label@
            + "' does not allow editing the base URL"@,
        SttError::RequestBuildError { cause } => "Failed to create file part: "@ + cause@,
        SttError::NetworkError { cause } => "Failed to send STT request: "@ + cause@,
        SttError::ResponseReadError { cause } => "Failed to read response body: "@ + cause@,
        SttError::HttpStatusError { status, body } => "STT API error ("@ + spec_decimal(
            status as int,
        ) + "): "@ + body@,
        SttError::ParseError { cause, raw_body } => "Failed to parse STT response: "@ + cause@
            + ". Body: "@ + raw_body@,
        SttError::EmptyTranscription => "STT API returned empty transcription"@,
    }
}

impl SttError {
    /// Renders the error as its user-facing message.
    pub fn message(&self) -> (r: String)
        ensures
            r@ == spec_message(*self),
    {
        match self {
            SttError::NotEnabled => String::from_str("STT API is not enabled"),
            SttError::NoProviderConfigured => String::from_str("No STT API provider configured"),
            SttError::ProviderNotFound { id } => String::from_str("Provider '").concat(
                id.as_str(),
            ).concat("' not found"),
            SttError::BaseUrlEditNotAllowed { label } => String::from_str("Provider '").concat(
                label.as_str(),
            ).concat("' does not allow editing the base URL"),
            SttError::RequestBuildError { cause } => String::from_str(
                "Failed to create file part: ",
            ).concat(cause.as_str()),
            SttError::NetworkError { cause } => String::from_str(
                "Failed to send STT request: ",
            ).concat(cause.as_str()),
            SttError::ResponseReadError { cause } => String::from_str(
                "Failed to read response body: ",
            ).concat(cause.as_str()),
            SttError::HttpStatusError { status, body } => {
                let digits = u16_to_decimal(*status);
                String::from_str("STT API error (").concat(digits.as_str()).concat("): ").concat(
                    body.as_str(),
                )
            },
            SttError::ParseError { cause, raw_body } => String::from_str(
                "Failed to parse STT response: ",
            ).concat(cause.as_str()).concat(". Body: ").concat(raw_body.as_str()),
            SttError::EmptyTranscription => String::from_str(
                "STT API returned empty transcription",
            ),
        }
    }
}

} // verus!
