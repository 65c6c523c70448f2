//! What can go wrong while coverage is collected.

use crate::encoding::Base64Error;
use crate::text::{concat_texts, concat_three, decimal, decimal_text};
use vstd::prelude::*;
use vstd::string::*;

verus! {

/// Why an operation of the client failed.
#[derive(Debug, PartialEq, Eq)]
pub enum CoverageError {
    /// A request was not answered, or its answer could not be read.
    Http(String),
    /// A file, a directory or a program could not be used.
    Io(String),
    /// A record could not be written as JSON.
    Json(String),
    /// The profile data of an answer is not base64.
    Base64(Base64Error),
    /// `kubectl` failed, or found nothing.
    Kubectl(String),
    /// `llvm-profdata` failed.
    LlvmProfdata(String),
    /// `llvm-cov` failed.
    LlvmCov(String),
    /// An LLVM tool is nowhere to be found.
    ToolNotFound(String),
    /// The target runs without coverage.
    CoverageNotEnabled,
    /// Anything else.
    Other(String),
}

/// The model of a [`CoverageError`].
#[verifier::ext_equal]
pub enum ErrorView {
    Http(Seq<char>),
    Io(Seq<char>),
    Json(Seq<char>),
    Base64(Base64Error),
    Kubectl(Seq<char>),
    LlvmProfdata(Seq<char>),
    LlvmCov(Seq<char>),
    ToolNotFound(Seq<char>),
    CoverageNotEnabled,
    Other(Seq<char>),
}

impl View for CoverageError {
    type V = ErrorView;

    open spec fn view(&self) -> ErrorView {
        match *self {
            CoverageError::Http(text) => ErrorView::Http(text@),
            CoverageError::Io(text) => ErrorView::Io(text@),
            CoverageError::Json(text) => ErrorView::Json(text@),
            CoverageError::Base64(error) => ErrorView::Base64(error),
            CoverageError::Kubectl(text) => ErrorView::Kubectl(text@),
            CoverageError::LlvmProfdata(text) => ErrorView::LlvmProfdata(text@),
            CoverageError::LlvmCov(text) => ErrorView::LlvmCov(text@),
            CoverageError::ToolNotFound(text) => ErrorView::ToolNotFound(text@),
            CoverageError::CoverageNotEnabled => ErrorView::CoverageNotEnabled,
            CoverageError::Other(text) => ErrorView::Other(text@),
        }
    }
}

/// The message of a base64 error.
pub open spec fn base64_message(error: Base64Error) -> Seq<char> {
    match error {
        Base64Error::InvalidByte { offset, byte } => "Invalid symbol "@ + decimal(byte as nat)
            + ", offset "@ + decimal(offset as nat) + "."@,
        Base64Error::InvalidLength { length } => "Invalid input length: "@ + decimal(length as nat),
        Base64Error::InvalidLastSymbol { offset, byte } => "Invalid last symbol "@ + decimal(
            byte as nat,
        ) + ", offset "@ + decimal(offset as nat) + "."@,
        Base64Error::InvalidPadding => "Invalid padding"@,
    }
}

/// The message of an error.
pub open spec fn error_message(error: ErrorView) -> Seq<char> {
    match error {
        ErrorView::Http(text) => "HTTP request failed: "@ + text,
        ErrorView::Io(text) => "IO error: "@ + text,
        ErrorView::Json(text) => "JSON error: "@ + text,
        ErrorView::Base64(error) => "Base64 decode error: "@ + base64_message(error),
        ErrorView::Kubectl(text) => "kubectl error: "@ + text,
        ErrorView::LlvmProfdata(text) => "llvm-profdata error: "@ + text,
        ErrorView::LlvmCov(text) => "llvm-cov error: "@ + text,
        ErrorView::ToolNotFound(text) => "Tool not found: "@ + text,
        ErrorView::CoverageNotEnabled => "Coverage not enabled on target"@,
        ErrorView::Other(text) => text,
    }
}

impl Base64Error {
    /// The message of the error.
    pub fn message(&self) -> (r: String)
        ensures
            r@ == base64_message(*self),
    {
        match self {
            Base64Error::InvalidByte { offset, byte } => {
                let mut r = concat_three(
                    "Invalid symbol ",
                    decimal_text(*byte as u64).as_str(),
                    ", offset ",
                );
                r.append(decimal_text(*offset as u64).as_str());
                r.append(".");
                r
            },
            Base64Error::InvalidLength { length } => concat_texts(
                "Invalid input length: ",
                decimal_text(*length as u64).as_str(),
            ),
            Base64Error::InvalidLastSymbol { offset, byte } => {
                let mut r = concat_three(
                    "Invalid last symbol ",
                    decimal_text(*byte as u64).as_str(),
                    ", offset ",
                );
                r.append(decimal_text(*offset as u64).as_str());
                r.append(".");
                r
            },
            Base64Error::InvalidPadding => "Invalid padding".to_owned(),
        }
    }
}

impl CoverageError {
    /// The message of the error.
    pub fn message(&self) -> (r: String)
        ensures
            r@ == error_message(self@),
    {
        match self {
            CoverageError::Http(text) => concat_texts("HTTP request failed: ", text.as_str()),
            CoverageError::Io(text) => concat_texts("IO error: ", text.as_str()),
            CoverageError::Json(text) => concat_texts("JSON error: ", text.as_str()),
            CoverageError::Base64(error) => concat_texts(
                "Base64 decode error: ",
                error.message().as_str(),
            ),
            CoverageError::Kubectl(text) => concat_texts("kubectl error: ", text.as_str()),
            CoverageError::LlvmProfdata(text) => concat_texts(
                "llvm-profdata error: ",
                text.as_str(),
            ),
            CoverageError::LlvmCov(text) => concat_texts("llvm-cov error: ", text.as_str()),
            CoverageError::ToolNotFound(text) => concat_texts("Tool not found: ", text.as_str()),
            CoverageError::CoverageNotEnabled => "Coverage not enabled on target".to_owned(),
            CoverageError::Other(text) => text.clone(),
        }
    }
}

/// The message of an error says first what kind of failure it is, and then the reason, as it was
/// given.
pub proof fn law_message_gives_kind_and_reason(reason: Seq<char>)
    ensures
        error_message(ErrorView::Http(reason)) == "HTTP request failed: "@ + reason,
        error_message(ErrorView::Io(reason)) == "IO error: "@ + reason,
        error_message(ErrorView::Json(reason)) == "JSON error: "@ + reason,
        error_message(ErrorView::Kubectl(reason)) == "kubectl error: "@ + reason,
        error_message(ErrorView::LlvmProfdata(reason)) == "llvm-profdata error: "@ + reason,
        error_message(ErrorView::LlvmCov(reason)) == "llvm-cov error: "@ + reason,
        error_message(ErrorView::ToolNotFound(reason)) == "Tool not found: "@ + reason,
        error_message(ErrorView::Other(reason)) == reason,
        error_message(ErrorView::CoverageNotEnabled) == "Coverage not enabled on target"@,
{
}

/// The message of a base64 error names the symbol and where it stands, or the number of symbols, in
/// decimal.
pub proof fn law_base64_message_says_where(offset: usize, byte: u8, length: usize)
    ensures
        error_message(ErrorView::Base64(Base64Error::InvalidByte { offset, byte }))
            == "Base64 decode error: "@ + ("Invalid symbol "@ + decimal(byte as nat) + ", offset "@
            + decimal(offset as nat) + "."@),
        error_message(ErrorView::Base64(Base64Error::InvalidLastSymbol { offset, byte }))
            == "Base64 decode error: "@ + ("Invalid last symbol "@ + decimal(byte as nat)
            + ", offset "@ + decimal(offset as nat) + "."@),
        error_message(ErrorView::Base64(Base64Error::InvalidLength { length }))
            == "Base64 decode error: "@ + ("Invalid input length: "@ + decimal(length as nat)),
        error_message(ErrorView::Base64(Base64Error::InvalidPadding)) == "Base64 decode error: "@
            + "Invalid padding"@,
{
}

} // verus!
