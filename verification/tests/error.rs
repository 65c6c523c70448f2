use base64::engine::general_purpose::STANDARD;
use base64::Engine;
use coverage_http::encoding::Base64Error;
use coverage_http::error::CoverageError;

fn text(s: &str) -> String {
    s.to_string()
}

#[test]
fn every_error_has_its_message() {
    let cases = [
        (CoverageError::Http(text("x")), "HTTP request failed: x"),
        (CoverageError::Io(text("x")), "IO error: x"),
        (CoverageError::Json(text("x")), "JSON error: x"),
        (
            CoverageError::Base64(Base64Error::InvalidPadding),
            "Base64 decode error: Invalid padding",
        ),
        (CoverageError::Kubectl(text("x")), "kubectl error: x"),
        (CoverageError::LlvmProfdata(text("x")), "llvm-profdata error: x"),
        (CoverageError::LlvmCov(text("x")), "llvm-cov error: x"),
        (CoverageError::ToolNotFound(text("x")), "Tool not found: x"),
        (CoverageError::CoverageNotEnabled, "Coverage not enabled on target"),
        (CoverageError::Other(text("x")), "x"),
    ];
    for (error, message) in cases {
        assert_eq!(error.message(), message);
    }
}

#[test]
fn base64_errors_read_as_the_decoder_displays_them() {
    let cases = [
        ("a?==", Base64Error::InvalidByte { offset: 1, byte: b'?' }),
        ("QUJDR", Base64Error::InvalidLength { length: 5 }),
        ("QR==", Base64Error::InvalidLastSymbol { offset: 1, byte: b'R' }),
        ("QQ", Base64Error::InvalidPadding),
    ];
    for (data, error) in cases {
        assert_eq!(error.message(), STANDARD.decode(data).unwrap_err().to_string());
    }
}
