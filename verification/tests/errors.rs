use latchlm::gemini::GeminiError;
use latchlm::http::check_status;
use latchlm::openai::OpenaiError;
use latchlm::openrouter::OpenrouterError;
use latchlm::Error;

#[test]
fn error_messages_render_each_kind() {
    assert_eq!(
        Error::TransportError("connection refused".to_string()).message(),
        "Request failed: connection refused"
    );
    assert_eq!(
        Error::ApiError { status: 404, message: "not found".to_string() }.message(),
        "Api error: 404 - not found "
    );
    assert_eq!(
        Error::ParseError("eof".to_string()).message(),
        "Failed to parse the response"
    );
    assert_eq!(
        Error::InvalidModelError("gpt-9".to_string()).message(),
        "Invalid model name: gpt-9"
    );
    assert_eq!(
        Error::ProviderError { provider: "Gemini".to_string(), error: "Missing API key".to_string() }
            .message(),
        "Provider settings error: Gemini : Missing API key"
    );
}

// A non-2xx response of status 401 whose body contains "UNAUTHENTICATED"
// yields ApiError{status: 401} with that body carried verbatim.
#[test]
fn unauthenticated_response_yields_api_error() {
    let body = "{\"error\": {\"code\": 401, \"message\": \"Invalid API key\", \"status\": \"UNAUTHENTICATED\"}}";
    match check_status(401, body.to_string()) {
        Err(Error::ApiError { status, message }) => {
            assert_eq!(status, 401);
            assert!(message.contains("UNAUTHENTICATED"));
            assert_eq!(message, body);
        },
        other => panic!("expected ApiError, got {:?}", other),
    }
}

#[test]
fn success_statuses_pass_the_body_through() {
    assert_eq!(check_status(200, "ok".to_string()).unwrap(), "ok");
    assert_eq!(check_status(204, String::new()).unwrap(), "");
    assert_eq!(check_status(299, "edge".to_string()).unwrap(), "edge");
}

#[test]
fn non_success_statuses_carry_status_and_body() {
    match check_status(500, "oops".to_string()) {
        Err(Error::ApiError { status, message }) => {
            assert_eq!(status, 500);
            assert_eq!(message, "oops");
        },
        other => panic!("expected ApiError, got {:?}", other),
    }
    match check_status(199, "early".to_string()) {
        Err(Error::ApiError { status, .. }) => assert_eq!(status, 199),
        other => panic!("expected ApiError, got {:?}", other),
    }
    match check_status(300, "redirect".to_string()) {
        Err(Error::ApiError { status, .. }) => assert_eq!(status, 300),
        other => panic!("expected ApiError, got {:?}", other),
    }
}

#[test]
fn builder_errors_map_into_provider_errors() {
    match GeminiError::MissingApiKeyError.to_error() {
        Error::ProviderError { provider, error } => {
            assert_eq!(provider, "Gemini");
            assert_eq!(error, "Missing API key");
        },
        other => panic!("expected ProviderError, got {:?}", other),
    }
    match GeminiError::MissingClientError.to_error() {
        Error::ProviderError { provider, error } => {
            assert_eq!(provider, "Gemini");
            assert_eq!(error, "Missing reqwest::Client");
        },
        other => panic!("expected ProviderError, got {:?}", other),
    }
    match OpenaiError::MissingApiKeyError.to_error() {
        Error::ProviderError { provider, error } => {
            assert_eq!(provider, "OpenAI");
            assert_eq!(error, "Missing API Key");
        },
        other => panic!("expected ProviderError, got {:?}", other),
    }
    match OpenrouterError::HeaderParseError("bad byte".to_string()).to_error() {
        Error::ProviderError { provider, error } => {
            assert_eq!(provider, "OpenRouter");
            assert_eq!(error, "Failed to parse header: bad byte");
        },
        other => panic!("expected ProviderError, got {:?}", other),
    }
}

#[test]
fn transport_error_wraps_detail() {
    let e = latchlm::http::transport_error("timed out".to_string());
    match e {
        Error::TransportError(d) => assert_eq!(d, "timed out"),
        other => panic!("expected TransportError, got {:?}", other),
    }
}

#[test]
fn string_utilities_decide_exactly() {
    assert_eq!(latchlm::strutil::str_trim("  [DONE]\r\n"), "[DONE]");
    assert_eq!(latchlm::strutil::str_trim("\t"), "");
    assert_eq!(latchlm::strutil::str_trim("a b"), "a b");
    assert_eq!(latchlm::strutil::u64_to_string(0), "0");
    assert_eq!(latchlm::strutil::u64_to_string(40100), "40100");
    assert_eq!(latchlm::strutil::u64_to_string(u64::MAX), "18446744073709551615");
}
