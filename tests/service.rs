use health_suggest::handler::{begin, finish, HandlerResponse, HandlerStep};
use health_suggest::prompt::{bearer_header, build_request, user_prompt, Role};
use health_suggest::reading::{format_one_decimal, HealthReading};
use health_suggest::reply::{
    extract_suggestion, interpret_reply, CompletionResponse, ProviderReply, SuggestionError,
};

fn reading(temp: i64, pulse: i64, spo2: i64, language: &str) -> HealthReading {
    HealthReading {
        temp_tenths: temp,
        pulse_tenths: pulse,
        spo2_tenths: spo2,
        language: language.to_string(),
    }
}

fn response(choices: &[&str]) -> CompletionResponse {
    CompletionResponse { choices: choices.iter().map(|c| c.to_string()).collect() }
}

#[test]
fn one_decimal_formatting() {
    assert_eq!(format_one_decimal(374), "37.4");
    assert_eq!(format_one_decimal(0), "0.0");
    assert_eq!(format_one_decimal(7), "0.7");
    assert_eq!(format_one_decimal(-5), "-0.5");
    assert_eq!(format_one_decimal(-123), "-12.3");
    assert_eq!(format_one_decimal(1000), "100.0");
    assert_eq!(format_one_decimal(i64::MAX), "922337203685477580.7");
    assert_eq!(format_one_decimal(i64::MIN), "-922337203685477580.8");
}

#[test]
fn request_has_system_then_user_message() {
    let req = build_request(&reading(374, 723, 981, "English"));
    assert_eq!(req.model, "gpt-3.5-turbo");
    assert_eq!(req.messages.len(), 2);
    assert_eq!(req.messages[0].role, Role::System);
    assert_eq!(req.messages[0].role.as_str(), "system");
    assert_eq!(req.messages[0].content, "You are a health monitoring assistant.");
    assert_eq!(req.messages[1].role, Role::User);
    assert_eq!(req.messages[1].role.as_str(), "user");
    let user = &req.messages[1].content;
    assert!(user.contains("37.4"));
    assert!(user.contains("72.3"));
    assert!(user.contains("98.1"));
    assert!(user.contains("English"));
}

#[test]
fn user_prompt_exact_text() {
    let text = user_prompt(&reading(-20, 0, 1005, "Spanish"));
    assert_eq!(
        text,
        "A patient has the following health readings:\n- Body Temperature: -2.0°C\n- Pulse Rate: 0.0 BPM\n- SpO₂ Level: 100.5%\n\nBased on these values, please provide a health assessment and any recommendations in Spanish."
    );
}

#[test]
fn language_passed_through_verbatim() {
    let req = build_request(&reading(365, 600, 970, "Português (BR)"));
    assert!(req.messages[1].content.ends_with("recommendations in Português (BR)."));
}

#[test]
fn bearer_header_prefixes_credential() {
    assert_eq!(bearer_header("k-123"), "Bearer k-123");
    assert_eq!(bearer_header(""), "Bearer ");
}

#[test]
fn first_choice_returned_verbatim() {
    let resp = response(&["  first\nline ", "second"]);
    assert_eq!(extract_suggestion(&resp), "  first\nline ");
    let reply = ProviderReply::Received { status: 200, body: Some(response(&["take rest"])) };
    assert_eq!(interpret_reply(&reply), Ok("take rest".to_string()));
}

#[test]
fn empty_choices_give_fallback() {
    assert_eq!(extract_suggestion(&response(&[])), "No suggestion available.");
    let reply = ProviderReply::Received { status: 200, body: Some(response(&[])) };
    assert_eq!(interpret_reply(&reply), Ok("No suggestion available.".to_string()));
    match finish(&reply) {
        HandlerResponse::Suggestion(res) => assert_eq!(res.suggestion, "No suggestion available."),
        _ => panic!("expected a suggestion"),
    }
}

#[test]
fn failure_status_is_server_error() {
    let reply = ProviderReply::Received { status: 401, body: Some(response(&["ignored"])) };
    assert_eq!(interpret_reply(&reply), Err(SuggestionError::UpstreamProtocol));
    let resp = finish(&reply);
    assert_eq!(resp.status(), 500);
    assert_eq!(
        resp.failure_text(),
        Some("Failed to get suggestion: the provider returned an unusable reply".to_string())
    );
    let reply = ProviderReply::Received { status: 199, body: Some(response(&["x"])) };
    assert_eq!(finish(&reply).status(), 500);
    let reply = ProviderReply::Received { status: 300, body: Some(response(&["x"])) };
    assert_eq!(finish(&reply).status(), 500);
}

#[test]
fn undecodable_body_is_server_error() {
    let reply = ProviderReply::Received { status: 200, body: None };
    assert_eq!(interpret_reply(&reply), Err(SuggestionError::UpstreamProtocol));
    assert_eq!(finish(&reply).status(), 500);
}

#[test]
fn transport_failure_is_server_error() {
    let reply = ProviderReply::TransportFailure;
    assert_eq!(interpret_reply(&reply), Err(SuggestionError::UpstreamTransport));
    let resp = finish(&reply);
    assert_eq!(resp.status(), 500);
    assert_eq!(
        resp.failure_text(),
        Some("Failed to get suggestion: the provider could not be reached".to_string())
    );
}

#[test]
fn malformed_body_makes_no_call() {
    let mut calls = 0;
    match begin(None) {
        HandlerStep::CallProvider(_) => calls += 1,
        HandlerStep::Respond(resp) => {
            assert_eq!(resp.status(), 400);
            assert!(resp.failure_text().is_some());
        }
    }
    assert_eq!(calls, 0);
}

#[test]
fn reading_makes_exactly_one_call() {
    match begin(Some(reading(374, 723, 981, "English"))) {
        HandlerStep::CallProvider(req) => {
            assert_eq!(req.messages.len(), 2);
            assert!(req.messages[1].content.contains("Body Temperature: 37.4°C"));
        }
        HandlerStep::Respond(_) => panic!("expected a provider call"),
    }
}

#[test]
fn end_to_end_normal_readings() {
    let inbound: serde_json::Value =
        serde_json::from_str(r#"{"temp":37.4,"pulse":72.3,"spO2":98.1,"language":"English"}"#)
            .unwrap();
    let tenths = |key: &str| (inbound[key].as_f64().unwrap() * 10.0).round() as i64;
    let decoded = reading(
        tenths("temp"),
        tenths("pulse"),
        tenths("spO2"),
        inbound["language"].as_str().unwrap(),
    );
    let req = match begin(Some(decoded)) {
        HandlerStep::CallProvider(req) => req,
        HandlerStep::Respond(_) => panic!("expected a provider call"),
    };
    assert!(req.messages[1].content.contains("37.4"));
    assert!(req.messages[1].content.contains("72.3"));
    assert!(req.messages[1].content.contains("98.1"));

    let stub: serde_json::Value = serde_json::from_str(
        r#"{"choices":[{"message":{"content":"Readings are within normal range."}}]}"#,
    )
    .unwrap();
    let choices = stub["choices"]
        .as_array()
        .unwrap()
        .iter()
        .map(|c| c["message"]["content"].as_str().unwrap().to_string())
        .collect();
    let reply =
        ProviderReply::Received { status: 200, body: Some(CompletionResponse { choices }) };
    let resp = finish(&reply);
    assert_eq!(resp.status(), 200);
    assert_eq!(resp.failure_text(), None);
    let suggestion = match resp {
        HandlerResponse::Suggestion(res) => res.suggestion,
        _ => panic!("expected a suggestion"),
    };
    let mut body = serde_json::Map::new();
    body.insert("suggestion".to_string(), serde_json::Value::String(suggestion));
    assert_eq!(
        serde_json::Value::Object(body).to_string(),
        r#"{"suggestion":"Readings are within normal range."}"#
    );
}
