use latchlm::gemini::{self, GeminiModel};
use latchlm::openai::{self, OpenaiModel};
use latchlm::openrouter::{self, OpenrouterModel};
use latchlm::{AiModel, AiRequest, Error};

#[test]
fn test_gemini_model_try_from_valid() {
    assert_eq!(
        GeminiModel::try_from_str("gemini-2.0-flash").unwrap(),
        GeminiModel::Flash20
    );
    assert_eq!(
        GeminiModel::try_from_str("gemini-2.5-pro").unwrap(),
        GeminiModel::Pro25
    );
    assert_eq!(
        GeminiModel::try_from_str("gemini-2.0-flash-lite").unwrap(),
        GeminiModel::Flash20Lite
    );
    assert_eq!(
        GeminiModel::try_from_str("gemini-2.0-flash-thinking-exp-01-21").unwrap(),
        GeminiModel::FlashThinking
    );
}

#[test]
fn test_gemini_model_try_from_invalid() {
    let err = GeminiModel::try_from_str("nonexistent-model").unwrap_err();
    assert_eq!(err.message(), "Invalid model name: nonexistent-model");
}

#[test]
fn openai_model_try_from_valid() {
    assert_eq!(OpenaiModel::try_from_str("gpt-4o").unwrap(), OpenaiModel::Gpt4o);
    assert_eq!(
        OpenaiModel::try_from_str("gpt-5-chat-latest").unwrap(),
        OpenaiModel::Gpt5Chat
    );
    assert_eq!(OpenaiModel::try_from_str("o3-mini").unwrap(), OpenaiModel::Gpto3Mini);
}

#[test]
fn openai_model_try_from_invalid() {
    let err = OpenaiModel::try_from_str("gpt-2").unwrap_err();
    assert_eq!(err.message(), "Invalid model name: gpt-2");
}

// Narrowing a model value against its own concrete type succeeds and
// returns an equal value; against any other provider's concrete type it
// reports absence.
#[test]
fn narrowing_own_type_succeeds() {
    let m = AiModel::Gemini(GeminiModel::Flash25);
    assert_eq!(m.downcast::<GeminiModel>(), Some(GeminiModel::Flash25));

    let m = AiModel::Openai(OpenaiModel::Gpt4oMini);
    assert_eq!(m.downcast::<OpenaiModel>(), Some(OpenaiModel::Gpt4oMini));

    let m = AiModel::Openrouter(OpenrouterModel::new("openai/gpt-oss-20b".to_string()));
    let narrowed = m.downcast::<OpenrouterModel>().unwrap();
    assert_eq!(narrowed.as_str(), "openai/gpt-oss-20b");
}

#[test]
fn narrowing_foreign_type_reports_absence() {
    let gemini = AiModel::Gemini(GeminiModel::Flash20);
    assert!(gemini.downcast::<OpenaiModel>().is_none());
    assert!(gemini.downcast::<OpenrouterModel>().is_none());

    let openai = AiModel::Openai(OpenaiModel::Gpt5);
    assert!(openai.downcast::<GeminiModel>().is_none());
    assert!(openai.downcast::<OpenrouterModel>().is_none());

    let openrouter = AiModel::Openrouter(OpenrouterModel::new("x".to_string()));
    assert!(openrouter.downcast::<GeminiModel>().is_none());
    assert!(openrouter.downcast::<OpenaiModel>().is_none());
}

// Supplying a model of a foreign concrete type yields InvalidModelError
// carrying that model's wire identifier, before any request is planned.
#[test]
fn foreign_model_yields_invalid_model_error() {
    let req = AiRequest { text: "Test Request".to_string() };

    let foreign = AiModel::Openrouter(OpenrouterModel::new("invalid_model".to_string()));
    match gemini::plan_request(&foreign, &req) {
        Err(Error::InvalidModelError(w)) => assert_eq!(w, "invalid_model"),
        other => panic!("expected InvalidModelError, got {:?}", other),
    }
    match gemini::plan_streaming(&foreign, &req) {
        Err(Error::InvalidModelError(w)) => assert_eq!(w, "invalid_model"),
        other => panic!("expected InvalidModelError, got {:?}", other),
    }

    let foreign = AiModel::Gemini(GeminiModel::Pro25);
    match openai::plan_request(&foreign, &req) {
        Err(Error::InvalidModelError(w)) => assert_eq!(w, "gemini-2.5-pro"),
        other => panic!("expected InvalidModelError, got {:?}", other),
    }
    match openrouter::plan_request(&foreign, &req) {
        Err(Error::InvalidModelError(w)) => assert_eq!(w, "gemini-2.5-pro"),
        other => panic!("expected InvalidModelError, got {:?}", other),
    }
    match openrouter::plan_streaming(&foreign, &req) {
        Err(Error::InvalidModelError(w)) => assert_eq!(w, "gemini-2.5-pro"),
        other => panic!("expected InvalidModelError, got {:?}", other),
    }
}

#[test]
fn plans_carry_path_model_and_prompt() {
    let req = AiRequest { text: "Hello".to_string() };

    let m = AiModel::Gemini(GeminiModel::Flash20);
    let plan = gemini::plan_request(&m, &req).unwrap();
    assert_eq!(plan.path, "/v1beta/models/gemini-2.0-flash:generateContent");
    assert_eq!(plan.model, "gemini-2.0-flash");
    assert_eq!(plan.text, "Hello");
    assert!(!plan.stream);

    let plan = gemini::plan_streaming(&m, &req).unwrap();
    assert_eq!(
        plan.path,
        "/v1beta/models/gemini-2.0-flash:streamGenerateContent?alt=sse"
    );
    assert!(plan.stream);

    let m = AiModel::Openai(OpenaiModel::Gpt41);
    let plan = openai::plan_request(&m, &req).unwrap();
    assert_eq!(plan.path, "");
    assert_eq!(plan.model, "gpt-4.1");

    let m = AiModel::Openrouter(OpenrouterModel::new("google/gemma-3n-e2b-it:free".to_string()));
    let plan = openrouter::plan_streaming(&m, &req).unwrap();
    assert_eq!(plan.path, "chat/completions");
    assert_eq!(plan.model, "google/gemma-3n-e2b-it:free");
    assert!(plan.stream);
}

#[test]
fn gemini_variants_and_model_ids() {
    let vars = GeminiModel::variants();
    assert_eq!(vars.len(), 5);
    assert_eq!(vars[0].id, "gemini-2.0-flash");
    assert_eq!(vars[0].name, "Gemini 2.0 Flash");
    assert_eq!(vars[3].id, "gemini-2.5-pro");
    assert_eq!(vars[3].name, "Gemini 2.5 Pro");
    // ids are unique within the fixed catalog
    for i in 0..vars.len() {
        for j in 0..vars.len() {
            if i != j {
                assert_ne!(vars[i].id, vars[j].id);
            }
        }
    }
}

#[test]
fn openai_variants_and_model_ids() {
    let vars = OpenaiModel::variants();
    assert_eq!(vars.len(), 13);
    assert_eq!(vars[0].id, "o3");
    assert_eq!(vars[0].name, "GPT-o3");
    assert_eq!(vars[12].id, "gpt-4o-mini");
    assert_eq!(vars[12].name, "GPT-4o Mini");
    for i in 0..vars.len() {
        for j in 0..vars.len() {
            if i != j {
                assert_ne!(vars[i].id, vars[j].id);
            }
        }
    }
}

#[test]
fn openrouter_model_id_uses_wire_identifier_twice() {
    let m = OpenrouterModel::new("openai/gpt-5".to_string());
    let id = m.model_id();
    assert_eq!(id.id, "openai/gpt-5");
    assert_eq!(id.name, "openai/gpt-5");
    assert_eq!(m.as_str(), "openai/gpt-5");
}

#[test]
fn ai_model_wire_identifier_projects_through() {
    assert_eq!(AiModel::Gemini(GeminiModel::FlashThinking).as_str(),
        "gemini-2.0-flash-thinking-exp-01-21");
    assert_eq!(AiModel::Openai(OpenaiModel::Gpt5Nano).as_str(), "gpt-5-nano");
    let m = AiModel::Openrouter(OpenrouterModel::new("a/b".to_string()));
    assert_eq!(m.model_id().id, "a/b");
}
