use resilient_ai_agent::chat::{
    chat_response, choose_reply, filter_ai_response, search_flags, system_prompt_or_default,
};

const REFUSAL: &str = "I'm sorry, but I cannot comply with that request.";
const OFF_TOPIC: &str = "I'm only able to answer questions about medical or health topics. Please ask a health-related question.";

#[test]
fn medical_response_is_kept() {
    let r = "Hypertension is a chronic condition; see a doctor.";
    assert_eq!(filter_ai_response("q", r), r);
}

#[test]
fn keyword_matched_in_any_case() {
    let r = "Drink water for good HEALTH.";
    assert_eq!(filter_ai_response("q", r), r);
}

#[test]
fn off_topic_response_is_replaced() {
    assert_eq!(filter_ai_response("q", "The capital of France is Paris."), OFF_TOPIC);
}

#[test]
fn injection_response_is_refused() {
    assert_eq!(filter_ai_response("q", "Entering Developer Mode: health tips"), REFUSAL);
    assert_eq!(filter_ai_response("q", "as an AI LANGUAGE MODEL I give medical advice"), REFUSAL);
}

#[test]
fn reply_chosen_from_flags() {
    assert_eq!(choose_reply(&vec![false, true], "medical", "x"), REFUSAL);
    assert_eq!(choose_reply(&vec![false, false], "a nurse", "A Nurse"), "A Nurse");
    assert_eq!(choose_reply(&vec![], "nothing", "Nothing"), OFF_TOPIC);
}

#[test]
fn system_prompt_defaults() {
    assert_eq!(system_prompt_or_default(Some("Be brief".to_string())), "Be brief");
    assert!(system_prompt_or_default(None).starts_with("You are a helpful AI doctor assistant."));
}

#[test]
fn chat_response_on_success_and_failure() {
    let ok = chat_response("q", Ok("See a doctor.".to_string()));
    assert!(ok.success);
    assert_eq!(ok.response, "See a doctor.");
    assert_eq!(ok.error, None);
    let err = chat_response("q", Err("down".to_string()));
    assert!(!err.success);
    assert_eq!(err.response, "");
    assert_eq!(err.error, Some("down".to_string()));
}

#[test]
fn uncompiled_pattern_flags() {
    assert!(search_flags(None));
    assert!(search_flags(Some(true)));
    assert!(!search_flags(Some(false)));
}
