use radishlex::runtime_context::{
    LearningContext, PersonalizationPolicy, RuntimeError, RuntimeField,
};
use PersonalizationPolicy::{EngineOnly, ReadOnly, ReadWrite};

#[test]
fn policy_priority_is_secure_then_privacy_then_normal() {
    assert_eq!(
        LearningContext::default().policy(),
        PersonalizationPolicy::ReadWrite
    );
    assert_eq!(
        LearningContext::new("editor".to_string())
            .expect("context")
            .with_privacy_mode(true)
            .policy(),
        PersonalizationPolicy::ReadOnly
    );
    assert_eq!(
        LearningContext::new("editor".to_string())
            .expect("context")
            .with_privacy_mode(true)
            .with_secure_input(true)
            .policy(),
        PersonalizationPolicy::EngineOnly
    );
    assert_eq!(
        LearningContext::new("editor".to_string())
            .expect("context")
            .with_context_known(false)
            .policy(),
        PersonalizationPolicy::EngineOnly
    );
}

#[test]
fn rejects_raw_application_identifiers_as_context() {
    let error =
        LearningContext::new("com.example.editor".to_string()).expect_err("raw app id rejects");
    assert!(error.describe().contains("context_kind"));
}

#[test]
fn every_coarse_category_is_accepted_and_kept() {
    for kind in [
        "general", "browser", "chat", "code", "editor", "office", "terminal", "other",
    ] {
        let context = LearningContext::new(kind.to_string()).expect("coarse category");
        assert_eq!(context.context_kind(), kind);
        assert_eq!(context.policy(), PersonalizationPolicy::ReadWrite);
    }
    assert_eq!(
        LearningContext::new("Editor".to_string()),
        Err(RuntimeError::InvalidInput {
            field: RuntimeField::ContextKind
        })
    );
    assert!(LearningContext::new(String::new()).is_err());
    assert_eq!(LearningContext::default().context_kind(), "general");
}

#[test]
fn sensitive_application_blocks_learning_even_in_privacy_mode() {
    let context = LearningContext::new("chat".to_string())
        .expect("context")
        .with_privacy_mode(true)
        .with_sensitive_application(true);
    assert_eq!(context.policy(), PersonalizationPolicy::EngineOnly);
    let cleared = context.with_sensitive_application(false);
    assert_eq!(cleared.policy(), PersonalizationPolicy::ReadOnly);
}

#[test]
fn restriction_keeps_the_less_permissive_policy() {
    assert_eq!(ReadWrite.restricted_by(ReadWrite), ReadWrite);
    assert_eq!(ReadWrite.restricted_by(ReadOnly), ReadOnly);
    assert_eq!(ReadOnly.restricted_by(ReadWrite), ReadOnly);
    assert_eq!(ReadOnly.restricted_by(EngineOnly), EngineOnly);
    assert_eq!(EngineOnly.restricted_by(ReadWrite), EngineOnly);
    assert_eq!(
        RuntimeError::ClockFailure.describe(),
        "system clock is before the Unix epoch"
    );
}
