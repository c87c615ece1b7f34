use radishlex::ranker_model::{
    deleted_term_blocks, is_blocked_by_deleted, reading_matches, DeletedTermSummary, RankerError,
};
use radishlex::runtime_context::{CompositionPolicy, LearningContext, PersonalizationPolicy};

#[test]
fn deleted_terms_block_matching_candidates() {
    let deleted = DeletedTermSummary::new("luobo".to_string(), "萝卜".to_string(), None);
    assert!(deleted_term_blocks(&deleted, "luobo", "萝卜", Some("luo bo")));
    assert!(!deleted_term_blocks(&deleted, "luob", "萝卜", None));
    let with_reading =
        DeletedTermSummary::new("luobo".to_string(), "萝卜".to_string(), Some("luo bo".to_string()));
    assert!(!deleted_term_blocks(&with_reading, "luobo", "萝卜", Some("luo2 bo")));
    assert!(deleted_term_blocks(&with_reading, "luobo", "萝卜", None));
    assert!(is_blocked_by_deleted(&vec![deleted.clone(), with_reading.clone()], "luobo", "萝卜", Some("x")));
    assert!(!is_blocked_by_deleted(&Vec::new(), "luobo", "萝卜", None));
    assert!(reading_matches(None, Some("a")));
    assert!(!reading_matches(Some("a"), Some("b")));
    let error = RankerError::invalid("engine_order_step", "value must be finite and non-negative");
    assert_eq!(error.field(), "engine_order_step");
}

#[test]
fn a_composition_keeps_the_strictest_context_it_saw() {
    let mut policy = CompositionPolicy::new(false);
    assert_eq!(policy.effective_policy(), PersonalizationPolicy::ReadWrite);
    policy.restrict_before_input();
    let private = LearningContext::new("chat".to_string()).expect("context").with_privacy_mode(true);
    assert!(policy.set_learning_context(private.clone()));
    assert!(!policy.set_learning_context(private));
    assert_eq!(policy.effective_policy(), PersonalizationPolicy::ReadOnly);
    assert!(policy.set_learning_context(LearningContext::default()));
    assert_eq!(policy.effective_policy(), PersonalizationPolicy::ReadOnly);
    assert!(!policy.may_record_selection());
    assert!(!policy.observe_composition(true));
    assert_eq!(policy.effective_policy(), PersonalizationPolicy::ReadOnly);
    assert!(policy.observe_composition(false));
    assert_eq!(policy.effective_policy(), PersonalizationPolicy::ReadWrite);
    assert!(policy.may_record_selection());
    assert_eq!(policy.context().context_kind(), "general");

    let precomposed = CompositionPolicy::new(true);
    assert_eq!(precomposed.effective_policy(), PersonalizationPolicy::EngineOnly);
}
