//! The learning context of an input session and the personalization policy it
//! allows: what the runtime may read from and write to the user's learned data.

use vstd::prelude::*;

use crate::text::same_text;

verus! {

/// How much of the learned user data a session may use.
#[derive(Debug, Clone, Copy, PartialEq, Eq, Structural)]
pub enum PersonalizationPolicy {
    /// Engine candidates only: learned data is neither read nor written.
    EngineOnly,
    /// Learned data may rank candidates, but nothing new is learned.
    ReadOnly,
    /// Learned data is read and selections are learned.
    ReadWrite,
}

impl PersonalizationPolicy {
    /// How much the policy allows: `EngineOnly` least, `ReadWrite` most.
    pub open spec fn permission(self) -> int {
        match self {
            PersonalizationPolicy::EngineOnly => 0,
            PersonalizationPolicy::ReadOnly => 1,
            PersonalizationPolicy::ReadWrite => 2,
        }
    }

    /// The more restrictive of two policies.
    pub open spec fn restricted_by_spec(self, other: Self) -> Self {
        if self is EngineOnly || other is EngineOnly {
            PersonalizationPolicy::EngineOnly
        } else if self is ReadOnly || other is ReadOnly {
            PersonalizationPolicy::ReadOnly
        } else {
            PersonalizationPolicy::ReadWrite
        }
    }

    pub fn restricted_by(self, other: Self) -> (r: Self)
        ensures
            r == self.restricted_by_spec(other),
    {
        match (self, other) {
            (PersonalizationPolicy::EngineOnly, _) | (_, PersonalizationPolicy::EngineOnly) => {
                PersonalizationPolicy::EngineOnly
            },
            (PersonalizationPolicy::ReadOnly, _) | (_, PersonalizationPolicy::ReadOnly) => {
                PersonalizationPolicy::ReadOnly
            },
            (PersonalizationPolicy::ReadWrite, PersonalizationPolicy::ReadWrite) => {
                PersonalizationPolicy::ReadWrite
            },
        }
    }
}

/// Restricting one policy by another allows exactly as much as the less permissive
/// of the two; so the order of restrictions does not matter, and restricting twice
/// by the same policy changes nothing.
pub proof fn lemma_restriction_is_the_minimum(a: PersonalizationPolicy, b: PersonalizationPolicy, c: PersonalizationPolicy)
    ensures
        a.restricted_by_spec(b).permission() == if a.permission() <= b.permission() {
            a.permission()
        } else {
            b.permission()
        },
        a.restricted_by_spec(b) == b.restricted_by_spec(a),
        a.restricted_by_spec(b).restricted_by_spec(c) == a.restricted_by_spec(b.restricted_by_spec(c)),
        a.restricted_by_spec(a) == a,
        a.restricted_by_spec(b).permission() <= a.permission(),
{
}

/// The coarse context categories a session may name; raw application identifiers
/// are not among them.
pub open spec fn allowed_context_kind(kind: Seq<char>) -> bool {
    ||| kind == "general"@
    ||| kind == "browser"@
    ||| kind == "chat"@
    ||| kind == "code"@
    ||| kind == "editor"@
    ||| kind == "office"@
    ||| kind == "terminal"@
    ||| kind == "other"@
}

/// The input field named in a refused runtime request.
#[derive(Debug, Clone, Copy, PartialEq, Eq, Structural)]
pub enum RuntimeField {
    ContextKind,
}

impl RuntimeField {
    pub fn name(self) -> (r: &'static str)
        ensures
            r@ == "context_kind"@,
    {
        match self {
            RuntimeField::ContextKind => "context_kind",
        }
    }
}

/// Why a runtime request was refused.
#[derive(Debug, Clone, Copy, PartialEq, Eq, Structural)]
pub enum RuntimeError {
    /// An input value is outside what the runtime accepts.
    InvalidInput { field: RuntimeField },
    /// The system clock reads before the Unix epoch.
    ClockFailure,
}

impl RuntimeError {
    /// The error for a refused value of `field`.
    pub fn invalid_input(field: RuntimeField) -> (r: Self)
        ensures
            r == (RuntimeError::InvalidInput { field }),
    {
        RuntimeError::InvalidInput { field }
    }

    /// The message of the error, naming the refused field.
    pub fn describe(&self) -> (r: String)
        ensures
            *self is InvalidInput ==> r@ == "invalid context_kind: value must be a supported coarse context category"@,
            *self is ClockFailure ==> r@ == "system clock is before the Unix epoch"@,
    {
        match self {
            RuntimeError::InvalidInput { field: RuntimeField::ContextKind } => {
                "invalid context_kind: value must be a supported coarse context category".to_owned()
            },
            RuntimeError::ClockFailure => "system clock is before the Unix epoch".to_owned(),
        }
    }
}

pub struct LearningContextView {
    pub secure_input: bool,
    pub sensitive_application: bool,
    pub privacy_mode: bool,
    pub context_known: bool,
    pub context_kind: Seq<char>,
}

impl LearningContextView {
    /// Secure input, a sensitive application or an unknown context block learned
    /// data entirely; privacy mode allows reading it only; otherwise both.
    pub open spec fn policy(self) -> PersonalizationPolicy {
        if self.secure_input || self.sensitive_application || !self.context_known {
            PersonalizationPolicy::EngineOnly
        } else if self.privacy_mode {
            PersonalizationPolicy::ReadOnly
        } else {
            PersonalizationPolicy::ReadWrite
        }
    }
}

/// What the runtime knows of the field being typed into.
#[derive(Debug, Clone, PartialEq, Eq)]
pub struct LearningContext {
    secure_input: bool,
    sensitive_application: bool,
    privacy_mode: bool,
    context_known: bool,
    context_kind: String,
}

impl View for LearningContext {
    type V = LearningContextView;

    closed spec fn view(&self) -> LearningContextView {
        LearningContextView {
            secure_input: self.secure_input,
            sensitive_application: self.sensitive_application,
            privacy_mode: self.privacy_mode,
            context_known: self.context_known,
            context_kind: self.context_kind@,
        }
    }
}

fn validate_context_kind(value: &str) -> (r: Result<(), RuntimeError>)
    ensures
        r is Ok <==> allowed_context_kind(value@),
        r is Err ==> r == Err::<(), RuntimeError>(RuntimeError::InvalidInput { field: RuntimeField::ContextKind }),
{
    if same_text(value, "general") || same_text(value, "browser") || same_text(value, "chat")
        || same_text(value, "code") || same_text(value, "editor") || same_text(value, "office")
        || same_text(value, "terminal") || same_text(value, "other") {
        Ok(())
    } else {
        Err(RuntimeError::InvalidInput { field: RuntimeField::ContextKind })
    }
}

impl LearningContext {
    /// A known, unrestricted context of a supported coarse category.
    pub fn new(context_kind: String) -> (r: Result<Self, RuntimeError>)
        ensures
            r is Ok <==> allowed_context_kind(context_kind@),
            r matches Ok(c) ==> c@ == (LearningContextView {
                secure_input: false,
                sensitive_application: false,
                privacy_mode: false,
                context_known: true,
                context_kind: context_kind@,
            }),
            r matches Err(e) ==> e == (RuntimeError::InvalidInput { field: RuntimeField::ContextKind }),
    {
        match validate_context_kind(context_kind.as_str()) {
            Ok(()) => Ok(
                LearningContext {
                    secure_input: false,
                    sensitive_application: false,
                    privacy_mode: false,
                    context_known: true,
                    context_kind,
                },
            ),
            Err(e) => Err(e),
        }
    }

    pub fn with_secure_input(self, secure_input: bool) -> (r: Self)
        ensures
            r@ == (LearningContextView { secure_input, ..self@ }),
    {
        LearningContext { secure_input, ..self }
    }

    pub fn with_sensitive_application(self, sensitive_application: bool) -> (r: Self)
        ensures
            r@ == (LearningContextView { sensitive_application, ..self@ }),
    {
        LearningContext { sensitive_application, ..self }
    }

    pub fn with_privacy_mode(self, privacy_mode: bool) -> (r: Self)
        ensures
            r@ == (LearningContextView { privacy_mode, ..self@ }),
    {
        LearningContext { privacy_mode, ..self }
    }

    pub fn with_context_known(self, context_known: bool) -> (r: Self)
        ensures
            r@ == (LearningContextView { context_known, ..self@ }),
    {
        LearningContext { context_known, ..self }
    }

    pub fn context_kind(&self) -> (r: &str)
        ensures
            r@ == self@.context_kind,
    {
        self.context_kind.as_str()
    }

    pub fn policy(&self) -> (r: PersonalizationPolicy)
        ensures
            r == self@.policy(),
    {
        if self.secure_input || self.sensitive_application || !self.context_known {
            PersonalizationPolicy::EngineOnly
        } else if self.privacy_mode {
            PersonalizationPolicy::ReadOnly
        } else {
            PersonalizationPolicy::ReadWrite
        }
    }
}

impl Default for LearningContext {
    /// The known, unrestricted `general` context.
    fn default() -> (r: Self)
        ensures
            r@ == (LearningContextView {
                secure_input: false,
                sensitive_application: false,
                privacy_mode: false,
                context_known: true,
                context_kind: "general"@,
            }),
    {
        LearningContext {
            secure_input: false,
            sensitive_application: false,
            privacy_mode: false,
            context_known: true,
            context_kind: "general".to_owned(),
        }
    }
}

/// Secure input, a sensitive application or an unknown context override privacy
/// mode, and privacy mode overrides the normal read-write policy.
pub proof fn lemma_blocking_signals_dominate(c: LearningContextView)
    ensures
        (c.secure_input || c.sensitive_application || !c.context_known) ==> c.policy()
            == PersonalizationPolicy::EngineOnly,
        c.policy() == PersonalizationPolicy::ReadWrite ==> !c.privacy_mode,
        c.privacy_mode ==> c.policy() != PersonalizationPolicy::ReadWrite,
{
}

/// Whether personalized ranking was available for the current composition.
#[derive(Debug, Clone, Copy, PartialEq, Eq, Structural)]
pub enum PersonalizationStatus {
    Ready,
    PolicyBlocked,
    StorageUnavailable,
    ReadFailed,
    RankFailed,
}

/// What became of learning from the last selection.
#[derive(Debug, Clone, Copy, PartialEq, Eq, Structural)]
pub enum LearningDisposition {
    NotApplicable,
    Recorded,
    Deferred,
    SkippedByPolicy,
    Failed,
}


/// The learning policy of an input session: its current context, and, while a
/// composition is in progress, the most restrictive policy of every context that
/// composition has seen.
pub struct CompositionPolicy {
    context: LearningContext,
    composition_active: bool,
    composition_policy: PersonalizationPolicy,
}

pub struct CompositionPolicyView {
    pub context: LearningContextView,
    pub composition_active: bool,
    pub composition_policy: PersonalizationPolicy,
}

impl View for CompositionPolicy {
    type V = CompositionPolicyView;

    closed spec fn view(&self) -> CompositionPolicyView {
        CompositionPolicyView {
            context: self.context@,
            composition_active: self.composition_active,
            composition_policy: self.composition_policy,
        }
    }
}

impl CompositionPolicyView {
    /// What the session may do now: the current context's policy, restricted by
    /// the composition's.
    pub open spec fn effective(self) -> PersonalizationPolicy {
        self.context.policy().restricted_by_spec(self.composition_policy)
    }
}

impl CompositionPolicy {
    /// The policy of a new session in the default context. A session that starts
    /// on an engine already holding input cannot know where that input came from,
    /// so it learns nothing from it.
    pub fn new(precomposed: bool) -> (r: Self)
        ensures
            r@.composition_active == precomposed,
            r@.composition_policy == (if precomposed {
                PersonalizationPolicy::EngineOnly
            } else {
                PersonalizationPolicy::ReadWrite
            }),
            r@.context.policy() == PersonalizationPolicy::ReadWrite,
    {
        CompositionPolicy {
            context: LearningContext::default(),
            composition_active: precomposed,
            composition_policy: if precomposed {
                PersonalizationPolicy::EngineOnly
            } else {
                PersonalizationPolicy::ReadWrite
            },
        }
    }

    pub fn context(&self) -> (r: &LearningContext)
        ensures
            r@ == self@.context,
    {
        &self.context
    }

    /// Switches to `context`; during a composition its policy also restricts the
    /// composition's. The result tells whether the context changed, which discards
    /// the candidates shown and any pending selection.
    pub fn set_learning_context(&mut self, context: LearningContext) -> (changed: bool)
        ensures
            changed == (old(self)@.context != context@),
            !changed ==> final(self)@ == old(self)@,
            changed ==> final(self)@.context == context@,
            final(self)@.composition_active == old(self)@.composition_active,
            changed ==> final(self)@.composition_policy == (if old(self)@.composition_active {
                old(self)@.composition_policy.restricted_by_spec(context@.policy())
            } else {
                old(self)@.composition_policy
            }),
    {
        if self.context.secure_input == context.secure_input && self.context.sensitive_application
            == context.sensitive_application && self.context.privacy_mode == context.privacy_mode
            && self.context.context_known == context.context_known && self.context.context_kind
            == context.context_kind {
            return false;
        }
        if self.composition_active {
            self.composition_policy = self.composition_policy.restricted_by(context.policy());
        }
        self.context = context;
        true
    }

    /// Marks a composition as active before input reaches the engine, so that a
    /// failed call that keeps partial input is already restricted.
    pub fn restrict_before_input(&mut self)
        ensures
            final(self)@ == (CompositionPolicyView {
                composition_active: true,
                composition_policy: old(self)@.composition_policy.restricted_by_spec(old(self)@.context.policy()),
                ..old(self)@
            }),
    {
        self.composition_active = true;
        self.composition_policy = self.composition_policy.restricted_by(self.context.policy());
    }

    /// Records whether a composition is in progress after the engine answered: an
    /// ongoing one stays restricted by the current context, an ended one lifts the
    /// restriction. The result tells whether a pending selection is dropped.
    pub fn observe_composition(&mut self, active: bool) -> (drops_pending: bool)
        ensures
            drops_pending == !active,
            final(self)@ == (CompositionPolicyView {
                composition_active: active,
                composition_policy: if active {
                    old(self)@.composition_policy.restricted_by_spec(old(self)@.context.policy())
                } else {
                    PersonalizationPolicy::ReadWrite
                },
                ..old(self)@
            }),
    {
        self.composition_active = active;
        if active {
            self.composition_policy = self.composition_policy.restricted_by(self.context.policy());
        } else {
            self.composition_policy = PersonalizationPolicy::ReadWrite;
        }
        !active
    }

    pub fn effective_policy(&self) -> (r: PersonalizationPolicy)
        ensures
            r == self@.effective(),
    {
        self.context.policy().restricted_by(self.composition_policy)
    }

    /// What learning from a selection does under the effective policy: it is
    /// skipped unless the session may write.
    pub fn may_record_selection(&self) -> (r: bool)
        ensures
            r == (self@.effective() == PersonalizationPolicy::ReadWrite),
    {
        self.effective_policy() == PersonalizationPolicy::ReadWrite
    }
}

/// While a composition lasts, switching contexts never widens what it may do:
/// the effective policy afterwards allows no more than the composition allowed
/// before, nor more than the new context allows.
pub proof fn lemma_composition_never_widens(before: CompositionPolicyView, context: LearningContextView)
    requires
        before.composition_active,
    ensures
        ({
            let restricted = before.composition_policy.restricted_by_spec(context.policy());
            let after = CompositionPolicyView { context, composition_policy: restricted, ..before };
            &&& after.effective().permission() <= before.composition_policy.permission()
            &&& after.effective().permission() <= context.policy().permission()
        }),
{
    lemma_restriction_is_the_minimum(before.composition_policy, context.policy(), context.policy());
    lemma_restriction_is_the_minimum(context.policy(), before.composition_policy.restricted_by_spec(context.policy()), context.policy());
}

} // verus!
