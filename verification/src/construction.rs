//! Module construction: the state machine that composes handle validation,
//! configuration decoding and resource registration.
//!
//! Construction proceeds through discrete host interactions: the host object
//! is checked against the host's module-API class, the configuration object
//! is canonicalized by the host and decoded structurally, and the adaptor is
//! registered under the configured path.  The unverified shell performs the
//! host calls; each outcome comes back as a [`BuildEvent`], and the machine
//! decides the next [`BuildAction`].  Any failure aborts construction with
//! the matching typed error, and nothing further is ever requested.

use vstd::prelude::*;
use vstd::string::*;
use crate::config::{Config, ConfigError, ConfigErrorV, DecodeFailure, translated_error};

verus! {

/// Where construction stands.
#[derive(Clone, Copy, Debug, PartialEq, Eq, Structural)]
pub enum BuildPhase {
    /// Waiting for the instance check of the host object.
    CheckingHandle,
    /// Waiting for the host to canonicalize its configuration object.
    Canonicalizing,
    /// Waiting for the structural decode of the canonical text.
    Decoding,
    /// Waiting for the host's answer to the registration call.
    Registering,
    /// Construction succeeded.
    Complete,
    /// Construction aborted with a typed error.
    Failed,
}

/// The outcome of one host interaction, handed back by the shell.
#[derive(Debug)]
pub enum BuildEvent {
    /// The instance check answered: is the host object an instance of the
    /// module-API class?
    HandleChecked(bool),
    /// The instance check itself failed with this host error.
    HandleCheckFailed(String),
    /// The host canonicalized its configuration object into this text.
    Canonicalized(String),
    /// The canonicalization call failed with this host error.
    CanonicalizeFailed(String),
    /// The canonical text decoded into the configuration.
    ConfigDecoded(Config),
    /// The structural decode failed at a field path.
    ConfigRejected(DecodeFailure),
    /// The registration call succeeded.
    Registered,
    /// The registration call failed with this host error.
    RegisterFailed(String),
}

/// A construction-time error, typed by the step that failed.
#[derive(Debug, PartialEq, Eq)]
pub enum ModuleError {
    /// The host object is not an instance of the module-API class.
    InvalidHandle(String),
    /// A call into the host failed.
    HostCall(String),
    /// The configuration did not match its schema.
    Config(ConfigError),
    /// The host rejected the registration call.
    Registration(String),
}

/// What the shell must do next.
#[derive(Debug, PartialEq, Eq)]
pub enum BuildAction {
    /// Ask the host to canonicalize its configuration object.
    Canonicalize,
    /// Run the structural decoder on this canonical text.
    Decode(String),
    /// Register the adaptor under this path.
    Register(String),
    /// Construction is complete; hand the module to the host.
    Finish,
    /// Abort construction and raise this error through the host.
    Abort(ModuleError),
    /// The event does not belong to the current phase; do nothing.
    Ignore,
}

/// The abstract value of a [`BuildEvent`].
pub enum BuildEventV {
    HandleChecked(bool),
    HandleCheckFailed(Seq<char>),
    Canonicalized(Seq<char>),
    CanonicalizeFailed(Seq<char>),
    ConfigDecoded(Seq<char>),
    ConfigRejected(Seq<char>, Seq<char>),
    Registered,
    RegisterFailed(Seq<char>),
}

/// The abstract value of a [`ModuleError`].
pub enum ModuleErrorV {
    InvalidHandle(Seq<char>),
    HostCall(Seq<char>),
    Config(ConfigErrorV),
    Registration(Seq<char>),
}

/// The abstract value of a [`BuildAction`].
pub enum BuildActionV {
    Canonicalize,
    Decode(Seq<char>),
    Register(Seq<char>),
    Finish,
    Abort(ModuleErrorV),
    Ignore,
}

impl View for BuildEvent {
    type V = BuildEventV;

    open spec fn view(&self) -> BuildEventV {
        match self {
            BuildEvent::HandleChecked(ok) => BuildEventV::HandleChecked(*ok),
            BuildEvent::HandleCheckFailed(m) => BuildEventV::HandleCheckFailed(m@),
            BuildEvent::Canonicalized(t) => BuildEventV::Canonicalized(t@),
            BuildEvent::CanonicalizeFailed(m) => BuildEventV::CanonicalizeFailed(m@),
            BuildEvent::ConfigDecoded(c) => BuildEventV::ConfigDecoded(c.path@),
            BuildEvent::ConfigRejected(f) => BuildEventV::ConfigRejected(
                f.path_text@,
                f.raw_message@,
            ),
            BuildEvent::Registered => BuildEventV::Registered,
            BuildEvent::RegisterFailed(m) => BuildEventV::RegisterFailed(m@),
        }
    }
}

impl View for ModuleError {
    type V = ModuleErrorV;

    open spec fn view(&self) -> ModuleErrorV {
        match self {
            ModuleError::InvalidHandle(m) => ModuleErrorV::InvalidHandle(m@),
            ModuleError::HostCall(m) => ModuleErrorV::HostCall(m@),
            ModuleError::Config(e) => ModuleErrorV::Config(e@),
            ModuleError::Registration(m) => ModuleErrorV::Registration(m@),
        }
    }
}

impl View for BuildAction {
    type V = BuildActionV;

    open spec fn view(&self) -> BuildActionV {
        match self {
            BuildAction::Canonicalize => BuildActionV::Canonicalize,
            BuildAction::Decode(t) => BuildActionV::Decode(t@),
            BuildAction::Register(p) => BuildActionV::Register(p@),
            BuildAction::Finish => BuildActionV::Finish,
            BuildAction::Abort(e) => BuildActionV::Abort(e@),
            BuildAction::Ignore => BuildActionV::Ignore,
        }
    }
}

/// The abstract state of the builder: the phase, and the configured path
/// once the configuration has decoded.
pub struct BuildStateV {
    pub phase: BuildPhase,
    pub path: Seq<char>,
}

/// The message of the error raised when the host object is not an instance
/// of the module-API class.
pub open spec fn invalid_handle_message() -> Seq<char> {
    "Object is not a synapse.module_api.ModuleApi"@
}

/// The initial state of a builder.
pub open spec fn initial_state() -> BuildStateV {
    BuildStateV { phase: BuildPhase::CheckingHandle, path: Seq::empty() }
}

/// One step of construction: from a state and the outcome of the pending
/// host interaction to the next state and the next action.  An event that
/// does not belong to the current phase is ignored; a terminal state ignores
/// every event.
pub open spec fn build_step(s: BuildStateV, ev: BuildEventV) -> (BuildStateV, BuildActionV) {
    match (s.phase, ev) {
        (BuildPhase::CheckingHandle, BuildEventV::HandleChecked(ok)) => if ok {
            (
                BuildStateV { phase: BuildPhase::Canonicalizing, ..s },
                BuildActionV::Canonicalize,
            )
        } else {
            (
                BuildStateV { phase: BuildPhase::Failed, ..s },
                BuildActionV::Abort(ModuleErrorV::InvalidHandle(invalid_handle_message())),
            )
        },
        (BuildPhase::CheckingHandle, BuildEventV::HandleCheckFailed(m)) => (
            BuildStateV { phase: BuildPhase::Failed, ..s },
            BuildActionV::Abort(ModuleErrorV::HostCall(m)),
        ),
        (BuildPhase::Canonicalizing, BuildEventV::Canonicalized(t)) => (
            BuildStateV { phase: BuildPhase::Decoding, ..s },
            BuildActionV::Decode(t),
        ),
        (BuildPhase::Canonicalizing, BuildEventV::CanonicalizeFailed(m)) => (
            BuildStateV { phase: BuildPhase::Failed, ..s },
            BuildActionV::Abort(ModuleErrorV::HostCall(m)),
        ),
        (BuildPhase::Decoding, BuildEventV::ConfigDecoded(p)) => (
            BuildStateV { phase: BuildPhase::Registering, path: p },
            BuildActionV::Register(p),
        ),
        (BuildPhase::Decoding, BuildEventV::ConfigRejected(path_text, raw)) => (
            BuildStateV { phase: BuildPhase::Failed, ..s },
            BuildActionV::Abort(ModuleErrorV::Config(translated_error(path_text, raw))),
        ),
        (BuildPhase::Registering, BuildEventV::Registered) => (
            BuildStateV { phase: BuildPhase::Complete, ..s },
            BuildActionV::Finish,
        ),
        (BuildPhase::Registering, BuildEventV::RegisterFailed(m)) => (
            BuildStateV { phase: BuildPhase::Failed, ..s },
            BuildActionV::Abort(ModuleErrorV::Registration(m)),
        ),
        _ => (s, BuildActionV::Ignore),
    }
}

/// The builder that drives module construction.
pub struct ModuleBuilder {
    pub phase: BuildPhase,
    pub path: String,
}

impl View for ModuleBuilder {
    type V = BuildStateV;

    open spec fn view(&self) -> BuildStateV {
        BuildStateV { phase: self.phase, path: self.path@ }
    }
}

impl ModuleBuilder {
    /// A fresh builder, waiting for the instance check of the host object.
    pub fn new() -> (r: ModuleBuilder)
        ensures
            r@ == initial_state(),
    {
        let r = ModuleBuilder { phase: BuildPhase::CheckingHandle, path: String::new() };
        proof {
            assert(r@.path =~= Seq::<char>::empty());
        }
        r
    }

    /// Feeds the outcome of the pending host interaction to the builder and
    /// returns the next action, exactly as [`build_step`] decides it.
    pub fn on_event(&mut self, ev: BuildEvent) -> (act: BuildAction)
        ensures
            final(self)@ == build_step(old(self)@, ev@).0,
            act@ == build_step(old(self)@, ev@).1,
    {
        match (self.phase, ev) {
            (BuildPhase::CheckingHandle, BuildEvent::HandleChecked(ok)) => if ok {
                self.phase = BuildPhase::Canonicalizing;
                BuildAction::Canonicalize
            } else {
                self.phase = BuildPhase::Failed;
                BuildAction::Abort(
                    ModuleError::InvalidHandle(
                        String::from_str("Object is not a synapse.module_api.ModuleApi"),
                    ),
                )
            },
            (BuildPhase::CheckingHandle, BuildEvent::HandleCheckFailed(m)) => {
                self.phase = BuildPhase::Failed;
                BuildAction::Abort(ModuleError::HostCall(m))
            },
            (BuildPhase::Canonicalizing, BuildEvent::Canonicalized(t)) => {
                self.phase = BuildPhase::Decoding;
                BuildAction::Decode(t)
            },
            (BuildPhase::Canonicalizing, BuildEvent::CanonicalizeFailed(m)) => {
                self.phase = BuildPhase::Failed;
                BuildAction::Abort(ModuleError::HostCall(m))
            },
            (BuildPhase::Decoding, BuildEvent::ConfigDecoded(c)) => {
                self.phase = BuildPhase::Registering;
                self.path = c.path;
                let p = self.path.clone();
                BuildAction::Register(p)
            },
            (BuildPhase::Decoding, BuildEvent::ConfigRejected(f)) => {
                self.phase = BuildPhase::Failed;
                BuildAction::Abort(ModuleError::Config(ConfigError::from_decode_failure(&f)))
            },
            (BuildPhase::Registering, BuildEvent::Registered) => {
                self.phase = BuildPhase::Complete;
                BuildAction::Finish
            },
            (BuildPhase::Registering, BuildEvent::RegisterFailed(m)) => {
                self.phase = BuildPhase::Failed;
                BuildAction::Abort(ModuleError::Registration(m))
            },
            (_, _) => BuildAction::Ignore,
        }
    }
}


/// The actions construction emits from state `s` over the event sequence
/// `evs`, in order.
pub open spec fn build_run_from(s: BuildStateV, evs: Seq<BuildEventV>) -> Seq<BuildActionV>
    decreases evs.len(),
{
    if evs.len() == 0 {
        Seq::empty()
    } else {
        seq![build_step(s, evs[0]).1] + build_run_from(build_step(s, evs[0]).0, evs.drop_first())
    }
}

/// The actions a fresh builder emits over the event sequence `evs`.
pub open spec fn build_run(evs: Seq<BuildEventV>) -> Seq<BuildActionV> {
    build_run_from(initial_state(), evs)
}

/// Once construction has passed the decoding phase — it is registering,
/// complete, or failed — it never requests another registration.
proof fn lemma_no_registration_after_decoding(s: BuildStateV, evs: Seq<BuildEventV>)
    requires
        s.phase == BuildPhase::Registering || s.phase == BuildPhase::Complete || s.phase
            == BuildPhase::Failed,
    ensures
        forall|k: int|
            0 <= k < build_run_from(s, evs).len() ==> !(build_run_from(s, evs)[k]
                is Register),
    decreases evs.len(),
{
    if evs.len() > 0 {
        let s2 = build_step(s, evs[0]).0;
        lemma_no_registration_after_decoding(s2, evs.drop_first());
        assert(!(build_step(s, evs[0]).1 is Register));
        assert forall|k: int| 0 <= k < build_run_from(s, evs).len() implies !(build_run_from(
            s,
            evs,
        )[k] is Register) by {
            if k > 0 {
                assert(build_run_from(s, evs)[k] == build_run_from(s2, evs.drop_first())[k - 1]);
            }
        }
    }
}

/// A host object that fails the instance check aborts construction with the
/// `InvalidHandle` error, and no registration call is ever issued — not for
/// this event and not for any later one.
pub proof fn lemma_rejected_handle_never_registers(evs: Seq<BuildEventV>)
    requires
        evs.len() > 0,
        evs[0] == BuildEventV::HandleChecked(false),
    ensures
        build_run(evs)[0] == BuildActionV::Abort(
            ModuleErrorV::InvalidHandle(invalid_handle_message()),
        ),
        forall|k: int| 0 <= k < build_run(evs).len() ==> !(build_run(evs)[k] is Register),
{
    let s0 = initial_state();
    let s1 = build_step(s0, evs[0]).0;
    assert(s1.phase == BuildPhase::Failed);
    lemma_no_registration_after_decoding(s1, evs.drop_first());
    assert forall|k: int| 0 <= k < build_run(evs).len() implies !(build_run(evs)[k]
        is Register) by {
        if k > 0 {
            assert(build_run(evs)[k] == build_run_from(s1, evs.drop_first())[k - 1]);
        }
    }
}

/// Counts the registration requests among the emitted actions.
pub open spec fn registration_count(acts: Seq<BuildActionV>) -> nat
    decreases acts.len(),
{
    if acts.len() == 0 {
        0
    } else {
        (if acts[0] is Register {
            1nat
        } else {
            0nat
        }) + registration_count(acts.drop_first())
    }
}

/// After the decoding phase no registration is requested: the count of
/// registration requests from such a state is zero.
proof fn lemma_registration_count_zero(s: BuildStateV, evs: Seq<BuildEventV>)
    requires
        s.phase == BuildPhase::Registering || s.phase == BuildPhase::Complete || s.phase
            == BuildPhase::Failed,
    ensures
        registration_count(build_run_from(s, evs)) == 0,
    decreases evs.len(),
{
    if evs.len() > 0 {
        let s2 = build_step(s, evs[0]).0;
        lemma_registration_count_zero(s2, evs.drop_first());
        assert(build_run_from(s, evs).drop_first() =~= build_run_from(s2, evs.drop_first()));
    }
}

/// Whatever events the host produces, construction requests at most one
/// registration: the handler is registered once or not at all.
pub proof fn lemma_at_most_one_registration(s: BuildStateV, evs: Seq<BuildEventV>)
    ensures
        registration_count(build_run_from(s, evs)) <= 1,
    decreases evs.len(),
{
    if evs.len() > 0 {
        let s2 = build_step(s, evs[0]).0;
        let act = build_step(s, evs[0]).1;
        assert(build_run_from(s, evs).drop_first() =~= build_run_from(s2, evs.drop_first()));
        if act is Register {
            assert(s2.phase == BuildPhase::Registering);
            lemma_registration_count_zero(s2, evs.drop_first());
        } else {
            lemma_at_most_one_registration(s2, evs.drop_first());
        }
    }
}

/// Construction-time failures abort construction entirely, and success ends
/// it: from a terminal state the builder requests nothing, whatever events
/// still arrive.
pub proof fn lemma_terminal_builder_requests_nothing(s: BuildStateV, evs: Seq<BuildEventV>)
    requires
        s.phase == BuildPhase::Complete || s.phase == BuildPhase::Failed,
    ensures
        forall|k: int|
            0 <= k < build_run_from(s, evs).len() ==> build_run_from(s, evs)[k]
                == BuildActionV::Ignore,
    decreases evs.len(),
{
    if evs.len() > 0 {
        let s2 = build_step(s, evs[0]).0;
        lemma_terminal_builder_requests_nothing(s2, evs.drop_first());
        assert forall|k: int| 0 <= k < build_run_from(s, evs).len() implies build_run_from(
            s,
            evs,
        )[k] == BuildActionV::Ignore by {
            if k > 0 {
                assert(build_run_from(s, evs)[k] == build_run_from(s2, evs.drop_first())[k - 1]);
            }
        }
    }
}

/// A configuration that fails structural decoding aborts construction with
/// the structured configuration error — the message stripped of positional
/// diagnostics and the ordered segments of the field path at which decoding
/// failed — and never with anything weaker.
pub proof fn lemma_rejected_config_aborts_with_field_path(
    s: BuildStateV,
    path_text: Seq<char>,
    raw: Seq<char>,
)
    requires
        s.phase == BuildPhase::Decoding,
    ensures
        build_step(s, BuildEventV::ConfigRejected(path_text, raw)).1 == BuildActionV::Abort(
            ModuleErrorV::Config(translated_error(path_text, raw)),
        ),
        build_step(s, BuildEventV::ConfigRejected(path_text, raw)).0.phase
            == BuildPhase::Failed,
{
}

/// The successful construction of a module: the handle passes the instance
/// check, the host canonicalizes the configuration to `t`, it decodes to the
/// path `p`, and the host accepts the registration.  Construction requests
/// exactly the canonicalization, the decode of `t`, one registration under
/// `p`, and completion, in that order.
pub proof fn lemma_successful_construction(t: Seq<char>, p: Seq<char>)
    ensures
        build_run(
            seq![
                BuildEventV::HandleChecked(true),
                BuildEventV::Canonicalized(t),
                BuildEventV::ConfigDecoded(p),
                BuildEventV::Registered,
            ],
        ) == seq![
            BuildActionV::Canonicalize,
            BuildActionV::Decode(t),
            BuildActionV::Register(p),
            BuildActionV::Finish,
        ],
{
    reveal_with_fuel(build_run_from, 5);
    let evs = seq![
        BuildEventV::HandleChecked(true),
        BuildEventV::Canonicalized(t),
        BuildEventV::ConfigDecoded(p),
        BuildEventV::Registered,
    ];
    let e1 = evs.drop_first();
    let e2 = e1.drop_first();
    let e3 = e2.drop_first();
    let e4 = e3.drop_first();
    assert(e1 =~= seq![
        BuildEventV::Canonicalized(t),
        BuildEventV::ConfigDecoded(p),
        BuildEventV::Registered,
    ]);
    assert(e2 =~= seq![BuildEventV::ConfigDecoded(p), BuildEventV::Registered]);
    assert(e3 =~= seq![BuildEventV::Registered]);
    assert(e4 =~= Seq::<BuildEventV>::empty());
    assert(build_run(evs) =~= seq![
        BuildActionV::Canonicalize,
        BuildActionV::Decode(t),
        BuildActionV::Register(p),
        BuildActionV::Finish,
    ]);
}

} // verus!
