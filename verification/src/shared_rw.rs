//! The shared model context: the one place that knows whether an inference
//! engine is live and with which parameters, and that decides what the
//! engine must be told to do.
//!
//! The engine itself lives outside this library. The context hands out one
//! command at a time; the caller performs it on the engine, under its
//! exclusive lock, and reports the outcome back.

use vstd::prelude::*;
use crate::error::AppError;

verus! {

/// The parameters with which an engine is initialised.
#[derive(Debug, PartialEq)]
pub struct GptParams {
    /// The path of the model file.
    pub model: String,
    pub n_ctx: Option<i32>,
    pub n_parallel: Option<i32>,
    pub n_threads: Option<u32>,
    pub seed: Option<u32>,
    /// The default number of tokens to predict; no part of the engine's identity.
    pub n_predict: Option<i32>,
}

impl Clone for GptParams {
    fn clone(&self) -> (r: Self)
        ensures
            r == *self,
    {
        GptParams {
            model: self.model.clone(),
            n_ctx: self.n_ctx,
            n_parallel: self.n_parallel,
            n_threads: self.n_threads,
            seed: self.seed,
            n_predict: self.n_predict,
        }
    }
}

/// Two sets of parameters ask for the same engine: they agree on the model
/// path, the context window, the parallelism, the thread count and the seed.
pub open spec fn same_engine(a: GptParams, b: GptParams) -> bool {
    &&& a.model@ == b.model@
    &&& a.n_ctx == b.n_ctx
    &&& a.n_parallel == b.n_parallel
    &&& a.n_threads == b.n_threads
    &&& a.seed == b.seed
}

/// What the engine is told to do.
#[derive(Debug, PartialEq)]
pub enum EngineCommand {
    /// Stop the live engine and release it.
    Stop,
    /// Initialise an engine with these parameters.
    Init(GptParams),
}

/// What a request asks of the engine, given what is live.
#[derive(Debug, PartialEq)]
pub enum ReloadDecision {
    /// Nothing is live: initialise with the requested parameters.
    Init(GptParams),
    /// What is live serves the request.
    Noop,
    /// Another engine is live: stop it, then initialise.
    StopInit(GptParams),
    /// Nothing is live and nothing was requested.
    NotLoaded,
}

/// The next command of a reload towards `target`, with `live` the
/// parameters of the live engine, if any: none when the target is reached.
pub open spec fn next_command(live: Option<GptParams>, target: Option<GptParams>) -> Option<
    EngineCommand,
> {
    match (live, target) {
        (Some(p), Some(q)) => if same_engine(p, q) {
            None
        } else {
            Some(EngineCommand::Stop)
        },
        (Some(_), None) => Some(EngineCommand::Stop),
        (None, Some(q)) => Some(EngineCommand::Init(q)),
        (None, None) => None,
    }
}

/// What is live once a command has succeeded.
pub open spec fn after_success(command: EngineCommand) -> Option<GptParams> {
    match command {
        EngineCommand::Stop => None,
        EngineCommand::Init(q) => Some(q),
    }
}

/// The commands of a reload towards `target` in which every command
/// succeeds.
pub open spec fn reload_commands(live: Option<GptParams>, target: Option<GptParams>) -> Seq<
    EngineCommand,
> {
    match next_command(live, target) {
        None => Seq::empty(),
        Some(first) => match next_command(after_success(first), target) {
            None => seq![first],
            Some(second) => seq![first, second],
        },
    }
}

/// What is live after a reload in which every command succeeded.
pub open spec fn after_reload(live: Option<GptParams>, target: Option<GptParams>) -> Option<
    GptParams,
> {
    let commands = reload_commands(live, target);
    if commands.len() == 0 {
        live
    } else {
        after_success(commands.last())
    }
}

/// How many of the commands initialise an engine.
pub open spec fn init_count(commands: Seq<EngineCommand>) -> nat
    decreases commands.len(),
{
    if commands.len() == 0 {
        0
    } else {
        init_count(commands.drop_last()) + if commands.last() is Init {
            1nat
        } else {
            0nat
        }
    }
}

/// The decision table for an incoming request.
pub open spec fn decision(live: Option<GptParams>, requested: Option<GptParams>) -> ReloadDecision {
    match (live, requested) {
        (None, Some(q)) => ReloadDecision::Init(q),
        (Some(p), Some(q)) => if same_engine(p, q) {
            ReloadDecision::Noop
        } else {
            ReloadDecision::StopInit(q)
        },
        (Some(_), None) => ReloadDecision::Noop,
        (None, None) => ReloadDecision::NotLoaded,
    }
}

/// Do the two sets of parameters ask for the same engine?
pub fn is_same_engine(a: &GptParams, b: &GptParams) -> (same: bool)
    ensures
        same == same_engine(*a, *b),
{
    a.model == b.model && a.n_ctx == b.n_ctx && a.n_parallel == b.n_parallel && a.n_threads
        == b.n_threads && a.seed == b.seed
}

/// What a context holds: whether an engine is live, and the parameters
/// that it stores.
pub struct ContextModel {
    pub engine_live: bool,
    pub params: Option<GptParams>,
}

/// A context without an engine.
pub open spec fn empty_context() -> ContextModel {
    ContextModel { engine_live: false, params: None }
}

/// What a context holds once the engine has answered a command: it
/// follows the command where the engine succeeded, and stays as it was
/// where the engine failed.
pub open spec fn context_after(
    context: ContextModel,
    command: EngineCommand,
    succeeded: bool,
) -> ContextModel {
    if !succeeded {
        context
    } else {
        match command {
            EngineCommand::Stop => ContextModel { engine_live: false, params: None },
            EngineCommand::Init(q) => ContextModel { engine_live: true, params: Some(q) },
        }
    }
}

/// What a context holds after a sequence of commands, each with whether
/// the engine succeeded at it.
pub open spec fn context_after_all(
    context: ContextModel,
    steps: Seq<(EngineCommand, bool)>,
) -> ContextModel
    decreases steps.len(),
{
    if steps.len() == 0 {
        context
    } else {
        context_after(
            context_after_all(context, steps.drop_last()),
            steps.last().0,
            steps.last().1,
        )
    }
}

/// The shared model context.
#[derive(Debug)]
pub struct SharedContextRw {
    engine_live: bool,
    params: Option<GptParams>,
}

impl SharedContextRw {
    #[verifier::type_invariant]
    spec fn consistent(self) -> bool {
        self.engine_live == self.params.is_some()
    }

    /// What this context holds.
    pub closed spec fn model(self) -> ContextModel {
        ContextModel { engine_live: self.engine_live, params: self.params }
    }

    /// The parameters of the live engine, if one is live.
    pub open spec fn live(self) -> Option<GptParams> {
        self.model().params
    }

    /// A context, which starts without an engine, and the command that
    /// brings it to `initial`: the initialisation with the parameters that
    /// `initial` holds, or none where it holds none.
    pub fn new(initial: Option<GptParams>) -> (r: (Self, Option<EngineCommand>))
        ensures
            r.0.model() == empty_context(),
            r.1 == next_command(None, initial),
    {
        let command = match initial {
            Some(params) => Some(EngineCommand::Init(params)),
            None => None,
        };
        (SharedContextRw { engine_live: false, params: None }, command)
    }

    /// Is an engine live? It is exactly when the context stores parameters.
    pub fn has_model(&self) -> (b: bool)
        ensures
            b == self.model().engine_live,
            b == self.live().is_some(),
    {
        proof {
            use_type_invariant(self);
        }
        self.engine_live
    }

    /// The parameters of the live engine, or `None` when none is live:
    /// `Some` exactly when [`Self::has_model`] holds.
    pub fn get_gpt_params(&self) -> (r: Option<GptParams>)
        ensures
            r == self.live(),
            r.is_some() == self.model().engine_live,
    {
        proof {
            use_type_invariant(self);
        }
        match &self.params {
            Some(p) => Some(p.clone()),
            None => None,
        }
    }

    /// The next command of a reload towards `target`: none when `target` is
    /// what is live already, or when nothing is live and nothing is asked.
    pub fn reload(&self, target: &Option<GptParams>) -> (r: Option<EngineCommand>)
        ensures
            r == next_command(self.live(), *target),
    {
        match (&self.params, target) {
            (Some(p), Some(q)) => if is_same_engine(p, q) {
                None
            } else {
                Some(EngineCommand::Stop)
            },
            (Some(_), None) => Some(EngineCommand::Stop),
            (None, Some(q)) => Some(EngineCommand::Init(q.clone())),
            (None, None) => None,
        }
    }

    /// The command that stops the engine: none when nothing is live.
    pub fn try_stop(&self) -> (r: Option<EngineCommand>)
        ensures
            r == next_command(self.live(), None),
    {
        match &self.params {
            Some(_) => Some(EngineCommand::Stop),
            None => None,
        }
    }

    /// Records what the engine answered to `command`. On success the
    /// context follows the command; on failure it stays as it was and the
    /// engine's message comes back as `EngineStop` or `EngineInit`.
    ///
    /// An engine is only initialised when none is live.
    pub fn record(&mut self, command: EngineCommand, outcome: Result<(), String>) -> (r: Result<
        (),
        AppError,
    >)
        requires
            command is Init ==> old(self).live() is None,
        ensures
            final(self).model() == context_after(old(self).model(), command, outcome is Ok),
            match outcome {
                Ok(()) => r is Ok && final(self).live() == after_success(command),
                Err(detail) => final(self).live() == old(self).live() && r == Err::<(), AppError>(
                    match command {
                        EngineCommand::Stop => AppError::EngineStop(detail),
                        EngineCommand::Init(_) => AppError::EngineInit(detail),
                    },
                ),
            },
    {
        match outcome {
            Ok(()) => {
                match command {
                    EngineCommand::Stop => {
                        *self = SharedContextRw { engine_live: false, params: None };
                    },
                    EngineCommand::Init(q) => {
                        *self = SharedContextRw { engine_live: true, params: Some(q) };
                    },
                }
                Ok(())
            },
            Err(detail) => match command {
                EngineCommand::Stop => Err(AppError::EngineStop(detail)),
                EngineCommand::Init(_) => Err(AppError::EngineInit(detail)),
            },
        }
    }

    /// Decides what an incoming request asks of the engine.
    pub fn decide(&self, requested: Option<GptParams>) -> (r: ReloadDecision)
        ensures
            r == decision(self.live(), requested),
    {
        match (&self.params, requested) {
            (None, Some(q)) => ReloadDecision::Init(q),
            (Some(p), Some(q)) => if is_same_engine(p, &q) {
                ReloadDecision::Noop
            } else {
                ReloadDecision::StopInit(q)
            },
            (Some(_), None) => ReloadDecision::Noop,
            (None, None) => ReloadDecision::NotLoaded,
        }
    }

    /// Admits a completion: it is refused with `EngineNotLoaded` exactly
    /// when no engine is live.
    pub fn completion(&self) -> (r: Result<(), AppError>)
        ensures
            r == (if self.live() is Some {
                Ok::<(), AppError>(())
            } else {
                Err::<(), AppError>(AppError::EngineNotLoaded)
            }),
    {
        match &self.params {
            Some(_) => Ok(()),
            None => Err(AppError::EngineNotLoaded),
        }
    }
}

/// The target that a decision sets for the reload, or the error that it
/// answers the request with.
pub fn target_of(decision: ReloadDecision, live: Option<GptParams>) -> (r: Result<
    Option<GptParams>,
    AppError,
>)
    ensures
        r == (match decision {
            ReloadDecision::Init(q) => Ok::<Option<GptParams>, AppError>(Some(q)),
            ReloadDecision::StopInit(q) => Ok(Some(q)),
            ReloadDecision::Noop => Ok(live),
            ReloadDecision::NotLoaded => Err(AppError::EngineNotLoaded),
        }),
{
    match decision {
        ReloadDecision::Init(q) => Ok(Some(q)),
        ReloadDecision::StopInit(q) => Ok(Some(q)),
        ReloadDecision::Noop => Ok(live),
        ReloadDecision::NotLoaded => Err(AppError::EngineNotLoaded),
    }
}

/// Maps what the engine answered to a completion: its failure comes back as
/// `EngineCompletion`.
pub fn completion_outcome(outcome: Result<(), String>) -> (r: Result<(), AppError>)
    ensures
        r == (match outcome {
            Ok(()) => Ok::<(), AppError>(()),
            Err(detail) => Err(AppError::EngineCompletion(detail)),
        }),
{
    match outcome {
        Ok(()) => Ok(()),
        Err(detail) => Err(AppError::EngineCompletion(detail)),
    }
}

/// Whatever commands a context has seen, and however the engine answered
/// them, an engine is live exactly when the context stores parameters.
pub proof fn lemma_has_model_agrees_with_params(steps: Seq<(EngineCommand, bool)>)
    ensures
        context_after_all(empty_context(), steps).engine_live == context_after_all(
            empty_context(),
            steps,
        ).params.is_some(),
    decreases steps.len(),
{
    if steps.len() > 0 {
        lemma_has_model_agrees_with_params(steps.drop_last());
    }
}

/// A reload needs at most two commands; after them nothing is left to do,
/// and what is live serves the target.
pub proof fn lemma_reload_reaches_target(live: Option<GptParams>, target: Option<GptParams>)
    ensures
        reload_commands(live, target).len() <= 2,
        next_command(after_reload(live, target), target) is None,
        target matches Some(q) ==> after_reload(live, target) matches Some(p) && same_engine(p, q),
        target is None ==> after_reload(live, target) is None,
{
}

/// A reload towards what is live already does nothing.
pub proof fn lemma_reload_idempotent(live: GptParams, target: GptParams)
    requires
        same_engine(live, target),
    ensures
        reload_commands(Some(live), Some(target)) =~= Seq::<EngineCommand>::empty(),
        after_reload(Some(live), Some(target)) == Some(live),
{
}

/// Two reloads with equal parameters, one after the other, initialise at
/// most one engine between them, whatever was live before.
pub proof fn lemma_two_reloads_one_init(live: Option<GptParams>, first: GptParams, second: GptParams)
    requires
        same_engine(first, second),
    ensures
        init_count(reload_commands(live, Some(first))) + init_count(
            reload_commands(after_reload(live, Some(first)), Some(second)),
        ) <= 1,
{
    let a = reload_commands(live, Some(first));
    let b = reload_commands(after_reload(live, Some(first)), Some(second));
    lemma_reload_reaches_target(live, Some(first));
    assert(b =~= Seq::<EngineCommand>::empty());
    assert(init_count(b) == 0);
    match live {
        Some(p) => {
            if same_engine(p, first) {
                assert(a =~= Seq::<EngineCommand>::empty());
                assert(init_count(a) == 0);
            } else {
                assert(a =~= seq![EngineCommand::Stop, EngineCommand::Init(first)]);
                assert(a.drop_last() =~= seq![EngineCommand::Stop]);
                assert(a.drop_last().drop_last() =~= Seq::<EngineCommand>::empty());
                assert(init_count(a.drop_last().drop_last()) == 0);
                assert(init_count(a.drop_last()) == 0);
                assert(init_count(a) == 1);
            }
        },
        None => {
            assert(a =~= seq![EngineCommand::Init(first)]);
            assert(a.drop_last() =~= Seq::<EngineCommand>::empty());
            assert(init_count(a.drop_last()) == 0);
            assert(init_count(a) == 1);
        },
    }
}

/// The decision table agrees with the reload: `Init` is one initialisation,
/// `StopInit` a stop and then an initialisation, `Noop` nothing.
pub proof fn lemma_decision_matches_reload(live: Option<GptParams>, requested: Option<GptParams>)
    ensures
        match decision(live, requested) {
            ReloadDecision::Init(q) => reload_commands(live, requested) =~= seq![
                EngineCommand::Init(q),
            ],
            ReloadDecision::StopInit(q) => reload_commands(live, requested) =~= seq![
                EngineCommand::Stop,
                EngineCommand::Init(q),
            ],
            ReloadDecision::Noop => requested is Some ==> reload_commands(live, requested)
                =~= Seq::<EngineCommand>::empty(),
            ReloadDecision::NotLoaded => live is None && requested is None,
        },
{
}

} // verus!
