//! Setting telemetry up once for a process, and flushing it.
//!
//! Both alternate work of the host with decisions. The decisions are functions from the step
//! that was done and its outcome to the step that the host does next.

use vstd::prelude::*;

use crate::config::{exports_otlp, otlp_enabled, Environment};
use crate::span::{display_field, fields_view, log_event_is_seen_whole};
use crate::span::{Field, FieldView, Level, LogEvent, LogEventView};
use crate::text::join;

verus! {

/// Telemetry that is set up.
#[derive(Debug, PartialEq)]
pub struct Observability {
    /// Whether there is a tracer provider, that is, whether traces are exported.
    pub tracer: bool,
}

/// Why the server cannot run.
#[derive(Debug, PartialEq)]
pub struct ServerError {
    pub message: String,
}

impl ServerError {
    pub fn new(message: String) -> (error: Self)
        ensures
            error.message == message,
    {
        ServerError { message }
    }
}

/// The outcome of a step, by its text.
pub open spec fn outcome_view(outcome: Result<(), String>) -> Result<(), Seq<char>> {
    match outcome {
        Ok(_) => Ok(()),
        Err(error) => Err(error@),
    }
}

/// The outcome of setting telemetry up: whether there is a tracer provider, or why it failed.
pub open spec fn setup_view(setup: Result<Observability, String>) -> Result<bool, Seq<char>> {
    match setup {
        Ok(observability) => Ok(observability.tracer),
        Err(error) => Err(error@),
    }
}

/// What the host does next to set telemetry up.
#[derive(Debug, PartialEq)]
pub enum InitStep {
    /// Open the metrics registry.
    OpenRegistry,
    /// Build the trace exporter, and make a provider over it the global one.
    BuildTracer,
    /// Build the filter of the log layer.
    BuildFilter { tracer: bool },
    /// Build the filter of the trace layer.
    BuildTracerFilter,
    /// Install the layers as the process-wide subscriber.
    Install { tracer: bool },
    /// Nothing: this is how it went.
    Done(Result<Observability, String>),
}

pub enum InitStepView {
    OpenRegistry,
    BuildTracer,
    BuildFilter { tracer: bool },
    BuildTracerFilter,
    Install { tracer: bool },
    Done(Result<bool, Seq<char>>),
}

impl View for InitStep {
    type V = InitStepView;

    open spec fn view(&self) -> InitStepView {
        match *self {
            InitStep::OpenRegistry => InitStepView::OpenRegistry,
            InitStep::BuildTracer => InitStepView::BuildTracer,
            InitStep::BuildFilter { tracer } => InitStepView::BuildFilter { tracer },
            InitStep::BuildTracerFilter => InitStepView::BuildTracerFilter,
            InitStep::Install { tracer } => InitStepView::Install { tracer },
            InitStep::Done(setup) => InitStepView::Done(setup_view(setup)),
        }
    }
}

/// What follows a step of the setup. `traces` says whether traces are exported.
pub open spec fn next_init(
    traces: bool,
    step: InitStepView,
    outcome: Result<(), Seq<char>>,
) -> InitStepView {
    match step {
        InitStepView::OpenRegistry => match outcome {
            Ok(_) => if traces {
                InitStepView::BuildTracer
            } else {
                InitStepView::BuildFilter { tracer: false }
            },
            Err(error) => InitStepView::Done(Err(error)),
        },
        InitStepView::BuildTracer => match outcome {
            Ok(_) => InitStepView::BuildFilter { tracer: true },
            Err(error) => InitStepView::Done(
                Err("failed to initialize OTLP trace exporter: "@ + error),
            ),
        },
        InitStepView::BuildFilter { tracer } => match outcome {
            Ok(_) => if tracer {
                InitStepView::BuildTracerFilter
            } else {
                InitStepView::Install { tracer: false }
            },
            Err(error) => InitStepView::Done(Err(error)),
        },
        InitStepView::BuildTracerFilter => match outcome {
            Ok(_) => InitStepView::Install { tracer: true },
            Err(error) => InitStepView::Done(Err(error)),
        },
        InitStepView::Install { tracer } => match outcome {
            Ok(_) => InitStepView::Done(Ok(tracer)),
            Err(error) => InitStepView::Done(Err("failed to initialize tracing: "@ + error)),
        },
        InitStepView::Done(setup) => InitStepView::Done(setup),
    }
}

/// The step that follows one of setting telemetry up, given how that one went.
///
/// The setup starts with [`InitStep::OpenRegistry`].
pub fn initialize(env: &Environment, step: InitStep, outcome: Result<(), String>) -> (next: InitStep)
    ensures
        next@ == next_init(exports_otlp(env@, "TRACES"@), step@, outcome_view(outcome)),
{
    match step {
        InitStep::OpenRegistry => match outcome {
            Ok(_) => if otlp_enabled(env, "TRACES") {
                InitStep::BuildTracer
            } else {
                InitStep::BuildFilter { tracer: false }
            },
            Err(error) => InitStep::Done(Err(error)),
        },
        InitStep::BuildTracer => match outcome {
            Ok(_) => InitStep::BuildFilter { tracer: true },
            Err(error) => InitStep::Done(
                Err(join("failed to initialize OTLP trace exporter: ", error.as_str())),
            ),
        },
        InitStep::BuildFilter { tracer } => match outcome {
            Ok(_) => if tracer {
                InitStep::BuildTracerFilter
            } else {
                InitStep::Install { tracer: false }
            },
            Err(error) => InitStep::Done(Err(error)),
        },
        InitStep::BuildTracerFilter => match outcome {
            Ok(_) => InitStep::Install { tracer: true },
            Err(error) => InitStep::Done(Err(error)),
        },
        InitStep::Install { tracer } => match outcome {
            Ok(_) => InitStep::Done(Ok(Observability { tracer })),
            Err(error) => InitStep::Done(
                Err(join("failed to initialize tracing: ", error.as_str())),
            ),
        },
        InitStep::Done(setup) => InitStep::Done(setup),
    }
}

/// What the host does to have telemetry set up.
#[derive(Debug, PartialEq)]
pub enum SetupAction {
    /// Set it up, from this step on, and keep the outcome.
    Run(InitStep),
    /// Nothing: it was set up before, and this is how it went.
    Report(Result<(), ServerError>),
}

/// Installs metrics and tracing once for either the binary or an embedded host: given the outcome
/// that was kept of the setup, says whether to run it or how it went.
pub fn initialize_observability(setup: &Option<Result<Observability, String>>) -> (action:
    SetupAction)
    ensures
        match *setup {
            None => action matches SetupAction::Run(step) && step@ == InitStepView::OpenRegistry,
            Some(Ok(_)) => action matches SetupAction::Report(Ok(_)),
            Some(Err(error)) => action matches SetupAction::Report(Err(reported))
                && reported.message@ == error@,
        },
{
    match setup {
        None => SetupAction::Run(InitStep::OpenRegistry),
        Some(Ok(_)) => SetupAction::Report(Ok(())),
        Some(Err(error)) => SetupAction::Report(Err(ServerError::new(error.clone()))),
    }
}

/// What the host does next to flush pending telemetry.
#[derive(Debug, PartialEq)]
pub enum FlushStep {
    /// Nothing was done yet.
    Start,
    /// Flush the tracer provider.
    FlushTraces,
    /// Log a warning.
    Warn(LogEvent),
    /// Flush the metrics.
    FlushMetrics,
    /// Nothing: everything is flushed.
    Done,
}

#[verifier::ext_equal]
pub enum FlushStepView {
    Start,
    FlushTraces,
    Warn(LogEventView),
    FlushMetrics,
    Done,
}

impl View for FlushStep {
    type V = FlushStepView;

    open spec fn view(&self) -> FlushStepView {
        match *self {
            FlushStep::Start => FlushStepView::Start,
            FlushStep::FlushTraces => FlushStepView::FlushTraces,
            FlushStep::Warn(event) => FlushStepView::Warn(event@),
            FlushStep::FlushMetrics => FlushStepView::FlushMetrics,
            FlushStep::Done => FlushStepView::Done,
        }
    }
}

/// Whether telemetry is set up with a tracer provider.
pub open spec fn has_tracer(setup: Option<Result<Observability, String>>) -> bool {
    setup matches Some(Ok(observability)) && observability.tracer
}

/// The warning that traces could not be flushed.
pub open spec fn flush_warning(error: Seq<char>) -> LogEventView {
    LogEventView {
        level: Level::Warn,
        target: None,
        message: "failed to flush OpenTelemetry traces"@,
        fields: seq![("error"@, FieldView::Display(error))],
    }
}

/// What follows a step of the flush. `tracer` says whether there is a tracer provider.
pub open spec fn next_flush(
    tracer: bool,
    step: FlushStepView,
    outcome: Result<(), Seq<char>>,
) -> FlushStepView {
    match step {
        FlushStepView::Start => if tracer {
            FlushStepView::FlushTraces
        } else {
            FlushStepView::FlushMetrics
        },
        FlushStepView::FlushTraces => match outcome {
            Ok(_) => FlushStepView::FlushMetrics,
            Err(error) => FlushStepView::Warn(flush_warning(error)),
        },
        FlushStepView::Warn(_) => FlushStepView::FlushMetrics,
        FlushStepView::FlushMetrics => FlushStepView::Done,
        FlushStepView::Done => FlushStepView::Done,
    }
}

/// The step that follows one of flushing pending telemetry, given how that one went.
///
/// The flush starts with [`FlushStep::Start`]. It shuts no provider down.
pub fn flush_observability(
    setup: &Option<Result<Observability, String>>,
    step: FlushStep,
    outcome: Result<(), String>,
) -> (next: FlushStep)
    ensures
        next@ == next_flush(has_tracer(*setup), step@, outcome_view(outcome)),
{
    match step {
        FlushStep::Start => match setup {
            Some(Ok(observability)) => if observability.tracer {
                FlushStep::FlushTraces
            } else {
                FlushStep::FlushMetrics
            },
            _ => FlushStep::FlushMetrics,
        },
        FlushStep::FlushTraces => match outcome {
            Ok(_) => FlushStep::FlushMetrics,
            Err(error) => {
                let fields: Vec<Field> = vec![display_field("error", error.as_str())];
                assert(fields_view(fields@) =~= seq![("error"@, FieldView::Display(error@))]);
                FlushStep::Warn(
                    LogEvent {
                        level: Level::Warn,
                        target: None,
                        message: "failed to flush OpenTelemetry traces",
                        fields,
                    },
                )
            },
        },
        FlushStep::Warn(_) => FlushStep::FlushMetrics,
        FlushStep::FlushMetrics => FlushStep::Done,
        FlushStep::Done => FlushStep::Done,
    }
}

/// How each step of the setup goes, if it is taken.
pub struct InitOutcomes {
    pub registry: Result<(), Seq<char>>,
    pub exporter: Result<(), Seq<char>>,
    pub filter: Result<(), Seq<char>>,
    pub tracer_filter: Result<(), Seq<char>>,
    pub install: Result<(), Seq<char>>,
}

/// How a step goes.
pub open spec fn outcome_of(outcomes: InitOutcomes, step: InitStepView) -> Result<(), Seq<char>> {
    match step {
        InitStepView::OpenRegistry => outcomes.registry,
        InitStepView::BuildTracer => outcomes.exporter,
        InitStepView::BuildFilter { .. } => outcomes.filter,
        InitStepView::BuildTracerFilter => outcomes.tracer_filter,
        InitStepView::Install { .. } => outcomes.install,
        InitStepView::Done(_) => Ok(()),
    }
}

/// How many steps there can be from this one on.
pub open spec fn steps_left(step: InitStepView) -> nat {
    match step {
        InitStepView::OpenRegistry => 5,
        InitStepView::BuildTracer => 4,
        InitStepView::BuildFilter { .. } => 3,
        InitStepView::BuildTracerFilter => 2,
        InitStepView::Install { .. } => 1,
        InitStepView::Done(_) => 0,
    }
}

/// What the setup comes to from a step on, each step being followed by the next.
pub open spec fn setup_from(traces: bool, step: InitStepView, outcomes: InitOutcomes) -> Result<
    bool,
    Seq<char>,
>
    decreases steps_left(step),
{
    match step {
        InitStepView::Done(setup) => setup,
        _ => setup_from(traces, next_init(traces, step, outcome_of(outcomes, step)), outcomes),
    }
}

/// The setup succeeds exactly if every step does that it takes, and then has a tracer provider
/// exactly if traces are exported. Else it reports the first failure, in the order of registry,
/// trace exporter, filters, and subscriber. The exporter and the filter of the trace layer play
/// no part where traces are not exported.
pub proof fn setup_reports_the_first_failure(traces: bool, outcomes: InitOutcomes)
    ensures
        setup_from(traces, InitStepView::OpenRegistry, outcomes) == (if outcomes.registry is Err {
            Err(outcomes.registry->Err_0)
        } else if traces && outcomes.exporter is Err {
            Err("failed to initialize OTLP trace exporter: "@ + outcomes.exporter->Err_0)
        } else if outcomes.filter is Err {
            Err(outcomes.filter->Err_0)
        } else if traces && outcomes.tracer_filter is Err {
            Err(outcomes.tracer_filter->Err_0)
        } else if outcomes.install is Err {
            Err("failed to initialize tracing: "@ + outcomes.install->Err_0)
        } else {
            Ok(traces)
        }),
{
    reveal_with_fuel(setup_from, 6);
}

/// How far a step of the flush is from the end.
pub open spec fn flush_left(step: FlushStepView) -> nat {
    match step {
        FlushStepView::Start => 4,
        FlushStepView::FlushTraces => 3,
        FlushStepView::Warn(_) => 2,
        FlushStepView::FlushMetrics => 1,
        FlushStepView::Done => 0,
    }
}

/// The steps that the flush takes after a step, if flushing the traces goes as `traces` says.
pub open spec fn flush_from(tracer: bool, step: FlushStepView, traces: Result<(), Seq<char>>) -> Seq<
    FlushStepView,
>
    decreases flush_left(step),
{
    let next = next_flush(tracer, step, traces);
    match step {
        FlushStepView::Done => seq![],
        _ => seq![next] + flush_from(tracer, next, traces),
    }
}

/// A flush flushes the traces if there is a tracer provider, warns exactly if that fails, and
/// flushes the metrics once in any case.
pub proof fn flush_always_reaches_the_metrics(tracer: bool, traces: Result<(), Seq<char>>)
    ensures
        flush_from(tracer, FlushStepView::Start, traces) == (if !tracer {
            seq![FlushStepView::FlushMetrics, FlushStepView::Done]
        } else if traces is Ok {
            seq![FlushStepView::FlushTraces, FlushStepView::FlushMetrics, FlushStepView::Done]
        } else {
            seq![
                FlushStepView::FlushTraces,
                FlushStepView::Warn(flush_warning(traces->Err_0)),
                FlushStepView::FlushMetrics,
                FlushStepView::Done,
            ]
        }),
{
    reveal_with_fuel(flush_from, 5);
}

/// Whoever takes a step of the setup that fails has the setup end there, with the error as it is,
/// or behind `failed to initialize OTLP trace exporter: ` if it was that of the trace exporter, or
/// behind `failed to initialize tracing: ` if it was that of the subscriber.
pub proof fn failed_step_ends_the_setup(
    env: &Environment,
    step: InitStep,
    error: String,
    next: InitStep,
)
    requires
        call_ensures(initialize, (env, step, Err::<(), String>(error)), next),
        !(step is Done),
    ensures
        next is Done,
        next->0 is Err,
        next->0->Err_0@ == (match step {
            InitStep::BuildTracer => "failed to initialize OTLP trace exporter: "@ + error@,
            InitStep::Install { .. } => "failed to initialize tracing: "@ + error@,
            _ => error@,
        }),
{
    lemma_init_view(next);
}

/// Whoever takes a step of the setup that succeeds goes on to the next: from the registry to the
/// trace exporter if traces are exported, and else to the log filter; from the exporter to the
/// log filter; from there to the filter of the trace layer if there is a tracer provider; and from
/// the last filter to the subscriber, where the setup ends with a tracer provider exactly if one
/// was built.
pub proof fn step_that_succeeds_leads_on(
    env: &Environment,
    signal: &str,
    traces: bool,
    step: InitStep,
    next: InitStep,
)
    requires
        signal@ == "TRACES"@,
        call_ensures(otlp_enabled, (env, signal), traces),
        call_ensures(initialize, (env, step, Ok::<(), String>(())), next),
    ensures
        match step {
            InitStep::OpenRegistry => if traces {
                next is BuildTracer
            } else {
                next is BuildFilter && !next->BuildFilter_tracer
            },
            InitStep::BuildTracer => next is BuildFilter && next->BuildFilter_tracer,
            InitStep::BuildFilter { tracer } => if tracer {
                next is BuildTracerFilter
            } else {
                next is Install && !next->Install_tracer
            },
            InitStep::BuildTracerFilter => next is Install && next->Install_tracer,
            InitStep::Install { tracer } => next is Done && next->0 is Ok && next->0->Ok_0.tracer
                == tracer,
            InitStep::Done(setup) => next is Done && (setup is Ok <==> next->0 is Ok),
        },
{
    lemma_init_view(step);
    lemma_init_view(next);
}

/// A setup that has ended stays as it ended, whatever is said of a further step.
pub proof fn ended_setup_stays(
    env: &Environment,
    setup: Result<Observability, String>,
    outcome: Result<(), String>,
    next: InitStep,
)
    requires
        call_ensures(initialize, (env, InitStep::Done(setup), outcome), next),
    ensures
        next is Done,
        setup matches Ok(observability) ==> next->0 is Ok && next->0->Ok_0.tracer
            == observability.tracer,
        setup matches Err(error) ==> next->0 is Err && next->0->Err_0@ == error@,
{
    lemma_init_view(InitStep::Done(setup));
    lemma_init_view(next);
}

proof fn lemma_init_view(step: InitStep)
    ensures
        match step {
            InitStep::OpenRegistry => step@ is OpenRegistry,
            InitStep::BuildTracer => step@ is BuildTracer,
            InitStep::BuildFilter { tracer } => step@ == InitStepView::BuildFilter { tracer },
            InitStep::BuildTracerFilter => step@ is BuildTracerFilter,
            InitStep::Install { tracer } => step@ == InitStepView::Install { tracer },
            InitStep::Done(Ok(observability)) => step@ == InitStepView::Done(
                Ok(observability.tracer),
            ),
            InitStep::Done(Err(error)) => step@ == InitStepView::Done(Err(error@)),
        },
{
}

/// Whoever asks for telemetry that was never set up is told to open the registry first; whoever
/// asks again is told nothing but how it went: well, or with the error that was kept.
pub proof fn setup_runs_once_and_is_reported(
    setup: &Option<Result<Observability, String>>,
    action: SetupAction,
)
    requires
        call_ensures(initialize_observability, (setup,), action),
    ensures
        action is Run <==> *setup is None,
        *setup is None ==> action->Run_0 is OpenRegistry,
        *setup matches Some(Ok(_)) ==> action is Report && action->Report_0 is Ok,
        *setup matches Some(Err(error)) ==> action is Report && action->Report_0 is Err
            && action->Report_0->Err_0.message@ == error@,
{
    if *setup is None {
        lemma_init_view(action->Run_0);
    }
}

/// A server error says what it was made with.
pub proof fn server_error_says_its_message(message: String, error: ServerError)
    requires
        call_ensures(ServerError::new, (message,), error),
    ensures
        error.message@ == message@,
{
}

/// Whoever starts to flush flushes the traces first exactly if telemetry is set up with a tracer
/// provider, and else goes straight to the metrics.
pub proof fn flush_starts_with_the_traces(
    setup: &Option<Result<Observability, String>>,
    outcome: Result<(), String>,
    next: FlushStep,
)
    requires
        call_ensures(flush_observability, (setup, FlushStep::Start, outcome), next),
    ensures
        *setup is Some && (*setup)->0 is Ok && (*setup)->0->Ok_0.tracer ==> next is FlushTraces,
        *setup is None || (*setup)->0 is Err || !(*setup)->0->Ok_0.tracer ==> next is FlushMetrics,
{
}

/// Whoever has flushed the traces goes on to the metrics; whoever failed to is told to warn of it
/// first, without a target of its own and with the error as it displays.
pub proof fn failed_flush_is_warned_of(
    setup: &Option<Result<Observability, String>>,
    outcome: Result<(), String>,
    next: FlushStep,
)
    requires
        call_ensures(flush_observability, (setup, FlushStep::FlushTraces, outcome), next),
    ensures
        outcome is Ok ==> next is FlushMetrics,
        outcome matches Err(error) ==> {
            &&& next is Warn
            &&& next->Warn_0.level == Level::Warn
            &&& next->Warn_0.target is None
            &&& next->Warn_0.message@ == "failed to flush OpenTelemetry traces"@
            &&& next->Warn_0.fields@.len() == 1
            &&& next->Warn_0.fields@[0].key@ == "error"@
            &&& next->Warn_0.fields@[0].value@ == FieldView::Display(error@)
        },
{
    if let Err(error) = outcome {
        let event = next->Warn_0;
        log_event_is_seen_whole(event);
        assert(event@ == flush_warning(error@));
        assert(event@.fields.len() == 1);
        assert(event@.fields[0] == ("error"@, FieldView::Display(error@)));
    }
}

/// Whoever has warned flushes the metrics all the same, and whoever has flushed the metrics is
/// done, however that went.
pub proof fn flush_ends_with_the_metrics(
    setup: &Option<Result<Observability, String>>,
    step: FlushStep,
    outcome: Result<(), String>,
    next: FlushStep,
)
    requires
        call_ensures(flush_observability, (setup, step, outcome), next),
    ensures
        step is Warn ==> next is FlushMetrics,
        step is FlushMetrics ==> next is Done,
        step is Done ==> next is Done,
{
}

} // verus!
