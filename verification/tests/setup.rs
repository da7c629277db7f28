use switchyard_observability::config::Environment;
use switchyard_observability::setup::{flush_observability, initialize};
use switchyard_observability::setup::{initialize_observability, FlushStep, InitStep};
use switchyard_observability::setup::{Observability, ServerError, SetupAction};
use switchyard_observability::span::{Field, FieldValue, Level, LogEvent};

fn exporting() -> Environment {
    Environment {
        vars: vec![(
            "OTEL_EXPORTER_OTLP_ENDPOINT".to_string(),
            "http://collector:4318".to_string(),
        )],
    }
}

fn silent() -> Environment {
    Environment { vars: vec![] }
}

/// Runs the setup with the given outcome of each step, and tells the steps that were taken.
fn run(
    env: &Environment,
    failing: Option<usize>,
) -> (usize, Result<Observability, String>) {
    let mut step = InitStep::OpenRegistry;
    let mut taken = 0;
    loop {
        let outcome = if failing == Some(taken) {
            Err("boom".to_string())
        } else {
            Ok(())
        };
        if let InitStep::Done(setup) = step {
            return (taken, setup);
        }
        step = initialize(env, step, outcome);
        taken += 1;
    }
}

#[test]
fn setup_with_traces() {
    assert_eq!(
        run(&exporting(), None),
        (5, Ok(Observability { tracer: true }))
    );
    assert_eq!(run(&exporting(), Some(0)), (1, Err("boom".to_string())));
    assert_eq!(
        run(&exporting(), Some(1)),
        (
            2,
            Err("failed to initialize OTLP trace exporter: boom".to_string())
        )
    );
    assert_eq!(run(&exporting(), Some(2)), (3, Err("boom".to_string())));
    assert_eq!(run(&exporting(), Some(3)), (4, Err("boom".to_string())));
    assert_eq!(
        run(&exporting(), Some(4)),
        (5, Err("failed to initialize tracing: boom".to_string()))
    );
}

#[test]
fn setup_without_traces() {
    assert_eq!(
        run(&silent(), None),
        (3, Ok(Observability { tracer: false }))
    );
    assert_eq!(run(&silent(), Some(0)), (1, Err("boom".to_string())));
    assert_eq!(run(&silent(), Some(1)), (2, Err("boom".to_string())));
    assert_eq!(
        run(&silent(), Some(2)),
        (3, Err("failed to initialize tracing: boom".to_string()))
    );
}

#[test]
fn finished_setup_stays_finished() {
    let done = initialize(
        &silent(),
        InitStep::Done(Err("boom".to_string())),
        Ok(()),
    );
    assert_eq!(done, InitStep::Done(Err("boom".to_string())));
}

#[test]
fn setup_is_run_once_and_reported_ever_after() {
    assert_eq!(
        initialize_observability(&None),
        SetupAction::Run(InitStep::OpenRegistry)
    );
    assert_eq!(
        initialize_observability(&Some(Ok(Observability { tracer: true }))),
        SetupAction::Report(Ok(()))
    );
    let failed = Some(Err("boom".to_string()));
    for _ in 0..2 {
        assert_eq!(
            initialize_observability(&failed),
            SetupAction::Report(Err(ServerError {
                message: "boom".to_string()
            }))
        );
    }
}

fn flush(
    setup: Option<Result<Observability, String>>,
    traces: Result<(), String>,
) -> Vec<String> {
    let mut steps = vec![];
    let mut step = FlushStep::Start;
    while step != FlushStep::Done {
        let outcome = if step == FlushStep::FlushTraces {
            traces.clone()
        } else {
            Ok(())
        };
        step = flush_observability(&setup, step, outcome);
        steps.push(match &step {
            FlushStep::Warn(event) => format!("warn: {}", event.message),
            other => format!("{other:?}"),
        });
    }
    steps
}

#[test]
fn flush_reaches_the_metrics_whatever_happens() {
    assert_eq!(flush(None, Ok(())), vec!["FlushMetrics", "Done"]);
    assert_eq!(
        flush(Some(Err("boom".to_string())), Ok(())),
        vec!["FlushMetrics", "Done"]
    );
    assert_eq!(
        flush(Some(Ok(Observability { tracer: false })), Ok(())),
        vec!["FlushMetrics", "Done"]
    );
    assert_eq!(
        flush(Some(Ok(Observability { tracer: true })), Ok(())),
        vec!["FlushTraces", "FlushMetrics", "Done"]
    );
    assert_eq!(
        flush(
            Some(Ok(Observability { tracer: true })),
            Err("down".to_string())
        ),
        vec![
            "FlushTraces",
            "warn: failed to flush OpenTelemetry traces",
            "FlushMetrics",
            "Done"
        ]
    );
}

#[test]
fn failed_flush_is_warned_of() {
    let setup = Some(Ok(Observability { tracer: true }));
    let step = flush_observability(&setup, FlushStep::FlushTraces, Err("down".to_string()));
    assert_eq!(
        step,
        FlushStep::Warn(LogEvent {
            level: Level::Warn,
            target: None,
            message: "failed to flush OpenTelemetry traces",
            fields: vec![Field {
                key: "error",
                value: FieldValue::Display("down".to_string()),
            }],
        })
    );
}
