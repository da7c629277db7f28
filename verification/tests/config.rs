use opentelemetry::{Key, Value};
use switchyard_observability::config::{checked_filter, env_var_is_true, log_filter};
use switchyard_observability::config::{log_filter_or_default, otlp_enabled, parsable, resource};
use switchyard_observability::config::{service_name, Environment, DEFAULT_LOG_FILTER};
use tracing_subscriber::EnvFilter;

fn env(vars: &[(&str, &str)]) -> Environment {
    Environment {
        vars: vars
            .iter()
            .map(|(name, value)| (name.to_string(), value.to_string()))
            .collect(),
    }
}

const ENDPOINT: (&str, &str) = ("OTEL_EXPORTER_OTLP_ENDPOINT", "http://collector:4318");

#[test]
fn nothing_is_exported_without_an_endpoint() {
    assert!(!otlp_enabled(&env(&[]), "TRACES"));
    assert!(!otlp_enabled(
        &env(&[("OTEL_EXPORTER_OTLP_ENDPOINT", " \t")]),
        "TRACES"
    ));
    assert!(!otlp_enabled(
        &env(&[("OTEL_TRACES_EXPORTER", "otlp")]),
        "TRACES"
    ));
}

#[test]
fn common_endpoint_exports_every_signal() {
    assert!(otlp_enabled(&env(&[ENDPOINT]), "TRACES"));
    assert!(otlp_enabled(&env(&[ENDPOINT]), "METRICS"));
}

#[test]
fn own_endpoint_exports_its_signal_only() {
    let env = env(&[("OTEL_EXPORTER_OTLP_TRACES_ENDPOINT", "http://t:4318")]);
    assert!(otlp_enabled(&env, "TRACES"));
    assert!(!otlp_enabled(&env, "METRICS"));
}

#[test]
fn disabled_sdk_exports_nothing() {
    for value in ["true", "TRUE", "True", "1"] {
        assert!(!otlp_enabled(
            &env(&[ENDPOINT, ("OTEL_SDK_DISABLED", value)]),
            "TRACES"
        ));
    }
    for value in ["false", "0", "", "yes", " true", "11"] {
        assert!(otlp_enabled(
            &env(&[ENDPOINT, ("OTEL_SDK_DISABLED", value)]),
            "TRACES"
        ));
    }
}

#[test]
fn exporters_decide_when_they_are_given() {
    for value in ["otlp", "OTLP", "console, otlp", " Otlp ", "a,,otlp,b", "", "  "] {
        assert!(
            otlp_enabled(&env(&[ENDPOINT, ("OTEL_TRACES_EXPORTER", value)]), "TRACES"),
            "{value:?}"
        );
    }
    for value in ["none", "console", "otlp2", "ot lp", ",", "otlp/json"] {
        assert!(
            !otlp_enabled(&env(&[ENDPOINT, ("OTEL_TRACES_EXPORTER", value)]), "TRACES"),
            "{value:?}"
        );
    }
    assert!(otlp_enabled(
        &env(&[ENDPOINT, ("OTEL_METRICS_EXPORTER", "none")]),
        "TRACES"
    ));
}

#[test]
fn first_of_two_variables_counts() {
    let env = env(&[("A", "1"), ("A", "0"), ("B", "0")]);
    assert!(env_var_is_true(&env, "A"));
    assert!(!env_var_is_true(&env, "B"));
    assert!(!env_var_is_true(&env, "C"));
    assert_eq!(env.var("A"), Some("1"));
    assert_eq!(env.var("C"), None);
}

#[test]
fn service_name_has_a_default() {
    assert_eq!(service_name(&env(&[])), "switchyard-server");
    assert_eq!(
        service_name(&env(&[("OTEL_SERVICE_NAME", "  ")])),
        "switchyard-server"
    );
    assert_eq!(
        service_name(&env(&[("OTEL_SERVICE_NAME", " my service ")])),
        " my service "
    );
}

#[test]
fn resource_carries_the_service_name() {
    let named = resource(&env(&[("OTEL_SERVICE_NAME", "router")]));
    assert_eq!(
        named.get(&Key::new("service.name")),
        Some(Value::from("router"))
    );
    let unnamed = resource(&env(&[]));
    assert_eq!(
        unnamed.get(&Key::new("service.name")),
        Some(Value::from("switchyard-server"))
    );
}

#[test]
fn filter_of_the_environment_stands() {
    let given = EnvFilter::try_new("debug").expect("filter");
    let filter = log_filter_or_default(Some(given)).expect("filter");
    assert_eq!(format!("{filter}"), "debug");
}

#[test]
fn default_filter_stands_in() {
    let filter = log_filter_or_default(None).expect("filter");
    assert_eq!(format!("{filter}"), "opentelemetry=warn,info");
    assert_eq!(DEFAULT_LOG_FILTER, "info,opentelemetry=warn");
}

#[test]
fn log_filter_is_what_the_environment_calls_for() {
    for (rust_log, expected) in [
        ("debug", "debug"),
        ("off,switchyard=trace", "switchyard=trace,off"),
        ("switchyard=loud", "opentelemetry=warn,info"),
        ("(", "opentelemetry=warn,info"),
    ] {
        let filter = log_filter(&env(&[("RUST_LOG", rust_log)])).expect("filter");
        assert_eq!(format!("{filter}"), expected, "{rust_log}");
    }
    let filter = log_filter(&env(&[])).expect("filter");
    assert_eq!(format!("{filter}"), "opentelemetry=warn,info");
}

#[test]
fn directives_that_can_be_cut_within_a_character_are_told() {
    for directives in [
        "\u{a0}a=info",
        " \u{e9}=info",
        "info, [\u{e9}]",
        "\u{a0}a=info,info",
        "  \u{e9}=info",
        " a[\u{e9}]",
        "\u{2003}[a{\u{e9}=1}]=info",
    ] {
        assert!(!parsable(directives), "{directives}");
    }
}

#[test]
fn parsable_directives_do_not_panic() {
    for directives in [
        "",
        ",,",
        " ",
        "info, opentelemetry=warn",
        " a[b{c=d}]=info ",
        "\u{e9}=info",
        "\u{e9}[\u{e9}{\u{e9}=\u{e9}}]=info\u{a0}",
        " \u{e9}",
        "\u{a0}a,\u{3000}\u{e9}]",
        " \u{e9}a=info",
        " a=\u{e9}=",
        " a=\u{e9}[",
        "\u{a0}(\u{e9}=info",
        "\u{a0}ab=info",
        " [a\u{e9}bc]=info",
    ] {
        assert!(parsable(directives), "{directives}");
        let expected = match EnvFilter::try_new(directives) {
            Ok(given) => format!("{given}"),
            Err(_) => "opentelemetry=warn,info".to_string(),
        };
        let filter = log_filter(&env(&[("RUST_LOG", directives)])).expect("filter");
        assert_eq!(format!("{filter}"), expected, "{directives}");
    }
}

#[test]
fn short_parsable_directives_give_a_filter() {
    let letters = [" ", "\u{a0}", "a", "\u{e9}", "=", "["];
    let mut texts = vec![String::new()];
    let mut longest = texts.clone();
    for _ in 0..4 {
        longest = longest
            .iter()
            .flat_map(|text| letters.iter().map(move |letter| format!("{text}{letter}")))
            .collect();
        texts.extend(longest.iter().cloned());
    }
    for text in texts.iter().filter(|text| parsable(text)) {
        assert!(log_filter(&env(&[("RUST_LOG", text)])).is_ok(), "{text:?}");
    }
}

#[test]
fn filter_that_does_not_parse_is_reported() {
    let report = checked_filter(Err("bad".to_string()));
    assert_eq!(
        report.err(),
        Some("invalid tracing filter: bad".to_string())
    );
    let made = EnvFilter::try_new("warn").expect("filter");
    let filter = checked_filter(Ok(made)).expect("filter");
    assert_eq!(format!("{filter}"), "warn");
}
