use pact_cli::otel::{plan_logging, telemetry_attributes, LogLevel, OtelConfig, OtlpSpanExporter};

fn config() -> OtelConfig {
    OtelConfig {
        exporter: None,
        endpoint: None,
        protocol: None,
        enable_otel: None,
        enable_traces: None,
        enable_logs: None,
        log_level: Some(LogLevel::Info),
    }
}

#[test]
fn no_log_level_means_no_setup() {
    let mut c = config();
    c.log_level = None;
    c.enable_otel = Some(true);
    assert!(plan_logging(&c).is_none());
}

#[test]
fn plain_logging() {
    let plan = plan_logging(&config()).unwrap();
    assert_eq!(plan.level, LogLevel::Info);
    assert!(plan.traces.is_none());
    assert!(plan.logs.is_none());
}

#[test]
fn master_switch_enables_traces_and_logs() {
    let mut c = config();
    c.enable_otel = Some(true);
    let plan = plan_logging(&c).unwrap();
    let traces = plan.traces.unwrap();
    assert!(traces.otlp.is_none());
    assert!(!traces.stdout);
    assert!(!plan.logs.unwrap().otlp);
}

#[test]
fn individual_switches() {
    let mut c = config();
    c.enable_traces = Some(true);
    c.exporter = Some(vec!["otlp".to_string(), "console".to_string()]);
    let plan = plan_logging(&c).unwrap();
    assert!(plan.logs.is_none());
    let traces = plan.traces.unwrap();
    assert!(traces.stdout);
    match traces.otlp {
        Some(OtlpSpanExporter::HttpBinary(e)) => assert_eq!(e, "http://localhost:4318"),
        _ => panic!("http exporter expected"),
    }
    let mut c = config();
    c.enable_otel = Some(true);
    c.exporter = Some(vec!["otlp".to_string()]);
    c.endpoint = Some("http://collector:4318".to_string());
    match plan_logging(&c).unwrap().traces.unwrap().otlp {
        Some(OtlpSpanExporter::HttpBinary(e)) => assert_eq!(e, "http://collector:4318"),
        _ => panic!("http exporter expected"),
    }

    let mut c = config();
    c.enable_traces = Some(true);
    c.exporter = Some(vec!["otlp".to_string()]);
    c.protocol = Some("grpc".to_string());
    let traces = plan_logging(&c).unwrap().traces.unwrap();
    match traces.otlp {
        Some(OtlpSpanExporter::Grpc(e)) => assert_eq!(e, "http://localhost:4318"),
        _ => panic!("grpc exporter expected"),
    }
    c.endpoint = Some("http://collector:4317".to_string());
    match plan_logging(&c).unwrap().traces.unwrap().otlp {
        Some(OtlpSpanExporter::Grpc(e)) => assert_eq!(e, "http://collector:4317"),
        _ => panic!("grpc exporter expected"),
    }

    let mut c = config();
    c.enable_logs = Some(true);
    let plan = plan_logging(&c).unwrap();
    assert!(plan.traces.is_none());
    assert!(plan.logs.unwrap().otlp);
}

#[test]
fn telemetry_attribute_list() {
    let args: Vec<String> = ["pact", "broker", "publish", "./pacts", "--tag", "a\"b"]
        .iter()
        .map(|s| s.to_string())
        .collect();
    let attrs = telemetry_attributes(&args, -2, Some("failed"));
    let expected: Vec<(String, String)> = vec![
        ("binary".to_string(), "pact".to_string()),
        ("command".to_string(), "broker".to_string()),
        ("subcommand".to_string(), "publish".to_string()),
        ("args".to_string(), format!("{:?}", &args[3..])),
        ("exit_code".to_string(), "-2".to_string()),
        ("error_message".to_string(), "failed".to_string()),
    ];
    assert_eq!(attrs, expected);
    let short = telemetry_attributes(&vec!["pact".to_string()], 0, None);
    assert_eq!(short, vec![("binary".to_string(), "pact".to_string()), ("exit_code".to_string(), "0".to_string())]);
    assert_eq!(telemetry_attributes(&vec![], 1, None), vec![("exit_code".to_string(), "1".to_string())]);
}
