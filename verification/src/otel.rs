//! What logging and OpenTelemetry set-up the command line asks for, and the
//! attributes recorded about a command run.
use vstd::prelude::*;

use crate::text::{i32_text, i32_to_text, str_eq};

verus! {

/// The verbosity levels of `tracing::Level`.
#[derive(Clone, Copy, Debug, PartialEq, Eq, Structural)]
pub enum LogLevel {
    Trace,
    Debug,
    Info,
    Warn,
    Error,
}

/// The logging and telemetry options.
pub struct OtelConfig {
    pub exporter: Option<Vec<String>>,
    pub endpoint: Option<String>,
    pub protocol: Option<String>,
    /// Master switch: enables both traces and logs when true.
    /// Individual `enable_traces`/`enable_logs` flags override independently.
    pub enable_otel: Option<bool>,
    pub enable_traces: Option<bool>,
    pub enable_logs: Option<bool>,
    pub log_level: Option<LogLevel>,
}

/// The OTLP span exporter to build.
pub enum OtlpSpanExporter {
    /// gRPC (tonic) to the given endpoint.
    Grpc(String),
    /// HTTP with binary protobuf, to the given endpoint.
    HttpBinary(String),
}

/// The tracer provider to install: with the service resource, an OTLP batch
/// exporter when asked for, and a stdout simple exporter when asked for.
pub struct TracePlan {
    pub otlp: Option<OtlpSpanExporter>,
    pub stdout: bool,
}

/// The logger provider to install: always a stdout batch exporter, plus an
/// OTLP (HTTP, binary) batch exporter when `otlp`.
pub struct LogPlan {
    pub otlp: bool,
}

/// The subscriber layers to install: stdout logging at `level`, and the trace
/// and log bridges when planned.
pub struct LoggingPlan {
    pub level: LogLevel,
    pub traces: Option<TracePlan>,
    pub logs: Option<LogPlan>,
}

pub open spec fn flag(b: Option<bool>) -> bool {
    match b {
        Some(v) => v,
        None => false,
    }
}

/// The OTLP endpoint: the one given, or `http://localhost:4318`.
pub open spec fn otlp_endpoint(endpoint: Option<String>) -> Seq<char> {
    match endpoint {
        Some(ep) => ep@,
        None => "http://localhost:4318"@,
    }
}

/// Whether the exporter list holds `name`.
pub open spec fn lists(exporter: Option<Vec<String>>, name: Seq<char>) -> bool {
    match exporter {
        Some(v) => v.deep_view().contains(name),
        None => false,
    }
}

fn vec_has(v: &Vec<String>, name: &str) -> (r: bool)
    ensures
        r == v.deep_view().contains(name@),
{
    let n = v.len();
    let mut i: usize = 0;
    while i < n
        invariant
            n == v.deep_view().len(),
            i <= n,
            forall|j: int| 0 <= j < i ==> v.deep_view()[j] != name@,
        decreases n - i,
    {
        if str_eq(v[i].as_str(), name) {
            assert(v.deep_view()[i as int] == name@);
            return true;
        }
        i = i + 1;
    }
    proof {
        if v.deep_view().contains(name@) {
            let j = choose|j: int| 0 <= j < v.deep_view().len() && v.deep_view()[j] == name@;
            assert(v.deep_view()[j] != name@);
        }
    }
    false
}

fn list_has(exporter: &Option<Vec<String>>, name: &str) -> (r: bool)
    ensures
        r == lists(*exporter, name@),
{
    match exporter {
        Some(v) => vec_has(v, name),
        None => false,
    }
}

/// The set-up the options ask for: nothing without a log level; traces when
/// the master switch or `enable_traces` is on; logs when the master switch or
/// `enable_logs` is on, with the OTLP log exporter only for `enable_logs`.
/// The OTLP span exporter goes to the given endpoint, or
/// `http://localhost:4318`, over gRPC when the protocol is `grpc` and over
/// HTTP with binary protobuf otherwise.
pub fn plan_logging(config: &OtelConfig) -> (r: Option<LoggingPlan>)
    ensures
        config.log_level is None <==> r is None,
        r matches Some(p) ==> {
            &&& config.log_level == Some(p.level)
            &&& (flag(config.enable_otel) || flag(config.enable_traces)) <==> p.traces is Some
            &&& (flag(config.enable_otel) || flag(config.enable_logs)) <==> p.logs is Some
            &&& p.traces matches Some(t) ==> {
                &&& t.stdout == (lists(config.exporter, "stdout"@) || lists(
                    config.exporter,
                    "console"@,
                ))
                &&& lists(config.exporter, "otlp"@) <==> t.otlp is Some
                &&& t.otlp matches Some(OtlpSpanExporter::Grpc(e)) ==> {
                    &&& config.protocol matches Some(pr) && pr@ == "grpc"@
                    &&& e@ == otlp_endpoint(config.endpoint)
                }
                &&& t.otlp matches Some(OtlpSpanExporter::HttpBinary(e)) ==> {
                    &&& !(config.protocol matches Some(pr) && pr@ == "grpc"@)
                    &&& e@ == otlp_endpoint(config.endpoint)
                }
            }
            &&& p.logs matches Some(l) ==> l.otlp == flag(config.enable_logs)
        },
{
    let level = match config.log_level {
        Some(l) => l,
        None => {
            return None;
        },
    };
    let master = match config.enable_otel {
        Some(b) => b,
        None => false,
    };
    let traces_on = match config.enable_traces {
        Some(b) => b,
        None => false,
    };
    let logs_on = match config.enable_logs {
        Some(b) => b,
        None => false,
    };
    let traces = if master || traces_on {
        let otlp = if list_has(&config.exporter, "otlp") {
            let grpc = match &config.protocol {
                Some(p) => str_eq(p.as_str(), "grpc"),
                None => false,
            };
            let endpoint = match &config.endpoint {
                Some(e) => e.clone(),
                None => String::from_str("http://localhost:4318"),
            };
            if grpc {
                Some(OtlpSpanExporter::Grpc(endpoint))
            } else {
                Some(OtlpSpanExporter::HttpBinary(endpoint))
            }
        } else {
            None
        };
        let stdout = list_has(&config.exporter, "stdout") || list_has(&config.exporter, "console");
        Some(TracePlan { otlp, stdout })
    } else {
        None
    };
    let logs = if master || logs_on {
        Some(LogPlan { otlp: logs_on })
    } else {
        None
    };
    Some(LoggingPlan { level, traces, logs })
}

/// The `Debug` text of a list of strings, as `format!("{:?}", ..)` writes it.
pub uninterp spec fn debug_list_text(items: Seq<Seq<char>>) -> Seq<char>;

/// `<Vec<String> as Debug>::fmt` through `format!("{:?}", ..)`. Claimed: the
/// text depends on the items alone; what it looks like (brackets, quoting,
/// escapes) is left unsaid.
#[verifier::external_body]
fn debug_list(items: &Vec<String>) -> (r: String)
    ensures
        r@ == debug_list_text(items.deep_view()),
{
    format!("{:?}", items)
}

/// The span attributes recorded for a command run: the binary, command and
/// subcommand (the first three arguments, where present), the `Debug` text of
/// the remaining arguments (when there are any), the exit code, and the error
/// message (when there is one).
pub open spec fn telemetry_spec(args: Seq<Seq<char>>, exit_code: i32, error_message: Option<Seq<char>>) -> Seq<
    (Seq<char>, Seq<char>),
> {
    (if args.len() > 0 {
        seq![("binary"@, args[0])]
    } else {
        seq![]
    }) + (if args.len() > 1 {
        seq![("command"@, args[1])]
    } else {
        seq![]
    }) + (if args.len() > 2 {
        seq![("subcommand"@, args[2])]
    } else {
        seq![]
    }) + (if args.len() > 3 {
        seq![("args"@, debug_list_text(args.skip(3)))]
    } else {
        seq![]
    }) + seq![("exit_code"@, i32_text(exit_code))] + match error_message {
        Some(m) => seq![("error_message"@, m)],
        None => seq![],
    }
}

/// The attributes `capture_telemetry` sets on the current span, in order.
pub fn telemetry_attributes(args: &Vec<String>, exit_code: i32, error_message: Option<&str>) -> (r:
    Vec<(String, String)>)
    ensures
        r.deep_view() == telemetry_spec(
            args.deep_view(),
            exit_code,
            match error_message {
                Some(m) => Some(m@),
                None => None,
            },
        ),
{
    let ghost a = args.deep_view();
    let mut r: Vec<(String, String)> = Vec::new();
    let ghost mut expected: Seq<(Seq<char>, Seq<char>)> = seq![];
    if args.len() > 0 {
        r.push((String::from_str("binary"), args[0].clone()));
        proof {
            expected = expected + seq![("binary"@, a[0])];
        }
    }
    assert(r.deep_view() =~= expected);
    if args.len() > 1 {
        let ghost before = r.deep_view();
        r.push((String::from_str("command"), args[1].clone()));
        proof {
            expected = expected + seq![("command"@, a[1])];
        }
        assert(r.deep_view() =~= before + seq![("command"@, a[1])]);
    }
    assert(r.deep_view() =~= expected);
    if args.len() > 2 {
        let ghost before = r.deep_view();
        r.push((String::from_str("subcommand"), args[2].clone()));
        proof {
            expected = expected + seq![("subcommand"@, a[2])];
        }
        assert(r.deep_view() =~= before + seq![("subcommand"@, a[2])]);
    }
    assert(r.deep_view() =~= expected);
    if args.len() > 3 {
        let mut rest: Vec<String> = Vec::new();
        let n = args.len();
        let mut i: usize = 3;
        while i < n
            invariant
                n == a.len(),
                a == args.deep_view(),
                3 <= i <= n,
                rest.deep_view() == a.subrange(3, i as int),
            decreases n - i,
        {
            let ghost b = rest.deep_view();
            rest.push(args[i].clone());
            assert(rest.deep_view() =~= b.push(a[i as int]));
            assert(a.subrange(3, i + 1) =~= a.subrange(3, i as int).push(a[i as int]));
            i = i + 1;
        }
        assert(a.skip(3) =~= a.subrange(3, n as int));
        let ghost before = r.deep_view();
        r.push((String::from_str("args"), debug_list(&rest)));
        proof {
            expected = expected + seq![("args"@, debug_list_text(a.skip(3)))];
        }
        assert(r.deep_view() =~= before + seq![("args"@, debug_list_text(a.skip(3)))]);
    }
    assert(r.deep_view() =~= expected);
    let ghost before = r.deep_view();
    r.push((String::from_str("exit_code"), i32_to_text(exit_code)));
    proof {
        expected = expected + seq![("exit_code"@, i32_text(exit_code))];
    }
    assert(r.deep_view() =~= before + seq![("exit_code"@, i32_text(exit_code))]);
    match error_message {
        Some(m) => {
            let ghost before2 = r.deep_view();
            r.push((String::from_str("error_message"), String::from_str(m)));
            proof {
                expected = expected + seq![("error_message"@, m@)];
            }
            assert(r.deep_view() =~= before2 + seq![("error_message"@, m@)]);
        },
        None => {
            proof {
                expected = expected + Seq::<(Seq<char>, Seq<char>)>::empty();
            }
            assert(expected =~= before + seq![("exit_code"@, i32_text(exit_code))]);
        },
    }
    assert(r.deep_view() =~= expected);
    r
}

/// The span attributes of a command run, by position: the binary, the
/// command and the subcommand are the first, second and third arguments
/// (each recorded when given), the `Debug` text of the remaining arguments
/// follows when there are any, then the exit code, then the error message
/// when there is one, and nothing else.
pub proof fn law_telemetry_attributes(
    args: Seq<Seq<char>>,
    exit_code: i32,
    error_message: Option<Seq<char>>,
)
    ensures
        ({
            let t = telemetry_spec(args, exit_code, error_message);
            let k: int = if args.len() < 4 {
                args.len() as int
            } else {
                4
            };
            &&& args.len() >= 1 ==> t[0] == ("binary"@, args[0])
            &&& args.len() >= 2 ==> t[1] == ("command"@, args[1])
            &&& args.len() >= 3 ==> t[2] == ("subcommand"@, args[2])
            &&& args.len() >= 4 ==> t[3] == ("args"@, debug_list_text(args.skip(3)))
            &&& t[k] == ("exit_code"@, i32_text(exit_code))
            &&& match error_message {
                Some(m) => t.len() == k + 2 && t[k + 1] == ("error_message"@, m),
                None => t.len() == k + 1,
            }
        }),
{
}

} // verus!
