//! The decisions of `pact broker ruby` and `pact broker docker`: the Ruby
//! version check, the files of a Ruby Pact Broker install, PID file handling,
//! and the Docker command lines and outcomes.
use vstd::prelude::*;

use crate::text::{
    has_prefix, is_digit, join, join_spec, parse_u32, parse_u32_spec, split_char, split_on, trim,
    trim_spec,
};

verus! {

/// The Gemfile of a Ruby Pact Broker install.
pub const GEMFILE_BASE: &'static str = r#"source 'https://rubygems.org'

gem 'rake'
gem 'pact_broker'
if Gem.win_platform?
  gem 'sqlite3', force_ruby_platform: true
else
  gem 'sqlite3'
end
gem 'puma'
gem "padrino-core", ">= 0.16.0.pre3" # Required for the pact_broker UI.
gem "pact-support"
# required for ruby 3.4 (removed from std gems)
gem "mutex_m"
gem "csv"
"#;

/// The gems added to the Gemfile when OpenTelemetry is enabled.
pub const GEMFILE_OTEL: &'static str = r#"
gem "opentelemetry-api"
gem "opentelemetry-common"
gem "opentelemetry-sdk"
gem "opentelemetry-instrumentation-rack"
gem "opentelemetry-instrumentation-all"
gem "opentelemetry-exporter-otlp"
"#;

/// The first line of `config.ru` when OpenTelemetry is enabled: it loads
/// `otel.rb`.
pub const CONFIG_RU_OTEL_REQUIRE: &'static str = "require_relative 'otel'\n";

/// The first line of `config.ru` without OpenTelemetry.
pub const CONFIG_RU_LOGGER: &'static str = "require 'logger'\n";

/// The other requires of `config.ru` and the database settings.
pub const CONFIG_RU_DATABASE: &'static str = r#"require 'sequel'
require 'pact_broker'

DATABASE_CREDENTIALS = {adapter: "sqlite", database: "pact_broker_database.sqlite3", :encoding => 'utf8'}
"#;

/// The Pact Broker application of `config.ru`.
pub const CONFIG_RU_APP: &'static str = r#"app = PactBroker::App.new do | config |
  config.log_stream = "stdout"
  config.database_connection = Sequel.connect(DATABASE_CREDENTIALS.merge(:logger => config.logger))
end

"#;

/// The Rack middleware set-up of `config.ru` when OpenTelemetry is enabled.
pub const CONFIG_RU_OTEL_SETUP: &'static str = "Rack::PactBroker::OpenTelemetry.setup(self)\n";

/// The last line of `config.ru`.
pub const CONFIG_RU_RUN: &'static str = "run app\n";

/// `config.ru`: with OpenTelemetry it first loads `otel.rb`, leaves a blank
/// line after the database settings, and sets up the Rack middleware before
/// running the application.
pub open spec fn config_ru_spec(otel_enabled: bool) -> Seq<char> {
    if otel_enabled {
        CONFIG_RU_OTEL_REQUIRE@ + CONFIG_RU_LOGGER@ + CONFIG_RU_DATABASE@ + "\n"@ + CONFIG_RU_APP@
            + CONFIG_RU_OTEL_SETUP@ + CONFIG_RU_RUN@
    } else {
        CONFIG_RU_LOGGER@ + CONFIG_RU_DATABASE@ + CONFIG_RU_APP@ + CONFIG_RU_RUN@
    }
}

/// `otel.rb`, written when OpenTelemetry is enabled.
pub const OTEL_RB: &'static str = r#"
require "opentelemetry/sdk"
require "opentelemetry/exporter/otlp"
require "opentelemetry/instrumentation/rack"
require "opentelemetry/instrumentation/rack/middlewares/stable/event_handler"

module Rack
  module PactBroker
    class OpenTelemetry
      def self.setup(app_builder = nil)
        ::OpenTelemetry::SDK.configure do |c|
          c.use "OpenTelemetry::Instrumentation::Rack"
          c.service_name = ENV.fetch("OTEL_SERVICE_NAME", "pact_broker-standalone")
        end

        if app_builder
          app_builder.use ::Rack::Events, [::OpenTelemetry::Instrumentation::Rack::Middlewares::Stable::EventHandler.new]
        end
      end

      at_exit do
        OpenTelemetry.tracer_provider.shutdown if defined?(OpenTelemetry) && OpenTelemetry.respond_to?(:tracer_provider)
      end
    end
  end
end
"#;

/// The number `str::parse::<u32>` reads from `s`, or 0 when it rejects it.
pub open spec fn number_or_zero(s: Seq<char>) -> nat {
    match parse_u32_spec(s) {
        Some(v) => v as nat,
        None => 0,
    }
}

/// Whether the version `major.minor` is 3.1 or later.
pub open spec fn ruby_version_ok(major: nat, minor: nat) -> bool {
    major > 3 || (major == 3 && minor >= 1)
}

/// The outcome of the Ruby version check on what `ruby -e 'print RUBY_VERSION'`
/// printed.
pub open spec fn ruby_check_spec(version: Seq<char>) -> Result<(), Seq<char>> {
    let parts = split_on(version, '.');
    if parts.len() < 2 {
        Err("Could not determine Ruby version."@)
    } else if ruby_version_ok(number_or_zero(parts[0]), number_or_zero(parts[1])) {
        Ok(())
    } else {
        Err("Ruby version 3.1 or greater is required. Found version "@ + version + "."@)
    }
}

/// The Ruby version check: the first two dot-separated parts of the printed
/// version are read as numbers (0 where unreadable) and must make 3.1 or later.
pub fn check_ruby_version(version: &str) -> (r: Result<(), String>)
    ensures
        match (r, ruby_check_spec(version@)) {
            (Ok(()), Ok(())) => true,
            (Err(m), Err(s)) => m@ == s,
            _ => false,
        },
{
    let parts = split_char(version, '.');
    if parts.len() < 2 {
        return Err(String::from_str("Could not determine Ruby version."));
    }
    let major: u32 = match parse_u32(parts[0].as_str()) {
        Some(v) => v,
        None => 0,
    };
    let minor: u32 = match parse_u32(parts[1].as_str()) {
        Some(v) => v,
        None => 0,
    };
    assert(parts.deep_view()[0] == parts[0]@);
    assert(parts.deep_view()[1] == parts[1]@);
    if major > 3 || (major == 3 && minor >= 1) {
        Ok(())
    } else {
        let mut m = String::from_str("Ruby version 3.1 or greater is required. Found version ");
        m.append(version);
        m.append(".");
        Err(m)
    }
}

/// The Gemfile, with the OpenTelemetry gems when enabled.
pub fn gemfile_content(otel_enabled: bool) -> (r: String)
    ensures
        r@ == gemfile_spec(otel_enabled),
{
    let mut r = String::from_str(GEMFILE_BASE);
    if otel_enabled {
        r.append(GEMFILE_OTEL);
    }
    r
}

/// `config.ru`, loading `otel.rb` and setting up the Rack middleware when
/// OpenTelemetry is enabled.
pub fn config_ru_content(otel_enabled: bool) -> (r: String)
    ensures
        r@ == config_ru_spec(otel_enabled),
{
    if otel_enabled {
        let mut r = String::from_str(CONFIG_RU_OTEL_REQUIRE);
        r.append(CONFIG_RU_LOGGER);
        r.append(CONFIG_RU_DATABASE);
        r.append("\n");
        r.append(CONFIG_RU_APP);
        r.append(CONFIG_RU_OTEL_SETUP);
        r.append(CONFIG_RU_RUN);
        r
    } else {
        let mut r = String::from_str(CONFIG_RU_LOGGER);
        r.append(CONFIG_RU_DATABASE);
        r.append(CONFIG_RU_APP);
        r.append(CONFIG_RU_RUN);
        r
    }
}

/// The files of a Ruby Pact Broker install, as (file name, contents), in
/// the order they are written: `otel.rb` (only with OpenTelemetry), then
/// `Gemfile` and `config.ru`.
pub open spec fn broker_files_spec(otel_enabled: bool) -> Seq<(Seq<char>, Seq<char>)> {
    (if otel_enabled {
        seq![("otel.rb"@, OTEL_RB@)]
    } else {
        seq![]
    }) + seq![
        ("Gemfile"@, gemfile_spec(otel_enabled)),
        ("config.ru"@, config_ru_spec(otel_enabled)),
    ]
}

/// The Gemfile, with the OpenTelemetry gems when enabled.
pub open spec fn gemfile_spec(otel_enabled: bool) -> Seq<char> {
    if otel_enabled {
        GEMFILE_BASE@ + GEMFILE_OTEL@
    } else {
        GEMFILE_BASE@
    }
}

/// The files to write into the broker directory, in order.
pub fn broker_files(otel_enabled: bool) -> (r: Vec<(String, String)>)
    ensures
        r.deep_view() == broker_files_spec(otel_enabled),
{
    let mut r: Vec<(String, String)> = Vec::new();
    if otel_enabled {
        r.push((String::from_str("otel.rb"), String::from_str(OTEL_RB)));
    }
    r.push((String::from_str("Gemfile"), gemfile_content(otel_enabled)));
    r.push((String::from_str("config.ru"), config_ru_content(otel_enabled)));
    assert(r.deep_view() =~= broker_files_spec(otel_enabled));
    r
}

/// The OpenTelemetry choice decides the broker files: `Gemfile` and
/// `config.ru` are always written (so the install is then found); `otel.rb`
/// is written exactly when OpenTelemetry is enabled; the Gemfile adds the
/// OpenTelemetry gems to the base gems exactly then; and `config.ru` starts
/// by loading `otel` exactly then.
pub proof fn law_broker_files_follow_otel(otel_enabled: bool)
    ensures
        ({
            let files = broker_files_spec(otel_enabled);
            &&& exists|i: int| 0 <= i < files.len() && files[i].0 == "Gemfile"@
            &&& exists|i: int| 0 <= i < files.len() && files[i].0 == "config.ru"@
            &&& (exists|i: int| 0 <= i < files.len() && files[i].0 == "otel.rb"@) <==> otel_enabled
            &&& gemfile_spec(otel_enabled) == if otel_enabled {
                GEMFILE_BASE@ + GEMFILE_OTEL@
            } else {
                GEMFILE_BASE@
            }
            &&& has_prefix(config_ru_spec(otel_enabled), "require_relative 'otel'"@)
                <==> otel_enabled
        }),
{
    reveal_strlit("otel.rb");
    reveal_strlit("Gemfile");
    reveal_strlit("config.ru");
    reveal_strlit("require_relative 'otel'");
    reveal_strlit("require_relative 'otel'\n");
    reveal_strlit("require 'logger'\n");
    let files = broker_files_spec(otel_enabled);
    let p = "require_relative 'otel'"@;
    let c = config_ru_spec(otel_enabled);
    if otel_enabled {
        assert(files[0].0 == "otel.rb"@);
        assert(files[1].0 == "Gemfile"@);
        assert(files[2].0 == "config.ru"@);
        assert(c.subrange(0, p.len() as int) =~= p);
    } else {
        assert(files[0].0 == "Gemfile"@);
        assert(files[1].0 == "config.ru"@);
        assert forall|i: int| 0 <= i < files.len() implies files[i].0 != "otel.rb"@ by {
            assert(files[i].0[0] != 'o');
        }
        let rest = CONFIG_RU_DATABASE@ + CONFIG_RU_APP@ + CONFIG_RU_RUN@;
        assert(c =~= CONFIG_RU_LOGGER@ + rest);
        assert(CONFIG_RU_LOGGER@[7] == ' ');
        assert(c[7] == ' ');
        if p.len() <= c.len() {
            assert(c.subrange(0, p.len() as int)[7] == c[7]);
            assert(p[7] == '_');
        }
    }
}

/// The outcome of `bundle install`.
pub fn bundle_install_result(success: bool) -> (r: Result<(), String>)
    ensures
        success <==> r is Ok,
        r matches Err(m) ==> m@
            == "\u{26a0}\u{fe0f}  bundle install failed. Please check your Ruby and Bundler setup."@,
{
    if success {
        Ok(())
    } else {
        Err(
            String::from_str(
                "\u{26a0}\u{fe0f}  bundle install failed. Please check your Ruby and Bundler setup.",
            ),
        )
    }
}

/// Whether `char::is_numeric` holds of `c` (one of the Unicode number
/// categories).
pub uninterp spec fn char_is_numeric(c: char) -> bool;

/// `char::is_numeric`. Claimed: the result is a function of `c`, and the
/// ASCII decimal digits (category Nd) are numeric; which other characters are
/// is left unsaid.
#[verifier::external_body]
fn is_numeric(c: char) -> (r: bool)
    ensures
        r == char_is_numeric(c),
        is_digit(c) ==> r,
{
    c.is_numeric()
}

/// Every character of `s` is numeric (which the empty text satisfies).
pub open spec fn pid_ready(s: Seq<char>) -> bool {
    forall|i: int| 0 <= i < s.len() ==> #[trigger] char_is_numeric(s[i])
}

/// Whether the PID file holds the broker's PID yet: every character is
/// numeric (which an empty file satisfies).
pub fn pid_file_ready(contents: &str) -> (r: bool)
    ensures
        r == pid_ready(contents@),
{
    let n = contents.unicode_len();
    let mut i: usize = 0;
    while i < n
        invariant
            n == contents@.len(),
            i <= n,
            forall|j: int| 0 <= j < i ==> #[trigger] char_is_numeric(contents@[j]),
        decreases n - i,
    {
        if !is_numeric(contents.get_char(i)) {
            return false;
        }
        i = i + 1;
    }
    true
}

/// The PID written in a PID file: its trimmed text read as a `u32`.
pub fn pid_from_text(contents: &str) -> (r: Option<u32>)
    ensures
        r == parse_u32_spec(trim_spec(contents@)),
{
    let t = trim(contents);
    parse_u32(t.as_str())
}

/// The Docker commands of `pact broker docker`.
#[derive(Clone, Copy, Debug, PartialEq, Eq, Structural)]
pub enum DockerAction {
    Start,
    Stop,
    Remove,
}

/// The arguments of `docker run` that start the Pact Broker container.
pub open spec fn docker_start_args() -> Seq<Seq<char>> {
    seq![
        "run"@,
        "-d"@,
        "--name"@,
        "pact-broker"@,
        "-p"@,
        "9292:9292"@,
        "--env"@,
        "PACT_BROKER_PORT=9292"@,
        "--env"@,
        "PACT_BROKER_DATABASE_URL=sqlite:////tmp/pact_broker.sqlite"@,
        "--env"@,
        "'PACT_BROKER_BASE_URL=http://localhost http://localhost http://localhost:9292 http://pact-broker:9292 https://host.docker.internal http://host.docker.internal http://host.docker.internal:9292'"@,
        "pactfoundation/pact-broker:latest"@,
    ]
}

pub open spec fn docker_args_spec(action: DockerAction) -> Seq<Seq<char>> {
    match action {
        DockerAction::Start => docker_start_args(),
        DockerAction::Stop => seq!["stop"@, "pact-broker"@],
        DockerAction::Remove => seq!["rm"@, "pact-broker"@],
    }
}

/// The `docker` arguments for an action.
pub fn docker_args(action: DockerAction) -> (r: Vec<String>)
    ensures
        r.deep_view() == docker_args_spec(action),
{
    let mut r: Vec<String> = Vec::new();
    match action {
        DockerAction::Start => {
            r.push(String::from_str("run"));
            r.push(String::from_str("-d"));
            r.push(String::from_str("--name"));
            r.push(String::from_str("pact-broker"));
            r.push(String::from_str("-p"));
            r.push(String::from_str("9292:9292"));
            r.push(String::from_str("--env"));
            r.push(String::from_str("PACT_BROKER_PORT=9292"));
            r.push(String::from_str("--env"));
            r.push(String::from_str("PACT_BROKER_DATABASE_URL=sqlite:////tmp/pact_broker.sqlite"));
            r.push(String::from_str("--env"));
            r.push(
                String::from_str(
                    "'PACT_BROKER_BASE_URL=http://localhost http://localhost http://localhost:9292 http://pact-broker:9292 https://host.docker.internal http://host.docker.internal http://host.docker.internal:9292'",
                ),
            );
            r.push(String::from_str("pactfoundation/pact-broker:latest"));
            assert(r.deep_view() =~= docker_start_args());
        },
        DockerAction::Stop => {
            r.push(String::from_str("stop"));
            r.push(String::from_str("pact-broker"));
            assert(r.deep_view() =~= seq!["stop"@, "pact-broker"@]);
        },
        DockerAction::Remove => {
            r.push(String::from_str("rm"));
            r.push(String::from_str("pact-broker"));
            assert(r.deep_view() =~= seq!["rm"@, "pact-broker"@]);
        },
    }
    r
}

/// The line printed before running the Docker command: only `start`
/// announces its full command line.
pub fn docker_announcement(action: DockerAction, args: &Vec<String>) -> (r: Option<String>)
    ensures
        action == DockerAction::Start <==> r is Some,
        r matches Some(t) ==> t@ == "Starting Pact Broker Docker container with command: docker "@
            + join_spec(args.deep_view(), " "@),
{
    if action == DockerAction::Start {
        let mut r = String::from_str("Starting Pact Broker Docker container with command: docker ");
        let joined = join(args, " ");
        r.append(joined.as_str());
        Some(r)
    } else {
        None
    }
}

pub open spec fn docker_verb(action: DockerAction) -> Seq<char> {
    match action {
        DockerAction::Start => "start"@,
        DockerAction::Stop => "stop"@,
        DockerAction::Remove => "remove"@,
    }
}

pub open spec fn docker_done(action: DockerAction) -> Seq<char> {
    match action {
        DockerAction::Start => "started"@,
        DockerAction::Stop => "stopped"@,
        DockerAction::Remove => "removed"@,
    }
}

/// The line printed when the Docker command succeeded.
pub fn docker_success_message(action: DockerAction) -> (r: String)
    ensures
        r@ == "Docker container "@ + docker_done(action) + " successfully"@,
{
    let mut r = String::from_str("Docker container ");
    r.append(
        match action {
            DockerAction::Start => "started",
            DockerAction::Stop => "stopped",
            DockerAction::Remove => "removed",
        },
    );
    r.append(" successfully");
    r
}

/// The line printed when the Docker command failed, with what it wrote to
/// standard error.
pub fn docker_failure_message(action: DockerAction, stderr: &str) -> (r: String)
    ensures
        r@ == "Failed to "@ + docker_verb(action) + " Docker container: "@ + stderr@,
{
    let mut r = String::from_str("Failed to ");
    r.append(
        match action {
            DockerAction::Start => "start",
            DockerAction::Stop => "stop",
            DockerAction::Remove => "remove",
        },
    );
    r.append(" Docker container: ");
    r.append(stderr);
    r
}

/// The exit code when the Docker command failed: for `start`, Docker's own
/// code (1 when it has none) truncated to a byte; 1 otherwise.
pub fn docker_failure_exit_code(action: DockerAction, code: Option<i32>) -> (r: u8)
    ensures
        r == match action {
            DockerAction::Start => match code {
                Some(c) => c as u8,
                None => 1u8,
            },
            _ => 1u8,
        },
{
    match action {
        DockerAction::Start => match code {
            Some(c) => c as u8,
            None => 1,
        },
        _ => 1,
    }
}

/// The Docker command lines: `start` runs the `pactfoundation/pact-broker:latest`
/// image detached as the container `pact-broker`, publishing port 9292 and
/// setting, each through `--env`, the broker's port, its SQLite database
/// `/tmp/pact_broker.sqlite` and its base URLs; `stop` and `remove` stop and
/// remove that container.
pub proof fn law_docker_command_lines()
    ensures
        docker_args_spec(DockerAction::Start) == seq![
            "run"@,
            "-d"@,
            "--name"@,
            "pact-broker"@,
            "-p"@,
            "9292:9292"@,
            "--env"@,
            "PACT_BROKER_PORT=9292"@,
            "--env"@,
            "PACT_BROKER_DATABASE_URL=sqlite:////tmp/pact_broker.sqlite"@,
            "--env"@,
            "'PACT_BROKER_BASE_URL=http://localhost http://localhost http://localhost:9292 http://pact-broker:9292 https://host.docker.internal http://host.docker.internal http://host.docker.internal:9292'"@,
            "pactfoundation/pact-broker:latest"@,
        ],
        ({
            let a = docker_args_spec(DockerAction::Start);
            &&& a[0] == "run"@
            &&& a.last() == "pactfoundation/pact-broker:latest"@
            &&& exists|i: int| #![trigger a[i]] 0 <= i < a.len() - 1 && a[i] == "--env"@ && a[i + 1]
                == "PACT_BROKER_DATABASE_URL=sqlite:////tmp/pact_broker.sqlite"@
            &&& exists|i: int| #![trigger a[i]] 0 <= i < a.len() - 1 && a[i] == "--env"@ && a[i + 1]
                == "PACT_BROKER_PORT=9292"@
            &&& exists|i: int| #![trigger a[i]] 0 <= i < a.len() - 1 && a[i] == "-p"@ && a[i + 1]
                == "9292:9292"@
        }),
        docker_args_spec(DockerAction::Stop) == seq!["stop"@, "pact-broker"@],
        docker_args_spec(DockerAction::Remove) == seq!["rm"@, "pact-broker"@],
{
    let a = docker_args_spec(DockerAction::Start);
    assert(a[8] == "--env"@ && a[9] == "PACT_BROKER_DATABASE_URL=sqlite:////tmp/pact_broker.sqlite"@);
    assert(a[6] == "--env"@ && a[7] == "PACT_BROKER_PORT=9292"@);
    assert(a[4] == "-p"@ && a[5] == "9292:9292"@);
}

/// The lines printed after a Docker command name what it did:
/// `start` started, `stop` stopped and `remove` removed the container, and a
/// failure names the action that failed.
pub proof fn law_docker_outcome_words()
    ensures
        docker_done(DockerAction::Start) == "started"@,
        docker_done(DockerAction::Stop) == "stopped"@,
        docker_done(DockerAction::Remove) == "removed"@,
        docker_verb(DockerAction::Start) == "start"@,
        docker_verb(DockerAction::Stop) == "stop"@,
        docker_verb(DockerAction::Remove) == "remove"@,
{
}

} // verus!
