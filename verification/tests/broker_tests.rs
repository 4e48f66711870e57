use pact_cli::broker::{
    bundle_install_result, check_ruby_version, config_ru_content, docker_announcement, docker_args,
    docker_failure_exit_code, docker_failure_message,
    docker_success_message, gemfile_content, pid_file_ready, pid_from_text, DockerAction,
    broker_files, GEMFILE_BASE, GEMFILE_OTEL, OTEL_RB,
};

#[test]
fn ruby_version_check() {
    assert_eq!(check_ruby_version("3.1.0"), Ok(()));
    assert_eq!(check_ruby_version("3.4.1"), Ok(()));
    assert_eq!(check_ruby_version("4.0"), Ok(()));
    assert_eq!(
        check_ruby_version("3.0.6"),
        Err("Ruby version 3.1 or greater is required. Found version 3.0.6.".to_string())
    );
    assert_eq!(
        check_ruby_version("2.7.8"),
        Err("Ruby version 3.1 or greater is required. Found version 2.7.8.".to_string())
    );
    assert_eq!(check_ruby_version("3"), Err("Could not determine Ruby version.".to_string()));
    assert_eq!(check_ruby_version(""), Err("Could not determine Ruby version.".to_string()));
    assert!(check_ruby_version("x.y").is_err());
}

#[test]
fn broker_file_contents() {
    assert_eq!(gemfile_content(false), GEMFILE_BASE);
    let with_otel = gemfile_content(true);
    assert!(with_otel.starts_with("source 'https://rubygems.org'"));
    assert!(with_otel.ends_with("gem \"opentelemetry-exporter-otlp\"\n"));
    assert_eq!(with_otel, format!("{}{}", GEMFILE_BASE, GEMFILE_OTEL));
    assert_eq!(config_ru_content(true), CONFIG_RU_OTEL);
    assert!(config_ru_content(true).starts_with("require_relative 'otel'"));
    assert_eq!(config_ru_content(false), CONFIG_RU_PLAIN);
    assert!(!config_ru_content(false).starts_with("require_relative 'otel'"));
    assert_eq!(bundle_install_result(true), Ok(()));
    assert_eq!(
        bundle_install_result(false),
        Err("\u{26a0}\u{fe0f}  bundle install failed. Please check your Ruby and Bundler setup.".to_string())
    );
}

#[test]
fn pid_file_contents() {
    assert!(!pid_file_ready("unknown"));
    assert!(pid_file_ready("12345"));
    assert!(pid_file_ready(""));
    assert!(!pid_file_ready("12345\n"));
    assert_eq!(pid_from_text("12345\n"), Some(12345));
    assert_eq!(pid_from_text(" 42 "), Some(42));
    assert_eq!(pid_from_text("abc"), None);
}

#[test]
fn docker_commands() {
    let start = docker_args(DockerAction::Start);
    assert_eq!(start[0], "run");
    assert_eq!(start.len(), 13);
    assert_eq!(start[12], "pactfoundation/pact-broker:latest");
    assert_eq!(docker_args(DockerAction::Stop), vec!["stop", "pact-broker"]);
    assert_eq!(docker_args(DockerAction::Remove), vec!["rm", "pact-broker"]);
    assert_eq!(docker_announcement(DockerAction::Stop, &docker_args(DockerAction::Stop)), None);
    let announced = docker_announcement(DockerAction::Start, &docker_args(DockerAction::Start)).unwrap();
    assert!(announced.starts_with("Starting Pact Broker Docker container with command: docker run -d --name pact-broker -p 9292:9292"));
    assert!(announced.ends_with(" pactfoundation/pact-broker:latest"));
    assert_eq!(docker_success_message(DockerAction::Remove), "Docker container removed successfully");
    assert_eq!(
        docker_failure_message(DockerAction::Start, "boom"),
        "Failed to start Docker container: boom"
    );
    assert_eq!(docker_failure_exit_code(DockerAction::Start, Some(125)), 125);
    assert_eq!(docker_failure_exit_code(DockerAction::Start, Some(256)), 0);
    assert_eq!(docker_failure_exit_code(DockerAction::Start, Some(-1)), 255);
    assert_eq!(docker_failure_exit_code(DockerAction::Start, None), 1);
    assert_eq!(docker_failure_exit_code(DockerAction::Stop, Some(125)), 1);
}

const CONFIG_RU_OTEL: &str = r#"require_relative 'otel'
require 'logger'
require 'sequel'
require 'pact_broker'

DATABASE_CREDENTIALS = {adapter: "sqlite", database: "pact_broker_database.sqlite3", :encoding => 'utf8'}

app = PactBroker::App.new do | config |
  config.log_stream = "stdout"
  config.database_connection = Sequel.connect(DATABASE_CREDENTIALS.merge(:logger => config.logger))
end

Rack::PactBroker::OpenTelemetry.setup(self)
run app
"#;

const CONFIG_RU_PLAIN: &str = r#"require 'logger'
require 'sequel'
require 'pact_broker'

DATABASE_CREDENTIALS = {adapter: "sqlite", database: "pact_broker_database.sqlite3", :encoding => 'utf8'}
app = PactBroker::App.new do | config |
  config.log_stream = "stdout"
  config.database_connection = Sequel.connect(DATABASE_CREDENTIALS.merge(:logger => config.logger))
end

run app
"#;

#[test]
fn broker_files_follow_otel() {
    let plain = broker_files(false);
    let names: Vec<&str> = plain.iter().map(|(n, _)| n.as_str()).collect();
    assert_eq!(names, vec!["Gemfile", "config.ru"]);
    assert_eq!(plain[0].1, GEMFILE_BASE);
    assert_eq!(plain[1].1, CONFIG_RU_PLAIN);

    let otel = broker_files(true);
    let names: Vec<&str> = otel.iter().map(|(n, _)| n.as_str()).collect();
    assert_eq!(names, vec!["otel.rb", "Gemfile", "config.ru"]);
    assert_eq!(otel[0].1, OTEL_RB);
    assert_eq!(otel[1].1, format!("{}{}", GEMFILE_BASE, GEMFILE_OTEL));
    assert_eq!(otel[2].1, CONFIG_RU_OTEL);
}
