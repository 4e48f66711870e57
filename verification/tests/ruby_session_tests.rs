use pact_cli::ruby_session::{
    DirRemoval, RubyCommand, RubyEffect, RubyEvent, RubySession, RubyStage,
};

fn session(command: RubyCommand) -> RubySession {
    RubySession::new(
        command,
        "/home/me/.pact/pact-broker".to_string(),
        "/home/me/.pact/pact-broker/broker.pid".to_string(),
    )
}

fn printed(effect: &RubyEffect) -> Option<&str> {
    match effect {
        RubyEffect::Print(line) => Some(line.as_str()),
        _ => None,
    }
}

#[test]
fn ruby_install_when_already_installed() {
    let s = session(RubyCommand::Install { otel: false });
    let (stage, effects) = s.step(RubyStage::Begin, RubyEvent::Go);
    assert_eq!(stage, RubyStage::AwaitInstalled);
    assert_eq!(effects.len(), 1);
    assert!(matches!(effects[0], RubyEffect::CheckInstalled));

    let (stage, effects) = s.step(stage, RubyEvent::Installed(true));
    assert_eq!(stage, RubyStage::Done);
    assert_eq!(effects.len(), 2);
    assert_eq!(
        printed(&effects[0]),
        Some("🚀 Pact Broker is already installed at /home/me/.pact/pact-broker")
    );
    assert!(matches!(effects[1], RubyEffect::Finish(Ok(()))));
}

#[test]
fn ruby_install_fresh() {
    let s = session(RubyCommand::Install { otel: true });
    let (stage, effects) = s.step(RubyStage::AwaitInstalled, RubyEvent::Installed(false));
    assert_eq!(stage, RubyStage::AwaitInstall);
    assert_eq!(effects.len(), 2);
    assert_eq!(printed(&effects[0]), Some("🚀 Installing Pact Broker..."));
    assert!(matches!(effects[1], RubyEffect::Install { otel: true }));

    let (stage, effects) = s.step(stage, RubyEvent::InstallFinished(Ok(())));
    assert_eq!(stage, RubyStage::Done);
    assert_eq!(effects.len(), 2);
    assert_eq!(
        printed(&effects[0]),
        Some("🚀 Pact Broker installed at /home/me/.pact/pact-broker")
    );
    assert!(matches!(effects[1], RubyEffect::Finish(Ok(()))));
}

#[test]
fn ruby_install_failure_ends_session() {
    for command in [
        RubyCommand::Install { otel: false },
        RubyCommand::Start { detach: true, otel: false },
    ] {
        let s = session(command);
        let (stage, effects) = s.step(
            RubyStage::AwaitInstall,
            RubyEvent::InstallFinished(Err("Bundler is not installed or not in PATH.".to_string())),
        );
        assert_eq!(stage, RubyStage::Done);
        assert_eq!(effects.len(), 1);
        match &effects[0] {
            RubyEffect::Finish(Err(e)) => assert_eq!(e, "Bundler is not installed or not in PATH."),
            other => panic!("unexpected effect {:?}", other),
        }
    }
}

#[test]
fn ruby_start_installs_first_when_missing() {
    let s = session(RubyCommand::Start { detach: false, otel: true });
    let (stage, effects) = s.step(RubyStage::AwaitInstalled, RubyEvent::Installed(false));
    assert_eq!(stage, RubyStage::AwaitInstall);
    assert_eq!(printed(&effects[0]), Some("🚀 Pact Broker not found, installing..."));
    assert!(matches!(effects[1], RubyEffect::Install { otel: true }));

    let (stage, effects) = s.step(stage, RubyEvent::InstallFinished(Ok(())));
    assert_eq!(stage, RubyStage::AwaitSpawn);
    assert_eq!(effects.len(), 2);
    assert_eq!(printed(&effects[0]), Some("🚀 Starting Pact Broker with Puma..."));
    assert!(matches!(effects[1], RubyEffect::Spawn));
}

#[test]
fn ruby_start_detached() {
    let s = session(RubyCommand::Start { detach: true, otel: false });
    let (stage, effects) = s.step(RubyStage::AwaitInstalled, RubyEvent::Installed(true));
    assert_eq!(stage, RubyStage::AwaitSpawn);
    assert_eq!(printed(&effects[0]), Some("🚀 Starting Pact Broker with Puma..."));
    assert!(matches!(effects[1], RubyEffect::Spawn));

    let (stage, effects) = s.step(stage, RubyEvent::Spawned(Some(4242)));
    assert_eq!(stage, RubyStage::AwaitPidFile);
    assert_eq!(effects.len(), 4);
    assert_eq!(printed(&effects[0]), Some("🚀 Pact Broker is running on http://localhost:9292"));
    assert_eq!(printed(&effects[1]), Some("🚀 PID: 4242"));
    assert_eq!(
        printed(&effects[2]),
        Some("🚀 PID file: /home/me/.pact/pact-broker/broker.pid")
    );
    assert!(matches!(effects[3], RubyEffect::SleepThenReadPidFile));

    let (stage, effects) = s.step(stage, RubyEvent::PidFile(None));
    assert_eq!(stage, RubyStage::AwaitPidFile);
    assert_eq!(effects.len(), 1);
    assert!(matches!(effects[0], RubyEffect::SleepThenReadPidFile));

    let (stage, effects) = s.step(stage, RubyEvent::PidFile(Some("unknown".to_string())));
    assert_eq!(stage, RubyStage::AwaitPidFile);
    assert!(matches!(effects[0], RubyEffect::SleepThenReadPidFile));

    let (stage, effects) = s.step(stage, RubyEvent::PidFile(Some("4250".to_string())));
    assert_eq!(stage, RubyStage::Done);
    assert_eq!(effects.len(), 3);
    assert_eq!(printed(&effects[0]), Some("Traveling Broker PID: 4250"));
    assert_eq!(printed(&effects[1]), Some("🚀 Running in the background"));
    assert!(matches!(effects[2], RubyEffect::Finish(Ok(()))));
}

#[test]
fn ruby_start_attached_stops_after_exit() {
    let s = session(RubyCommand::Start { detach: false, otel: false });
    let (stage, effects) = s.step(RubyStage::AwaitPidFile, RubyEvent::PidFile(Some("77".to_string())));
    assert_eq!(stage, RubyStage::AwaitExit);
    assert_eq!(effects.len(), 2);
    assert_eq!(printed(&effects[0]), Some("Traveling Broker PID: 77"));
    assert!(matches!(effects[1], RubyEffect::WaitForExitThenKill));

    let (stage, effects) = s.step(stage, RubyEvent::Exited);
    assert_eq!(stage, RubyStage::AwaitPid);
    assert!(matches!(effects[0], RubyEffect::ReadPid));

    let (stage, effects) = s.step(stage, RubyEvent::Pid(Some(77)));
    assert_eq!(stage, RubyStage::Done);
    assert_eq!(effects.len(), 4);
    assert_eq!(printed(&effects[0]), Some("🚀 Stopping Pact Broker with PID: 77"));
    assert!(matches!(effects[1], RubyEffect::Terminate { pid: 77, windows_only: true }));
    assert!(matches!(effects[2], RubyEffect::RemovePidFile));
    assert!(matches!(effects[3], RubyEffect::Finish(Ok(()))));

    let (stage, effects) = s.step(RubyStage::AwaitPid, RubyEvent::Pid(None));
    assert_eq!(stage, RubyStage::Done);
    assert_eq!(effects.len(), 3);
    assert_eq!(printed(&effects[0]), Some("PID file not found"));
    assert!(matches!(effects[1], RubyEffect::RemovePidFile));
    assert!(matches!(effects[2], RubyEffect::Finish(Ok(()))));
}

#[test]
fn ruby_start_spawn_failure() {
    let s = session(RubyCommand::Start { detach: false, otel: false });
    let (stage, effects) = s.step(RubyStage::AwaitSpawn, RubyEvent::Spawned(None));
    assert_eq!(stage, RubyStage::Done);
    assert_eq!(effects.len(), 1);
    match &effects[0] {
        RubyEffect::Finish(Err(e)) => assert_eq!(e, "Failed to start Pact Broker"),
        other => panic!("unexpected effect {:?}", other),
    }
}

#[test]
fn ruby_stop() {
    let s = session(RubyCommand::Stop);
    let (stage, effects) = s.step(RubyStage::Begin, RubyEvent::Go);
    assert_eq!(stage, RubyStage::AwaitPid);
    assert!(matches!(effects[0], RubyEffect::ReadPid));

    let (stage, effects) = s.step(stage, RubyEvent::Pid(Some(1234)));
    assert_eq!(stage, RubyStage::Done);
    assert_eq!(effects.len(), 5);
    assert_eq!(printed(&effects[0]), Some("🚀 Stopping Pact Broker with PID: 1234"));
    assert!(matches!(effects[1], RubyEffect::Terminate { pid: 1234, windows_only: false }));
    assert!(matches!(effects[2], RubyEffect::RemovePidFile));
    assert_eq!(printed(&effects[3]), Some("🛑 Pact Broker stopped"));
    assert!(matches!(effects[4], RubyEffect::Finish(Ok(()))));
}

#[test]
fn ruby_stop_when_not_running() {
    let s = session(RubyCommand::Stop);
    let (stage, effects) = s.step(RubyStage::AwaitPid, RubyEvent::Pid(None));
    assert_eq!(stage, RubyStage::Done);
    assert_eq!(effects.len(), 1);
    match &effects[0] {
        RubyEffect::Finish(Err(e)) => assert_eq!(e, "⚠️ Pact Broker is not running"),
        other => panic!("unexpected effect {:?}", other),
    }
}

#[test]
fn ruby_remove() {
    let s = session(RubyCommand::Remove);
    let (stage, effects) = s.step(RubyStage::AwaitPid, RubyEvent::Pid(Some(9)));
    assert_eq!(stage, RubyStage::AwaitDirRemoval);
    assert_eq!(effects.len(), 5);
    assert_eq!(printed(&effects[0]), Some("🚀 Stopping Pact Broker with PID: 9"));
    assert!(matches!(effects[1], RubyEffect::Terminate { pid: 9, windows_only: false }));
    assert!(matches!(effects[2], RubyEffect::RemovePidFile));
    assert_eq!(printed(&effects[3]), Some("🛑 Pact Broker stopped"));
    assert!(matches!(effects[4], RubyEffect::RemoveBrokerDir));

    let (stage, effects) = s.step(RubyStage::AwaitPid, RubyEvent::Pid(None));
    assert_eq!(stage, RubyStage::AwaitDirRemoval);
    assert_eq!(effects.len(), 1);
    assert!(matches!(effects[0], RubyEffect::RemoveBrokerDir));

    let (stage, effects) = s.step(stage, RubyEvent::DirRemoved(DirRemoval::Removed));
    assert_eq!(stage, RubyStage::Done);
    assert_eq!(printed(&effects[0]), Some("broker_dir removed successfully"));
    assert!(matches!(effects[1], RubyEffect::Finish(Ok(()))));

    let (_, effects) = s.step(RubyStage::AwaitDirRemoval, RubyEvent::DirRemoved(DirRemoval::Missing));
    assert_eq!(
        printed(&effects[0]),
        Some("broker_dir /home/me/.pact/pact-broker not found")
    );
    assert!(matches!(effects[1], RubyEffect::Finish(Ok(()))));

    let (_, effects) = s.step(
        RubyStage::AwaitDirRemoval,
        RubyEvent::DirRemoved(DirRemoval::Failed("permission denied".to_string())),
    );
    assert_eq!(printed(&effects[0]), Some("Failed to remove broker_dir: permission denied"));

    let (_, effects) = s.step(
        RubyStage::AwaitDirRemoval,
        RubyEvent::DirRemoved(DirRemoval::NotADirectory),
    );
    assert_eq!(effects.len(), 1);
    assert!(matches!(effects[0], RubyEffect::Finish(Ok(()))));
}

#[test]
fn ruby_session_ignores_unexpected_events() {
    let s = session(RubyCommand::Stop);
    let (stage, effects) = s.step(RubyStage::Begin, RubyEvent::Exited);
    assert_eq!(stage, RubyStage::Begin);
    assert!(effects.is_empty());
    let (stage, effects) = s.step(RubyStage::AwaitInstalled, RubyEvent::Installed(true));
    assert_eq!(stage, RubyStage::AwaitInstalled);
    assert!(effects.is_empty());
}
