//! The `pact broker ruby` session: the steps that `install`, `start`, `stop`
//! and `remove` take. A step maps the stage the session is in and what the
//! last effect observed to the next stage and the effects to carry out; the
//! caller performs the effects and reports what the last of them observed.
use vstd::prelude::*;

use crate::broker::{pid_file_ready, pid_ready};
use crate::text::{decimal, decimal_spec};

verus! {

/// The subcommands of `pact broker ruby` that run as a session.
#[derive(Clone, Copy, Debug, PartialEq, Eq, Structural)]
pub enum RubyCommand {
    Install { otel: bool },
    Start { detach: bool, otel: bool },
    Stop,
    Remove,
}

/// Where a session stands: what it waits to hear next.
#[derive(Clone, Copy, Debug, PartialEq, Eq, Structural)]
pub enum RubyStage {
    Begin,
    AwaitInstalled,
    AwaitInstall,
    AwaitSpawn,
    AwaitPidFile,
    AwaitExit,
    AwaitPid,
    AwaitDirRemoval,
    Done,
}

/// What became of the broker directory when it was to be removed.
#[derive(Debug)]
pub enum DirRemoval {
    Missing,
    NotADirectory,
    Removed,
    Failed(String),
}

/// What the last effect observed.
#[derive(Debug)]
pub enum RubyEvent {
    /// The session is asked to begin.
    Go,
    /// Whether `Gemfile` and `config.ru` exist in the broker directory.
    Installed(bool),
    /// The outcome of the installation.
    InstallFinished(Result<(), String>),
    /// The process id of the started Puma server, or `None` when it could
    /// not be started.
    Spawned(Option<u32>),
    /// The PID file's contents, or `None` when it could not be read.
    PidFile(Option<String>),
    /// The server process has exited and was killed.
    Exited,
    /// The PID read from the PID file, or `None` when it could not be opened.
    Pid(Option<u32>),
    /// What became of the broker directory.
    DirRemoved(DirRemoval),
}

/// One thing for the caller to do.
#[derive(Debug)]
pub enum RubyEffect {
    /// Print the line.
    Print(String),
    /// Look for `Gemfile` and `config.ru`; answer with `Installed`.
    CheckInstalled,
    /// Install the broker; answer with `InstallFinished`.
    Install { otel: bool },
    /// Start `ruby -S bundle exec puma --pidfile <pid file>` in the broker
    /// directory; answer with `Spawned`.
    Spawn,
    /// Wait a second, read the PID file; answer with `PidFile`.
    SleepThenReadPidFile,
    /// Wait for the server to exit, then kill it; answer with `Exited`.
    WaitForExitThenKill,
    /// Read the PID from the PID file; answer with `Pid`.
    ReadPid,
    /// Stop the process `pid` (`taskkill` on Windows, `kill` elsewhere; only
    /// on Windows when `windows_only`).
    Terminate { pid: u32, windows_only: bool },
    /// Remove the PID file, ignoring failure.
    RemovePidFile,
    /// Remove the broker directory; answer with `DirRemoved`.
    RemoveBrokerDir,
    /// End the session with this outcome.
    Finish(Result<(), String>),
}

/// An effect with its texts as character sequences.
pub enum RubyEffectView {
    Print(Seq<char>),
    CheckInstalled,
    Install { otel: bool },
    Spawn,
    SleepThenReadPidFile,
    WaitForExitThenKill,
    ReadPid,
    Terminate { pid: u32, windows_only: bool },
    RemovePidFile,
    RemoveBrokerDir,
    Finish(Result<(), Seq<char>>),
}

impl View for RubyEffect {
    type V = RubyEffectView;

    open spec fn view(&self) -> RubyEffectView {
        match self {
            RubyEffect::Print(s) => RubyEffectView::Print(s@),
            RubyEffect::CheckInstalled => RubyEffectView::CheckInstalled,
            RubyEffect::Install { otel } => RubyEffectView::Install { otel: *otel },
            RubyEffect::Spawn => RubyEffectView::Spawn,
            RubyEffect::SleepThenReadPidFile => RubyEffectView::SleepThenReadPidFile,
            RubyEffect::WaitForExitThenKill => RubyEffectView::WaitForExitThenKill,
            RubyEffect::ReadPid => RubyEffectView::ReadPid,
            RubyEffect::Terminate { pid, windows_only } => RubyEffectView::Terminate {
                pid: *pid,
                windows_only: *windows_only,
            },
            RubyEffect::RemovePidFile => RubyEffectView::RemovePidFile,
            RubyEffect::RemoveBrokerDir => RubyEffectView::RemoveBrokerDir,
            RubyEffect::Finish(r) => RubyEffectView::Finish(
                match r {
                    Ok(()) => Ok(()),
                    Err(e) => Err(e@),
                },
            ),
        }
    }
}

pub open spec fn effects_view(v: Seq<RubyEffect>) -> Seq<RubyEffectView> {
    v.map_values(|e: RubyEffect| e@)
}

pub open spec fn say(s: Seq<char>) -> RubyEffectView {
    RubyEffectView::Print(s)
}

pub open spec fn finish_ok() -> RubyEffectView {
    RubyEffectView::Finish(Ok(()))
}

pub open spec fn starting_line() -> Seq<char> {
    "\u{1f680} Starting Pact Broker with Puma..."@
}

pub open spec fn stopping_line(pid: u32) -> Seq<char> {
    "\u{1f680} Stopping Pact Broker with PID: "@ + decimal_spec(pid as nat)
}

pub open spec fn stopped_line() -> Seq<char> {
    "\u{1f6d1} Pact Broker stopped"@
}

/// The next step of a session of `cmd` whose broker directory and PID file
/// display as `dir` and `pid_file`: the next stage and the effects, in order.
/// An event that the stage does not wait for leaves the stage as it is and
/// asks for nothing.
pub open spec fn ruby_step_spec(
    cmd: RubyCommand,
    dir: Seq<char>,
    pid_file: Seq<char>,
    stage: RubyStage,
    event: RubyEvent,
) -> (RubyStage, Seq<RubyEffectView>) {
    let ignored = (stage, Seq::<RubyEffectView>::empty());
    match (stage, event) {
        (RubyStage::Begin, RubyEvent::Go) => if cmd is Stop || cmd is Remove {
            (RubyStage::AwaitPid, seq![RubyEffectView::ReadPid])
        } else {
            (RubyStage::AwaitInstalled, seq![RubyEffectView::CheckInstalled])
        },
        (RubyStage::AwaitInstalled, RubyEvent::Installed(installed)) => match cmd {
            RubyCommand::Install { otel } => if installed {
                (
                    RubyStage::Done,
                    seq![say("\u{1f680} Pact Broker is already installed at "@ + dir), finish_ok()],
                )
            } else {
                (
                    RubyStage::AwaitInstall,
                    seq![say("\u{1f680} Installing Pact Broker..."@), RubyEffectView::Install { otel }],
                )
            },
            RubyCommand::Start { detach, otel } => if installed {
                (RubyStage::AwaitSpawn, seq![say(starting_line()), RubyEffectView::Spawn])
            } else {
                (
                    RubyStage::AwaitInstall,
                    seq![
                        say("\u{1f680} Pact Broker not found, installing..."@),
                        RubyEffectView::Install { otel },
                    ],
                )
            },
            _ => ignored,
        },
        (RubyStage::AwaitInstall, RubyEvent::InstallFinished(outcome)) => match outcome {
            Err(e) => (RubyStage::Done, seq![RubyEffectView::Finish(Err(e@))]),
            Ok(()) => match cmd {
                RubyCommand::Install { .. } => (
                    RubyStage::Done,
                    seq![say("\u{1f680} Pact Broker installed at "@ + dir), finish_ok()],
                ),
                RubyCommand::Start { .. } => (
                    RubyStage::AwaitSpawn,
                    seq![say(starting_line()), RubyEffectView::Spawn],
                ),
                _ => ignored,
            },
        },
        (RubyStage::AwaitSpawn, RubyEvent::Spawned(spawned)) => match spawned {
            None => (
                RubyStage::Done,
                seq![RubyEffectView::Finish(Err("Failed to start Pact Broker"@))],
            ),
            Some(pid) => (
                RubyStage::AwaitPidFile,
                seq![
                    say("\u{1f680} Pact Broker is running on http://localhost:9292"@),
                    say("\u{1f680} PID: "@ + decimal_spec(pid as nat)),
                    say("\u{1f680} PID file: "@ + pid_file),
                    RubyEffectView::SleepThenReadPidFile,
                ],
            ),
        },
        (RubyStage::AwaitPidFile, RubyEvent::PidFile(contents)) => match contents {
            Some(c) => if !pid_ready(c@) {
                (RubyStage::AwaitPidFile, seq![RubyEffectView::SleepThenReadPidFile])
            } else if cmd matches RubyCommand::Start { detach, .. } && detach {
                (
                    RubyStage::Done,
                    seq![
                        say("Traveling Broker PID: "@ + c@),
                        say("\u{1f680} Running in the background"@),
                        finish_ok(),
                    ],
                )
            } else {
                (
                    RubyStage::AwaitExit,
                    seq![say("Traveling Broker PID: "@ + c@), RubyEffectView::WaitForExitThenKill],
                )
            },
            None => (RubyStage::AwaitPidFile, seq![RubyEffectView::SleepThenReadPidFile]),
        },
        (RubyStage::AwaitExit, RubyEvent::Exited) => (
            RubyStage::AwaitPid,
            seq![RubyEffectView::ReadPid],
        ),
        (RubyStage::AwaitPid, RubyEvent::Pid(read)) => match (cmd, read) {
            (RubyCommand::Start { .. }, Some(pid)) => (
                RubyStage::Done,
                seq![
                    say(stopping_line(pid)),
                    RubyEffectView::Terminate { pid, windows_only: true },
                    RubyEffectView::RemovePidFile,
                    finish_ok(),
                ],
            ),
            (RubyCommand::Start { .. }, None) => (
                RubyStage::Done,
                seq![say("PID file not found"@), RubyEffectView::RemovePidFile, finish_ok()],
            ),
            (RubyCommand::Stop, Some(pid)) => (
                RubyStage::Done,
                seq![
                    say(stopping_line(pid)),
                    RubyEffectView::Terminate { pid, windows_only: false },
                    RubyEffectView::RemovePidFile,
                    say(stopped_line()),
                    finish_ok(),
                ],
            ),
            (RubyCommand::Stop, None) => (
                RubyStage::Done,
                seq![
                    RubyEffectView::Finish(Err("\u{26a0}\u{fe0f} Pact Broker is not running"@)),
                ],
            ),
            (RubyCommand::Remove, Some(pid)) => (
                RubyStage::AwaitDirRemoval,
                seq![
                    say(stopping_line(pid)),
                    RubyEffectView::Terminate { pid, windows_only: false },
                    RubyEffectView::RemovePidFile,
                    say(stopped_line()),
                    RubyEffectView::RemoveBrokerDir,
                ],
            ),
            (RubyCommand::Remove, None) => (
                RubyStage::AwaitDirRemoval,
                seq![RubyEffectView::RemoveBrokerDir],
            ),
            _ => ignored,
        },
        (RubyStage::AwaitDirRemoval, RubyEvent::DirRemoved(outcome)) => match outcome {
            DirRemoval::Missing => (
                RubyStage::Done,
                seq![say("broker_dir "@ + dir + " not found"@), finish_ok()],
            ),
            DirRemoval::NotADirectory => (RubyStage::Done, seq![finish_ok()]),
            DirRemoval::Removed => (
                RubyStage::Done,
                seq![say("broker_dir removed successfully"@), finish_ok()],
            ),
            DirRemoval::Failed(e) => (
                RubyStage::Done,
                seq![say("Failed to remove broker_dir: "@ + e@), finish_ok()],
            ),
        },
        _ => ignored,
    }
}

/// A session of one `pact broker ruby` subcommand.
pub struct RubySession {
    pub command: RubyCommand,
    /// How the broker directory displays.
    pub broker_dir: String,
    /// How the PID file's path displays.
    pub pid_file: String,
}

fn say_line(s: &str) -> (r: RubyEffect)
    ensures
        r@ == say(s@),
{
    RubyEffect::Print(String::from_str(s))
}

fn say_joined(a: &str, b: &str) -> (r: RubyEffect)
    ensures
        r@ == say(a@ + b@),
{
    let mut s = String::from_str(a);
    s.append(b);
    RubyEffect::Print(s)
}

fn say_stopping(pid: u32) -> (r: RubyEffect)
    ensures
        r@ == say(stopping_line(pid)),
{
    let n = decimal(pid as u64);
    say_joined("\u{1f680} Stopping Pact Broker with PID: ", n.as_str())
}

impl RubySession {
    pub fn new(command: RubyCommand, broker_dir: String, pid_file: String) -> (r: Self)
        ensures
            r.command == command,
            r.broker_dir@ == broker_dir@,
            r.pid_file@ == pid_file@,
    {
        RubySession { command, broker_dir, pid_file }
    }

    /// The next stage and the effects to carry out, given what the last
    /// effect observed.
    pub fn step(&self, stage: RubyStage, event: RubyEvent) -> (r: (RubyStage, Vec<RubyEffect>))
        ensures
            r.0 == ruby_step_spec(self.command, self.broker_dir@, self.pid_file@, stage, event).0,
            effects_view(r.1@) == ruby_step_spec(
                self.command,
                self.broker_dir@,
                self.pid_file@,
                stage,
                event,
            ).1,
    {
        let ghost spec = ruby_step_spec(self.command, self.broker_dir@, self.pid_file@, stage, event);
        let mut out: Vec<RubyEffect> = Vec::new();
        let next = match (stage, event) {
            (RubyStage::Begin, RubyEvent::Go) => {
                match self.command {
                    RubyCommand::Stop | RubyCommand::Remove => {
                        out.push(RubyEffect::ReadPid);
                        RubyStage::AwaitPid
                    },
                    _ => {
                        out.push(RubyEffect::CheckInstalled);
                        RubyStage::AwaitInstalled
                    },
                }
            },
            (RubyStage::AwaitInstalled, RubyEvent::Installed(installed)) => {
                match self.command {
                    RubyCommand::Install { otel } => {
                        if installed {
                            out.push(
                                say_joined(
                                    "\u{1f680} Pact Broker is already installed at ",
                                    self.broker_dir.as_str(),
                                ),
                            );
                            out.push(RubyEffect::Finish(Ok(())));
                            RubyStage::Done
                        } else {
                            out.push(say_line("\u{1f680} Installing Pact Broker..."));
                            out.push(RubyEffect::Install { otel });
                            RubyStage::AwaitInstall
                        }
                    },
                    RubyCommand::Start { otel, .. } => {
                        if installed {
                            out.push(say_line("\u{1f680} Starting Pact Broker with Puma..."));
                            out.push(RubyEffect::Spawn);
                            RubyStage::AwaitSpawn
                        } else {
                            out.push(say_line("\u{1f680} Pact Broker not found, installing..."));
                            out.push(RubyEffect::Install { otel });
                            RubyStage::AwaitInstall
                        }
                    },
                    _ => stage,
                }
            },
            (RubyStage::AwaitInstall, RubyEvent::InstallFinished(outcome)) => {
                match outcome {
                    Err(e) => {
                        out.push(RubyEffect::Finish(Err(e)));
                        RubyStage::Done
                    },
                    Ok(()) => match self.command {
                        RubyCommand::Install { .. } => {
                            out.push(
                                say_joined(
                                    "\u{1f680} Pact Broker installed at ",
                                    self.broker_dir.as_str(),
                                ),
                            );
                            out.push(RubyEffect::Finish(Ok(())));
                            RubyStage::Done
                        },
                        RubyCommand::Start { .. } => {
                            out.push(say_line("\u{1f680} Starting Pact Broker with Puma..."));
                            out.push(RubyEffect::Spawn);
                            RubyStage::AwaitSpawn
                        },
                        _ => stage,
                    },
                }
            },
            (RubyStage::AwaitSpawn, RubyEvent::Spawned(spawned)) => {
                match spawned {
                    None => {
                        out.push(
                            RubyEffect::Finish(Err(String::from_str("Failed to start Pact Broker"))),
                        );
                        RubyStage::Done
                    },
                    Some(pid) => {
                        out.push(say_line("\u{1f680} Pact Broker is running on http://localhost:9292"));
                        let n = decimal(pid as u64);
                        out.push(say_joined("\u{1f680} PID: ", n.as_str()));
                        out.push(say_joined("\u{1f680} PID file: ", self.pid_file.as_str()));
                        out.push(RubyEffect::SleepThenReadPidFile);
                        RubyStage::AwaitPidFile
                    },
                }
            },
            (RubyStage::AwaitPidFile, RubyEvent::PidFile(contents)) => {
                match contents {
                    Some(c) => {
                        if !pid_file_ready(c.as_str()) {
                            out.push(RubyEffect::SleepThenReadPidFile);
                            RubyStage::AwaitPidFile
                        } else {
                            out.push(say_joined("Traveling Broker PID: ", c.as_str()));
                            let detach = match self.command {
                                RubyCommand::Start { detach, .. } => detach,
                                _ => false,
                            };
                            if detach {
                                out.push(say_line("\u{1f680} Running in the background"));
                                out.push(RubyEffect::Finish(Ok(())));
                                RubyStage::Done
                            } else {
                                out.push(RubyEffect::WaitForExitThenKill);
                                RubyStage::AwaitExit
                            }
                        }
                    },
                    None => {
                        out.push(RubyEffect::SleepThenReadPidFile);
                        RubyStage::AwaitPidFile
                    },
                }
            },
            (RubyStage::AwaitExit, RubyEvent::Exited) => {
                out.push(RubyEffect::ReadPid);
                RubyStage::AwaitPid
            },
            (RubyStage::AwaitPid, RubyEvent::Pid(read)) => {
                match (self.command, read) {
                    (RubyCommand::Start { .. }, Some(pid)) => {
                        out.push(say_stopping(pid));
                        out.push(RubyEffect::Terminate { pid, windows_only: true });
                        out.push(RubyEffect::RemovePidFile);
                        out.push(RubyEffect::Finish(Ok(())));
                        RubyStage::Done
                    },
                    (RubyCommand::Start { .. }, None) => {
                        out.push(say_line("PID file not found"));
                        out.push(RubyEffect::RemovePidFile);
                        out.push(RubyEffect::Finish(Ok(())));
                        RubyStage::Done
                    },
                    (RubyCommand::Stop, Some(pid)) => {
                        out.push(say_stopping(pid));
                        out.push(RubyEffect::Terminate { pid, windows_only: false });
                        out.push(RubyEffect::RemovePidFile);
                        out.push(say_line("\u{1f6d1} Pact Broker stopped"));
                        out.push(RubyEffect::Finish(Ok(())));
                        RubyStage::Done
                    },
                    (RubyCommand::Stop, None) => {
                        out.push(
                            RubyEffect::Finish(
                                Err(String::from_str("\u{26a0}\u{fe0f} Pact Broker is not running")),
                            ),
                        );
                        RubyStage::Done
                    },
                    (RubyCommand::Remove, Some(pid)) => {
                        out.push(say_stopping(pid));
                        out.push(RubyEffect::Terminate { pid, windows_only: false });
                        out.push(RubyEffect::RemovePidFile);
                        out.push(say_line("\u{1f6d1} Pact Broker stopped"));
                        out.push(RubyEffect::RemoveBrokerDir);
                        RubyStage::AwaitDirRemoval
                    },
                    (RubyCommand::Remove, None) => {
                        out.push(RubyEffect::RemoveBrokerDir);
                        RubyStage::AwaitDirRemoval
                    },
                    _ => stage,
                }
            },
            (RubyStage::AwaitDirRemoval, RubyEvent::DirRemoved(outcome)) => {
                match outcome {
                    DirRemoval::Missing => {
                        let mut s = String::from_str("broker_dir ");
                        s.append(self.broker_dir.as_str());
                        s.append(" not found");
                        out.push(RubyEffect::Print(s));
                    },
                    DirRemoval::NotADirectory => {},
                    DirRemoval::Removed => {
                        out.push(say_line("broker_dir removed successfully"));
                    },
                    DirRemoval::Failed(e) => {
                        out.push(say_joined("Failed to remove broker_dir: ", e.as_str()));
                    },
                }
                out.push(RubyEffect::Finish(Ok(())));
                RubyStage::Done
            },
            _ => stage,
        };
        assert(effects_view(out@) =~= spec.1);
        (next, out)
    }
}

/// The stages that a session of `cmd` passes through.
pub open spec fn stage_fits(cmd: RubyCommand, stage: RubyStage) -> bool {
    match stage {
        RubyStage::Begin | RubyStage::Done => true,
        RubyStage::AwaitInstalled | RubyStage::AwaitInstall => cmd is Install || cmd is Start,
        RubyStage::AwaitSpawn | RubyStage::AwaitPidFile | RubyStage::AwaitExit => cmd is Start,
        RubyStage::AwaitPid => !(cmd is Install),
        RubyStage::AwaitDirRemoval => cmd is Remove,
    }
}

/// Whether `event` is the answer that `stage` waits for.
pub open spec fn answers(stage: RubyStage, event: RubyEvent) -> bool {
    match stage {
        RubyStage::Begin => event is Go,
        RubyStage::AwaitInstalled => event is Installed,
        RubyStage::AwaitInstall => event is InstallFinished,
        RubyStage::AwaitSpawn => event is Spawned,
        RubyStage::AwaitPidFile => event is PidFile,
        RubyStage::AwaitExit => event is Exited,
        RubyStage::AwaitPid => event is Pid,
        RubyStage::AwaitDirRemoval => event is DirRemoved,
        RubyStage::Done => false,
    }
}

/// The stage in which a session waits for the answer to an effect, for the
/// effects that are answered.
pub open spec fn awaits(e: RubyEffectView) -> Option<RubyStage> {
    match e {
        RubyEffectView::CheckInstalled => Some(RubyStage::AwaitInstalled),
        RubyEffectView::Install { .. } => Some(RubyStage::AwaitInstall),
        RubyEffectView::Spawn => Some(RubyStage::AwaitSpawn),
        RubyEffectView::SleepThenReadPidFile => Some(RubyStage::AwaitPidFile),
        RubyEffectView::WaitForExitThenKill => Some(RubyStage::AwaitExit),
        RubyEffectView::ReadPid => Some(RubyStage::AwaitPid),
        RubyEffectView::RemoveBrokerDir => Some(RubyStage::AwaitDirRemoval),
        _ => None,
    }
}

/// The effects that are carried out without an answer and go on.
pub open spec fn unanswered(e: RubyEffectView) -> bool {
    e is Print || e is Terminate || e is RemovePidFile
}

/// A session keeps its protocol: from a stage that its command passes
/// through, the answer that the stage waits for leads to a stage of the same
/// command and to a non-empty list of effects in which every effect but the
/// last goes on without an answer, and the last one either ends the session
/// (exactly when the next stage is `Done`) or asks for the answer that the
/// next stage waits for.
pub proof fn law_ruby_session_protocol(
    cmd: RubyCommand,
    dir: Seq<char>,
    pid_file: Seq<char>,
    stage: RubyStage,
    event: RubyEvent,
)
    requires
        stage_fits(cmd, stage),
        answers(stage, event),
    ensures
        ({
            let (next, effects) = ruby_step_spec(cmd, dir, pid_file, stage, event);
            &&& stage_fits(cmd, next)
            &&& effects.len() > 0
            &&& forall|i: int| 0 <= i < effects.len() - 1 ==> unanswered(#[trigger] effects[i])
            &&& (next == RubyStage::Done <==> effects.last() is Finish)
            &&& (next != RubyStage::Done ==> awaits(effects.last()) == Some(next))
        }),
{
}

/// The broker is started only once it is installed: a step asks to start the
/// server only on the answer that the broker was installed already, or that
/// its installation succeeded.
pub proof fn law_ruby_spawn_after_install(
    cmd: RubyCommand,
    dir: Seq<char>,
    pid_file: Seq<char>,
    stage: RubyStage,
    event: RubyEvent,
    i: int,
)
    requires
        0 <= i < ruby_step_spec(cmd, dir, pid_file, stage, event).1.len(),
        ruby_step_spec(cmd, dir, pid_file, stage, event).1[i] is Spawn,
    ensures
        event matches RubyEvent::Installed(true) || event matches RubyEvent::InstallFinished(Ok(())),
        cmd is Start,
{
}

/// A failed installation ends the session with the installation's error.
pub proof fn law_ruby_failed_install_ends(
    cmd: RubyCommand,
    dir: Seq<char>,
    pid_file: Seq<char>,
    e: String,
)
    ensures
        ({
            let (next, effects) = ruby_step_spec(
                cmd,
                dir,
                pid_file,
                RubyStage::AwaitInstall,
                RubyEvent::InstallFinished(Err(e)),
            );
            next == RubyStage::Done && effects == seq![RubyEffectView::Finish(Err(e@))]
        }),
{
}

/// How a session begins: `install` and `start` first look for an existing
/// install, `stop` and `remove` first read the PID file.
pub proof fn law_ruby_session_begins(cmd: RubyCommand, dir: Seq<char>, pid_file: Seq<char>)
    ensures
        (cmd is Install || cmd is Start) ==> ruby_step_spec(
            cmd,
            dir,
            pid_file,
            RubyStage::Begin,
            RubyEvent::Go,
        ) == (RubyStage::AwaitInstalled, seq![RubyEffectView::CheckInstalled]),
        (cmd is Stop || cmd is Remove) ==> ruby_step_spec(
            cmd,
            dir,
            pid_file,
            RubyStage::Begin,
            RubyEvent::Go,
        ) == (RubyStage::AwaitPid, seq![RubyEffectView::ReadPid]),
{
}

/// In a `start` session the server is started before it is stopped: the PID
/// file is read for stopping only once the server has exited, a process is
/// terminated only with the PID so read, and the server exits only after
/// its PID file showed up, which it is asked for only after the server was
/// started.
pub proof fn law_ruby_start_order(
    detach: bool,
    otel: bool,
    dir: Seq<char>,
    pid_file: Seq<char>,
    stage: RubyStage,
    event: RubyEvent,
    i: int,
)
    requires
        0 <= i < ruby_step_spec(RubyCommand::Start { detach, otel }, dir, pid_file, stage, event).1.len(),
    ensures
        ({
            let e = ruby_step_spec(RubyCommand::Start { detach, otel }, dir, pid_file, stage, event).1[i];
            &&& e is ReadPid ==> stage == RubyStage::AwaitExit && event is Exited
            &&& e is Terminate ==> stage == RubyStage::AwaitPid && (event matches RubyEvent::Pid(
                Some(_),
            ))
            &&& e is WaitForExitThenKill ==> stage == RubyStage::AwaitPidFile
            &&& e is SleepThenReadPidFile ==> (stage == RubyStage::AwaitSpawn && (
            event matches RubyEvent::Spawned(Some(_)))) || stage == RubyStage::AwaitPidFile
            &&& e is Spawn ==> stage == RubyStage::AwaitInstalled || stage == RubyStage::AwaitInstall
        }),
{
}

} // verus!
