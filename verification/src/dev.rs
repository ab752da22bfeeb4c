//! The development loop: run the application, watch its sources, and run
//! it again when they change.

use crate::text::{decimal, decimal_string, join, joined, str_eq};
use vstd::prelude::*;
use vstd::string::*;

verus! {

/// The settings of a development run.
#[derive(Clone, Debug, PartialEq, Eq)]
pub struct Dev {
    /// The program that builds and runs the application; without one, the
    /// configuration decides.
    pub runner: Option<String>,
    /// The target to build for.
    pub target: Option<String>,
    /// Features to build with, besides those of the configuration.
    pub features: Option<Vec<String>>,
    /// Whether the loop ends when the application fails to build or
    /// panics.
    pub exit_on_panic: bool,
    /// A configuration to merge into the one on disk.
    pub config: Option<String>,
    /// Arguments for the application itself.
    pub args: Vec<String>,
    /// Whether to build in release mode.
    pub release_mode: bool,
}

impl Default for Dev {
    fn default() -> (dev: Dev)
        ensures
            dev.runner is None,
            dev.target is None,
            dev.features is None,
            !dev.exit_on_panic,
            dev.config is None,
            dev.args@.len() == 0,
            !dev.release_mode,
    {
        Dev {
            runner: None,
            target: None,
            features: None,
            exit_on_panic: false,
            config: None,
            args: Vec::new(),
            release_mode: false,
        }
    }
}

/// The characters of each of some texts.
pub open spec fn texts(items: Seq<String>) -> Seq<Seq<char>> {
    Seq::new(items.len(), |i: int| items[i]@)
}

/// The arguments with which the runner is started: `run` without default
/// features, in release mode if asked, for the target if one is set, with
/// the features if there are any, and behind `--` the arguments of the
/// application if there are any.
pub open spec fn runner_args(dev: Dev, features: Seq<String>) -> Seq<Seq<char>> {
    seq!["run"@, "--no-default-features"@] + (if dev.release_mode {
        seq!["--release"@]
    } else {
        Seq::empty()
    }) + (match dev.target {
        Some(target) => seq!["--target"@, target@],
        None => Seq::empty(),
    }) + (if features.len() > 0 {
        seq!["--features"@, joined(features, ","@)]
    } else {
        Seq::empty()
    }) + (if dev.args@.len() > 0 {
        seq!["--"@] + texts(dev.args@)
    } else {
        Seq::empty()
    })
}

/// The runner that starts the application: the one that was set, else the
/// one of the configuration, else `cargo`.
pub open spec fn chosen_runner(set: Option<String>, configured: Option<String>) -> Seq<char> {
    match set {
        Some(runner) => runner@,
        None => match configured {
            Some(runner) => runner@,
            None => "cargo"@,
        },
    }
}

/// Whether the development loop ends when the application has ended.
///
/// A loop that ends on panics ends when the application ended by itself,
/// with success or with the exit code 101 of a failed build or a panic;
/// any other loop ends when the application ended with success. An
/// application that the loop itself stopped to start it again never ends
/// a loop that ends on panics.
pub open spec fn ends_loop(
    exit_on_panic: bool,
    success: bool,
    code: Option<i32>,
    killed_by_watcher: bool,
) -> bool {
    if exit_on_panic {
        (success || code == Some(101i32)) && !killed_by_watcher
    } else {
        success
    }
}

/// Something on disk that a watcher reports: its path, and the name of the
/// file in it.
#[derive(Clone, Debug, PartialEq, Eq)]
pub struct WatchedPath {
    pub path: String,
    pub file_name: Option<String>,
}

/// What a watcher reports, once the reports of one change have settled.
#[derive(Clone, Debug, PartialEq, Eq)]
pub enum DebouncedEvent {
    NoticeWrite(WatchedPath),
    NoticeRemove(WatchedPath),
    Create(WatchedPath),
    Write(WatchedPath),
    Chmod(WatchedPath),
    Remove(WatchedPath),
    Rename(WatchedPath, WatchedPath),
    Rescan,
    Error,
}

/// What the loop does about a report.
#[derive(Clone, Copy, Debug, PartialEq, Eq, Structural)]
pub enum Reaction {
    /// Read the configuration again and write the manifest that follows
    /// from it.
    ReloadConfig,
    /// Stop the application, wait until it has ended, and start it again.
    RestartApp,
    /// Nothing.
    Ignore,
}

/// The path that a report is about: what was created, removed or written,
/// and what something was renamed to. Other reports are about no path.
pub open spec fn event_path(event: DebouncedEvent) -> Option<WatchedPath> {
    match event {
        DebouncedEvent::Create(path) => Some(path),
        DebouncedEvent::Remove(path) => Some(path),
        DebouncedEvent::Rename(_, dest) => Some(dest),
        DebouncedEvent::Write(path) => Some(path),
        _ => None,
    }
}

/// What the loop does about a report: a change of the configuration file
/// has the configuration read again, and a change of anything else has the
/// application started again.
pub open spec fn reaction_to(event: DebouncedEvent) -> Reaction {
    match event_path(event) {
        Some(path) => if path.file_name matches Some(name) && name@ == "tauri.conf.json"@ {
            Reaction::ReloadConfig
        } else {
            Reaction::RestartApp
        },
        None => Reaction::Ignore,
    }
}

/// A program to start, with its arguments.
#[derive(Clone, Debug, PartialEq, Eq)]
pub struct Command {
    pub program: String,
    pub args: Vec<String>,
}

/// Whether `command` runs `script` in the shell of the system: `cmd /C` on
/// Windows, `sh -c` elsewhere.
pub open spec fn is_shell_command(command: Command, windows: bool, script: Seq<char>) -> bool {
    &&& command.program@ == if windows {
        "cmd"@
    } else {
        "sh"@
    }
    &&& texts(command.args@) == seq![
        if windows {
            "/C"@
        } else {
            "-c"@
        },
        script,
    ]
}

/// The script with which PowerShell stops a process and all its
/// descendants.
pub open spec fn kill_tree_script(pid: u32) -> Seq<char> {
    "function Kill-Tree { Param([int]$ppid); Get-CimInstance Win32_Process | Where-Object { $_.ParentProcessId -eq $ppid } | ForEach-Object { Kill-Tree $_.ProcessId }; Stop-Process -Id $ppid }; Kill-Tree "@
        + decimal(pid as nat)
}

/// Whether `command` stops the children of the process `pid`.
pub open spec fn is_kill_command(command: Command, windows: bool, pid: u32) -> bool {
    if windows {
        command.program@ == "powershell"@ && texts(command.args@) == seq![
            "-NoProfile"@,
            "-Command"@,
            kill_tree_script(pid),
        ]
    } else {
        command.program@ == "pkill"@ && texts(command.args@) == seq![
            "-TERM"@,
            "-P"@,
            decimal(pid as nat),
        ]
    }
}

/// The command that stops what the command before the development run has
/// started: the process itself is stopped by whoever holds it.
pub fn kill_before_dev_process(windows: bool, pid: u32) -> (command: Command)
    ensures
        is_kill_command(command, windows, pid),
{
    let mut args: Vec<String> = Vec::new();
    if windows {
        args.push(String::from_str("-NoProfile"));
        args.push(String::from_str("-Command"));
        let mut script = String::from_str(
            "function Kill-Tree { Param([int]$ppid); Get-CimInstance Win32_Process | Where-Object { $_.ParentProcessId -eq $ppid } | ForEach-Object { Kill-Tree $_.ProcessId }; Stop-Process -Id $ppid }; Kill-Tree ",
        );
        script.append(decimal_string(pid as u64).as_str());
        args.push(script);
        assert(texts(args@) =~= seq!["-NoProfile"@, "-Command"@, kill_tree_script(pid)]);
        Command { program: String::from_str("powershell"), args }
    } else {
        args.push(String::from_str("-TERM"));
        args.push(String::from_str("-P"));
        args.push(decimal_string(pid as u64));
        assert(texts(args@) =~= seq!["-TERM"@, "-P"@, decimal(pid as nat)]);
        Command { program: String::from_str("pkill"), args }
    }
}

/// What a development run does before it starts the application.
#[derive(Debug, PartialEq, Eq)]
pub struct Start {
    /// The command to run first, where the configuration names one that is
    /// not empty.
    pub before_dev: Option<Command>,
    /// The program that builds and runs the application.
    pub runner: String,
    /// The features to build with: those of the configuration, then those
    /// of the run.
    pub cargo_features: Vec<String>,
}

/// The features of the configuration, then those of the run.
pub open spec fn merged_features(configured: Option<Vec<String>>, added: Option<Vec<String>>)
    -> Seq<String> {
    (match configured {
        Some(features) => features@,
        None => Seq::empty(),
    }) + (match added {
        Some(features) => features@,
        None => Seq::empty(),
    })
}

impl Dev {
    /// A development run with nothing set.
    pub fn new() -> (dev: Dev)
        ensures
            dev.runner is None,
            dev.target is None,
            dev.features is None,
            !dev.exit_on_panic,
            dev.config is None,
            dev.args@.len() == 0,
            !dev.release_mode,
    {
        Dev {
            runner: None,
            target: None,
            features: None,
            exit_on_panic: false,
            config: None,
            args: Vec::new(),
            release_mode: false,
        }
    }

    /// Sets the program that builds and runs the application.
    pub fn runner(self, runner: String) -> (dev: Dev)
        ensures
            dev == (Dev { runner: Some(runner), ..self }),
    {
        let mut dev = self;
        dev.runner = Some(runner);
        dev
    }

    /// Sets the target to build for.
    pub fn target(self, target: String) -> (dev: Dev)
        ensures
            dev == (Dev { target: Some(target), ..self }),
    {
        let mut dev = self;
        dev.target = Some(target);
        dev
    }

    /// Sets the features to build with, besides those of the configuration.
    pub fn features(self, features: Vec<String>) -> (dev: Dev)
        ensures
            dev == (Dev { features: Some(features), ..self }),
    {
        let mut dev = self;
        dev.features = Some(features);
        dev
    }

    /// Sets a configuration to merge into the one on disk.
    pub fn config(self, config: String) -> (dev: Dev)
        ensures
            dev == (Dev { config: Some(config), ..self }),
    {
        let mut dev = self;
        dev.config = Some(config);
        dev
    }

    /// Sets whether the loop ends when the application fails to build or
    /// panics.
    pub fn exit_on_panic(self, exit_on_panic: bool) -> (dev: Dev)
        ensures
            dev == (Dev { exit_on_panic, ..self }),
    {
        let mut dev = self;
        dev.exit_on_panic = exit_on_panic;
        dev
    }

    /// Sets the arguments for the application itself.
    pub fn args(self, args: Vec<String>) -> (dev: Dev)
        ensures
            dev == (Dev { args, ..self }),
    {
        let mut dev = self;
        dev.args = args;
        dev
    }

    /// Sets whether to build in release mode.
    pub fn release_mode(self, release_mode: bool) -> (dev: Dev)
        ensures
            dev == (Dev { release_mode, ..self }),
    {
        let mut dev = self;
        dev.release_mode = release_mode;
        dev
    }

    /// Settles how the run starts, from what the configuration says: the
    /// command to run before, in the shell of the system, where the
    /// configuration names one that is not empty; the runner, which is the
    /// one of the run, else the one of the configuration, else `cargo`;
    /// and the features of the configuration followed by those of the run.
    pub fn run(
        &self,
        windows: bool,
        before_dev_command: Option<String>,
        runner_from_config: Option<String>,
        features_from_config: Option<Vec<String>>,
    ) -> (start: Start)
        ensures
            match before_dev_command {
                Some(script) if script@.len() > 0 => start.before_dev matches Some(command)
                    && is_shell_command(command, windows, script@),
                _ => start.before_dev is None,
            },
            start.runner@ == chosen_runner(self.runner, runner_from_config),
            start.cargo_features@ == merged_features(features_from_config, self.features),
    {
        let before_dev = match before_dev_command {
            Some(script) => {
                if script.as_str().unicode_len() == 0 {
                    None
                } else {
                    let mut args: Vec<String> = Vec::new();
                    if windows {
                        args.push(String::from_str("/C"));
                    } else {
                        args.push(String::from_str("-c"));
                    }
                    let ghost shown = script@;
                    args.push(script);
                    assert(texts(args@) =~= seq![
                        if windows {
                            "/C"@
                        } else {
                            "-c"@
                        },
                        shown,
                    ]);
                    Some(
                        Command {
                            program: if windows {
                                String::from_str("cmd")
                            } else {
                                String::from_str("sh")
                            },
                            args,
                        },
                    )
                }
            },
            None => None,
        };
        let runner = match &self.runner {
            Some(runner) => runner.clone(),
            None => match runner_from_config {
                Some(runner) => runner,
                None => String::from_str("cargo"),
            },
        };
        let mut cargo_features = match features_from_config {
            Some(features) => features,
            None => Vec::new(),
        };
        let ghost configured = cargo_features@;
        if let Some(features) = &self.features {
            let mut i: usize = 0;
            while i < features.len()
                invariant
                    i <= features@.len(),
                    cargo_features@ == configured + features@.take(i as int),
                decreases features@.len() - i,
            {
                cargo_features.push(features[i].clone());
                assert(features@.take(i + 1) =~= features@.take(i as int).push(features@[i as int]));
                assert(configured + features@.take(i + 1) =~= (configured + features@.take(
                    i as int,
                )).push(features@[i as int]));
                i = i + 1;
            }
            assert(features@.take(i as int) =~= features@);
        } else {
            assert(configured + Seq::<String>::empty() =~= configured);
        }
        Start { before_dev, runner, cargo_features }
    }

    /// The arguments with which the runner starts the application.
    pub fn start_app(&self, features: &Vec<String>) -> (args: Vec<String>)
        ensures
            texts(args@) == runner_args(*self, features@),
    {
        let mut command: Vec<String> = Vec::new();
        command.push(String::from_str("run"));
        command.push(String::from_str("--no-default-features"));
        assert(texts(command@) =~= seq!["run"@, "--no-default-features"@]);
        let ghost base = texts(command@);
        if self.release_mode {
            command.push(String::from_str("--release"));
        }
        let ghost release = texts(command@);
        assert(release =~= base + (if self.release_mode {
            seq!["--release"@]
        } else {
            Seq::empty()
        }));
        if let Some(target) = &self.target {
            command.push(String::from_str("--target"));
            command.push(target.clone());
        }
        let ghost targeted = texts(command@);
        assert(targeted =~= release + (match self.target {
            Some(target) => seq!["--target"@, target@],
            None => Seq::empty(),
        }));
        if features.len() > 0 {
            command.push(String::from_str("--features"));
            command.push(join(features, ","));
        }
        let ghost featured = texts(command@);
        assert(featured =~= targeted + (if features@.len() > 0 {
            seq!["--features"@, joined(features@, ","@)]
        } else {
            Seq::empty()
        }));
        if self.args.len() > 0 {
            command.push(String::from_str("--"));
            let ghost dashed = command@;
            let mut i: usize = 0;
            while i < self.args.len()
                invariant
                    i <= self.args@.len(),
                    command@ == dashed + self.args@.take(i as int),
                decreases self.args@.len() - i,
            {
                command.push(self.args[i].clone());
                assert(self.args@.take(i + 1) =~= self.args@.take(i as int).push(
                    self.args@[i as int],
                ));
                assert(dashed + self.args@.take(i + 1) =~= (dashed + self.args@.take(
                    i as int,
                )).push(self.args@[i as int]));
                i = i + 1;
            }
            assert(self.args@.take(i as int) =~= self.args@);
            assert(texts(command@) =~= featured + (seq!["--"@] + texts(self.args@)));
        } else {
            assert(featured + Seq::<Seq<char>>::empty() =~= featured);
        }
        command
    }

    /// Whether the loop ends when the application has ended: see
    /// [`ends_loop`].
    pub fn app_exited(&self, success: bool, code: Option<i32>, killed_by_watcher: bool) -> (exit:
        bool)
        ensures
            exit == ends_loop(self.exit_on_panic, success, code, killed_by_watcher),
    {
        if self.exit_on_panic {
            // we exit if the status is a success code (app closed) or code is 101 (compilation error)
            // if the process wasn't killed by the file watcher
            let failed_build = match code {
                Some(code) => code == 101,
                None => false,
            };
            (success || failed_build) && !killed_by_watcher
        } else {
            // if we're no exiting on panic, we only exit if the status is a success code (app closed)
            success
        }
    }

    /// What the loop does about a report of the watcher: see
    /// [`reaction_to`].
    pub fn on_event(&self, event: &DebouncedEvent) -> (reaction: Reaction)
        ensures
            reaction == reaction_to(*event),
    {
        let event_path = match event {
            DebouncedEvent::Create(path) => Some(path),
            DebouncedEvent::Remove(path) => Some(path),
            DebouncedEvent::Rename(_, dest) => Some(dest),
            DebouncedEvent::Write(path) => Some(path),
            _ => None,
        };
        match event_path {
            Some(event_path) => {
                let is_config = match &event_path.file_name {
                    Some(name) => str_eq(name.as_str(), "tauri.conf.json"),
                    None => false,
                };
                if is_config {
                    Reaction::ReloadConfig
                } else {
                    Reaction::RestartApp
                }
            },
            None => Reaction::Ignore,
        }
    }
}

/// Whether a report ends the wait for the manifest to be written: the
/// watcher has noticed a write.
pub fn manifest_written(event: &DebouncedEvent) -> (written: bool)
    ensures
        written == (*event is NoticeWrite),
{
    match event {
        DebouncedEvent::NoticeWrite(_) => true,
        _ => false,
    }
}

} // verus!
