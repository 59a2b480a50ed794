//! Process supervision: the watchdog's restart policy, the service
//! configuration it runs under, and the service definitions rendered from
//! it.
//!
//! Spawning and waiting on the child process is operating-system work and
//! lives with the process entry point; the library fixes the policy (how
//! many restarts are attempted, and when the watchdog gives up) and renders
//! the service-manager text byte for byte. The renderers take the user name
//! and the date as arguments: reading the environment and the clock stays
//! with the process entry point.

use vstd::prelude::*;

verus! {

/// Settings of the watchdog.
#[derive(Debug, Clone, PartialEq)]
pub struct WatchdogConfig {
    /// How many restarts are attempted before giving up.
    pub max_restarts: usize,
    /// The wait between restart attempts, in seconds.
    pub restart_delay_secs: u64,
    /// How often the child is checked, in seconds.
    pub health_check_interval_secs: u64,
    /// The command to run.
    pub command: String,
    /// The command's arguments.
    pub args: Vec<String>,
}

impl Default for WatchdogConfig {
    /// Three restarts, ten seconds apart, checking every thirty seconds,
    /// running the trading daemon.
    fn default() -> (r: WatchdogConfig)
        ensures
            r.max_restarts == 3,
            r.restart_delay_secs == 10,
            r.health_check_interval_secs == 30,
            r.command@ == "autocoin"@,
            r.args@.len() == 1 && r.args@[0]@ == "--daemon"@,
    {
        let mut args: Vec<String> = Vec::new();
        args.push(String::from_str("--daemon"));
        WatchdogConfig {
            max_restarts: 3,
            restart_delay_secs: 10,
            health_check_interval_secs: 30,
            command: String::from_str("autocoin"),
            args,
        }
    }
}

/// What the watchdog's run loop does after the child process ended.
#[derive(Debug, Clone, Copy, PartialEq, Eq, Structural)]
pub enum WatchdogStep {
    /// Sleep this many seconds, then restart the child.
    RestartAfterSecs { delay_secs: u64 },
    /// The restart limit is reached: stop supervising.
    GiveUp,
}

/// Restarts the supervised process a bounded number of times.
pub struct Watchdog {
    /// The settings in force.
    pub config: WatchdogConfig,
    restart_count: usize,
}

impl Watchdog {
    /// How many times the child was restarted.
    pub closed spec fn spec_restart_count(&self) -> usize {
        self.restart_count
    }

    /// The settings, for contracts.
    pub closed spec fn spec_config(&self) -> WatchdogConfig {
        self.config
    }

    /// A fresh watchdog over the given settings.
    pub fn new(config: WatchdogConfig) -> (r: Watchdog)
        ensures
            r.spec_config() == config,
            r.spec_restart_count() == 0,
    {
        Watchdog { config, restart_count: 0 }
    }

    /// A fresh watchdog over the default settings, for this command.
    pub fn with_default(command: String, args: Vec<String>) -> (r: Watchdog)
        ensures
            r.spec_config().command == command,
            r.spec_config().args == args,
            r.spec_config().max_restarts == 3,
            r.spec_config().restart_delay_secs == 10,
            r.spec_config().health_check_interval_secs == 30,
            r.spec_restart_count() == 0,
    {
        let mut config = WatchdogConfig::default();
        config.command = command;
        config.args = args;
        Self::new(config)
    }

    /// Count one ended child and say what to do: restart after the
    /// configured delay while the count stays under the limit, and give up
    /// the moment it reaches it.
    pub fn on_process_exit(&mut self) -> (r: WatchdogStep)
        requires
            old(self).spec_restart_count() < usize::MAX,
        ensures
            final(self).spec_config() == old(self).spec_config(),
            final(self).spec_restart_count() == old(self).spec_restart_count() + 1,
            (r is GiveUp) == (old(self).spec_restart_count() + 1
                >= old(self).spec_config().max_restarts),
            r matches WatchdogStep::RestartAfterSecs { delay_secs } ==> delay_secs == old(
                self,
            ).spec_config().restart_delay_secs,
    {
        self.restart_count = self.restart_count + 1;
        if self.restart_count >= self.config.max_restarts {
            WatchdogStep::GiveUp
        } else {
            WatchdogStep::RestartAfterSecs { delay_secs: self.config.restart_delay_secs }
        }
    }

    /// Reset the restart count to zero.
    pub fn reset_restart_count(&mut self)
        ensures
            final(self).spec_config() == old(self).spec_config(),
            final(self).spec_restart_count() == 0,
    {
        self.restart_count = 0;
    }

    /// The current restart count.
    pub fn restart_count(&self) -> (r: usize)
        ensures
            r == self.spec_restart_count(),
    {
        self.restart_count
    }
}

/// Settings of the generated service definition.
#[derive(Debug, Clone, PartialEq)]
pub struct ServiceConfig {
    /// Service name.
    pub name: String,
    /// Service description.
    pub description: String,
    /// Path of the executable.
    pub executable: String,
    /// Command line arguments.
    pub args: Vec<String>,
    /// Working directory.
    pub working_dir: String,
    /// Restart the service automatically.
    pub auto_restart: bool,
    /// Log file path, when logging to a file.
    pub log_file: Option<String>,
}

impl Default for ServiceConfig {
    /// The trading daemon as a service, restarting automatically.
    fn default() -> (r: ServiceConfig)
        ensures
            r.name@ == "autocoin"@,
            r.description@ == "Upbit Automated Trading Bot"@,
            r.executable@ == "autocoin"@,
            r.args@.len() == 1 && r.args@[0]@ == "--daemon"@,
            r.working_dir@ == "."@,
            r.auto_restart,
            r.log_file is None,
    {
        let mut args: Vec<String> = Vec::new();
        args.push(String::from_str("--daemon"));
        ServiceConfig {
            name: String::from_str("autocoin"),
            description: String::from_str("Upbit Automated Trading Bot"),
            executable: String::from_str("autocoin"),
            args,
            working_dir: String::from_str("."),
            auto_restart: true,
            log_file: None,
        }
    }
}

/// The command's arguments joined by single spaces.
pub open spec fn spec_joined_args(args: Seq<String>) -> Seq<char>
    decreases args.len(),
{
    if args.len() == 0 {
        Seq::<char>::empty()
    } else if args.len() == 1 {
        args[0]@
    } else {
        spec_joined_args(args.drop_last()) + seq![' '] + args.last()@
    }
}

/// Join the command's arguments with single spaces.
fn join_args(args: &Vec<String>) -> (r: String)
    ensures
        r@ == spec_joined_args(args@),
{
    let mut s = String::new();
    let mut i: usize = 0;
    while i < args.len()
        invariant
            i <= args@.len(),
            s@ == spec_joined_args(args@.subrange(0, i as int)),
        decreases args@.len() - i,
    {
        if i > 0 {
            s.append(" ");
            proof {
                reveal_strlit(" ");
            }
        }
        s.append(args[i].as_str());
        proof {
            assert(args@.subrange(0, i as int + 1).drop_last() =~= args@.subrange(0, i as int));
            assert(s@ =~= spec_joined_args(args@.subrange(0, i as int + 1)));
        }
        i = i + 1;
    }
    proof {
        assert(args@.subrange(0, args@.len() as int) =~= args@);
    }
    s
}

/// The service's launch command: the executable, its arguments, and the log
/// redirection when a log file is set.
pub open spec fn spec_exec_command(config: ServiceConfig) -> Seq<char> {
    let base = config.executable@ + seq![' '] + spec_joined_args(config.args@);
    match config.log_file {
        Some(log) => base + " >> "@ + log@ + " 2>&1"@,
        None => base,
    }
}

/// Render the service's launch command.
fn exec_command(config: &ServiceConfig) -> (r: String)
    ensures
        r@ == spec_exec_command(*config),
{
    let mut s = String::new();
    s.append(config.executable.as_str());
    s.append(" ");
    let joined = join_args(&config.args);
    s.append(joined.as_str());
    proof {
        reveal_strlit(" ");
        assert(s@ =~= config.executable@ + seq![' '] + spec_joined_args(config.args@));
    }
    match &config.log_file {
        Some(log) => {
            s.append(" >> ");
            s.append(log.as_str());
            s.append(" 2>&1");
            proof {
                assert(s@ =~= spec_exec_command(*config));
            }
            s
        },
        None => s,
    }
}

/// The systemd unit without its trailing newline, as the install
/// instructions embed it.
pub open spec fn spec_systemd_body(config: ServiceConfig, user: Seq<char>) -> Seq<char> {
    "[Unit]\nDescription="@ + config.description@
        + "\nAfter=network.target\n\n[Service]\nType=simple\nUser="@ + user
        + "\nWorkingDirectory="@ + config.working_dir@ + "\nExecStart="@ + spec_exec_command(
        config,
    ) + "\nRestart="@ + (if config.auto_restart {
        "always"@
    } else {
        "no"@
    })
        + "\nRestartSec=10\nStandardOutput=journal\nStandardError=journal\n\n# Security settings\nNoNewPrivileges=true\nPrivateTmp=true\n\n[Install]\nWantedBy=multi-user.target"@
}

/// The systemd unit for the service, run as the given user.
pub open spec fn spec_systemd_service(config: ServiceConfig, user: Seq<char>) -> Seq<char> {
    spec_systemd_body(config, user) + "\n"@
}

/// Render the systemd unit without its trailing newline.
fn systemd_body(config: &ServiceConfig, user: &str) -> (r: String)
    ensures
        r@ == spec_systemd_body(*config, user@),
{
    let mut s = String::from_str("[Unit]\nDescription=");
    s.append(config.description.as_str());
    s.append("\nAfter=network.target\n\n[Service]\nType=simple\nUser=");
    s.append(user);
    s.append("\nWorkingDirectory=");
    s.append(config.working_dir.as_str());
    s.append("\nExecStart=");
    let command = exec_command(config);
    s.append(command.as_str());
    s.append("\nRestart=");
    if config.auto_restart {
        s.append("always");
    } else {
        s.append("no");
    }
    s.append(
        "\nRestartSec=10\nStandardOutput=journal\nStandardError=journal\n\n# Security settings\nNoNewPrivileges=true\nPrivateTmp=true\n\n[Install]\nWantedBy=multi-user.target",
    );
    proof {
        assert(s@ =~= spec_systemd_body(*config, user@));
    }
    s
}

/// Render the systemd unit for the service, run as the given user.
pub fn generate_systemd_service(config: &ServiceConfig, user: &str) -> (r: String)
    ensures
        r@ == spec_systemd_service(*config, user@),
{
    let mut s = systemd_body(config, user);
    s.append("\n");
    proof {
        reveal_strlit("\n");
        assert(s@ =~= spec_systemd_service(*config, user@));
    }
    s
}

/// The Task Scheduler definition for the service, registered at the given
/// date and run as the given user.
pub open spec fn spec_task_scheduler_xml(
    config: ServiceConfig,
    user: Seq<char>,
    date: Seq<char>,
) -> Seq<char> {
    "<?xml version=\"1.0\" encoding=\"UTF-16\"?>\n<Task version=\"1.4\" xmlns=\"http://schemas.microsoft.com/windows/2004/02/mit/task\">\n  <RegistrationInfo>\n    <Date>"@
        + date
        + "</Date>\n    <Author>AutoCoin</Author>\n    <Version>1.0</Version>\n    <Description>"@
        + config.description@
        + "</Description>\n  </RegistrationInfo>\n  <Triggers>\n    <BootTrigger>\n      <Enabled>true</Enabled>\n    </BootTrigger>\n    <LogonTrigger>\n      <Enabled>true</Enabled>\n    </LogonTrigger>\n  </Triggers>\n  <Principals>\n    <Principal id=\"Author\">\n      <UserId>"@
        + user
        + "</UserId>\n      <LogonType>InteractiveToken</LogonType>\n      <RunLevel>LeastPrivilege</RunLevel>\n    </Principal>\n  </Principals>\n  <Settings>\n    <MultipleInstancesPolicy>IgnoreNew</MultipleInstancesPolicy>\n    <DisallowStartIfOnBatteries>false</DisallowStartIfOnBatteries>\n    <StopIfGoingOnBatteries>false</StopIfGoingOnBatteries>\n    <AllowHardTerminate>true</AllowHardTerminate>\n    <StartWhenAvailable>true</StartWhenAvailable>\n    <RunOnlyIfNetworkAvailable>true</RunOnlyIfNetworkAvailable>\n    <IdleSettings>\n      <StopOnIdleEnd>false</StopOnIdleEnd>\n      <RestartOnIdle>false</RestartOnIdle>\n    </IdleSettings>\n    <AllowStartOnDemand>true</AllowStartOnDemand>\n    <Enabled>true</Enabled>\n    <Hidden>false</Hidden>\n    <RunOnlyIfIdle>false</RunOnlyIfIdle>\n    <DisallowStartOnRemoteAppSession>false</DisallowStartOnRemoteAppSession>\n    <UseUnifiedSchedulingEngine>true</UseUnifiedSchedulingEngine>\n    <WakeToRun>false</WakeToRun>\n    <ExecutionTimeLimit>PT0S</ExecutionTimeLimit>\n    <Priority>7</Priority>\n  </Settings>\n  <Actions Context=\"Author\">\n    <Exec>\n      <Command>"@
        + config.executable@ + "</Command>\n      <Arguments>"@ + spec_joined_args(config.args@)
        + (match config.log_file {
        Some(log) => ">> "@ + log@,
        None => Seq::<char>::empty(),
    }) + "</Arguments>\n      <WorkingDirectory>"@ + config.working_dir@
        + "</WorkingDirectory>\n    </Exec>\n  </Actions>\n</Task>\n"@
}

/// Render the Task Scheduler definition for the service.
pub fn generate_task_scheduler_xml(config: &ServiceConfig, user: &str, date: &str) -> (r: String)
    ensures
        r@ == spec_task_scheduler_xml(*config, user@, date@),
{
    let mut s = String::from_str(
        "<?xml version=\"1.0\" encoding=\"UTF-16\"?>\n<Task version=\"1.4\" xmlns=\"http://schemas.microsoft.com/windows/2004/02/mit/task\">\n  <RegistrationInfo>\n    <Date>",
    );
    s.append(date);
    s.append(
        "</Date>\n    <Author>AutoCoin</Author>\n    <Version>1.0</Version>\n    <Description>",
    );
    s.append(config.description.as_str());
    s.append(
        "</Description>\n  </RegistrationInfo>\n  <Triggers>\n    <BootTrigger>\n      <Enabled>true</Enabled>\n    </BootTrigger>\n    <LogonTrigger>\n      <Enabled>true</Enabled>\n    </LogonTrigger>\n  </Triggers>\n  <Principals>\n    <Principal id=\"Author\">\n      <UserId>",
    );
    s.append(user);
    s.append(
        "</UserId>\n      <LogonType>InteractiveToken</LogonType>\n      <RunLevel>LeastPrivilege</RunLevel>\n    </Principal>\n  </Principals>\n  <Settings>\n    <MultipleInstancesPolicy>IgnoreNew</MultipleInstancesPolicy>\n    <DisallowStartIfOnBatteries>false</DisallowStartIfOnBatteries>\n    <StopIfGoingOnBatteries>false</StopIfGoingOnBatteries>\n    <AllowHardTerminate>true</AllowHardTerminate>\n    <StartWhenAvailable>true</StartWhenAvailable>\n    <RunOnlyIfNetworkAvailable>true</RunOnlyIfNetworkAvailable>\n    <IdleSettings>\n      <StopOnIdleEnd>false</StopOnIdleEnd>\n      <RestartOnIdle>false</RestartOnIdle>\n    </IdleSettings>\n    <AllowStartOnDemand>true</AllowStartOnDemand>\n    <Enabled>true</Enabled>\n    <Hidden>false</Hidden>\n    <RunOnlyIfIdle>false</RunOnlyIfIdle>\n    <DisallowStartOnRemoteAppSession>false</DisallowStartOnRemoteAppSession>\n    <UseUnifiedSchedulingEngine>true</UseUnifiedSchedulingEngine>\n    <WakeToRun>false</WakeToRun>\n    <ExecutionTimeLimit>PT0S</ExecutionTimeLimit>\n    <Priority>7</Priority>\n  </Settings>\n  <Actions Context=\"Author\">\n    <Exec>\n      <Command>",
    );
    s.append(config.executable.as_str());
    s.append("</Command>\n      <Arguments>");
    let joined = join_args(&config.args);
    s.append(joined.as_str());
    match &config.log_file {
        Some(log) => {
            s.append(">> ");
            s.append(log.as_str());
        },
        None => {},
    }
    s.append("</Arguments>\n      <WorkingDirectory>");
    s.append(config.working_dir.as_str());
    s.append("</WorkingDirectory>\n    </Exec>\n  </Actions>\n</Task>\n");
    proof {
        assert(s@ =~= spec_task_scheduler_xml(*config, user@, date@));
    }
    s
}

/// The install instructions for a Linux host: the unit saved under the
/// service's name, then enabled and started.
pub open spec fn spec_linux_install(config: ServiceConfig, user: Seq<char>) -> Seq<char> {
    "# Linux (systemd) Installation\n# 1. Save service file:\nsudo tee /etc/systemd/system/"@
        + config.name@ + ".service <<'EOF'\n"@ + spec_systemd_body(config, user)
        + "\nEOF\n\n# 2. Reload systemd and enable service:\nsudo systemctl daemon-reload\nsudo systemctl enable "@
        + config.name@ + "\nsudo systemctl start "@ + config.name@
        + "\n\n# 3. Check status:\nsudo systemctl status "@ + config.name@
        + "\n\n# 4. View logs:\nsudo journalctl -u "@ + config.name@ + " -f\n"@
}

/// The install instructions for a Windows host: the definition imported,
/// run and removed through the task scheduler.
pub open spec fn spec_windows_install(config: ServiceConfig) -> Seq<char> {
    "# Windows Task Scheduler Installation\n# 1. Save XML to file: "@ + config.name@
        + ".xml\n# 2. Import task:\nschtasks /Create /TN \""@ + config.name@ + "\" /XML \""@
        + config.name@ + ".xml\"\n\n# 3. Run task manually:\nschtasks /Run /TN \""@
        + config.name@ + "\"\n\n# 4. Delete task:\nschtasks /Delete /TN \""@ + config.name@
        + "\" /F\n"@
}

/// Render the install instructions shown to the operator, for a Linux and a
/// Windows host.
pub fn get_install_commands(config: &ServiceConfig, user: &str) -> (r: (String, String))
    ensures
        r.0@ == spec_linux_install(*config, user@),
        r.1@ == spec_windows_install(*config),
{
    let mut linux = String::from_str(
        "# Linux (systemd) Installation\n# 1. Save service file:\nsudo tee /etc/systemd/system/",
    );
    linux.append(config.name.as_str());
    linux.append(".service <<'EOF'\n");
    let body = systemd_body(config, user);
    linux.append(body.as_str());
    linux.append(
        "\nEOF\n\n# 2. Reload systemd and enable service:\nsudo systemctl daemon-reload\nsudo systemctl enable ",
    );
    linux.append(config.name.as_str());
    linux.append("\nsudo systemctl start ");
    linux.append(config.name.as_str());
    linux.append("\n\n# 3. Check status:\nsudo systemctl status ");
    linux.append(config.name.as_str());
    linux.append("\n\n# 4. View logs:\nsudo journalctl -u ");
    linux.append(config.name.as_str());
    linux.append(" -f\n");
    proof {
        assert(linux@ =~= spec_linux_install(*config, user@));
    }
    let mut windows = String::from_str(
        "# Windows Task Scheduler Installation\n# 1. Save XML to file: ",
    );
    windows.append(config.name.as_str());
    windows.append(".xml\n# 2. Import task:\nschtasks /Create /TN \"");
    windows.append(config.name.as_str());
    windows.append("\" /XML \"");
    windows.append(config.name.as_str());
    windows.append(".xml\"\n\n# 3. Run task manually:\nschtasks /Run /TN \"");
    windows.append(config.name.as_str());
    windows.append("\"\n\n# 4. Delete task:\nschtasks /Delete /TN \"");
    windows.append(config.name.as_str());
    windows.append("\" /F\n");
    proof {
        assert(windows@ =~= spec_windows_install(*config));
    }
    (linux, windows)
}

} // verus!
