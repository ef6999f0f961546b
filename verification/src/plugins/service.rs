//! The system service: its settings, the state machine of starting and
//! stopping it, the shell's view of the installed service, and the
//! launchd property list and `launchctl` outcomes on macOS.

use vstd::prelude::*;
use crate::kvm_core::error::{KvmError, KvmResult};
use crate::kvm_core::types::{NetworkAddress, VideoQuality, VideoResolution};
use crate::text::{append_str, find_spec, find_str, parse_unsigned, parse_unsigned_exec, string_from, views};

verus! {

/// The service's basic settings.
#[derive(Debug, Clone)]
pub struct ServiceSettings {
    pub name: String,
    pub display_name: String,
    pub description: String,
    pub auto_start: bool,
    pub restart_on_failure: bool,
    pub restart_delay_seconds: u64,
}

/// The service's network settings.
#[derive(Debug, Clone)]
pub struct NetworkSettings {
    pub bind_address: NetworkAddress,
    pub discovery_port: u16,
    pub control_port: u16,
    pub video_port: u16,
    pub max_connections: usize,
    pub connection_timeout_seconds: u64,
}

/// The service's video settings.
#[derive(Debug, Clone)]
pub struct VideoSettings {
    pub resolution: VideoResolution,
    pub quality: VideoQuality,
    pub capture_cursor: bool,
    /// Frames per second.
    pub capture_rate: u32,
    pub encoder_threads: usize,
}

/// The service's security settings. Paths are text; the allowed addresses
/// are in CIDR notation.
#[derive(Debug, Clone)]
pub struct SecuritySettings {
    pub tls_enabled: bool,
    pub cert_path: Option<String>,
    pub key_path: Option<String>,
    pub allowed_ips: Vec<String>,
    pub session_timeout_minutes: u64,
}

/// The service's logging settings. The file path is text.
#[derive(Debug, Clone)]
pub struct LoggingSettings {
    pub level: String,
    pub file_path: Option<String>,
    pub max_file_size_mb: u64,
    pub max_files: usize,
    pub console_output: bool,
}

/// The service's settings.
#[derive(Debug, Clone)]
pub struct ServiceConfig {
    pub service: ServiceSettings,
    pub network: NetworkSettings,
    pub video: VideoSettings,
    pub security: SecuritySettings,
    pub logging: LoggingSettings,
}

impl Default for ServiceSettings {
    /// `soft-kvm`, "Soft KVM Service", started automatically and restarted
    /// on failure after five seconds.
    fn default() -> (r: Self)
        ensures
            r.name@ == "soft-kvm"@,
            r.display_name@ == "Soft KVM Service"@,
            r.description@ == "LAN専用・低遅延KVM共有サービス"@,
            r.auto_start,
            r.restart_on_failure,
            r.restart_delay_seconds == 5,
    {
        ServiceSettings {
            name: string_from("soft-kvm"),
            display_name: string_from("Soft KVM Service"),
            description: string_from("LAN専用・低遅延KVM共有サービス"),
            auto_start: true,
            restart_on_failure: true,
            restart_delay_seconds: 5,
        }
    }
}

impl Default for NetworkSettings {
    /// Bound to 127.0.0.1 on a port the system picks; discovery on the mDNS
    /// port 5353, control on 8080, video on 8081; ten connections, 30 s
    /// timeout.
    fn default() -> (r: Self)
        ensures
            r.bind_address.ip@ == "127.0.0.1"@,
            r.bind_address.port == 0,
            r.discovery_port == 5353,
            r.control_port == 8080,
            r.video_port == 8081,
            r.max_connections == 10,
            r.connection_timeout_seconds == 30,
    {
        NetworkSettings {
            bind_address: NetworkAddress::localhost(0),
            discovery_port: 5353,
            control_port: 8080,
            video_port: 8081,
            max_connections: 10,
            connection_timeout_seconds: 30,
        }
    }
}

impl Default for VideoSettings {
    /// Full HD, balanced quality, with the cursor, 30 frames per second,
    /// four encoder threads.
    fn default() -> (r: Self)
        ensures
            r.resolution == (VideoResolution { width: 1920, height: 1080 }),
            r.quality.resolution@ == "1920x1080"@,
            r.quality.fps == 30,
            r.quality.bitrate == 5000,
            r.capture_cursor,
            r.capture_rate == 30,
            r.encoder_threads == 4,
    {
        VideoSettings {
            resolution: VideoResolution::fhd(),
            quality: VideoQuality::balanced(),
            capture_cursor: true,
            capture_rate: 30,
            encoder_threads: 4,
        }
    }
}

impl Default for SecuritySettings {
    /// TLS on without paths; 192.168.0.0/16 and 10.0.0.0/8 allowed; one-hour
    /// sessions.
    fn default() -> (r: Self)
        ensures
            r.tls_enabled,
            r.cert_path is None,
            r.key_path is None,
            views(r.allowed_ips@) == seq!["192.168.0.0/16"@, "10.0.0.0/8"@],
            r.session_timeout_minutes == 60,
    {
        let mut ips: Vec<String> = Vec::new();
        ips.push(string_from("192.168.0.0/16"));
        ips.push(string_from("10.0.0.0/8"));
        assert(views(ips@) =~= seq!["192.168.0.0/16"@, "10.0.0.0/8"@]);
        SecuritySettings {
            tls_enabled: true,
            cert_path: None,
            key_path: None,
            allowed_ips: ips,
            session_timeout_minutes: 60,
        }
    }
}

impl Default for LoggingSettings {
    /// Level `info` into /var/log/soft-kvm.log, five files of up to 100 MB,
    /// and the console.
    fn default() -> (r: Self)
        ensures
            r.level@ == "info"@,
            r.file_path matches Some(p) && p@ == "/var/log/soft-kvm.log"@,
            r.max_file_size_mb == 100,
            r.max_files == 5,
            r.console_output,
    {
        LoggingSettings {
            level: string_from("info"),
            file_path: Some(string_from("/var/log/soft-kvm.log")),
            max_file_size_mb: 100,
            max_files: 5,
            console_output: true,
        }
    }
}

impl Default for ServiceConfig {
    /// The default settings of each part.
    fn default() -> (r: Self)
        ensures
            r.service.name@ == "soft-kvm"@,
            r.service.auto_start,
            r.network.control_port == 8080,
            r.network.video_port == 8081,
            r.network.discovery_port == 5353,
            r.video.capture_rate == 30,
            r.security.tls_enabled,
            r.logging.level@ == "info"@,
    {
        ServiceConfig {
            service: ServiceSettings::default(),
            network: NetworkSettings::default(),
            video: VideoSettings::default(),
            security: SecuritySettings::default(),
            logging: LoggingSettings::default(),
        }
    }
}

/// The environment's settings for the service: the values of
/// `SOFT_KVM_CONTROL_PORT`, `SOFT_KVM_VIDEO_PORT` and `SOFT_KVM_LOG_LEVEL`,
/// where set.
#[derive(Debug, Clone)]
pub struct ServiceEnv {
    pub control_port: Option<String>,
    pub video_port: Option<String>,
    pub log_level: Option<String>,
}

/// The port an environment value sets: the port it reads as, else the old
/// one.
pub open spec fn port_setting(value: Option<String>, old: u16) -> u16 {
    match value {
        Some(v) => match parse_unsigned(v@, 65535) {
            Some(p) => p as u16,
            None => old,
        },
        None => old,
    }
}

/// Creating and adjusting service settings.
pub struct ConfigLoader;

impl ConfigLoader {
    /// The default settings.
    pub fn create_default() -> (r: ServiceConfig)
        ensures
            r.service.name@ == "soft-kvm"@,
            r.network.control_port == 8080,
            r.network.video_port == 8081,
            r.logging.level@ == "info"@,
    {
        ServiceConfig::default()
    }

    /// The settings with the environment's values in place: the control and
    /// video ports where they read as ports, and the log level.
    pub fn override_from_env(config: ServiceConfig, env: &ServiceEnv) -> (r: ServiceConfig)
        ensures
            r.network.control_port == port_setting(env.control_port, config.network.control_port),
            r.network.video_port == port_setting(env.video_port, config.network.video_port),
            r.logging.level == match env.log_level {
                Some(l) => l,
                None => config.logging.level,
            },
            r.service == config.service,
            r.video == config.video,
            r.security == config.security,
            r.network.bind_address == config.network.bind_address,
            r.network.discovery_port == config.network.discovery_port,
            r.network.max_connections == config.network.max_connections,
            r.logging.file_path == config.logging.file_path,
    {
        let mut config = config;
        match &env.control_port {
            Some(v) => match parse_unsigned_exec(v.as_str(), 65535) {
                Some(p) => {
                    config.network.control_port = p as u16;
                },
                None => {},
            },
            None => {},
        }
        match &env.video_port {
            Some(v) => match parse_unsigned_exec(v.as_str(), 65535) {
                Some(p) => {
                    config.network.video_port = p as u16;
                },
                None => {},
            },
            None => {},
        }
        match &env.log_level {
            Some(l) => {
                config.logging.level = l.clone();
            },
            None => {},
        }
        config
    }
}

/// The states of the service.
#[derive(Debug, Clone, Copy, PartialEq, Eq, Structural)]
pub enum ServiceState {
    Stopped,
    Starting,
    Running,
    Stopping,
    Error,
}

/// The service: its settings and its state. The caller starts and stops
/// the platform service between `begin_*` and `finish_*`.
pub struct ServiceManager {
    config: ServiceConfig,
    state: ServiceState,
}

impl ServiceManager {
    pub closed spec fn config_spec(&self) -> ServiceConfig {
        self.config
    }

    pub closed spec fn state_spec(&self) -> ServiceState {
        self.state
    }

    /// A stopped service with these settings.
    pub fn new(config: ServiceConfig) -> (r: Self)
        ensures
            r.config_spec() == config,
            r.state_spec() == ServiceState::Stopped,
    {
        ServiceManager { config, state: ServiceState::Stopped }
    }

    /// Begins starting: only a stopped service starts; it is then starting.
    pub fn begin_start(&mut self) -> (r: KvmResult<()>)
        ensures
            final(self).config_spec() == old(self).config_spec(),
            final(self).state_spec() == after_request(old(self).state_spec(), true),
            match start_transition(old(self).state_spec()) {
                Some(s) => r is Ok && final(self).state_spec() == s,
                None => (r matches Err(KvmError::Config(m)) && m@ == "Service is not stopped"@)
                    && final(self).state_spec() == old(self).state_spec(),
            },
    {
        if self.state != ServiceState::Stopped {
            return Err(KvmError::Config(string_from("Service is not stopped")));
        }
        self.state = ServiceState::Starting;
        Ok(())
    }

    /// The platform service started, or failed to: the service runs, or is
    /// in error and the failure is returned.
    pub fn finish_start(&mut self, outcome: KvmResult<()>) -> (r: KvmResult<()>)
        ensures
            final(self).config_spec() == old(self).config_spec(),
            final(self).state_spec() == completion(outcome is Ok, ServiceState::Running),
            r == outcome,
    {
        if outcome.is_ok() {
            self.state = ServiceState::Running;
        } else {
            self.state = ServiceState::Error;
        }
        outcome
    }

    /// Begins stopping: only a running service stops; it is then stopping.
    pub fn begin_stop(&mut self) -> (r: KvmResult<()>)
        ensures
            final(self).config_spec() == old(self).config_spec(),
            final(self).state_spec() == after_request(old(self).state_spec(), false),
            match stop_transition(old(self).state_spec()) {
                Some(s) => r is Ok && final(self).state_spec() == s,
                None => (r matches Err(KvmError::Config(m)) && m@ == "Service is not running"@)
                    && final(self).state_spec() == old(self).state_spec(),
            },
    {
        if self.state != ServiceState::Running {
            return Err(KvmError::Config(string_from("Service is not running")));
        }
        self.state = ServiceState::Stopping;
        Ok(())
    }

    /// The platform service stopped, or failed to: the service is stopped,
    /// or in error and the failure is returned.
    pub fn finish_stop(&mut self, outcome: KvmResult<()>) -> (r: KvmResult<()>)
        ensures
            final(self).config_spec() == old(self).config_spec(),
            final(self).state_spec() == completion(outcome is Ok, ServiceState::Stopped),
            r == outcome,
    {
        if outcome.is_ok() {
            self.state = ServiceState::Stopped;
        } else {
            self.state = ServiceState::Error;
        }
        outcome
    }

    /// The service's state.
    pub fn get_state(&self) -> (r: ServiceState)
        ensures
            r == self.state_spec(),
    {
        self.state
    }

    /// The service's settings.
    pub fn get_config(&self) -> (r: &ServiceConfig)
        ensures
            *r == self.config_spec(),
    {
        &self.config
    }

    /// Replaces the settings, whatever the state.
    pub fn update_config(&mut self, config: ServiceConfig) -> (r: KvmResult<()>)
        ensures
            r is Ok,
            final(self).config_spec() == config,
            final(self).state_spec() == old(self).state_spec(),
    {
        self.config = config;
        Ok(())
    }
}

/// The state a service moves to when it begins to start: only a stopped
/// service starts (`None` otherwise).
pub open spec fn start_transition(s: ServiceState) -> Option<ServiceState> {
    if s == ServiceState::Stopped {
        Some(ServiceState::Starting)
    } else {
        None
    }
}

/// The state a service moves to when it begins to stop: only a running
/// service stops (`None` otherwise).
pub open spec fn stop_transition(s: ServiceState) -> Option<ServiceState> {
    if s == ServiceState::Running {
        Some(ServiceState::Stopping)
    } else {
        None
    }
}

/// The state after the platform's answer: the target where it succeeded,
/// `Error` where it failed.
pub open spec fn completion(ok: bool, target: ServiceState) -> ServiceState {
    if ok {
        target
    } else {
        ServiceState::Error
    }
}

/// A stopped service that starts and then stops, the platform
/// succeeding both times, is stopped again; a service starts only when
/// stopped and stops only when running; a failure leaves it in error, from
/// which it neither starts nor stops.
pub proof fn service_lifecycle()
    ensures
        start_transition(ServiceState::Stopped) == Some(ServiceState::Starting),
        stop_transition(completion(true, ServiceState::Running)) == Some(ServiceState::Stopping),
        completion(true, ServiceState::Stopped) == ServiceState::Stopped,
        forall|s: ServiceState| s != ServiceState::Stopped ==> #[trigger] start_transition(s) is None,
        forall|s: ServiceState| s != ServiceState::Running ==> #[trigger] stop_transition(s) is None,
        forall|t: ServiceState| #[trigger] completion(false, t) == ServiceState::Error,
        start_transition(ServiceState::Error) is None && stop_transition(ServiceState::Error) is None,
{
}

/// The state after asking a service in state `s` to start (`start`) or to
/// stop: the transition's state where it is allowed, `s` where it is
/// refused.
pub open spec fn after_request(s: ServiceState, start: bool) -> ServiceState {
    let t = if start {
        start_transition(s)
    } else {
        stop_transition(s)
    };
    match t {
        Some(n) => n,
        None => s,
    }
}

proof fn lemma_error_at(states: Seq<ServiceState>, starts: Seq<bool>, i: int)
    requires
        states.len() == starts.len() + 1,
        states[0] == ServiceState::Error,
        forall|j: int| 0 <= j < starts.len() ==> states[j + 1] == after_request(#[trigger] states[j], starts[j]),
        0 <= i < states.len(),
    ensures
        states[i] == ServiceState::Error,
    decreases i,
{
    if i > 0 {
        lemma_error_at(states, starts, i - 1);
        assert(states[i] == after_request(states[i - 1], starts[i - 1]));
    }
}

/// Error is absorbing: once a service is in error, every later request to
/// start or to stop it is refused and it stays in error, over any number
/// of requests.
pub proof fn error_is_absorbing(states: Seq<ServiceState>, starts: Seq<bool>)
    requires
        states.len() == starts.len() + 1,
        states[0] == ServiceState::Error,
        forall|i: int| 0 <= i < starts.len() ==> states[i + 1] == after_request(#[trigger] states[i], starts[i]),
    ensures
        forall|i: int| 0 <= i < states.len() ==> #[trigger] states[i] == ServiceState::Error,
        forall|i: int|
            0 <= i < starts.len() ==> (if starts[i] {
                start_transition(#[trigger] states[i]) is None
            } else {
                stop_transition(states[i]) is None
            }),
{
    assert forall|i: int| 0 <= i < states.len() implies #[trigger] states[i] == ServiceState::Error by {
        lemma_error_at(states, starts, i);
    }
}

/// Building a service from settings.
pub struct ServiceManagerBuilder {
    config: ServiceConfig,
}

impl ServiceManagerBuilder {
    pub closed spec fn config_spec(&self) -> ServiceConfig {
        self.config
    }

    /// A builder with the default settings.
    pub fn new() -> (r: Self)
        ensures
            r.config_spec().service.name@ == "soft-kvm"@,
            r.config_spec().network.control_port == 8080,
            r.config_spec().network.video_port == 8081,
    {
        ServiceManagerBuilder { config: ServiceConfig::default() }
    }

    /// The builder with these settings.
    pub fn with_config(self, config: ServiceConfig) -> (r: Self)
        ensures
            r.config_spec() == config,
    {
        ServiceManagerBuilder { config }
    }

    /// The builder with this service name.
    pub fn with_name(self, name: &str) -> (r: Self)
        ensures
            r.config_spec().service.name@ == name@,
            r.config_spec().service.display_name == self.config_spec().service.display_name,
            r.config_spec().network == self.config_spec().network,
            r.config_spec().video == self.config_spec().video,
            r.config_spec().security == self.config_spec().security,
            r.config_spec().logging == self.config_spec().logging,
    {
        let mut b = self;
        b.config.service.name = string_from(name);
        b
    }

    /// The builder with this control port.
    pub fn with_control_port(self, port: u16) -> (r: Self)
        ensures
            r.config_spec() == (ServiceConfig {
                network: NetworkSettings { control_port: port, ..self.config_spec().network },
                ..self.config_spec()
            }),
    {
        let mut b = self;
        b.config.network.control_port = port;
        b
    }

    /// The builder with this video port.
    pub fn with_video_port(self, port: u16) -> (r: Self)
        ensures
            r.config_spec() == (ServiceConfig {
                network: NetworkSettings { video_port: port, ..self.config_spec().network },
                ..self.config_spec()
            }),
    {
        let mut b = self;
        b.config.network.video_port = port;
        b
    }

    /// A stopped service with the builder's settings.
    pub fn build(self) -> (r: ServiceManager)
        ensures
            r.config_spec() == self.config_spec(),
            r.state_spec() == ServiceState::Stopped,
    {
        ServiceManager::new(self.config)
    }
}

impl Default for ServiceManagerBuilder {
    fn default() -> (r: Self)
        ensures
            r.config_spec().service.name@ == "soft-kvm"@,
    {
        Self::new()
    }
}

/// The path of the service's launchd property list.
pub const PLIST_PATH: &'static str = "/Library/LaunchDaemons/com.soft-kvm.server.plist";

/// The launchd label of the service.
pub const SERVICE_LABEL: &'static str = "com.soft-kvm.server";

/// The property list before the value of `RunAtLoad`.
pub const PLIST_HEAD: &'static str = "<?xml version=\"1.0\" encoding=\"UTF-8\"?>\n<!DOCTYPE plist PUBLIC \"-//Apple//DTD PLIST 1.0//EN\" \"http://www.apple.com/DTDs/PropertyList-1.0.dtd\">\n<plist version=\"1.0\">\n<dict>\n    <key>Label</key>\n    <string>com.soft-kvm.server</string>\n\n    <key>ProgramArguments</key>\n    <array>\n        <string>/usr/local/bin/soft-kvm-server</string>\n    </array>\n\n    <key>RunAtLoad</key>\n    <";

/// The property list after the value of `RunAtLoad`.
pub const PLIST_TAIL: &'static str = "/>\n\n    <key>KeepAlive</key>\n    <true/>\n\n    <key>StandardOutPath</key>\n    <string>/var/log/soft-kvm.log</string>\n\n    <key>StandardErrorPath</key>\n    <string>/var/log/soft-kvm.error.log</string>\n\n    <key>EnvironmentVariables</key>\n    <dict>\n        <key>PATH</key>\n        <string>/usr/local/bin:/usr/bin:/bin</string>\n        <key>DISPLAY</key>\n        <string>:0</string>\n    </dict>\n\n    <key>UserName</key>\n    <string>root</string>\n\n    <key>GroupName</key>\n    <string>wheel</string>\n\n    <key>SoftResourceLimits</key>\n    <dict>\n        <key>NumberOfFiles</key>\n        <integer>1024</integer>\n    </dict>\n\n    <key>HardResourceLimits</key>\n    <dict>\n        <key>NumberOfFiles</key>\n        <integer>2048</integer>\n    </dict>\n</dict>\n</plist>\n";

/// How the shell configures the service.
#[derive(Debug, Clone)]
pub struct SimpleServiceConfig {
    pub service_name: String,
    pub auto_start: bool,
    pub description: String,
}

/// The property list of the service: it runs the server, kept alive, with
/// its logs under /var/log, as root; it starts at load where `run_at_load`.
pub open spec fn plist_text(run_at_load: bool) -> Seq<char> {
    PLIST_HEAD@ + (if run_at_load {
        "true"@
    } else {
        "false"@
    }) + PLIST_TAIL@
}

/// The property list for a configuration: it starts at load as the
/// configuration says; without one, it does.
pub fn plist_content(config: Option<&SimpleServiceConfig>) -> (r: String)
    ensures
        r@ == plist_text(
            match config {
                Some(c) => c.auto_start,
                None => true,
            },
        ),
{
    let mut r = string_from(PLIST_HEAD);
    let run = match config {
        Some(c) => c.auto_start,
        None => true,
    };
    if run {
        append_str(&mut r, "true");
    } else {
        append_str(&mut r, "false");
    }
    append_str(&mut r, PLIST_TAIL);
    r
}

/// What running a command gave: it could not run (the error), or it ran
/// (whether it succeeded, and what it wrote).
#[derive(Debug, Clone)]
pub enum CommandOutcome {
    NotRun(String),
    Ran { success: bool, stdout: String, stderr: String },
}

/// A platform error: the prefix and the text.
fn platform_error(prefix: &str, text: &str) -> (r: KvmError)
    ensures
        r matches KvmError::Platform(m) && m@ == prefix@ + text@,
{
    let mut m = string_from(prefix);
    append_str(&mut m, text);
    KvmError::Platform(m)
}

/// The result of a `launchctl` command: a command that could not run is
/// an error with the first prefix, one that failed an error with the
/// second prefix and its error output; one that succeeded gives its
/// output.
pub open spec fn launchctl_result(o: CommandOutcome, not_run: Seq<char>, failed: Seq<char>, r: KvmResult<String>) -> bool {
    match o {
        CommandOutcome::NotRun(e) => r matches Err(KvmError::Platform(m)) && m@ == not_run + e@,
        CommandOutcome::Ran { success, stdout, stderr } => if success {
            r matches Ok(out) && out@ == stdout@
        } else {
            r matches Err(KvmError::Platform(m)) && m@ == failed + stderr@
        },
    }
}

/// The result of a `launchctl` command, with the given error prefixes.
fn launchctl_outcome(o: CommandOutcome, not_run: &str, failed: &str) -> (r: KvmResult<String>)
    ensures
        launchctl_result(o, not_run@, failed@, r),
{
    match o {
        CommandOutcome::NotRun(e) => Err(platform_error(not_run, e.as_str())),
        CommandOutcome::Ran { success, stdout, stderr } => {
            if success {
                Ok(stdout)
            } else {
                Err(platform_error(failed, stderr.as_str()))
            }
        },
    }
}

/// The result of `launchctl start`: a service that is already running
/// counts as started.
pub fn launchctl_start_result(o: CommandOutcome) -> (r: KvmResult<()>)
    ensures
        match o {
            CommandOutcome::NotRun(e) => r matches Err(KvmError::Platform(m)) && m@
                == "launchctl start command failed: "@ + e@,
            CommandOutcome::Ran { success, stdout, stderr } => if success || find_spec(
                stderr@,
                "already running"@,
            ) is Some {
                r is Ok
            } else {
                r matches Err(KvmError::Platform(m)) && m@ == "launchctl start failed: "@ + stderr@
            },
        },
{
    match o {
        CommandOutcome::NotRun(e) => Err(platform_error("launchctl start command failed: ", e.as_str())),
        CommandOutcome::Ran { success, stdout, stderr } => {
            if success || find_str(stderr.as_str(), "already running").is_some() {
                Ok(())
            } else {
                Err(platform_error("launchctl start failed: ", stderr.as_str()))
            }
        },
    }
}

/// The result of `launchctl stop`.
pub fn launchctl_stop_result(o: CommandOutcome) -> (r: KvmResult<String>)
    ensures
        launchctl_result(o, "Failed to stop service: "@, "launchctl stop failed: "@, r),
{
    launchctl_outcome(o, "Failed to stop service: ", "launchctl stop failed: ")
}

/// The result of `launchctl list`: the service's status text.
pub fn launchctl_list_result(o: CommandOutcome) -> (r: KvmResult<String>)
    ensures
        launchctl_result(o, "Failed to get status: "@, "launchctl list failed: "@, r),
{
    launchctl_outcome(o, "Failed to get status: ", "launchctl list failed: ")
}

/// The result of `launchctl load`.
pub fn launchctl_load_result(o: CommandOutcome) -> (r: KvmResult<String>)
    ensures
        launchctl_result(o, "Failed to load service: "@, "launchctl load failed: "@, r),
{
    launchctl_outcome(o, "Failed to load service: ", "launchctl load failed: ")
}

/// The result of `launchctl unload`.
pub fn launchctl_unload_result(o: CommandOutcome) -> (r: KvmResult<String>)
    ensures
        launchctl_result(o, "Failed to unload service: "@, "launchctl unload failed: "@, r),
{
    launchctl_outcome(o, "Failed to unload service: ", "launchctl unload failed: ")
}

/// The steps of writing the property list that can fail, by the error
/// text prefix of each: writing the file, setting its permissions, setting
/// its owner.
#[derive(Debug, Clone, Copy, PartialEq, Eq, Structural)]
pub enum PlistStep {
    Write,
    Permissions,
    Ownership,
}

/// The error of a step of writing the property list.
pub fn plist_step_failure(step: PlistStep, error: &str) -> (r: KvmError)
    ensures
        r matches KvmError::Platform(m) && m@ == match step {
            PlistStep::Write => "Failed to create plist file: "@,
            PlistStep::Permissions => "Failed to set permissions: "@,
            PlistStep::Ownership => "Failed to set ownership: "@,
        } + error@,
{
    match step {
        PlistStep::Write => platform_error("Failed to create plist file: ", error),
        PlistStep::Permissions => platform_error("Failed to set permissions: ", error),
        PlistStep::Ownership => platform_error("Failed to set ownership: ", error),
    }
}

/// The status of the service as the shell reports it.
#[derive(Debug, Clone, Copy, PartialEq, Eq, Structural)]
pub struct ServiceStatus {
    pub installed: bool,
    pub running: bool,
    pub auto_start: bool,
}

/// The service managers the shell can drive.
#[derive(Debug, Clone, Copy, PartialEq, Eq, Structural)]
pub enum ServicePlatform {
    Systemd,
    Launchd,
    Windows,
    Unsupported,
}

/// The name a service manager has at the start of a sentence.
pub open spec fn platform_title(p: ServicePlatform) -> Seq<char> {
    match p {
        ServicePlatform::Systemd => "Systemd"@,
        ServicePlatform::Launchd => "Launchd"@,
        _ => "Windows"@,
    }
}

/// The name a service manager has inside a sentence.
pub open spec fn platform_word(p: ServicePlatform) -> Seq<char> {
    match p {
        ServicePlatform::Systemd => "systemd"@,
        ServicePlatform::Launchd => "launchd"@,
        _ => "Windows"@,
    }
}

/// The operations the shell performs on the service.
#[derive(Debug, Clone, Copy, PartialEq, Eq, Structural)]
pub enum ServiceOperation {
    Install,
    Uninstall,
    Start,
    Stop,
}

/// The past tense of an operation.
pub open spec fn done_word(op: ServiceOperation) -> Seq<char> {
    match op {
        ServiceOperation::Install => "installed"@,
        ServiceOperation::Uninstall => "uninstalled"@,
        ServiceOperation::Start => "started"@,
        ServiceOperation::Stop => "stopped"@,
    }
}

/// The verb of an operation.
pub open spec fn verb_word(op: ServiceOperation) -> Seq<char> {
    match op {
        ServiceOperation::Install => "install"@,
        ServiceOperation::Uninstall => "uninstall"@,
        ServiceOperation::Start => "start"@,
        ServiceOperation::Stop => "stop"@,
    }
}

/// The noun of an operation, for an unsupported platform.
pub open spec fn noun_word(op: ServiceOperation) -> Seq<char> {
    match op {
        ServiceOperation::Install => "installation"@,
        ServiceOperation::Uninstall => "uninstallation"@,
        ServiceOperation::Start => "start"@,
        ServiceOperation::Stop => "stop"@,
    }
}

/// What the shell knows of the installed service: its configuration once
/// installed, and whether it runs.
pub struct ShellServiceState {
    config: Option<SimpleServiceConfig>,
    is_running: bool,
}

impl ShellServiceState {
    pub closed spec fn config_spec(&self) -> Option<SimpleServiceConfig> {
        self.config
    }

    pub closed spec fn running_spec(&self) -> bool {
        self.is_running
    }

    /// Nothing installed, nothing running.
    pub fn new() -> (r: Self)
        ensures
            r.config_spec() is None,
            !r.running_spec(),
    {
        ShellServiceState { config: None, is_running: false }
    }

    /// The answer to an operation on the service, given what the service
    /// manager answered (its error as `Debug` writes it). A successful
    /// install keeps the configuration; an uninstall forgets it and the
    /// service no longer runs; a start or stop sets whether it runs. A
    /// failure changes nothing. On an unsupported platform nothing is done.
    pub fn complete(
        &mut self,
        platform: ServicePlatform,
        op: ServiceOperation,
        config: Option<SimpleServiceConfig>,
        outcome: Result<(), String>,
    ) -> (r: Result<String, String>)
        requires
            op == ServiceOperation::Install ==> config is Some,
        ensures
            platform == ServicePlatform::Unsupported ==> (r matches Err(m) && m@ == "Service "@ + noun_word(op)
                + " not supported on this platform"@) && final(self).config_spec() == old(self).config_spec()
                && final(self).running_spec() == old(self).running_spec(),
            platform != ServicePlatform::Unsupported ==> match outcome {
                Ok(()) => (r matches Ok(m) && m@ == platform_title(platform) + " service "@ + done_word(op)
                    + " successfully"@) && match op {
                    ServiceOperation::Install => final(self).config_spec() == config && final(self).running_spec()
                        == old(self).running_spec(),
                    ServiceOperation::Uninstall => final(self).config_spec() is None && !final(self).running_spec(),
                    ServiceOperation::Start => final(self).config_spec() == old(self).config_spec()
                        && final(self).running_spec(),
                    ServiceOperation::Stop => final(self).config_spec() == old(self).config_spec()
                        && !final(self).running_spec(),
                },
                Err(e) => (r matches Err(m) && m@ == "Failed to "@ + verb_word(op) + " "@ + platform_word(platform)
                    + " service: "@ + e@) && final(self).config_spec() == old(self).config_spec()
                    && final(self).running_spec() == old(self).running_spec(),
            },
    {
        let (verb, noun, done) = match op {
            ServiceOperation::Install => ("install", "installation", "installed"),
            ServiceOperation::Uninstall => ("uninstall", "uninstallation", "uninstalled"),
            ServiceOperation::Start => ("start", "start", "started"),
            ServiceOperation::Stop => ("stop", "stop", "stopped"),
        };
        let (title, word) = match platform {
            ServicePlatform::Systemd => ("Systemd", "systemd"),
            ServicePlatform::Launchd => ("Launchd", "launchd"),
            ServicePlatform::Windows => ("Windows", "Windows"),
            ServicePlatform::Unsupported => {
                let mut m = string_from("Service ");
                append_str(&mut m, noun);
                append_str(&mut m, " not supported on this platform");
                return Err(m);
            },
        };
        match outcome {
            Ok(()) => {
                match op {
                    ServiceOperation::Install => {
                        self.config = config;
                    },
                    ServiceOperation::Uninstall => {
                        self.config = None;
                        self.is_running = false;
                    },
                    ServiceOperation::Start => {
                        self.is_running = true;
                    },
                    ServiceOperation::Stop => {
                        self.is_running = false;
                    },
                }
                let mut m = string_from(title);
                append_str(&mut m, " service ");
                append_str(&mut m, done);
                append_str(&mut m, " successfully");
                Ok(m)
            },
            Err(e) => {
                let mut m = string_from("Failed to ");
                append_str(&mut m, verb);
                append_str(&mut m, " ");
                append_str(&mut m, word);
                append_str(&mut m, " service: ");
                append_str(&mut m, e.as_str());
                Err(m)
            },
        }
    }

    /// The status the shell reports: installed once configured; running
    /// where the service manager reports it and the shell started it;
    /// started automatically as configured.
    pub fn get_service_status(&self, manager_reports_running: bool) -> (r: Result<ServiceStatus, String>)
        ensures
            r matches Ok(s) && s.installed == self.config_spec() is Some && s.running == (manager_reports_running
                && self.running_spec()) && s.auto_start == match self.config_spec() {
                Some(c) => c.auto_start,
                None => false,
            },
    {
        let auto_start = match &self.config {
            Some(c) => c.auto_start,
            None => false,
        };
        Ok(ServiceStatus {
            installed: self.config.is_some(),
            running: manager_reports_running && self.is_running,
            auto_start,
        })
    }
}

/// The requests the Windows service manager sends a running service.
#[derive(Debug, Clone, Copy, PartialEq, Eq, Structural)]
pub enum ServiceControlEvent {
    Stop,
    Interrogate,
    Other,
}

/// How the service answers a request of the Windows service manager.
#[derive(Debug, Clone, Copy, PartialEq, Eq, Structural)]
pub enum ControlReply {
    NoError,
    NotImplemented,
}

/// The service answers a stop request and an interrogation; every other
/// request is not implemented.
pub fn control_reply(event: ServiceControlEvent) -> (r: ControlReply)
    ensures
        r == match event {
            ServiceControlEvent::Other => ControlReply::NotImplemented,
            _ => ControlReply::NoError,
        },
{
    match event {
        ServiceControlEvent::Stop => ControlReply::NoError,
        ServiceControlEvent::Interrogate => ControlReply::NoError,
        ServiceControlEvent::Other => ControlReply::NotImplemented,
    }
}

} // verus!
