//! What the daemon is told on its command line, and the names and places that
//! follow from it.
use vstd::prelude::*;
use vstd::string::*;

use crate::paths;
use crate::rpc::Fault;
use crate::text;

verus! {

/// The first vsock port that daemons listen on; an instance adds its number.
pub const DEFAULT_VSOCK_PORT_BASE: u32 = 2222;

/// The receive window of a vsock listener, in bytes.
pub const VSOCK_RX_WINDOW_BYTES: u64 = 8_388_608;

/// The variable that marks a daemon whose standard streams lead nowhere.
pub const DETACHED_ENV: &'static str = "MINIMALD_DETACHED";

/// What all commands are told. The directories are absolute.
#[derive(Debug)]
pub struct GlobalArgs {
    /// Where state is kept, if not in the usual place.
    pub minimal_state_dir: Option<String>,
    /// Where artifacts are cached, if not in the usual place.
    pub minimal_cache_dir: Option<String>,
    /// Where the standard library is loaded from, if not from the usual place.
    pub stdlib_dir: Option<String>,
    pub num_parallel_builds: Option<usize>,
}

/// What a daemon is told of where to listen, and what to set up before.
#[derive(Debug)]
pub struct ListenArgs {
    /// The number of this daemon among those of one machine.
    pub instance_num: u32,
    /// Whether to listen on a vsock port and not on a socket in the file
    /// system.
    pub vsock: bool,
    /// Whether to mount `/dev`.
    pub mount_dev: bool,
    /// The device to mount as the root.
    pub mount_rootfs: Option<String>,
    /// The device to mount, and format at first, for state.
    pub mk_mount_state_volume: Option<String>,
    /// The number of open files to ask for.
    pub rlimit_nofile: Option<u64>,
    /// The port on which the host's time arrives.
    pub timekeep_listener_port: Option<u32>,
    /// Whether to go on in the background.
    pub detach: bool,
    /// The switch's program, if not the usual one.
    pub gvproxy_bin: Option<String>,
}

/// What the daemon is asked to do.
#[derive(Debug)]
pub enum Command {
    /// Print the completions of a shell.
    Completions { shell: String },
    Run(ListenArgs),
    /// Join a session's namespaces and run a program there.
    Nsenter,
}

/// A command line.
#[derive(Debug)]
pub struct Cli {
    pub command: Command,
    pub global_args: GlobalArgs,
}

/// Why the daemon ends.
#[derive(Debug)]
pub enum MainError {
    /// The system refused something; the text says what was done.
    IO(Fault, &'static str),
    Other(String),
}

/// An error of the keys in words.
pub open spec fn key_error_words(error: Seq<char>) -> Seq<char> {
    "ssh key: "@ + error
}

impl MainError {
    /// The keys could not be used.
    pub fn from_key_error(error: &str) -> (e: Self)
        ensures
            e matches MainError::Other(words) && words@ == key_error_words(error@),
    {
        MainError::Other(text::cat2("ssh key: ", error))
    }
}

/// An error and those that it came from, in one line. The first one is the
/// error itself.
pub open spec fn chain_words(errors: Seq<Seq<char>>) -> Seq<char> {
    text::joined(errors, ": "@)
}

/// An error and those that it came from, in one line.
pub fn error_chain(errors: &Vec<String>) -> (line: String)
    ensures
        line@ == chain_words(text::texts(errors@)),
{
    text::join(errors, ": ")
}

/// The name of an instance.
pub open spec fn instance_name(n: nat) -> Seq<char> {
    "local-minimald"@ + text::decimal_text(n)
}

/// The name of an instance.
pub fn provider_instance_name(n: u32) -> (name: String)
    ensures
        name@ == instance_name(n as nat),
{
    text::cat2("local-minimald", text::decimal(n as u128).as_str())
}

/// Where clients find an instance.
pub open spec fn instance_dir(state_dir: Seq<char>, n: nat) -> Seq<char> {
    paths::joined_path(paths::joined_path(state_dir, "providers"@), instance_name(n))
}

impl Cli {
    /// Where state is kept: what was given, or the usual place.
    pub open spec fn state_dir(&self, usual: Seq<char>) -> Seq<char> {
        match self.global_args.minimal_state_dir {
            Some(p) => p@,
            None => usual,
        }
    }

    /// Where artifacts are cached: what was given, or the usual place.
    pub open spec fn cache_dir(&self, usual: Seq<char>) -> Seq<char> {
        match self.global_args.minimal_cache_dir {
            Some(p) => p@,
            None => usual,
        }
    }

    /// The number of the instance.
    pub open spec fn number(&self) -> u32 {
        match self.command {
            Command::Run(a) => a.instance_num,
            _ => 0,
        }
    }

    /// Where state is kept.
    pub fn minimal_state_dir(&self, usual: &str) -> (dir: String)
        ensures
            dir@ == self.state_dir(usual@),
    {
        match &self.global_args.minimal_state_dir {
            Some(p) => p.clone(),
            None => usual.to_owned(),
        }
    }

    /// Where artifacts are cached.
    pub fn minimal_cache_dir(&self, usual: &str) -> (dir: String)
        ensures
            dir@ == self.cache_dir(usual@),
    {
        match &self.global_args.minimal_cache_dir {
            Some(p) => p.clone(),
            None => usual.to_owned(),
        }
    }

    /// What the daemon is told of where to listen, if it is to run.
    pub fn listen_args(&self) -> (args: Option<&ListenArgs>)
        ensures
            args == (match self.command {
                Command::Run(a) => Some(&a),
                _ => None,
            }),
    {
        match &self.command {
            Command::Run(a) => Some(a),
            _ => None,
        }
    }

    /// The number of the instance; the first one's where none is to run.
    pub fn instance_num(&self) -> (n: u32)
        ensures
            n == self.number(),
    {
        match self.listen_args() {
            Some(a) => a.instance_num,
            None => 0,
        }
    }

    /// Where clients find the instance.
    pub fn client_instance_dir(&self, usual_state_dir: &str) -> (dir: String)
        ensures
            dir@ == instance_dir(self.state_dir(usual_state_dir@), self.number() as nat),
    {
        let state = self.minimal_state_dir(usual_state_dir);
        let providers = paths::join(state.as_str(), "providers");
        let name = provider_instance_name(self.instance_num());
        paths::join(providers.as_str(), name.as_str())
    }

    /// The socket that the instance listens on.
    pub open spec fn socket(&self, usual_state_dir: Seq<char>) -> Seq<char> {
        paths::joined_path(
            instance_dir(self.state_dir(usual_state_dir), self.number() as nat),
            "ssh.sock"@,
        )
    }

    /// The socket that the instance listens on.
    pub fn listen_on(&self, usual_state_dir: &str) -> (path: String)
        ensures
            path@ == self.socket(usual_state_dir@),
    {
        paths::join(self.client_instance_dir(usual_state_dir).as_str(), "ssh.sock")
    }

    /// How to connect to the instance with `ssh`: options with their values,
    /// and the name of the server.
    pub fn ssh_args(&self, usual_state_dir: &str, macos: bool) -> (args: (
        Vec<(&'static str, String)>,
        String,
    ))
        ensures
            args.0@.len() == 2,
            args.0@[0].0@ == "ProxyCommand"@,
            args.0@[0].1@ == (if macos {
                "nc -U "@
            } else {
                "socat - UNIX-CONNECT:"@
            }) + self.socket(usual_state_dir@),
            args.0@[1].0@ == "UserKnownHostsFile"@,
            args.0@[1].1@ == paths::joined_path(
                instance_dir(self.state_dir(usual_state_dir@), self.number() as nat),
                "known_hosts"@,
            ),
            args.1@ == instance_name(self.number() as nat),
    {
        let socket = self.listen_on(usual_state_dir);
        let proxy = if macos {
            text::cat2("nc -U ", socket.as_str())
        } else {
            text::cat2("socat - UNIX-CONNECT:", socket.as_str())
        };
        let dir = self.client_instance_dir(usual_state_dir);
        let hosts = paths::join(dir.as_str(), "known_hosts");
        let mut options: Vec<(&'static str, String)> = Vec::new();
        options.push(("ProxyCommand", proxy));
        options.push(("UserKnownHostsFile", hosts));
        (options, provider_instance_name(self.instance_num()))
    }
}

/// Whether a process is the init of a microVM: the first process, under the
/// name `init`. Neither alone is enough: a name can be made up, and a daemon
/// can be the first process of a container.
pub open spec fn is_vm_init(pid: u32, argv0: Option<Seq<u8>>) -> bool {
    pid == 1 && argv0 is Some && paths::file_name_of(paths::widened(argv0->0)) == Some("init"@)
}

/// Whether a process is the init of a microVM.
pub fn is_microvm_init(pid: u32, argv0: Option<&[u8]>) -> (yes: bool)
    ensures
        yes == is_vm_init(
            pid,
            match argv0 {
                Some(a) => Some(a@),
                None => None,
            },
        ),
{
    if pid != 1 {
        return false;
    }
    match argv0 {
        None => false,
        Some(a) => {
            let chars = paths::widen(a);
            let wide = text::text_of(&chars, 0, chars.len());
            assert(wide@ =~= paths::widened(a@));
            match paths::file_name(wide.as_str()) {
                Some(name) => text::same_text(name.as_str(), "init"),
                None => false,
            }
        },
    }
}

/// What the init of a microVM is told, for want of a command line: the root
/// and the state are on its two disks, and the host is reached over vsock.
pub fn microvm_cli(nofile_limit: u64, timekeep_port: u32) -> (cli: Cli)
    ensures
        cli.command matches Command::Run(a) && {
            &&& a.instance_num == 0
            &&& a.vsock
            &&& a.mount_dev
            &&& text::optional(a.mount_rootfs) == Some("/dev/vda"@)
            &&& text::optional(a.mk_mount_state_volume) == Some("/dev/vdb"@)
            &&& !a.detach
            &&& a.rlimit_nofile == Some(nofile_limit)
            &&& a.timekeep_listener_port == Some(timekeep_port)
            &&& a.gvproxy_bin is None
        },
        text::optional(cli.global_args.minimal_state_dir) == Some("/run/minimal"@),
        text::optional(cli.global_args.minimal_cache_dir) == Some("/run/minimal/cache"@),
        cli.global_args.num_parallel_builds is None,
        cli.global_args.stdlib_dir is None,
{
    Cli {
        command: Command::Run(
            ListenArgs {
                instance_num: 0,
                vsock: true,
                mount_dev: true,
                mount_rootfs: Some("/dev/vda".to_owned()),
                mk_mount_state_volume: Some("/dev/vdb".to_owned()),
                rlimit_nofile: Some(nofile_limit),
                timekeep_listener_port: Some(timekeep_port),
                detach: false,
                gvproxy_bin: None,
            },
        ),
        global_args: GlobalArgs {
            minimal_state_dir: Some("/run/minimal".to_owned()),
            minimal_cache_dir: Some("/run/minimal/cache".to_owned()),
            stdlib_dir: None,
            num_parallel_builds: None,
        },
    }
}

/// Where the daemon's log goes.
#[derive(Clone, Copy, PartialEq, Eq, Structural, Debug)]
pub enum LogMode {
    Console,
    File,
}

/// Where the daemon's log goes: to a file where nobody sees the console.
pub fn log_mode(microvm: bool, detached: bool) -> (mode: LogMode)
    ensures
        mode == (if microvm || detached {
            LogMode::File
        } else {
            LogMode::Console
        }),
{
    if microvm || detached {
        LogMode::File
    } else {
        LogMode::Console
    }
}

/// Why a host refuses the namespaces that sandboxes need.
#[derive(Clone, Copy, PartialEq, Eq, Structural, Debug)]
pub enum UsernsRestriction {
    ApparmorUnconfined,
    Disabled,
    Unknown,
}

/// What is done about a restriction, in words.
pub open spec fn userns_fix_words(
    restriction: UsernsRestriction,
    data_dir: Seq<char>,
    exe: Option<Seq<char>>,
) -> Seq<char> {
    match restriction {
        UsernsRestriction::ApparmorUnconfined => {
            let bin = match exe {
                Some(e) => e,
                None => "<path to this minimald binary>"@,
            };
            "install minimald's AppArmor profile (one-time, needs root): sudo bash "@ + data_dir
                + "/apparmor/install-apparmor-profile.sh --path "@ + bin
                + " (from a checkout: sudo scripts/install-apparmor-profile.sh --path "@ + bin
                + ")"@
        },
        UsernsRestriction::Disabled => "re-enable user namespaces, e.g. sudo sysctl -w user.max_user_namespaces=15000"@,
        UsernsRestriction::Unknown => "see the linux-host-setup doc"@,
    }
}

/// What is done about a restriction, in words.
pub fn userns_fix(
    restriction: UsernsRestriction,
    data_dir: &str,
    exe: Option<String>,
) -> (words: String)
    ensures
        words@ == userns_fix_words(restriction, data_dir@, text::optional(exe)),
{
    match restriction {
        UsernsRestriction::ApparmorUnconfined => {
            let bin = match exe {
                Some(e) => e,
                None => "<path to this minimald binary>".to_owned(),
            };
            let first = text::cat4(
                "install minimald's AppArmor profile (one-time, needs root): sudo bash ",
                data_dir,
                "/apparmor/install-apparmor-profile.sh --path ",
                bin.as_str(),
            );
            text::cat4(
                first.as_str(),
                " (from a checkout: sudo scripts/install-apparmor-profile.sh --path ",
                bin.as_str(),
                ")",
            )
        },
        UsernsRestriction::Disabled => "re-enable user namespaces, e.g. sudo sysctl -w user.max_user_namespaces=15000".to_owned(),
        UsernsRestriction::Unknown => "see the linux-host-setup doc".to_owned(),
    }
}

/// A directory that is given is used, and the usual one where none is; state and
/// cache are given apart.
pub proof fn law_what_is_given_is_used(cli: Cli, usual: Seq<char>)
    ensures
        cli.global_args.minimal_state_dir is Some ==> cli.state_dir(usual)
            == cli.global_args.minimal_state_dir->0@,
        cli.global_args.minimal_state_dir is None ==> cli.state_dir(usual) == usual,
        cli.global_args.minimal_cache_dir is Some ==> cli.cache_dir(usual)
            == cli.global_args.minimal_cache_dir->0@,
        cli.global_args.minimal_cache_dir is None ==> cli.cache_dir(usual) == usual,
        cli.command is Run ==> cli.number() == cli.command->Run_0.instance_num,
        !(cli.command is Run) ==> cli.number() == 0,
{
}

/// An instance is found below the providers in its state directory, under a name
/// that ends in its number, and its socket is there.
pub proof fn law_an_instance_is_found_by_its_number(cli: Cli, state: Seq<char>, n: nat)
    ensures
        instance_name(n) == "local-minimald"@ + text::decimal_text(n),
        instance_dir(state, n) == paths::joined_path(
            paths::joined_path(state, "providers"@),
            "local-minimald"@ + text::decimal_text(n),
        ),
        cli.socket(state) == paths::joined_path(
            instance_dir(cli.state_dir(state), cli.number() as nat),
            "ssh.sock"@,
        ),
{
}

/// Two instances never have the same name.
pub proof fn law_instances_have_names_of_their_own(n: u32, m: u32)
    ensures
        instance_name(n as nat) == instance_name(m as nat) <==> n == m,
{
    let a = text::decimal_text(n as nat);
    let b = text::decimal_text(m as nat);
    let head = "local-minimald"@;
    if instance_name(n as nat) == instance_name(m as nat) {
        assert((head + a).skip(head.len() as int) =~= a);
        assert((head + b).skip(head.len() as int) =~= b);
        text::law_numerals_read_back(n);
        text::law_numerals_read_back(m);
    }
}

/// A process is the init of a microVM if it is the first one and goes by the
/// name `init`, wherever that is; no other process is, whatever its name.
pub proof fn law_only_the_first_process_is_init(pid: u32, argv0: Option<Seq<u8>>)
    ensures
        pid != 1 ==> !is_vm_init(pid, argv0),
        argv0 is None ==> !is_vm_init(pid, argv0),
        argv0 is Some ==> (is_vm_init(1, argv0) <==> paths::file_name_of(paths::widened(argv0->0))
            == Some("init"@)),
{
}

/// The init of a microVM listens on vsock, with its root and its state on its
/// two disks, in this order, and never goes to the background.
pub proof fn law_a_microvm_runs_from_its_disks(limit: u64, port: u32, cli: Cli)
    requires
        call_ensures(microvm_cli, (limit, port), cli),
    ensures
        cli.command is Run,
        cli.command->Run_0.instance_num == 0,
        cli.command->Run_0.vsock && cli.command->Run_0.mount_dev && !cli.command->Run_0.detach,
        cli.command->Run_0.mount_rootfs is Some && cli.command->Run_0.mount_rootfs->0@
            == "/dev/vda"@,
        cli.command->Run_0.mk_mount_state_volume is Some
            && cli.command->Run_0.mk_mount_state_volume->0@ == "/dev/vdb"@,
        cli.command->Run_0.rlimit_nofile == Some(limit),
        cli.command->Run_0.timekeep_listener_port == Some(port),
        cli.command->Run_0.gvproxy_bin is None,
        cli.state_dir(Seq::empty()) == "/run/minimal"@,
        cli.cache_dir(Seq::empty()) == "/run/minimal/cache"@,
{
}

/// A log goes to a file where nobody sees the console.
pub proof fn law_a_log_goes_where_it_can_be_read(microvm: bool, detached: bool, mode: LogMode)
    requires
        call_ensures(log_mode, (microvm, detached), mode),
    ensures
        mode is Console <==> !microvm && !detached,
{
}

/// A client is told to connect through the socket of the instance, with what is
/// known of its key, under its name.
pub proof fn law_a_client_connects_to_the_instance(
    cli: &Cli,
    usual: &str,
    macos: bool,
    args: (Vec<(&'static str, String)>, String),
)
    requires
        call_ensures(Cli::ssh_args, (cli, usual, macos), args),
    ensures
        args.0@.len() == 2,
        args.0@[0].0@ == "ProxyCommand"@,
        macos ==> args.0@[0].1@ == "nc -U "@ + cli.socket(usual@),
        !macos ==> args.0@[0].1@ == "socat - UNIX-CONNECT:"@ + cli.socket(usual@),
        args.0@[1].0@ == "UserKnownHostsFile"@,
        args.0@[1].1@ == paths::joined_path(
            instance_dir(cli.state_dir(usual@), cli.number() as nat),
            "known_hosts"@,
        ),
        args.1@ == "local-minimald"@ + text::decimal_text(cli.number() as nat),
{
}

/// What can be done about a host that refuses namespaces depends on why it does;
/// the profile is installed for the very program that runs.
pub proof fn law_a_restriction_has_its_own_remedy(dir: Seq<char>, exe: Seq<char>)
    ensures
        userns_fix_words(UsernsRestriction::ApparmorUnconfined, dir, Some(exe))
            == "install minimald's AppArmor profile (one-time, needs root): sudo bash "@ + dir
            + "/apparmor/install-apparmor-profile.sh --path "@ + exe
            + " (from a checkout: sudo scripts/install-apparmor-profile.sh --path "@ + exe + ")"@,
        userns_fix_words(UsernsRestriction::ApparmorUnconfined, dir, None) == userns_fix_words(
            UsernsRestriction::ApparmorUnconfined,
            dir,
            Some("<path to this minimald binary>"@),
        ),
        userns_fix_words(UsernsRestriction::Disabled, dir, Some(exe))
            == "re-enable user namespaces, e.g. sudo sysctl -w user.max_user_namespaces=15000"@,
        userns_fix_words(UsernsRestriction::Unknown, dir, Some(exe))
            == "see the linux-host-setup doc"@,
{
}

/// An error is told with everything that it came from, in that order.
pub proof fn law_a_chain_of_errors_is_told_whole(before: Seq<Seq<char>>, cause: Seq<char>)
    ensures
        chain_words(seq![cause]) == cause,
        before.len() > 0 ==> chain_words(before.push(cause)) == chain_words(before) + ": "@
            + cause,
        key_error_words(cause) == "ssh key: "@ + cause,
{
    text::law_joining_keeps_every_part(before, cause, ": "@);
}

/// What a command line is asked is answered as is said here.
pub proof fn law_a_command_line_is_read_as_stated(
    cli: &Cli,
    usual: &str,
    state: String,
    cache: String,
    args: Option<&ListenArgs>,
    number: u32,
    dir: String,
    socket: String,
    n: u32,
    name: String,
    error: &str,
    told: MainError,
    errors: &Vec<String>,
    line: String,
)
    requires
        call_ensures(Cli::minimal_state_dir, (cli, usual), state),
        call_ensures(Cli::minimal_cache_dir, (cli, usual), cache),
        call_ensures(Cli::listen_args, (cli,), args),
        call_ensures(Cli::instance_num, (cli,), number),
        call_ensures(Cli::client_instance_dir, (cli, usual), dir),
        call_ensures(Cli::listen_on, (cli, usual), socket),
        call_ensures(provider_instance_name, (n,), name),
        call_ensures(MainError::from_key_error, (error,), told),
        call_ensures(error_chain, (errors,), line),
    ensures
        state@ == cli.state_dir(usual@),
        cache@ == cli.cache_dir(usual@),
        args is Some <==> cli.command is Run,
        args is Some ==> *args->0 == cli.command->Run_0,
        number == cli.number(),
        dir@ == instance_dir(cli.state_dir(usual@), cli.number() as nat),
        socket@ == paths::joined_path(dir@, "ssh.sock"@),
        name@ == "local-minimald"@ + text::decimal_text(n as nat),
        told is Other && told->Other_0@ == "ssh key: "@ + error@,
        line@ == text::joined(text::texts(errors@), ": "@),
{
}

/// A process is taken for the init of a microVM, and a restriction answered, as
/// is said here.
pub proof fn law_a_host_is_judged_as_stated(
    pid: u32,
    argv0: Option<&[u8]>,
    init: bool,
    restriction: UsernsRestriction,
    dir: &str,
    exe: Option<String>,
    words: String,
)
    requires
        call_ensures(is_microvm_init, (pid, argv0), init),
        call_ensures(userns_fix, (restriction, dir, exe), words),
    ensures
        init <==> pid == 1 && argv0 is Some && paths::file_name_of(paths::widened(argv0->0@))
            == Some("init"@),
        words@ == userns_fix_words(restriction, dir@, text::optional(exe)),
{
}

} // verus!
