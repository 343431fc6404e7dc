//! Descriptions of the processes the fuzzer starts: the SymQEMU and SymCC
//! tracing children and the SymQEMU fork server. Whoever runs them only
//! spawns what is described here.

use vstd::prelude::*;
use vstd::string::StringExecFns;

verus! {

/// Environment variable through which the shared memory region for the
/// concolic trace is handed to the runtime.
pub open spec fn default_env_name() -> Seq<char> {
    "SHARED_MEMORY_MESSAGES"@
}

/// Environment variable that names the file whose content is the symbolic
/// input.
pub open spec fn symcc_input_file_var() -> Seq<char> {
    "SYMCC_INPUT_FILE"@
}

/// The file that holds the current input.
pub open spec fn cur_input_file() -> Seq<char> {
    "cur_input"@
}

/// What happens to a process's standard streams.
#[derive(Clone, Copy, Debug, PartialEq, Eq, Structural)]
pub enum OutputMode {
    /// Standard input, output and error are all connected to the null device.
    Null,
    /// Output and error are captured and the caller waits for the process.
    Capture,
}

/// A process to start.
pub struct CommandSpec {
    /// The program.
    pub program: String,
    /// Its arguments.
    pub args: Vec<String>,
    /// Working directory, if not the current one.
    pub current_dir: Option<String>,
    /// Environment variables to set, in order.
    pub envs: Vec<(String, String)>,
    /// What happens to the standard streams.
    pub output: OutputMode,
}

/// The abstract content of a [`CommandSpec`].
pub struct CommandView {
    pub program: Seq<char>,
    pub args: Seq<Seq<char>>,
    pub current_dir: Option<Seq<char>>,
    pub envs: Seq<(Seq<char>, Seq<char>)>,
    pub output: OutputMode,
}

impl View for CommandSpec {
    type V = CommandView;

    open spec fn view(&self) -> CommandView {
        CommandView {
            program: self.program@,
            args: self.args@.map_values(|a: String| a@),
            current_dir: match self.current_dir {
                Some(d) => Some(d@),
                None => None,
            },
            envs: self.envs@.map_values(|e: (String, String)| (e.0@, e.1@)),
            output: self.output,
        }
    }
}

/// The environment a tracing child gets: the symbolic input file and the
/// shared memory region named `shmem_env`.
pub open spec fn tracing_envs(shmem_env: Seq<char>) -> Seq<(Seq<char>, Seq<char>)> {
    seq![(symcc_input_file_var(), cur_input_file()), (default_env_name(), shmem_env)]
}

/// A tracing child: `program` with `args`, the tracing environment and all
/// standard streams on the null device.
pub open spec fn tracing_child(program: Seq<char>, args: Seq<Seq<char>>, shmem_env: Seq<char>) -> CommandView {
    CommandView {
        program,
        args,
        current_dir: None,
        envs: tracing_envs(shmem_env),
        output: OutputMode::Null,
    }
}

/// Every tracing child runs `program` with exactly `args` in the current
/// directory, with all standard streams on the null device, and gets two
/// environment variables: `SYMCC_INPUT_FILE=cur_input`, naming the symbolic
/// input file, then `SHARED_MEMORY_MESSAGES=shmem_env`, naming the trace
/// region.
pub proof fn law_tracing_child(program: Seq<char>, args: Seq<Seq<char>>, shmem_env: Seq<char>)
    ensures
        tracing_child(program, args, shmem_env).program == program,
        tracing_child(program, args, shmem_env).args == args,
        tracing_child(program, args, shmem_env).current_dir is None,
        tracing_child(program, args, shmem_env).output == OutputMode::Null,
        tracing_child(program, args, shmem_env).envs.len() == 2,
        tracing_child(program, args, shmem_env).envs[0] == ("SYMCC_INPUT_FILE"@, "cur_input"@),
        tracing_child(program, args, shmem_env).envs[1] == ("SHARED_MEMORY_MESSAGES"@, shmem_env),
{
}

/// A command's view shows its program, each argument and each environment
/// variable in order, its working directory and its stream handling.
pub proof fn law_command_view(c: CommandSpec)
    ensures
        c@.program == c.program@,
        c@.args.len() == c.args@.len(),
        forall|i: int| 0 <= i < c.args@.len() ==> c@.args[i] == c.args@[i]@,
        c@.envs.len() == c.envs@.len(),
        forall|i: int| 0 <= i < c.envs@.len() ==> c@.envs[i] == (c.envs@[i].0@, c.envs@[i].1@),
        c.current_dir is None <==> c@.current_dir is None,
        forall|d: String| c.current_dir == Some(d) ==> c@.current_dir == Some(d@),
        c@.output == c.output,
{
}

/// Builds the tracing environment for `shmem_env`.
fn tracing_env_vec(shmem_env: &str) -> (envs: Vec<(String, String)>)
    ensures
        envs@.map_values(|e: (String, String)| (e.0@, e.1@)) == tracing_envs(shmem_env@),
{
    let mut envs: Vec<(String, String)> = Vec::new();
    envs.push((String::from_str("SYMCC_INPUT_FILE"), String::from_str("cur_input")));
    envs.push((String::from_str("SHARED_MEMORY_MESSAGES"), String::from_str(shmem_env)));
    assert(envs@.map_values(|e: (String, String)| (e.0@, e.1@)) =~= tracing_envs(shmem_env@));
    envs
}

/// A per-execution time limit.
#[derive(Clone, Copy, Debug, PartialEq, Eq, Structural)]
pub struct ExecTimeout {
    /// Whole seconds.
    pub secs: u64,
    /// Additional nanoseconds.
    pub nanos: u32,
}

impl Default for ExecTimeout {
    fn default() -> (t: Self)
        ensures
            t == (ExecTimeout { secs: 0, nanos: 0 }),
    {
        ExecTimeout { secs: 0, nanos: 0 }
    }
}

/// Starts the target under SymQEMU for each traced input.
pub struct MyCommandConfiguratorSymQEMU {
    timeout: ExecTimeout,
}

impl Default for MyCommandConfiguratorSymQEMU {
    fn default() -> (c: Self)
        ensures
            c.timeout_view() == (ExecTimeout { secs: 0, nanos: 0 }),
    {
        MyCommandConfiguratorSymQEMU { timeout: ExecTimeout::default() }
    }
}

impl MyCommandConfiguratorSymQEMU {
    /// The execution time limit.
    pub closed spec fn timeout_view(&self) -> ExecTimeout {
        self.timeout
    }

    /// The child for one traced execution: `./qemu-x86_64` running
    /// `./target_main.out` on the input file, which is also the symbolic
    /// input, with the shared memory region named `shmem_env`.
    pub fn spawn_child_command(&self, shmem_env: &str) -> (cmd: CommandSpec)
        ensures
            cmd@ == tracing_child(
                "./qemu-x86_64"@,
                seq!["./target_main.out"@, cur_input_file()],
                shmem_env@,
            ),
    {
        let mut args: Vec<String> = Vec::new();
        args.push(String::from_str("./target_main.out"));
        args.push(String::from_str("cur_input"));
        let cmd = CommandSpec {
            program: String::from_str("./qemu-x86_64"),
            args,
            current_dir: None,
            envs: tracing_env_vec(shmem_env),
            output: OutputMode::Null,
        };
        assert(cmd@.args =~= seq!["./target_main.out"@, cur_input_file()]);
        cmd
    }

    /// The execution time limit.
    pub fn exec_timeout(&self) -> (t: ExecTimeout)
        ensures
            t == self.timeout_view(),
    {
        self.timeout
    }

    /// The execution time limit, for modification.
    pub fn exec_timeout_mut(&mut self) -> (t: &mut ExecTimeout)
        ensures
            *t == old(self).timeout_view(),
            final(self).timeout_view() == *final(t),
    {
        &mut self.timeout
    }
}

/// Starts the SymCC-instrumented target for each traced input.
pub struct MyCommandConfiguratorSymCC {
    timeout: ExecTimeout,
}

impl Default for MyCommandConfiguratorSymCC {
    fn default() -> (c: Self)
        ensures
            c.timeout_view() == (ExecTimeout { secs: 0, nanos: 0 }),
    {
        MyCommandConfiguratorSymCC { timeout: ExecTimeout::default() }
    }
}

impl MyCommandConfiguratorSymCC {
    /// The execution time limit.
    pub closed spec fn timeout_view(&self) -> ExecTimeout {
        self.timeout
    }

    /// The child for one traced execution: `./target_symcc.out` on the
    /// input file, which is also the symbolic input, with the shared memory
    /// region named `shmem_env`.
    pub fn spawn_child_command(&self, shmem_env: &str) -> (cmd: CommandSpec)
        ensures
            cmd@ == tracing_child("./target_symcc.out"@, seq![cur_input_file()], shmem_env@),
    {
        let mut args: Vec<String> = Vec::new();
        args.push(String::from_str("cur_input"));
        let cmd = CommandSpec {
            program: String::from_str("./target_symcc.out"),
            args,
            current_dir: None,
            envs: tracing_env_vec(shmem_env),
            output: OutputMode::Null,
        };
        assert(cmd@.args =~= seq![cur_input_file()]);
        cmd
    }

    /// The execution time limit.
    pub fn exec_timeout(&self) -> (t: ExecTimeout)
        ensures
            t == self.timeout_view(),
    {
        self.timeout
    }

    /// The execution time limit, for modification.
    pub fn exec_timeout_mut(&mut self) -> (t: &mut ExecTimeout)
        ensures
            *t == old(self).timeout_view(),
            final(self).timeout_view() == *final(t),
    {
        &mut self.timeout
    }
}

/// The SymQEMU fork server: `./qemu-x86_64` running
/// `./target_forkserver.out`, which reads the input file before each
/// execution, with the shared memory region named `shmem_env`.
pub fn fork_server_command(shmem_env: &str) -> (cmd: CommandSpec)
    ensures
        cmd@ == tracing_child("./qemu-x86_64"@, seq!["./target_forkserver.out"@], shmem_env@),
{
    let mut args: Vec<String> = Vec::new();
    args.push(String::from_str("./target_forkserver.out"));
    let cmd = CommandSpec {
        program: String::from_str("./qemu-x86_64"),
        args,
        current_dir: None,
        envs: tracing_env_vec(shmem_env),
        output: OutputMode::Null,
    };
    assert(cmd@.args =~= seq!["./target_forkserver.out"@]);
    cmd
}

} // verus!
