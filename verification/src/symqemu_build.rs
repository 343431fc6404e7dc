//! Fetching and building SymQEMU, as the sequence of commands that does it.

use vstd::prelude::*;
use vstd::string::{StrSliceExecFns, StringExecFns};

use crate::command::{CommandSpec, CommandView, OutputMode};

verus! {

/// The URL of the SymQEMU fork with rust backend support.
pub const SYMQEMU_REPO_URL: &'static str = "https://github.com/ruben-hutter/symqemu.git";

/// The branch of the SymQEMU fork to use.
pub const SYMQEMU_REPO_BRANCH: &'static str = "master";

/// A captured-output command.
pub open spec fn captured(program: Seq<char>, args: Seq<Seq<char>>, current_dir: Option<Seq<char>>) -> CommandView {
    CommandView { program, args, current_dir, envs: Seq::empty(), output: OutputMode::Capture }
}

/// The commands that clone `url` at `branch` into `path`, then fetch the
/// runtime submodule the build needs.
pub open spec fn clone_steps(path: Seq<char>, url: Seq<char>, branch: Seq<char>) -> Seq<CommandView> {
    seq![
        captured("git"@, seq!["clone"@, "--branch"@, branch, url, path], None),
        captured(
            "git"@,
            seq!["submodule"@, "update"@, "--init"@, "--depth"@, "1"@, "subprojects/symcc-rt"@],
            Some(path),
        ),
    ]
}

/// `path` with the relative component `component` appended, joined by a
/// `/` unless `path` is empty or already ends in one.
pub open spec fn path_join(path: Seq<char>, component: Seq<char>) -> Seq<char> {
    if path.len() == 0 {
        component
    } else if path.last() == '/' {
        path + component
    } else {
        path + seq!['/'] + component
    }
}

/// The commands that build SymQEMU in `path`: configure the build
/// directory `path/build` for the rust backend (setting it up first if it
/// does not exist yet), then build it with ninja.
pub open spec fn build_steps(path: Seq<char>, build_dir_exists: bool) -> Seq<CommandView> {
    let build_dir = path_join(path, "build"@);
    seq![
        captured(
            "meson"@,
            seq![if build_dir_exists { "configure"@ } else { "setup"@ }, build_dir, "-Dsymcc_rt_backend=rust"@],
            Some(path),
        ),
        captured("ninja"@, seq!["-C"@, build_dir], Some(path)),
    ]
}

/// The views of a list of commands.
pub open spec fn views(cmds: Seq<CommandSpec>) -> Seq<CommandView> {
    cmds.map_values(|c: CommandSpec| c@)
}

/// Joining keeps `path` in front and `component` at the end, with exactly
/// one `/` between them when `path` is non-empty.
pub proof fn law_path_join(path: Seq<char>, component: Seq<char>)
    ensures
        path.len() == 0 ==> path_join(path, component) == component,
        path.len() > 0 ==> path_join(path, component).len() == path.len() + component.len()
            + (if path.last() == '/' { 0int } else { 1int }),
        path.len() > 0 ==> path_join(path, component).take(path.len() as int) == path,
        path_join(path, component).skip(path_join(path, component).len() - component.len()) == component,
        path.len() > 0 ==> path_join(path, component)[path_join(path, component).len() - component.len() - 1] == '/',
{
    let j = path_join(path, component);
    if path.len() > 0 {
        assert(j.take(path.len() as int) =~= path);
    }
    assert(j.skip(j.len() - component.len()) =~= component);
}

/// Building is always two steps, both run in `path` with captured output
/// and no extra environment: meson, which sets up the build directory
/// `path/build` if it does not exist yet and reconfigures it otherwise, for
/// the rust backend; then `ninja -C path/build`, whether or not the
/// directory existed.
pub proof fn law_build_steps(path: Seq<char>, build_dir_exists: bool)
    ensures
        build_steps(path, build_dir_exists).len() == 2,
        build_steps(path, build_dir_exists)[0].program == "meson"@,
        build_steps(path, build_dir_exists)[0].args == seq![
            if build_dir_exists { "configure"@ } else { "setup"@ },
            path_join(path, "build"@),
            "-Dsymcc_rt_backend=rust"@,
        ],
        build_steps(path, build_dir_exists)[1].program == "ninja"@,
        build_steps(path, build_dir_exists)[1].args == seq!["-C"@, path_join(path, "build"@)],
        forall|i: int| 0 <= i < 2 ==> {
            &&& build_steps(path, build_dir_exists)[i].current_dir == Some(path)
            &&& build_steps(path, build_dir_exists)[i].envs.len() == 0
            &&& build_steps(path, build_dir_exists)[i].output == OutputMode::Capture
        },
        build_steps(path, true)[1] == build_steps(path, false)[1],
{
}

/// Cloning is two git commands with captured output and no extra
/// environment: `git clone --branch branch url path` in the current
/// directory, then, inside `path`, a shallow initialisation of the
/// `subprojects/symcc-rt` submodule only.
pub proof fn law_clone_steps(path: Seq<char>, url: Seq<char>, branch: Seq<char>)
    ensures
        clone_steps(path, url, branch).len() == 2,
        clone_steps(path, url, branch)[0].program == "git"@,
        clone_steps(path, url, branch)[0].args == seq!["clone"@, "--branch"@, branch, url, path],
        clone_steps(path, url, branch)[0].current_dir is None,
        clone_steps(path, url, branch)[1].program == "git"@,
        clone_steps(path, url, branch)[1].args
            == seq!["submodule"@, "update"@, "--init"@, "--depth"@, "1"@, "subprojects/symcc-rt"@],
        clone_steps(path, url, branch)[1].current_dir == Some(path),
        forall|i: int| 0 <= i < 2 ==> {
            &&& clone_steps(path, url, branch)[i].envs.len() == 0
            &&& clone_steps(path, url, branch)[i].output == OutputMode::Capture
        },
{
}

/// The views of a list of commands are the commands' views, one for one,
/// in order.
pub proof fn law_views(cmds: Seq<CommandSpec>)
    ensures
        views(cmds).len() == cmds.len(),
        forall|i: int| 0 <= i < cmds.len() ==> views(cmds)[i] == cmds[i]@,
{
}

/// How to build SymQEMU: the build directory and the commands.
pub struct BuildPlan {
    /// The directory holding the build artifacts.
    pub build_dir: String,
    /// The commands, in order.
    pub steps: Vec<CommandSpec>,
}


/// The commands that clone the SymQEMU repository `url` at `branch` into
/// `path` and initialise the runtime submodule.
pub fn clone_symqemu_at_version(path: &str, url: &str, branch: &str) -> (steps: Vec<CommandSpec>)
    ensures
        views(steps@) == clone_steps(path@, url@, branch@),
{
    let mut clone_args: Vec<String> = Vec::new();
    clone_args.push(String::from_str("clone"));
    clone_args.push(String::from_str("--branch"));
    clone_args.push(String::from_str(branch));
    clone_args.push(String::from_str(url));
    clone_args.push(String::from_str(path));
    let clone = CommandSpec {
        program: String::from_str("git"),
        args: clone_args,
        current_dir: None,
        envs: Vec::new(),
        output: OutputMode::Capture,
    };
    let mut sub_args: Vec<String> = Vec::new();
    sub_args.push(String::from_str("submodule"));
    sub_args.push(String::from_str("update"));
    sub_args.push(String::from_str("--init"));
    sub_args.push(String::from_str("--depth"));
    sub_args.push(String::from_str("1"));
    sub_args.push(String::from_str("subprojects/symcc-rt"));
    let submodule = CommandSpec {
        program: String::from_str("git"),
        args: sub_args,
        current_dir: Some(String::from_str(path)),
        envs: Vec::new(),
        output: OutputMode::Capture,
    };
    assert(clone@ == clone_steps(path@, url@, branch@)[0]) by {
        assert(clone@.args =~= seq!["clone"@, "--branch"@, branch@, url@, path@]);
        assert(clone@.envs =~= Seq::<(Seq<char>, Seq<char>)>::empty());
    }
    assert(submodule@ == clone_steps(path@, url@, branch@)[1]) by {
        assert(submodule@.args =~= seq!["submodule"@, "update"@, "--init"@, "--depth"@, "1"@, "subprojects/symcc-rt"@]);
        assert(submodule@.envs =~= Seq::<(Seq<char>, Seq<char>)>::empty());
    }
    let mut steps: Vec<CommandSpec> = Vec::new();
    steps.push(clone);
    steps.push(submodule);
    assert(views(steps@) =~= clone_steps(path@, url@, branch@));
    steps
}

/// The commands that clone the pinned SymQEMU fork into `path`.
pub fn clone_symqemu(path: &str) -> (steps: Vec<CommandSpec>)
    ensures
        views(steps@) == clone_steps(path@, SYMQEMU_REPO_URL@, SYMQEMU_REPO_BRANCH@),
{
    clone_symqemu_at_version(path, SYMQEMU_REPO_URL, SYMQEMU_REPO_BRANCH)
}

/// Appends the relative component `component` to `path`.
pub fn join_path(path: &str, component: &str) -> (joined: String)
    ensures
        joined@ == path_join(path@, component@),
{
    let n = path.unicode_len();
    if n == 0 {
        String::from_str(component)
    } else if path.get_char(n - 1) == '/' {
        String::from_str(path).concat(component)
    } else {
        let joined = String::from_str(path).concat("/").concat(component);
        proof {
            reveal_strlit("/");
        }
        assert(joined@ =~= path@ + seq!['/'] + component@);
        joined
    }
}

/// How to build SymQEMU checked out at `path`, given whether its build
/// directory exists already.
pub fn build_symqemu(path: &str, build_dir_exists: bool) -> (plan: BuildPlan)
    ensures
        plan.build_dir@ == path_join(path@, "build"@),
        views(plan.steps@) == build_steps(path@, build_dir_exists),
{
    let build_dir = join_path(path, "build");
    let mut meson_args: Vec<String> = Vec::new();
    if build_dir_exists {
        meson_args.push(String::from_str("configure"));
    } else {
        meson_args.push(String::from_str("setup"));
    }
    meson_args.push(build_dir.clone());
    meson_args.push(String::from_str("-Dsymcc_rt_backend=rust"));
    let meson = CommandSpec {
        program: String::from_str("meson"),
        args: meson_args,
        current_dir: Some(String::from_str(path)),
        envs: Vec::new(),
        output: OutputMode::Capture,
    };
    let mut ninja_args: Vec<String> = Vec::new();
    ninja_args.push(String::from_str("-C"));
    ninja_args.push(build_dir.clone());
    let ninja = CommandSpec {
        program: String::from_str("ninja"),
        args: ninja_args,
        current_dir: Some(String::from_str(path)),
        envs: Vec::new(),
        output: OutputMode::Capture,
    };
    assert(meson@ == build_steps(path@, build_dir_exists)[0]) by {
        assert(meson@.args =~= seq![
            if build_dir_exists { "configure"@ } else { "setup"@ },
            build_dir@,
            "-Dsymcc_rt_backend=rust"@,
        ]);
        assert(meson@.envs =~= Seq::<(Seq<char>, Seq<char>)>::empty());
    }
    assert(ninja@ == build_steps(path@, build_dir_exists)[1]) by {
        assert(ninja@.args =~= seq!["-C"@, build_dir@]);
        assert(ninja@.envs =~= Seq::<(Seq<char>, Seq<char>)>::empty());
    }
    let mut steps: Vec<CommandSpec> = Vec::new();
    steps.push(meson);
    steps.push(ninja);
    assert(views(steps@) =~= build_steps(path@, build_dir_exists));
    BuildPlan { build_dir, steps }
}

} // verus!
