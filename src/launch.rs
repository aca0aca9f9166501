use vstd::prelude::*;

verus! {

/// How the shell is to be launched. The caller hands it to the system: it
/// starts `program` (or the platform's default shell where there is none)
/// with `args`, in `cwd` if given, with the variables of `env` set one after
/// another, so that a later entry overrides an earlier one with the same key.
#[derive(Debug)]
pub struct LaunchPlan {
    pub program: Option<String>,
    pub args: Vec<String>,
    pub cwd: Option<String>,
    pub env: Vec<(String, String)>,
}

impl LaunchPlan {
    /// Arguments go only with an explicit program.
    pub open spec fn wf(&self) -> bool {
        self.program is None ==> self.args@.len() == 0
    }
}

pub open spec fn opt_view(o: Option<String>) -> Option<Seq<char>> {
    match o {
        Some(s) => Some(s@),
        None => None,
    }
}

pub open spec fn strings_view(v: Seq<String>) -> Seq<Seq<char>> {
    v.map_values(|s: String| s@)
}

pub open spec fn pairs_view(v: Seq<(String, String)>) -> Seq<(Seq<char>, Seq<char>)> {
    v.map_values(|p: (String, String)| (p.0@, p.1@))
}

/// The two variables every shell gets: the marker that tells the shell it runs
/// inside the desktop application, and a colour-capable terminal type.
pub open spec fn injected_env() -> Seq<(Seq<char>, Seq<char>)> {
    seq![("ATUIN_DESKTOP_PTY"@, "true"@), ("TERM"@, "xterm-256color"@)]
}

/// The environment that results from setting the variables of `s` in order.
pub open spec fn env_map(s: Seq<(Seq<char>, Seq<char>)>) -> Map<Seq<char>, Seq<char>>
    decreases s.len(),
{
    if s.len() == 0 {
        Map::empty()
    } else {
        env_map(s.drop_last()).insert(s.last().0, s.last().1)
    }
}

/// Whether a shell path was given that is not empty.
pub open spec fn names_shell(shell: Option<String>) -> bool {
    shell is Some && shell->Some_0@.len() > 0
}

#[verifier::external_type_specification]
#[verifier::external_body]
pub struct ExCommandBuilder(portable_pty::CommandBuilder);

/// The command line a builder holds: the program, then its arguments.
pub uninterp spec fn command_argv(c: portable_pty::CommandBuilder) -> Seq<Seq<char>>;

/// The working directory a builder holds, if one was set.
pub uninterp spec fn command_cwd(c: portable_pty::CommandBuilder) -> Option<Seq<char>>;

/// What a builder answers when asked for the value of each variable.
pub uninterp spec fn command_env(c: portable_pty::CommandBuilder) -> Map<Seq<char>, Seq<char>>;

/// Relies on `CommandBuilder::new`: the command line is the program alone, and
/// no working directory is set.
#[verifier::external_body]
fn command_for(program: &str) -> (r: portable_pty::CommandBuilder)
    ensures
        command_argv(r) == seq![program@],
        command_cwd(r) == None::<Seq<char>>,
{
    portable_pty::CommandBuilder::new(program)
}

/// Relies on `CommandBuilder::new_default_prog`: an empty command line, which
/// stands for the platform's default shell, and no working directory.
#[verifier::external_body]
fn command_for_default_shell() -> (r: portable_pty::CommandBuilder)
    ensures
        command_argv(r).len() == 0,
        command_cwd(r) == None::<Seq<char>>,
{
    portable_pty::CommandBuilder::new_default_prog()
}

/// Relies on `CommandBuilder::arg`: appends one argument. It panics on a
/// builder for the default shell, whose command line is empty.
#[verifier::external_body]
fn command_add_arg(c: &mut portable_pty::CommandBuilder, arg: &str)
    requires
        command_argv(*old(c)).len() > 0,
    ensures
        command_argv(*final(c)) == command_argv(*old(c)).push(arg@),
        command_cwd(*final(c)) == command_cwd(*old(c)),
{
    c.arg(arg)
}

/// Relies on `CommandBuilder::cwd`: sets the working directory.
#[verifier::external_body]
fn command_set_cwd(c: &mut portable_pty::CommandBuilder, dir: &str)
    ensures
        command_argv(*final(c)) == command_argv(*old(c)),
        command_cwd(*final(c)) == Some(dir@),
{
    c.cwd(dir)
}

/// Relies on `CommandBuilder::env`: sets a variable, so that asking for it
/// gives the new value.
#[verifier::external_body]
fn command_set_env(c: &mut portable_pty::CommandBuilder, key: &str, value: &str)
    ensures
        command_argv(*final(c)) == command_argv(*old(c)),
        command_cwd(*final(c)) == command_cwd(*old(c)),
        command_env(*final(c)).contains_key(key@),
        command_env(*final(c))[key@] == value@,
{
    c.env(key, value)
}

/// Builds the command that launches the planned shell: its command line and
/// working directory are the plan's, and the plan's variables are set in
/// order, the last one being set to its value.
pub fn build_command(plan: &LaunchPlan) -> (r: portable_pty::CommandBuilder)
    requires
        plan.wf(),
    ensures
        plan.program is Some ==> command_argv(r) == seq![plan.program->Some_0@] + strings_view(
            plan.args@,
        ),
        plan.program is None ==> command_argv(r).len() == 0,
        command_cwd(r) == opt_view(plan.cwd),
        plan.env@.len() > 0 ==> command_env(r).contains_key(plan.env@.last().0@)
            && command_env(r)[plan.env@.last().0@] == plan.env@.last().1@,
{
    let mut cmd = match &plan.program {
        Some(program) => command_for(program.as_str()),
        None => command_for_default_shell(),
    };
    let mut i: usize = 0;
    while i < plan.args.len()
        invariant
            i <= plan.args@.len(),
            plan.wf(),
            plan.program is None ==> command_argv(cmd).len() == 0,
            plan.program is Some ==> command_argv(cmd) == seq![plan.program->Some_0@]
                + strings_view(plan.args@.subrange(0, i as int)),
            command_cwd(cmd) == None::<Seq<char>>,
        decreases plan.args@.len() - i,
    {
        command_add_arg(&mut cmd, plan.args[i].as_str());
        proof {
            assert(strings_view(plan.args@.subrange(0, i as int + 1)) =~= strings_view(
                plan.args@.subrange(0, i as int),
            ).push(plan.args@[i as int]@));
        }
        i = i + 1;
    }
    assert(plan.args@.subrange(0, plan.args@.len() as int) =~= plan.args@);
    match &plan.cwd {
        Some(dir) => command_set_cwd(&mut cmd, dir.as_str()),
        None => {},
    }
    let mut j: usize = 0;
    while j < plan.env.len()
        invariant
            j <= plan.env@.len(),
            plan.program is None ==> command_argv(cmd).len() == 0,
            plan.program is Some ==> command_argv(cmd) == seq![plan.program->Some_0@]
                + strings_view(plan.args@),
            command_cwd(cmd) == opt_view(plan.cwd),
            j > 0 ==> command_env(cmd).contains_key(plan.env@[j - 1].0@) && command_env(cmd)[plan.env@[j - 1].0@]
                == plan.env@[j - 1].1@,
        decreases plan.env@.len() - j,
    {
        command_set_env(&mut cmd, plan.env[j].0.as_str(), plan.env[j].1.as_str());
        j = j + 1;
    }
    cmd
}

/// Plans the launch of a shell: the given shell in interactive mode where a
/// non-empty path is given, else the platform's default shell; the two
/// injected variables first and the caller's entries after them.
pub fn launch_plan(cwd: Option<String>, env: &Vec<(String, String)>, shell: Option<String>) -> (r:
    LaunchPlan)
    ensures
        names_shell(shell) ==> opt_view(r.program) == opt_view(shell) && strings_view(r.args@)
            == seq!["-i"@],
        !names_shell(shell) ==> r.program is None && r.args@.len() == 0,
        opt_view(r.cwd) == opt_view(cwd),
        pairs_view(r.env@) == injected_env() + pairs_view(env@),
        r.wf(),
{
    let mut args: Vec<String> = Vec::new();
    let program = match shell {
        Some(path) => {
            if path.as_str().is_empty() {
                None
            } else {
                args.push("-i".to_owned());
                Some(path)
            }
        },
        None => None,
    };
    let mut out: Vec<(String, String)> = Vec::new();
    out.push(("ATUIN_DESKTOP_PTY".to_owned(), "true".to_owned()));
    out.push(("TERM".to_owned(), "xterm-256color".to_owned()));
    let mut i: usize = 0;
    while i < env.len()
        invariant
            i <= env@.len(),
            pairs_view(out@) == injected_env() + pairs_view(env@.subrange(0, i as int)),
        decreases env@.len() - i,
    {
        let key = env[i].0.clone();
        let value = env[i].1.clone();
        let ghost before = out@;
        out.push((key, value));
        proof {
            assert(out@ == before.push((key, value)));
            assert(pairs_view(out@) =~= pairs_view(before).push((env@[i as int].0@, env@[i as int].1@)));
            assert(pairs_view(env@.subrange(0, i as int + 1)) =~= pairs_view(
                env@.subrange(0, i as int),
            ).push((env@[i as int].0@, env@[i as int].1@)));
            assert(pairs_view(out@) =~= injected_env() + pairs_view(env@.subrange(0, i as int + 1)));
        }
        i = i + 1;
    }
    assert(env@.subrange(0, env@.len() as int) =~= env@);
    assert(strings_view(args@) =~= seq!["-i"@] || args@.len() == 0);
    LaunchPlan { program, args, cwd, env: out }
}

proof fn lemma_env_map_concat(a: Seq<(Seq<char>, Seq<char>)>, b: Seq<(Seq<char>, Seq<char>)>)
    ensures
        env_map(a + b) == env_map(a).union_prefer_right(env_map(b)),
    decreases b.len(),
{
    if b.len() == 0 {
        assert(a + b =~= a);
        assert(env_map(a).union_prefer_right(env_map(b)) =~= env_map(a));
    } else {
        lemma_env_map_concat(a, b.drop_last());
        assert((a + b).drop_last() =~= a + b.drop_last());
        assert((a + b).last() == b.last());
        assert(env_map(a + b) =~= env_map(a).union_prefer_right(env_map(b)));
    }
}

/// The caller's variables take precedence: the environment a planned shell
/// gets is the injected one, with every key the caller sets holding the
/// caller's value (the caller's last entry, where a key repeats).
pub proof fn lemma_caller_env_wins(env: Vec<(String, String)>, plan: LaunchPlan)
    requires
        pairs_view(plan.env@) == injected_env() + pairs_view(env@),
    ensures
        env_map(pairs_view(plan.env@)) == env_map(injected_env()).union_prefer_right(
            env_map(pairs_view(env@)),
        ),
        forall|k: Seq<char>|
            env_map(pairs_view(env@)).contains_key(k) ==> #[trigger] env_map(
                pairs_view(plan.env@),
            )[k] == env_map(pairs_view(env@))[k],
{
    lemma_env_map_concat(injected_env(), pairs_view(env@));
}

} // verus!
