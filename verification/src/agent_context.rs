//! The context that a request carries: working directory, executed commands, shell and
//! operating system.
//!
//! A request for a remote endpoint carries nothing of the local shell and operating
//! system. Directory and executed commands stay, for the endpoint needs them.
use crate::text;
use crate::text::copy_or_empty;
use vstd::prelude::*;
use vstd::string::*;

verus! {

/// The operating system, as far as it is known.
#[derive(Debug, Clone, PartialEq, Eq)]
pub struct WarpAiOsContext {
    pub category: Option<String>,
    pub distribution: Option<String>,
}

/// Shell and operating system of the local machine.
#[derive(Debug, Clone, PartialEq, Eq)]
pub struct WarpAiExecutionContext {
    pub os: WarpAiOsContext,
    pub shell_name: String,
    pub shell_version: Option<String>,
}

/// A command that was run, with its output.
#[derive(Debug, Clone, PartialEq, Eq)]
pub struct BlockContext {
    pub command: String,
    pub output: String,
    pub exit_code: i32,
}

/// A piece of context.
#[derive(Debug, Clone, PartialEq, Eq)]
pub enum AIAgentContext {
    Directory { pwd: Option<String>, home_dir: Option<String>, are_file_symbols_indexed: bool },
    Block(BlockContext),
    ExecutionEnvironment(WarpAiExecutionContext),
}

/// The working directory, as a request carries it.
#[derive(Debug, Clone, PartialEq, Eq)]
pub struct DirectoryContext {
    pub pwd: String,
    pub home: String,
    pub pwd_file_symbols_indexed: bool,
}

/// The texts of a [`DirectoryContext`].
#[verifier::ext_equal]
pub struct DirectoryView {
    pub pwd: Seq<char>,
    pub home: Seq<char>,
    pub pwd_file_symbols_indexed: bool,
}

/// An executed command, as a request carries it.
#[derive(Debug, Clone, PartialEq, Eq)]
pub struct ExecutedShellCommand {
    pub command: String,
    pub output: String,
    pub exit_code: i32,
}

/// The texts of an [`ExecutedShellCommand`].
#[verifier::ext_equal]
pub struct CommandView {
    pub command: Seq<char>,
    pub output: Seq<char>,
    pub exit_code: i32,
}

/// The shell, as a request carries it.
#[derive(Debug, Clone, PartialEq, Eq)]
pub struct ShellContext {
    pub name: String,
    pub version: String,
}

/// The texts of a [`ShellContext`].
#[verifier::ext_equal]
pub struct ShellView {
    pub name: Seq<char>,
    pub version: Seq<char>,
}

/// The operating system, as a request carries it.
#[derive(Debug, Clone, PartialEq, Eq)]
pub struct OperatingSystemContext {
    pub platform: String,
    pub distribution: String,
}

/// The texts of an [`OperatingSystemContext`].
#[verifier::ext_equal]
pub struct OsView {
    pub platform: Seq<char>,
    pub distribution: Seq<char>,
}

/// The context of a request.
#[derive(Debug, Clone, PartialEq, Eq)]
pub struct InputContext {
    pub directory: Option<DirectoryContext>,
    pub executed_shell_commands: Vec<ExecutedShellCommand>,
    pub shell: Option<ShellContext>,
    pub operating_system: Option<OperatingSystemContext>,
}

/// The texts of an [`InputContext`].
#[verifier::ext_equal]
pub struct ContextView {
    pub directory: Option<DirectoryView>,
    pub executed_shell_commands: Seq<CommandView>,
    pub shell: Option<ShellView>,
    pub operating_system: Option<OsView>,
}

/// The texts of a list of commands.
pub open spec fn command_views(v: Seq<ExecutedShellCommand>) -> Seq<CommandView> {
    v.map_values(
        |c: ExecutedShellCommand|
            CommandView { command: c.command@, output: c.output@, exit_code: c.exit_code },
    )
}

impl View for InputContext {
    type V = ContextView;

    open spec fn view(&self) -> ContextView {
        ContextView {
            directory: match self.directory {
                Some(d) => Some(
                    DirectoryView {
                        pwd: d.pwd@,
                        home: d.home@,
                        pwd_file_symbols_indexed: d.pwd_file_symbols_indexed,
                    },
                ),
                None => None,
            },
            executed_shell_commands: command_views(self.executed_shell_commands@),
            shell: match self.shell {
                Some(s) => Some(ShellView { name: s.name@, version: s.version@ }),
                None => None,
            },
            operating_system: match self.operating_system {
                Some(os) => Some(OsView { platform: os.platform@, distribution: os.distribution@ }),
                None => None,
            },
        }
    }
}

impl ContextView {
    /// The context of a request that has none.
    pub open spec fn empty() -> ContextView {
        ContextView {
            directory: None,
            executed_shell_commands: seq![],
            shell: None,
            operating_system: None,
        }
    }

    /// The context with one more piece. Commands add up; of everything else the last
    /// piece counts. Shell and operating system are left out where `is_remote` holds.
    pub open spec fn with(self, piece: AIAgentContext, is_remote: bool) -> ContextView {
        match piece {
            AIAgentContext::Directory { pwd, home_dir, are_file_symbols_indexed } => ContextView {
                directory: Some(
                    DirectoryView {
                        pwd: text::or_empty(pwd),
                        home: text::or_empty(home_dir),
                        pwd_file_symbols_indexed: are_file_symbols_indexed,
                    },
                ),
                ..self
            },
            AIAgentContext::Block(block) => ContextView {
                executed_shell_commands: self.executed_shell_commands.push(
                    CommandView {
                        command: block.command@,
                        output: block.output@,
                        exit_code: block.exit_code,
                    },
                ),
                ..self
            },
            AIAgentContext::ExecutionEnvironment(env) => if is_remote {
                self
            } else {
                ContextView {
                    shell: Some(
                        ShellView {
                            name: env.shell_name@,
                            version: text::or_empty(env.shell_version),
                        },
                    ),
                    operating_system: Some(
                        OsView {
                            platform: text::or_empty(env.os.category),
                            distribution: text::or_empty(env.os.distribution),
                        },
                    ),
                    ..self
                }
            },
        }
    }
}

/// The context that pieces make, in order.
pub open spec fn context_of(pieces: Seq<AIAgentContext>, is_remote: bool) -> ContextView
    decreases pieces.len(),
{
    if pieces.len() == 0 {
        ContextView::empty()
    } else {
        context_of(pieces.drop_last(), is_remote).with(pieces.last(), is_remote)
    }
}

/// Gathers pieces of context for a request. Where `is_remote` holds, shell and operating
/// system are left out.
pub fn convert_context(context: &[AIAgentContext], is_remote: bool) -> (r: InputContext)
    ensures
        r@ == context_of(context@, is_remote),
{
    let mut out = InputContext {
        directory: None,
        executed_shell_commands: Vec::new(),
        shell: None,
        operating_system: None,
    };
    let n: usize = context.len();
    assert(context@.take(0) =~= seq![]);
    assert(out@ =~= ContextView::empty());
    for i in 0..n
        invariant
            n == context@.len(),
            out@ == context_of(context@.take(i as int), is_remote),
    {
        let ghost before = out@;
        assert(context@.take(i + 1).drop_last() =~= context@.take(i as int));
        assert(context@.take(i + 1).last() == context@[i as int]);
        match &context[i] {
            AIAgentContext::Directory { pwd, home_dir, are_file_symbols_indexed } => {
                out.directory = Some(
                    DirectoryContext {
                        pwd: copy_or_empty(pwd),
                        home: copy_or_empty(home_dir),
                        pwd_file_symbols_indexed: *are_file_symbols_indexed,
                    },
                );
            },
            AIAgentContext::Block(block) => {
                out.executed_shell_commands.push(
                    ExecutedShellCommand {
                        command: block.command.clone(),
                        output: block.output.clone(),
                        exit_code: block.exit_code,
                    },
                );
            },
            AIAgentContext::ExecutionEnvironment(env) => {
                if !is_remote {
                    out.shell = Some(
                        ShellContext {
                            name: env.shell_name.clone(),
                            version: copy_or_empty(&env.shell_version),
                        },
                    );
                    out.operating_system = Some(
                        OperatingSystemContext {
                            platform: copy_or_empty(&env.os.category),
                            distribution: copy_or_empty(&env.os.distribution),
                        },
                    );
                }
            },
        }
        assert(out@ =~= before.with(context@[i as int], is_remote));
    }
    assert(context@.take(n as int) =~= context@);
    out
}

/// The context of a remote request names neither shell nor operating system; directory
/// and executed commands are the same as in a local request.
pub proof fn law_remote_context_hides_the_local_machine(pieces: Seq<AIAgentContext>)
    ensures
        context_of(pieces, true).shell is None,
        context_of(pieces, true).operating_system is None,
        context_of(pieces, true).directory == context_of(pieces, false).directory,
        context_of(pieces, true).executed_shell_commands == context_of(
            pieces,
            false,
        ).executed_shell_commands,
    decreases pieces.len(),
{
    if pieces.len() > 0 {
        law_remote_context_hides_the_local_machine(pieces.drop_last());
    }
}

/// What the local machine is has no influence on a remote context: a piece about it may
/// as well not be there.
pub proof fn law_remote_context_ignores_the_local_machine(
    before: Seq<AIAgentContext>,
    env: WarpAiExecutionContext,
    after: Seq<AIAgentContext>,
)
    ensures
        context_of(before.push(AIAgentContext::ExecutionEnvironment(env)) + after, true)
            == context_of(before + after, true),
    decreases after.len(),
{
    let with_env = before.push(AIAgentContext::ExecutionEnvironment(env));
    if after.len() == 0 {
        assert(with_env + after =~= with_env);
        assert(before + after =~= before);
        assert(with_env.drop_last() =~= before);
    } else {
        law_remote_context_ignores_the_local_machine(before, env, after.drop_last());
        assert((with_env + after).drop_last() =~= with_env + after.drop_last());
        assert((before + after).drop_last() =~= before + after.drop_last());
    }
}

/// A piece of context changes only what it is about: a directory replaces the directory, a
/// command comes after the commands before it, and the machine, in a local request, replaces
/// shell and operating system together. All texts stay as they are.
pub proof fn law_each_piece_changes_its_own_part(
    pieces: Seq<AIAgentContext>,
    piece: AIAgentContext,
    is_remote: bool,
)
    ensures
        ({
            let before = context_of(pieces, is_remote);
            let after = context_of(pieces.push(piece), is_remote);
            match piece {
                AIAgentContext::Directory { pwd, home_dir, are_file_symbols_indexed } => {
                    &&& after.directory is Some
                    &&& after.directory->0.pwd == text::or_empty(pwd)
                    &&& after.directory->0.home == text::or_empty(home_dir)
                    &&& after.directory->0.pwd_file_symbols_indexed == are_file_symbols_indexed
                    &&& after.executed_shell_commands == before.executed_shell_commands
                    &&& after.shell == before.shell
                    &&& after.operating_system == before.operating_system
                },
                AIAgentContext::Block(block) => {
                    let n = before.executed_shell_commands.len();
                    &&& after.executed_shell_commands.len() == n + 1
                    &&& after.executed_shell_commands.take(n as int)
                        == before.executed_shell_commands
                    &&& after.executed_shell_commands.last().command == block.command@
                    &&& after.executed_shell_commands.last().output == block.output@
                    &&& after.executed_shell_commands.last().exit_code == block.exit_code
                    &&& after.directory == before.directory
                    &&& after.shell == before.shell
                    &&& after.operating_system == before.operating_system
                },
                AIAgentContext::ExecutionEnvironment(env) => {
                    &&& is_remote ==> after == before
                    &&& !is_remote ==> {
                        &&& after.shell is Some
                        &&& after.shell->0.name == env.shell_name@
                        &&& after.shell->0.version == text::or_empty(env.shell_version)
                        &&& after.operating_system is Some
                        &&& after.operating_system->0.platform == text::or_empty(env.os.category)
                        &&& after.operating_system->0.distribution == text::or_empty(
                            env.os.distribution,
                        )
                        &&& after.directory == before.directory
                        &&& after.executed_shell_commands == before.executed_shell_commands
                    }
                },
            }
        }),
{
    assert(pieces.push(piece).drop_last() =~= pieces);
    let n = context_of(pieces, is_remote).executed_shell_commands.len() as int;
    if piece is Block {
        assert(context_of(pieces.push(piece), is_remote).executed_shell_commands.take(n)
            =~= context_of(pieces, is_remote).executed_shell_commands);
    }
}

/// Without pieces there is no context.
pub proof fn law_no_pieces_no_context(is_remote: bool)
    ensures
        context_of(seq![], is_remote).directory is None,
        context_of(seq![], is_remote).executed_shell_commands.len() == 0,
        context_of(seq![], is_remote).shell is None,
        context_of(seq![], is_remote).operating_system is None,
{
}

/// A context is seen as it is, field by field.
pub proof fn law_context_is_seen_as_it_is(context: InputContext, i: int)
    ensures
        context@.directory is Some <==> context.directory is Some,
        context.directory matches Some(d) ==> {
            &&& context@.directory->0.pwd == d.pwd@
            &&& context@.directory->0.home == d.home@
            &&& context@.directory->0.pwd_file_symbols_indexed == d.pwd_file_symbols_indexed
        },
        context@.executed_shell_commands.len() == context.executed_shell_commands@.len(),
        0 <= i < context.executed_shell_commands@.len() ==> {
            let c = context.executed_shell_commands@[i];
            &&& context@.executed_shell_commands[i].command == c.command@
            &&& context@.executed_shell_commands[i].output == c.output@
            &&& context@.executed_shell_commands[i].exit_code == c.exit_code
        },
        context@.shell is Some <==> context.shell is Some,
        context.shell matches Some(s) ==> context@.shell->0.name == s.name@
            && context@.shell->0.version == s.version@,
        context@.operating_system is Some <==> context.operating_system is Some,
        context.operating_system matches Some(os) ==> context@.operating_system->0.platform
            == os.platform@ && context@.operating_system->0.distribution == os.distribution@,
{
}

} // verus!
