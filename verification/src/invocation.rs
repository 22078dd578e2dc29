//! How the interpreter's own argument list is read: the mode it selects, the
//! command string it may carry and the positional parameters it binds.

use vstd::prelude::*;

verus! {

/// The way a session was asked to run.
#[derive(Clone, Copy, Debug, PartialEq, Eq, Structural)]
pub enum InvocationMode {
    /// No selector was given: commands are read from standard input.
    Plain,
    /// `-c`: one command string is executed, then the session ends.
    CommandString,
    /// A path was given: commands are read from that file.
    ScriptFile,
    /// `-s`: commands are read from standard input, said explicitly.
    ExplicitStdin,
    /// `-i`: the session is interactive whatever the input stream is.
    ForcedInteractive,
}

/// What the argument list resolved to.
#[derive(Debug)]
pub struct Invocation {
    pub mode: InvocationMode,
    /// The command string, in command-string mode.
    pub command: Option<String>,
    /// The path of the script to read, in script-file mode.
    pub script: Option<String>,
}

/// A failure that ends the process: the exit code and the line to print.
#[derive(Debug)]
pub struct Fatal {
    pub code: i32,
    pub diagnostic: String,
}

/// The text an optional string holds.
pub open spec fn text_of(s: Option<String>) -> Option<Seq<char>> {
    match s {
        Some(s) => Some(s@),
        None => None,
    }
}

/// Whether a token begins with `-` or `+`, as option flags do.
pub open spec fn is_flag(t: Seq<char>) -> bool {
    t.len() > 0 && (t[0] == '-' || t[0] == '+')
}

/// Whether a token begins with `--`, which ends the options.
pub open spec fn ends_options(t: Seq<char>) -> bool {
    t.len() > 1 && t[0] == '-' && t[1] == '-'
}

/// Whether a token is `-` followed by exactly the letter `letter`.
pub open spec fn is_switch(t: Seq<char>, letter: char) -> bool {
    t.len() == 2 && t[0] == '-' && t[1] == letter
}

/// The mode that the first argument after the program name selects.
pub open spec fn selected_mode(selector: Seq<char>) -> InvocationMode {
    if is_switch(selector, 'c') {
        InvocationMode::CommandString
    } else if is_switch(selector, 's') {
        InvocationMode::ExplicitStdin
    } else if is_switch(selector, 'i') {
        InvocationMode::ForcedInteractive
    } else if is_flag(selector) {
        InvocationMode::Plain
    } else {
        InvocationMode::ScriptFile
    }
}

/// Whether the token is a flag.
pub fn flag_token(token: &Vec<char>) -> (b: bool)
    ensures
        b == is_flag(token@),
{
    token.len() > 0 && (token[0] == '-' || token[0] == '+')
}

/// Whether the token ends the options.
pub fn end_of_options_token(token: &Vec<char>) -> (b: bool)
    ensures
        b == ends_options(token@),
{
    token.len() > 1 && token[0] == '-' && token[1] == '-'
}

/// Whether the token is the switch for `letter`.
pub fn switch_token(token: &Vec<char>, letter: char) -> (b: bool)
    ensures
        b == is_switch(token@, letter),
{
    token.len() == 2 && token[0] == '-' && token[1] == letter
}

/// The mode that a selector asks for.
pub fn select_mode(selector: &Vec<char>) -> (mode: InvocationMode)
    ensures
        mode == selected_mode(selector@),
{
    if switch_token(selector, 'c') {
        InvocationMode::CommandString
    } else if switch_token(selector, 's') {
        InvocationMode::ExplicitStdin
    } else if switch_token(selector, 'i') {
        InvocationMode::ForcedInteractive
    } else if flag_token(selector) {
        InvocationMode::Plain
    } else {
        InvocationMode::ScriptFile
    }
}

/// The state of the left-to-right pass over the arguments that follow the
/// selector.
pub struct Scan {
    /// Command-string mode was selected and the command is still to come.
    pub awaiting_command: bool,
    /// The command string, once captured.
    pub command: Option<Seq<char>>,
    /// The next argument renames the program.
    pub name_next: bool,
    /// Flags are no longer recognised.
    pub options_ended: bool,
    /// Parameter 0.
    pub name: Seq<char>,
    /// Parameters 1, 2, ... in order.
    pub positional: Seq<Seq<char>>,
}

/// The pass's state once the program name and the selector are consumed.
pub open spec fn scan_start(program: Seq<char>, selector: Seq<char>) -> Scan {
    Scan {
        awaiting_command: is_switch(selector, 'c'),
        command: None,
        name_next: false,
        options_ended: is_switch(selector, '-'),
        name: program,
        positional: Seq::empty(),
    }
}

/// The effect of one further argument on the pass. The first rule that
/// applies decides: the pending command string is captured; else the
/// program is renamed; else a flag is skipped; else a parameter is bound.
pub open spec fn scan_step(st: Scan, token: Seq<char>) -> Scan {
    if st.awaiting_command {
        Scan { awaiting_command: false, command: Some(token), name_next: true, ..st }
    } else if st.name_next {
        Scan { name_next: false, name: token, ..st }
    } else if is_flag(token) && !st.options_ended {
        Scan { options_ended: ends_options(token), ..st }
    } else {
        Scan { positional: st.positional.push(token), ..st }
    }
}

/// The pass over `rest`, from state `st`.
pub open spec fn scan(st: Scan, rest: Seq<Seq<char>>) -> Scan
    decreases rest.len(),
{
    if rest.len() == 0 {
        st
    } else {
        scan_step(scan(st, rest.drop_last()), rest.last())
    }
}

/// The pass over a whole argument list, which holds at least the program
/// name.
pub open spec fn resolve(args: Seq<Seq<char>>) -> Scan {
    if args.len() < 2 {
        Scan {
            awaiting_command: false,
            command: None,
            name_next: false,
            options_ended: false,
            name: args[0],
            positional: Seq::empty(),
        }
    } else {
        scan(scan_start(args[0], args[1]), args.skip(2))
    }
}

/// The mode an argument list selects.
pub open spec fn mode_of(args: Seq<Seq<char>>) -> InvocationMode {
    if args.len() < 2 {
        InvocationMode::Plain
    } else {
        selected_mode(args[1])
    }
}

/// The script an argument list names, if it names one.
pub open spec fn script_of(args: Seq<Seq<char>>) -> Option<Seq<char>> {
    if mode_of(args) == InvocationMode::ScriptFile {
        Some(args[1])
    } else {
        None
    }
}

/// Whether `-c` was given without a command string after it.
pub open spec fn lacks_command(args: Seq<Seq<char>>) -> bool {
    resolve(args).awaiting_command
}

/// The interactive flag after an argument list was read, given what
/// terminal detection had set it to.
pub open spec fn interactive_after(detected: bool, args: Seq<Seq<char>>) -> bool {
    match mode_of(args) {
        InvocationMode::CommandString => false,
        InvocationMode::ScriptFile => false,
        InvocationMode::ForcedInteractive => true,
        _ => detected,
    }
}

/// The parameter table that binds `name` to index 0 and `positional` to the
/// indices from 1, over whatever `base` held at other indices.
pub open spec fn bind(
    base: Map<u64, Seq<char>>,
    name: Seq<char>,
    positional: Seq<Seq<char>>,
) -> Map<u64, Seq<char>> {
    Map::new(
        |k: u64| base.contains_key(k) || k <= positional.len(),
        |k: u64|
            if k == 0 {
                name
            } else if k <= positional.len() {
                positional[k - 1]
            } else {
                base[k]
            },
    )
}

/// Renaming the program rewrites index 0 of the table and nothing else.
pub proof fn lemma_bind_rename(
    base: Map<u64, Seq<char>>,
    name: Seq<char>,
    positional: Seq<Seq<char>>,
    renamed: Seq<char>,
)
    ensures
        bind(base, name, positional).insert(0, renamed) == bind(base, renamed, positional),
{
    assert(bind(base, name, positional).insert(0, renamed) =~= bind(base, renamed, positional));
}

/// Binding one more parameter writes it at the next free index.
pub proof fn lemma_bind_push(
    base: Map<u64, Seq<char>>,
    name: Seq<char>,
    positional: Seq<Seq<char>>,
    token: Seq<char>,
)
    requires
        positional.len() < u64::MAX,
    ensures
        bind(base, name, positional).insert((positional.len() + 1) as u64, token) == bind(
            base,
            name,
            positional.push(token),
        ),
{
    assert(bind(base, name, positional).insert((positional.len() + 1) as u64, token) =~= bind(
        base,
        name,
        positional.push(token),
    ));
}

/// The usage line for a `-c` that lacks its argument.
pub open spec fn usage_text() -> Seq<char> {
    "rash: -c: option requires an argument"@
}

} // verus!
