//! The session: the interpreter's state and the rules that change it.

use std::collections::HashMap;
use vstd::prelude::*;
use vstd::string::StrSliceExecFns;
use vstd::string::StringExecFns;
use crate::dispatch::classify_failure;
use crate::dispatch::command_name;
use crate::dispatch::parse_command;
use crate::dispatch::return_code;
use crate::dispatch::run_diagnostic;
use crate::dispatch::script_code;
use crate::dispatch::script_diagnostic;
use crate::dispatch::RunOutcome;
use crate::errors::IoFailure;
use crate::errors::RashError;
use crate::invocation::bind;
use crate::invocation::end_of_options_token;
use crate::invocation::flag_token;
use crate::invocation::interactive_after;
use crate::invocation::lacks_command;
use crate::invocation::lemma_bind_push;
use crate::invocation::lemma_bind_rename;
use crate::invocation::mode_of;
use crate::invocation::resolve;
use crate::invocation::scan;
use crate::invocation::scan_start;
use crate::invocation::scan_step;
use crate::invocation::script_of;
use crate::invocation::select_mode;
use crate::invocation::switch_token;
use crate::invocation::text_of;
use crate::invocation::usage_text;
use crate::invocation::Fatal;
use crate::invocation::Invocation;
use crate::invocation::InvocationMode;
use crate::text::chars_of;
use crate::text::lemma_trim_idempotent;
use crate::text::texts;
use crate::text::trim;
use crate::text::trimmed;

verus! {

/// The state of one interpreter session.
pub struct Rash {
    /// The positional parameters by index: 0 is the name the session was
    /// invoked under, 1 and up are its arguments.
    pub context: HashMap<u64, String>,
    /// The status of the last command, or of the last failure to start one.
    pub last_return: i32,
    /// Whether a prompt is shown.
    pub interactive: bool,
}

/// The banner an interactive session opens with.
pub open spec fn banner_text() -> Seq<char> {
    "the rash you actually want!\n"@
}

/// The prompt an interactive session shows before each line.
pub open spec fn prompt_text() -> Seq<char> {
    "$ "@
}

/// What the read loop does next.
#[derive(Debug)]
pub enum LoopAction {
    /// Input has ended: leave the loop and exit with the last return.
    Terminate,
    /// The read failed: print this line, then prompt again.
    Report(String),
    /// The line is empty: prompt again.
    Skip,
    /// The line holds a command: execute it, then prompt again.
    Dispatch,
}

/// What a read comes to: the count of bytes for a read that brought some,
/// end of input for one that brought none, the failure otherwise.
pub open spec fn read_result(read: Result<usize, IoFailure>) -> Result<usize, RashError> {
    match read {
        Ok(size) => if size > 0 {
            Ok(size)
        } else {
            Err(RashError::Eof)
        },
        Err(failure) => Err(RashError::Io(failure)),
    }
}

/// The text in the line buffer after a read: trimmed where the read brought
/// bytes, as it was otherwise.
pub open spec fn line_after(raw: Seq<char>, read: Result<usize, IoFailure>) -> Seq<char> {
    match read {
        Ok(size) => if size > 0 {
            trimmed(raw)
        } else {
            raw
        },
        Err(_) => raw,
    }
}

/// Whether the loop ends after a read with this result.
pub open spec fn ends_loop(result: Result<usize, RashError>) -> bool {
    result == Err::<usize, RashError>(RashError::Eof)
}

/// The line printed for a read failure that the loop survives.
pub open spec fn unhandled_text(error: RashError) -> Seq<char> {
    "unhandled err "@ + error.text()
}

/// Reading into a buffer that holds a trimmed line leaves that line as it
/// is, whatever the read brought.
pub proof fn lemma_read_keeps_trimmed_line(raw: Seq<char>, read: Result<usize, IoFailure>)
    ensures
        line_after(trimmed(raw), read) == trimmed(raw),
{
    lemma_trim_idempotent(raw);
}

/// End of input ends the loop: a read that brings no bytes is reported as
/// end of input, and that result makes the loop terminate.
pub proof fn lemma_end_of_input_ends_loop(read: Result<usize, IoFailure>)
    ensures
        ends_loop(read_result(read)) <==> read == Ok::<usize, IoFailure>(0),
{
}

impl Rash {
    /// The parameter table as a map from index to text.
    pub open spec fn params(&self) -> Map<u64, Seq<char>> {
        Map::new(|k: u64| self.context@.contains_key(k), |k: u64| self.context@[k]@)
    }

    /// A fresh session: no parameters, last return 0, and interactive as
    /// terminal detection on the input stream found.
    pub fn new(interactive: bool) -> (out: Rash)
        ensures
            out.params() == Map::<u64, Seq<char>>::empty(),
            out.last_return == 0,
            out.interactive == interactive,
    {
        let out = Rash { context: HashMap::new(), last_return: 0, interactive };
        assert(out.params() =~= Map::<u64, Seq<char>>::empty());
        out
    }

    /// The banner to print at startup: one for an interactive session, none
    /// otherwise.
    pub fn init(&self) -> (banner: Option<String>)
        ensures
            self.interactive ==> text_of(banner) == Some(banner_text()),
            !self.interactive ==> banner is None,
    {
        if self.interactive {
            Some("the rash you actually want!\n".to_owned())
        } else {
            None
        }
    }

    /// The prompt to show before reading a line: `$ ` for an interactive
    /// session, none otherwise.
    pub fn display_prompt(&self) -> (prompt: Option<String>)
        ensures
            self.interactive ==> text_of(prompt) == Some(prompt_text()),
            !self.interactive ==> prompt is None,
    {
        if self.interactive {
            Some("$ ".to_owned())
        } else {
            None
        }
    }

    /// Reads the interpreter's own argument list, program name first.
    ///
    /// The program name becomes parameter 0. The argument after it selects
    /// the mode; the arguments after that are taken from left to right as
    /// the command string, a new program name, flags to skip, or positional
    /// parameters. A `-c` with nothing after it is fatal: the last return
    /// becomes 2 and the usage line comes back as the error.
    pub fn handle_args(&mut self, args: &Vec<String>) -> (out: Result<Invocation, Fatal>)
        requires
            args@.len() >= 1,
        ensures
            final(self).params() == bind(
                old(self).params(),
                resolve(texts(args@)).name,
                resolve(texts(args@)).positional,
            ),
            final(self).interactive == interactive_after(old(self).interactive, texts(args@)),
            out is Err <==> lacks_command(texts(args@)),
            match out {
                Ok(invocation) => {
                    &&& invocation.mode == mode_of(texts(args@))
                    &&& text_of(invocation.command) == resolve(texts(args@)).command
                    &&& text_of(invocation.script) == script_of(texts(args@))
                    &&& final(self).last_return == old(self).last_return
                },
                Err(fatal) => {
                    &&& fatal.code == 2
                    &&& fatal.diagnostic@ == usage_text()
                    &&& final(self).last_return == 2
                },
            },
    {
        let ghost all = texts(args@);
        let ghost base = self.params();
        let n = args.len();
        self.context.insert(0, args[0].clone());
        assert(self.params() =~= bind(base, all[0], Seq::empty()));
        if n == 1 {
            return Ok(Invocation { mode: InvocationMode::Plain, command: None, script: None });
        }
        let selector = chars_of(args[1].as_str());
        let mode = select_mode(&selector);
        let mut script: Option<String> = None;
        let mut awaiting = false;
        match mode {
            InvocationMode::CommandString => {
                self.interactive = false;
                awaiting = true;
            },
            InvocationMode::ForcedInteractive => {
                self.interactive = true;
            },
            InvocationMode::ScriptFile => {
                self.interactive = false;
                script = Some(args[1].clone());
            },
            _ => {},
        }
        let mut options_ended = switch_token(&selector, '-');
        let mut name_next = false;
        let mut command: Option<String> = None;
        let mut count: u64 = 1;
        let ghost start = scan_start(all[0], all[1]);
        let ghost rest = all.skip(2);
        let ghost mut st = start;
        let mut i: usize = 2;
        assert(rest.take(0) =~= Seq::<Seq<char>>::empty());
        while i < n
            invariant
                2 <= i <= n,
                n == args@.len(),
                all == texts(args@),
                rest == all.skip(2),
                st == scan(start, rest.take(i - 2)),
                awaiting == st.awaiting_command,
                name_next == st.name_next,
                options_ended == st.options_ended,
                text_of(command) == st.command,
                count == st.positional.len() + 1,
                st.positional.len() <= i - 2,
                self.params() == bind(base, st.name, st.positional),
                self.interactive == interactive_after(old(self).interactive, all),
                self.last_return == old(self).last_return,
                text_of(script) == script_of(all),
                mode == mode_of(all),
            decreases n - i,
        {
            let token = args[i].clone();
            proof {
                assert(rest.take(i - 1).drop_last() =~= rest.take(i - 2));
                assert(rest.take(i - 1).last() == token@);
            }
            let ghost before = st;
            let ghost table = self.params();
            proof {
                st = scan_step(before, token@);
            }
            if awaiting {
                awaiting = false;
                name_next = true;
                command = Some(token);
            } else if name_next {
                name_next = false;
                self.context.insert(0, token);
                proof {
                    assert(self.params() =~= table.insert(0, token@));
                    lemma_bind_rename(base, before.name, before.positional, token@);
                }
            } else {
                let chars = chars_of(token.as_str());
                if flag_token(&chars) && !options_ended {
                    options_ended = end_of_options_token(&chars);
                } else {
                    self.context.insert(count, token);
                    proof {
                        assert(self.params() =~= table.insert(count, token@));
                        lemma_bind_push(base, before.name, before.positional, token@);
                    }
                    count = count + 1;
                }
            }
            i += 1;
        }
        assert(rest.take(n - 2) =~= rest);
        if awaiting {
            self.last_return = 2;
            Err(Fatal { code: 2, diagnostic: "rash: -c: option requires an argument".to_owned() })
        } else {
            Ok(Invocation { mode, command, script })
        }
    }

    /// Takes the outcome of opening the script that the arguments named.
    ///
    /// The session stops being interactive whatever the outcome. A script
    /// that was opened lets the session go on. One that was not is fatal:
    /// the last return becomes 127 for a missing file, else the raw error
    /// number, else 2, and the error carries that code and the line to
    /// print.
    pub fn load_input_file(&mut self, input_filename: &str, opened: Result<(), IoFailure>) -> (out:
        Result<(), Fatal>)
        ensures
            final(self).params() == old(self).params(),
            !final(self).interactive,
            match opened {
                Ok(_) => out is Ok && final(self).last_return == old(self).last_return,
                Err(failure) => {
                    &&& out is Err
                    &&& out->Err_0.code == script_code(failure)
                    &&& out->Err_0.diagnostic@ == script_diagnostic(input_filename@, failure)
                    &&& final(self).last_return == script_code(failure)
                },
            },
    {
        self.interactive = false;
        match opened {
            Ok(_) => Ok(()),
            Err(failure) => {
                let mut missing = "rash: no such file or directory: ".to_owned();
                missing.append(input_filename);
                let (code, diagnostic) = classify_failure(&failure, 2, missing);
                self.last_return = code;
                Err(Fatal { code, diagnostic })
            },
        }
    }

    /// Takes the outcome of reading one line into `buff`, which holds the
    /// raw text read.
    ///
    /// A read that brought bytes leaves the trimmed line in `buff` and
    /// returns the count of bytes read, which need not be the length of the
    /// trimmed line. A read that brought none is the end of input. A failed
    /// read is passed on. The session itself is left as it was.
    pub fn read_line(&mut self, buff: &mut String, read: Result<usize, IoFailure>) -> (out: Result<
        usize,
        RashError,
    >)
        ensures
            out == read_result(read),
            final(buff)@ == line_after(old(buff)@, read),
            final(self).params() == old(self).params(),
            final(self).last_return == old(self).last_return,
            final(self).interactive == old(self).interactive,
    {
        match read {
            Ok(size) => {
                if size > 0 {
                    let clean = trim(buff.as_str());
                    *buff = clean;
                    Ok(size)
                } else {
                    Err(RashError::Eof)
                }
            },
            Err(failure) => Err(RashError::Io(failure)),
        }
    }

    /// Decides what the loop does after a read that gave `result` and left
    /// `line` in the buffer.
    pub fn after_read(&self, result: &Result<usize, RashError>, line: &str) -> (action: LoopAction)
        ensures
            action is Terminate <==> ends_loop(*result),
            action is Report <==> (result is Err && !ends_loop(*result)),
            action is Report ==> action->Report_0@ == unhandled_text(result->Err_0),
            action is Skip <==> (result is Ok && line@.len() == 0),
            action is Dispatch <==> (result is Ok && line@.len() > 0),
    {
        match result {
            Err(RashError::Eof) => LoopAction::Terminate,
            Err(error) => {
                let mut text = "unhandled err ".to_owned();
                let detail = error.message();
                text.append(detail.as_str());
                LoopAction::Report(text)
            },
            Ok(_) => {
                if line.unicode_len() == 0 {
                    LoopAction::Skip
                } else {
                    LoopAction::Dispatch
                }
            },
        }
    }

    /// Takes the outcome of running the command that `input` holds.
    ///
    /// The exit code of a child that ran becomes the last return. A command
    /// that could not be started leaves 127 where it does not exist, else
    /// the raw error number, else 1, and a line to print comes back. Nothing
    /// else in the session changes.
    pub fn execute(&mut self, input: String, outcome: RunOutcome) -> (diagnostic: Option<String>)
        ensures
            final(self).last_return == return_code(outcome),
            text_of(diagnostic) == run_diagnostic(command_name(input@), outcome),
            final(self).params() == old(self).params(),
            final(self).interactive == old(self).interactive,
    {
        match outcome {
            RunOutcome::Exited(code) => {
                self.last_return = code;
                None
            },
            RunOutcome::SpawnFailed(failure) => {
                let command = parse_command(input.as_str());
                let mut missing = "rash: command not found: ".to_owned();
                missing.append(command.name.as_str());
                let (code, line) = classify_failure(&failure, 1, missing);
                self.last_return = code;
                Some(line)
            },
        }
    }
}

} // verus!
