//! Rust functions as worker processes.
//!
//! A closure cannot be moved to another process, so a worker has a stable
//! entrypoint: the parent starts the current executable with
//! `--becky-rust-fn <name>`, and the executable, which registers its functions
//! under names, runs the named one.
use vstd::prelude::*;

use crate::engine::state::ExitStatus;
use crate::engine::state::FxExecutionState;
use crate::engine::state::StateModel;
use crate::io_error::IoError;
use crate::number::decimal;
use crate::number::decimal_text;
use crate::number::lemma_decimal;
use crate::path::join_path;
use crate::path::path_join;
use crate::system_command::Signal;
use crate::system_command::SignalReport;
use crate::system_command::parse_pid_file;
use crate::system_command::pid_in;
use crate::text::append_strings;
use crate::text::cat2;
use crate::text::cat3;
use crate::text::char_is_alphanumeric;
use crate::text::chars_of;
use crate::text::copy_opt;
use crate::text::copy_pairs;
use crate::text::copy_strings;
use crate::text::is_alphanumeric;
use crate::text::is_digit;
use crate::text::lemma_texts_add;
use crate::text::lemma_texts_push;
use crate::text::opt_text;
use crate::text::pairs;
use crate::text::same_text;
use crate::text::texts;
use crate::text::trimmed;

verus! {

broadcast use {lemma_texts_push, lemma_texts_add};

/// Command-line marker used to enter worker mode.
pub const DEFAULT_WORKER_ARG: &'static str = "--becky-rust-fn";

/// How often a reattached worker is looked at, in milliseconds.
pub const DEFAULT_REATTACH_POLL_INTERVAL: u64 = 2_000;

/// How long a worker may take to exit, in milliseconds.
pub const DEFAULT_STOP_WAIT_TIMEOUT: u64 = 5_000;

/// How long to wait between looks at a worker that is to exit, in
/// milliseconds.
pub const STOP_POLL_INTERVAL: u64 = 50;

/// Context passed to a registered function.
#[derive(Debug, PartialEq, Eq)]
pub struct RustFnContext {
    /// Registered function name.
    pub name: String,
    /// User arguments passed after the function name.
    pub args: Vec<String>,
}

impl Clone for RustFnContext {
    fn clone(&self) -> (r: Self)
        ensures
            r.name == self.name,
            r.args@ == self.args@,
    {
        RustFnContext { name: self.name.clone(), args: copy_strings(&self.args) }
    }
}

/// Exit result returned by a registered function.
#[derive(Clone, Copy, Debug, PartialEq, Eq, Structural)]
pub struct RustFnExit {
    /// Process exit code.
    pub code: i32,
}

impl RustFnExit {
    /// Successful function completion.
    pub fn success() -> (r: Self)
        ensures
            r.code == 0,
    {
        RustFnExit { code: 0 }
    }

    /// Failed function completion with an explicit exit code.
    pub fn failure(code: i32) -> (r: Self)
        ensures
            r.code == code,
    {
        RustFnExit { code }
    }
}

/// Errors of the registry and of process control.
#[derive(Debug, PartialEq, Eq)]
pub enum RustFnError {
    /// The worker marker was there but no function name followed it.
    MissingFunctionName,
    /// No function is registered under the requested name.
    FunctionNotFound(String),
    /// The current executable could not be determined.
    CurrentExe(IoError),
    /// A filesystem or process operation failed.
    Io(IoError),
    /// The process id file holds no process id.
    InvalidPidFile {
        /// The file.
        path: String,
        /// What it holds.
        contents: String,
    },
    /// The process is not running any more.
    StalePidFile {
        /// The file.
        path: String,
        /// The process id.
        pid: u32,
    },
    /// The process is not the worker that it should be.
    PidMismatch {
        /// The process id.
        pid: u32,
        /// The function of the worker.
        function: String,
    },
    /// The worker had no process id after its start.
    MissingPid,
    /// The process could not be signalled.
    SignalFailed(u32),
    /// The worker did not exit in time.
    StopTimeout {
        /// The process id.
        pid: u32,
        /// The time, in milliseconds.
        timeout: u64,
    },
}

/// Registry of functions by name.
#[derive(Debug)]
pub struct RustFnRegistry<F> {
    functions: Vec<(String, F)>,
}

/// The place of a name in a list of functions, or the length of the list.
pub open spec fn name_place<F>(list: Seq<(String, F)>, name: Seq<char>) -> int
    decreases list.len(),
{
    if list.len() == 0 {
        0
    } else if name_place(list.drop_last(), name) < list.len() - 1 {
        name_place(list.drop_last(), name)
    } else if list.last().0@ == name {
        list.len() - 1
    } else {
        list.len() as int
    }
}

proof fn lemma_name_place<F>(list: Seq<(String, F)>, name: Seq<char>)
    ensures
        0 <= name_place(list, name) <= list.len(),
        name_place(list, name) < list.len() ==> list[name_place(list, name)].0@ == name,
        forall|i: int| 0 <= i < name_place(list, name) ==> (#[trigger] list[i]).0@ != name,
    decreases list.len(),
{
    if list.len() > 0 {
        let rest = list.drop_last();
        lemma_name_place(rest, name);
        assert forall|i: int| 0 <= i < name_place(list, name) implies (#[trigger] list[i]).0@ != name by {
            if i < rest.len() {
                assert(rest[i] == list[i]);
            }
        }
    }
}

proof fn lemma_name_place_is<F>(list: Seq<(String, F)>, name: Seq<char>, at: int)
    requires
        0 <= at <= list.len(),
        forall|i: int| 0 <= i < at ==> (#[trigger] list[i]).0@ != name,
        at < list.len() ==> list[at].0@ == name,
    ensures
        name_place(list, name) == at,
{
    lemma_name_place(list, name);
    if name_place(list, name) < at {
        assert(list[name_place(list, name)].0@ != name);
    } else if at < name_place(list, name) {
        assert(list[at].0@ != name);
    }
}

/// The functions of a list, by name.
pub open spec fn functions_by_name<F>(list: Seq<(String, F)>) -> Map<Seq<char>, F> {
    Map::new(
        |name: Seq<char>| name_place(list, name) < list.len(),
        |name: Seq<char>| list[name_place(list, name)].1,
    )
}

impl<F> View for RustFnRegistry<F> {
    type V = Map<Seq<char>, F>;

    closed spec fn view(&self) -> Map<Seq<char>, F> {
        functions_by_name(self.functions@)
    }
}

/// The place of a text in a row of words, or the length of the row.
pub open spec fn word_place(words: Seq<Seq<char>>, word: Seq<char>) -> int
    decreases words.len(),
{
    if words.len() == 0 || words[0] == word {
        0
    } else {
        1 + word_place(words.drop_first(), word)
    }
}

proof fn lemma_word_place(words: Seq<Seq<char>>, word: Seq<char>, at: int)
    requires
        0 <= at <= words.len(),
        forall|i: int| 0 <= i < at ==> (#[trigger] words[i]) != word,
        at < words.len() ==> words[at] == word,
    ensures
        word_place(words, word) == at,
    decreases words.len(),
{
    if at > 0 {
        let rest = words.drop_first();
        assert forall|i: int| 0 <= i < at - 1 implies (#[trigger] rest[i]) != word by {
            assert(rest[i] == words[i + 1]);
        }
        assert(words[0] != word);
        lemma_word_place(rest, word, at - 1);
    }
}

/// The words without those that only separate options.
pub open spec fn without_separators(words: Seq<Seq<char>>) -> Seq<Seq<char>>
    decreases words.len(),
{
    if words.len() == 0 {
        seq![]
    } else if words.last() == "--"@ {
        without_separators(words.drop_last())
    } else {
        without_separators(words.drop_last()).push(words.last())
    }
}

/// The function that a worker command line names, and its arguments: the word
/// behind the first marker, and those that follow it.
pub open spec fn worker_call(words: Seq<Seq<char>>, marker: Seq<char>) -> (
    Seq<char>,
    Seq<Seq<char>>,
) {
    let at = word_place(words, marker);
    (words[at + 1], without_separators(words.skip(at + 2)))
}

impl<F> Default for RustFnRegistry<F> {
    /// An empty registry.
    fn default() -> (r: Self)
        ensures
            r@ == Map::<Seq<char>, F>::empty(),
    {
        RustFnRegistry::new()
    }
}

impl<F> RustFnRegistry<F> {
    /// Creates an empty registry.
    pub fn new() -> (r: Self)
        ensures
            r@ == Map::<Seq<char>, F>::empty(),
    {
        let r = RustFnRegistry { functions: Vec::new() };
        proof {
            assert(r@ =~= Map::<Seq<char>, F>::empty());
        }
        r
    }

    /// The place of a function, if it is registered.
    fn find(&self, name: &str) -> (r: Option<usize>)
        ensures
            match r {
                Some(i) => i == name_place(self.functions@, name@) && i < self.functions@.len(),
                None => name_place(self.functions@, name@) == self.functions@.len(),
            },
    {
        for i in 0..self.functions.len()
            invariant
                forall|j: int| 0 <= j < i ==> (#[trigger] self.functions@[j]).0@ != name@,
        {
            if same_text(self.functions[i].0.as_str(), name) {
                proof {
                    lemma_name_place_is(self.functions@, name@, i as int);
                }
                return Some(i);
            }
        }
        proof {
            lemma_name_place_is(self.functions@, name@, self.functions@.len() as int);
        }
        None
    }

    /// Registers a function under a name, in the place of one that has it.
    pub fn register(&mut self, name: &str, function: F)
        ensures
            final(self)@ == old(self)@.insert(name@, function),
    {
        let ghost before = self.functions@;
        let ghost key = name@;
        proof {
            lemma_name_place(before, key);
        }
        match self.find(name) {
            Some(i) => {
                self.functions.set(i, (name.to_owned(), function));
                proof {
                    let after = self.functions@;
                    assert forall|k: Seq<char>| #[trigger]
                        name_place(after, k) == name_place(before, k) by {
                        lemma_name_place(before, k);
                        assert forall|j: int| 0 <= j < name_place(before, k) implies (
                        #[trigger] after[j]).0@ != k by {
                            assert(before[j].0@ != k);
                        }
                        lemma_name_place_is(after, k, name_place(before, k));
                    }
                }
            },
            None => {
                self.functions.push((name.to_owned(), function));
                proof {
                    let after = self.functions@;
                    assert(after.drop_last() =~= before);
                    assert forall|k: Seq<char>| k != key implies (#[trigger] name_place(after, k))
                        == (if name_place(before, k) < before.len() {
                        name_place(before, k)
                    } else {
                        after.len() as int
                    }) by {
                        lemma_name_place(before, k);
                    }
                    assert(name_place(after, key) == before.len());
                }
            },
        }
        proof {
            let after = self.functions@;
            let expected = functions_by_name(before).insert(key, function);
            assert forall|k: Seq<char>|
                functions_by_name(after).dom().contains(k) == expected.dom().contains(k) by {
                lemma_name_place(before, k);
                lemma_name_place(after, k);
            }
            assert forall|k: Seq<char>|
                expected.dom().contains(k) implies #[trigger] functions_by_name(after)[k]
                == expected[k] by {
                lemma_name_place(before, k);
                lemma_name_place(after, k);
            }
            assert(functions_by_name(after) =~= expected);
        }
    }

    /// The function to run, and what to run it with, if `args` hold the worker
    /// marker.
    ///
    /// Without the marker the process is no worker, and normal startup should
    /// go on. Otherwise the caller runs the function and exits with its code.
    pub fn run_worker_from_args(&self, args: &Vec<String>, worker_arg: &str) -> (r: Result<
        Option<(&F, RustFnContext)>,
        RustFnError,
    >)
        ensures
            ({
                let words = texts(args@);
                let at = word_place(words, worker_arg@);
                let (name, fn_args) = worker_call(words, worker_arg@);
                if at == words.len() {
                    r is Ok && r->Ok_0 is None
                } else if at + 1 == words.len() {
                    r is Err && r->Err_0 is MissingFunctionName
                } else if !self@.dom().contains(name) {
                    r matches Err(RustFnError::FunctionNotFound(missing)) && missing@ == name
                } else {
                    r matches Ok(Some((function, context))) && *function == self@[name]
                        && context.name@ == name && texts(context.args@) == fn_args
                }
            }),
    {
        let ghost words = texts(args@);
        let mut at: usize = 0;
        while at < args.len() && !same_text(args[at].as_str(), worker_arg)
            invariant
                words == texts(args@),
                at <= args.len(),
                forall|i: int| 0 <= i < at ==> (#[trigger] words[i]) != worker_arg@,
            decreases args.len() - at,
        {
            at += 1;
        }
        proof {
            lemma_word_place(words, worker_arg@, at as int);
            assert(words.len() == args@.len());
        }
        if at == args.len() {
            return Ok(None);
        }
        if args.len() - at == 1 {
            return Err(RustFnError::MissingFunctionName);
        }
        let name = args[at + 1].clone();
        let mut fn_args: Vec<String> = Vec::new();
        let start: usize = at + 2;
        let ghost tail = words.skip(start as int);
        proof {
            assert(texts(fn_args@) =~= without_separators(tail.take(0)));
        }
        let mut i: usize = start;
        while i < args.len()
            invariant
                words == texts(args@),
                start <= i <= args.len(),
                tail == words.skip(start as int),
                texts(fn_args@) == without_separators(tail.take(i - start)),
            decreases args.len() - i,
        {
            proof {
                let n = i - start;
                assert(tail.take(n + 1).drop_last() =~= tail.take(n));
                assert(tail.take(n + 1).last() == words[i as int]);
            }
            if !same_text(args[i].as_str(), "--") {
                fn_args.push(args[i].clone());
            }
            i += 1;
        }
        proof {
            assert(tail.take(tail.len() as int) =~= tail);
            lemma_name_place(self.functions@, name@);
        }
        match self.find(name.as_str()) {
            Some(i) => Ok(Some((&self.functions[i].1, RustFnContext { name, args: fn_args }))),
            None => Err(RustFnError::FunctionNotFound(name)),
        }
    }
}

/// Whether a character may stand in the name of a process id file.
pub open spec fn is_pid_char(c: char) -> bool {
    is_alphanumeric(c) || c == '-' || c == '_'
}

/// A name as it may stand in the name of a process id file: any other
/// character becomes an underscore.
pub open spec fn pid_name(name: Seq<char>) -> Seq<char> {
    Seq::new(
        name.len(),
        |i: int|
            if is_pid_char(name[i]) {
                name[i]
            } else {
                '_'
            },
    )
}

/// A name as it may stand in the name of a process id file.
pub fn sanitize_pid_name(name: &str) -> (r: String)
    ensures
        r@ == pid_name(name@),
{
    let v = chars_of(name);
    let mut r = String::new();
    for i in 0..v.len()
        invariant
            v@ == name@,
            r@ == pid_name(name@).take(i as int),
    {
        let c = v[i];
        if char_is_alphanumeric(c) || c == '-' || c == '_' {
            r.push(c);
        } else {
            r.push('_');
        }
        proof {
            let all = pid_name(name@);
            assert(all.take(i + 1) =~= all.take(i as int).push(all[i as int]));
        }
    }
    proof {
        assert(pid_name(name@).take(name@.len() as int) =~= pid_name(name@));
    }
    r
}

/// The process id file of a function.
pub open spec fn pid_file_of(run_dir: Seq<char>, function: Seq<char>) -> Seq<char> {
    path_join(run_dir, pid_name(function) + ".pid"@)
}

/// The process id file of a function under `run_dir`.
pub fn pid_file_path(run_dir: &str, function: &str) -> (r: String)
    ensures
        r@ == pid_file_of(run_dir@, function@),
{
    join_path(run_dir, cat2(sanitize_pid_name(function).as_str(), ".pid").as_str())
}

/// A process id file lies in the run directory, whatever the name of the
/// function.
pub proof fn law_pid_file_stays_in_run_dir(run_dir: Seq<char>, function: Seq<char>)
    ensures
        ({
            let file = pid_name(function) + ".pid"@;
            &&& !file.contains('/')
            &&& pid_file_of(run_dir, function) == (if run_dir.len() == 0 || run_dir.last() == '/' {
                run_dir + file
            } else {
                run_dir + seq!['/'] + file
            })
        }),
{
    reveal_strlit(".pid");
    let name = pid_name(function);
    let file = name + ".pid"@;
    assert forall|i: int| 0 <= i < file.len() implies file[i] != '/' by {
        if i < name.len() {
            assert(is_pid_char(name[i]));
        }
    }
    assert(file[0] != '/');
}

/// A name that already may stand in the name of a file is kept.
pub proof fn law_plain_pid_names_kept(name: Seq<char>)
    requires
        forall|i: int| 0 <= i < name.len() ==> is_pid_char(#[trigger] name[i]),
    ensures
        pid_name(name) == name,
{
    assert(pid_name(name) =~= name);
}

/// Whether a command line runs a function as a worker: the marker and the name
/// stand side by side in it.
pub open spec fn runs_worker(cmd: Seq<Seq<char>>, worker_arg: Seq<char>, function: Seq<char>) -> bool {
    exists|i: int|
        0 <= i && i + 1 < cmd.len() && #[trigger] cmd[i] == worker_arg && cmd[i + 1] == function
}

/// Whether a command line runs a function as a worker.
pub fn process_cmd_contains_worker(cmd: &Vec<String>, worker_arg: &str, function: &str) -> (r: bool)
    ensures
        r == runs_worker(texts(cmd@), worker_arg@, function@),
{
    let ghost words = texts(cmd@);
    if cmd.len() == 0 {
        return false;
    }
    for i in 0..cmd.len() - 1
        invariant
            words == texts(cmd@),
            cmd.len() > 0,
            forall|j: int|
                0 <= j < i ==> !(#[trigger] words[j] == worker_arg@ && words[j + 1] == function@),
    {
        if same_text(cmd[i].as_str(), worker_arg) && same_text(cmd[i + 1].as_str(), function) {
            assert(words[i as int] == worker_arg@ && words[i + 1] == function@);
            return true;
        }
    }
    false
}

/// A process that should be a worker.
#[derive(Clone, Copy, Debug, PartialEq, Eq, Structural)]
pub enum ObservedProcess {
    /// It is the worker.
    Matching,
    /// It is something else.
    Mismatched,
    /// It does not exist.
    Missing,
}

/// What a process is that should be a worker, by its command line.
pub open spec fn observed(
    cmd: Option<Seq<Seq<char>>>,
    worker_arg: Seq<char>,
    function: Seq<char>,
) -> ObservedProcess {
    match cmd {
        Some(words) => if runs_worker(words, worker_arg, function) {
            ObservedProcess::Matching
        } else {
            ObservedProcess::Mismatched
        },
        None => ObservedProcess::Missing,
    }
}

/// What a process is that should be a worker, by its command line, if the
/// process exists.
pub fn observe_worker_process(cmd: &Option<Vec<String>>, worker_arg: &str, function: &str) -> (r:
    ObservedProcess)
    ensures
        r == observed(
            (match *cmd {
                Some(words) => Some(texts(words@)),
                None => None,
            }),
            worker_arg@,
            function@,
        ),
{
    match cmd {
        Some(words) => if process_cmd_contains_worker(words, worker_arg, function) {
            ObservedProcess::Matching
        } else {
            ObservedProcess::Mismatched
        },
        None => ObservedProcess::Missing,
    }
}

/// The process that a worker command line was started with is recognised as
/// that worker.
pub proof fn law_worker_is_recognised(
    executable: Seq<char>,
    worker_arg: Seq<char>,
    function: Seq<char>,
    args: Seq<Seq<char>>,
)
    ensures
        observed(
            Some(seq![executable, worker_arg, function] + args),
            worker_arg,
            function,
        ) is Matching,
{
    let cmd = seq![executable, worker_arg, function] + args;
    let i: int = 1;
    assert(cmd[i] == worker_arg && cmd[i + 1] == function);
}

/// Rust function worker process configuration.
#[derive(Debug, PartialEq, Eq)]
pub struct FxRustFn {
    /// Registered function name.
    pub function: String,
    /// Executable to invoke in worker mode, if not the current one.
    pub executable: Option<String>,
    /// Directory of process id files.
    pub run_dir: String,
    /// Arguments passed after the function name.
    pub args: Vec<String>,
    /// Environment variables passed to the worker.
    pub env: Vec<(String, String)>,
    /// Worker-mode argument marker.
    pub worker_arg: String,
    /// How often a reattached worker is looked at, in milliseconds.
    pub reattach_poll_interval: u64,
}

/// The model of a worker configuration.
#[verifier::ext_equal]
pub struct RustFnModel {
    pub function: Seq<char>,
    pub executable: Option<Seq<char>>,
    pub run_dir: Seq<char>,
    pub args: Seq<Seq<char>>,
    pub env: Seq<(Seq<char>, Seq<char>)>,
    pub worker_arg: Seq<char>,
    pub reattach_poll_interval: u64,
}

impl RustFnModel {
    /// The arguments that a worker is started with.
    pub open spec fn worker_words(self) -> Seq<Seq<char>> {
        seq![self.worker_arg, self.function] + self.args
    }
}

impl View for FxRustFn {
    type V = RustFnModel;

    open spec fn view(&self) -> RustFnModel {
        RustFnModel {
            function: self.function@,
            executable: opt_text(self.executable),
            run_dir: self.run_dir@,
            args: texts(self.args@),
            env: pairs(self.env@),
            worker_arg: self.worker_arg@,
            reattach_poll_interval: self.reattach_poll_interval,
        }
    }
}

impl Clone for FxRustFn {
    fn clone(&self) -> (r: Self)
        ensures
            r@ == self@,
    {
        FxRustFn {
            function: self.function.clone(),
            executable: copy_opt(&self.executable),
            run_dir: self.run_dir.clone(),
            args: copy_strings(&self.args),
            env: copy_pairs(&self.env),
            worker_arg: self.worker_arg.clone(),
            reattach_poll_interval: self.reattach_poll_interval,
        }
    }
}

impl FxRustFn {
    /// A worker of the named function, with its process id file in `run_dir`.
    pub fn new(function: &str, run_dir: &str) -> (r: Self)
        ensures
            r@ == (RustFnModel {
                function: function@,
                executable: None,
                run_dir: run_dir@,
                args: seq![],
                env: seq![],
                worker_arg: DEFAULT_WORKER_ARG@,
                reattach_poll_interval: DEFAULT_REATTACH_POLL_INTERVAL,
            }),
    {
        let r = FxRustFn {
            function: function.to_owned(),
            executable: None,
            run_dir: run_dir.to_owned(),
            args: Vec::new(),
            env: Vec::new(),
            worker_arg: DEFAULT_WORKER_ARG.to_owned(),
            reattach_poll_interval: DEFAULT_REATTACH_POLL_INTERVAL,
        };
        proof {
            assert(texts(r.args@) =~= seq![]);
            assert(pairs(r.env@) =~= seq![]);
        }
        r
    }

    /// The worker with the given arguments behind those that it has.
    pub fn with_args(self, args: Vec<String>) -> (r: Self)
        ensures
            r@ == (RustFnModel { args: self@.args + texts(args@), ..self@ }),
    {
        let mut all = self.args;
        append_strings(&mut all, &args);
        FxRustFn {
            function: self.function,
            executable: self.executable,
            run_dir: self.run_dir,
            args: all,
            env: self.env,
            worker_arg: self.worker_arg,
            reattach_poll_interval: self.reattach_poll_interval,
        }
    }

    /// The worker with one more environment variable.
    pub fn with_env(self, key: &str, value: &str) -> (r: Self)
        ensures
            r@ == (RustFnModel { env: self@.env.push((key@, value@)), ..self@ }),
    {
        let mut env = self.env;
        let ghost before = pairs(env@);
        env.push((key.to_owned(), value.to_owned()));
        proof {
            assert(pairs(env@) =~= before.push((key@, value@)));
        }
        FxRustFn {
            function: self.function,
            executable: self.executable,
            run_dir: self.run_dir,
            args: self.args,
            env,
            worker_arg: self.worker_arg,
            reattach_poll_interval: self.reattach_poll_interval,
        }
    }

    /// The process id file of the function.
    pub fn pid_file(&self) -> (r: String)
        ensures
            r@ == pid_file_of(self@.run_dir, self@.function),
    {
        pid_file_path(self.run_dir.as_str(), self.function.as_str())
    }

    /// The executable to run: the configured one, or else the current one.
    pub fn executable(&self, current: Result<String, IoError>) -> (r: Result<String, RustFnError>)
        ensures
            match (self@.executable, current) {
                (Some(path), _) => r is Ok && r->Ok_0@ == path,
                (None, Ok(path)) => r == Ok::<String, RustFnError>(path),
                (None, Err(err)) => r == Err::<String, RustFnError>(RustFnError::CurrentExe(err)),
            },
    {
        match &self.executable {
            Some(path) => Ok(path.clone()),
            None => match current {
                Ok(path) => Ok(path),
                Err(err) => Err(RustFnError::CurrentExe(err)),
            },
        }
    }

    /// The arguments that the worker is started with.
    pub fn worker_args(&self) -> (r: Vec<String>)
        ensures
            texts(r@) == self@.worker_words(),
    {
        let mut args: Vec<String> = Vec::new();
        args.push(self.worker_arg.clone());
        args.push(self.function.clone());
        proof {
            assert(texts(args@) =~= seq![self@.worker_arg, self@.function]);
        }
        append_strings(&mut args, &self.args);
        args
    }

    /// The name of the function.
    pub fn id(&self) -> (r: String)
        ensures
            r@ == self@.function,
    {
        self.function.clone()
    }

    /// The process id that the process id file holds, once it was read; a file
    /// that does not exist holds none.
    pub fn read_pid_file(&self, read: Result<String, IoError>) -> (r: Result<
        Option<u32>,
        RustFnError,
    >)
        ensures
            match read {
                Ok(contents) => match pid_in(contents@) {
                    Some(pid) => r == Ok::<Option<u32>, RustFnError>(Some(pid as u32)),
                    None => r matches Err(
                        RustFnError::InvalidPidFile { path, contents: held },
                    ) && path@ == pid_file_of(self@.run_dir, self@.function) && held == contents,
                },
                Err(err) => r == (if err.kind is NotFound {
                    Ok::<Option<u32>, RustFnError>(None)
                } else {
                    Err(RustFnError::Io(err))
                }),
            },
    {
        match read {
            Ok(contents) => match parse_pid_file(contents.as_str()) {
                Some(pid) => Ok(Some(pid)),
                None => Err(RustFnError::InvalidPidFile { path: self.pid_file(), contents }),
            },
            Err(err) => if err.is_not_found() {
                Ok(None)
            } else {
                Err(RustFnError::Io(err))
            },
        }
    }

    /// What the process id file holds for a process.
    pub fn pid_file_contents(pid: u32) -> (r: String)
        ensures
            r@ == decimal(pid as nat),
    {
        decimal_text(pid as u64)
    }
}

/// The result of the removal of a file; one that does not exist is removed.
pub fn remove_pid_file(removed: Result<(), IoError>) -> (r: Result<(), RustFnError>)
    ensures
        r == removal(removed),
{
    match removed {
        Ok(()) => Ok(()),
        Err(err) => if err.is_not_found() {
            Ok(())
        } else {
            Err(RustFnError::Io(err))
        },
    }
}

/// The result of the removal of a file; one that does not exist is removed.
pub open spec fn removal(removed: Result<(), IoError>) -> Result<(), RustFnError> {
    match removed {
        Ok(_) => Ok(()),
        Err(err) => if err.kind is NotFound {
            Ok(())
        } else {
            Err(RustFnError::Io(err))
        },
    }
}

/// A text as the `Debug` formatting of `str` writes it: in quotes, with what
/// needs it escaped.
pub uninterp spec fn quoted_text(s: Seq<char>) -> Seq<char>;

/// The `Debug` formatting of `str`. Letters and digits of ASCII, hyphens,
/// underscores and colons need no escape.
#[verifier::external_body]
fn quote_text(s: &str) -> (r: String)
    ensures
        r@ == quoted_text(s@),
        (forall|i: int| 0 <= i < s@.len() ==> is_pid_char(#[trigger] s@[i]) || s@[i] == ':') ==> r@
            == seq!['"'] + s@ + seq!['"'],
{
    format!("{:?}", s)
}

/// What is said of a process that is no more the worker it was.
pub open spec fn mismatch_text(pid: u32, quoted: Seq<char>) -> Seq<char> {
    "pid "@ + decimal(pid as nat) + " no longer matches rust function worker "@ + quoted
}

/// What is said of a process that is no more the worker it was, given the
/// function as it is quoted.
pub fn mismatch_message(pid: u32, quoted: &str) -> (r: String)
    ensures
        r@ == mismatch_text(pid, quoted@),
{
    let said = cat3(
        "pid ",
        decimal_text(pid as u64).as_str(),
        " no longer matches rust function worker ",
    );
    cat2(said.as_str(), quoted)
}

/// A worker process that was started or reattached.
#[derive(Debug)]
pub struct RustFnHandle {
    /// Worker process id.
    pub pid: u32,
    /// Registered function name.
    pub function: String,
    /// Whether the process was running before.
    pub reattached: bool,
    /// Worker-mode argument marker.
    pub worker_arg: String,
    /// The state that was observed last.
    pub latest_state: FxExecutionState,
}

/// The model of a worker process.
#[verifier::ext_equal]
pub struct HandleModel {
    pub pid: u32,
    pub function: Seq<char>,
    pub reattached: bool,
    pub worker_arg: Seq<char>,
    pub latest_state: StateModel,
}

impl View for RustFnHandle {
    type V = HandleModel;

    open spec fn view(&self) -> HandleModel {
        HandleModel {
            pid: self.pid,
            function: self.function@,
            reattached: self.reattached,
            worker_arg: self.worker_arg@,
            latest_state: self.latest_state@,
        }
    }
}

impl FxRustFn {
    /// The worker that runs as a process.
    pub fn running(&self, pid: u32, reattached: bool) -> (r: RustFnHandle)
        ensures
            r@ == (HandleModel {
                pid,
                function: self@.function,
                reattached,
                worker_arg: self@.worker_arg,
                latest_state: StateModel::Running(pid),
            }),
    {
        RustFnHandle {
            pid,
            function: self.function.clone(),
            reattached,
            worker_arg: self.worker_arg.clone(),
            latest_state: FxExecutionState::Running(pid),
        }
    }
}

impl RustFnHandle {
    /// The state that was observed last.
    pub fn latest_state(&self) -> (r: FxExecutionState)
        ensures
            r@ == self@.latest_state,
    {
        self.latest_state.clone()
    }

    /// Keeps how the worker ended, once that was waited for.
    pub fn child_ended(&mut self, ended: Result<ExitStatus, String>)
        ensures
            final(self)@ == (HandleModel {
                latest_state: match ended {
                    Ok(status) => StateModel::Exited(status),
                    Err(message) => StateModel::Error(message@),
                },
                ..old(self)@
            }),
    {
        self.latest_state = match ended {
            Ok(status) => FxExecutionState::Exited(status),
            Err(message) => FxExecutionState::Error(message),
        };
    }

    /// Keeps what a look at a reattached worker shows, and says whether to look
    /// again: a worker that is gone counts as not started.
    pub fn monitor_reattached_pid(&mut self, look: ObservedProcess) -> (r: bool)
        ensures
            r == (look is Matching),
            final(self)@ == (match look {
                ObservedProcess::Matching => old(self)@,
                ObservedProcess::Missing => HandleModel {
                    latest_state: StateModel::NotStarted,
                    ..old(self)@
                },
                ObservedProcess::Mismatched => HandleModel {
                    latest_state: StateModel::Error(
                        mismatch_text(old(self)@.pid, quoted_text(old(self)@.function)),
                    ),
                    ..old(self)@
                },
            }),
    {
        match look {
            ObservedProcess::Matching => true,
            ObservedProcess::Missing => {
                self.latest_state = FxExecutionState::NotStarted;
                false
            },
            ObservedProcess::Mismatched => {
                let quoted = quote_text(self.function.as_str());
                self.latest_state = FxExecutionState::Error(
                    mismatch_message(self.pid, quoted.as_str()),
                );
                false
            },
        }
    }

    /// The state of the worker, by a look at its process: one that is gone is
    /// in the state that was observed last, and a process that is something
    /// else is an error.
    pub fn fx_status(&mut self, look: ObservedProcess) -> (r: Result<FxExecutionState, RustFnError>)
        ensures
            match look {
                ObservedProcess::Matching => r is Ok && r->Ok_0@ == StateModel::Running(
                    old(self)@.pid,
                ) && final(self)@ == (HandleModel {
                    latest_state: StateModel::Running(old(self)@.pid),
                    ..old(self)@
                }),
                ObservedProcess::Mismatched => r == Err::<FxExecutionState, RustFnError>(
                    RustFnError::PidMismatch { pid: old(self).pid, function: old(self).function },
                ) && final(self)@ == (HandleModel {
                    latest_state: StateModel::Error(
                        mismatch_text(old(self)@.pid, quoted_text(old(self)@.function)),
                    ),
                    ..old(self)@
                }),
                ObservedProcess::Missing => r is Ok && r->Ok_0@ == old(self)@.latest_state
                    && final(self)@ == old(self)@,
            },
    {
        match look {
            ObservedProcess::Matching => {
                self.latest_state = FxExecutionState::Running(self.pid);
                Ok(FxExecutionState::Running(self.pid))
            },
            ObservedProcess::Mismatched => {
                let quoted = quote_text(self.function.as_str());
                self.latest_state = FxExecutionState::Error(
                    mismatch_message(self.pid, quoted.as_str()),
                );
                Err(RustFnError::PidMismatch { pid: self.pid, function: self.function.clone() })
            },
            ObservedProcess::Missing => Ok(self.latest_state.clone()),
        }
    }

    /// Takes in a stop that was carried out, and says what came of it: only
    /// where it succeeded is the worker kept as stopped.
    pub fn stopped(&mut self, stop: RustFnStop) -> (r: Option<Result<(), RustFnError>>)
        ensures
            stop.results_in(r),
            final(self)@ == (HandleModel {
                latest_state: if stop.phase is Done {
                    StateModel::Stopped
                } else {
                    old(self)@.latest_state
                },
                ..old(self)@
            }),
    {
        if stop.phase == RustFnStopPhase::Done {
            self.latest_state = FxExecutionState::Stopped;
        }
        stop.result()
    }
}

/// What is asked for next while a worker is started.
#[derive(Clone, Copy, Debug, PartialEq, Eq, Structural)]
pub enum RustFnStartPhase {
    /// The contents of the process id file.
    ReadPidFile,
    /// What the process of the given id is.
    Observe(u32),
    /// To remove the process id file.
    RemovePidFile,
    /// The current executable.
    CurrentExe,
    /// To start the worker.
    Spawn,
    /// To create the directory of process id files.
    CreateRunDir(u32),
    /// To write the process id file.
    WritePidFile(u32),
    /// To kill the worker just started, whose process id could not be written.
    KillChild,
    /// Nothing: the worker runs, and was running before.
    Reattached(u32),
    /// Nothing: the worker runs, and was started.
    Spawned(u32),
    /// Nothing: it failed.
    Failed,
}

/// An answer to what was asked for.
#[derive(Debug)]
pub enum RustFnStartAnswer {
    /// The process id that the file holds, if there is a file.
    PidFile(Result<Option<u32>, RustFnError>),
    /// What the process is.
    Observed(ObservedProcess),
    /// How the removal of the process id file ended.
    Removed(Result<(), IoError>),
    /// Whether the current executable is known.
    Current(Result<(), IoError>),
    /// The process id of the worker, if it has one.
    Started(Result<Option<u32>, IoError>),
    /// How a filesystem operation ended.
    Done(Result<(), IoError>),
    /// The worker was killed as far as possible.
    Killed,
}

/// The start of a worker.
#[derive(Debug)]
pub struct RustFnStart {
    /// What is asked for next.
    pub phase: RustFnStartPhase,
    /// The function.
    pub function: String,
    /// Whether the executable is configured.
    pub executable: bool,
    /// Why it failed, if it did.
    pub failure: Option<RustFnError>,
}

impl RustFnStart {
    /// The same, in another phase.
    pub open spec fn in_phase(self, phase: RustFnStartPhase) -> RustFnStart {
        RustFnStart { phase, ..self }
    }

    /// The same, having failed.
    pub open spec fn failed(self, err: RustFnError) -> RustFnStart {
        RustFnStart { phase: RustFnStartPhase::Failed, failure: Some(err), ..self }
    }

    /// What follows when the worker is not running.
    pub open spec fn not_running(self) -> RustFnStart {
        self.in_phase(
            if self.executable {
                RustFnStartPhase::Spawn
            } else {
                RustFnStartPhase::CurrentExe
            },
        )
    }

    /// What follows an operation that has to succeed once the worker was
    /// started; otherwise the worker is killed.
    pub open spec fn or_kill(self, done: Result<(), IoError>, next: RustFnStartPhase) -> RustFnStart {
        match done {
            Ok(_) => self.in_phase(next),
            Err(err) => RustFnStart {
                phase: RustFnStartPhase::KillChild,
                failure: Some(RustFnError::Io(err)),
                ..self
            },
        }
    }

    /// What follows an answer. An answer to something else changes nothing.
    pub open spec fn after(self, answer: RustFnStartAnswer) -> RustFnStart {
        match (self.phase, answer) {
            (RustFnStartPhase::ReadPidFile, RustFnStartAnswer::PidFile(Ok(Some(pid)))) => {
                self.in_phase(RustFnStartPhase::Observe(pid))
            },
            (RustFnStartPhase::ReadPidFile, RustFnStartAnswer::PidFile(Ok(None))) => {
                self.not_running()
            },
            (RustFnStartPhase::ReadPidFile, RustFnStartAnswer::PidFile(Err(err))) => {
                self.failed(err)
            },
            (RustFnStartPhase::Observe(pid), RustFnStartAnswer::Observed(look)) => match look {
                ObservedProcess::Matching => self.in_phase(RustFnStartPhase::Reattached(pid)),
                ObservedProcess::Mismatched => self.failed(
                    RustFnError::PidMismatch { pid, function: self.function },
                ),
                ObservedProcess::Missing => self.in_phase(RustFnStartPhase::RemovePidFile),
            },
            (RustFnStartPhase::RemovePidFile, RustFnStartAnswer::Removed(removed)) => {
                match removal(removed) {
                    Ok(_) => self.not_running(),
                    Err(err) => self.failed(err),
                }
            },
            (RustFnStartPhase::CurrentExe, RustFnStartAnswer::Current(Ok(_))) => self.in_phase(
                RustFnStartPhase::Spawn,
            ),
            (RustFnStartPhase::CurrentExe, RustFnStartAnswer::Current(Err(err))) => self.failed(
                RustFnError::CurrentExe(err),
            ),
            (RustFnStartPhase::Spawn, RustFnStartAnswer::Started(Ok(Some(pid)))) => self.in_phase(
                RustFnStartPhase::CreateRunDir(pid),
            ),
            (RustFnStartPhase::Spawn, RustFnStartAnswer::Started(Ok(None))) => self.failed(
                RustFnError::MissingPid,
            ),
            (RustFnStartPhase::Spawn, RustFnStartAnswer::Started(Err(err))) => self.failed(
                RustFnError::Io(err),
            ),
            (RustFnStartPhase::CreateRunDir(pid), RustFnStartAnswer::Done(done)) => self.or_kill(
                done,
                RustFnStartPhase::WritePidFile(pid),
            ),
            (RustFnStartPhase::WritePidFile(pid), RustFnStartAnswer::Done(done)) => self.or_kill(
                done,
                RustFnStartPhase::Spawned(pid),
            ),
            (RustFnStartPhase::KillChild, RustFnStartAnswer::Killed) => self.in_phase(
                RustFnStartPhase::Failed,
            ),
            _ => self,
        }
    }

    /// Notes a failure.
    fn fail(&mut self, err: RustFnError)
        ensures
            *final(self) == old(self).failed(err),
    {
        self.phase = RustFnStartPhase::Failed;
        self.failure = Some(err);
    }

    /// Goes on to start the worker.
    fn go_on(&mut self)
        ensures
            *final(self) == old(self).not_running(),
    {
        if self.executable {
            self.phase = RustFnStartPhase::Spawn;
        } else {
            self.phase = RustFnStartPhase::CurrentExe;
        }
    }

    /// Goes on after an operation that has to succeed.
    fn keep_or_kill(&mut self, done: Result<(), IoError>, next: RustFnStartPhase)
        ensures
            *final(self) == old(self).or_kill(done, next),
    {
        match done {
            Ok(_) => {
                self.phase = next;
            },
            Err(err) => {
                self.phase = RustFnStartPhase::KillChild;
                self.failure = Some(RustFnError::Io(err));
            },
        }
    }

    /// Takes an answer.
    pub fn advance(&mut self, answer: RustFnStartAnswer)
        ensures
            *final(self) == old(self).after(answer),
    {
        match (self.phase, answer) {
            (RustFnStartPhase::ReadPidFile, RustFnStartAnswer::PidFile(read)) => match read {
                Ok(Some(pid)) => {
                    self.phase = RustFnStartPhase::Observe(pid);
                },
                Ok(None) => self.go_on(),
                Err(err) => self.fail(err),
            },
            (RustFnStartPhase::Observe(pid), RustFnStartAnswer::Observed(look)) => match look {
                ObservedProcess::Matching => {
                    self.phase = RustFnStartPhase::Reattached(pid);
                },
                ObservedProcess::Mismatched => {
                    let function = self.function.clone();
                    self.fail(RustFnError::PidMismatch { pid, function });
                },
                ObservedProcess::Missing => {
                    self.phase = RustFnStartPhase::RemovePidFile;
                },
            },
            (RustFnStartPhase::RemovePidFile, RustFnStartAnswer::Removed(removed)) => {
                match remove_pid_file(removed) {
                    Ok(_) => self.go_on(),
                    Err(err) => self.fail(err),
                }
            },
            (RustFnStartPhase::CurrentExe, RustFnStartAnswer::Current(current)) => match current {
                Ok(_) => {
                    self.phase = RustFnStartPhase::Spawn;
                },
                Err(err) => self.fail(RustFnError::CurrentExe(err)),
            },
            (RustFnStartPhase::Spawn, RustFnStartAnswer::Started(started)) => match started {
                Ok(Some(pid)) => {
                    self.phase = RustFnStartPhase::CreateRunDir(pid);
                },
                Ok(None) => self.fail(RustFnError::MissingPid),
                Err(err) => self.fail(RustFnError::Io(err)),
            },
            (RustFnStartPhase::CreateRunDir(pid), RustFnStartAnswer::Done(done)) => {
                self.keep_or_kill(done, RustFnStartPhase::WritePidFile(pid))
            },
            (RustFnStartPhase::WritePidFile(pid), RustFnStartAnswer::Done(done)) => {
                self.keep_or_kill(done, RustFnStartPhase::Spawned(pid))
            },
            (RustFnStartPhase::KillChild, RustFnStartAnswer::Killed) => {
                self.phase = RustFnStartPhase::Failed;
            },
            _ => {},
        }
    }

    /// What came of the start, once nothing more is asked for: the process of
    /// the worker, and whether it was running before.
    pub fn result(self) -> (r: Option<Result<(u32, bool), RustFnError>>)
        ensures
            r == (match (self.phase, self.failure) {
                (RustFnStartPhase::Reattached(pid), _) => Some(Ok::<(u32, bool), RustFnError>((pid, true))),
                (RustFnStartPhase::Spawned(pid), _) => Some(Ok((pid, false))),
                (RustFnStartPhase::Failed, Some(err)) => Some(Err(err)),
                _ => None,
            }),
    {
        match (self.phase, self.failure) {
            (RustFnStartPhase::Reattached(pid), _) => Some(Ok((pid, true))),
            (RustFnStartPhase::Spawned(pid), _) => Some(Ok((pid, false))),
            (RustFnStartPhase::Failed, Some(err)) => Some(Err(err)),
            _ => None,
        }
    }
}

/// What is known at each phase of a start.
pub open spec fn rust_fn_start_inv(start: RustFnStart) -> bool {
    start.failure is Some == (start.phase is Failed || start.phase is KillChild)
}

/// How far a start is from its end.
pub open spec fn rust_fn_start_rank(phase: RustFnStartPhase) -> nat {
    match phase {
        RustFnStartPhase::ReadPidFile => 8,
        RustFnStartPhase::Observe(_) => 7,
        RustFnStartPhase::RemovePidFile => 6,
        RustFnStartPhase::CurrentExe => 5,
        RustFnStartPhase::Spawn => 4,
        RustFnStartPhase::CreateRunDir(_) => 3,
        RustFnStartPhase::WritePidFile(_) => 2,
        RustFnStartPhase::KillChild => 1,
        RustFnStartPhase::Reattached(_) => 0,
        RustFnStartPhase::Spawned(_) => 0,
        RustFnStartPhase::Failed => 0,
    }
}

/// A start that fails has a reason and one that does not fail has none, and
/// every answer that changes anything brings it nearer to its end.
pub proof fn law_rust_fn_start_ends(start: RustFnStart, answer: RustFnStartAnswer)
    requires
        rust_fn_start_inv(start),
    ensures
        rust_fn_start_inv(start.after(answer)),
        start.after(answer) == start || rust_fn_start_rank(start.after(answer).phase)
            < rust_fn_start_rank(start.phase),
{
}

/// A worker is reattached only if its process was found to be the worker, and
/// a process that is something else is never touched: the start fails.
pub proof fn law_reattach_only_to_worker(start: RustFnStart, answer: RustFnStartAnswer)
    ensures
        start.after(answer).phase is Reattached && start.phase !is Reattached ==> answer
            == RustFnStartAnswer::Observed(ObservedProcess::Matching) && start.phase is Observe,
        start.phase is Observe && answer == RustFnStartAnswer::Observed(ObservedProcess::Mismatched)
            ==> start.after(answer).phase is Failed,
{
}

/// A worker whose process id could not be written does not stay: the start
/// ends in failure, and the worker is killed before.
pub proof fn law_unrecorded_worker_is_killed(start: RustFnStart, err: IoError)
    requires
        start.phase is CreateRunDir || start.phase is WritePidFile,
    ensures
        ({
            let next = start.after(RustFnStartAnswer::Done(Err(err)));
            &&& next.phase is KillChild
            &&& next.after(RustFnStartAnswer::Killed).phase is Failed
            &&& next.after(RustFnStartAnswer::Killed).failure == Some(RustFnError::Io(err))
        }),
{
}

/// What is to be done next to stop a worker or to destroy it.
#[derive(Clone, Copy, Debug, PartialEq, Eq, Structural)]
pub enum RustFnStopPhase {
    /// Look what the process is.
    Observe,
    /// Signal the process.
    SendSignal(Signal),
    /// Wait for the process to exit.
    WaitExit,
    /// End the monitor.
    StopMonitor,
    /// Remove the process id file.
    RemovePidFile,
    /// Nothing: the worker is gone.
    Done,
    /// Nothing: it failed.
    Failed,
}

/// How a step ended.
#[derive(Debug)]
pub enum RustFnStopAnswer {
    /// What the process is.
    Observed(ObservedProcess),
    /// What became of the signal.
    Signalled(SignalReport),
    /// Whether the process exited in time.
    Exited(bool),
    /// The monitor has ended.
    MonitorStopped,
    /// How the removal of the process id file ended.
    Removed(Result<(), IoError>),
}

/// Why a worker could not be stopped.
#[derive(Debug)]
pub enum RustFnStopFailure {
    /// The process is something else.
    Mismatch,
    /// The process does not exist.
    NotRunning,
    /// The process could not be signalled.
    NotSignalled,
    /// The process did not exit in time.
    TimedOut,
    /// The process id file could not be removed.
    Io(IoError),
}

/// The stop of a worker, or its destruction.
#[derive(Debug)]
pub struct RustFnStop {
    /// What is to be done next.
    pub phase: RustFnStopPhase,
    /// The process.
    pub pid: u32,
    /// The function.
    pub function: String,
    /// Why it failed, if it did.
    pub failure: Option<RustFnStopFailure>,
}

impl RustFnStop {
    /// The same, in another phase.
    pub open spec fn in_phase(self, phase: RustFnStopPhase) -> RustFnStop {
        RustFnStop { phase, ..self }
    }

    /// The same, having failed.
    pub open spec fn failed(self, failure: RustFnStopFailure) -> RustFnStop {
        RustFnStop { phase: RustFnStopPhase::Failed, failure: Some(failure), ..self }
    }

    /// What follows an answer. An answer to something else changes nothing.
    pub open spec fn after(self, answer: RustFnStopAnswer) -> RustFnStop {
        match (self.phase, answer) {
            (RustFnStopPhase::Observe, RustFnStopAnswer::Observed(look)) => match look {
                ObservedProcess::Matching => self.in_phase(
                    RustFnStopPhase::SendSignal(Signal::Kill),
                ),
                ObservedProcess::Mismatched => self.failed(RustFnStopFailure::Mismatch),
                ObservedProcess::Missing => self.in_phase(RustFnStopPhase::StopMonitor),
            },
            (RustFnStopPhase::SendSignal(_), RustFnStopAnswer::Signalled(report)) => match report {
                SignalReport::Sent => self.in_phase(RustFnStopPhase::WaitExit),
                SignalReport::NotSent => self.failed(RustFnStopFailure::NotSignalled),
                SignalReport::NoProcess => self.failed(RustFnStopFailure::NotRunning),
            },
            (RustFnStopPhase::WaitExit, RustFnStopAnswer::Exited(true)) => self.in_phase(
                RustFnStopPhase::StopMonitor,
            ),
            (RustFnStopPhase::WaitExit, RustFnStopAnswer::Exited(false)) => self.failed(
                RustFnStopFailure::TimedOut,
            ),
            (RustFnStopPhase::StopMonitor, RustFnStopAnswer::MonitorStopped) => self.in_phase(
                RustFnStopPhase::RemovePidFile,
            ),
            (RustFnStopPhase::RemovePidFile, RustFnStopAnswer::Removed(removed)) => match removed {
                Ok(_) => self.in_phase(RustFnStopPhase::Done),
                Err(err) => if err.kind is NotFound {
                    self.in_phase(RustFnStopPhase::Done)
                } else {
                    self.failed(RustFnStopFailure::Io(err))
                },
            },
            _ => self,
        }
    }

    /// Notes a failure.
    fn fail(&mut self, failure: RustFnStopFailure)
        ensures
            *final(self) == old(self).failed(failure),
    {
        self.phase = RustFnStopPhase::Failed;
        self.failure = Some(failure);
    }

    /// Takes an answer.
    pub fn advance(&mut self, answer: RustFnStopAnswer)
        ensures
            *final(self) == old(self).after(answer),
    {
        match (self.phase, answer) {
            (RustFnStopPhase::Observe, RustFnStopAnswer::Observed(look)) => match look {
                ObservedProcess::Matching => {
                    self.phase = RustFnStopPhase::SendSignal(Signal::Kill);
                },
                ObservedProcess::Mismatched => self.fail(RustFnStopFailure::Mismatch),
                ObservedProcess::Missing => {
                    self.phase = RustFnStopPhase::StopMonitor;
                },
            },
            (RustFnStopPhase::SendSignal(_), RustFnStopAnswer::Signalled(report)) => match report {
                SignalReport::Sent => {
                    self.phase = RustFnStopPhase::WaitExit;
                },
                SignalReport::NotSent => self.fail(RustFnStopFailure::NotSignalled),
                SignalReport::NoProcess => self.fail(RustFnStopFailure::NotRunning),
            },
            (RustFnStopPhase::WaitExit, RustFnStopAnswer::Exited(exited)) => {
                if exited {
                    self.phase = RustFnStopPhase::StopMonitor;
                } else {
                    self.fail(RustFnStopFailure::TimedOut);
                }
            },
            (RustFnStopPhase::StopMonitor, RustFnStopAnswer::MonitorStopped) => {
                self.phase = RustFnStopPhase::RemovePidFile;
            },
            (RustFnStopPhase::RemovePidFile, RustFnStopAnswer::Removed(removed)) => match removed {
                Ok(_) => {
                    self.phase = RustFnStopPhase::Done;
                },
                Err(err) => if err.is_not_found() {
                    self.phase = RustFnStopPhase::Done;
                } else {
                    self.fail(RustFnStopFailure::Io(err));
                },
            },
            _ => {},
        }
    }

    /// Whether `r` is what came of it: nothing, as long as something is to be
    /// done.
    pub open spec fn results_in(self, r: Option<Result<(), RustFnError>>) -> bool {
        match (self.phase, self.failure) {
            (RustFnStopPhase::Done, _) => r == Some(Ok::<(), RustFnError>(())),
            (RustFnStopPhase::Failed, Some(failure)) => match failure {
                RustFnStopFailure::Mismatch => r == Some(
                    Err::<(), _>(
                        RustFnError::PidMismatch { pid: self.pid, function: self.function },
                    ),
                ),
                RustFnStopFailure::NotRunning => r matches Some(
                    Err(RustFnError::StalePidFile { path, pid }),
                ) && path@.len() == 0 && pid == self.pid,
                RustFnStopFailure::NotSignalled => r == Some(
                    Err::<(), _>(RustFnError::SignalFailed(self.pid)),
                ),
                RustFnStopFailure::TimedOut => r == Some(
                    Err::<(), _>(
                        RustFnError::StopTimeout {
                            pid: self.pid,
                            timeout: DEFAULT_STOP_WAIT_TIMEOUT,
                        },
                    ),
                ),
                RustFnStopFailure::Io(err) => r == Some(Err::<(), _>(RustFnError::Io(err))),
            },
            _ => r is None,
        }
    }

    /// What came of it, once nothing more is to be done.
    pub fn result(self) -> (r: Option<Result<(), RustFnError>>)
        ensures
            self.results_in(r),
    {
        match (self.phase, self.failure) {
            (RustFnStopPhase::Done, _) => Some(Ok(())),
            (RustFnStopPhase::Failed, Some(failure)) => Some(
                Err(
                    match failure {
                        RustFnStopFailure::Mismatch => RustFnError::PidMismatch {
                            pid: self.pid,
                            function: self.function,
                        },
                        RustFnStopFailure::NotRunning => RustFnError::StalePidFile {
                            path: String::new(),
                            pid: self.pid,
                        },
                        RustFnStopFailure::NotSignalled => RustFnError::SignalFailed(self.pid),
                        RustFnStopFailure::TimedOut => RustFnError::StopTimeout {
                            pid: self.pid,
                            timeout: DEFAULT_STOP_WAIT_TIMEOUT,
                        },
                        RustFnStopFailure::Io(err) => RustFnError::Io(err),
                    },
                ),
            ),
            _ => None,
        }
    }
}

impl FxRustFn {
    /// The start of the worker; a running one is reattached to instead.
    pub fn fx_start(&self) -> (r: RustFnStart)
        ensures
            r == (RustFnStart {
                phase: RustFnStartPhase::ReadPidFile,
                function: self.function,
                executable: self.executable is Some,
                failure: None,
            }),
            rust_fn_start_inv(r),
    {
        RustFnStart {
            phase: RustFnStartPhase::ReadPidFile,
            function: self.function.clone(),
            executable: self.executable.is_some(),
            failure: None,
        }
    }

    /// The stop of a worker: it is asked to terminate, and waited for.
    pub fn fx_stop(handle: &RustFnHandle) -> (r: RustFnStop)
        ensures
            r == (RustFnStop {
                phase: RustFnStopPhase::SendSignal(Signal::Term),
                pid: handle.pid,
                function: handle.function,
                failure: None,
            }),
    {
        RustFnStop {
            phase: RustFnStopPhase::SendSignal(Signal::Term),
            pid: handle.pid,
            function: handle.function.clone(),
            failure: None,
        }
    }

    /// The destruction of a worker: if its process is the worker, it is killed
    /// and waited for.
    pub fn fx_destroy(handle: &RustFnHandle) -> (r: RustFnStop)
        ensures
            r == (RustFnStop {
                phase: RustFnStopPhase::Observe,
                pid: handle.pid,
                function: handle.function,
                failure: None,
            }),
    {
        RustFnStop {
            phase: RustFnStopPhase::Observe,
            pid: handle.pid,
            function: handle.function.clone(),
            failure: None,
        }
    }
}

/// A destruction never signals a process that is not the worker.
pub proof fn law_destroy_spares_strangers(stop: RustFnStop, answer: RustFnStopAnswer)
    requires
        stop.phase is Observe,
    ensures
        stop.after(answer).phase is SendSignal ==> answer == RustFnStopAnswer::Observed(
            ObservedProcess::Matching,
        ),
{
}

/// The process id file is removed only once the process is gone: after it
/// exited, or after it was found not to exist.
pub proof fn law_pid_file_outlives_worker(stop: RustFnStop, answer: RustFnStopAnswer)
    ensures
        stop.after(answer).phase is StopMonitor && stop.phase !is StopMonitor ==> answer
            == RustFnStopAnswer::Exited(true) || answer == RustFnStopAnswer::Observed(
            ObservedProcess::Missing,
        ),
        stop.after(answer).phase is RemovePidFile && stop.phase !is RemovePidFile ==> stop.phase
            is StopMonitor,
{
}

/// What follows a look at a process that is to exit.
#[derive(Clone, Copy, Debug, PartialEq, Eq, Structural)]
pub enum WorkerExitStep {
    /// The process does not exist any more.
    Exited,
    /// The process still exists, and the time is up.
    TimedOut,
    /// The process still exists: look again after so many milliseconds.
    LookAfter(u64),
}

/// What follows a look at a process that is to exit, `elapsed` milliseconds
/// after the first.
pub fn wait_for_process_exit(exists: bool, elapsed: u64, timeout: u64) -> (r: WorkerExitStep)
    ensures
        r == (if !exists {
            WorkerExitStep::Exited
        } else if elapsed >= timeout {
            WorkerExitStep::TimedOut
        } else {
            WorkerExitStep::LookAfter(STOP_POLL_INTERVAL)
        }),
{
    if !exists {
        WorkerExitStep::Exited
    } else if elapsed >= timeout {
        WorkerExitStep::TimedOut
    } else {
        WorkerExitStep::LookAfter(STOP_POLL_INTERVAL)
    }
}

/// What a process id file holds is read back as the process that was written.
pub proof fn law_worker_pid_reads_back(pid: u32)
    ensures
        pid_in(decimal(pid as nat)) == Some(pid as nat),
{
    lemma_decimal(pid as nat);
    let s = decimal(pid as nat);
    assert(is_digit(s[0]) && is_digit(s.last()));
    assert(trimmed(s) == s);
}

/// Without a process id file the worker is started, its process id is written,
/// and the start ends with the new process; the current executable is asked for
/// only where none is configured.
pub proof fn law_fresh_worker_is_started(start: RustFnStart, pid: u32)
    requires
        start.phase is ReadPidFile,
    ensures
        ({
            let absent = start.after(RustFnStartAnswer::PidFile(Ok(None)));
            let known = if start.executable {
                absent
            } else {
                absent.after(RustFnStartAnswer::Current(Ok(())))
            };
            let spawned = known.after(RustFnStartAnswer::Started(Ok(Some(pid))));
            let made = spawned.after(RustFnStartAnswer::Done(Ok(())));
            let written = made.after(RustFnStartAnswer::Done(Ok(())));
            &&& !start.executable ==> absent.phase is CurrentExe
            &&& known.phase is Spawn
            &&& spawned.phase == RustFnStartPhase::CreateRunDir(pid)
            &&& made.phase == RustFnStartPhase::WritePidFile(pid)
            &&& written == (RustFnStart { phase: RustFnStartPhase::Spawned(pid), ..start })
        }),
{
}

/// The process of a process id file is looked at: the worker is reattached to,
/// something else makes the start fail, and where there is no such process the
/// file is removed and a worker started as without a file.
pub proof fn law_recorded_worker_is_observed(start: RustFnStart, pid: u32, not_found: IoError)
    requires
        start.phase is ReadPidFile,
        not_found.kind is NotFound,
    ensures
        ({
            let read = start.after(RustFnStartAnswer::PidFile(Ok(Some(pid))));
            let gone = read.after(RustFnStartAnswer::Observed(ObservedProcess::Missing));
            let absent = start.after(RustFnStartAnswer::PidFile(Ok(None)));
            &&& read.phase == RustFnStartPhase::Observe(pid)
            &&& read.after(RustFnStartAnswer::Observed(ObservedProcess::Matching)) == (RustFnStart {
                phase: RustFnStartPhase::Reattached(pid),
                ..start
            })
            &&& read.after(RustFnStartAnswer::Observed(ObservedProcess::Mismatched)) == (
            RustFnStart {
                phase: RustFnStartPhase::Failed,
                failure: Some(RustFnError::PidMismatch { pid, function: start.function }),
                ..start
            })
            &&& gone.phase is RemovePidFile
            &&& gone.after(RustFnStartAnswer::Removed(Ok(()))) == absent
            &&& gone.after(RustFnStartAnswer::Removed(Err(not_found))) == absent
        }),
{
}

/// An error ends a start, with that error: a process id file that cannot be read
/// or removed, an executable that is not known, and a worker that cannot be
/// started or has no process id.
pub proof fn law_worker_start_errors(start: RustFnStart, read: RustFnError, err: IoError)
    ensures
        ({
            let fails = |answer: RustFnStartAnswer, with: RustFnError|
                start.after(answer) == (RustFnStart {
                    phase: RustFnStartPhase::Failed,
                    failure: Some(with),
                    ..start
                });
            &&& start.phase is ReadPidFile ==> fails(RustFnStartAnswer::PidFile(Err(read)), read)
            &&& start.phase is RemovePidFile && !(err.kind is NotFound) ==> fails(
                RustFnStartAnswer::Removed(Err(err)),
                RustFnError::Io(err),
            )
            &&& start.phase is CurrentExe ==> fails(
                RustFnStartAnswer::Current(Err(err)),
                RustFnError::CurrentExe(err),
            )
            &&& start.phase is Spawn ==> fails(
                RustFnStartAnswer::Started(Err(err)),
                RustFnError::Io(err),
            )
            &&& start.phase is Spawn ==> fails(
                RustFnStartAnswer::Started(Ok(None)),
                RustFnError::MissingPid,
            )
        }),
{
}

/// A start fails only by an answer that reports an error, by a worker without a
/// process id or by a process that is something else.
pub proof fn law_worker_start_fails_for_cause(start: RustFnStart, answer: RustFnStartAnswer)
    requires
        !(start.phase is Failed),
        !(start.phase is KillChild),
    ensures
        start.after(answer).phase is Failed || start.after(answer).phase is KillChild ==> match answer {
            RustFnStartAnswer::PidFile(read) => read is Err,
            RustFnStartAnswer::Observed(look) => look is Mismatched,
            RustFnStartAnswer::Removed(removed) => removed is Err && !(
            removed->Err_0.kind is NotFound),
            RustFnStartAnswer::Current(current) => current is Err,
            RustFnStartAnswer::Started(started) => started is Err || started->Ok_0 is None,
            RustFnStartAnswer::Done(done) => done is Err,
            RustFnStartAnswer::Killed => false,
        },
{
}

/// A stop asks the process to end, waits for it, ends the monitor and removes
/// the process id file; a destruction does so with a process that is the worker,
/// which it kills, and where there is no process it goes on as if it had exited.
pub proof fn law_stop_removes_worker(stop: RustFnStop, removed: Result<(), IoError>)
    requires
        removed is Err ==> removed->Err_0.kind is NotFound,
    ensures
        ({
            let sent = RustFnStopAnswer::Signalled(SignalReport::Sent);
            let exited = |s: RustFnStop| s.after(RustFnStopAnswer::Exited(true));
            let ended = |s: RustFnStop|
                s.after(RustFnStopAnswer::MonitorStopped).after(RustFnStopAnswer::Removed(removed));
            let killing = stop.after(RustFnStopAnswer::Observed(ObservedProcess::Matching));
            let missing = stop.after(RustFnStopAnswer::Observed(ObservedProcess::Missing));
            let done = RustFnStop { phase: RustFnStopPhase::Done, ..stop };
            &&& stop.phase is SendSignal ==> {
                &&& stop.after(sent).phase is WaitExit
                &&& exited(stop.after(sent)).phase is StopMonitor
                &&& ended(exited(stop.after(sent))) == done
            }
            &&& stop.phase is Observe ==> {
                &&& killing.phase == RustFnStopPhase::SendSignal(Signal::Kill)
                &&& ended(exited(killing.after(sent))) == done
                &&& missing.phase is StopMonitor
                &&& missing.after(RustFnStopAnswer::MonitorStopped).phase is RemovePidFile
                &&& ended(missing) == done
            }
        }),
{
}

/// What makes a stop fail: a process that is something else, one that does not
/// exist or does not take the signal, one that does not exit in time, and a
/// process id file that exists and cannot be removed. Nothing else does.
pub proof fn law_stop_fails_for_cause(stop: RustFnStop, answer: RustFnStopAnswer)
    requires
        !(stop.phase is Failed),
    ensures
        stop.after(answer).phase is Failed <==> match stop.phase {
            RustFnStopPhase::Observe => answer == RustFnStopAnswer::Observed(
                ObservedProcess::Mismatched,
            ),
            RustFnStopPhase::SendSignal(_) => answer == RustFnStopAnswer::Signalled(
                SignalReport::NotSent,
            ) || answer == RustFnStopAnswer::Signalled(SignalReport::NoProcess),
            RustFnStopPhase::WaitExit => answer == RustFnStopAnswer::Exited(false),
            RustFnStopPhase::RemovePidFile => answer matches RustFnStopAnswer::Removed(Err(err))
                && !(err.kind is NotFound),
            _ => false,
        },
        stop.after(answer).pid == stop.pid,
        stop.after(answer).function == stop.function,
{
}

/// What a failed stop results in says why: the answer that ended it.
pub proof fn law_stop_errors(stop: RustFnStop, err: IoError, r: Option<Result<(), RustFnError>>)
    ensures
        stop.phase is Observe && stop.after(
            RustFnStopAnswer::Observed(ObservedProcess::Mismatched),
        ).results_in(r) ==> r == Some(
            Err::<(), _>(RustFnError::PidMismatch { pid: stop.pid, function: stop.function }),
        ),
        stop.phase is SendSignal && stop.after(
            RustFnStopAnswer::Signalled(SignalReport::NotSent),
        ).results_in(r) ==> r == Some(Err::<(), _>(RustFnError::SignalFailed(stop.pid))),
        stop.phase is SendSignal && stop.after(
            RustFnStopAnswer::Signalled(SignalReport::NoProcess),
        ).results_in(r) ==> (r matches Some(Err(RustFnError::StalePidFile { path, pid })) && path@
            == Seq::<char>::empty() && pid == stop.pid),
        stop.phase is WaitExit && stop.after(RustFnStopAnswer::Exited(false)).results_in(r) ==> r
            == Some(Err::<(), _>(RustFnError::StopTimeout { pid: stop.pid, timeout: 5_000 })),
        stop.phase is RemovePidFile && !(err.kind is NotFound) && stop.after(
            RustFnStopAnswer::Removed(Err(err)),
        ).results_in(r) ==> r == Some(Err::<(), _>(RustFnError::Io(err))),
        stop.phase is Done && stop.results_in(r) ==> r == Some(Ok::<(), RustFnError>(())),
        !(stop.phase is Done) && !(stop.phase is Failed) && stop.results_in(r) ==> r is None,
{
}

/// A worker command line names the word behind its first marker as the function,
/// and all that follows, but the separators, as the arguments.
pub proof fn law_worker_call(
    before: Seq<Seq<char>>,
    marker: Seq<char>,
    function: Seq<char>,
    rest: Seq<Seq<char>>,
)
    requires
        !before.contains(marker),
    ensures
        worker_call(before + seq![marker, function] + rest, marker) == (
            function,
            rest.filter(|word: Seq<char>| word != "--"@),
        ),
{
    let words = before + seq![marker, function] + rest;
    assert forall|i: int| 0 <= i < before.len() implies (#[trigger] words[i]) != marker by {
        assert(words[i] == before[i]);
        assert(before.contains(before[i]));
    }
    assert(words[before.len() as int] == marker);
    lemma_word_place(words, marker, before.len() as int);
    assert(words.skip(before.len() as int + 2) =~= rest);
    lemma_without_separators(rest);
}

proof fn lemma_without_separators(words: Seq<Seq<char>>)
    ensures
        without_separators(words) == words.filter(|word: Seq<char>| word != "--"@),
    decreases words.len(),
{
    reveal(Seq::filter);
    if words.len() > 0 {
        lemma_without_separators(words.drop_last());
    }
}

/// A worker is started with the marker, the function and its arguments, so that
/// it calls this function with these arguments, but for the separators.
pub proof fn law_worker_calls_function(worker: RustFnModel, executable: Seq<char>)
    requires
        executable != worker.worker_arg,
    ensures
        worker.worker_words() == seq![worker.worker_arg, worker.function] + worker.args,
        worker_call(seq![executable] + worker.worker_words(), worker.worker_arg) == (
            worker.function,
            worker.args.filter(|word: Seq<char>| word != "--"@),
        ),
{
    law_worker_call(seq![executable], worker.worker_arg, worker.function, worker.args);
    assert(seq![executable] + worker.worker_words() =~= seq![executable] + seq![
        worker.worker_arg,
        worker.function,
    ] + worker.args);
}

/// A process is taken for the worker exactly where the marker stands before the
/// function in its command line.
pub proof fn law_observed_processes(words: Seq<Seq<char>>, worker_arg: Seq<char>, function: Seq<char>)
    ensures
        observed(None, worker_arg, function) is Missing,
        observed(Some(words), worker_arg, function) is Matching <==> exists|i: int|
            0 <= i < words.len() - 1 && #[trigger] words[i] == worker_arg && words[i + 1] == function,
        observed(Some(words), worker_arg, function) is Matching || observed(
            Some(words),
            worker_arg,
            function,
        ) is Mismatched,
{
    if runs_worker(words, worker_arg, function) {
        let i = choose|i: int|
            0 <= i && i + 1 < words.len() && #[trigger] words[i] == worker_arg && words[i + 1]
                == function;
        assert(words[i] == worker_arg && words[i + 1] == function);
    }
}

/// A function is registered exactly where an entry has its name, and the first
/// such entry is the one that counts.
pub proof fn law_functions_by_name<F>(list: Seq<(String, F)>, name: Seq<char>)
    ensures
        functions_by_name(list).dom().contains(name) <==> exists|i: int|
            0 <= i < list.len() && (#[trigger] list[i]).0@ == name,
        forall|i: int|
            0 <= i < list.len() && (#[trigger] list[i]).0@ == name && (forall|j: int|
                0 <= j < i ==> (#[trigger] list[j]).0@ != name) ==> functions_by_name(list)[name]
                == list[i].1,
{
    lemma_name_place(list, name);
    assert forall|i: int|
        0 <= i < list.len() && (#[trigger] list[i]).0@ == name && (forall|j: int|
            0 <= j < i ==> (#[trigger] list[j]).0@ != name) implies functions_by_name(list)[name]
        == list[i].1 by {
        lemma_name_place_is(list, name, i);
    }
    if exists|i: int| 0 <= i < list.len() && (#[trigger] list[i]).0@ == name {
        let i = choose|i: int| 0 <= i < list.len() && (#[trigger] list[i]).0@ == name;
        if name_place(list, name) == list.len() {
            assert(list[i].0@ != name);
        }
    }
}

/// The name of a process id file keeps letters, digits, hyphens and underscores,
/// has an underscore for any other character, and ends in `.pid`.
pub proof fn law_pid_names(run_dir: Seq<char>, function: Seq<char>, i: int)
    requires
        0 <= i < function.len(),
    ensures
        pid_name(function).len() == function.len(),
        pid_name(function)[i] == if is_alphanumeric(function[i]) || function[i] == '-' || function[i]
            == '_' {
            function[i]
        } else {
            '_'
        },
        pid_file_of(run_dir, function) == path_join(run_dir, pid_name(function) + ".pid"@),
{
}

/// What is said of a process that is no more the worker names the process and
/// the function.
pub proof fn law_mismatch_text(pid: u32, quoted: Seq<char>)
    ensures
        mismatch_text(pid, quoted) == "pid "@ + decimal(pid as nat)
            + " no longer matches rust function worker "@ + quoted,
{
}

/// A worker may take five seconds to stop and is looked at twenty times a
/// second; a reattached one is looked at every two seconds.
pub proof fn law_worker_time_limits()
    ensures
        DEFAULT_STOP_WAIT_TIMEOUT == 5 * 1000,
        20 * STOP_POLL_INTERVAL == 1000,
        DEFAULT_REATTACH_POLL_INTERVAL == 2 * 1000,
{
}

/// A file that was removed, or was not there, is gone; any other error of the
/// system stays one.
pub proof fn law_removals(err: IoError)
    ensures
        removal(Ok(())) is Ok,
        err.kind is NotFound ==> removal(Err(err)) is Ok,
        !(err.kind is NotFound) ==> removal(Err(err)) == Err::<(), RustFnError>(RustFnError::Io(err)),
{
}

} // verus!
