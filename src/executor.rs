//! The decisions of one run: whether there is anything to run, whether the
//! cache already holds the verdict, and what to record once the process has
//! been started. Reading the sandbox's files and starting the process are
//! left to the caller, who hands back what came of them.

use vstd::prelude::*;
use crate::cache::Cache;
use crate::command::{lemma_split_spaces_nonempty, split_spaces, split_words, string_views};
use crate::entry::{decode_entry, encode_entry, entry_json, entry_verdict, exit_verdict};
use crate::environment::Lang;
use crate::key::{cache_key, key_of};

verus! {

/// A process to start in the sandbox root, and the key to record its
/// result under.
pub struct Invocation {
    pub key: String,
    pub program: String,
    pub args: Vec<String>,
}

/// What a lookup decided.
pub enum Lookup {
    /// The verdict was recorded before; nothing is to be run.
    Cached(bool, String),
    /// Nothing is recorded under the key: the process must be started.
    Run(Invocation),
}

/// What came of starting the process.
pub enum Outcome {
    /// The process could not be started; the cause as the system gave it.
    NotStarted(String),
    /// The process ran to its end. `code` is absent where it ended without
    /// an exit status; `stderr` is absent where its standard error was not
    /// valid UTF-8.
    Exited { code: Option<i32>, stderr: Option<String> },
}

/// The exit code recorded for an exit: a missing status counts as 1.
pub open spec fn exit_code_of(code: Option<i32>) -> i32 {
    match code {
        Some(c) => c,
        None => 1,
    }
}

/// The diagnostic text recorded for an exit.
pub open spec fn stderr_of(stderr: Option<String>) -> Seq<char> {
    match stderr {
        Some(s) => s@,
        None => "Failed to read stderr"@,
    }
}

/// The message for a process that could not be started.
pub open spec fn not_started_message(cause: Seq<char>) -> Seq<char> {
    "Failed to execute command: "@ + cause
}

/// The entry stored for an outcome; nothing for a process that did not start.
pub open spec fn stored_entry(outcome: Outcome) -> Option<Seq<char>> {
    match outcome {
        Outcome::NotStarted(_) => None,
        Outcome::Exited { code, stderr } => Some(entry_json(exit_code_of(code), stderr_of(stderr))),
    }
}

/// The cache after recording `outcome` under `key`.
pub open spec fn recorded(cache: Map<Seq<char>, Seq<char>>, key: Seq<char>, outcome: Outcome) -> Map<
    Seq<char>,
    Seq<char>,
> {
    match stored_entry(outcome) {
        Some(entry) => cache.insert(key, entry),
        None => cache,
    }
}

/// The verdict returned for an outcome: the verdict that its stored entry
/// stands for, or the start failure.
pub open spec fn outcome_verdict(outcome: Outcome) -> (bool, Seq<char>) {
    match outcome {
        Outcome::NotStarted(cause) => (false, not_started_message(cause@)),
        Outcome::Exited { code, stderr } => entry_verdict(
            entry_json(exit_code_of(code), stderr_of(stderr)),
        ),
    }
}

/// The verdict the cache holds under `key`, if it holds an entry there.
pub open spec fn cached_verdict(cache: Map<Seq<char>, Seq<char>>, key: Seq<char>) -> Option<
    (bool, Seq<char>),
> {
    if cache.contains_key(key) {
        Some(entry_verdict(cache[key]))
    } else {
        None
    }
}

/// Memoisation: once a process that ran has been recorded under the key of
/// a command and file contents, every later lookup of that command over the
/// same contents finds the entry, starts no process, and yields the verdict
/// that the recording returned.
pub proof fn lemma_memoized(
    cache: Map<Seq<char>, Seq<char>>,
    command: Seq<char>,
    contents: Seq<Seq<char>>,
    outcome: Outcome,
)
    requires
        outcome is Exited,
    ensures
        ({
            let key = key_of(command, contents);
            cached_verdict(recorded(cache, key, outcome), key) == Some(outcome_verdict(outcome))
        }),
{
}

/// A process that could not be started leaves no entry: the cache is as it
/// was, so a lookup that missed before misses again and the process is
/// started anew.
pub proof fn lemma_not_started_is_not_recorded(
    cache: Map<Seq<char>, Seq<char>>,
    command: Seq<char>,
    contents: Seq<Seq<char>>,
    cause: String,
)
    ensures
        ({
            let key = key_of(command, contents);
            &&& recorded(cache, key, Outcome::NotStarted(cause)) == cache
            &&& cached_verdict(recorded(cache, key, Outcome::NotStarted(cause)), key)
                == cached_verdict(cache, key)
        }),
{
}

/// True where the environment treats `command` as having nothing to run:
/// the run then succeeds at once with an empty message, without reading
/// any file or touching the cache.
pub fn nothing_to_run(lang: Lang, command: &str) -> (r: bool)
    ensures
        r == (lang.empty_command_is_noop() && command@.len() == 0),
{
    lang.empty_command_runs_nothing() && command.unicode_len() == 0
}

/// Looks up the verdict for `command` over the contents of the
/// environment's source-defining files, given in cache-key order. On a miss,
/// says which process to start: the first space-separated word of the
/// command, adjusted for the platform, with the remaining words as
/// arguments.
pub fn lookup(
    lang: Lang,
    command: &str,
    contents: &Vec<String>,
    cache: &Cache,
    on_windows: bool,
) -> (r: Lookup)
    ensures
        ({
            let key = key_of(command@, string_views(contents@));
            &&& cached_verdict(cache@, key) == match r {
                Lookup::Cached(success, message) => Some((success, message@)),
                Lookup::Run(_) => None,
            }
            &&& r matches Lookup::Run(inv) ==> {
                &&& inv.key@ == key
                &&& inv.program@ == lang.spec_program_name(split_spaces(command@)[0], on_windows)
                &&& string_views(inv.args@) == split_spaces(command@).skip(1)
            }
        }),
{
    let key = cache_key(command, contents);
    match cache.get(&key) {
        Some(entry) => {
            let (success, message) = decode_entry(entry.as_str());
            Lookup::Cached(success, message)
        },
        None => {
            let mut words = split_words(command);
            proof {
                lemma_split_spaces_nonempty(command@);
            }
            let ghost all = string_views(words@);
            let first = words.remove(0);
            assert(string_views(words@) =~= all.skip(1));
            let program = lang.program_name(first.as_str(), on_windows);
            Lookup::Run(Invocation { key, program, args: words })
        },
    }
}

/// Records what came of starting the process for `key` and returns the
/// verdict. A process that ran is recorded, whatever its exit code; one that
/// could not be started is not, so that a later run starts it again.
pub fn record(cache: &mut Cache, key: String, outcome: Outcome) -> (r: (bool, String))
    ensures
        final(cache)@ == recorded(old(cache)@, key@, outcome),
        (r.0, r.1@) == outcome_verdict(outcome),
        outcome matches Outcome::Exited { code, stderr } ==> {
            &&& (r.0, r.1@) == exit_verdict(exit_code_of(code), stderr_of(stderr))
            &&& cached_verdict(final(cache)@, key@) == Some((r.0, r.1@))
        },
{
    match outcome {
        Outcome::NotStarted(cause) => {
            let message = "Failed to execute command: ".to_owned().concat(cause.as_str());
            (false, message)
        },
        Outcome::Exited { code, stderr } => {
            let exit_code = match code {
                Some(c) => c,
                None => 1,
            };
            let text = match stderr {
                Some(s) => s,
                None => "Failed to read stderr".to_owned(),
            };
            let entry = encode_entry(exit_code, text.as_str());
            let verdict = decode_entry(entry.as_str());
            cache.set(key, entry);
            verdict
        },
    }
}

} // verus!
