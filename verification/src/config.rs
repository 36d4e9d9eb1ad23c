//! The pipeline's configuration: four command lines and the quiet window.

use crate::orchestrator::Stage;
use crate::text::chars_of;
use vstd::prelude::*;

verus! {

/// The message on a command string that holds no word.
pub const EMPTY_COMMAND: &'static str = "Expected cmd to not be empty";

/// The characters that separate the words of a command string: space, tab,
/// line feed, form feed and carriage return.
pub open spec fn is_separator(c: char) -> bool {
    c == ' ' || c == '\t' || c == '\n' || c == '\x0C' || c == '\r'
}

/// The length of the longest run of characters at the start of `s` that
/// holds no separator.
pub open spec fn word_len(s: Seq<char>) -> nat
    decreases s.len(),
{
    if s.len() == 0 || is_separator(s[0]) {
        0
    } else {
        1 + word_len(s.drop_first())
    }
}

/// The words of `s`: the longest runs of characters that hold no separator,
/// in order. No word is empty.
pub open spec fn words(s: Seq<char>) -> Seq<Seq<char>>
    decreases s.len(),
    via words_decreases
{
    if s.len() == 0 {
        Seq::empty()
    } else if is_separator(s[0]) {
        words(s.drop_first())
    } else {
        seq![s.take(word_len(s) as int)] + words(s.skip(word_len(s) as int))
    }
}

#[via_fn]
proof fn words_decreases(s: Seq<char>) {
    lemma_word_len_bounds(s);
}

/// A word is no longer than the text it starts, and not empty where the text
/// starts with a character that is no separator.
pub proof fn lemma_word_len_bounds(s: Seq<char>)
    ensures
        word_len(s) <= s.len(),
        s.len() > 0 && !is_separator(s[0]) ==> word_len(s) >= 1,
    decreases s.len(),
{
    if s.len() > 0 && !is_separator(s[0]) {
        lemma_word_len_bounds(s.drop_first());
    }
}

/// The word at the start of `s` ends where the first separator stands, or
/// where `s` ends.
pub proof fn lemma_word_len_is(s: Seq<char>, n: int)
    requires
        0 <= n <= s.len(),
        forall|k: int| 0 <= k < n ==> !is_separator(#[trigger] s[k]),
        n == s.len() || is_separator(s[n]),
    ensures
        word_len(s) == n,
    decreases n,
{
    if n > 0 {
        let rest = s.drop_first();
        assert forall|k: int| 0 <= k < n - 1 implies !is_separator(#[trigger] rest[k]) by {
            assert(rest[k] == s[k + 1]);
        }
        lemma_word_len_is(rest, n - 1);
    }
}

/// A program and its arguments.
#[derive(Clone, Debug, PartialEq, Eq)]
pub struct CommandLine {
    pub program: String,
    pub args: Vec<String>,
}

impl CommandLine {
    /// The program followed by its arguments.
    pub open spec fn words(&self) -> Seq<Seq<char>> {
        seq![self.program@] + self.args.deep_view()
    }
}

/// Tells whether a character separates words.
pub fn separates(c: char) -> (separator: bool)
    ensures
        separator == is_separator(c),
{
    c == ' ' || c == '\t' || c == '\n' || c == '\x0C' || c == '\r'
}

/// Splits a string into its words.
pub fn split_words(s: &str) -> (found: Vec<String>)
    ensures
        found.deep_view() == words(s@),
{
    let chars = chars_of(s);
    let mut found: Vec<String> = Vec::new();
    let mut i: usize = 0;
    assert(found.deep_view() =~= Seq::<Seq<char>>::empty());
    assert(chars@.skip(0) =~= chars@);
    while i < chars.len()
        invariant
            chars@ == s@,
            i <= chars.len(),
            found.deep_view() + words(chars@.skip(i as int)) == words(chars@),
        decreases chars.len() - i,
    {
        let ghost rest = chars@.skip(i as int);
        if separates(chars[i]) {
            assert(rest.drop_first() =~= chars@.skip(i + 1));
            i += 1;
        } else {
            let start = i;
            while i < chars.len() && !separates(chars[i])
                invariant
                    start <= i <= chars.len(),
                    forall|k: int| start <= k < i ==> !is_separator(#[trigger] chars@[k]),
                decreases chars.len() - i,
            {
                i += 1;
            }
            let word = s.substring_char(start, i).to_owned();
            proof {
                lemma_word_len_is(rest, i - start);
                assert(rest.take(i - start) =~= s@.subrange(start as int, i as int));
                assert(rest.skip(i - start) =~= chars@.skip(i as int));
                let before = found.deep_view();
                assert(before.push(word@) + words(chars@.skip(i as int)) =~= before + words(rest));
            }
            let ghost before = found.deep_view();
            found.push(word);
            assert(found.deep_view() =~= before.push(word@));
        }
    }
    assert(words(chars@.skip(chars.len() as int)) =~= Seq::<Seq<char>>::empty());
    assert(found.deep_view() + Seq::<Seq<char>>::empty() =~= found.deep_view());
    found
}

/// Reads a command string: the first word is the program, the others are its
/// arguments. A string without a word is refused.
pub fn cmd_from_string(s: String) -> (parsed: Result<CommandLine, &'static str>)
    ensures
        match parsed {
            Ok(command) => command.words() == words(s@),
            Err(message) => words(s@).len() == 0 && message@ == EMPTY_COMMAND@,
        },
{
    let mut found = split_words(s.as_str());
    if found.len() == 0 {
        return Err(EMPTY_COMMAND);
    }
    let ghost all = found.deep_view();
    let program = found.remove(0);
    assert(found.deep_view() =~= all.skip(1));
    assert(seq![program@] + all.skip(1) =~= all);
    Ok(CommandLine { program, args: found })
}

/// A configuration that cannot be used.
#[derive(Clone, Copy, Debug, PartialEq, Eq, Structural)]
pub enum ConfigError {
    /// The command string of this stage holds no word.
    EmptyCommand(Stage),
}

/// The commands of the four stages and the quiet window of the debouncer, in
/// nanoseconds.
#[derive(Clone, Debug, PartialEq, Eq)]
pub struct PipelineConfig {
    pub build: CommandLine,
    pub test: CommandLine,
    pub commit: CommandLine,
    pub revert: CommandLine,
    pub debounce: u128,
}

/// The first stage, in the order build, test, commit, revert, whose command
/// string holds no word.
pub open spec fn first_empty_command(
    build: Seq<char>,
    test: Seq<char>,
    commit: Seq<char>,
    revert: Seq<char>,
) -> Option<Stage> {
    if words(build).len() == 0 {
        Some(Stage::Build)
    } else if words(test).len() == 0 {
        Some(Stage::Test)
    } else if words(commit).len() == 0 {
        Some(Stage::Commit)
    } else if words(revert).len() == 0 {
        Some(Stage::Revert)
    } else {
        None
    }
}

impl PipelineConfig {
    /// Reads the four command strings. The configuration is refused where a
    /// command string holds no word, with the first such stage.
    pub fn parse(
        build: String,
        test: String,
        commit: String,
        revert: String,
        debounce: u128,
    ) -> (parsed: Result<PipelineConfig, ConfigError>)
        ensures
            match parsed {
                Ok(config) => {
                    &&& first_empty_command(build@, test@, commit@, revert@) is None
                    &&& config.build.words() == words(build@)
                    &&& config.test.words() == words(test@)
                    &&& config.commit.words() == words(commit@)
                    &&& config.revert.words() == words(revert@)
                    &&& config.debounce == debounce
                },
                Err(ConfigError::EmptyCommand(stage)) => first_empty_command(
                    build@,
                    test@,
                    commit@,
                    revert@,
                ) == Some(stage),
            },
    {
        let build = match cmd_from_string(build) {
            Ok(command) => command,
            Err(_) => {
                return Err(ConfigError::EmptyCommand(Stage::Build));
            },
        };
        let test = match cmd_from_string(test) {
            Ok(command) => command,
            Err(_) => {
                return Err(ConfigError::EmptyCommand(Stage::Test));
            },
        };
        let commit = match cmd_from_string(commit) {
            Ok(command) => command,
            Err(_) => {
                return Err(ConfigError::EmptyCommand(Stage::Commit));
            },
        };
        let revert = match cmd_from_string(revert) {
            Ok(command) => command,
            Err(_) => {
                return Err(ConfigError::EmptyCommand(Stage::Revert));
            },
        };
        Ok(PipelineConfig { build, test, commit, revert, debounce })
    }
}

} // verus!
