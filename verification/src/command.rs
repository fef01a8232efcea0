//! The bot-command parser: a required mention prefix, POSIX shell word
//! splitting, and a fixed grammar `format [--squash]` over the tokens.

use vstd::prelude::*;
use vstd::string::*;
use crate::strutil::str_eq;
use crate::strutil::str_starts_with;

verus! {

/// What POSIX shell word splitting makes of a text: its token list, or
/// nothing when quoting is unterminated. Stands for `shell_words::split`,
/// a deterministic function of the text alone.
pub uninterp spec fn shell_split(text: Seq<char>) -> Option<Seq<Seq<char>>>;

/// Relies on `shell_words::split`: POSIX shell word splitting, with quoting
/// and escaping honored; it fails exactly on unterminated quoting.
#[verifier::external_body]
fn split_words(text: &str) -> (r: Option<Vec<String>>)
    ensures
        match r {
            Some(tokens) => shell_split(text@) == Some(tokens.deep_view()),
            None => shell_split(text@) is None,
        },
{
    shell_words::split(text).ok()
}

/// The one recognized subcommand.
#[derive(Debug, Clone, Copy, PartialEq, Eq, Structural)]
pub enum Subcommand {
    Format,
}

/// A recognized bot command.
#[derive(Debug, Clone, Copy, PartialEq, Eq, Structural)]
pub struct BotCommand {
    pub subcommand: Subcommand,
    pub squash: bool,
}

/// Why a comment yielded no command. `NotAddressedToBot` is the expected,
/// ignorable case; the other two call for a usage message.
#[derive(Debug, Clone)]
pub enum CommandError {
    NotAddressedToBot,
    InvalidSyntax,
    UnknownCommand { raw_tokens: Vec<String> },
}

/// The mention that must open a comment addressed to the bot.
pub open spec fn spec_mention(bot_name: Seq<char>) -> Seq<char> {
    "@"@ + bot_name
}

/// Whether a token list fits the grammar `<mention> format [--squash]`.
/// The first token is the mention, already checked against the comment text.
pub open spec fn spec_grammar_ok(tokens: Seq<Seq<char>>) -> bool {
    ||| (tokens.len() == 2 && tokens[1] == "format"@)
    ||| (tokens.len() == 3 && tokens[1] == "format"@ && tokens[2] == "--squash"@)
}

/// The command a well-formed token list denotes.
pub open spec fn spec_command_of(tokens: Seq<Seq<char>>) -> BotCommand {
    BotCommand { subcommand: Subcommand::Format, squash: tokens.len() == 3 }
}

/// Builds the mention prefix `@<bot_name>`.
pub fn mention_prefix(bot_name: &str) -> (r: String)
    ensures
        r@ == spec_mention(bot_name@),
{
    let mut m = String::from_str("@");
    m.append(bot_name);
    m
}

/// Parses a comment body into a bot command: the body must open with the
/// mention, split into shell words, and fit the grammar; each failure is
/// told apart exactly.
pub fn parse(comment_body: &str, bot_name: &str) -> (r: Result<BotCommand, CommandError>)
    ensures
        !spec_mention(bot_name@).is_prefix_of(comment_body@) <==> r matches Err(
            CommandError::NotAddressedToBot,
        ),
        spec_mention(bot_name@).is_prefix_of(comment_body@) ==> match shell_split(
            comment_body@,
        ) {
            None => r matches Err(CommandError::InvalidSyntax),
            Some(tokens) => {
                &&& r is Ok <==> spec_grammar_ok(tokens)
                &&& r is Ok ==> r->Ok_0 == spec_command_of(tokens)
                &&& !spec_grammar_ok(tokens) ==> (r matches Err(
                    CommandError::UnknownCommand { raw_tokens },
                ) && raw_tokens.deep_view() == tokens)
            },
        },
{
    let mention = mention_prefix(bot_name);
    if !str_starts_with(comment_body, mention.as_str()) {
        return Err(CommandError::NotAddressedToBot);
    }
    let tokens = match split_words(comment_body) {
        Some(t) => t,
        None => {
            return Err(CommandError::InvalidSyntax);
        },
    };
    if tokens.len() == 2 && str_eq(tokens[1].as_str(), "format") {
        assert(tokens.deep_view()[1] == tokens@[1]@);
        Ok(BotCommand { subcommand: Subcommand::Format, squash: false })
    } else if tokens.len() == 3 && str_eq(tokens[1].as_str(), "format") && str_eq(
        tokens[2].as_str(),
        "--squash",
    ) {
        assert(tokens.deep_view()[1] == tokens@[1]@);
        assert(tokens.deep_view()[2] == tokens@[2]@);
        Ok(BotCommand { subcommand: Subcommand::Format, squash: true })
    } else {
        proof {
            assert(tokens.deep_view().len() == tokens@.len());
            assert(forall|j: int| 0 <= j < tokens@.len() ==> tokens.deep_view()[j]
                == #[trigger] tokens@[j]@);
        }
        Err(CommandError::UnknownCommand { raw_tokens: tokens })
    }
}

} // verus!
