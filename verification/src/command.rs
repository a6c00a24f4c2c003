//! Validation of the SSH command a user enters for an instance.
//!
//! The command is split into words the way a POSIX shell would, a leading
//! `ssh` is dropped, and the options are held against the lists of what a
//! multiplexed, non-interactive session can tolerate.

use vstd::prelude::*;
use vstd::string::StringExecFns;
use crate::model::DesktopSshParsedCommand;
use crate::model::ParsedCommandView;
use crate::model::lemma_texts_push;
use crate::text::char_is_space;
use crate::text::from_chars;
use crate::text::is_space;
use crate::text::is_text;
use crate::text::lower;
use crate::text::lowered;
use crate::text::push_chars;
use crate::text::push_str;
use crate::text::rows;
use crate::text::slice;
use crate::text::texts;
use crate::text::to_chars;
use crate::text::trim;
use crate::text::trimmed;

verus! {

/// Why a command was refused.
#[derive(Debug, PartialEq, Eq)]
pub enum SshCommandError {
    /// A quote was opened and never closed.
    UnclosedQuote,
    /// The command holds no word at all.
    Empty,
    /// No destination follows the options.
    MissingDestination,
    /// A word follows the destination.
    TrailingArgument(String),
    /// The option is reserved for the session manager.
    DisallowedOption(String),
    /// The option needs a value and the command ends after it.
    MissingValue(String),
    /// The option is not one the session manager passes along.
    UnsupportedOption(String),
}

pub enum CommandFault {
    UnclosedQuote,
    Empty,
    MissingDestination,
    TrailingArgument(Seq<char>),
    DisallowedOption(Seq<char>),
    MissingValue(Seq<char>),
    UnsupportedOption(Seq<char>),
}

impl View for SshCommandError {
    type V = CommandFault;

    open spec fn view(&self) -> CommandFault {
        match self {
            SshCommandError::UnclosedQuote => CommandFault::UnclosedQuote,
            SshCommandError::Empty => CommandFault::Empty,
            SshCommandError::MissingDestination => CommandFault::MissingDestination,
            SshCommandError::TrailingArgument(t) => CommandFault::TrailingArgument(t@),
            SshCommandError::DisallowedOption(t) => CommandFault::DisallowedOption(t@),
            SshCommandError::MissingValue(t) => CommandFault::MissingValue(t@),
            SshCommandError::UnsupportedOption(t) => CommandFault::UnsupportedOption(t@),
        }
    }
}

/// The sentence shown to the user for a refusal.
pub open spec fn fault_message(f: CommandFault) -> Seq<char> {
    match f {
        CommandFault::UnclosedQuote => "Unclosed quote in SSH command"@,
        CommandFault::Empty => "SSH command is empty"@,
        CommandFault::MissingDestination => "SSH command must include destination"@,
        CommandFault::TrailingArgument(t) => "SSH command has unsupported trailing argument: "@ + t,
        CommandFault::DisallowedOption(t) => "SSH option "@ + t + " is not allowed"@,
        CommandFault::MissingValue(t) => "SSH option "@ + t + " requires a value"@,
        CommandFault::UnsupportedOption(t) => "Unsupported SSH option: "@ + t,
    }
}

impl SshCommandError {
    /// The sentence shown to the user.
    pub fn message(&self) -> (r: String)
        ensures
            r@ == fault_message(self@),
    {
        match self {
            SshCommandError::UnclosedQuote => String::from_str("Unclosed quote in SSH command"),
            SshCommandError::Empty => String::from_str("SSH command is empty"),
            SshCommandError::MissingDestination => String::from_str(
                "SSH command must include destination",
            ),
            SshCommandError::TrailingArgument(t) => String::from_str(
                "SSH command has unsupported trailing argument: ",
            ).concat(t.as_str()),
            SshCommandError::DisallowedOption(t) => String::from_str("SSH option ").concat(
                t.as_str(),
            ).concat(" is not allowed"),
            SshCommandError::MissingValue(t) => String::from_str("SSH option ").concat(
                t.as_str(),
            ).concat(" requires a value"),
            SshCommandError::UnsupportedOption(t) => String::from_str(
                "Unsupported SSH option: ",
            ).concat(t.as_str()),
        }
    }
}

/// The words that precede, put in front of the words that a scan of the rest gives.
pub open spec fn with_front(front: Seq<Seq<char>>, rest: Option<Seq<Seq<char>>>) -> Option<
    Seq<Seq<char>>,
> {
    match rest {
        Some(words) => Some(front + words),
        None => None,
    }
}

/// The words of `s`, read with the given quoting state and with `cur` as the
/// word under construction. A backslash outside single quotes takes the next
/// character literally; a quote toggles its scope unless the other scope is
/// open; white space outside quotes ends a word. `None` when a quote is
/// still open at the end.
pub open spec fn scan(s: Seq<char>, in_single: bool, in_double: bool, cur: Seq<char>) -> Option<
    Seq<Seq<char>>,
>
    decreases s.len(),
{
    if s.len() == 0 {
        if in_single || in_double {
            None
        } else if cur.len() > 0 {
            Some(seq![cur])
        } else {
            Some(Seq::empty())
        }
    } else {
        let c = s[0];
        let rest = s.drop_first();
        if c == '\\' && !in_single {
            if rest.len() > 0 {
                scan(rest.drop_first(), in_single, in_double, cur.push(rest[0]))
            } else {
                scan(rest, in_single, in_double, cur)
            }
        } else if c == '\'' && !in_double {
            scan(rest, !in_single, in_double, cur)
        } else if c == '"' && !in_single {
            scan(rest, in_single, !in_double, cur)
        } else if is_space(c) && !in_single && !in_double {
            if cur.len() > 0 {
                with_front(seq![cur], scan(rest, false, false, Seq::empty()))
            } else {
                scan(rest, false, false, cur)
            }
        } else {
            scan(rest, in_single, in_double, cur.push(c))
        }
    }
}

/// The words of a command line; `None` when a quote is left open.
pub open spec fn shell_words(s: Seq<char>) -> Option<Seq<Seq<char>>> {
    scan(s, false, false, Seq::empty())
}

/// A flag that would take the multiplexing or the terminal out of the
/// session manager's hands.
pub open spec fn is_disallowed_flag(t: Seq<char>) -> bool {
    &&& t.len() == 2
    &&& t[0] == '-'
    &&& (t[1] == 'M' || t[1] == 'S' || t[1] == 'O' || t[1] == 'N' || t[1] == 't' || t[1] == 'T'
        || t[1] == 'f' || t[1] == 'G' || t[1] == 'W' || t[1] == 'v' || t[1] == 'V' || t[1] == 'q'
        || t[1] == 'n' || t[1] == 's' || t[1] == 'e' || t[1] == 'E' || t[1] == 'g')
}

/// A flag that is passed along and takes no value.
pub open spec fn is_bare_flag(t: Seq<char>) -> bool {
    &&& t.len() == 2
    &&& t[0] == '-'
    &&& (t[1] == '4' || t[1] == '6' || t[1] == 'A' || t[1] == 'a' || t[1] == 'C' || t[1] == 'K'
        || t[1] == 'k' || t[1] == 'X' || t[1] == 'x' || t[1] == 'Y' || t[1] == 'y')
}

/// The letter of an option that is passed along with a value.
pub open spec fn is_value_letter(c: char) -> bool {
    c == 'B' || c == 'b' || c == 'c' || c == 'D' || c == 'F' || c == 'I' || c == 'i' || c == 'J'
        || c == 'l' || c == 'm' || c == 'o' || c == 'P' || c == 'p' || c == 'R'
}

/// An option whose value is the next word.
pub open spec fn is_value_option(t: Seq<char>) -> bool {
    t.len() == 2 && t[0] == '-' && is_value_letter(t[1])
}

/// An option with its value glued on.
pub open spec fn is_glued_option(t: Seq<char>) -> bool {
    t.len() > 2 && t[0] == '-' && is_value_letter(t[1])
}

/// The length of the keyword that a text begins with: the characters
/// before the first equals sign or white space.
pub open spec fn keyword_len(t: Seq<char>) -> nat
    decreases t.len(),
{
    if t.len() == 0 || t[0] == '=' || is_space(t[0]) {
        0
    } else {
        1 + keyword_len(t.drop_first())
    }
}

/// The keyword that the value of an `-o` option sets, in lower case: what
/// stands before the first equals sign or white space of the value, once
/// it is trimmed.
pub open spec fn option_keyword(value: Seq<char>) -> Seq<char> {
    let t = trim(value);
    lower(t.take(keyword_len(t) as int))
}

/// Whether the value of an `-o` option sets a keyword that the session
/// manager sets itself. The keyword is compared without regard to case.
pub open spec fn names_reserved_keyword(value: Seq<char>) -> bool {
    let key = option_keyword(value);
    ||| key == "controlmaster"@
    ||| key == "controlpath"@
    ||| key == "controlpersist"@
    ||| key == "batchmode"@
    ||| key == "proxycommand"@
}

/// The outcome of reading the rest of the words, with the options already
/// accepted put in front.
pub open spec fn with_args(front: Seq<Seq<char>>, rest: Result<ParsedCommandView, CommandFault>)
    -> Result<ParsedCommandView, CommandFault> {
    match rest {
        Ok(p) => Ok(ParsedCommandView { destination: p.destination, args: front + p.args }),
        Err(e) => Err(e),
    }
}

/// What the words after an optional leading `ssh` parse to: options from
/// the two accepted lists, then exactly one destination.
pub open spec fn parse_tokens(tokens: Seq<Seq<char>>) -> Result<ParsedCommandView, CommandFault>
    decreases tokens.len(),
{
    if tokens.len() == 0 {
        Err(CommandFault::MissingDestination)
    } else {
        let t = tokens[0];
        if !(t.len() > 0 && t[0] == '-') {
            if tokens.len() > 1 {
                Err(CommandFault::TrailingArgument(tokens[1]))
            } else if trim(t).len() == 0 {
                Err(CommandFault::MissingDestination)
            } else {
                Ok(ParsedCommandView { destination: trim(t), args: Seq::empty() })
            }
        } else if is_disallowed_flag(t) {
            Err(CommandFault::DisallowedOption(t))
        } else if is_bare_flag(t) {
            with_args(seq![t], parse_tokens(tokens.skip(1)))
        } else if is_value_option(t) {
            if tokens.len() < 2 {
                Err(CommandFault::MissingValue(t))
            } else if t[1] == 'o' && names_reserved_keyword(tokens[1]) {
                Err(CommandFault::DisallowedOption("-o "@ + tokens[1]))
            } else {
                with_args(seq![t, tokens[1]], parse_tokens(tokens.skip(2)))
            }
        } else if is_glued_option(t) {
            if t[1] == 'o' && names_reserved_keyword(t.skip(2)) {
                Err(CommandFault::DisallowedOption("-o "@ + t.skip(2)))
            } else {
                with_args(seq![t], parse_tokens(tokens.skip(1)))
            }
        } else {
            Err(CommandFault::UnsupportedOption(t))
        }
    }
}

/// What a raw command parses to.
pub open spec fn parse_command(raw: Seq<char>) -> Result<ParsedCommandView, CommandFault> {
    match shell_words(raw) {
        None => Err(CommandFault::UnclosedQuote),
        Some(tokens) => {
            if tokens.len() == 0 {
                Err(CommandFault::Empty)
            } else if tokens[0] == "ssh"@ {
                parse_tokens(tokens.drop_first())
            } else {
                parse_tokens(tokens)
            }
        },
    }
}

/// The model of a parse result.
pub open spec fn parse_result_view(r: Result<DesktopSshParsedCommand, SshCommandError>) -> Result<
    ParsedCommandView,
    CommandFault,
> {
    match r {
        Ok(p) => Ok(p@),
        Err(e) => Err(e@),
    }
}

/// Splits a command line into words; `None` when a quote is left open.
pub fn split_rows(chars: &Vec<char>) -> (r: Option<Vec<Vec<char>>>)
    ensures
        match r {
            Some(v) => shell_words(chars@) == Some(rows(v@)),
            None => shell_words(chars@) is None,
        },
{
    let mut tokens: Vec<Vec<char>> = Vec::new();
    let mut current: Vec<char> = Vec::new();
    let mut in_single = false;
    let mut in_double = false;
    let mut i: usize = 0;
    assert(chars@.skip(0) =~= chars@);
    assert(Seq::<Seq<char>>::empty() + scan(chars@, false, false, Seq::empty()).unwrap()
        =~= scan(chars@, false, false, Seq::empty()).unwrap());
    while i < chars.len()
        invariant
            i <= chars.len(),
            shell_words(chars@) == with_front(
                rows(tokens@),
                scan(chars@.skip(i as int), in_single, in_double, current@),
            ),
        decreases chars.len() - i,
    {
        let ghost rest = chars@.skip(i as int);
        let ghost done = rows(tokens@);
        let c = chars[i];
        assert(rest[0] == c);
        assert(rest.drop_first() =~= chars@.skip(i + 1));
        if c == '\\' && !in_single {
            if i + 1 < chars.len() {
                assert(rest.drop_first().drop_first() =~= chars@.skip(i + 2));
                assert(rest.drop_first()[0] == chars@[i + 1]);
                current.push(chars[i + 1]);
                i += 2;
            } else {
                i += 1;
            }
        } else if c == '\'' && !in_double {
            in_single = !in_single;
            i += 1;
        } else if c == '"' && !in_single {
            in_double = !in_double;
            i += 1;
        } else if char_is_space(c) && !in_single && !in_double {
            if current.len() > 0 {
                let ghost word = current@;
                let ghost tail = scan(rest.drop_first(), false, false, Seq::empty());
                tokens.push(current);
                current = Vec::new();
                proof {
                    assert(rows(tokens@) =~= done + seq![word]);
                    if tail is Some {
                        assert(done + (seq![word] + tail.unwrap()) =~= (done + seq![word])
                            + tail.unwrap());
                    }
                }
            }
            i += 1;
        } else {
            current.push(c);
            i += 1;
        }
    }
    assert(chars@.skip(chars.len() as int) =~= Seq::<char>::empty());
    if in_single || in_double {
        return None;
    }
    let ghost done = rows(tokens@);
    if current.len() > 0 {
        let ghost word = current@;
        tokens.push(current);
        assert(rows(tokens@) =~= done + seq![word]);
    } else {
        assert(done + Seq::<Seq<char>>::empty() =~= done);
    }
    Some(tokens)
}

/// The strings that spell the given rows of characters.
pub fn rows_to_strings(v: &Vec<Vec<char>>) -> (r: Vec<String>)
    ensures
        texts(r@) == rows(v@),
{
    let mut r: Vec<String> = Vec::new();
    let mut i: usize = 0;
    while i < v.len()
        invariant
            i <= v.len(),
            texts(r@) == rows(v@).take(i as int),
        decreases v.len() - i,
    {
        let s = from_chars(&v[i]);
        proof {
            lemma_texts_push(r@, s);
        }
        r.push(s);
        i += 1;
        assert(texts(r@) =~= rows(v@).take(i as int));
    }
    assert(rows(v@).take(v.len() as int) =~= rows(v@));
    r
}

/// Splits a command line into words the way a POSIX shell does: single and
/// double quotes group, a backslash outside single quotes escapes.
pub fn split_shell_words(input: &str) -> (r: Result<Vec<String>, SshCommandError>)
    ensures
        match r {
            Ok(v) => shell_words(input@) == Some(texts(v@)),
            Err(e) => shell_words(input@) is None && e@ == CommandFault::UnclosedQuote,
        },
{
    let chars = to_chars(input);
    match split_rows(&chars) {
        Some(v) => Ok(rows_to_strings(&v)),
        None => Err(SshCommandError::UnclosedQuote),
    }
}

fn token_is_disallowed_flag(t: &Vec<char>) -> (r: bool)
    ensures
        r == is_disallowed_flag(t@),
{
    if t.len() != 2 || t[0] != '-' {
        return false;
    }
    let c = t[1];
    c == 'M' || c == 'S' || c == 'O' || c == 'N' || c == 't' || c == 'T' || c == 'f' || c == 'G'
        || c == 'W' || c == 'v' || c == 'V' || c == 'q' || c == 'n' || c == 's' || c == 'e' || c
        == 'E' || c == 'g'
}

fn token_is_bare_flag(t: &Vec<char>) -> (r: bool)
    ensures
        r == is_bare_flag(t@),
{
    if t.len() != 2 || t[0] != '-' {
        return false;
    }
    let c = t[1];
    c == '4' || c == '6' || c == 'A' || c == 'a' || c == 'C' || c == 'K' || c == 'k' || c == 'X'
        || c == 'x' || c == 'Y' || c == 'y'
}

fn char_is_value_letter(c: char) -> (r: bool)
    ensures
        r == is_value_letter(c),
{
    c == 'B' || c == 'b' || c == 'c' || c == 'D' || c == 'F' || c == 'I' || c == 'i' || c == 'J'
        || c == 'l' || c == 'm' || c == 'o' || c == 'P' || c == 'p' || c == 'R'
}

proof fn lemma_keyword_len(t: Seq<char>, n: int)
    requires
        0 <= n <= t.len(),
        forall|k: int| 0 <= k < n ==> #[trigger] t[k] != '=' && !is_space(t[k]),
        n == t.len() || t[n] == '=' || is_space(t[n]),
    ensures
        keyword_len(t) == n,
    decreases n,
{
    if n > 0 {
        lemma_keyword_len(t.drop_first(), n - 1);
    }
}

fn value_names_reserved_keyword(value: &Vec<char>) -> (r: bool)
    ensures
        r == names_reserved_keyword(value@),
{
    let t = trimmed(value);
    let mut n: usize = 0;
    while n < t.len() && t[n] != '=' && !char_is_space(t[n])
        invariant
            n <= t.len(),
            forall|k: int| 0 <= k < n ==> #[trigger] t@[k] != '=' && !is_space(t@[k]),
        decreases t.len() - n,
    {
        n += 1;
    }
    proof {
        lemma_keyword_len(t@, n as int);
    }
    let head = slice(&t, 0, n);
    assert(head@ =~= t@.take(n as int));
    let key = lowered(&head);
    is_text(&key, "controlmaster") || is_text(&key, "controlpath") || is_text(
        &key,
        "controlpersist",
    ) || is_text(&key, "batchmode") || is_text(&key, "proxycommand")
}

/// Whether a word is one of the flags reserved for the session manager.
pub fn is_disallowed_primary_flag(token: &str) -> (r: bool)
    ensures
        r == is_disallowed_flag(token@),
{
    let t = to_chars(token);
    token_is_disallowed_flag(&t)
}

/// Whether the value of an `-o` option sets a keyword reserved for the
/// session manager.
pub fn has_disallowed_o_option(value: &str) -> (r: bool)
    ensures
        r == names_reserved_keyword(value@),
{
    let v = to_chars(value);
    value_names_reserved_keyword(&v)
}

fn reserved_keyword_error(value: &Vec<char>) -> (e: SshCommandError)
    ensures
        e@ == CommandFault::DisallowedOption("-o "@ + value@),
{
    let mut text: Vec<char> = Vec::new();
    push_str(&mut text, "-o ");
    push_chars(&mut text, value);
    assert(text@ =~= "-o "@ + value@);
    SshCommandError::DisallowedOption(from_chars(&text))
}

/// Reads the words that follow the optional leading `ssh`.
pub fn parse_rows(tokens: &Vec<Vec<char>>, first: usize) -> (r: Result<
    DesktopSshParsedCommand,
    SshCommandError,
>)
    requires
        first <= tokens.len(),
    ensures
        parse_result_view(r) == parse_tokens(rows(tokens@).skip(first as int)),
{
    let ghost all = rows(tokens@);
    let mut args: Vec<String> = Vec::new();
    let mut idx: usize = first;
    proof {
        let whole = parse_tokens(all.skip(first as int));
        if whole is Ok {
            assert(Seq::<Seq<char>>::empty() + whole->Ok_0.args =~= whole->Ok_0.args);
        }
    }
    while idx < tokens.len()
        invariant
            first <= idx <= tokens.len(),
            all == rows(tokens@),
            parse_tokens(all.skip(first as int)) == with_args(
                texts(args@),
                parse_tokens(all.skip(idx as int)),
            ),
        decreases tokens.len() - idx,
    {
        let ghost rest = all.skip(idx as int);
        let ghost front = texts(args@);
        let token = &tokens[idx];
        assert(rest[0] == token@);
        if !(token.len() > 0 && token[0] == '-') {
            if idx + 1 < tokens.len() {
                assert(rest[1] == tokens@[idx + 1]@);
                return Err(SshCommandError::TrailingArgument(from_chars(&tokens[idx + 1])));
            }
            let destination = trimmed(token);
            if destination.len() == 0 {
                return Err(SshCommandError::MissingDestination);
            }
            assert(front + Seq::<Seq<char>>::empty() =~= front);
            return Ok(DesktopSshParsedCommand { destination: from_chars(&destination), args });
        }
        if token_is_disallowed_flag(token) {
            return Err(SshCommandError::DisallowedOption(from_chars(token)));
        }
        if token_is_bare_flag(token) {
            let word = from_chars(token);
            proof {
                lemma_texts_push(args@, word);
                let tail = parse_tokens(rest.skip(1));
                assert(rest.skip(1) =~= all.skip(idx + 1));
                if tail is Ok {
                    assert(front + (seq![token@] + tail->Ok_0.args) =~= front.push(token@)
                        + tail->Ok_0.args);
                }
            }
            args.push(word);
            idx += 1;
            continue ;
        }
        if token.len() >= 2 && char_is_value_letter(token[1]) {
            if token.len() == 2 {
                if idx + 1 >= tokens.len() {
                    return Err(SshCommandError::MissingValue(from_chars(token)));
                }
                let value = &tokens[idx + 1];
                assert(rest[1] == value@);
                if token[1] == 'o' && value_names_reserved_keyword(value) {
                    return Err(reserved_keyword_error(value));
                }
                let word = from_chars(token);
                let value_word = from_chars(value);
                proof {
                    lemma_texts_push(args@, word);
                    lemma_texts_push(args@.push(word), value_word);
                    let tail = parse_tokens(rest.skip(2));
                    assert(rest.skip(2) =~= all.skip(idx + 2));
                    if tail is Ok {
                        assert(front + (seq![token@, value@] + tail->Ok_0.args) =~= front.push(
                            token@,
                        ).push(value@) + tail->Ok_0.args);
                    }
                }
                args.push(word);
                args.push(value_word);
                idx += 2;
            } else {
                let value = slice(token, 2, token.len());
                assert(value@ =~= token@.skip(2));
                if token[1] == 'o' && value_names_reserved_keyword(&value) {
                    return Err(reserved_keyword_error(&value));
                }
                let word = from_chars(token);
                proof {
                    lemma_texts_push(args@, word);
                    let tail = parse_tokens(rest.skip(1));
                    assert(rest.skip(1) =~= all.skip(idx + 1));
                    if tail is Ok {
                        assert(front + (seq![token@] + tail->Ok_0.args) =~= front.push(token@)
                            + tail->Ok_0.args);
                    }
                }
                args.push(word);
                idx += 1;
            }
            continue ;
        }
        return Err(SshCommandError::UnsupportedOption(from_chars(token)));
    }
    assert(all.skip(tokens.len() as int) =~= Seq::<Seq<char>>::empty());
    Err(SshCommandError::MissingDestination)
}

/// Validates a raw SSH command and splits it into the destination and the
/// options to pass along.
pub fn parse_ssh_command(raw: &str) -> (r: Result<DesktopSshParsedCommand, SshCommandError>)
    ensures
        parse_result_view(r) == parse_command(raw@),
{
    let chars = to_chars(raw);
    let tokens = match split_rows(&chars) {
        Some(v) => v,
        None => {
            return Err(SshCommandError::UnclosedQuote);
        },
    };
    if tokens.len() == 0 {
        return Err(SshCommandError::Empty);
    }
    let first: usize = if is_text(&tokens[0], "ssh") {
        1
    } else {
        0
    };
    assert(rows(tokens@)[0] == tokens@[0]@);
    assert(rows(tokens@).skip(1) =~= rows(tokens@).drop_first());
    assert(rows(tokens@).skip(0) =~= rows(tokens@));
    parse_rows(&tokens, first)
}

} // verus!
