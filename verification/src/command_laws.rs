//! What holds of the parser of SSH commands: a command that was accepted,
//! written out again, parses to the same; the reserved flags are refused
//! and the accepted ones are taken.

use vstd::prelude::*;
use crate::command::CommandFault;
use crate::command::is_bare_flag;
use crate::command::is_disallowed_flag;
use crate::command::is_value_option;
use crate::command::names_reserved_keyword;
use crate::command::parse_command;
use crate::command::parse_tokens;
use crate::command::scan;
use crate::command::shell_words;
use crate::command::with_front;
use crate::model::DesktopSshParsedCommand;
use crate::model::ParsedCommandView;
use crate::shell::escape_quotes;
use crate::shell::push_quoted;
use crate::shell::shell_quoted;
use crate::text::from_chars;
use crate::text::is_space;
use crate::text::lemma_trim_shape;
use crate::text::texts;
use crate::text::to_chars;
use crate::text::trim;

verus! {

/// Words written out as a command line: each one quoted, single spaces
/// between them.
pub open spec fn rendered_tokens(tokens: Seq<Seq<char>>) -> Seq<char>
    decreases tokens.len(),
{
    if tokens.len() == 0 {
        Seq::empty()
    } else if tokens.len() == 1 {
        shell_quoted(tokens[0])
    } else {
        shell_quoted(tokens[0]) + seq![' '] + rendered_tokens(tokens.drop_first())
    }
}

/// The words of a parsed command: the client, the options, the destination.
pub open spec fn command_tokens(p: ParsedCommandView) -> Seq<Seq<char>> {
    seq!["ssh"@] + p.args + seq![p.destination]
}

/// A parsed command written out as a command line.
pub open spec fn rendered_command(p: ParsedCommandView) -> Seq<char> {
    rendered_tokens(command_tokens(p))
}

/// Writes a parsed command out as a command line: `ssh`, the options and
/// the destination, each quoted for the shell.
pub fn render_ssh_command(parsed: &DesktopSshParsedCommand) -> (r: String)
    ensures
        r@ == rendered_command(parsed@),
{
    let ghost tokens = command_tokens(parsed@);
    let mut out: Vec<char> = Vec::new();
    push_quoted(&mut out, &to_chars("ssh"));
    let mut i: usize = 0;
    // What is written so far, followed by the rest, is the whole line.
    assert(tokens.skip(1) =~= texts(parsed.args@) + seq![parsed.destination@]);
    assert(tokens.drop_first() =~= tokens.skip(1));
    while i < parsed.args.len()
        invariant
            i <= parsed.args.len(),
            tokens == command_tokens(parsed@),
            rendered_tokens(tokens) == out@ + seq![' '] + rendered_tokens(tokens.skip(i + 1)),
        decreases parsed.args.len() - i,
    {
        let ghost rest = tokens.skip(i + 1);
        assert(rest[0] == parsed.args@[i as int]@);
        assert(rest.drop_first() =~= tokens.skip(i + 2));
        assert(rest.len() >= 2);
        out.push(' ');
        push_quoted(&mut out, &to_chars(parsed.args[i].as_str()));
        assert(rendered_tokens(tokens) =~= out@ + seq![' '] + rendered_tokens(tokens.skip(i + 2)));
        i += 1;
    }
    let ghost last = tokens.skip(i + 1);
    assert(last.len() == 1);
    assert(last[0] == parsed.destination@);
    out.push(' ');
    push_quoted(&mut out, &to_chars(parsed.destination.as_str()));
    assert(out@ =~= rendered_tokens(tokens));
    from_chars(&out)
}

/// Inside single quotes, an escaped text followed by the closing quote
/// adds the text to the word under construction.
pub proof fn lemma_scan_in_quotes(t: Seq<char>, rest: Seq<char>, cur: Seq<char>)
    ensures
        scan(escape_quotes(t) + seq!['\''] + rest, true, false, cur) == scan(
            rest,
            false,
            false,
            cur + t,
        ),
    decreases t.len(),
{
    let s = escape_quotes(t) + seq!['\''] + rest;
    if t.len() == 0 {
        assert(s =~= seq!['\''] + rest);
        assert(s.drop_first() =~= rest);
        assert(cur + t =~= cur);
    } else {
        let c = t[0];
        let t1 = t.drop_first();
        let tail = escape_quotes(t1) + seq!['\''] + rest;
        lemma_scan_in_quotes(t1, rest, cur.push(c));
        assert(cur.push(c) + t1 =~= cur + t);
        if c == '\'' {
            assert(s =~= seq!['\'', '\\', '\'', '\''] + tail);
            let s1 = s.drop_first();
            assert(s1 =~= seq!['\\', '\'', '\''] + tail);
            let s2 = s1.drop_first();
            assert(s2 =~= seq!['\'', '\''] + tail);
            let s3 = s2.drop_first();
            assert(s3 =~= seq!['\''] + tail);
            assert(s3.drop_first() =~= tail);
            assert(scan(s, true, false, cur) == scan(s1, false, false, cur));
            assert(scan(s1, false, false, cur) == scan(s3, false, false, cur.push('\'')));
            assert(scan(s3, false, false, cur.push('\'')) == scan(
                tail,
                true,
                false,
                cur.push('\''),
            ));
        } else {
            assert(s =~= seq![c] + tail);
            assert(s.drop_first() =~= tail);
            assert(scan(s, true, false, cur) == scan(tail, true, false, cur.push(c)));
        }
    }
}

/// A quoted text adds the text to the word under construction.
pub proof fn lemma_scan_quoted(t: Seq<char>, rest: Seq<char>, cur: Seq<char>)
    ensures
        scan(shell_quoted(t) + rest, false, false, cur) == scan(rest, false, false, cur + t),
{
    let s = shell_quoted(t) + rest;
    let inner = escape_quotes(t) + seq!['\''] + rest;
    assert(s =~= seq!['\''] + inner);
    assert(s.drop_first() =~= inner);
    assert(scan(s, false, false, cur) == scan(inner, true, false, cur));
    lemma_scan_in_quotes(t, rest, cur);
}

/// Words that are written out and read again are the same words, if none
/// of them is empty.
pub proof fn lemma_render_then_split(tokens: Seq<Seq<char>>)
    requires
        forall|i: int| 0 <= i < tokens.len() ==> (#[trigger] tokens[i]).len() > 0,
    ensures
        shell_words(rendered_tokens(tokens)) == Some(tokens),
    decreases tokens.len(),
{
    let empty = Seq::<char>::empty();
    if tokens.len() == 0 {
        assert(tokens =~= Seq::<Seq<char>>::empty());
    } else if tokens.len() == 1 {
        assert(rendered_tokens(tokens) =~= shell_quoted(tokens[0]) + empty);
        lemma_scan_quoted(tokens[0], empty, empty);
        assert(empty + tokens[0] =~= tokens[0]);
        assert(tokens =~= seq![tokens[0]]);
    } else {
        let rest = tokens.drop_first();
        let tail = seq![' '] + rendered_tokens(rest);
        assert(rendered_tokens(tokens) =~= shell_quoted(tokens[0]) + tail);
        lemma_scan_quoted(tokens[0], tail, empty);
        assert(empty + tokens[0] =~= tokens[0]);
        assert(tail.drop_first() =~= rendered_tokens(rest));
        assert forall|i: int| 0 <= i < rest.len() implies (#[trigger] rest[i]).len() > 0 by {
            assert(rest[i] == tokens[i + 1]);
        }
        lemma_render_then_split(rest);
        assert(scan(tail, false, false, tokens[0]) == with_front(
            seq![tokens[0]],
            scan(rendered_tokens(rest), false, false, empty),
        ));
        assert(seq![tokens[0]] + rest =~= tokens);
    }
}

/// No word that the splitting yields is empty.
pub proof fn lemma_words_not_empty(s: Seq<char>, in_single: bool, in_double: bool, cur: Seq<char>)
    requires
        scan(s, in_single, in_double, cur) is Some,
    ensures
        forall|i: int|
            0 <= i < scan(s, in_single, in_double, cur)->0.len() ==> (#[trigger] scan(
                s,
                in_single,
                in_double,
                cur,
            )->0[i]).len() > 0,
    decreases s.len(),
{
    if s.len() > 0 {
        let c = s[0];
        let rest = s.drop_first();
        if c == '\\' && !in_single {
            if rest.len() > 0 {
                lemma_words_not_empty(rest.drop_first(), in_single, in_double, cur.push(rest[0]));
            } else {
                lemma_words_not_empty(rest, in_single, in_double, cur);
            }
        } else if c == '\'' && !in_double {
            lemma_words_not_empty(rest, !in_single, in_double, cur);
        } else if c == '"' && !in_single {
            lemma_words_not_empty(rest, in_single, !in_double, cur);
        } else if is_space(c) && !in_single && !in_double {
            if cur.len() == 0 {
                assert(cur =~= Seq::<char>::empty());
            }
            lemma_words_not_empty(rest, false, false, Seq::empty());
            if cur.len() > 0 {
                let tail = scan(rest, false, false, Seq::empty())->0;
                let all = scan(s, in_single, in_double, cur)->0;
                assert(all =~= seq![cur] + tail);
                assert forall|i: int| 0 <= i < all.len() implies (#[trigger] all[i]).len() > 0 by {
                    if i > 0 {
                        assert(all[i] == tail[i - 1]);
                    }
                }
            }
        } else {
            lemma_words_not_empty(rest, in_single, in_double, cur.push(c));
        }
    }
}

/// Whether a word can stand for the destination: it does not look like an
/// option, and is not blank.
pub open spec fn is_destination_word(w: Seq<char>) -> bool {
    w.len() > 0 && w[0] != '-' && trim(w).len() > 0
}

/// Where words parse, the options are all the words but the last, the
/// destination is the last word, trimmed, and the same words with another
/// destination in place of the last parse to the same options.
pub proof fn lemma_parse_shape(tokens: Seq<Seq<char>>, other: Seq<char>)
    requires
        parse_tokens(tokens) is Ok,
    ensures
        tokens.len() > 0,
        parse_tokens(tokens)->Ok_0.args == tokens.drop_last(),
        parse_tokens(tokens)->Ok_0.destination == trim(tokens.last()),
        trim(tokens.last()).len() > 0,
        is_destination_word(other) ==> parse_tokens(tokens.drop_last().push(other)) == Ok::<
            ParsedCommandView,
            CommandFault,
        >(ParsedCommandView { destination: trim(other), args: tokens.drop_last() }),
    decreases tokens.len(),
{
    let t = tokens[0];
    let swapped = tokens.drop_last().push(other);
    if !(t.len() > 0 && t[0] == '-') {
        assert(tokens.len() == 1);
        assert(tokens.drop_last() =~= Seq::<Seq<char>>::empty());
        assert(swapped =~= seq![other]);
    } else if is_bare_flag(t) || (!is_value_option(t) && !is_disallowed_flag(t)) {
        let rest = tokens.skip(1);
        lemma_parse_shape(rest, other);
        assert(swapped[0] == t);
        assert(swapped.skip(1) =~= rest.drop_last().push(other));
        assert(seq![t] + rest.drop_last() =~= tokens.drop_last());
        assert(rest.last() == tokens.last());
    } else {
        let rest = tokens.skip(2);
        lemma_parse_shape(rest, other);
        assert(swapped[0] == t);
        assert(swapped[1] == tokens[1]);
        assert(swapped.skip(2) =~= rest.drop_last().push(other));
        assert(seq![t, tokens[1]] + rest.drop_last() =~= tokens.drop_last());
        assert(rest.last() == tokens.last());
    }
}

/// An accepted command, written out again as `ssh`, its options and its
/// destination, parses to the same options and the same destination.
///
/// The destination must not begin with a hyphen: such a destination can
/// only come from a quoted word that begins with white space, and written
/// out again it would be read as an option.
pub proof fn lemma_parser_closure(raw: Seq<char>)
    requires
        parse_command(raw) is Ok,
        parse_command(raw)->Ok_0.destination[0] != '-',
    ensures
        parse_command(rendered_command(parse_command(raw)->Ok_0)) == parse_command(raw),
{
    let p = parse_command(raw)->Ok_0;
    let words = shell_words(raw)->0;
    let tokens = if words[0] == "ssh"@ {
        words.drop_first()
    } else {
        words
    };
    lemma_words_not_empty(raw, false, false, Seq::empty());
    lemma_trim_shape(tokens.last());
    lemma_parse_shape(tokens, p.destination);
    let again = command_tokens(p);
    reveal_strlit("ssh");
    assert forall|i: int| 0 <= i < again.len() implies (#[trigger] again[i]).len() > 0 by {
        if 0 < i < again.len() - 1 {
            assert(again[i] == p.args[i - 1]);
            assert(p.args[i - 1] == tokens[i - 1]);
            if words[0] == "ssh"@ {
                assert(tokens[i - 1] == words[i]);
            }
        }
    }
    lemma_render_then_split(again);
    assert(again[0] == "ssh"@);
    assert(again.drop_first() =~= tokens.drop_last().push(p.destination));
}

/// A flag that is reserved for the session manager is refused, whatever
/// the destination.
pub proof fn lemma_disallowed_flag_rejected(flag: Seq<char>, destination: Seq<char>)
    requires
        is_disallowed_flag(flag),
        destination.len() > 0,
    ensures
        parse_command(rendered_tokens(seq!["ssh"@, flag, destination])) == Err::<
            ParsedCommandView,
            CommandFault,
        >(CommandFault::DisallowedOption(flag)),
{
    let tokens = seq!["ssh"@, flag, destination];
    reveal_strlit("ssh");
    lemma_render_then_split(tokens);
    assert(tokens.drop_first() =~= seq![flag, destination]);
}

/// A flag from the list of those that take no value is accepted in a
/// command that holds nothing else but the destination.
pub proof fn lemma_bare_flag_accepted(flag: Seq<char>, destination: Seq<char>)
    requires
        is_bare_flag(flag),
        is_destination_word(destination),
    ensures
        parse_command(rendered_tokens(seq!["ssh"@, flag, destination])) == Ok::<
            ParsedCommandView,
            CommandFault,
        >(ParsedCommandView { destination: trim(destination), args: seq![flag] }),
{
    let tokens = seq!["ssh"@, flag, destination];
    reveal_strlit("ssh");
    reveal_with_fuel(parse_tokens, 3);
    lemma_render_then_split(tokens);
    assert(tokens.drop_first() =~= seq![flag, destination]);
    assert(seq![flag, destination].skip(1) =~= seq![destination]);
    assert(seq![flag] + Seq::<Seq<char>>::empty() =~= seq![flag]);
}

/// An option from the list of those that take a value is accepted with
/// its value in a command that holds nothing else but the destination,
/// unless it is `-o` with a keyword that is reserved.
pub proof fn lemma_value_option_accepted(
    option: Seq<char>,
    value: Seq<char>,
    destination: Seq<char>,
)
    requires
        is_value_option(option),
        value.len() > 0,
        !(option[1] == 'o' && names_reserved_keyword(value)),
        is_destination_word(destination),
    ensures
        parse_command(rendered_tokens(seq!["ssh"@, option, value, destination])) == Ok::<
            ParsedCommandView,
            CommandFault,
        >(ParsedCommandView { destination: trim(destination), args: seq![option, value] }),
{
    let tokens = seq!["ssh"@, option, value, destination];
    reveal_strlit("ssh");
    reveal_with_fuel(parse_tokens, 3);
    lemma_render_then_split(tokens);
    assert(tokens.drop_first() =~= seq![option, value, destination]);
    assert(seq![option, value, destination].skip(2) =~= seq![destination]);
    assert(seq![option, value] + Seq::<Seq<char>>::empty() =~= seq![option, value]);
}

} // verus!
