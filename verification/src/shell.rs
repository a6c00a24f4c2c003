//! Quoting for the remote shell, and small helpers to assemble argument
//! lists.

use vstd::prelude::*;
use vstd::string::StringExecFns;
use crate::model::lemma_texts_push;
use crate::text::from_chars;
use crate::text::texts;
use crate::text::to_chars;

verus! {

/// What one character becomes inside single quotes: a single quote closes
/// the quotes, stands escaped, and opens them again; any other character
/// is itself.
pub open spec fn escaped_char(c: char) -> Seq<char> {
    if c == '\'' {
        seq!['\'', '\\', '\'', '\'']
    } else {
        seq![c]
    }
}

/// A text with each of its characters made safe inside single quotes.
pub open spec fn escape_quotes(s: Seq<char>) -> Seq<char>
    decreases s.len(),
{
    if s.len() == 0 {
        Seq::empty()
    } else {
        escaped_char(s[0]) + escape_quotes(s.drop_first())
    }
}

/// A text as one single-quoted word of a POSIX shell.
pub open spec fn shell_quoted(s: Seq<char>) -> Seq<char> {
    seq!['\''] + escape_quotes(s) + seq!['\'']
}

/// Escaping a text with one more character escapes the text, then the character.
pub proof fn lemma_escape_push(s: Seq<char>, c: char)
    ensures
        escape_quotes(s.push(c)) == escape_quotes(s) + escaped_char(c),
    decreases s.len(),
{
    if s.len() == 0 {
        assert(s.push(c).drop_first() =~= Seq::<char>::empty());
        assert(escape_quotes(s.push(c)) =~= escaped_char(c) + escape_quotes(Seq::empty()));
        assert(escape_quotes(s.push(c)) =~= escape_quotes(s) + escaped_char(c));
    } else {
        lemma_escape_push(s.drop_first(), c);
        assert(s.push(c).drop_first() =~= s.drop_first().push(c));
        assert(escape_quotes(s.push(c)) =~= escaped_char(s[0]) + (escape_quotes(s.drop_first())
            + escaped_char(c)));
        assert(escape_quotes(s.push(c)) =~= escape_quotes(s) + escaped_char(c));
    }
}

/// Appends `s` to `out` as one single-quoted word.
pub fn push_quoted(out: &mut Vec<char>, s: &Vec<char>)
    ensures
        final(out)@ == old(out)@ + shell_quoted(s@),
{
    out.push('\'');
    let mut i: usize = 0;
    assert(s@.take(0) =~= Seq::<char>::empty());
    assert(out@ =~= old(out)@ + seq!['\''] + escape_quotes(s@.take(0)));
    while i < s.len()
        invariant
            i <= s.len(),
            out@ == old(out)@ + seq!['\''] + escape_quotes(s@.take(i as int)),
        decreases s.len() - i,
    {
        let c = s[i];
        proof {
            lemma_escape_push(s@.take(i as int), c);
            assert(s@.take(i as int).push(c) =~= s@.take(i + 1));
        }
        if c == '\'' {
            out.push('\'');
            out.push('\\');
            out.push('\'');
            out.push('\'');
        } else {
            out.push(c);
        }
        i += 1;
        assert(out@ =~= old(out)@ + seq!['\''] + escape_quotes(s@.take(i as int)));
    }
    assert(s@.take(s.len() as int) =~= s@);
    out.push('\'');
    assert(out@ =~= old(out)@ + shell_quoted(s@));
}

/// Quotes a text as one word of a POSIX shell.
pub fn shell_quote(value: &str) -> (r: String)
    ensures
        r@ == shell_quoted(value@),
{
    let mut out: Vec<char> = Vec::new();
    push_quoted(&mut out, &to_chars(value));
    assert(out@ =~= shell_quoted(value@));
    from_chars(&out)
}

/// Appends one text to a list of texts.
pub fn push_text(v: &mut Vec<String>, s: String)
    ensures
        texts(final(v)@) == texts(old(v)@).push(s@),
{
    proof {
        lemma_texts_push(v@, s);
    }
    v.push(s);
}

/// Appends a literal to a list of texts.
pub fn push_lit(v: &mut Vec<String>, lit: &str)
    ensures
        texts(final(v)@) == texts(old(v)@).push(lit@),
{
    push_text(v, String::from_str(lit));
}

/// Appends copies of the texts of `more` to `v`.
pub fn push_texts(v: &mut Vec<String>, more: &Vec<String>)
    ensures
        texts(final(v)@) == texts(old(v)@) + texts(more@),
{
    let mut i: usize = 0;
    assert(texts(v@) =~= texts(old(v)@) + texts(more@).take(0));
    while i < more.len()
        invariant
            i <= more.len(),
            texts(v@) == texts(old(v)@) + texts(more@).take(i as int),
        decreases more.len() - i,
    {
        push_text(v, more[i].clone());
        i += 1;
        assert(texts(v@) =~= texts(old(v)@) + texts(more@).take(i as int));
    }
    assert(texts(more@).take(more.len() as int) =~= texts(more@));
}

} // verus!
