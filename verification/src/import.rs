//! Hosts offered for import from the configuration files of the SSH client.

use vstd::prelude::*;
use vstd::string::StringExecFns;
use crate::model::DesktopSshImportCandidate;
use crate::model::ImportCandidateView;
use crate::model::lemma_views_push;
use crate::model::views;
use crate::order::lemma_precedes_total;
use crate::order::sorted_order;
use crate::text::contains_char;
use crate::text::from_chars;
use crate::text::has_char;
use crate::text::is_text;
use crate::text::lines;
use crate::text::lower;
use crate::text::lowered;
use crate::text::precedes;
use crate::text::push_chars;
use crate::text::push_str;
use crate::text::rows;
use crate::text::slice;
use crate::text::split_lines;
use crate::text::split_words;
use crate::text::texts;
use crate::text::to_chars;
use crate::text::words;

verus! {

/// A line without its comment: what stands before the first `#`.
pub open spec fn without_comment(line: Seq<char>) -> Seq<char>
    decreases line.len(),
{
    if line.len() == 0 || line[0] == '#' {
        Seq::empty()
    } else {
        seq![line[0]] + without_comment(line.drop_first())
    }
}

/// Whether a word of a `Host` line names a host that can be offered: it is
/// not negated and not the pattern that matches everything.
pub open spec fn is_offerable(word: Seq<char>) -> bool {
    word.len() > 0 && word[0] != '!' && word != seq!['*']
}

/// The candidate for a host named in a configuration file.
pub open spec fn candidate_for(host: Seq<char>, source: Seq<char>) -> ImportCandidateView {
    ImportCandidateView {
        host,
        pattern: has_char(host, '*') || has_char(host, '?'),
        source,
        ssh_command: "ssh "@ + host,
    }
}

/// The candidates that some words of a `Host` line name.
pub open spec fn word_candidates(ws: Seq<Seq<char>>, source: Seq<char>) -> Seq<ImportCandidateView>
    decreases ws.len(),
{
    if ws.len() == 0 {
        Seq::empty()
    } else if is_offerable(ws.last()) {
        word_candidates(ws.drop_last(), source).push(candidate_for(ws.last(), source))
    } else {
        word_candidates(ws.drop_last(), source)
    }
}

/// The candidates that a line names: those of a line whose first word is
/// `Host`, in any case; none for any other line.
pub open spec fn line_candidates(line: Seq<char>, source: Seq<char>) -> Seq<ImportCandidateView> {
    let ws = words(without_comment(line));
    if ws.len() > 0 && lower(ws[0]) == "host"@ {
        word_candidates(ws.drop_first(), source)
    } else {
        Seq::empty()
    }
}

/// The candidates that some lines name, in order.
pub open spec fn lines_candidates(ls: Seq<Seq<char>>, source: Seq<char>) -> Seq<ImportCandidateView>
    decreases ls.len(),
{
    if ls.len() == 0 {
        Seq::empty()
    } else {
        lines_candidates(ls.drop_last(), source) + line_candidates(ls.last(), source)
    }
}

/// The candidates that a configuration file names.
pub open spec fn config_candidates(content: Seq<char>, source: Seq<char>) -> Seq<
    ImportCandidateView,
> {
    lines_candidates(lines(content), source)
}

proof fn lemma_without_comment(line: Seq<char>, n: int)
    requires
        0 <= n <= line.len(),
        forall|k: int| 0 <= k < n ==> #[trigger] line[k] != '#',
        n == line.len() || line[n] == '#',
    ensures
        without_comment(line) == line.take(n),
    decreases n,
{
    if n == 0 {
        assert(line.take(0) =~= Seq::<char>::empty());
    } else {
        lemma_without_comment(line.drop_first(), n - 1);
        assert(line.take(n) =~= seq![line[0]] + line.drop_first().take(n - 1));
    }
}

fn strip_comment(line: &Vec<char>) -> (r: Vec<char>)
    ensures
        r@ == without_comment(line@),
{
    let mut n: usize = 0;
    while n < line.len() && line[n] != '#'
        invariant
            n <= line.len(),
            forall|k: int| 0 <= k < n ==> #[trigger] line@[k] != '#',
        decreases line.len() - n,
    {
        n += 1;
    }
    proof {
        lemma_without_comment(line@, n as int);
    }
    let r = slice(line, 0, n);
    assert(r@ =~= line@.take(n as int));
    r
}

fn make_candidate(host: &Vec<char>, source: &str) -> (r: DesktopSshImportCandidate)
    ensures
        r@ == candidate_for(host@, source@),
{
    let mut command: Vec<char> = Vec::new();
    push_str(&mut command, "ssh ");
    push_chars(&mut command, host);
    DesktopSshImportCandidate {
        host: from_chars(host),
        pattern: contains_char(host, '*') || contains_char(host, '?'),
        source: String::from_str(source),
        ssh_command: from_chars(&command),
    }
}

fn push_line_candidates(out: &mut Vec<DesktopSshImportCandidate>, line: &Vec<char>, source: &str)
    ensures
        views(final(out)@) == views(old(out)@) + line_candidates(line@, source@),
{
    let ws = split_words(&strip_comment(line));
    if ws.len() == 0 || !is_text(&lowered(&ws[0]), "host") {
        assert(views(out@) + Seq::<ImportCandidateView>::empty() =~= views(out@));
        return ;
    }
    let ghost rest = rows(ws@).drop_first();
    let mut i: usize = 1;
    assert(rest.take(0) =~= Seq::<Seq<char>>::empty());
    assert(views(out@) + Seq::<ImportCandidateView>::empty() =~= views(out@));
    while i < ws.len()
        invariant
            1 <= i <= ws.len(),
            rest == rows(ws@).drop_first(),
            views(out@) == views(old(out)@) + word_candidates(rest.take(i - 1), source@),
        decreases ws.len() - i,
    {
        let ghost upto = rest.take(i as int);
        assert(upto.drop_last() =~= rest.take(i - 1));
        assert(upto.last() == ws@[i as int]@);
        let word = &ws[i];
        let offerable = word.len() > 0 && word[0] != '!' && !is_text(word, "*");
        proof {
            reveal_strlit("*");
            assert("*"@ =~= seq!['*']);
        }
        if offerable {
            let candidate = make_candidate(word, source);
            proof {
                lemma_views_push(out@, candidate);
            }
            out.push(candidate);
            assert(views(out@) =~= views(old(out)@) + word_candidates(upto, source@));
        }
        i += 1;
    }
    assert(rest.take(rest.len() as int) =~= rest);
}

/// Reads the hosts that a configuration file of the SSH client names: one
/// candidate for each word of each `Host` line that is neither negated nor
/// the pattern `*`. `source` says which file it is.
pub fn parse_ssh_config_candidates(content: &str, source: &str) -> (r: Vec<
    DesktopSshImportCandidate,
>)
    ensures
        views(r@) == config_candidates(content@, source@),
{
    let ls = split_lines(&to_chars(content));
    let mut out: Vec<DesktopSshImportCandidate> = Vec::new();
    let mut i: usize = 0;
    assert(rows(ls@).take(0) =~= Seq::<Seq<char>>::empty());
    assert(views(out@) =~= Seq::<ImportCandidateView>::empty());
    while i < ls.len()
        invariant
            i <= ls.len(),
            views(out@) == lines_candidates(rows(ls@).take(i as int), source@),
        decreases ls.len() - i,
    {
        let ghost upto = rows(ls@).take(i + 1);
        assert(upto.drop_last() =~= rows(ls@).take(i as int));
        assert(upto.last() == ls@[i as int]@);
        push_line_candidates(&mut out, &ls[i], source);
        i += 1;
    }
    assert(rows(ls@).take(ls.len() as int) =~= rows(ls@));
    out
}

/// Whether a candidate for the host is in the list.
pub open spec fn has_host(list: Seq<ImportCandidateView>, host: Seq<char>) -> bool {
    exists|i: int| 0 <= i < list.len() && (#[trigger] list[i]).host == host
}

/// The candidates of a list, the first for each host only.
pub open spec fn distinct_candidates(list: Seq<ImportCandidateView>) -> Seq<ImportCandidateView>
    decreases list.len(),
{
    if list.len() == 0 {
        Seq::empty()
    } else {
        let before = distinct_candidates(list.drop_last());
        if has_host(before, list.last().host) {
            before
        } else {
            before.push(list.last())
        }
    }
}

/// The hosts of different candidates of a list without duplicates differ.
pub proof fn lemma_distinct_candidates(list: Seq<ImportCandidateView>)
    ensures
        forall|i: int, j: int|
            0 <= i < distinct_candidates(list).len() && 0 <= j < distinct_candidates(list).len()
                && i != j ==> (#[trigger] distinct_candidates(list)[i]).host != (
            #[trigger] distinct_candidates(list)[j]).host,
    decreases list.len(),
{
    if list.len() > 0 {
        lemma_distinct_candidates(list.drop_last());
        let before = distinct_candidates(list.drop_last());
        let d = distinct_candidates(list);
        if !has_host(before, list.last().host) {
            assert forall|i: int, j: int|
                0 <= i < d.len() && 0 <= j < d.len() && i != j implies (#[trigger] d[i]).host != (
                #[trigger] d[j]).host by {
                if i < before.len() && j < before.len() {
                    assert(d[i] == before[i] && d[j] == before[j]);
                } else if i < before.len() {
                    assert(d[i] == before[i]);
                } else {
                    assert(d[j] == before[j]);
                }
            }
        }
    }
}

/// Whether the hosts of a list go strictly up.
pub open spec fn hosts_ascend(list: Seq<ImportCandidateView>) -> bool {
    forall|i: int, j: int|
        0 <= i < j < list.len() ==> precedes((#[trigger] list[i]).host, (#[trigger] list[j]).host)
}

fn host_seen(list: &Vec<DesktopSshImportCandidate>, host: &String) -> (r: bool)
    ensures
        r == has_host(views(list@), host@),
{
    let mut i: usize = 0;
    while i < list.len()
        invariant
            i <= list.len(),
            forall|k: int| 0 <= k < i ==> (#[trigger] views(list@)[k]).host != host@,
        decreases list.len() - i,
    {
        if list[i].host == *host {
            assert(views(list@)[i as int].host == host@);
            return true;
        }
        i += 1;
    }
    false
}

fn push_distinct(
    out: &mut Vec<DesktopSshImportCandidate>,
    more: &Vec<DesktopSshImportCandidate>,
    Ghost(seen): Ghost<Seq<ImportCandidateView>>,
)
    requires
        views(old(out)@) == distinct_candidates(seen),
    ensures
        views(final(out)@) == distinct_candidates(seen + views(more@)),
{
    let mut i: usize = 0;
    assert(seen + views(more@).take(0) =~= seen);
    while i < more.len()
        invariant
            i <= more.len(),
            views(out@) == distinct_candidates(seen + views(more@).take(i as int)),
        decreases more.len() - i,
    {
        let ghost upto = seen + views(more@).take(i + 1);
        assert(upto.drop_last() =~= seen + views(more@).take(i as int));
        assert(upto.last() == more@[i as int]@);
        if !host_seen(out, &more[i].host) {
            let candidate = more[i].clone();
            proof {
                lemma_views_push(out@, candidate);
            }
            out.push(candidate);
        }
        i += 1;
    }
    assert(views(more@).take(more.len() as int) =~= views(more@));
}

/// Puts the candidates of the user's configuration and of the system's
/// together: one candidate for each host, the first that names it, the
/// user's before the system's; sorted by host.
pub fn desktop_ssh_import_hosts(
    user: &Vec<DesktopSshImportCandidate>,
    global: &Vec<DesktopSshImportCandidate>,
) -> (r: Vec<DesktopSshImportCandidate>)
    ensures
        hosts_ascend(views(r@)),
        r.len() == distinct_candidates(views(user@) + views(global@)).len(),
        forall|i: int|
            0 <= i < r.len() ==> distinct_candidates(views(user@) + views(global@)).contains(
                #[trigger] views(r@)[i],
            ),
{
    let ghost all = views(user@) + views(global@);
    let mut distinct: Vec<DesktopSshImportCandidate> = Vec::new();
    assert(views(distinct@) =~= distinct_candidates(Seq::empty()));
    push_distinct(&mut distinct, user, Ghost(Seq::empty()));
    assert(Seq::<ImportCandidateView>::empty() + views(user@) =~= views(user@));
    push_distinct(&mut distinct, global, Ghost(views(user@)));
    let mut keys: Vec<String> = Vec::new();
    let mut k: usize = 0;
    while k < distinct.len()
        invariant
            k <= distinct.len(),
            keys.len() == k,
            forall|i: int| 0 <= i < k ==> #[trigger] texts(keys@)[i] == views(distinct@)[i].host,
        decreases distinct.len() - k,
    {
        let key = distinct[k].host.clone();
        proof {
            crate::model::lemma_texts_push(keys@, key);
        }
        keys.push(key);
        k += 1;
    }
    let order = sorted_order(&keys);
    let mut out: Vec<DesktopSshImportCandidate> = Vec::new();
    let mut i: usize = 0;
    while i < order.len()
        invariant
            i <= order.len(),
            out.len() == i,
            order.len() == distinct.len(),
            forall|j: int| 0 <= j < order.len() ==> (#[trigger] order@[j]) < distinct.len(),
            forall|j: int| 0 <= j < i ==> #[trigger] views(out@)[j] == views(distinct@)[order@[j] as int],
        decreases order.len() - i,
    {
        let candidate = distinct[order[i]].clone();
        proof {
            lemma_views_push(out@, candidate);
        }
        out.push(candidate);
        i += 1;
    }
    proof {
        let d = views(distinct@);
        let o = order@;
        lemma_distinct_candidates(all);
        assert forall|a: int, b: int| 0 <= a < b < out.len() implies precedes(
            (#[trigger] views(out@)[a]).host,
            (#[trigger] views(out@)[b]).host,
        ) by {
            assert(views(out@)[a] == d[o[a] as int]);
            assert(views(out@)[b] == d[o[b] as int]);
            assert(texts(keys@)[o[a] as int] == d[o[a] as int].host);
            assert(texts(keys@)[o[b] as int] == d[o[b] as int].host);
            assert(o[a] != o[b]);
            lemma_precedes_total(d[o[a] as int].host, d[o[b] as int].host);
        }
        assert forall|a: int| 0 <= a < out.len() implies d.contains(#[trigger] views(out@)[a]) by {
            assert(views(out@)[a] == d[o[a] as int]);
        }
    }
    out
}

} // verus!
