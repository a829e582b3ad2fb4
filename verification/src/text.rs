//! Text handling: splitting a message body into lines and quoting it for a
//! reply, with the standard library string operations that it needs.

use vstd::prelude::*;

verus! {

/// Calls `String::push`: the character is appended at the end.
#[verifier::external_body]
pub(crate) fn push_char(s: &mut String, c: char)
    ensures
        final(s)@ == old(s)@.push(c),
{
    s.push(c);
}

/// Whether two strings hold the same text.
pub(crate) fn same_text(a: &String, b: &String) -> (same: bool)
    ensures
        same == (a@ == b@),
{
    a.eq(b)
}

/// The pieces of `s` between its `'\n'` characters, as `str::split('\n')`
/// gives them: there is always one piece more than there are newlines.
pub open spec fn split_newlines(s: Seq<char>) -> Seq<Seq<char>>
    decreases s.len(),
{
    if s.len() == 0 {
        seq![Seq::<char>::empty()]
    } else {
        let init = split_newlines(s.drop_last());
        if s.last() == '\n' {
            init.push(Seq::<char>::empty())
        } else {
            init.update(init.len() - 1, init.last().push(s.last()))
        }
    }
}

/// A line that was ended by `"\n"` loses a `'\r'` that stood before it.
pub open spec fn strip_cr(line: Seq<char>) -> Seq<char> {
    if line.len() > 0 && line.last() == '\r' {
        line.drop_last()
    } else {
        line
    }
}

/// The lines that were ended by a newline, without their line ending.
pub open spec fn ended_lines(pieces: Seq<Seq<char>>) -> Seq<Seq<char>> {
    pieces.drop_last().map_values(|l: Seq<char>| strip_cr(l))
}

/// The lines of a text, as `str::lines` gives them: the text is split at
/// `"\n"` and `"\r\n"`, and a last line that is empty is not a line.
pub open spec fn text_lines(s: Seq<char>) -> Seq<Seq<char>> {
    let pieces = split_newlines(s);
    if pieces.last().len() == 0 {
        ended_lines(pieces)
    } else {
        ended_lines(pieces).push(pieces.last())
    }
}

/// The lines joined with `'\n'` between them.
pub open spec fn join_lines(lines: Seq<Seq<char>>) -> Seq<char>
    decreases lines.len(),
{
    if lines.len() == 0 {
        Seq::<char>::empty()
    } else if lines.len() == 1 {
        lines[0]
    } else {
        join_lines(lines.drop_last()) + seq!['\n'] + lines.last()
    }
}

/// Each line with `"> "` in front of it.
pub open spec fn quoted_lines(lines: Seq<Seq<char>>) -> Seq<Seq<char>> {
    lines.map_values(|l: Seq<char>| seq!['>', ' '] + l)
}

/// The quote of a message body that starts a reply: every line of the body
/// behind `"> "`, one per line, then an empty line.
pub open spec fn reply_quote(body: Seq<char>) -> Seq<char> {
    join_lines(quoted_lines(text_lines(body))) + seq!['\n', '\n']
}

proof fn lemma_join_push(lines: Seq<Seq<char>>, line: Seq<char>)
    ensures
        join_lines(lines.push(line)) == (if lines.len() == 0 {
            line
        } else {
            join_lines(lines) + seq!['\n'] + line
        }),
{
    assert(lines.push(line).drop_last() == lines);
}

/// Appends `"> "` and the first `n` characters of `line`.
fn push_quoted_line(out: &mut String, line: &Vec<char>, n: usize)
    requires
        n <= line@.len(),
    ensures
        final(out)@ == old(out)@ + seq!['>', ' '] + line@.take(n as int),
{
    push_char(out, '>');
    push_char(out, ' ');
    let ghost start = out@;
    let mut i: usize = 0;
    while i < n
        invariant
            n <= line@.len(),
            i <= n,
            out@ == start + line@.take(i as int),
        decreases n - i,
    {
        assert(line@.take(i + 1) == line@.take(i as int).push(line@[i as int]));
        push_char(out, line[i]);
        i += 1;
    }
}

/// The quote that starts a reply to a message with the given body: each line
/// of the body behind `"> "`, the lines joined by newlines, then two newlines.
pub fn quote_message(body: &str) -> (quote: String)
    ensures
        quote@ == reply_quote(body@),
{
    let ghost s = body@;
    let mut out = String::new();
    let mut cur: Vec<char> = Vec::new();
    let mut any_line = false;

    for c in it: body.chars()
        invariant
            it.seq() == s,
            split_newlines(s.take(it.index() as int)).len() >= 1,
            cur@ == split_newlines(s.take(it.index() as int)).last(),
            out@ == join_lines(
                quoted_lines(ended_lines(split_newlines(s.take(it.index() as int)))),
            ),
            any_line == (ended_lines(split_newlines(s.take(it.index() as int))).len() > 0),
    {
        let ghost k = it.index() as int;
        let ghost t = s.take(k);
        let ghost t1 = s.take(k + 1);
        let ghost p = split_newlines(t);
        assert(t1.drop_last() == t);
        assert(t1.last() == c);
        assert(t1.len() == k + 1);
        let ghost p1 = split_newlines(t1);
        if c == '\n' {
            assert(p1 == p.push(Seq::<char>::empty()));
            let mut n = cur.len();
            if n > 0 && cur[n - 1] == '\r' {
                n = n - 1;
            }
            assert(cur@.take(n as int) == strip_cr(p.last()));
            if any_line {
                push_char(&mut out, '\n');
            }
            push_quoted_line(&mut out, &cur, n);
            proof {
                let done = ended_lines(p);
                assert(p1.drop_last() == p);
                assert(ended_lines(p1) == done.push(strip_cr(p.last())));
                assert(quoted_lines(ended_lines(p1)) == quoted_lines(done).push(
                    seq!['>', ' '] + strip_cr(p.last()),
                ));
                lemma_join_push(quoted_lines(done), seq!['>', ' '] + strip_cr(p.last()));
            }
            cur = Vec::new();
            any_line = true;
        } else {
            assert(p1 == p.update(p.len() - 1, p.last().push(c)));
            assert(p1.drop_last() == p.drop_last());
            cur.push(c);
        }
    }
    assert(s.take(s.len() as int) == s);
    let ghost p = split_newlines(s);
    if cur.len() > 0 {
        if any_line {
            push_char(&mut out, '\n');
        }
        let n = cur.len();
        push_quoted_line(&mut out, &cur, n);
        proof {
            assert(cur@.take(n as int) == cur@);
            assert(quoted_lines(text_lines(s)) == quoted_lines(ended_lines(p)).push(
                seq!['>', ' '] + p.last(),
            ));
            lemma_join_push(quoted_lines(ended_lines(p)), seq!['>', ' '] + p.last());
        }
    }
    push_char(&mut out, '\n');
    push_char(&mut out, '\n');
    out
}

} // verus!
