use vstd::prelude::*;

verus! {

/// The pieces of `t` between line feeds; a text without one is one piece.
pub open spec fn pieces(t: Seq<char>) -> Seq<Seq<char>>
    decreases t.len(),
{
    if t.len() == 0 {
        seq![Seq::empty()]
    } else if t.last() == '\n' {
        pieces(t.drop_last()).push(Seq::empty())
    } else {
        let p = pieces(t.drop_last());
        p.update(p.len() - 1, p.last().push(t.last()))
    }
}

/// A line ended by "\r\n" loses its carriage return.
pub open spec fn strip_cr(l: Seq<char>) -> Seq<char> {
    if l.len() > 0 && l.last() == '\r' {
        l.drop_last()
    } else {
        l
    }
}

pub open spec fn strip_all(p: Seq<Seq<char>>) -> Seq<Seq<char>> {
    p.map_values(|l: Seq<char>| strip_cr(l))
}

/// The lines of a text: every piece ended by a line feed, without a
/// carriage return before it, then the final piece as it is.
pub open spec fn text_lines(t: Seq<char>) -> Seq<Seq<char>> {
    let p = pieces(t);
    strip_all(p.drop_last()).push(p.last())
}

/// The lines that are not empty, in order.
pub open spec fn non_empty(s: Seq<Seq<char>>) -> Seq<Seq<char>>
    decreases s.len(),
{
    if s.len() == 0 {
        Seq::empty()
    } else if s.last().len() > 0 {
        non_empty(s.drop_last()).push(s.last())
    } else {
        non_empty(s.drop_last())
    }
}

/// The source paths listed in an input text: one per line, blank lines
/// skipped.
pub open spec fn source_lines_of(t: Seq<char>) -> Seq<Seq<char>> {
    non_empty(text_lines(t))
}

pub open spec fn strings_view(v: Seq<String>) -> Seq<Seq<char>> {
    v.map_values(|s: String| s@)
}

proof fn lemma_non_empty_push(s: Seq<Seq<char>>, l: Seq<char>)
    ensures
        non_empty(s.push(l)) == if l.len() > 0 {
            non_empty(s).push(l)
        } else {
            non_empty(s)
        },
{
    assert(s.push(l).drop_last() =~= s);
}

/// Appends the line `text[start..end]`, less a final carriage return when
/// `strip` holds, if it is not empty.
fn push_line(out: &mut Vec<String>, text: &str, start: usize, end: usize, strip: bool)
    requires
        start <= end <= text@.len(),
    ensures
        strings_view(final(out)@) == ({
            let piece = text@.subrange(start as int, end as int);
            let line = if strip {
                strip_cr(piece)
            } else {
                piece
            };
            if line.len() > 0 {
                strings_view(old(out)@).push(line)
            } else {
                strings_view(old(out)@)
            }
        }),
{
    let mut stop = end;
    if strip && end > start && text.get_char(end - 1) == '\r' {
        stop = end - 1;
    }
    let ghost piece = text@.subrange(start as int, end as int);
    assert(text@.subrange(start as int, stop as int) =~= if strip {
        strip_cr(piece)
    } else {
        piece
    });
    if stop > start {
        let line = text.substring_char(start, stop).to_owned();
        let ghost before = out@;
        out.push(line);
        assert(strings_view(out@) =~= strings_view(before).push(line@));
    }
}

/// The source paths listed in an input text: one per line, where a line
/// ends at a line feed (or a carriage return and a line feed), and blank
/// lines are skipped.
pub fn source_lines(text: &str) -> (r: Vec<String>)
    ensures
        strings_view(r@) == source_lines_of(text@),
{
    let n = text.unicode_len();
    let mut out: Vec<String> = Vec::new();
    let mut start: usize = 0;
    let mut i: usize = 0;
    let ghost mut done: Seq<Seq<char>> = Seq::empty();
    assert(text@.subrange(0, 0) =~= Seq::<char>::empty());
    assert(done.push(text@.subrange(0, 0)) =~= seq![Seq::<char>::empty()]);
    while i < n
        invariant
            n == text@.len(),
            start <= i <= n,
            pieces(text@.subrange(0, i as int)) == done.push(text@.subrange(start as int, i as int)),
            strings_view(out@) == non_empty(strip_all(done)),
        decreases n - i,
    {
        let c = text.get_char(i);
        proof {
            let t = text@.subrange(0, i as int + 1);
            assert(t.drop_last() =~= text@.subrange(0, i as int));
            assert(t.last() == c);
        }
        if c == '\n' {
            push_line(&mut out, text, start, i, true);
            proof {
                let piece = text@.subrange(start as int, i as int);
                assert(strip_all(done.push(piece)) =~= strip_all(done).push(strip_cr(piece)));
                lemma_non_empty_push(strip_all(done), strip_cr(piece));
                done = done.push(piece);
                let t = text@.subrange(0, i as int + 1);
                assert(pieces(t) =~= done.push(Seq::empty()));
                assert(text@.subrange(i as int + 1, i as int + 1) =~= Seq::<char>::empty());
            }
            start = i + 1;
        } else {
            proof {
                let t = text@.subrange(0, i as int + 1);
                assert(text@.subrange(start as int, i as int + 1) =~= text@.subrange(
                    start as int,
                    i as int,
                ).push(c));
                assert(pieces(t) =~= done.push(text@.subrange(start as int, i as int + 1)));
            }
        }
        i = i + 1;
    }
    push_line(&mut out, text, start, n, false);
    proof {
        let last = text@.subrange(start as int, n as int);
        assert(text@.subrange(0, n as int) =~= text@);
        let p = pieces(text@);
        assert(p.drop_last() =~= done);
        lemma_non_empty_push(strip_all(done), last);
    }
    out
}

} // verus!
