use vstd::prelude::*;
use vstd::string::*;

verus! {

/// A character that starts a line ending.
pub open spec fn is_break_char(c: char) -> bool {
    c == '\r' || c == '\n'
}

/// The first position at or after `i` that holds a line-ending character,
/// or the length of `s` where there is none.
pub open spec fn break_from(s: Seq<char>, i: int) -> int
    decreases s.len() - i,
{
    if i < 0 || i >= s.len() || is_break_char(s[i]) {
        i
    } else {
        break_from(s, i + 1)
    }
}

/// The length of the line ending ("\n" or "\r\n") that starts at `i`, or 0.
pub open spec fn ending_len(s: Seq<char>, i: int) -> int {
    if 0 <= i < s.len() && s[i] == '\n' {
        1
    } else if 0 <= i && i + 1 < s.len() && s[i] == '\r' && s[i + 1] == '\n' {
        2
    } else {
        0
    }
}

/// The first line of `s` and what follows its line ending, where `s`
/// starts with a run of ordinary characters closed by a line ending.
pub open spec fn first_line(s: Seq<char>) -> Option<(Seq<char>, Seq<char>)> {
    let b = break_from(s, 0);
    let k = ending_len(s, b);
    if k == 0 {
        None
    } else {
        Some((s.subrange(0, b), s.subrange(b + k, s.len() as int)))
    }
}

/// `front` followed by the lines of `rest`, where `rest` has any.
pub open spec fn prefixed(
    front: Seq<Seq<char>>,
    rest: Option<Seq<Seq<char>>>,
) -> Option<Seq<Seq<char>>> {
    match rest {
        Some(ls) => Some(front + ls),
        None => None,
    }
}

/// The lines of `s`, where `s` is nothing but complete lines, each closed
/// by a line ending; `None` where some text is left unclosed.
pub open spec fn split_lines(s: Seq<char>) -> Option<Seq<Seq<char>>>
    decreases s.len(),
{
    if s.len() == 0 {
        Some(Seq::empty())
    } else {
        match first_line(s) {
            None => None,
            Some(p) => if p.1.len() < s.len() {
                prefixed(seq![p.0], split_lines(p.1))
            } else {
                None
            },
        }
    }
}

/// What the parser shows for `s`: its lines where `s` is one or more
/// complete lines, else the whole of `s` as a single line.
pub open spec fn display_lines(s: Seq<char>) -> Seq<Seq<char>> {
    let r = split_lines(s);
    if r is Some && r->0.len() > 0 {
        r->0
    } else {
        seq![s]
    }
}

/// The text of each string in `v`.
pub open spec fn texts(v: Seq<String>) -> Seq<Seq<char>> {
    v.map_values(|l: String| l@)
}

proof fn lemma_break_from_bounds(s: Seq<char>, i: int)
    requires
        0 <= i <= s.len(),
    ensures
        i <= break_from(s, i) <= s.len(),
        forall|j: int| i <= j < break_from(s, i) ==> !is_break_char(#[trigger] s[j]),
        break_from(s, i) < s.len() ==> is_break_char(s[break_from(s, i)]),
    decreases s.len() - i,
{
    if i < s.len() && !is_break_char(s[i]) {
        lemma_break_from_bounds(s, i + 1);
    }
}

/// Reads one line off the front of `input`: the characters up to the first
/// line ending, and what follows that ending. `None` where `input` has no
/// line ending, or where a carriage return stands without a line feed.
pub fn parse_line(input: &str) -> (r: Option<(String, &str)>)
    ensures
        match first_line(input@) {
            None => r is None,
            Some(p) => match r {
                Some(q) => q.0@ == p.0 && q.1@ == p.1,
                None => false,
            },
        },
{
    let n = input.unicode_len();
    let mut i: usize = 0;
    while i < n && input.get_char(i) != '\r' && input.get_char(i) != '\n'
        invariant
            n == input@.len(),
            0 <= i <= n,
            break_from(input@, 0) == break_from(input@, i as int),
        decreases n - i,
    {
        i = i + 1;
    }
    let k: usize = if i < n && input.get_char(i) == '\n' {
        1
    } else if i < n && i + 1 < n && input.get_char(i) == '\r' && input.get_char(i + 1) == '\n' {
        2
    } else {
        0
    };
    if k == 0 {
        None
    } else {
        let line = input.substring_char(0, i).to_owned();
        let rest = input.substring_char(i + k, n);
        Some((line, rest))
    }
}

/// Splits `content` into display lines. Where `content` is one or more
/// complete lines, each closed by "\n" or "\r\n", the lines are returned
/// without their endings, blank ones kept. Otherwise the whole of `content`
/// is returned as the single line, so nothing is ever lost.
pub fn convert(content: &str) -> (lines: Vec<String>)
    ensures
        texts(lines@) == display_lines(content@),
{
    let mut rest: &str = content;
    let mut out: Vec<String> = Vec::new();
    while !rest.is_empty()
        invariant
            split_lines(content@) == prefixed(texts(out@), split_lines(rest@)),
        decreases rest@.len(),
    {
        proof {
            lemma_break_from_bounds(rest@, 0);
        }
        match parse_line(rest) {
            Some((line, next)) => {
                proof {
                    let ghost before = texts(out@);
                    assert(texts(out@.push(line)) =~= before + seq![line@]);
                    assert(split_lines(rest@) == prefixed(seq![line@], split_lines(next@)));
                    match split_lines(next@) {
                        Some(ls) => assert(before + (seq![line@] + ls) =~= (before + seq![line@])
                            + ls),
                        None => {},
                    }
                }
                out.push(line);
                rest = next;
            },
            None => {
                return vec![content.to_owned()];
            },
        }
    }
    assert(split_lines(rest@) == Some(Seq::<Seq<char>>::empty()));
    assert(texts(out@) + Seq::<Seq<char>>::empty() =~= texts(out@));
    if out.len() == 0 {
        vec![content.to_owned()]
    } else {
        out
    }
}

/// `s` with every "\r\n" written as a single "\n".
pub open spec fn normalized(s: Seq<char>) -> Seq<char>
    decreases s.len(),
{
    if s.len() == 0 {
        s
    } else if s.len() >= 2 && s[0] == '\r' && s[1] == '\n' {
        seq!['\n'] + normalized(s.subrange(2, s.len() as int))
    } else {
        seq![s[0]] + normalized(s.subrange(1, s.len() as int))
    }
}

/// The lines `ls`, each followed by "\n".
pub open spec fn joined(ls: Seq<Seq<char>>) -> Seq<char>
    decreases ls.len(),
{
    if ls.len() == 0 {
        Seq::empty()
    } else {
        ls[0] + seq!['\n'] + joined(ls.subrange(1, ls.len() as int))
    }
}

proof fn lemma_normalized_plain_prefix(l: Seq<char>, t: Seq<char>)
    requires
        forall|j: int| 0 <= j < l.len() ==> !is_break_char(#[trigger] l[j]),
    ensures
        normalized(l + t) == l + normalized(t),
    decreases l.len(),
{
    if l.len() > 0 {
        let lt = l + t;
        assert(lt[0] == l[0]);
        assert(lt.subrange(1, lt.len() as int) =~= l.subrange(1, l.len() as int) + t);
        lemma_normalized_plain_prefix(l.subrange(1, l.len() as int), t);
        assert(l =~= seq![l[0]] + l.subrange(1, l.len() as int));
        assert(normalized(lt) == seq![l[0]] + normalized(lt.subrange(1, lt.len() as int)));
        assert(seq![l[0]] + (l.subrange(1, l.len() as int) + normalized(t)) =~= l + normalized(
            t,
        ));
    } else {
        assert(l + t =~= t);
        assert(l + normalized(t) =~= normalized(t));
    }
}

proof fn lemma_joined_split(s: Seq<char>)
    requires
        split_lines(s) is Some,
    ensures
        joined(split_lines(s)->0) == normalized(s),
    decreases s.len(),
{
    if s.len() > 0 {
        lemma_break_from_bounds(s, 0);
        let b = break_from(s, 0);
        let k = ending_len(s, b);
        let l = s.subrange(0, b);
        let rest = s.subrange(b + k, s.len() as int);
        let tail = s.subrange(b, s.len() as int);
        lemma_joined_split(rest);
        let ls = split_lines(s)->0;
        assert(ls =~= seq![l] + split_lines(rest)->0);
        assert(ls.subrange(1, ls.len() as int) =~= split_lines(rest)->0);
        assert(s =~= l + tail);
        lemma_normalized_plain_prefix(l, tail);
        assert(tail.subrange(k, tail.len() as int) =~= rest);
        if k == 1 {
            assert(tail[0] == '\n');
            assert(normalized(tail) == seq!['\n'] + normalized(rest));
        } else {
            assert(tail[0] == '\r' && tail[1] == '\n');
            assert(normalized(tail) == seq!['\n'] + normalized(rest));
        }
        assert(l + seq!['\n'] + normalized(rest) =~= l + (seq!['\n'] + normalized(rest)));
    }
}

/// The parser loses nothing: where the text is one or more complete lines,
/// the lines it shows, each followed by a line feed, give back the text with
/// every "\r\n" written as "\n"; otherwise it shows the whole text as its
/// one line.
pub proof fn lemma_lines_rebuild_text(s: Seq<char>)
    ensures
        split_lines(s) is Some && split_lines(s)->0.len() > 0 ==> joined(display_lines(s))
            == normalized(s),
        !(split_lines(s) is Some && split_lines(s)->0.len() > 0) ==> display_lines(s) == seq![s],
{
    if split_lines(s) is Some {
        lemma_joined_split(s);
    }
}

/// Text without a line feed anywhere is shown as one line: the text itself.
pub proof fn lemma_no_line_ending_one_line(s: Seq<char>)
    requires
        forall|j: int| 0 <= j < s.len() ==> #[trigger] s[j] != '\n',
    ensures
        display_lines(s) == seq![s],
{
    if s.len() > 0 {
        lemma_break_from_bounds(s, 0);
        assert(first_line(s) is None);
    }
}

} // verus!
