use vstd::prelude::*;
use vstd::string::*;

use crate::parse_markup::{convert, display_lines, texts};
use crate::request::{Message, Role, role_name, turns};

verus! {

/// How a display line is drawn.
#[derive(Clone, Copy, Debug, PartialEq, Eq, Structural)]
pub enum LineStyle {
    /// Ordinary text.
    Plain,
    /// The header that names who spoke the turn below it.
    Speaker(Role),
}

/// One row of the conversation view.
#[derive(Debug)]
pub struct DisplayLine {
    pub text: String,
    pub style: LineStyle,
}

impl View for DisplayLine {
    type V = (Seq<char>, LineStyle);

    open spec fn view(&self) -> (Seq<char>, LineStyle) {
        (self.text@, self.style)
    }
}

/// The text and style of each line.
pub open spec fn line_views(v: Seq<DisplayLine>) -> Seq<(Seq<char>, LineStyle)> {
    v.map_values(|l: DisplayLine| l@)
}

/// Each of `ls` as a plain line.
pub open spec fn plain_lines(ls: Seq<Seq<char>>) -> Seq<(Seq<char>, LineStyle)> {
    ls.map_values(|l: Seq<char>| (l, LineStyle::Plain))
}

/// The header text of a turn: the speaker's name and a colon.
pub open spec fn header_text(role: Role) -> Seq<char> {
    role_name(role) + ": "@
}

/// The lines of one turn's text: a user's text as it is, an assistant's
/// split by the line parser.
pub open spec fn body_lines(t: (Role, Seq<char>)) -> Seq<(Seq<char>, LineStyle)> {
    match t.0 {
        Role::User => seq![(t.1, LineStyle::Plain)],
        Role::Assistant => plain_lines(display_lines(t.1)),
    }
}

/// The lines of one turn: its header, its body and a blank spacer.
pub open spec fn turn_lines(t: (Role, Seq<char>)) -> Seq<(Seq<char>, LineStyle)> {
    seq![(header_text(t.0), LineStyle::Speaker(t.0))] + body_lines(t) + seq![
        (Seq::<char>::empty(), LineStyle::Plain),
    ]
}

/// The whole conversation view: the lines of every turn, in order.
pub open spec fn rendered(ts: Seq<(Role, Seq<char>)>) -> Seq<(Seq<char>, LineStyle)>
    decreases ts.len(),
{
    if ts.len() == 0 {
        Seq::empty()
    } else {
        rendered(ts.drop_last()) + turn_lines(ts.last())
    }
}

/// Appends the lines of one turn to `out`.
fn push_turn(out: &mut Vec<DisplayLine>, m: &Message)
    ensures
        line_views(final(out)@) == line_views(old(out)@) + turn_lines(m@),
{
    let ghost start = line_views(out@);
    let header = m.role.as_str().to_owned().concat(": ");
    out.push(DisplayLine { text: header, style: LineStyle::Speaker(m.role) });
    let ghost with_header = line_views(out@);
    assert(with_header =~= start + seq![(header_text(m.role), LineStyle::Speaker(m.role))]);
    match m.role {
        Role::User => {
            out.push(DisplayLine { text: m.content.clone(), style: LineStyle::Plain });
            assert(line_views(out@) =~= with_header + body_lines(m@));
        },
        Role::Assistant => {
            let lines = convert(m.content.as_str());
            let mut j: usize = 0;
            while j < lines.len()
                invariant
                    j <= lines@.len(),
                    texts(lines@) == display_lines(m.content@),
                    line_views(out@) =~= with_header + plain_lines(texts(lines@).take(j as int)),
                decreases lines@.len() - j,
            {
                let ghost before = line_views(out@);
                out.push(DisplayLine { text: lines[j].clone(), style: LineStyle::Plain });
                assert(line_views(out@) =~= before.push((lines@[j as int]@, LineStyle::Plain)));
                assert(plain_lines(texts(lines@).take(j + 1)) =~= plain_lines(
                    texts(lines@).take(j as int),
                ).push((lines@[j as int]@, LineStyle::Plain)));
                j = j + 1;
            }
            assert(texts(lines@).take(j as int) =~= texts(lines@));
        },
    }
    let ghost with_body = line_views(out@);
    out.push(DisplayLine { text: String::new(), style: LineStyle::Plain });
    assert(line_views(out@) =~= with_body + seq![(Seq::<char>::empty(), LineStyle::Plain)]);
    assert(line_views(out@) =~= start + turn_lines(m@));
}

/// The conversation view of `history`: for each turn a header naming the
/// speaker, the turn's text (an assistant's split into lines by the parser)
/// and a blank spacer line.
pub fn render(history: &Vec<Message>) -> (lines: Vec<DisplayLine>)
    ensures
        line_views(lines@) == rendered(turns(history@)),
{
    let mut out: Vec<DisplayLine> = Vec::new();
    let mut i: usize = 0;
    while i < history.len()
        invariant
            i <= history@.len(),
            line_views(out@) == rendered(turns(history@).take(i as int)),
        decreases history@.len() - i,
    {
        push_turn(&mut out, &history[i]);
        assert(turns(history@).take(i + 1).drop_last() =~= turns(history@).take(i as int));
        i = i + 1;
    }
    assert(turns(history@).take(i as int) =~= turns(history@));
    out
}

} // verus!
