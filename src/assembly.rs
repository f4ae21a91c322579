//! Building the left and right prompts out of segments.

use vstd::prelude::*;
use vstd::string::*;
use crate::constants::{palette, palette_of, Role, L_CURVED_FILL, PYTHON_LOGO, R_ANGLED_FILL, R_CURVED_FILL};
use crate::prompt::{Chunk, ChunkView, Segment, SegmentView};
use crate::style::{AnsiColor, Color, TextWeight};
use crate::text::{decimal, push_decimal};

verus! {

/// The terminal background assumed when none can be read.
pub open spec fn default_background() -> Color {
    Color::Ansi(AnsiColor::Black)
}

/// The terminal background: the color that was found, or the default.
pub fn background_or_default(found: Option<Color>) -> (r: Color)
    ensures
        r == match found {
            Some(c) => c,
            None => default_background(),
        },
{
    match found {
        Some(c) => c,
        None => Color::Ansi(AnsiColor::Black),
    }
}

/// A chunk holding `value` in the given colors and weight.
pub open spec fn chunk_of(
    value: Seq<char>,
    fg: Option<Color>,
    bg: Option<Color>,
    weight: Option<TextWeight>,
    padded: bool,
) -> ChunkView {
    ChunkView { value, fg, bg, weight, padded }
}

/// Whose colors the user's name is shown in.
pub open spec fn user_role(username: Seq<char>) -> Role {
    if username == "root"@ {
        Role::UserRoot
    } else {
        Role::UserNormal
    }
}

/// The user's name in bold on the role's colors, closed by a chevron that
/// runs from the role's background into the terminal's.
pub open spec fn user_segment_of(username: Seq<char>, term_bg: Color) -> SegmentView {
    let p = palette_of(user_role(username));
    SegmentView {
        left: None,
        center: chunk_of(username, Some(p.fg), Some(p.bg), Some(TextWeight::Bold), true),
        right: Some(chunk_of(R_ANGLED_FILL@, Some(p.bg), Some(term_bg), None, false)),
    }
}

/// The text of the exit status: `E` and the number, or `E?` when unknown.
pub open spec fn exit_label(status: Option<u8>) -> Seq<char> {
    match status {
        Some(n) => seq!['E'] + decimal(n as nat),
        None => "E?"@,
    }
}

/// Whose colors the exit status is shown in: success only for a known zero.
pub open spec fn exit_role(status: Option<u8>) -> Role {
    if status == Some(0u8) {
        Role::ExitSuccess
    } else {
        Role::ExitFailed
    }
}

/// The exit status on the role's colors, opened by a chevron that comes out
/// of the terminal's background and closed by one that fades into it.
pub open spec fn exit_segment_of(status: Option<u8>, term_bg: Color) -> SegmentView {
    let p = palette_of(exit_role(status));
    SegmentView {
        left: Some(chunk_of(R_ANGLED_FILL@, Some(term_bg), Some(p.bg), None, false)),
        center: chunk_of(exit_label(status), Some(p.fg), Some(p.bg), None, true),
        right: Some(chunk_of(R_ANGLED_FILL@, Some(p.bg), None, None, false)),
    }
}

/// A center chunk of `role`'s colors between two half circles of its
/// background.
pub open spec fn pill_of(value: Seq<char>, role: Role, weight: TextWeight) -> SegmentView {
    let p = palette_of(role);
    SegmentView {
        left: Some(chunk_of(L_CURVED_FILL@, Some(p.bg), None, None, false)),
        center: chunk_of(value, Some(p.fg), Some(p.bg), Some(weight), false),
        right: Some(chunk_of(R_CURVED_FILL@, Some(p.bg), None, None, false)),
    }
}

/// The virtual environment marker: the Python logo in bold.
pub open spec fn venv_segment_of() -> SegmentView {
    pill_of(PYTHON_LOGO@, Role::VenvPython, TextWeight::Bold)
}

/// The clock, dimmed.
pub open spec fn clock_segment_of(clock: Seq<char>) -> SegmentView {
    pill_of(clock, Role::Time, TextWeight::Dimm)
}

/// The segments of the left prompt: the user, then the exit status.
pub open spec fn left_segments_of(username: Seq<char>, status: Option<u8>, term_bg: Color) -> Seq<SegmentView> {
    seq![user_segment_of(username, term_bg), exit_segment_of(status, term_bg)]
}

/// The segments of the right prompt: the virtual environment marker when
/// one is active, then the clock.
pub open spec fn right_segments_of(venv: bool, clock: Seq<char>) -> Seq<SegmentView> {
    if venv {
        seq![venv_segment_of(), clock_segment_of(clock)]
    } else {
        seq![clock_segment_of(clock)]
    }
}

/// The renderings of `segs` one after another, each preceded by `lead`.
pub open spec fn joined(segs: Seq<SegmentView>, lead: Seq<char>) -> Seq<char>
    decreases segs.len(),
{
    if segs.len() == 0 {
        Seq::empty()
    } else {
        joined(segs.drop_last(), lead) + lead + segs.last().rendered()
    }
}

/// The models of a sequence of segments.
pub open spec fn views(segs: Seq<Segment>) -> Seq<SegmentView> {
    segs.map_values(|s: Segment| s@)
}

/// The segment that shows the user's name.
pub fn user_segment(username: &str, term_bg: Color) -> (r: Segment)
    ensures
        r@ == user_segment_of(username@, term_bg),
{
    let is_root = String::from_str(username) == String::from_str("root");
    let p = palette(if is_root { Role::UserRoot } else { Role::UserNormal });
    Segment {
        left: None,
        center: Chunk::new(username).fg(p.fg).bg(p.bg).weight(TextWeight::Bold).pad(),
        right: Some(Chunk::new(R_ANGLED_FILL).fg(p.bg).bg(term_bg)),
    }
}

/// The segment that shows the exit status of the last command.
pub fn exit_segment(status: Option<u8>, term_bg: Color) -> (r: Segment)
    ensures
        r@ == exit_segment_of(status, term_bg),
{
    let label = match status {
        Some(n) => {
            let mut s = String::new();
            s.push('E');
            push_decimal(&mut s, n);
            proof {
                assert(s@ =~= seq!['E'] + decimal(n as nat));
            }
            s
        },
        None => String::from_str("E?"),
    };
    let p = palette(
        match status {
            Some(0u8) => Role::ExitSuccess,
            _ => Role::ExitFailed,
        },
    );
    Segment {
        left: Some(Chunk::new(R_ANGLED_FILL).fg(term_bg).bg(p.bg)),
        center: Chunk::new(label.as_str()).fg(p.fg).bg(p.bg).pad(),
        right: Some(Chunk::new(R_ANGLED_FILL).fg(p.bg)),
    }
}

/// A center chunk of `role`'s colors between two half circles.
fn pill(value: &str, role: Role, weight: TextWeight) -> (r: Segment)
    ensures
        r@ == pill_of(value@, role, weight),
{
    let p = palette(role);
    Segment {
        left: Some(Chunk::new(L_CURVED_FILL).fg(p.bg)),
        center: Chunk::new(value).fg(p.fg).bg(p.bg).weight(weight),
        right: Some(Chunk::new(R_CURVED_FILL).fg(p.bg)),
    }
}

/// The segment that marks an active virtual environment.
pub fn venv_segment() -> (r: Segment)
    ensures
        r@ == venv_segment_of(),
{
    pill(PYTHON_LOGO, Role::VenvPython, TextWeight::Bold)
}

/// The segment that shows the clock.
pub fn clock_segment(clock: &str) -> (r: Segment)
    ensures
        r@ == clock_segment_of(clock@),
{
    pill(clock, Role::Time, TextWeight::Dimm)
}

/// The segments of the left prompt.
pub fn left_segments(username: &str, exit_status: Option<u8>, term_bg: Color) -> (r: Vec<Segment>)
    ensures
        views(r@) == left_segments_of(username@, exit_status, term_bg),
{
    let mut v: Vec<Segment> = Vec::new();
    v.push(user_segment(username, term_bg));
    v.push(exit_segment(exit_status, term_bg));
    assert(views(v@) =~= left_segments_of(username@, exit_status, term_bg));
    v
}

/// The segments of the right prompt.
pub fn right_segments(venv: bool, clock: &str) -> (r: Vec<Segment>)
    ensures
        views(r@) == right_segments_of(venv, clock@),
{
    let mut v: Vec<Segment> = Vec::new();
    if venv {
        v.push(venv_segment());
    }
    v.push(clock_segment(clock));
    assert(views(v@) =~= right_segments_of(venv, clock@));
    v
}

/// Renders `segments` one after another, each preceded by `lead`.
pub fn render_segments(segments: &Vec<Segment>, lead: &str) -> (r: String)
    ensures
        r@ == joined(views(segments@), lead@),
{
    let mut out = String::new();
    let n = segments.len();
    let mut i: usize = 0;
    while i < n
        invariant
            n == segments@.len(),
            i <= n,
            out@ == joined(views(segments@).take(i as int), lead@),
        decreases n - i,
    {
        let ghost before = out@;
        out.append(lead);
        let s = segments[i].render();
        out.append(s.as_str());
        proof {
            let vs = views(segments@);
            assert(vs.take(i + 1).drop_last() =~= vs.take(i as int));
            assert(vs.take(i + 1).last() == segments@[i as int]@);
        }
        i += 1;
    }
    assert(views(segments@).take(n as int) =~= views(segments@));
    out
}

/// The left prompt: who is logged in and how the last command ended.
pub fn left_prompt(username: &str, exit_status: Option<u8>, term_bg: Color) -> (r: String)
    ensures
        r@ == joined(left_segments_of(username@, exit_status, term_bg), Seq::empty()),
{
    let segs = left_segments(username, exit_status, term_bg);
    let r = render_segments(&segs, "");
    proof {
        reveal_strlit("");
        assert(""@ =~= Seq::<char>::empty());
    }
    r
}

/// The right prompt: the virtual environment marker, if one is active, and
/// the clock, each after a space.
pub fn right_prompt(venv: bool, clock: &str) -> (r: String)
    ensures
        r@ == joined(right_segments_of(venv, clock@), seq![' ']),
{
    let segs = right_segments(venv, clock);
    let r = render_segments(&segs, " ");
    proof {
        reveal_strlit(" ");
        assert(" "@ =~= seq![' ']);
    }
    r
}

/// Without a known exit status the left prompt shows `E?` in the colors of
/// a failure, whoever the user is.
pub proof fn lemma_unknown_status(username: Seq<char>, term_bg: Color)
    ensures
        left_segments_of(username, None, term_bg)[1].center == chunk_of(
            "E?"@,
            Some(palette_of(Role::ExitFailed).fg),
            Some(palette_of(Role::ExitFailed).bg),
            None,
            true,
        ),
{
}

/// Without a virtual environment the right prompt is the clock segment
/// alone, after one space.
pub proof fn lemma_no_venv(clock: Seq<char>)
    ensures
        right_segments_of(false, clock) == seq![clock_segment_of(clock)],
        joined(right_segments_of(false, clock), seq![' ']) == seq![' '] + clock_segment_of(clock).rendered(),
{
    let segs = right_segments_of(false, clock);
    assert(segs.drop_last() =~= Seq::<SegmentView>::empty());
    assert(joined(segs.drop_last(), seq![' ']) == Seq::<char>::empty());
    assert(joined(segs, seq![' ']) =~= seq![' '] + clock_segment_of(clock).rendered());
}

} // verus!
