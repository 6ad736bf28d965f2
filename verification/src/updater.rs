//! The update prompt: a few short highlights picked from the release notes,
//! because the native dialog cannot scroll.

use vstd::prelude::*;

use crate::text::{chars_of, split_chars, split_on, starts_with_spec, string_from_chars};

verus! {

/// At most this many release-note lines are shown.
pub const PROMPT_NOTE_LINES: usize = 4;

/// Longer release-note lines are cut to this many characters.
pub const PROMPT_NOTE_CHARS: usize = 100;

/// Where the full release notes are.
pub const UPDATES_URL: &'static str = "https://keyecho.app/updates";

/// Unicode `White_Space` characters, which `char::is_whitespace` and
/// `str::trim` go by.
pub open spec fn is_white_space(c: char) -> bool {
    let v = c as u32;
    (9 <= v <= 13) || v == 32 || v == 0x85 || v == 0xA0 || v == 0x1680 || (0x2000 <= v <= 0x200A)
        || v == 0x2028 || v == 0x2029 || v == 0x202F || v == 0x205F || v == 0x3000
}

/// Whether `c` is white space, as `char::is_whitespace` decides: the
/// Unicode `White_Space` characters.
fn char_is_whitespace(c: char) -> (r: bool)
    ensures
        r == is_white_space(c),
{
    let v = c as u32;
    (9 <= v && v <= 13) || v == 32 || v == 0x85 || v == 0xA0 || v == 0x1680 || (0x2000 <= v && v <= 0x200A)
        || v == 0x2028 || v == 0x2029 || v == 0x202F || v == 0x205F || v == 0x3000
}

/// `s` without the leading characters satisfying `p`.
pub open spec fn drop_while(s: Seq<char>, p: spec_fn(char) -> bool) -> Seq<char>
    decreases s.len(),
{
    if s.len() > 0 && p(s[0]) {
        drop_while(s.skip(1), p)
    } else {
        s
    }
}

/// `s` without the trailing characters satisfying `p`.
pub open spec fn drop_while_end(s: Seq<char>, p: spec_fn(char) -> bool) -> Seq<char>
    decreases s.len(),
{
    if s.len() > 0 && p(s.last()) {
        drop_while_end(s.drop_last(), p)
    } else {
        s
    }
}

pub proof fn lemma_drop_while(s: Seq<char>, p: spec_fn(char) -> bool, a: int)
    requires
        0 <= a <= s.len(),
        forall|k: int| 0 <= k < a ==> p(#[trigger] s[k]),
        a == s.len() || !p(s[a]),
    ensures
        drop_while(s, p) == s.skip(a),
    decreases a,
{
    if a == 0 {
        assert(s.skip(0) =~= s);
    } else {
        assert(p(s[0]));
        assert forall|k: int| 0 <= k < a - 1 implies p(#[trigger] s.skip(1)[k]) by {
            assert(s.skip(1)[k] == s[k + 1]);
        }
        if a < s.len() {
            assert(s.skip(1)[a - 1] == s[a]);
        }
        lemma_drop_while(s.skip(1), p, a - 1);
        assert(s.skip(1).skip(a - 1) =~= s.skip(a));
    }
}

pub proof fn lemma_drop_while_end(s: Seq<char>, p: spec_fn(char) -> bool, b: int)
    requires
        0 <= b <= s.len(),
        forall|k: int| b <= k < s.len() ==> p(#[trigger] s[k]),
        b == 0 || !p(s[b - 1]),
    ensures
        drop_while_end(s, p) == s.take(b),
    decreases s.len() - b,
{
    if b == s.len() {
        assert(s.take(b) =~= s);
    } else {
        assert(p(s.last()));
        let t = s.drop_last();
        assert forall|k: int| b <= k < t.len() implies p(#[trigger] t[k]) by {
            assert(t[k] == s[k]);
        }
        if b > 0 {
            assert(t[b - 1] == s[b - 1]);
        }
        lemma_drop_while_end(t, p, b);
        assert(t.take(b) =~= s.take(b));
    }
}

pub open spec fn ws_pred() -> spec_fn(char) -> bool {
    |c: char| is_white_space(c)
}

pub open spec fn mark_pred() -> spec_fn(char) -> bool {
    |c: char| c == '-' || c == '*'
}

/// `s` without leading and trailing white space (`str::trim`).
pub open spec fn trim_spec(s: Seq<char>) -> Seq<char> {
    drop_while_end(drop_while(s, ws_pred()), ws_pred())
}

/// `s` without trailing white space (`str::trim_end`).
pub open spec fn trim_end_spec(s: Seq<char>) -> Seq<char> {
    drop_while_end(s, ws_pred())
}

fn trim_start_chars(s: &[char]) -> (r: Vec<char>)
    ensures
        r@ == drop_while(s@, ws_pred()),
{
    let mut a: usize = 0;
    while a < s.len() && char_is_whitespace(s[a])
        invariant
            a <= s@.len(),
            forall|k: int| 0 <= k < a ==> (ws_pred())(#[trigger] s@[k]),
        decreases s@.len() - a,
    {
        a += 1;
    }
    proof {
        lemma_drop_while(s@, ws_pred(), a as int);
    }
    subrange_chars(s, a, s.len())
}

fn trim_end_chars(s: &[char]) -> (r: Vec<char>)
    ensures
        r@ == drop_while_end(s@, ws_pred()),
{
    let mut b: usize = s.len();
    while b > 0 && char_is_whitespace(s[b - 1])
        invariant
            b <= s@.len(),
            forall|k: int| b <= k < s@.len() ==> (ws_pred())(#[trigger] s@[k]),
        decreases b,
    {
        b -= 1;
    }
    proof {
        lemma_drop_while_end(s@, ws_pred(), b as int);
        assert(s@.subrange(0, b as int) =~= s@.take(b as int));
    }
    subrange_chars(s, 0, b)
}

/// The characters of `s` from `from` up to `to`.
pub fn subrange_chars(s: &[char], from: usize, to: usize) -> (r: Vec<char>)
    requires
        from <= to <= s@.len(),
    ensures
        r@ == s@.subrange(from as int, to as int),
{
    let mut out: Vec<char> = Vec::new();
    let mut i = from;
    while i < to
        invariant
            from <= i <= to <= s@.len(),
            out@ == s@.subrange(from as int, i as int),
        decreases to - i,
    {
        out.push(s[i]);
        i += 1;
    }
    out
}

fn trim_chars(s: &[char]) -> (r: Vec<char>)
    ensures
        r@ == trim_spec(s@),
{
    let t = trim_start_chars(s);
    trim_end_chars(t.as_slice())
}

fn strip_marks_chars(s: &[char]) -> (r: Vec<char>)
    ensures
        r@ == drop_while(s@, mark_pred()),
{
    let mut a: usize = 0;
    while a < s.len() && (s[a] == '-' || s[a] == '*')
        invariant
            a <= s@.len(),
            forall|k: int| 0 <= k < a ==> (mark_pred())(#[trigger] s@[k]),
        decreases s@.len() - a,
    {
        a += 1;
    }
    proof {
        lemma_drop_while(s@, mark_pred(), a as int);
    }
    subrange_chars(s, a, s.len())
}

/// A note line worth showing: not blank and not a heading.
pub open spec fn is_note_line(t: Seq<char>) -> bool {
    t.len() > 0 && t[0] != '#'
}

/// A bullet line: starts with `- ` or `* `.
pub open spec fn is_bullet(t: Seq<char>) -> bool {
    t.len() >= 2 && (t[0] == '-' || t[0] == '*') && t[1] == ' '
}

/// The trimmed note lines of `lines`, in order.
pub open spec fn note_lines(lines: Seq<Seq<char>>) -> Seq<Seq<char>>
    decreases lines.len(),
{
    if lines.len() == 0 {
        Seq::empty()
    } else {
        let rest = note_lines(lines.drop_last());
        let t = trim_spec(lines.last());
        if is_note_line(t) {
            rest.push(t)
        } else {
            rest
        }
    }
}

/// The bullet lines among `lines`, in order.
pub open spec fn bullet_lines(lines: Seq<Seq<char>>) -> Seq<Seq<char>>
    decreases lines.len(),
{
    if lines.len() == 0 {
        Seq::empty()
    } else {
        let rest = bullet_lines(lines.drop_last());
        if is_bullet(lines.last()) {
            rest.push(lines.last())
        } else {
            rest
        }
    }
}

/// One highlight: the line without its bullet marks and white space,
/// prefixed with `• `; lines over 100 characters are cut to 99 and end in `…`.
pub open spec fn highlight_spec(line: Seq<char>) -> Seq<char> {
    let text = trim_spec(drop_while(line, mark_pred()));
    if text.len() > PROMPT_NOTE_CHARS {
        "• "@ + trim_end_spec(text.take((PROMPT_NOTE_CHARS - 1) as int)) + "…"@
    } else {
        "• "@ + text
    }
}

/// The highlights of release notes: the bullet lines if there are any, else
/// all note lines; the first four, each formatted.
pub open spec fn release_highlights_spec(notes: Seq<char>) -> Seq<Seq<char>> {
    let lines = note_lines(split_on(notes, '\n'));
    let bullets = bullet_lines(lines);
    let picked = if bullets.len() > 0 { bullets } else { lines };
    let shown = if picked.len() > PROMPT_NOTE_LINES { picked.take(PROMPT_NOTE_LINES as int) } else { picked };
    shown.map_values(|l: Seq<char>| highlight_spec(l))
}

pub proof fn lemma_drop_while_end_shorter(s: Seq<char>, p: spec_fn(char) -> bool)
    ensures
        drop_while_end(s, p).len() <= s.len(),
    decreases s.len(),
{
    if s.len() > 0 && p(s.last()) {
        lemma_drop_while_end_shorter(s.drop_last(), p);
    }
}

/// Every highlight is a `• ` line of at most 100 characters of text (a cut
/// line keeps 99 and ends in `…`), so the dialog's buttons stay on screen.
pub proof fn lemma_highlight_is_short(line: Seq<char>)
    ensures
        highlight_spec(line).len() <= PROMPT_NOTE_CHARS + 2,
        starts_with_spec(highlight_spec(line), "• "@),
{
    reveal_strlit("• ");
    reveal_strlit("…");
    let text = trim_spec(drop_while(line, mark_pred()));
    if text.len() > PROMPT_NOTE_CHARS {
        lemma_drop_while_end_shorter(text.take((PROMPT_NOTE_CHARS - 1) as int), ws_pred());
        let h = "• "@ + trim_end_spec(text.take((PROMPT_NOTE_CHARS - 1) as int)) + "…"@;
        assert(h.take(2) =~= "• "@);
    } else {
        let h = "• "@ + text;
        assert(h.take(2) =~= "• "@);
    }
}

/// The prompt shows at most four highlights, each short.
pub proof fn lemma_release_highlights_are_bounded(notes: Seq<char>)
    ensures
        release_highlights_spec(notes).len() <= PROMPT_NOTE_LINES,
        forall|i: int| 0 <= i < release_highlights_spec(notes).len() ==> {
            &&& (#[trigger] release_highlights_spec(notes)[i]).len() <= PROMPT_NOTE_CHARS + 2
            &&& starts_with_spec(release_highlights_spec(notes)[i], "• "@)
        },
{
    let lines = note_lines(split_on(notes, '\n'));
    let bullets = bullet_lines(lines);
    let picked = if bullets.len() > 0 { bullets } else { lines };
    let shown = if picked.len() > PROMPT_NOTE_LINES { picked.take(PROMPT_NOTE_LINES as int) } else { picked };
    assert forall|i: int| 0 <= i < release_highlights_spec(notes).len() implies {
        &&& (#[trigger] release_highlights_spec(notes)[i]).len() <= PROMPT_NOTE_CHARS + 2
        &&& starts_with_spec(release_highlights_spec(notes)[i], "• "@)
    } by {
        lemma_highlight_is_short(shown[i]);
    }
}

/// A bullet line is one of `lines`, and every bullet line of `lines` is kept.
pub proof fn lemma_bullet_lines_members(lines: Seq<Seq<char>>)
    ensures
        forall|x: Seq<char>| #[trigger] bullet_lines(lines).contains(x) ==> lines.contains(x) && is_bullet(x),
        forall|x: Seq<char>| #[trigger] lines.contains(x) && is_bullet(x) ==> bullet_lines(lines).contains(x),
    decreases lines.len(),
{
    if lines.len() > 0 {
        let rest = lines.drop_last();
        lemma_bullet_lines_members(rest);
        let b = bullet_lines(rest);
        let last = lines.last();
        assert forall|x: Seq<char>| #[trigger] bullet_lines(lines).contains(x) implies lines.contains(x) && is_bullet(x) by {
            let r = bullet_lines(lines);
            let k = choose|k: int| 0 <= k < r.len() && r[k] == x;
            if k < b.len() {
                assert(b[k] == x);
                assert(b.contains(x));
                let m = choose|m: int| 0 <= m < rest.len() && rest[m] == x;
                assert(lines[m] == x);
            } else {
                assert(x == last);
                assert(lines[lines.len() - 1] == x);
            }
        }
        assert forall|x: Seq<char>| #[trigger] lines.contains(x) && is_bullet(x) implies bullet_lines(lines).contains(x) by {
            let r = bullet_lines(lines);
            let k = choose|k: int| 0 <= k < lines.len() && lines[k] == x;
            if k < rest.len() {
                assert(rest[k] == x);
                assert(rest.contains(x));
                assert(b.contains(x));
                let m = choose|m: int| 0 <= m < b.len() && b[m] == x;
                assert(r[m] == x);
            } else {
                assert(x == last);
                assert(r[b.len() as int] == x);
            }
        }
    } else {
        assert forall|x: Seq<char>| #[trigger] bullet_lines(lines).contains(x) implies lines.contains(x) && is_bullet(x) by {
            assert(bullet_lines(lines).len() == 0);
        }
    }
}

/// Every note line is the trimmed form of one of the raw lines, and every
/// raw line whose trimmed form is a note line gives one.
pub proof fn lemma_note_lines_members(raw: Seq<Seq<char>>)
    ensures
        forall|x: Seq<char>| note_lines(raw).contains(x) ==> exists|j: int| 0 <= j < raw.len() && x == trim_spec(#[trigger] raw[j]) && is_note_line(x),
        forall|j: int| 0 <= j < raw.len() && is_note_line(trim_spec(#[trigger] raw[j])) ==> note_lines(raw).contains(trim_spec(raw[j])),
    decreases raw.len(),
{
    if raw.len() > 0 {
        let rest = raw.drop_last();
        lemma_note_lines_members(rest);
        let n = note_lines(rest);
        let t = trim_spec(raw.last());
        assert forall|x: Seq<char>| note_lines(raw).contains(x) implies exists|j: int| 0 <= j < raw.len() && x == trim_spec(#[trigger] raw[j]) && is_note_line(x) by {
            if n.contains(x) {
                let j = choose|j: int| 0 <= j < rest.len() && x == trim_spec(#[trigger] rest[j]) && is_note_line(x);
                assert(raw[j] == rest[j]);
            } else {
                let k = choose|k: int| 0 <= k < note_lines(raw).len() && note_lines(raw)[k] == x;
                assert(is_note_line(t));
                assert(n.push(t)[k] == x);
                if k < n.len() {
                    assert(n[k] == x);
                }
                assert(raw[raw.len() - 1] == raw.last());
            }
        }
        assert forall|j: int| 0 <= j < raw.len() && is_note_line(trim_spec(#[trigger] raw[j])) implies note_lines(raw).contains(trim_spec(raw[j])) by {
            if j < rest.len() {
                assert(rest[j] == raw[j]);
                let k = choose|k: int| 0 <= k < n.len() && n[k] == trim_spec(raw[j]);
                assert(n.push(t)[k] == trim_spec(raw[j]));
            } else {
                assert(n.push(t)[n.len() as int] == t);
            }
        }
    }
}

/// Once the notes have a bullet line (one that trims to `- ...` or
/// `* ...`), only bullet lines are shown: every highlight is made from the
/// trimmed form of a bullet line of the notes, and as many are shown as
/// there are bullet lines, up to four.
pub proof fn lemma_bullets_take_precedence(notes: Seq<char>)
    requires
        exists|j: int| 0 <= j < split_on(notes, '\n').len() && is_bullet(trim_spec(#[trigger] split_on(notes, '\n')[j])),
    ensures
        forall|k: int| 0 <= k < release_highlights_spec(notes).len() ==> exists|j: int| {
            &&& 0 <= j < split_on(notes, '\n').len()
            &&& is_bullet(trim_spec(#[trigger] split_on(notes, '\n')[j]))
            &&& #[trigger] release_highlights_spec(notes)[k] == highlight_spec(trim_spec(split_on(notes, '\n')[j]))
        },
        release_highlights_spec(notes).len() == if bullet_lines(note_lines(split_on(notes, '\n'))).len() > PROMPT_NOTE_LINES {
            PROMPT_NOTE_LINES as nat
        } else {
            bullet_lines(note_lines(split_on(notes, '\n'))).len()
        },
{
    let raw = split_on(notes, '\n');
    let lines = note_lines(raw);
    let bullets = bullet_lines(lines);
    lemma_note_lines_members(raw);
    lemma_bullet_lines_members(lines);
    let j0 = choose|j: int| 0 <= j < raw.len() && is_bullet(trim_spec(#[trigger] raw[j]));
    let t0 = trim_spec(raw[j0]);
    assert(is_note_line(t0));
    assert(lines.contains(t0));
    assert(bullets.contains(t0));
    assert(bullets.len() > 0);
    let shown = if bullets.len() > PROMPT_NOTE_LINES { bullets.take(PROMPT_NOTE_LINES as int) } else { bullets };
    assert forall|k: int| 0 <= k < release_highlights_spec(notes).len() implies exists|j: int| {
        &&& 0 <= j < raw.len()
        &&& is_bullet(trim_spec(#[trigger] raw[j]))
        &&& #[trigger] release_highlights_spec(notes)[k] == highlight_spec(trim_spec(raw[j]))
    } by {
        let x = shown[k];
        assert(bullets[k] == x);
        assert(bullets.contains(x));
        assert(lines.contains(x) && is_bullet(x));
        let j = choose|j: int| 0 <= j < raw.len() && x == trim_spec(#[trigger] raw[j]) && is_note_line(x);
        assert(release_highlights_spec(notes)[k] == highlight_spec(trim_spec(raw[j])));
    }
}

/// Without any note lines the prompt is only the offer.
pub proof fn lemma_prompt_without_notes(version: Seq<char>, current_version: Seq<char>, release_notes: Seq<char>)
    requires
        release_highlights_spec(release_notes).len() == 0,
    ensures
        update_prompt_message_spec(version, current_version, release_notes) == "KeyEcho "@ + version
            + " is now available. You have "@ + current_version + ".\n\nWould you like to install it now?"@,
{
}

fn highlight(line: &[char]) -> (r: Vec<char>)
    ensures
        r@ == highlight_spec(line@),
{
    let stripped = strip_marks_chars(line);
    let text = trim_chars(stripped.as_slice());
    let mut out = chars_of("• ");
    if text.len() > PROMPT_NOTE_CHARS {
        let cut = subrange_chars(text.as_slice(), 0, PROMPT_NOTE_CHARS - 1);
        assert(cut@ =~= text@.take((PROMPT_NOTE_CHARS - 1) as int));
        let cut = trim_end_chars(cut.as_slice());
        append_chars(&mut out, cut.as_slice());
        let ellipsis = chars_of("…");
        append_chars(&mut out, ellipsis.as_slice());
    } else {
        append_chars(&mut out, text.as_slice());
    }
    out
}

/// Appends `src` to `dst`.
pub fn append_chars(dst: &mut Vec<char>, src: &[char])
    ensures
        final(dst)@ == old(dst)@ + src@,
{
    let mut i: usize = 0;
    while i < src.len()
        invariant
            i <= src@.len(),
            dst@ == old(dst)@ + src@.take(i as int),
        decreases src@.len() - i,
    {
        dst.push(src[i]);
        assert(src@.take(i + 1) =~= src@.take(i as int).push(src@[i as int]));
        i += 1;
    }
    assert(src@.take(src@.len() as int) =~= src@);
}

fn highlights_chars(notes: &str) -> (r: Vec<Vec<char>>)
    ensures
        r@.map_values(|v: Vec<char>| v@) == release_highlights_spec(notes@),
{
    let chars = chars_of(notes);
    let raw = split_chars(chars.as_slice(), '\n');
    let ghost raw_view = raw@.map_values(|v: Vec<char>| v@);
    let mut lines: Vec<Vec<char>> = Vec::new();
    let mut bullets: Vec<Vec<char>> = Vec::new();
    let mut i: usize = 0;
    assert(raw_view.take(0) =~= Seq::<Seq<char>>::empty());
    while i < raw.len()
        invariant
            raw_view == raw@.map_values(|v: Vec<char>| v@),
            i <= raw@.len(),
            lines@.map_values(|v: Vec<char>| v@) == note_lines(raw_view.take(i as int)),
            bullets@.map_values(|v: Vec<char>| v@) == bullet_lines(note_lines(raw_view.take(i as int))),
        decreases raw@.len() - i,
    {
        let t = trim_chars(raw[i].as_slice());
        let ghost before_lines = note_lines(raw_view.take(i as int));
        assert(raw_view.take(i + 1).drop_last() =~= raw_view.take(i as int));
        assert(raw_view.take(i + 1).last() == raw@[i as int]@);
        if t.len() > 0 && t[0] != '#' {
            let is_b = t.len() >= 2 && (t[0] == '-' || t[0] == '*') && t[1] == ' ';
            let ghost lv = lines@.map_values(|v: Vec<char>| v@);
            let ghost bv = bullets@.map_values(|v: Vec<char>| v@);
            let t2 = copy_chars(t.as_slice());
            lines.push(t);
            assert(lines@.map_values(|v: Vec<char>| v@) =~= lv.push(t2@));
            let ghost after = before_lines.push(t2@);
            assert(after.drop_last() =~= before_lines);
            if is_b {
                bullets.push(t2);
                assert(bullets@.map_values(|v: Vec<char>| v@) =~= bv.push(after.last()));
            }
        }
        i += 1;
    }
    assert(raw_view.take(raw@.len() as int) =~= raw_view);
    let picked = if bullets.len() > 0 { bullets } else { lines };
    let ghost pv = picked@.map_values(|v: Vec<char>| v@);
    let count = if picked.len() > PROMPT_NOTE_LINES { PROMPT_NOTE_LINES } else { picked.len() };
    let mut out: Vec<Vec<char>> = Vec::new();
    let mut k: usize = 0;
    while k < count
        invariant
            pv == picked@.map_values(|v: Vec<char>| v@),
            count <= picked@.len(),
            k <= count,
            out@.map_values(|v: Vec<char>| v@) == pv.take(k as int).map_values(|l: Seq<char>| highlight_spec(l)),
        decreases count - k,
    {
        let h = highlight(picked[k].as_slice());
        let ghost ov = out@.map_values(|v: Vec<char>| v@);
        out.push(h);
        assert(pv.take(k + 1) =~= pv.take(k as int).push(pv[k as int]));
        assert(out@.map_values(|v: Vec<char>| v@) =~= ov.push(highlight_spec(pv[k as int])));
        assert(pv.take(k + 1).map_values(|l: Seq<char>| highlight_spec(l)) =~= pv.take(k as int).map_values(
            |l: Seq<char>| highlight_spec(l),
        ).push(highlight_spec(pv[k as int])));
        k += 1;
    }
    proof {
        if pv.len() <= PROMPT_NOTE_LINES {
            assert(pv.take(count as int) =~= pv);
        }
    }
    out
}

fn copy_chars(s: &[char]) -> (r: Vec<char>)
    ensures
        r@ == s@,
{
    let r = subrange_chars(s, 0, s.len());
    assert(r@ =~= s@);
    r
}

/// The highlights shown in the update prompt.
pub fn release_highlights(release_notes: &str) -> (r: Vec<String>)
    ensures
        r@.map_values(|s: String| s@) == release_highlights_spec(release_notes@),
{
    let hs = highlights_chars(release_notes);
    let mut out: Vec<String> = Vec::new();
    let mut i: usize = 0;
    while i < hs.len()
        invariant
            i <= hs@.len(),
            out@.map_values(|s: String| s@) == hs@.take(i as int).map_values(|v: Vec<char>| v@),
        decreases hs@.len() - i,
    {
        let s = string_from_chars(hs[i].as_slice());
        let ghost ov = out@.map_values(|s: String| s@);
        out.push(s);
        assert(out@.map_values(|s: String| s@) =~= ov.push(hs@[i as int]@));
        assert(hs@.take(i + 1).map_values(|v: Vec<char>| v@) =~= hs@.take(i as int).map_values(|v: Vec<char>| v@).push(
            hs@[i as int]@,
        ));
        i += 1;
    }
    assert(hs@.take(hs@.len() as int) =~= hs@);
    out
}

/// The lines of `parts` joined with `sep` between them.
pub open spec fn join_spec(parts: Seq<Seq<char>>, sep: Seq<char>) -> Seq<char>
    decreases parts.len(),
{
    if parts.len() == 0 {
        Seq::empty()
    } else if parts.len() == 1 {
        parts[0]
    } else {
        join_spec(parts.drop_last(), sep) + sep + parts.last()
    }
}

/// The update prompt: the offer, then, when the notes have any, the
/// highlights and where to read the rest.
pub open spec fn update_prompt_message_spec(version: Seq<char>, current_version: Seq<char>, release_notes: Seq<char>) -> Seq<char> {
    let question = "KeyEcho "@ + version + " is now available. You have "@ + current_version
        + ".\n\nWould you like to install it now?"@;
    let highlights = release_highlights_spec(release_notes);
    if highlights.len() > 0 {
        question + "\n\nWhat's new:\n"@ + join_spec(highlights, "\n"@) + "\n\nSee all changes at "@ + UPDATES_URL@
    } else {
        question
    }
}

/// The text of the update dialog.
pub fn update_prompt_message(version: &str, current_version: &str, release_notes: &str) -> (r: String)
    ensures
        r@ == update_prompt_message_spec(version@, current_version@, release_notes@),
{
    let mut m = chars_of("KeyEcho ");
    append_chars(&mut m, chars_of(version).as_slice());
    append_chars(&mut m, chars_of(" is now available. You have ").as_slice());
    append_chars(&mut m, chars_of(current_version).as_slice());
    append_chars(&mut m, chars_of(".\n\nWould you like to install it now?").as_slice());
    let hs = highlights_chars(release_notes);
    let ghost hv = hs@.map_values(|v: Vec<char>| v@);
    if hs.len() > 0 {
        append_chars(&mut m, chars_of("\n\nWhat's new:\n").as_slice());
        let sep = chars_of("\n");
        let mut i: usize = 0;
        let ghost base = m@;
        while i < hs.len()
            invariant
                hv == hs@.map_values(|v: Vec<char>| v@),
                sep@ == "\n"@,
                i <= hs@.len(),
                m@ == base + join_spec(hv.take(i as int), "\n"@),
            decreases hs@.len() - i,
        {
            let ghost before = m@;
            if i > 0 {
                append_chars(&mut m, sep.as_slice());
            }
            append_chars(&mut m, hs[i].as_slice());
            proof {
                let t = hv.take(i + 1);
                assert(t.drop_last() =~= hv.take(i as int));
                assert(t.last() == hs@[i as int]@);
                if i == 0 {
                    assert(t.len() == 1);
                    assert(hv.take(0).len() == 0);
                    assert(base + join_spec(hv.take(0), "\n"@) =~= base);
                    assert(m@ =~= base + t[0]);
                } else {
                    assert(m@ =~= base + (join_spec(hv.take(i as int), "\n"@) + "\n"@ + t.last()));
                }
            }
            i += 1;
        }
        assert(hv.take(hs@.len() as int) =~= hv);
        append_chars(&mut m, chars_of("\n\nSee all changes at ").as_slice());
        append_chars(&mut m, chars_of(UPDATES_URL).as_slice());
    }
    string_from_chars(m.as_slice())
}

} // verus!
