//! One line of document text together with its display-rendered form,
//! where tabs are expanded to a fixed run of spaces. The rendered form is
//! what horizontal slicing works on.

use vstd::prelude::*;

use crate::text::push_char;
use crate::text::spaces;

verus! {

/// Number of spaces each tab character expands to in the rendered form.
pub const TAB_STOP: usize = 4;

/// The rendered form of one character: a tab becomes a fixed run of
/// spaces, every other character stands for itself.
pub open spec fn expand_char(c: char) -> Seq<char> {
    if c == '\t' {
        spaces(TAB_STOP as nat)
    } else {
        seq![c]
    }
}

/// The rendered form of a whole line: each character expanded in order.
pub open spec fn expand_tabs(s: Seq<char>) -> Seq<char>
    decreases s.len(),
{
    if s.len() == 0 {
        Seq::empty()
    } else {
        expand_tabs(s.drop_last()) + expand_char(s.last())
    }
}

/// The half-open character range `[start, end)` of `s`, clamped to `s`:
/// an `end` past the line is cut back, and a `start` at or past the
/// (clamped) end gives the empty sequence.
pub open spec fn clip_chars(s: Seq<char>, start: int, end: int) -> Seq<char>
    recommends
        0 <= start,
        0 <= end,
{
    let e = if end <= s.len() { end } else { s.len() as int };
    let st = if start <= e { start } else { e };
    s.subrange(st, e)
}

/// One line of text plus its rendering cache.
pub struct Row {
    raw: String,
    rendered: String,
}

impl Row {
    /// The line's text content, as loaded, without a trailing newline.
    pub closed spec fn text(&self) -> Seq<char> {
        self.raw@
    }

    /// The display form of the line, with tabs expanded.
    pub closed spec fn rendered_text(&self) -> Seq<char> {
        self.rendered@
    }

    /// The rendering cache is in sync with the content.
    pub open spec fn wf(&self) -> bool {
        self.rendered_text() == expand_tabs(self.text())
    }

    /// Builds a row from one line of text, expanding tabs for display.
    pub fn new(raw: String) -> (r: Row)
        ensures
            r.text() == raw@,
            r.wf(),
    {
        let rendered = render_line(raw.as_str());
        Row { raw, rendered }
    }

    /// The row's logical width: the character count of its content.
    pub fn len(&self) -> (n: usize)
        ensures
            n == self.text().len(),
    {
        self.raw.as_str().unicode_len()
    }

    /// The character count of the rendered form.
    pub fn rendered_len(&self) -> (n: usize)
        ensures
            n == self.rendered_text().len(),
    {
        self.rendered.as_str().unicode_len()
    }

    /// The substring of the rendered form clipped to the half-open
    /// character range `[start, end)`, clamped to the row's actual
    /// length: the horizontal-scrolling primitive.
    pub fn render(&self, start: usize, end: usize) -> (s: String)
        ensures
            s@ == clip_chars(self.rendered_text(), start as int, end as int),
    {
        let rlen = self.rendered.as_str().unicode_len();
        let e = if end <= rlen {
            end
        } else {
            rlen
        };
        let st = if start <= e {
            start
        } else {
            e
        };
        String::from_str(self.rendered.as_str().substring_char(st, e))
    }
}

/// The full rendered line reproduces the whole display form.
pub proof fn lemma_clip_full(s: Seq<char>)
    ensures
        clip_chars(s, 0, s.len() as int) == s,
{
    assert(clip_chars(s, 0, s.len() as int) =~= s);
}

/// An empty range yields the empty string, wherever it starts.
pub proof fn lemma_clip_empty(s: Seq<char>, k: int)
    requires
        0 <= k,
    ensures
        clip_chars(s, k, k) == Seq::<char>::empty(),
{
    assert(clip_chars(s, k, k) =~= Seq::<char>::empty());
}

fn render_line(s: &str) -> (out: String)
    ensures
        out@ == expand_tabs(s@),
{
    let len = s.unicode_len();
    let mut out = String::new();
    let mut i: usize = 0;
    while i < len
        invariant
            i <= len,
            len == s@.len(),
            out@ == expand_tabs(s@.subrange(0, i as int)),
        decreases len - i,
    {
        let c = s.get_char(i);
        if c == '\t' {
            proof {
                assert(out@ =~= expand_tabs(s@.subrange(0, i as int)) + spaces(0));
            }
            let mut k: usize = 0;
            while k < TAB_STOP
                invariant
                    k <= TAB_STOP,
                    i < len,
                    len == s@.len(),
                    out@ == expand_tabs(s@.subrange(0, i as int)) + spaces(k as nat),
                decreases TAB_STOP - k,
            {
                push_char(&mut out, ' ');
                proof {
                    assert(out@ =~= expand_tabs(s@.subrange(0, i as int)) + spaces(
                        (k + 1) as nat,
                    ));
                }
                k = k + 1;
            }
        } else {
            push_char(&mut out, c);
            proof {
                assert(out@ =~= expand_tabs(s@.subrange(0, i as int)) + expand_char(c));
            }
        }
        proof {
            assert(s@.subrange(0, i + 1).drop_last() =~= s@.subrange(0, i as int));
            assert(s@.subrange(0, i + 1).last() == s@[i as int]);
        }
        i = i + 1;
    }
    proof {
        assert(s@.subrange(0, len as int) =~= s@);
    }
    out
}

} // verus!
