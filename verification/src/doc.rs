//! A small text-layout layer: documents are built from literal text,
//! hard line breaks, indentation and sequencing, and rendered to a
//! string.  Every break in a document is a hard break, so the layout of
//! a document is a pure function of the document alone; `layout` is
//! that function and `render` is proved against it.

use vstd::prelude::*;
use vstd::string::StringExecFns;

verus! {

/// A document fragment.
pub enum Doc {
    /// Nothing.
    Nil,
    /// Literal text, emitted as is.
    Text(String),
    /// A hard line break followed by the current indentation.
    Line,
    /// The inner document with the indentation deepened by the given
    /// number of columns.
    Nest(u32, Box<Doc>),
    /// Two documents in sequence.
    Cat(Box<Doc>, Box<Doc>),
}

/// The model of a document fragment.
pub enum DocView {
    Nil,
    Text(Seq<char>),
    Line,
    Nest(nat, Box<DocView>),
    Cat(Box<DocView>, Box<DocView>),
}

impl View for Doc {
    type V = DocView;

    open spec fn view(&self) -> DocView
        decreases self,
    {
        match self {
            Doc::Nil => DocView::Nil,
            Doc::Text(s) => DocView::Text(s@),
            Doc::Line => DocView::Line,
            Doc::Nest(j, d) => DocView::Nest(*j as nat, Box::new((**d)@)),
            Doc::Cat(a, b) => DocView::Cat(Box::new((**a)@), Box::new((**b)@)),
        }
    }
}

pub open spec fn vnil() -> DocView {
    DocView::Nil
}

pub open spec fn vtext(s: Seq<char>) -> DocView {
    DocView::Text(s)
}

pub open spec fn vline() -> DocView {
    DocView::Line
}

pub open spec fn vnest(j: nat, d: DocView) -> DocView {
    DocView::Nest(j, Box::new(d))
}

pub open spec fn vcat(a: DocView, b: DocView) -> DocView {
    DocView::Cat(Box::new(a), Box::new(b))
}

/// `n` spaces (none when `n` is not positive).
pub open spec fn spaces(n: int) -> Seq<char>
    decreases n,
{
    if n <= 0 {
        Seq::empty()
    } else {
        spaces(n - 1).push(' ')
    }
}

/// Indentation depths saturate at `usize::MAX` instead of growing
/// without bound.
pub open spec fn cap_ind(n: int) -> int {
    if n > usize::MAX {
        usize::MAX as int
    } else {
        n
    }
}

/// The text of a document at indentation depth `ind`: text stands as
/// is, a line break opens a fresh line indented by `ind` spaces,
/// nesting deepens the indentation of the lines inside it, and
/// sequencing concatenates.
pub open spec fn layout(d: DocView, ind: int) -> Seq<char>
    decreases d,
{
    match d {
        DocView::Nil => Seq::empty(),
        DocView::Text(s) => s,
        DocView::Line => seq!['\n'] + spaces(ind),
        DocView::Nest(j, b) => layout(*b, cap_ind(ind + j)),
        DocView::Cat(a, b) => layout(*a, ind) + layout(*b, ind),
    }
}

/// The empty document.
pub fn nil() -> (d: Doc)
    ensures
        d@ == vnil(),
{
    Doc::Nil
}

/// A document holding the given text.
pub fn text(s: &str) -> (d: Doc)
    ensures
        d@ == vtext(s@),
{
    Doc::Text(s.to_owned())
}

/// A document holding the given text, taking ownership of it.
pub fn text_string(s: String) -> (d: Doc)
    ensures
        d@ == vtext(s@),
{
    Doc::Text(s)
}

/// A hard line break.
pub fn line() -> (d: Doc)
    ensures
        d@ == vline(),
{
    Doc::Line
}

/// Deepen the indentation of the lines inside `d` by `j` columns.
pub fn nest(j: u32, d: Doc) -> (r: Doc)
    ensures
        r@ == vnest(j as nat, d@),
{
    Doc::Nest(j, Box::new(d))
}

/// Two documents in sequence.
pub fn cat(a: Doc, b: Doc) -> (r: Doc)
    ensures
        r@ == vcat(a@, b@),
{
    Doc::Cat(Box::new(a), Box::new(b))
}

impl Doc {
    /// `self` followed by `other`.
    pub fn append(self, other: Doc) -> (r: Doc)
        ensures
            r@ == vcat(self@, other@),
    {
        Doc::Cat(Box::new(self), Box::new(other))
    }
}

/// Relies on `String::push`: it appends exactly the one character.
#[verifier::external_body]
pub(crate) fn push_char(s: &mut String, c: char)
    ensures
        final(s)@ == old(s)@.push(c),
{
    s.push(c);
}

/// The character of a decimal digit.
pub open spec fn dec_digit(d: int) -> char {
    if d == 0 {
        '0'
    } else if d == 1 {
        '1'
    } else if d == 2 {
        '2'
    } else if d == 3 {
        '3'
    } else if d == 4 {
        '4'
    } else if d == 5 {
        '5'
    } else if d == 6 {
        '6'
    } else if d == 7 {
        '7'
    } else if d == 8 {
        '8'
    } else {
        '9'
    }
}

/// The decimal notation of `n`, most significant digit first.
pub open spec fn dec_of(n: int) -> Seq<char>
    decreases n,
{
    if n < 10 {
        seq![dec_digit(n)]
    } else {
        dec_of(n / 10).push(dec_digit(n % 10))
    }
}

fn digit_char(d: u32) -> (c: char)
    requires
        d < 10,
    ensures
        c == dec_digit(d as int),
{
    if d == 0 {
        '0'
    } else if d == 1 {
        '1'
    } else if d == 2 {
        '2'
    } else if d == 3 {
        '3'
    } else if d == 4 {
        '4'
    } else if d == 5 {
        '5'
    } else if d == 6 {
        '6'
    } else if d == 7 {
        '7'
    } else if d == 8 {
        '8'
    } else {
        '9'
    }
}

/// The decimal notation of `n`.
pub fn u32_dec(n: u32) -> (s: String)
    ensures
        s@ == dec_of(n as int),
    decreases n,
{
    if n < 10 {
        let mut s = String::new();
        push_char(&mut s, digit_char(n));
        proof {
            assert(s@ =~= dec_of(n as int));
        }
        s
    } else {
        let mut s = u32_dec(n / 10);
        push_char(&mut s, digit_char(n % 10));
        s
    }
}

/// A document holding the decimal notation of `n`.
pub fn text_u32(n: u32) -> (d: Doc)
    ensures
        d@ == vtext(dec_of(n as int)),
{
    Doc::Text(u32_dec(n))
}

fn append_spaces(out: &mut String, n: usize)
    ensures
        final(out)@ == old(out)@ + spaces(n as int),
{
    let mut i: usize = 0;
    proof {
        assert(out@ =~= old(out)@ + spaces(0));
    }
    while i < n
        invariant
            i <= n,
            out@ == old(out)@ + spaces(i as int),
        decreases n - i,
    {
        push_char(out, ' ');
        i = i + 1;
        proof {
            assert(out@ =~= old(out)@ + spaces(i as int));
        }
    }
}

fn render_at(d: &Doc, ind: usize, out: &mut String)
    ensures
        final(out)@ == old(out)@ + layout(d@, ind as int),
    decreases *d,
{
    match d {
        Doc::Nil => {
            proof {
                assert(out@ =~= old(out)@ + layout(d@, ind as int));
            }
        },
        Doc::Text(s) => {
            out.append(s.as_str());
        },
        Doc::Line => {
            push_char(out, '\n');
            append_spaces(out, ind);
            proof {
                assert(out@ =~= old(out)@ + layout(d@, ind as int));
            }
        },
        Doc::Nest(j, b) => {
            let js: usize = *j as usize;
            let ind2: usize = if ind <= usize::MAX - js {
                ind + js
            } else {
                usize::MAX
            };
            render_at(b, ind2, out);
        },
        Doc::Cat(a, b) => {
            render_at(a, ind, out);
            render_at(b, ind, out);
            proof {
                assert(out@ =~= old(out)@ + layout(d@, ind as int));
            }
        },
    }
}

/// Render a document to text, starting at indentation depth zero.
pub fn render(d: &Doc) -> (r: String)
    ensures
        r@ == layout(d@, 0),
{
    let mut out = String::new();
    render_at(d, 0, &mut out);
    proof {
        assert(out@ =~= layout(d@, 0));
    }
    out
}

} // verus!

