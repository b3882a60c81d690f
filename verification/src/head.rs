//! The head of a request: the lines that come before the first blank line.
//!
//! A caller reads the connection line by line and feeds each line to a
//! [`RequestHead`], which says when to stop reading.

use vstd::prelude::*;
use vstd::string::*;

verus! {

/// The lines of a request head collected so far, and whether the blank line
/// that ends the head was seen.
pub struct RequestHead {
    lines: Vec<String>,
    complete: bool,
}

/// The mathematical value of a [`RequestHead`].
pub struct RequestHeadView {
    pub lines: Seq<Seq<char>>,
    pub complete: bool,
}

/// The lines of `lines` that come before its first empty line.
pub open spec fn head_of(lines: Seq<Seq<char>>) -> Seq<Seq<char>>
    decreases lines.len(),
{
    if lines.len() == 0 || lines[0].len() == 0 {
        Seq::empty()
    } else {
        seq![lines[0]] + head_of(lines.drop_first())
    }
}

impl RequestHeadView {
    /// The head before any line was read.
    pub open spec fn start() -> RequestHeadView {
        RequestHeadView { lines: Seq::empty(), complete: false }
    }

    /// The head after one more line was read. An empty line completes the
    /// head and is not kept; a complete head takes no further line.
    pub open spec fn feed(self, line: Seq<char>) -> RequestHeadView {
        if self.complete {
            self
        } else if line.len() == 0 {
            RequestHeadView { complete: true, ..self }
        } else {
            RequestHeadView { lines: self.lines.push(line), ..self }
        }
    }

    /// The head after `lines` were read, one after the other.
    pub open spec fn feed_all(self, lines: Seq<Seq<char>>) -> RequestHeadView
        decreases lines.len(),
    {
        if lines.len() == 0 {
            self
        } else {
            self.feed(lines[0]).feed_all(lines.drop_first())
        }
    }
}

impl View for RequestHead {
    type V = RequestHeadView;

    closed spec fn view(&self) -> RequestHeadView {
        RequestHeadView { lines: self.lines.deep_view(), complete: self.complete }
    }
}

impl RequestHead {
    /// A head without lines.
    pub fn new() -> (head: RequestHead)
        ensures
            head@ == RequestHeadView::start(),
    {
        let head = RequestHead { lines: Vec::new(), complete: false };
        assert(head.lines.deep_view() =~= Seq::empty());
        head
    }

    /// Takes the next line read from the connection, without its line
    /// terminator, and says whether another line should be read.
    pub fn feed(&mut self, line: String) -> (more: bool)
        ensures
            final(self)@ == old(self)@.feed(line@),
            more == !final(self)@.complete,
    {
        if self.complete {
            return false;
        }
        if line.as_str().is_empty() {
            self.complete = true;
            return false;
        }
        self.lines.push(line);
        assert(self.lines.deep_view() =~= old(self).lines.deep_view().push(line@));
        true
    }

    /// Whether the blank line that ends the head was seen.
    pub fn is_complete(&self) -> (complete: bool)
        ensures
            complete == self@.complete,
    {
        self.complete
    }

    /// The lines collected so far.
    pub fn lines(&self) -> (lines: &Vec<String>)
        ensures
            lines.deep_view() == self@.lines,
    {
        &self.lines
    }
}

/// A complete head takes no further lines.
proof fn lemma_complete_head_stays(head: RequestHeadView, lines: Seq<Seq<char>>)
    requires
        head.complete,
    ensures
        head.feed_all(lines) == head,
    decreases lines.len(),
{
    if lines.len() > 0 {
        lemma_complete_head_stays(head, lines.drop_first());
    }
}

/// Feeding lines to a head that is not complete adds the lines that come
/// before the first empty one.
proof fn lemma_feed_all_appends_head(head: RequestHeadView, lines: Seq<Seq<char>>)
    requires
        !head.complete,
    ensures
        head.feed_all(lines).lines == head.lines + head_of(lines),
    decreases lines.len(),
{
    if lines.len() == 0 {
        assert(head.lines + head_of(lines) =~= head.lines);
    } else if lines[0].len() == 0 {
        lemma_complete_head_stays(head.feed(lines[0]), lines.drop_first());
        assert(head.lines + head_of(lines) =~= head.lines);
    } else {
        let next = head.feed(lines[0]);
        lemma_feed_all_appends_head(next, lines.drop_first());
        assert(next.lines + head_of(lines.drop_first()) =~= head.lines + head_of(lines));
    }
}

/// Reading a connection line by line collects the lines that come before
/// its first empty line, whatever follows that line.
pub proof fn law_head_is_lines_before_blank(lines: Seq<Seq<char>>)
    ensures
        RequestHeadView::start().feed_all(lines).lines == head_of(lines),
{
    lemma_feed_all_appends_head(RequestHeadView::start(), lines);
    assert(Seq::<Seq<char>>::empty() + head_of(lines) =~= head_of(lines));
}

} // verus!
