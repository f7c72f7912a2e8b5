//! Byte-level framing of streamed responses: splitting the line-framed
//! (compatible-family) stream into lines across chunk boundaries, and
//! classifying each line.
use vstd::prelude::*;

verus! {

pub const NEWLINE: u8 = 10;

pub const CARRIAGE_RETURN: u8 = 13;

/// The framing marker `data: `.
pub open spec fn data_marker() -> Seq<u8> {
    seq![100u8, 97u8, 116u8, 97u8, 58u8, 32u8]
}

/// The terminal payload `[DONE]`.
pub open spec fn done_marker() -> Seq<u8> {
    seq![91u8, 68u8, 79u8, 78u8, 69u8, 93u8]
}

/// Splits `s` at each newline: the complete lines (newline excluded) and the
/// bytes after the last newline.
pub open spec fn split_lines(s: Seq<u8>) -> (Seq<Seq<u8>>, Seq<u8>)
    decreases s.len(),
{
    if s.len() == 0 {
        (Seq::empty(), Seq::empty())
    } else {
        let (lines, rest) = split_lines(s.drop_last());
        if s.last() == NEWLINE {
            (lines.push(rest), Seq::empty())
        } else {
            (lines, rest.push(s.last()))
        }
    }
}

/// `l` without one trailing carriage return.
pub open spec fn strip_cr(l: Seq<u8>) -> Seq<u8> {
    if l.len() > 0 && l.last() == CARRIAGE_RETURN {
        l.drop_last()
    } else {
        l
    }
}

/// What follows the `data: ` marker of a line, if it carries one.
pub open spec fn line_payload(l: Seq<u8>) -> Option<Seq<u8>> {
    let t = strip_cr(l);
    if t.len() >= 6 && t.subrange(0, 6) == data_marker() {
        Some(t.subrange(6, t.len() as int))
    } else {
        None
    }
}

/// One line of a compatible-family stream.
pub enum LineKind {
    /// A blank line, or one without the `data: ` marker.
    Skip,
    /// `data: [DONE]`: the end of the stream.
    Done,
    /// The text after `data: `, to be parsed as a response object.
    Payload(Vec<u8>),
}

pub open spec fn spec_line_kind(l: Seq<u8>) -> LineKindView {
    match line_payload(l) {
        None => LineKindView::Skip,
        Some(p) => if p == done_marker() {
            LineKindView::Done
        } else {
            LineKindView::Payload(p)
        },
    }
}

/// The mathematical value of a [`LineKind`].
pub enum LineKindView {
    Skip,
    Done,
    Payload(Seq<u8>),
}

impl LineKind {
    pub open spec fn view(&self) -> LineKindView {
        match self {
            LineKind::Skip => LineKindView::Skip,
            LineKind::Done => LineKindView::Done,
            LineKind::Payload(p) => LineKindView::Payload(p@),
        }
    }
}

fn has_prefix_at(l: &[u8], len: usize, pre: &[u8]) -> (r: bool)
    requires
        len <= l@.len(),
    ensures
        r == (len >= pre@.len() && l@.subrange(0, pre@.len() as int) == pre@),
{
    if len < pre.len() {
        return false;
    }
    let mut i: usize = 0;
    while i < pre.len()
        invariant
            i <= pre@.len() <= len <= l@.len(),
            forall|k: int| 0 <= k < i ==> l@[k] == pre@[k],
        decreases pre@.len() - i,
    {
        if l[i] != pre[i] {
            assert(l@.subrange(0, pre@.len() as int)[i as int] != pre@[i as int]);
            return false;
        }
        i = i + 1;
    }
    assert(l@.subrange(0, pre@.len() as int) =~= pre@);
    true
}

fn copy_range(l: &[u8], from: usize, to: usize) -> (r: Vec<u8>)
    requires
        from <= to <= l@.len(),
    ensures
        r@ == l@.subrange(from as int, to as int),
{
    let mut out: Vec<u8> = Vec::new();
    let mut i: usize = from;
    while i < to
        invariant
            from <= i <= to <= l@.len(),
            out@ == l@.subrange(from as int, i as int),
        decreases to - i,
    {
        out.push(l[i]);
        i = i + 1;
        assert(out@ =~= l@.subrange(from as int, i as int));
    }
    out
}

/// Classifies one line (without its newline) of a compatible-family stream.
pub fn classify_line(line: &[u8]) -> (r: LineKind)
    ensures
        r@ == spec_line_kind(line@),
{
    let mut len = line.len();
    if len > 0 && line[len - 1] == CARRIAGE_RETURN {
        len = len - 1;
    }
    assert(strip_cr(line@) =~= line@.subrange(0, len as int));
    let marker: [u8; 6] = [100u8, 97u8, 116u8, 97u8, 58u8, 32u8];
    let done: [u8; 6] = [91u8, 68u8, 79u8, 78u8, 69u8, 93u8];
    assert(marker@ =~= data_marker());
    assert(done@ =~= done_marker());
    if !has_prefix_at(line, len, marker.as_slice()) {
        if len >= 6 {
            assert(line@.subrange(0, len as int).subrange(0, 6) =~= line@.subrange(0, 6));
        }
        return LineKind::Skip;
    }
    assert(line@.subrange(0, len as int).subrange(0, 6) =~= line@.subrange(0, 6));
    let payload = copy_range(line, 6, len);
    assert(payload@ =~= line@.subrange(0, len as int).subrange(6, len as int));
    if payload.len() == 6 && has_prefix_at(payload.as_slice(), 6, done.as_slice()) {
        assert(payload@.subrange(0, 6) =~= payload@);
        LineKind::Done
    } else {
        assert(payload@.len() == 6 ==> payload@.subrange(0, 6) =~= payload@);
        LineKind::Payload(payload)
    }
}

/// Splits a byte stream into lines as it arrives in chunks: a line split
/// across chunks is held back until its newline comes.
pub struct LineFramer {
    pending: Vec<u8>,
}

impl LineFramer {
    /// The bytes received after the last newline.
    pub closed spec fn pending(&self) -> Seq<u8> {
        self.pending@
    }

    pub closed spec fn wf(&self) -> bool {
        !self.pending@.contains(NEWLINE)
    }

    pub fn new() -> (r: LineFramer)
        ensures
            r.wf(),
            r.pending() == Seq::<u8>::empty(),
    {
        LineFramer { pending: Vec::new() }
    }

    /// Takes the next chunk and returns the lines that it completes.
    pub fn push(&mut self, chunk: &[u8]) -> (lines: Vec<Vec<u8>>)
        requires
            old(self).wf(),
        ensures
            final(self).wf(),
            split_lines(old(self).pending() + chunk@) == (
                lines@.map_values(|l: Vec<u8>| l@),
                final(self).pending(),
            ),
    {
        let mut lines: Vec<Vec<u8>> = Vec::new();
        let mut cur: Vec<u8> = Vec::new();
        std::mem::swap(&mut cur, &mut self.pending);
        proof {
            lemma_split_no_newline(cur@);
        }
        let ghost start = cur@;
        let mut i: usize = 0;
        while i < chunk.len()
            invariant
                i <= chunk@.len(),
                !cur@.contains(NEWLINE),
                split_lines(start + chunk@.subrange(0, i as int)) == (
                    lines@.map_values(|l: Vec<u8>| l@),
                    cur@,
                ),
            decreases chunk@.len() - i,
        {
            let b = chunk[i];
            let ghost prev = start + chunk@.subrange(0, i as int);
            assert((start + chunk@.subrange(0, i + 1)).drop_last() =~= prev);
            assert((start + chunk@.subrange(0, i + 1)).last() == b);
            if b == NEWLINE {
                let mut done_line: Vec<u8> = Vec::new();
                std::mem::swap(&mut done_line, &mut cur);
                let ghost old_lines = lines@;
                lines.push(done_line);
                assert(lines@.map_values(|l: Vec<u8>| l@) =~= old_lines.map_values(
                    |l: Vec<u8>| l@,
                ).push(done_line@));
            } else {
                cur.push(b);
                assert forall|k: int| 0 <= k < cur@.len() implies cur@[k] != NEWLINE by {
                    if k < cur@.len() - 1 {
                        assert(cur@[k] == cur@.drop_last()[k]);
                        assert(!cur@.drop_last().contains(NEWLINE));
                    }
                }
            }
            i = i + 1;
        }
        assert(chunk@.subrange(0, chunk@.len() as int) =~= chunk@);
        self.pending = cur;
        lines
    }

    /// Ends the stream: returns the unterminated last line, if any.
    pub fn finish(&mut self) -> (r: Option<Vec<u8>>)
        ensures
            final(self).wf(),
            final(self).pending() == Seq::<u8>::empty(),
            old(self).pending().len() == 0 ==> r is None,
            old(self).pending().len() > 0 ==> (r matches Some(l) && l@ == old(self).pending()),
    {
        let mut rest: Vec<u8> = Vec::new();
        std::mem::swap(&mut rest, &mut self.pending);
        if rest.len() == 0 {
            None
        } else {
            Some(rest)
        }
    }
}

/// Bytes without a newline form no complete line.
pub proof fn lemma_split_no_newline(s: Seq<u8>)
    requires
        !s.contains(NEWLINE),
    ensures
        split_lines(s) == (Seq::<Seq<u8>>::empty(), s),
    decreases s.len(),
{
    if s.len() > 0 {
        assert(!s.drop_last().contains(NEWLINE)) by {
            if s.drop_last().contains(NEWLINE) {
                let k = choose|k: int| 0 <= k < s.drop_last().len() && s.drop_last()[k] == NEWLINE;
                assert(s[k] == NEWLINE);
            }
        }
        lemma_split_no_newline(s.drop_last());
        assert(s.last() != NEWLINE) by {
            if s.last() == NEWLINE {
                assert(s[s.len() - 1] == NEWLINE);
            }
        }
        assert(s.drop_last().push(s.last()) =~= s);
    }
}

proof fn lemma_split_rest_no_newline(s: Seq<u8>)
    ensures
        !split_lines(s).1.contains(NEWLINE),
    decreases s.len(),
{
    if s.len() > 0 {
        lemma_split_rest_no_newline(s.drop_last());
        let r = split_lines(s.drop_last()).1;
        if s.last() != NEWLINE {
            assert forall|k: int| 0 <= k < r.push(s.last()).len() implies r.push(s.last())[k]
                != NEWLINE by {
                if k < r.len() {
                    assert(r.push(s.last())[k] == r[k]);
                }
            }
        }
    }
}

/// Framing keeps no state but the unterminated tail: splitting `a + b`
/// gives the lines of `a`, then the lines of `a`'s tail followed by `b`.
/// So however a byte sequence is cut into chunks, a fresh framer yields the
/// same lines.
pub proof fn lemma_split_lines_concat(a: Seq<u8>, b: Seq<u8>)
    ensures
        split_lines(a + b) == (
            split_lines(a).0 + split_lines(split_lines(a).1 + b).0,
            split_lines(split_lines(a).1 + b).1,
        ),
    decreases b.len(),
{
    let r = split_lines(a).1;
    if b.len() == 0 {
        assert(a + b =~= a);
        assert(r + b =~= r);
        lemma_split_rest_no_newline(a);
        lemma_split_no_newline(r);
        assert(split_lines(a).0 + Seq::<Seq<u8>>::empty() =~= split_lines(a).0);
    } else {
        lemma_split_lines_concat(a, b.drop_last());
        assert((a + b).drop_last() =~= a + b.drop_last());
        assert((r + b).drop_last() =~= r + b.drop_last());
        assert((a + b).last() == b.last());
        assert((r + b).last() == b.last());
        let (l1, r1) = split_lines(r + b.drop_last());
        if b.last() == NEWLINE {
            assert((split_lines(a).0 + l1).push(r1) =~= split_lines(a).0 + l1.push(r1));
        }
    }
}

} // verus!
