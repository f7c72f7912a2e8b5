//! Turning decoded stream frames of either backend family into one uniform
//! sequence of incremental text deltas, and the rules of the producing side.
use vstd::prelude::*;

use crate::error::ClientError;
use crate::text::chars_of;
use crate::wire::{text_of, ChatResponse, NativeChunk};

verus! {

/// What one frame contributes: an optional text delta, and whether it ends
/// the stream.
#[derive(Debug, Clone)]
pub struct Signal {
    pub delta: Option<String>,
    pub terminal: bool,
}

impl Signal {
    pub open spec fn view(&self) -> (Option<Seq<char>>, bool) {
        (text_of(self.delta), self.terminal)
    }
}

/// One frame of a compatible-family stream, once its line was classified
/// and its payload, if any, parsed.
#[derive(Debug, Clone)]
pub enum CompatibleFrame {
    /// A blank line or one without the `data: ` marker.
    Skip,
    /// `data: [DONE]`.
    Done,
    /// A payload that did not parse; it is skipped and the stream goes on.
    Malformed,
    /// A parsed payload.
    Response(ChatResponse),
}

pub open spec fn compatible_frame_signal(f: CompatibleFrame) -> (Option<Seq<char>>, bool) {
    match f {
        CompatibleFrame::Done => (None, true),
        CompatibleFrame::Response(r) => if r.choices@.len() == 0 {
            (None, false)
        } else {
            (text_of(r.choices@[0].delta.content), r.choices@[0].finish_reason is Some)
        },
        _ => (None, false),
    }
}

/// The signal of a compatible-family frame: `choices[0].delta.content` as
/// the delta, and the end of the stream on `[DONE]` or on a present
/// `choices[0].finish_reason`.
pub fn compatible_signal(frame: &CompatibleFrame) -> (r: Signal)
    ensures
        r@ == compatible_frame_signal(*frame),
{
    match frame {
        CompatibleFrame::Done => Signal { delta: None, terminal: true },
        CompatibleFrame::Response(resp) => {
            if resp.choices.len() == 0 {
                Signal { delta: None, terminal: false }
            } else {
                let choice = &resp.choices[0];
                let delta = match &choice.delta.content {
                    Some(s) => Some(s.clone()),
                    None => None,
                };
                Signal { delta, terminal: choice.finish_reason.is_some() }
            }
        },
        _ => Signal { delta: None, terminal: false },
    }
}

/// Unicode `White_Space`, as `char::is_whitespace` tests it.
pub open spec fn is_whitespace(c: char) -> bool {
    let u = c as u32;
    (9 <= u <= 13) || u == 32 || u == 0x85 || u == 0xa0 || u == 0x1680 || (0x2000 <= u <= 0x200a)
        || u == 0x2028 || u == 0x2029 || u == 0x202f || u == 0x205f || u == 0x3000
}

pub open spec fn all_whitespace(s: Seq<char>) -> bool {
    forall|i: int| 0 <= i < s.len() ==> is_whitespace(#[trigger] s[i])
}

pub open spec fn think_open() -> Seq<char> {
    seq!['<', 't', 'h', 'i', 'n', 'k', '>']
}

pub open spec fn think_close() -> Seq<char> {
    seq!['<', '/', 't', 'h', 'i', 'n', 'k', '>']
}

/// The delta that native-family content `t` yields: none for a standalone
/// thinking tag, a single newline for whitespace holding a newline, else
/// `t` itself.
pub open spec fn native_delta(t: Seq<char>) -> Option<Seq<char>> {
    if t == think_open() || t == think_close() {
        None
    } else if all_whitespace(t) && t.contains('\n') {
        Some(seq!['\n'])
    } else {
        Some(t)
    }
}

pub open spec fn native_frame_signal(c: NativeChunk) -> (Option<Seq<char>>, bool) {
    match c.content {
        Some(t) => (native_delta(t@), c.done),
        None => (None, c.done),
    }
}

fn is_whitespace_char(c: char) -> (r: bool)
    ensures
        r == is_whitespace(c),
{
    let u = c as u32;
    (9 <= u && u <= 13) || u == 32 || u == 0x85 || u == 0xa0 || u == 0x1680 || (0x2000 <= u && u
        <= 0x200a) || u == 0x2028 || u == 0x2029 || u == 0x202f || u == 0x205f || u == 0x3000
}

/// Whether `s` is all whitespace and holds a newline.
fn blank_with_newline(s: &str) -> (r: bool)
    ensures
        r == (all_whitespace(s@) && s@.contains('\n')),
{
    let cs = chars_of(s);
    let mut newline = false;
    let mut i: usize = 0;
    while i < cs.len()
        invariant
            cs@ == s@,
            i <= cs@.len(),
            all_whitespace(cs@.subrange(0, i as int)),
            newline == cs@.subrange(0, i as int).contains('\n'),
        decreases cs@.len() - i,
    {
        if !is_whitespace_char(cs[i]) {
            assert(!is_whitespace(s@[i as int]));
            return false;
        }
        if cs[i] == '\n' {
            newline = true;
        }
        let ghost before = cs@.subrange(0, i as int);
        i = i + 1;
        assert(cs@.subrange(0, i as int) =~= before.push(cs@[i - 1]));
        assert(newline == cs@.subrange(0, i as int).contains('\n')) by {
            if cs@.subrange(0, i as int).contains('\n') && !before.contains('\n') {
                let k = choose|k: int|
                    0 <= k < cs@.subrange(0, i as int).len() && cs@.subrange(0, i as int)[k]
                        == '\n';
                if k < i - 1 {
                    assert(before[k] == '\n');
                }
            }
            if before.contains('\n') {
                let k = choose|k: int| 0 <= k < before.len() && before[k] == '\n';
                assert(cs@.subrange(0, i as int)[k] == '\n');
            }
            if cs@[i - 1] == '\n' {
                assert(cs@.subrange(0, i as int)[i - 1] == '\n');
            }
        }
    }
    assert(cs@.subrange(0, cs@.len() as int) =~= s@);
    newline
}

/// The signal of a native-family frame: its content filtered as
/// [`native_delta`] says, and the end of the stream when `done` holds.
pub fn native_signal(chunk: &NativeChunk) -> (r: Signal)
    ensures
        r@ == native_frame_signal(*chunk),
{
    match &chunk.content {
        None => Signal { delta: None, terminal: chunk.done },
        Some(t) => {
            let open = String::from_str("<think>");
            let close = String::from_str("</think>");
            proof {
                reveal_strlit("<think>");
                reveal_strlit("</think>");
                assert(open@ =~= think_open());
                assert(close@ =~= think_close());
            }
            if *t == open || *t == close {
                Signal { delta: None, terminal: chunk.done }
            } else if blank_with_newline(t.as_str()) {
                let nl = String::from_str("\n");
                proof {
                    reveal_strlit("\n");
                    assert(nl@ =~= seq!['\n']);
                }
                Signal { delta: Some(nl), terminal: chunk.done }
            } else {
                Signal { delta: Some(t.clone()), terminal: chunk.done }
            }
        },
    }
}

/// The deltas of a stream of signals: each signal's delta in order, up to
/// and including the first terminal signal.
pub open spec fn emitted(sigs: Seq<(Option<Seq<char>>, bool)>) -> Seq<Seq<char>>
    decreases sigs.len(),
{
    if sigs.len() == 0 {
        Seq::empty()
    } else {
        let head = match sigs[0].0 {
            Some(d) => seq![d],
            None => Seq::empty(),
        };
        if sigs[0].1 {
            head
        } else {
            head + emitted(sigs.drop_first())
        }
    }
}

/// Whether a stream of signals holds a terminal one.
pub open spec fn terminates(sigs: Seq<(Option<Seq<char>>, bool)>) -> bool {
    exists|i: int| 0 <= i < sigs.len() && (#[trigger] sigs[i]).1
}

pub open spec fn compatible_signals(frames: Seq<CompatibleFrame>) -> Seq<(Option<Seq<char>>, bool)> {
    frames.map_values(|f: CompatibleFrame| compatible_frame_signal(f))
}

pub open spec fn native_signals(chunks: Seq<NativeChunk>) -> Seq<(Option<Seq<char>>, bool)> {
    chunks.map_values(|c: NativeChunk| native_frame_signal(c))
}

/// The deltas of a whole stream, and whether it ended with a terminal
/// signal.
#[derive(Debug, Clone)]
pub struct Decoded {
    pub deltas: Vec<String>,
    pub terminated: bool,
}

impl Decoded {
    pub open spec fn texts(&self) -> Seq<Seq<char>> {
        self.deltas@.map_values(|s: String| s@)
    }
}

proof fn lemma_step(sigs: Seq<(Option<Seq<char>>, bool)>, i: int)
    requires
        0 <= i < sigs.len(),
    ensures
        sigs.subrange(i, sigs.len() as int)[0] == sigs[i],
        sigs.subrange(i, sigs.len() as int).drop_first() == sigs.subrange(i + 1, sigs.len() as int),
        terminates(sigs.subrange(i, sigs.len() as int)) == (sigs[i].1 || terminates(
            sigs.subrange(i + 1, sigs.len() as int),
        )),
{
    let s = sigs.subrange(i, sigs.len() as int);
    let t = sigs.subrange(i + 1, sigs.len() as int);
    assert(s.drop_first() =~= t);
    if terminates(s) {
        let k = choose|k: int| 0 <= k < s.len() && (#[trigger] s[k]).1;
        if k > 0 {
            assert(t[k - 1] == s[k]);
        }
    }
    if terminates(t) {
        let k = choose|k: int| 0 <= k < t.len() && (#[trigger] t[k]).1;
        assert(s[k + 1] == t[k]);
    }
    if sigs[i].1 {
        assert(s[0].1);
    }
}

/// Collects the deltas of a stream of signals, stopping at the first
/// terminal one.
pub fn collect_deltas(sigs: &Vec<Signal>) -> (r: Decoded)
    ensures
        r.texts() == emitted(sigs@.map_values(|s: Signal| s@)),
        r.terminated == terminates(sigs@.map_values(|s: Signal| s@)),
{
    let ghost all = sigs@.map_values(|s: Signal| s@);
    let mut out: Vec<String> = Vec::new();
    let mut terminated = false;
    let mut i: usize = 0;
    assert(all.subrange(0, all.len() as int) =~= all);
    while i < sigs.len()
        invariant_except_break
            all == sigs@.map_values(|s: Signal| s@),
            i <= sigs@.len(),
            !terminated,
            emitted(all) == out@.map_values(|s: String| s@) + emitted(
                all.subrange(i as int, all.len() as int),
            ),
            terminates(all) == terminates(all.subrange(i as int, all.len() as int)),
        ensures
            emitted(all) == out@.map_values(|s: String| s@),
            terminated == terminates(all),
        decreases sigs@.len() - i,
    {
        proof {
            lemma_step(all, i as int);
        }
        let ghost before = out@.map_values(|s: String| s@);
        let sig = &sigs[i];
        match &sig.delta {
            Some(d) => {
                out.push(d.clone());
                assert(out@.map_values(|s: String| s@) =~= before.push(d@));
            },
            None => {},
        }
        i = i + 1;
        if sig.terminal {
            terminated = true;
            assert(out@.map_values(|s: String| s@) =~= before + emitted(
                all.subrange(i - 1, all.len() as int),
            ));
            break ;
        }
        assert(before + emitted(all.subrange(i - 1, all.len() as int)) =~= out@.map_values(
            |s: String| s@,
        ) + emitted(all.subrange(i as int, all.len() as int)));
        if i == sigs.len() {
            assert(out@.map_values(|s: String| s@) + emitted(
                all.subrange(i as int, all.len() as int),
            ) =~= out@.map_values(|s: String| s@));
            assert(!terminates(all.subrange(i as int, all.len() as int)));
        }
    }
    Decoded { deltas: out, terminated }
}

/// Decodes a whole compatible-family stream.
pub fn decode_compatible(frames: &Vec<CompatibleFrame>) -> (r: Decoded)
    ensures
        r.texts() == emitted(compatible_signals(frames@)),
        r.terminated == terminates(compatible_signals(frames@)),
{
    let mut sigs: Vec<Signal> = Vec::new();
    let mut i: usize = 0;
    while i < frames.len()
        invariant
            i <= frames@.len(),
            sigs@.len() == i,
            forall|k: int| 0 <= k < i ==> #[trigger] sigs@[k]@ == compatible_frame_signal(frames@[k]),
        decreases frames@.len() - i,
    {
        sigs.push(compatible_signal(&frames[i]));
        i = i + 1;
    }
    assert(sigs@.map_values(|s: Signal| s@) =~= compatible_signals(frames@));
    collect_deltas(&sigs)
}

/// Decodes a whole native-family stream.
pub fn decode_native(chunks: &Vec<NativeChunk>) -> (r: Decoded)
    ensures
        r.texts() == emitted(native_signals(chunks@)),
        r.terminated == terminates(native_signals(chunks@)),
{
    let mut sigs: Vec<Signal> = Vec::new();
    let mut i: usize = 0;
    while i < chunks.len()
        invariant
            i <= chunks@.len(),
            sigs@.len() == i,
            forall|k: int| 0 <= k < i ==> #[trigger] sigs@[k]@ == native_frame_signal(chunks@[k]),
        decreases chunks@.len() - i,
    {
        sigs.push(native_signal(&chunks[i]));
        i = i + 1;
    }
    assert(sigs@.map_values(|s: Signal| s@) =~= native_signals(chunks@));
    collect_deltas(&sigs)
}

/// `choices[0].delta.content` of a frame, when it has one.
pub open spec fn first_content(f: CompatibleFrame) -> Option<Seq<char>> {
    match f {
        CompatibleFrame::Response(r) => if r.choices@.len() > 0 {
            text_of(r.choices@[0].delta.content)
        } else {
            None
        },
        _ => None,
    }
}

/// Every `choices[0].delta.content` value of a stream, in arrival order.
pub open spec fn content_values(frames: Seq<CompatibleFrame>) -> Seq<Seq<char>>
    decreases frames.len(),
{
    if frames.len() == 0 {
        Seq::empty()
    } else {
        let head = match first_content(frames[0]) {
            Some(c) => seq![c],
            None => Seq::empty(),
        };
        head + content_values(frames.drop_first())
    }
}

/// The concatenation of text fragments.
pub open spec fn concat(parts: Seq<Seq<char>>) -> Seq<char>
    decreases parts.len(),
{
    if parts.len() == 0 {
        Seq::empty()
    } else {
        parts[0] + concat(parts.drop_first())
    }
}

pub open spec fn is_terminal_frame(f: CompatibleFrame) -> bool {
    compatible_frame_signal(f).1
}

/// How many frames of a stream carry a terminal signal.
pub open spec fn terminal_count(frames: Seq<CompatibleFrame>) -> nat
    decreases frames.len(),
{
    if frames.len() == 0 {
        0
    } else {
        (if is_terminal_frame(frames[0]) {
            1nat
        } else {
            0nat
        }) + terminal_count(frames.drop_first())
    }
}

/// A well-formed compatible-family stream ends with its one terminal frame
/// (`[DONE]` or a present `finish_reason`).
pub open spec fn well_formed_compatible(frames: Seq<CompatibleFrame>) -> bool {
    &&& frames.len() > 0
    &&& is_terminal_frame(frames.last())
    &&& forall|i: int| 0 <= i < frames.len() - 1 ==> !is_terminal_frame(#[trigger] frames[i])
}

/// In a well-formed compatible-family stream the emitted deltas are exactly
/// the `choices[0].delta.content` values in arrival order (so their
/// concatenations agree), and exactly one terminal signal is produced.
pub proof fn lemma_compatible_stream(frames: Seq<CompatibleFrame>)
    requires
        well_formed_compatible(frames),
    ensures
        emitted(compatible_signals(frames)) == content_values(frames),
        concat(emitted(compatible_signals(frames))) == concat(content_values(frames)),
        terminates(compatible_signals(frames)),
        terminal_count(frames) == 1,
    decreases frames.len(),
{
    let sigs = compatible_signals(frames);
    let rest = frames.drop_first();
    assert(sigs.drop_first() =~= compatible_signals(rest));
    assert(sigs[0] == compatible_frame_signal(frames[0]));
    assert(first_content(frames[0]) == compatible_frame_signal(frames[0]).0);
    if frames.len() == 1 {
        assert(frames.last() == frames[0]);
        assert(sigs[0].1);
        assert(rest.len() == 0);
        assert(terminal_count(rest) == 0);
        assert(content_values(rest) =~= Seq::<Seq<char>>::empty());
        let head = match first_content(frames[0]) {
            Some(c) => seq![c],
            None => Seq::<Seq<char>>::empty(),
        };
        assert(content_values(frames) =~= head);
    } else {
        assert(!is_terminal_frame(frames[0]));
        assert(well_formed_compatible(rest)) by {
            assert(rest.last() == frames.last());
            assert forall|i: int| 0 <= i < rest.len() - 1 implies !is_terminal_frame(
                #[trigger] rest[i],
            ) by {
                assert(rest[i] == frames[i + 1]);
            }
        }
        lemma_compatible_stream(rest);
        let k = choose|k: int| 0 <= k < compatible_signals(rest).len() && (#[trigger] compatible_signals(rest)[k]).1;
        assert(sigs[k + 1] == compatible_signals(rest)[k]);
    }
}

/// A delta that the native family may forward: never a standalone
/// thinking tag, and a single newline whenever it is whitespace holding a
/// newline.
pub open spec fn clean_delta(d: Seq<char>) -> bool {
    &&& d != think_open()
    &&& d != think_close()
    &&& (all_whitespace(d) && d.contains('\n') ==> d == seq!['\n'])
}

proof fn lemma_native_delta_clean(t: Seq<char>)
    ensures
        native_delta(t) matches Some(d) ==> clean_delta(d),
{
    if native_delta(t) == Some(seq!['\n']) {
        assert(seq!['\n'].len() != think_open().len());
        assert(seq!['\n'].len() != think_close().len());
    }
}

/// No native-family stream emits a standalone thinking tag, and every
/// emitted whitespace delta that holds a newline is a single newline.
pub proof fn lemma_native_stream(chunks: Seq<NativeChunk>)
    ensures
        forall|k: int|
            0 <= k < emitted(native_signals(chunks)).len() ==> clean_delta(
                #[trigger] emitted(native_signals(chunks))[k],
            ),
    decreases chunks.len(),
{
    let sigs = native_signals(chunks);
    if chunks.len() > 0 {
        let rest = chunks.drop_first();
        assert(sigs.drop_first() =~= native_signals(rest));
        lemma_native_stream(rest);
        assert(sigs[0] == native_frame_signal(chunks[0]));
        match chunks[0].content {
            Some(t) => lemma_native_delta_clean(t@),
            None => {},
        }
        let head = match sigs[0].0 {
            Some(d) => seq![d],
            None => Seq::<Seq<char>>::empty(),
        };
        assert forall|k: int| 0 <= k < emitted(sigs).len() implies clean_delta(
            #[trigger] emitted(sigs)[k],
        ) by {
            if k >= head.len() {
                assert(emitted(sigs)[k] == emitted(native_signals(rest))[k - head.len()]);
            }
        }
    }
}

} // verus!
