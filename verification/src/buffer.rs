//! Bounded, line-oriented capture of a session's output stream.
//!
//! Bytes pushed into the buffer are decoded lossily as UTF-8; `\r` is
//! discarded, `\n` completes the pending line and moves it into the bounded
//! line store, and once the store exceeds its capacity the oldest line is
//! evicted first.

use crate::text::{decode_lossy, lossy_decode};
use std::collections::VecDeque;
use vstd::prelude::*;

verus! {

/// Mathematical state of a `TerminalBuffer`: its capacity, the completed
/// lines it retains (oldest first), and the bytes of the still-open line.
pub ghost struct BufferModel {
    pub cap: nat,
    pub lines: Seq<Seq<char>>,
    pub partial: Seq<u8>,
}

/// The lines kept after eviction: the most recent `cap` of `lines`.
pub open spec fn evict(lines: Seq<Seq<char>>, cap: nat) -> Seq<Seq<char>> {
    if lines.len() > cap {
        lines.subrange(lines.len() - cap, lines.len() as int)
    } else {
        lines
    }
}


/// The last `n` of `lines` (or all of them, if fewer), in order.
pub open spec fn last_n(lines: Seq<Seq<char>>, n: nat) -> Seq<Seq<char>> {
    lines.skip(if n < lines.len() { lines.len() - n } else { 0 })
}

/// The views of a sequence of strings, line by line.
pub open spec fn line_views(ss: Seq<String>) -> Seq<Seq<char>> {
    Seq::new(ss.len(), |i: int| ss[i]@)
}

/// One byte of the decoding policy: `\n` completes the pending line (evicting
/// past capacity), `\r` is discarded, anything else extends the pending line.
pub open spec fn step_byte(m: BufferModel, b: u8) -> BufferModel {
    if b == 10 {
        BufferModel {
            cap: m.cap,
            lines: evict(m.lines.push(lossy_decode(m.partial)), m.cap),
            partial: Seq::empty(),
        }
    } else if b == 13 {
        m
    } else {
        BufferModel { cap: m.cap, lines: m.lines, partial: m.partial.push(b) }
    }
}

/// The buffer state after pushing `data`, byte by byte.
pub open spec fn push_bytes(m: BufferModel, data: Seq<u8>) -> BufferModel
    decreases data.len(),
{
    if data.len() == 0 {
        m
    } else {
        push_bytes(step_byte(m, data[0]), data.drop_first())
    }
}

/// Pushing `s` and then one more byte is pushing `s.push(b)`.
proof fn lemma_push_bytes_push(m: BufferModel, s: Seq<u8>, b: u8)
    ensures
        push_bytes(m, s.push(b)) == step_byte(push_bytes(m, s), b),
    decreases s.len(),
{
    if s.len() == 0 {
        assert(s.push(b)[0] == b);
        assert(s.push(b).drop_first() =~= Seq::<u8>::empty());
        assert(push_bytes(step_byte(m, b), Seq::<u8>::empty()) == step_byte(m, b));
    } else {
        assert(s.push(b)[0] == s[0]);
        assert(s.push(b).drop_first() =~= s.drop_first().push(b));
        lemma_push_bytes_push(step_byte(m, s[0]), s.drop_first(), b);
    }
}

/// Extending the pushed prefix of `data` by one byte steps the model once.
proof fn lemma_push_bytes_snoc(m: BufferModel, data: Seq<u8>, i: int)
    requires
        0 <= i < data.len(),
    ensures
        push_bytes(m, data.take(i + 1)) == step_byte(push_bytes(m, data.take(i)), data[i]),
{
    assert(data.take(i + 1) =~= data.take(i).push(data[i]));
    lemma_push_bytes_push(m, data.take(i), data[i]);
}

/// Every line the byte stream `data` completes, in arrival order, when
/// `partial` is already pending — as if capacity were unbounded.
pub open spec fn completed_lines(partial: Seq<u8>, data: Seq<u8>) -> Seq<Seq<char>>
    decreases data.len(),
{
    if data.len() == 0 {
        Seq::empty()
    } else if data[0] == 10 {
        seq![lossy_decode(partial)] + completed_lines(Seq::empty(), data.drop_first())
    } else if data[0] == 13 {
        completed_lines(partial, data.drop_first())
    } else {
        completed_lines(partial.push(data[0]), data.drop_first())
    }
}

/// A fresh buffer of capacity `cap`: no lines, nothing pending.
pub open spec fn empty_model(cap: nat) -> BufferModel {
    BufferModel { cap: cap, lines: Seq::empty(), partial: Seq::empty() }
}

/// Evicting, appending, and evicting again keeps the same suffix as evicting
/// once at the end.
proof fn lemma_evict_compose(a: Seq<Seq<char>>, c: Seq<Seq<char>>, cap: nat)
    ensures
        evict(evict(a, cap) + c, cap) == evict(a + c, cap),
{
    let ea = evict(a, cap);
    if a.len() <= cap {
        assert(ea + c =~= a + c);
    } else {
        assert(ea.len() == cap);
        assert(evict(ea + c, cap) =~= evict(a + c, cap));
    }
    assert(evict(ea + c, cap) =~= evict(a + c, cap));
}

/// The bounded push of a byte stream retains exactly the most recent `cap`
/// of the lines the stream completes, in arrival order.
pub proof fn lemma_push_retains_recent(m: BufferModel, data: Seq<u8>)
    requires
        m.lines.len() <= m.cap,
    ensures
        push_bytes(m, data).lines == evict(m.lines + completed_lines(m.partial, data), m.cap),
        push_bytes(m, data).lines.len() <= m.cap,
    decreases data.len(),
{
    if data.len() == 0 {
        assert(m.lines + completed_lines(m.partial, data) =~= m.lines);
    } else {
        let b = data[0];
        let m2 = step_byte(m, b);
        let rest = data.drop_first();
        if b == 10 {
            let grown = m.lines.push(lossy_decode(m.partial));
            lemma_push_retains_recent(m2, rest);
            lemma_evict_compose(grown, completed_lines(Seq::empty(), rest), m.cap);
            assert(grown + completed_lines(Seq::empty(), rest) =~= m.lines + completed_lines(
                m.partial,
                data,
            ));
        } else if b == 13 {
            lemma_push_retains_recent(m, rest);
        } else {
            lemma_push_retains_recent(m2, rest);
        }
    }
}

/// For any byte stream fed into a fresh buffer of capacity `cap`, the
/// retained lines never number more than `cap`, and are exactly the most
/// recent `cap` lines the stream completed, oldest first.
pub proof fn lemma_buffer_bounded_and_exact(cap: nat, data: Seq<u8>)
    ensures
        push_bytes(empty_model(cap), data).lines == evict(
            completed_lines(Seq::empty(), data),
            cap,
        ),
        push_bytes(empty_model(cap), data).lines.len() <= cap,
{
    lemma_push_retains_recent(empty_model(cap), data);
    assert(empty_model(cap).lines + completed_lines(Seq::empty(), data) =~= completed_lines(
        Seq::empty(),
        data,
    ));
}

/// Bounded line store plus the pending partial line.
pub struct TerminalBuffer {
    lines: VecDeque<String>,
    max_lines: usize,
    current: Vec<u8>,
}

impl View for TerminalBuffer {
    type V = BufferModel;

    closed spec fn view(&self) -> BufferModel {
        BufferModel {
            cap: self.max_lines as nat,
            lines: line_views(self.lines@),
            partial: self.current@,
        }
    }
}

impl TerminalBuffer {
    /// Within capacity: the one invariant every operation preserves.
    pub open spec fn wf(&self) -> bool {
        self@.lines.len() <= self@.cap
    }

    pub fn new(max_lines: usize) -> (r: TerminalBuffer)
        ensures
            r.wf(),
            r@.cap == max_lines,
            r@.lines == Seq::<Seq<char>>::empty(),
            r@.partial == Seq::<u8>::empty(),
    {
        TerminalBuffer { lines: VecDeque::new(), max_lines, current: Vec::new() }
    }

    pub fn len(&self) -> (n: usize)
        ensures
            n == self@.lines.len(),
    {
        self.lines.len()
    }

    pub fn is_empty(&self) -> (b: bool)
        ensures
            b == (self@.lines.len() == 0),
    {
        self.lines.len() == 0
    }

    /// Decode `data` into the buffer per the line policy.
    pub fn push(&mut self, data: &[u8])
        requires
            old(self).wf(),
        ensures
            final(self).wf(),
            final(self)@ == push_bytes(old(self)@, data@),
    {
        let n = data.len();
        let mut i: usize = 0;
        while i < n
            invariant
                i <= n,
                n == data@.len(),
                self.wf(),
                self@ == push_bytes(old(self)@, data@.take(i as int)),
            decreases n - i,
        {
            proof {
                lemma_push_bytes_snoc(old(self)@, data@, i as int);
            }
            let ghost pre = self@;
            let b = data[i];
            if b == 10 {
                let line = decode_lossy(self.current.as_slice());
                self.current.clear();
                self.lines.push_back(line);
                proof {
                    assert(self@.lines =~= pre.lines.push(lossy_decode(pre.partial)));
                    assert(self@.partial =~= Seq::<u8>::empty());
                }
                if self.lines.len() > self.max_lines {
                    let ghost mid = self@;
                    self.lines.pop_front();
                    proof {
                        assert(self@.lines =~= evict(mid.lines, mid.cap));
                    }
                } else {
                    proof {
                        assert(self@.lines =~= evict(pre.lines.push(lossy_decode(pre.partial)), pre.cap));
                    }
                }
            } else if b != 13 {
                self.current.push(b);
            }
            proof {
                assert(self@ =~= step_byte(pre, b));
            }
            i = i + 1;
        }
        proof {
            assert(data@.take(n as int) =~= data@);
        }
    }

    /// Snapshot of all retained completed lines, oldest first.
    pub fn get_all(&self) -> (r: Vec<String>)
        ensures
            line_views(r@) == self@.lines,
    {
        let n = self.lines.len();
        let mut out: Vec<String> = Vec::new();
        let mut i: usize = 0;
        while i < n
            invariant
                i <= n,
                n == self.lines@.len(),
                out@.len() == i,
                forall|k: int| 0 <= k < i ==> out@[k]@ == self@.lines[k],
            decreases n - i,
        {
            out.push(self.lines[i].clone());
            i = i + 1;
        }
        proof {
            assert(line_views(out@) =~= self@.lines);
        }
        out
    }

    /// The last `n` retained lines (or all of them, if fewer), oldest first.
    pub fn get_recent(&self, n: usize) -> (r: Vec<String>)
        ensures
            line_views(r@) == last_n(self@.lines, n as nat),
    {
        let len = self.lines.len();
        let start: usize = if n < len { len - n } else { 0 };
        let mut out: Vec<String> = Vec::new();
        let mut i: usize = start;
        while i < len
            invariant
                start <= i <= len,
                len == self.lines@.len(),
                out@.len() == i - start,
                forall|k: int| 0 <= k < out@.len() ==> out@[k]@ == self@.lines[start + k],
            decreases len - i,
        {
            out.push(self.lines[i].clone());
            i = i + 1;
        }
        proof {
            assert(line_views(out@) =~= self@.lines.skip(start as int));
        }
        out
    }

    pub fn clear(&mut self)
        ensures
            final(self)@.cap == old(self)@.cap,
            final(self)@.lines == Seq::<Seq<char>>::empty(),
            final(self)@.partial == Seq::<u8>::empty(),
            final(self).wf(),
    {
        self.lines.clear();
        self.current.clear();
        proof {
            assert(final(self)@.lines =~= Seq::<Seq<char>>::empty());
        }
    }
}

} // verus!
