//! Splitting a byte buffer into frames, and joining frames back into bytes.

use vstd::prelude::*;

verus! {

/// How a byte stream is cut into frames.
#[derive(Debug, Clone, Copy, PartialEq, Eq)]
pub enum Framing {
    /// The whole buffer is one frame.
    MessageBased,
    /// Frames end at `\n`; longer frames than `max_length` are dropped.
    NewlineDelimited { max_length: Option<usize> },
    /// Frames end at `delimiter`; longer frames than `max_length` are dropped.
    CharacterDelimited { delimiter: u8, max_length: Option<usize> },
}

pub open spec fn length_limit(max_length: Option<usize>) -> int {
    match max_length {
        Some(m) => m as int,
        None => usize::MAX as int,
    }
}

/// The frames of a delimited stream, given the rest of the buffer `buf`
/// and the bytes `cur` of the frame under way. A frame ends at the delimiter
/// and the last one at the end of the buffer, if it is not empty. Frames
/// longer than `max` are dropped.
pub open spec fn delimited_frames(d: u8, max: int, buf: Seq<u8>, cur: Seq<u8>) -> Seq<Seq<u8>>
    decreases buf.len(),
{
    if buf.len() == 0 {
        if cur.len() == 0 || cur.len() > max {
            seq![]
        } else {
            seq![cur]
        }
    } else if buf[0] == d {
        let rest = delimited_frames(d, max, buf.drop_first(), seq![]);
        if cur.len() > max {
            rest
        } else {
            seq![cur] + rest
        }
    } else {
        delimited_frames(d, max, buf.drop_first(), cur.push(buf[0]))
    }
}

impl Framing {
    /// The delimiter byte of a delimited framing.
    pub open spec fn delimiter_of(self) -> Option<u8> {
        match self {
            Framing::MessageBased => None,
            Framing::NewlineDelimited { .. } => Some(10u8),
            Framing::CharacterDelimited { delimiter, .. } => Some(delimiter),
        }
    }

    /// The longest frame kept.
    pub open spec fn limit(self) -> int {
        match self {
            Framing::MessageBased => usize::MAX as int,
            Framing::NewlineDelimited { max_length } => length_limit(max_length),
            Framing::CharacterDelimited { max_length, .. } => length_limit(max_length),
        }
    }

    /// The frames that this framing cuts out of `buf`, in order.
    pub open spec fn frames(self, buf: Seq<u8>) -> Seq<Seq<u8>> {
        match self.delimiter_of() {
            None => if buf.len() == 0 {
                seq![]
            } else {
                seq![buf]
            },
            Some(d) => delimited_frames(d, self.limit(), buf, seq![]),
        }
    }

    /// The bytes that carry `frames` under this framing: for message-based
    /// framing the frames one after another, else each frame followed by the
    /// delimiter.
    pub open spec fn joined(self, frames: Seq<Seq<u8>>) -> Seq<u8>
        decreases frames.len(),
    {
        if frames.len() == 0 {
            seq![]
        } else {
            let rest = self.joined(frames.drop_first());
            match self.delimiter_of() {
                None => frames[0] + rest,
                Some(d) => frames[0].push(d) + rest,
            }
        }
    }

    /// Whether `frames` survive joining and splitting unchanged: under
    /// message-based framing exactly one non-empty frame, else frames that hold
    /// no delimiter and are no longer than the limit.
    pub open spec fn carries(self, frames: Seq<Seq<u8>>) -> bool {
        match self.delimiter_of() {
            None => frames.len() == 1 && frames[0].len() > 0,
            Some(d) => forall|i: int|
                0 <= i < frames.len() ==> frames[i].len() <= self.limit() && !frames[i].contains(d),
        }
    }

    pub fn delimiter(&self) -> (r: Option<u8>)
        ensures
            r == self.delimiter_of(),
    {
        match self {
            Framing::MessageBased => None,
            Framing::NewlineDelimited { .. } => Some(10u8),
            Framing::CharacterDelimited { delimiter, .. } => Some(*delimiter),
        }
    }

    pub fn max_frame_length(&self) -> (r: usize)
        ensures
            r as int == self.limit(),
    {
        match self {
            Framing::MessageBased => usize::MAX,
            Framing::NewlineDelimited { max_length } => match max_length {
                Some(m) => *m,
                None => usize::MAX,
            },
            Framing::CharacterDelimited { max_length, .. } => match max_length {
                Some(m) => *m,
                None => usize::MAX,
            },
        }
    }

    /// Appends the bytes of one frame to `out`, followed by the delimiter
    /// where the framing has one.
    pub fn write_frame(&self, frame: &Vec<u8>, out: &mut Vec<u8>)
        ensures
            final(out)@ == old(out)@ + match self.delimiter_of() {
                None => frame@,
                Some(d) => frame@.push(d),
            },
    {
        let mut i: usize = 0;
        while i < frame.len()
            invariant
                i <= frame@.len(),
                out@ == old(out)@ + frame@.subrange(0, i as int),
            decreases frame@.len() - i,
        {
            out.push(frame[i]);
            i = i + 1;
            assert(out@ =~= old(out)@ + frame@.subrange(0, i as int));
        }
        assert(frame@.subrange(0, frame@.len() as int) =~= frame@);
        match self.delimiter() {
            None => {},
            Some(d) => {
                out.push(d);
                assert(out@ =~= old(out)@ + frame@.push(d));
            },
        }
    }

    /// The bytes that carry `frames`.
    pub fn join(&self, frames: &Vec<Vec<u8>>) -> (r: Vec<u8>)
        ensures
            r@ == self.joined(frames@.map_values(|f: Vec<u8>| f@)),
    {
        let ghost all = frames@.map_values(|f: Vec<u8>| f@);
        let mut out: Vec<u8> = Vec::new();
        let mut i: usize = 0;
        assert(all.subrange(0, all.len() as int) =~= all);
        assert(out@ + self.joined(all) =~= self.joined(all));
        while i < frames.len()
            invariant
                i <= frames@.len(),
                all == frames@.map_values(|f: Vec<u8>| f@),
                self.joined(all) == out@ + self.joined(all.subrange(i as int, all.len() as int)),
            decreases frames@.len() - i,
        {
            proof {
                let s = all.subrange(i as int, all.len() as int);
                assert(s.drop_first() =~= all.subrange(i + 1, all.len() as int));
            }
            self.write_frame(&frames[i], &mut out);
            i = i + 1;
        }
        assert(all.subrange(i as int, all.len() as int) =~= Seq::<Seq<u8>>::empty());
        out
    }
}

/// Joining distributes over concatenation of frame lists.
pub proof fn lemma_joined_concat(f: Framing, a: Seq<Seq<u8>>, b: Seq<Seq<u8>>)
    ensures
        f.joined(a + b) == f.joined(a) + f.joined(b),
    decreases a.len(),
{
    if a.len() == 0 {
        assert(a + b =~= b);
    } else {
        assert((a + b).drop_first() =~= a.drop_first() + b);
        lemma_joined_concat(f, a.drop_first(), b);
    }
}

/// Scanning a frame body that holds no delimiter only accumulates it.
pub proof fn lemma_scan_body(d: u8, max: int, m: Seq<u8>, rest: Seq<u8>, cur: Seq<u8>)
    requires
        !m.contains(d),
    ensures
        delimited_frames(d, max, m + rest, cur) == delimited_frames(d, max, rest, cur + m),
    decreases m.len(),
{
    if m.len() == 0 {
        assert(m + rest =~= rest);
        assert(cur + m =~= cur);
    } else {
        assert(m[0] != d) by {
            if m[0] == d {
                assert(m.contains(d));
            }
        }
        assert((m + rest)[0] == m[0]);
        assert((m + rest).drop_first() =~= m.drop_first() + rest);
        assert(!m.drop_first().contains(d)) by {
            if m.drop_first().contains(d) {
                let j = choose|j: int| 0 <= j < m.drop_first().len() && m.drop_first()[j] == d;
                assert(m[j + 1] == d);
            }
        }
        lemma_scan_body(d, max, m.drop_first(), rest, cur.push(m[0]));
        assert(cur.push(m[0]) + m.drop_first() =~= cur + m);
    }
}

/// Delimited framing cuts the joined frames back into the same frames.
pub proof fn lemma_delimited_round_trip(f: Framing, frames: Seq<Seq<u8>>)
    requires
        f.delimiter_of() is Some,
        f.carries(frames),
    ensures
        delimited_frames(f.delimiter_of()->0, f.limit(), f.joined(frames), seq![]) == frames,
    decreases frames.len(),
{
    let d = f.delimiter_of()->0;
    let max = f.limit();
    if frames.len() == 0 {
        assert(frames =~= Seq::<Seq<u8>>::empty());
    } else {
        let m = frames[0];
        let tail = frames.drop_first();
        assert(f.carries(tail));
        let rest_bytes = f.joined(tail);
        assert(f.joined(frames) == m.push(d) + rest_bytes);
        assert(m.push(d) + rest_bytes =~= m + (seq![d] + rest_bytes));
        lemma_scan_body(d, max, m, seq![d] + rest_bytes, seq![]);
        assert(seq![] + m =~= m);
        let after = seq![d] + rest_bytes;
        assert(after[0] == d);
        assert(after.drop_first() =~= rest_bytes);
        lemma_delimited_round_trip(f, tail);
        assert(seq![m] + tail =~= frames);
    }
}

/// Joining frames that the framing carries and cutting the bytes again gives
/// back the same frames.
pub proof fn lemma_frames_round_trip(f: Framing, frames: Seq<Seq<u8>>)
    requires
        f.carries(frames),
    ensures
        f.frames(f.joined(frames)) == frames,
{
    match f.delimiter_of() {
        None => {
            assert(frames.drop_first() =~= Seq::<Seq<u8>>::empty());
            assert(f.joined(frames.drop_first()) == Seq::<u8>::empty());
            assert(f.joined(frames) =~= frames[0]);
            assert(seq![frames[0]] =~= frames);
        },
        Some(d) => {
            lemma_delimited_round_trip(f, frames);
        },
    }
}

} // verus!
