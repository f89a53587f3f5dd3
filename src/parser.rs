use vstd::prelude::*;

use crate::frame::{decode_frame, Output, OUTPUT_LENGTH};

verus! {

/// Why a frame could not be decoded.
#[derive(Debug, Clone, Copy, PartialEq, Eq, Structural)]
pub enum ParseError {
    /// A frame boundary came after a number of bytes other than nine, or more
    /// than nine bytes accumulated before any boundary; `len` is that number.
    LengthError { len: usize },
    /// The range byte (the first byte) is not a range code.
    InvalidRange(u8),
    /// The function byte (the sixth byte) is not a function code.
    InvalidFunction(u8),
    /// One of the four digit bytes is not an ASCII digit.
    InvalidDigit(u8),
}

/// Carriage return, a frame terminator.
pub const CR: u8 = 0x0d;

/// Line feed, a frame terminator.
pub const LF: u8 = 0x0a;

/// Where the decoder stands between frames.
#[derive(Debug, Clone, Copy, PartialEq, Eq, Structural)]
pub enum ParserState {
    /// Collecting the bytes of a frame.
    Idle,
    /// A carriage return has just ended a frame; a line feed that follows it
    /// belongs to the same terminator.
    FoundCr,
}

/// One step of the decoder: from its state and buffer and the next byte, the
/// next state and buffer and what the byte yields, if anything.
pub open spec fn step(state: ParserState, buf: Seq<u8>, b: u8) -> (
    ParserState,
    Seq<u8>,
    Option<Result<Output, ParseError>>,
) {
    match state {
        ParserState::Idle => if b == CR {
            (ParserState::FoundCr, Seq::empty(), Some(decode_frame(buf)))
        } else if b == LF {
            (ParserState::Idle, Seq::empty(), Some(decode_frame(buf)))
        } else {
            let grown = buf.push(b);
            if grown.len() > OUTPUT_LENGTH {
                (
                    ParserState::Idle,
                    grown.subrange(grown.len() - OUTPUT_LENGTH, grown.len() as int),
                    Some(Err(ParseError::LengthError { len: grown.len() as usize })),
                )
            } else {
                (ParserState::Idle, grown, None)
            }
        },
        ParserState::FoundCr => if b == LF {
            (ParserState::Idle, Seq::empty(), None)
        } else {
            (ParserState::Idle, buf.push(b), None)
        },
    }
}

/// The decoder run over a whole input: the state and buffer it ends in, and
/// what the bytes yielded, in order.
pub open spec fn run(state: ParserState, buf: Seq<u8>, input: Seq<u8>) -> (
    ParserState,
    Seq<u8>,
    Seq<Result<Output, ParseError>>,
)
    decreases input.len(),
{
    if input.len() == 0 {
        (state, buf, Seq::empty())
    } else {
        let (s1, b1, out) = run(state, buf, input.drop_last());
        let (s2, b2, yielded) = step(s1, b1, input.last());
        (
            s2,
            b2,
            match yielded {
                Some(x) => out.push(x),
                None => out,
            },
        )
    }
}

/// The decoder run over a sequence of chunks, one after the other.
pub open spec fn run_chunks(state: ParserState, buf: Seq<u8>, chunks: Seq<Seq<u8>>) -> (
    ParserState,
    Seq<u8>,
    Seq<Result<Output, ParseError>>,
)
    decreases chunks.len(),
{
    if chunks.len() == 0 {
        (state, buf, Seq::empty())
    } else {
        let (s1, b1, o1) = run(state, buf, chunks[0]);
        let (s2, b2, o2) = run_chunks(s1, b1, chunks.drop_first());
        (s2, b2, o1 + o2)
    }
}

/// What one call of `Parser::parse_ch` yields, as an optional result.
pub open spec fn yielded(r: Result<Option<Output>, ParseError>) -> Option<Result<Output, ParseError>> {
    match r {
        Ok(None) => None,
        Ok(Some(o)) => Some(Ok(o)),
        Err(e) => Some(Err(e)),
    }
}

/// Splits a byte stream into frames and decodes each.
pub struct Parser {
    state: ParserState,
    buf: Vec<u8>,
}

impl Parser {
    /// The buffer never holds more than one frame, and is empty right after a
    /// carriage return.
    #[verifier::type_invariant]
    spec fn inv(self) -> bool {
        &&& self.buf@.len() <= OUTPUT_LENGTH
        &&& self.state == ParserState::FoundCr ==> self.buf@.len() == 0
    }

    /// The state the decoder is in.
    pub closed spec fn state(&self) -> ParserState {
        self.state
    }

    /// The bytes received since the last frame boundary.
    pub closed spec fn buffer(&self) -> Seq<u8> {
        self.buf@
    }

    pub fn new() -> (r: Self)
        ensures
            r.state() == ParserState::Idle,
            r.buffer() == Seq::<u8>::empty(),
    {
        Self { state: ParserState::Idle, buf: Vec::new() }
    }

    /// Feeds one byte; returns the frame or error it completes, if any.
    pub fn parse_ch(&mut self, ch: u8) -> (r: Result<Option<Output>, ParseError>)
        ensures
            (final(self).state(), final(self).buffer(), yielded(r)) == step(
                old(self).state(),
                old(self).buffer(),
                ch,
            ),
            final(self).buffer().len() <= OUTPUT_LENGTH,
    {
        proof {
            use_type_invariant(&*self);
        }
        // work on the buffer out of place, so that the decoder stays valid
        let mut buf: Vec<u8> = Vec::new();
        std::mem::swap(&mut buf, &mut self.buf);
        let r = match self.state {
            ParserState::Idle => {
                if ch == CR {
                    self.state = ParserState::FoundCr;
                    match Output::parse(buf.as_slice()) {
                        Ok(o) => Ok(Some(o)),
                        Err(e) => Err(e),
                    }
                } else if ch == LF {
                    match Output::parse(buf.as_slice()) {
                        Ok(o) => Ok(Some(o)),
                        Err(e) => Err(e),
                    }
                } else {
                    buf.push(ch);
                    let len = buf.len();
                    if OUTPUT_LENGTH < len {
                        // the buffer held at most one frame, so one byte is over
                        buf.remove(0);
                        assert(buf@ =~= old(self).buf@.push(ch).subrange(
                            len - OUTPUT_LENGTH,
                            len as int,
                        ));
                        self.buf = buf;
                        Err(ParseError::LengthError { len })
                    } else {
                        self.buf = buf;
                        Ok(None)
                    }
                }
            },
            ParserState::FoundCr => {
                self.state = ParserState::Idle;
                if ch != LF {
                    buf.push(ch);
                    self.buf = buf;
                }
                Ok(None)
            },
        };
        proof {
            use_type_invariant(&*self);
        }
        r
    }

    /// Feeds a chunk of bytes of any size; returns the results of the frames
    /// that it completes, in order.
    pub fn parse(&mut self, input: &[u8]) -> (r: Vec<Result<Output, ParseError>>)
        ensures
            (final(self).state(), final(self).buffer(), r@) == run(
                old(self).state(),
                old(self).buffer(),
                input@,
            ),
            final(self).buffer().len() <= OUTPUT_LENGTH,
    {
        proof {
            use_type_invariant(&*self);
        }
        let mut results: Vec<Result<Output, ParseError>> = Vec::new();
        let mut i: usize = 0;
        while i < input.len()
            invariant
                i <= input@.len(),
                self.buffer().len() <= OUTPUT_LENGTH,
                (self.state(), self.buffer(), results@) == run(
                    old(self).state(),
                    old(self).buffer(),
                    input@.subrange(0, i as int),
                ),
            decreases input@.len() - i,
        {
            match self.parse_ch(input[i]) {
                Ok(Some(out)) => results.push(Ok(out)),
                Ok(None) => {},
                Err(err) => results.push(Err(err)),
            }
            assert(input@.subrange(0, i + 1).drop_last() =~= input@.subrange(0, i as int));
            i = i + 1;
        }
        assert(input@.subrange(0, i as int) =~= input@);
        results
    }
}

/// Feeding `a` and then `b` leaves the decoder where feeding `a + b` does,
/// and yields the same results in the same order.
pub proof fn lemma_run_append(state: ParserState, buf: Seq<u8>, a: Seq<u8>, b: Seq<u8>)
    ensures
        ({
            let (s1, b1, o1) = run(state, buf, a);
            let (s2, b2, o2) = run(s1, b1, b);
            run(state, buf, a + b) == (s2, b2, o1 + o2)
        }),
    decreases b.len(),
{
    let (s1, b1, o1) = run(state, buf, a);
    if b.len() == 0 {
        assert(a + b =~= a);
        assert(o1 + Seq::<Result<Output, ParseError>>::empty() =~= o1);
    } else {
        lemma_run_append(state, buf, a, b.drop_last());
        assert((a + b).drop_last() =~= a + b.drop_last());
        assert((a + b).last() == b.last());
        let (s2, b2, o2) = run(s1, b1, b.drop_last());
        let (s3, b3, y) = step(s2, b2, b.last());
        match y {
            Some(x) => {
                assert((o1 + o2).push(x) =~= o1 + o2.push(x));
            },
            None => {},
        }
    }
}

/// Chunk-size independence: feeding the chunks one after the other gives the
/// same results, and the same decoder, as feeding their concatenation at once.
pub proof fn lemma_chunk_independence(state: ParserState, buf: Seq<u8>, chunks: Seq<Seq<u8>>)
    ensures
        run_chunks(state, buf, chunks) == run(state, buf, chunks.flatten()),
    decreases chunks.len(),
{
    if chunks.len() == 0 {
        assert(chunks.flatten() =~= Seq::<u8>::empty());
    } else {
        let (s1, b1, o1) = run(state, buf, chunks[0]);
        lemma_chunk_independence(s1, b1, chunks.drop_first());
        lemma_run_append(state, buf, chunks[0], chunks.drop_first().flatten());
        assert(chunks.flatten() == chunks[0] + chunks.drop_first().flatten());
    }
}

/// From the collecting state, bytes that are no terminator keep the decoder
/// collecting.
pub proof fn lemma_payload_stays_idle(buf: Seq<u8>, payload: Seq<u8>)
    requires
        forall|i: int| 0 <= i < payload.len() ==> payload[i] != CR && payload[i] != LF,
    ensures
        run(ParserState::Idle, buf, payload).0 == ParserState::Idle,
    decreases payload.len(),
{
    if payload.len() > 0 {
        lemma_payload_stays_idle(buf, payload.drop_last());
    }
}

/// Terminator equivalence: a payload ended by CR LF, by CR alone or by LF
/// alone yields the same results, the last of them the decoded frame; only a
/// lone CR leaves the decoder waiting for a line feed that may follow.
pub proof fn lemma_terminator_equivalence(buf: Seq<u8>, payload: Seq<u8>)
    requires
        forall|i: int| 0 <= i < payload.len() ==> payload[i] != CR && payload[i] != LF,
    ensures
        ({
            let (s0, b0, o0) = run(ParserState::Idle, buf, payload);
            let done = o0.push(decode_frame(b0));
            &&& run(ParserState::Idle, buf, payload + seq![CR, LF]) == (
                ParserState::Idle,
                Seq::<u8>::empty(),
                done,
            )
            &&& run(ParserState::Idle, buf, payload + seq![LF]) == (
                ParserState::Idle,
                Seq::<u8>::empty(),
                done,
            )
            &&& run(ParserState::Idle, buf, payload + seq![CR]) == (
                ParserState::FoundCr,
                Seq::<u8>::empty(),
                done,
            )
        }),
{
    lemma_payload_stays_idle(buf, payload);
    let (s0, b0, o0) = run(ParserState::Idle, buf, payload);
    lemma_run_append(ParserState::Idle, buf, payload, seq![CR, LF]);
    lemma_run_append(ParserState::Idle, buf, payload, seq![LF]);
    lemma_run_append(ParserState::Idle, buf, payload, seq![CR]);
    assert(seq![CR, LF].drop_last() =~= seq![CR]);
    assert(seq![CR].drop_last() =~= Seq::<u8>::empty());
    assert(seq![LF].drop_last() =~= Seq::<u8>::empty());
    assert(run(s0, b0, Seq::empty()) == (s0, b0, Seq::<Result<Output, ParseError>>::empty()));
    assert(run(s0, b0, seq![CR]) == (
        ParserState::FoundCr,
        Seq::<u8>::empty(),
        seq![decode_frame(b0)],
    ));
    assert(run(s0, b0, seq![LF]) == (
        ParserState::Idle,
        Seq::<u8>::empty(),
        seq![decode_frame(b0)],
    ));
    assert(run(s0, b0, seq![CR, LF]) == (
        ParserState::Idle,
        Seq::<u8>::empty(),
        seq![decode_frame(b0)],
    ));
    let done = o0.push(decode_frame(b0));
    assert(o0 + seq![decode_frame(b0)] =~= done);
    assert(Seq::<Result<Output, ParseError>>::empty().push(decode_frame(b0)) =~= seq![
        decode_frame(b0),
    ]);
}

} // verus!
