//! The deterministic host: the only ambient state an execution may depend on.
//!
//! A host exposes a fixed logical context and a pseudo-random byte stream that
//! is a function of that context alone. The production host draws its stream
//! from a ChaCha20 generator keyed by the context.

use crate::models::LogicalContext;
use rand_chacha::ChaCha20Rng;
use rand_core::{RngCore, SeedableRng};
use vstd::bytes::{
    lemma_auto_spec_u64_to_from_le_bytes, spec_u64_from_le_bytes, spec_u64_to_le_bytes,
    u64_to_le_bytes,
};
use vstd::prelude::*;

verus! {

#[verifier::external_type_specification]
#[verifier::external_body]
pub struct ExChaCha20Rng(ChaCha20Rng);

/// Where a ChaCha20 generator stands: the key it was seeded with, the stream
/// it reads and the number of 32-bit words it has handed out.
pub struct StreamPosition {
    pub seed: Seq<u8>,
    pub stream: u64,
    pub word_pos: nat,
}

/// The number of 32-bit words after which the keystream repeats: a 64-bit
/// block counter over blocks of sixteen words.
pub open spec fn keystream_period() -> nat {
    0x10_0000_0000_0000_0000
}

/// The number of whole 32-bit words that a request for `len` bytes consumes.
pub open spec fn words_for(len: nat) -> nat {
    (len + 3) / 4
}

impl StreamPosition {
    /// A freshly seeded generator: stream zero, nothing handed out.
    pub open spec fn start(seed: Seq<u8>) -> StreamPosition {
        StreamPosition { seed, stream: 0, word_pos: 0 }
    }

    /// The position after `len` bytes were drawn. A partly used word is
    /// dropped, and the position wraps at the end of the period.
    pub open spec fn advance(self, len: nat) -> StreamPosition {
        StreamPosition {
            seed: self.seed,
            stream: self.stream,
            word_pos: (self.word_pos + words_for(len)) % keystream_period(),
        }
    }
}

/// The abstract state of a generator, which determines all it will yield.
pub uninterp spec fn generator_position(rng: ChaCha20Rng) -> StreamPosition;

/// The `len` bytes that a ChaCha20 generator yields from position `at`.
pub uninterp spec fn keystream_bytes(at: StreamPosition, len: nat) -> Seq<u8>;

/// `ChaCha20Rng::from_seed`: the generator keyed by `seed`, on stream zero,
/// at the start of its keystream.
#[verifier::external_body]
fn generator_from_seed(seed: [u8; 32]) -> (rng: ChaCha20Rng)
    ensures
        generator_position(rng) == StreamPosition::start(seed@),
{
    ChaCha20Rng::from_seed(seed)
}

/// `RngCore::fill_bytes` on a ChaCha20 generator: the buffer keeps its length
/// and receives the keystream at the generator's position, which moves on by
/// the words consumed. Not proved here: that the bytes depend on nothing but
/// the position and the length.
#[verifier::external_body]
fn generator_fill(rng: &mut ChaCha20Rng, buf: &mut [u8])
    ensures
        final(buf)@.len() == old(buf)@.len(),
        final(buf)@ == keystream_bytes(generator_position(*old(rng)), old(buf)@.len()),
        generator_position(*final(rng)) == generator_position(*old(rng)).advance(
            old(buf)@.len(),
        ),
    no_unwind
{
    rng.fill_bytes(buf)
}

/// The 32-byte generator key of a logical context: `logical_time` and
/// `rng_seed`, little-endian, in the low sixteen bytes; the rest zero.
pub open spec fn seed_bytes(logical_time: u64, rng_seed: u64) -> Seq<u8> {
    spec_u64_to_le_bytes(logical_time) + spec_u64_to_le_bytes(rng_seed) + Seq::new(
        16,
        |i: int| 0u8,
    )
}

/// Lays out the generator key of a logical context.
pub fn derive_seed(logical_time: u64, rng_seed: u64) -> (seed: [u8; 32])
    ensures
        seed@ == seed_bytes(logical_time, rng_seed),
{
    proof {
        lemma_auto_spec_u64_to_from_le_bytes();
    }
    let time_bytes = u64_to_le_bytes(logical_time);
    let seed_part = u64_to_le_bytes(rng_seed);
    let mut seed = [0u8; 32];
    let mut i: usize = 0;
    while i < 8
        invariant
            i <= 8,
            time_bytes@ == spec_u64_to_le_bytes(logical_time),
            seed_part@ == spec_u64_to_le_bytes(rng_seed),
            time_bytes@.len() == 8,
            seed_part@.len() == 8,
            forall|j: int| 0 <= j < i ==> seed@[j] == time_bytes@[j],
            forall|j: int| 8 <= j < 8 + i ==> seed@[j] == seed_part@[j - 8],
            forall|j: int| 16 <= j < 32 ==> seed@[j] == 0u8,
        decreases 8 - i,
    {
        seed[i] = time_bytes[i];
        seed[i + 8] = seed_part[i];
        i += 1;
    }
    assert(seed@ =~= seed_bytes(logical_time, rng_seed));
    seed
}

/// What a host may let an execution see: its logical context and a stream of
/// bytes that depends on nothing but the host's own state.
///
/// A host states what it is by `context` and `upcoming`, and its two methods
/// are held to that: no clock, no entropy of the machine, nothing but the
/// state of the host decides what they return. A host written outside
/// verified code can leave the two unstated; nothing is then known of it but
/// what this trait demands.
pub trait DeterministicHost {
    /// The logical context this host was made for.
    open spec fn context(&self) -> LogicalContext {
        arbitrary()
    }

    /// The bytes that the next request for `len` bytes yields.
    open spec fn upcoming(&self, len: nat) -> Seq<u8> {
        arbitrary()
    }

    /// The fixed (logical_time, rng_seed) pair of this execution.
    fn logical_context(&self) -> (ctx: LogicalContext)
        ensures
            ctx == self.context(),
    ;

    /// Fills `buf` with the next bytes of the host's stream. The logical
    /// context stays as it was.
    fn fill_rng(&mut self, buf: &mut [u8])
        ensures
            final(buf)@.len() == old(buf)@.len(),
            final(buf)@ == old(self).upcoming(old(buf)@.len()),
            final(self).context() == old(self).context(),
    ;
}

/// The state of the production host as its callers see it.
pub struct HostState {
    pub context: LogicalContext,
    pub word_pos: nat,
}

impl HostState {
    /// The state of a host that has handed out nothing yet.
    pub open spec fn initial(logical_time: u64, rng_seed: u64) -> HostState {
        HostState { context: LogicalContext { logical_time, rng_seed }, word_pos: 0 }
    }

    /// The generator position that belongs to this state.
    pub open spec fn position(self) -> StreamPosition {
        StreamPosition {
            seed: seed_bytes(self.context.logical_time, self.context.rng_seed),
            stream: 0,
            word_pos: self.word_pos,
        }
    }

    /// The bytes that a request for `len` bytes yields in this state.
    pub open spec fn output(self, len: nat) -> Seq<u8> {
        keystream_bytes(self.position(), len)
    }

    /// The state after a request for `len` bytes.
    pub open spec fn after(self, len: nat) -> HostState {
        HostState { context: self.context, word_pos: self.position().advance(len).word_pos }
    }

    /// What a run of requests yields, one entry for each requested length.
    pub open spec fn outputs(self, lens: Seq<nat>) -> Seq<Seq<u8>>
        decreases lens.len(),
    {
        if lens.len() == 0 {
            Seq::empty()
        } else {
            seq![self.output(lens[0])] + self.after(lens[0]).outputs(lens.subrange(1, lens.len() as int))
        }
    }
}

/// The production host: a ChaCha20 generator keyed by the logical context.
pub struct DefaultDeterministicHost {
    ctx: LogicalContext,
    rng: ChaCha20Rng,
}

impl View for DefaultDeterministicHost {
    type V = HostState;

    closed spec fn view(&self) -> HostState {
        HostState { context: self.ctx, word_pos: generator_position(self.rng).word_pos }
    }
}

impl DefaultDeterministicHost {
    /// The generator is keyed by the context and reads stream zero.
    #[verifier::type_invariant]
    closed spec fn keyed_by_context(self) -> bool {
        generator_position(self.rng) == self@.position()
    }

    /// A host for the given logical context, at the start of its stream.
    pub fn new(logical_time: u64, rng_seed: u64) -> (host: Self)
        ensures
            host@ == HostState::initial(logical_time, rng_seed),
    {
        let seed = derive_seed(logical_time, rng_seed);
        let rng = generator_from_seed(seed);
        DefaultDeterministicHost { ctx: LogicalContext { logical_time, rng_seed }, rng }
    }
}

impl DeterministicHost for DefaultDeterministicHost {
    open spec fn context(&self) -> LogicalContext {
        self@.context
    }

    open spec fn upcoming(&self, len: nat) -> Seq<u8> {
        self@.output(len)
    }

    fn logical_context(&self) -> (ctx: LogicalContext) {
        self.ctx
    }

    fn fill_rng(&mut self, buf: &mut [u8])
        ensures
            final(self)@ == old(self)@.after(old(buf)@.len()),
    {
        proof {
            use_type_invariant(&*self);
        }
        generator_fill(&mut self.rng, buf);
    }
}

/// The bytes that count up from `start`, one after another, beginning anew
/// after 255.
pub open spec fn counting_bytes(start: u8, len: nat) -> Seq<u8> {
    Seq::new(len, |i: int| ((start + i) % 256) as u8)
}

/// A host for trials: its stream counts up from zero and its context is
/// whatever it is given. It stands in where the production host is not
/// wanted, with no change to the code that takes a host.
pub struct CountingHost {
    ctx: LogicalContext,
    next: u8,
}

/// The state of a counting host: its context and the byte it yields next.
pub struct CountingState {
    pub context: LogicalContext,
    pub next: u8,
}

impl View for CountingHost {
    type V = CountingState;

    closed spec fn view(&self) -> CountingState {
        CountingState { context: self.ctx, next: self.next }
    }
}

impl CountingHost {
    /// A counting host for the given logical context, about to yield zero.
    pub fn new(logical_time: u64, rng_seed: u64) -> (host: Self)
        ensures
            host@ == (CountingState { context: LogicalContext { logical_time, rng_seed }, next: 0 }),
    {
        CountingHost { ctx: LogicalContext { logical_time, rng_seed }, next: 0 }
    }
}

impl DeterministicHost for CountingHost {
    open spec fn context(&self) -> LogicalContext {
        self@.context
    }

    open spec fn upcoming(&self, len: nat) -> Seq<u8> {
        counting_bytes(self@.next, len)
    }

    fn logical_context(&self) -> (ctx: LogicalContext) {
        self.ctx
    }

    fn fill_rng(&mut self, buf: &mut [u8])
        ensures
            final(self)@.next == (old(self)@.next + old(buf)@.len()) % 256,
    {
        let ghost start = self.next;
        let ghost len = buf@.len();
        let mut i: usize = 0;
        while i < buf.len()
            invariant
                i <= len,
                buf@.len() == len,
                self.ctx == old(self).ctx,
                self.next == (start + i) % 256,
                forall|j: int| 0 <= j < i ==> buf@[j] == ((start + j) % 256) as u8,
            decreases len - i,
        {
            buf[i] = self.next;
            self.next = if self.next == 255 {
                0
            } else {
                self.next + 1
            };
            i += 1;
        }
        assert(buf@ =~= counting_bytes(start, len));
    }
}

/// Hosts made for the same logical context yield the same bytes, request for
/// request, whatever lengths are asked for.
pub proof fn lemma_same_context_same_stream(
    a: DefaultDeterministicHost,
    b: DefaultDeterministicHost,
    logical_time: u64,
    rng_seed: u64,
    lens: Seq<nat>,
)
    requires
        a@ == HostState::initial(logical_time, rng_seed),
        b@ == HostState::initial(logical_time, rng_seed),
    ensures
        a.context() == b.context(),
        a@.outputs(lens) == b@.outputs(lens),
{
}

/// The generator key determines the logical context: two contexts with the
/// same key are the same context.
pub proof fn lemma_seed_determines_context(t1: u64, s1: u64, t2: u64, s2: u64)
    requires
        seed_bytes(t1, s1) == seed_bytes(t2, s2),
    ensures
        t1 == t2,
        s1 == s2,
{
    lemma_auto_spec_u64_to_from_le_bytes();
    let key = seed_bytes(t1, s1);
    assert(key.subrange(0, 8) =~= spec_u64_to_le_bytes(t1));
    assert(key.subrange(0, 8) =~= spec_u64_to_le_bytes(t2));
    assert(key.subrange(8, 16) =~= spec_u64_to_le_bytes(s1));
    assert(key.subrange(8, 16) =~= spec_u64_to_le_bytes(s2));
}

} // verus!
