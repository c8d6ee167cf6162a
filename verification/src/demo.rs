//! The synthetic frame source: frames without a bus.
//!
//! A [`Reader`] holds a pseudo-random generator and a pool of identifiers
//! drawn from it when the reader is made. Each frame is one identifier of
//! the pool with a payload of a few drawn bytes, and comes after a drawn
//! delay. Nothing but the seed decides what a reader returns: two readers
//! made from the same seed return the same delays and frames.

use vstd::prelude::*;
use crate::frame::{Frame, FrameView};
use crate::prng::{rand_range, rand_u32, seeded, Generator};

verus! {

/// The seed of [`Reader::new`].
pub const DEFAULT_SEED: u64 = 0;

/// The least size of the pool of identifiers.
pub const MIN_IDS: u32 = 8;

/// The size that the pool of identifiers stays below.
pub const MAX_IDS: u32 = 16;

/// The least delay before a frame, in milliseconds.
pub const MIN_DELAY: u32 = 1;

/// The delay before a frame stays below this many milliseconds.
pub const MAX_DELAY: u32 = 100;

/// The least length of a payload.
pub const MIN_DATA: u32 = 1;

/// The length of a payload stays below this.
pub const MAX_DATA: u32 = 8;

/// The byte that a drawn number gives: its lowest eight bits.
pub open spec fn low_byte(word: u32) -> u8 {
    (word & 0xFF) as u8
}

/// The next `n` numbers of the generator, in the order drawn, and the
/// generator after them.
pub open spec fn spec_words(prng: Generator, n: nat) -> (Seq<u32>, Generator)
    decreases n,
{
    if n == 0 {
        (Seq::empty(), prng)
    } else {
        let (words, before) = spec_words(prng, (n - 1) as nat);
        let (word, after) = before.spec_u32();
        (words.push(word), after)
    }
}

/// A pool of identifiers: a drawn size, and that many drawn numbers.
pub open spec fn spec_ids(prng: Generator) -> (Seq<u32>, Generator) {
    let (n, after) = prng.spec_range(MIN_IDS, MAX_IDS);
    spec_words(after, n as nat)
}

/// The payload that drawn numbers give: the lowest byte of each.
pub open spec fn spec_payload(words: Seq<u32>) -> Seq<u8> {
    Seq::new(words.len(), |i: int| low_byte(words[i]))
}

/// A payload: a drawn length, and the lowest bytes of that many drawn
/// numbers.
pub open spec fn spec_data(prng: Generator) -> (Seq<u8>, Generator) {
    let (n, after) = prng.spec_range(MIN_DATA, MAX_DATA);
    let (words, last) = spec_words(after, n as nat);
    (spec_payload(words), last)
}

/// What a [`Reader`] holds, as mathematical values.
pub struct ReaderView {
    /// The generator, as it stands before the next draw.
    pub prng: Generator,
    /// The pool of identifiers.
    pub ids: Seq<u32>,
}

impl ReaderView {
    /// The reader made from `seed`.
    pub open spec fn seeded(seed: u64) -> ReaderView {
        let (ids, prng) = spec_ids(Generator::spec_new(seed));
        ReaderView { prng, ids }
    }

    /// Milliseconds to wait before the next frame.
    pub open spec fn delay(self) -> u64 {
        self.prng.spec_range(MIN_DELAY, MAX_DELAY).0 as u64
    }

    /// The next frame, and the reader after it. The draws are made in this
    /// order: the delay, the place of the identifier in the pool, the
    /// payload.
    pub open spec fn read(self) -> (FrameView, ReaderView) {
        let (delay, first) = self.prng.spec_range(MIN_DELAY, MAX_DELAY);
        let (index, second) = first.spec_range(0, self.ids.len() as u32);
        let (data, third) = spec_data(second);
        (FrameView { id: self.ids[index as int], data }, ReaderView { prng: third, ids: self.ids })
    }

    /// What holds of every reader: the pool has at least [`MIN_IDS`]
    /// identifiers and fewer than [`MAX_IDS`], and the generator can draw
    /// from a range.
    pub open spec fn wf(self) -> bool {
        &&& MIN_IDS <= self.ids.len() < MAX_IDS
        &&& self.prng.wf()
    }
}

/// The synthetic frame source.
#[derive(Debug)]
pub struct Reader {
    prng: Generator,
    ids: Vec<u32>,
}

impl View for Reader {
    type V = ReaderView;

    closed spec fn view(&self) -> ReaderView {
        ReaderView { prng: self.prng, ids: self.ids@ }
    }
}

/// Drawn numbers have the length asked for, and drawing them leaves the
/// generator's increment as it was.
pub proof fn lemma_words(prng: Generator, n: nat)
    ensures
        spec_words(prng, n).0.len() == n,
        spec_words(prng, n).1.inc == prng.inc,
    decreases n,
{
    if n > 0 {
        lemma_words(prng, (n - 1) as nat);
    }
}

/// Reading a frame leaves the synthetic reader well-formed, with the pool
/// it had.
pub proof fn law_read_keeps_wf(reader: ReaderView)
    requires
        reader.wf(),
    ensures
        reader.read().1.wf(),
        reader.read().1.ids == reader.ids,
{
    let first = reader.prng.spec_range(MIN_DELAY, MAX_DELAY).1;
    let second = first.spec_range(0, reader.ids.len() as u32).1;
    let third = second.spec_range(MIN_DATA, MAX_DATA);
    lemma_words(third.1, third.0 as nat);
}

/// Draws `n` numbers.
fn draw_words(prng: &mut Generator, n: u32) -> (words: Vec<u32>)
    ensures
        (words@, *final(prng)) == spec_words(*old(prng), n as nat),
        words@.len() == n,
        final(prng).inc == old(prng).inc,
{
    let mut words: Vec<u32> = Vec::new();
    let mut i: u32 = 0;
    while i < n
        invariant
            i <= n,
            (words@, *prng) == spec_words(*old(prng), i as nat),
            words@.len() == i,
            prng.inc == old(prng).inc,
        decreases n - i,
    {
        let word: u32 = rand_u32(prng);
        words.push(word);
        i = i + 1;
    }
    words
}

/// The payload that drawn numbers give: the lowest byte of each, in the
/// same order.
pub fn payload_of(words: &Vec<u32>) -> (data: Vec<u8>)
    ensures
        data@ == spec_payload(words@),
{
    let mut data: Vec<u8> = Vec::new();
    let mut i: usize = 0;
    while i < words.len()
        invariant
            i <= words.len(),
            data@.len() == i,
            forall|k: int| 0 <= k < i ==> data@[k] == low_byte(words@[k]),
        decreases words.len() - i,
    {
        let word: u32 = words[i];
        assert(word & 0xFF <= 0xFF) by (bit_vector);
        data.push((word & 0xFF) as u8);
        i = i + 1;
    }
    assert(data@ =~= spec_payload(words@));
    data
}

/// Draws the pool of identifiers.
fn generate_ids(prng: &mut Generator) -> (ids: Vec<u32>)
    requires
        old(prng).wf(),
    ensures
        (ids@, *final(prng)) == spec_ids(*old(prng)),
        MIN_IDS <= ids@.len() < MAX_IDS,
        final(prng).wf(),
{
    let n: u32 = rand_range(prng, MIN_IDS, MAX_IDS);
    draw_words(prng, n)
}

/// Draws a payload.
fn generate_data(prng: &mut Generator) -> (data: Vec<u8>)
    requires
        old(prng).wf(),
    ensures
        (data@, *final(prng)) == spec_data(*old(prng)),
        MIN_DATA <= data@.len() < MAX_DATA,
        final(prng).wf(),
{
    let n: u32 = rand_range(prng, MIN_DATA, MAX_DATA);
    let words: Vec<u32> = draw_words(prng, n);
    payload_of(&words)
}

impl Reader {
    /// Whether the reader's values fit together: see [`ReaderView::wf`].
    pub open spec fn wf(&self) -> bool {
        self@.wf()
    }

    /// The reader made from [`DEFAULT_SEED`].
    pub fn new() -> (reader: Reader)
        ensures
            reader.wf(),
            reader@ == ReaderView::seeded(DEFAULT_SEED),
    {
        Reader::with_seed(DEFAULT_SEED)
    }

    /// The reader made from `seed`: a generator made from the seed, and a
    /// pool of identifiers drawn from it.
    pub fn with_seed(seed: u64) -> (reader: Reader)
        ensures
            reader.wf(),
            reader@ == ReaderView::seeded(seed),
    {
        let mut prng: Generator = seeded(seed);
        let ids: Vec<u32> = generate_ids(&mut prng);
        Reader { prng, ids }
    }

    /// The pool of identifiers.
    pub fn ids(&self) -> (ids: &[u32])
        ensures
            ids@ == self@.ids,
    {
        self.ids.as_slice()
    }

    /// Milliseconds to wait before the next frame. The reader stays as it
    /// is: asked again, it answers the same.
    pub fn delay(&self) -> (millis: u64)
        requires
            self.wf(),
        ensures
            millis == self@.delay(),
            MIN_DELAY <= millis < MAX_DELAY,
    {
        let mut prng: Generator = self.prng;
        let delay: u32 = rand_range(&mut prng, MIN_DELAY, MAX_DELAY);
        delay as u64
    }

    /// The next frame: an identifier of the pool and a payload of at least
    /// [`MIN_DATA`] and fewer than [`MAX_DATA`] bytes. The pool stays as it
    /// is. The frame is due [`Reader::delay`] milliseconds after the call
    /// before.
    pub fn read(&mut self) -> (frame: Frame)
        requires
            old(self).wf(),
        ensures
            final(self).wf(),
            (frame@, final(self)@) == old(self)@.read(),
            final(self)@.ids == old(self)@.ids,
            old(self)@.ids.contains(frame@.id),
            MIN_DATA <= frame@.data.len() < MAX_DATA,
    {
        // The delay is what `delay` has told; drawing it moves the generator
        // on to the draws of the frame.
        let _delay: u32 = rand_range(&mut self.prng, MIN_DELAY, MAX_DELAY);
        let rand_id_index: usize = rand_range(&mut self.prng, 0, self.ids.len() as u32) as usize;
        let id: u32 = self.ids[rand_id_index];
        let data: Vec<u8> = generate_data(&mut self.prng);
        Frame::new(id, data)
    }
}

} // verus!
