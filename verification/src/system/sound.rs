//! The ring-buffered sound bridge between a decoder and the audio output.
//!
//! Disk-bound decoding has variable latency while the audio callback is
//! hard real-time and must never block, so the two sides meet in a bounded
//! single-producer/single-consumer queue of signed 16-bit PCM samples.  The
//! engine keeps the producer half full from a [`SampleSource`]; the device
//! polls the consumer half, which substitutes silence on under-run and
//! reports end of stream only once the producer is gone and the queue is
//! drained.
//!
//! The queue itself is the `rtrb` lock-free ring buffer, reached through
//! the trusted wrappers below.  Its two halves share hidden state across
//! threads, so each wrapper states only what holds of every outcome; the
//! producer side additionally tracks the number of pushes certain to
//! succeed, which the consumer can only increase.
use vstd::prelude::*;

verus! {

/// Number of samples a bridge holds by default: roughly 50 ms of
/// two-channel audio at a 44.1 kHz sample rate.
pub const BUFFER_CAPACITY: usize = 44100 / 20 * 2;

/// The recommended bridge capacity for a stream's format, in samples:
/// about 50 ms of audio.
pub open spec fn spec_recommended_capacity(sample_rate: u32, channels: u16) -> int {
    ((sample_rate as int + 19) / 20) * (channels as int)
}

/// Executable counterpart of [`spec_recommended_capacity`]:
/// `ceil(sample_rate / 20) * channels`.
pub fn recommended_capacity(sample_rate: u32, channels: u16) -> (n: usize)
    requires
        spec_recommended_capacity(sample_rate, channels) <= usize::MAX,
    ensures
        n as int == spec_recommended_capacity(sample_rate, channels),
{
    let per_channel: u64 = (sample_rate as u64 + 19) / 20;
    proof {
        assert(per_channel * (channels as u64) == spec_recommended_capacity(
            sample_rate,
            channels,
        ));
    }
    (per_channel * channels as u64) as usize
}

/// A pull-based source of signed 16-bit PCM samples: the decoder side of a
/// bridge.  `None` means end of stream.  The shell implements this for the
/// file decoder; [`MemorySource`] serves sounds already held in memory.
pub trait SampleSource {
    /// The samples this source has yet to yield, oldest first.
    spec fn upcoming(&self) -> Seq<i16>;

    /// The next decoded sample — the head of [`SampleSource::upcoming`] —
    /// or `None` exactly once nothing is left: end of stream.
    fn next_sample(&mut self) -> (r: Option<i16>)
        ensures
            match r {
                Option::Some(sample) => old(self).upcoming().len() > 0 && sample == old(
                    self,
                ).upcoming()[0] && final(self).upcoming() == old(self).upcoming().drop_first(),
                Option::None => old(self).upcoming().len() == 0 && final(self).upcoming() == old(
                    self,
                ).upcoming(),
            },
    ;
}

/// A sample source over samples already in memory, handed out front to
/// back.
pub struct MemorySource {
    samples: Vec<i16>,
    pos: usize,
}

impl MemorySource {
    /// A source that will hand out `samples`, first to last.
    pub fn new(samples: Vec<i16>) -> (s: MemorySource)
        ensures
            s.upcoming() == samples@,
    {
        let s = MemorySource { samples, pos: 0 };
        proof {
            assert(s.upcoming() =~= s.samples@);
        }
        s
    }
}

impl SampleSource for MemorySource {
    closed spec fn upcoming(&self) -> Seq<i16> {
        if self.pos <= self.samples.len() {
            self.samples@.skip(self.pos as int)
        } else {
            Seq::<i16>::empty()
        }
    }

    fn next_sample(&mut self) -> (r: Option<i16>) {
        if self.pos < self.samples.len() {
            let sample = self.samples[self.pos];
            self.pos = self.pos + 1;
            proof {
                assert(self.upcoming() =~= old(self).upcoming().drop_first());
            }
            Option::Some(sample)
        } else {
            Option::None
        }
    }
}

#[verifier::external_type_specification]
#[verifier::external_body]
#[verifier::reject_recursive_types(T)]
pub struct ExProducer<T>(rtrb::Producer<T>);

#[verifier::external_type_specification]
#[verifier::external_body]
#[verifier::reject_recursive_types(T)]
pub struct ExConsumer<T>(rtrb::Consumer<T>);

/// Every sample pushed through this producer so far, oldest first.
pub uninterp spec fn rb_pushed(p: rtrb::Producer<i16>) -> Seq<i16>;

/// How many pushes through this producer are certain to succeed: free
/// slots last observed, less pushes made since.  The consumer only frees
/// slots, so the true number can only be larger.
pub uninterp spec fn rb_free(p: rtrb::Producer<i16>) -> nat;

/// The consumer's terminal state: the producer half is gone and the queue
/// is drained, so no sample will ever come out again.
pub uninterp spec fn rb_drained(c: rtrb::Consumer<i16>) -> bool;

/// Relies on `rtrb::RingBuffer::new`: a fresh queue with the given
/// capacity; all `capacity` slots of its producer are free, nothing has
/// been pushed, and its consumer's producer half is alive.
#[verifier::external_body]
fn rb_new(capacity: usize) -> (pair: (rtrb::Producer<i16>, rtrb::Consumer<i16>))
    ensures
        rb_free(pair.0) == capacity,
        rb_pushed(pair.0) == Seq::<i16>::empty(),
        !rb_drained(pair.1),
{
    rtrb::RingBuffer::new(capacity)
}

/// Relies on `rtrb::Producer::slots`: the number of slots open for
/// writing.  Slots are freed only by the consumer, so that many pushes are
/// certain to succeed.
#[verifier::external_body]
fn rb_slots(p: &mut rtrb::Producer<i16>) -> (n: usize)
    ensures
        n == rb_free(*final(p)),
        rb_pushed(*final(p)) == rb_pushed(*old(p)),
{
    p.slots()
}

/// Relies on `rtrb::Producer::push`: with a free slot certain, the push
/// succeeds and appends the sample to the queue.
#[verifier::external_body]
fn rb_push(p: &mut rtrb::Producer<i16>, sample: i16)
    requires
        rb_free(*old(p)) > 0,
    ensures
        rb_free(*final(p)) == rb_free(*old(p)) - 1,
        rb_pushed(*final(p)) == rb_pushed(*old(p)).push(sample),
{
    let _ = p.push(sample);
}

/// Relies on `rtrb::Consumer::pop`: a waiting sample comes out and an
/// empty queue reports nothing, without ever blocking; a drained queue
/// with its producer gone yields nothing and stays that way.
#[verifier::external_body]
fn rb_pop(c: &mut rtrb::Consumer<i16>) -> (r: Option<i16>)
    ensures
        r is Some ==> !rb_drained(*old(c)),
        rb_drained(*old(c)) ==> rb_drained(*final(c)),
{
    match c.pop() {
        Ok(sample) => Option::Some(sample),
        Err(rtrb::PopError::Empty) => Option::None,
    }
}

/// Relies on `rtrb::Consumer::is_abandoned`: true only once the producer
/// half has been dropped, which is permanent.
#[verifier::external_body]
fn rb_is_abandoned(c: &mut rtrb::Consumer<i16>) -> (r: bool)
    ensures
        !r ==> !rb_drained(*old(c)),
        rb_drained(*old(c)) ==> rb_drained(*final(c)),
{
    c.is_abandoned()
}

/// Relies on `rtrb::Consumer::slots`: the number of samples now waiting to
/// be read; a drained queue has none.
#[verifier::external_body]
fn rb_read_slots(c: &mut rtrb::Consumer<i16>) -> (n: usize)
    ensures
        rb_drained(*old(c)) ==> n == 0 && rb_drained(*final(c)),
{
    c.slots()
}

/// What the consumer hands back when the queue had nothing: the zero
/// sample — silence — while the producer half is still alive, so an
/// under-run never blocks and never errors; `None`, end of stream, once
/// the producer is gone.
pub fn resolve_empty_queue(producer_gone: bool) -> (r: Option<i16>)
    ensures
        producer_gone ==> r is None,
        !producer_gone ==> r == Option::Some(0i16),
{
    if producer_gone {
        Option::None
    } else {
        Option::Some(0)
    }
}

/// Consumer part of the ring buffer: what the audio device polls.  Beside
/// the queue it carries the stream's channel count and sample rate,
/// captured once at construction from the decoder's reported format and
/// never changed.
pub struct SoundConsumer {
    buffer: rtrb::Consumer<i16>,
    channels: u16,
    sample_rate: u32,
}

impl SoundConsumer {
    /// The consumer's terminal state: the producer half is gone and the
    /// queue is drained.
    pub closed spec fn drained(self) -> bool {
        rb_drained(self.buffer)
    }

    /// The stream's channel count.
    pub closed spec fn spec_channels(self) -> u16 {
        self.channels
    }

    /// The stream's sample rate.
    pub closed spec fn spec_sample_rate(self) -> u32 {
        self.sample_rate
    }

    /// The next sample for the device, decided in order: a waiting sample
    /// comes out; on an empty queue whose producer is gone, `None` — end
    /// of stream, and every later call returns `None` again; otherwise
    /// silence, an under-run.  One failed pop and one flag read decide, so
    /// the call returns in bounded time whatever the producer side is
    /// doing; it never blocks and never errors.
    pub fn next(&mut self) -> (r: Option<i16>)
        ensures
            old(self).drained() ==> r is None && final(self).drained(),
            final(self).spec_channels() == old(self).spec_channels(),
            final(self).spec_sample_rate() == old(self).spec_sample_rate(),
    {
        match rb_pop(&mut self.buffer) {
            Option::Some(sample) => Option::Some(sample),
            Option::None => {
                let gone = rb_is_abandoned(&mut self.buffer);
                resolve_empty_queue(gone)
            },
        }
    }

    /// The stream's channel count, fixed for the bridge's lifetime.
    pub fn channels(&self) -> (c: u16)
        ensures
            c == self.spec_channels(),
    {
        self.channels
    }

    /// The stream's sample rate, fixed for the bridge's lifetime.
    pub fn sample_rate(&self) -> (r: u32)
        ensures
            r == self.spec_sample_rate(),
    {
        self.sample_rate
    }

    /// How many samples are waiting to be read right now.  The producer
    /// may add more at any time, so this is a snapshot, not a promise.
    pub fn available(&mut self) -> (n: usize)
        ensures
            old(self).drained() ==> n == 0 && final(self).drained(),
            final(self).spec_channels() == old(self).spec_channels(),
            final(self).spec_sample_rate() == old(self).spec_sample_rate(),
    {
        rb_read_slots(&mut self.buffer)
    }
}

/// Producer part of the ring buffer.  The user of the type is responsible
/// for keeping the queue full through [`SoundProducer::fill_buffer`].
pub struct SoundProducer<S> {
    /// Source of sound samples.
    reader: S,
    /// Ring buffer producer.
    buffer: rtrb::Producer<i16>,
}

impl<S: SampleSource> SoundProducer<S> {
    /// Every sample this producer has pushed into the queue, oldest first.
    pub closed spec fn pushed(self) -> Seq<i16> {
        rb_pushed(self.buffer)
    }

    /// How many pushes are certain to succeed without another look at the
    /// queue.
    pub closed spec fn free(self) -> nat {
        rb_free(self.buffer)
    }

    /// The samples the underlying reader has yet to yield.
    pub closed spec fn upcoming(self) -> Seq<i16> {
        self.reader.upcoming()
    }

    /// Pull up to `budget` samples from the reader and push each into the
    /// queue, in reader order: the queue receives exactly the next
    /// `min(budget, upcoming)` samples of the reader.  `true` is reported
    /// exactly when the reader ran dry during the call — it had fewer than
    /// `budget` samples left.  Never blocks, never allocates.
    pub fn fill_up_to(&mut self, budget: usize) -> (out_of_data: bool)
        requires
            budget <= old(self).free(),
        ensures
            final(self).pushed() == old(self).pushed() + old(self).upcoming().take(
                vstd::math::min(budget as int, old(self).upcoming().len() as int),
            ),
            final(self).upcoming() == old(self).upcoming().skip(
                vstd::math::min(budget as int, old(self).upcoming().len() as int),
            ),
            final(self).free() + final(self).pushed().len() == old(self).free() + old(
                self,
            ).pushed().len(),
            out_of_data <==> old(self).upcoming().len() < budget,
    {
        let mut wrote: usize = 0;
        proof {
            assert(self.pushed() =~= old(self).pushed() + old(self).upcoming().take(0));
            assert(self.upcoming() =~= old(self).upcoming().skip(0));
        }
        while wrote < budget
            invariant
                wrote <= budget,
                budget <= old(self).free(),
                wrote <= old(self).upcoming().len(),
                self.pushed() == old(self).pushed() + old(self).upcoming().take(wrote as int),
                self.upcoming() == old(self).upcoming().skip(wrote as int),
                self.free() + wrote == old(self).free(),
            decreases budget - wrote,
        {
            let ghost w0 = wrote as int;
            match self.reader.next_sample() {
                Option::Some(sample) => {
                    proof {
                        assert(self.free() > 0);
                        assert(sample == old(self).upcoming()[w0]);
                    }
                    rb_push(&mut self.buffer, sample);
                    wrote = wrote + 1;
                    proof {
                        assert(old(self).upcoming().take(w0 + 1) =~= old(self).upcoming().take(
                            w0,
                        ).push(old(self).upcoming()[w0]));
                        assert(self.pushed() =~= old(self).pushed() + old(self).upcoming().take(
                            w0 + 1,
                        ));
                        assert(self.upcoming() =~= old(self).upcoming().skip(w0 + 1));
                    }
                },
                Option::None => {
                    proof {
                        assert(old(self).upcoming().len() == w0);
                        assert(vstd::math::min(budget as int, old(self).upcoming().len() as int)
                            == w0);
                    }
                    return true;
                },
            }
        }
        proof {
            assert(vstd::math::min(budget as int, old(self).upcoming().len() as int)
                == budget as int);
        }
        false
    }

    /// Fill the free slots of the ring buffer with sound samples from the
    /// underlying reader: read how many slots are open, then pull at most
    /// that many, in reader order — what lands in the queue is exactly the
    /// next run of the reader's samples.  Returns `true` exactly when the
    /// reader ran out of data during the call — which is exactly when the
    /// queue is left with room to spare; on `false` the queue was filled
    /// completely.
    pub fn fill_buffer(&mut self) -> (out_of_data: bool)
        ensures
            final(self).pushed().len() >= old(self).pushed().len(),
            final(self).pushed() == old(self).pushed() + old(self).upcoming().take(
                final(self).pushed().len() - old(self).pushed().len(),
            ),
            final(self).upcoming() == old(self).upcoming().skip(
                final(self).pushed().len() - old(self).pushed().len(),
            ),
            out_of_data <==> final(self).free() > 0,
            out_of_data ==> final(self).upcoming().len() == 0,
    {
        let slots_available = rb_slots(&mut self.buffer);
        self.fill_up_to(slots_available)
    }
}

/// The two halves of a bridge around a fresh ring buffer of `capacity`
/// samples: a producer fed by `reader`, and a consumer that reports the
/// given stream format for the bridge's whole lifetime.
pub fn create_bridge<S: SampleSource>(
    reader: S,
    capacity: usize,
    channels: u16,
    sample_rate: u32,
) -> (bridge: (SoundProducer<S>, SoundConsumer))
    ensures
        bridge.0.pushed() == Seq::<i16>::empty(),
        bridge.0.free() == capacity,
        bridge.0.upcoming() == reader.upcoming(),
        !bridge.1.drained(),
        bridge.1.spec_channels() == channels,
        bridge.1.spec_sample_rate() == sample_rate,
{
    let (producer, consumer) = rb_new(capacity);
    let sound_producer = SoundProducer { reader, buffer: producer };
    let sound_consumer = SoundConsumer { buffer: consumer, channels, sample_rate };
    (sound_producer, sound_consumer)
}

} // verus!
