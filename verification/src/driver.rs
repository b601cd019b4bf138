//! The color-encoding drivers and the blocking write protocol.
//!
//! `Ws2812Direct` owns the configured transmit queue and, per `write` call,
//! packs each color into a wire word and pushes it; the hardware state
//! machine drains the queue autonomously, so a completed `write` only means
//! every word is queued, not that the strip has latched. `Ws2812` wraps it
//! together with a countdown timer and additionally waits, before each
//! write, until the queue has genuinely run dry (empty and stalled) and a
//! further 60 microseconds have passed — the protocol's mandatory
//! inter-frame latch gap.
//!
//! The queue and the countdown are modeled as the host observes them: the
//! queue records every word it accepts, in order, together with how many
//! the state machine has already shifted out, and the countdown carries the
//! elapsed time in microseconds. The hardware peripheral itself is an
//! external collaborator; binding these models to it is the embedding
//! program's concern.

use vstd::prelude::*;

use crate::color::ColorFormat;
use crate::divisor::clock_divisor;
use crate::divisor::ClockDivisor;
use crate::divisor::ConfigError;
use crate::program::led_program;
use crate::program::LedProgram;

verus! {

/// Microseconds of low line the protocol requires between frames before
/// the LED chain latches the shifted-in colors.
pub const LATCH_GAP_US: u64 = 60;

/// Microseconds one queued word occupies on the wire per 4 bits: a bit
/// cell is 1.25 us, so a word of `n` bits transmits in `n / 4 * 5` us.
pub const US_PER_4_BITS: u64 = 5;

/// The hardware transmit queue, as the host observes it.
///
/// `accepted` records every word the queue ever accepted, oldest first;
/// `transmitted` counts how many of them the state machine has already
/// pulled and shifted out. The stall flag is the hardware's report that
/// the state machine tried to pull from an empty queue — the only reliable
/// sign that transmission has genuinely finished.
pub struct TxQueue {
    accepted: Vec<u32>,
    transmitted: usize,
    stalled: bool,
}

impl TxQueue {
    /// Every word the queue has accepted, in the order the state machine
    /// transmits them.
    pub closed spec fn accepted_words(self) -> Seq<u32> {
        self.accepted@
    }

    /// How many accepted words the state machine has already shifted out.
    pub closed spec fn transmitted_count(self) -> int {
        self.transmitted as int
    }

    /// Whether the hardware has flagged a pull from an empty queue.
    pub closed spec fn is_stalled(self) -> bool {
        self.stalled
    }

    /// Words accepted but not yet shifted out.
    pub open spec fn pending(self) -> int {
        self.accepted_words().len() - self.transmitted_count()
    }

    /// The queue never transmits more than it accepted.
    pub closed spec fn wf(self) -> bool {
        self.transmitted <= self.accepted@.len()
    }

    /// An empty queue with no history and a clear stall flag.
    pub fn new() -> (q: TxQueue)
        ensures
            q.wf(),
            q.accepted_words() =~= Seq::<u32>::empty(),
            q.transmitted_count() == 0,
            !q.is_stalled(),
    {
        TxQueue { accepted: Vec::new(), transmitted: 0, stalled: false }
    }

    /// Push one word, blocking until the queue accepts it.
    ///
    /// A full queue stalls the caller, never drops the word: back-pressure
    /// is resolved by waiting for the state machine to free a slot, so the
    /// push always ends with the word appended to the accepted history.
    pub fn push_blocking(&mut self, word: u32)
        requires
            old(self).wf(),
        ensures
            final(self).wf(),
            final(self).accepted_words() =~= old(self).accepted_words().push(word),
            final(self).transmitted_count() >= old(self).transmitted_count(),
            final(self).is_stalled() == old(self).is_stalled(),
    {
        self.accepted.push(word);
    }

    /// True when no accepted word is still waiting to be pulled.
    pub fn is_empty(&self) -> (r: bool)
        requires
            self.wf(),
        ensures
            r == (self.pending() == 0),
    {
        self.transmitted == self.accepted.len()
    }

    /// Whether the state machine has reported pulling from an empty queue.
    pub fn has_stalled(&self) -> (r: bool)
        ensures
            r == self.is_stalled(),
    {
        self.stalled
    }

    /// Drop a stall report left over from earlier transmission.
    pub fn clear_stalled_flag(&mut self)
        requires
            old(self).wf(),
        ensures
            final(self).wf(),
            !final(self).is_stalled(),
            final(self).accepted_words() == old(self).accepted_words(),
            final(self).transmitted_count() == old(self).transmitted_count(),
    {
        self.stalled = false;
    }

    /// The state machine shifts out every pending word and then stalls on
    /// the empty queue. This is the hardware's autonomous progress, which
    /// the host's spin loop merely waits out; it returns how many words
    /// went out so the caller can account for the elapsed wire time.
    pub fn drain_to_stall(&mut self) -> (n: usize)
        requires
            old(self).wf(),
        ensures
            final(self).wf(),
            n == old(self).pending(),
            final(self).accepted_words() == old(self).accepted_words(),
            final(self).pending() == 0,
            final(self).is_stalled(),
    {
        let n = self.accepted.len() - self.transmitted;
        self.transmitted = self.accepted.len();
        self.stalled = true;
        n
    }
}

/// The countdown timer resource the gated driver owns, carrying the model
/// clock: microseconds elapsed since the driver was constructed.
pub struct CountDownTimer {
    now_us: u64,
}

impl CountDownTimer {
    /// Microseconds elapsed so far.
    pub closed spec fn now_us(self) -> u64 {
        self.now_us
    }

    /// A timer that has measured nothing yet.
    pub fn new() -> (t: CountDownTimer)
        ensures
            t.now_us() == 0,
    {
        CountDownTimer { now_us: 0 }
    }

    /// Start a countdown of `us` microseconds and block until it expires.
    pub fn start_and_wait(&mut self, us: u64)
        requires
            old(self).now_us() + us <= u64::MAX,
        ensures
            final(self).now_us() == old(self).now_us() + us,
    {
        self.now_us = self.now_us + us;
    }

    /// Account for `us` microseconds that passed while the caller was
    /// spinning on a hardware condition.
    pub fn elapse(&mut self, us: u64)
        requires
            old(self).now_us() + us <= u64::MAX,
        ensures
            final(self).now_us() == old(self).now_us() + us,
    {
        self.now_us = self.now_us + us;
    }

    /// Read the elapsed time.
    pub fn now(&self) -> (r: u64)
        ensures
            r == self.now_us(),
    {
        self.now_us
    }
}

/// The raw driver: the installed micro-program, the configured clock
/// divisor, and the exclusively owned transmit queue of one state-machine
/// slot. Its `write` only queues words; the caller must keep the 60 us
/// inter-frame gap itself, or use [`Ws2812`].
pub struct Ws2812Direct<CF: ColorFormat> {
    tx: TxQueue,
    divisor: ClockDivisor,
    program: LedProgram,
    pull_threshold: u8,
    _color_format: core::marker::PhantomData<CF>,
}

impl<CF: ColorFormat> Ws2812Direct<CF> {
    /// The queue's accepted-word history.
    pub closed spec fn queued_words(self) -> Seq<u32> {
        self.tx.accepted_words()
    }

    /// Words queued and not yet shifted out.
    pub closed spec fn pending_words(self) -> int {
        self.tx.pending()
    }

    /// Whether the queue has reported a stall.
    pub closed spec fn queue_stalled(self) -> bool {
        self.tx.is_stalled()
    }

    /// The divisor the driver configured at construction.
    pub closed spec fn divisor(self) -> ClockDivisor {
        self.divisor
    }

    /// The micro-program the driver installed at construction.
    pub closed spec fn program(self) -> LedProgram {
        self.program
    }

    /// The shift-register pull threshold configured at construction: the
    /// bit count after which the hardware auto-refills from the queue.
    pub closed spec fn pull_threshold(self) -> u8 {
        self.pull_threshold
    }

    /// The driver's invariant: its queue is well formed.
    pub closed spec fn wf(self) -> bool {
        self.tx.wf()
    }

    /// The words a color sequence encodes to, in order.
    pub open spec fn words_of(colors: Seq<CF>) -> Seq<u32> {
        colors.map_values(|c: CF| c.word_spec())
    }

    /// Builds a driver for any color format: synthesizes and installs the
    /// micro-program once, computes and configures the fixed-point clock
    /// divisor once, and starts with an empty transmit queue. Fails exactly
    /// when the divisor is unrepresentable, i.e. when the system clock is
    /// below the program clock.
    fn new_generic(system_clock_hz: u32) -> (r: Result<Self, ConfigError>)
        ensures
            match r {
                Ok(d) => {
                    &&& d.wf()
                    &&& system_clock_hz >= crate::divisor::PROGRAM_CLOCK_HZ
                    &&& d.divisor().int_value() == system_clock_hz as int
                        / crate::divisor::PROGRAM_CLOCK_HZ as int
                    &&& d.divisor().frac as int == (system_clock_hz as int
                        % crate::divisor::PROGRAM_CLOCK_HZ as int) * 256
                        / crate::divisor::PROGRAM_CLOCK_HZ as int
                    &&& d.program().ops@ =~= crate::program::spec_led_ops()
                    &&& d.pull_threshold() == CF::bytes_spec().spec_num_bits()
                    &&& d.queued_words() =~= Seq::<u32>::empty()
                    &&& d.pending_words() == 0
                },
                Err(e) => {
                    &&& e == ConfigError::DivisorOutOfRange
                    &&& system_clock_hz < crate::divisor::PROGRAM_CLOCK_HZ
                },
            },
    {
        let program = led_program();
        let divisor = match clock_divisor(system_clock_hz) {
            Ok(d) => d,
            Err(e) => {
                return Err(e);
            },
        };
        let pull_threshold = CF::color_bytes().num_bits();
        Ok(
            Ws2812Direct {
                tx: TxQueue::new(),
                divisor,
                program,
                pull_threshold,
                _color_format: core::marker::PhantomData,
            },
        )
    }

    /// Packs each color into its wire word and pushes it into the transmit
    /// queue, in input order, blocking on a full queue rather than dropping
    /// data. Success only means every word is queued for transmission.
    pub fn write(&mut self, colors: &Vec<CF>) -> (r: Result<(), ()>)
        requires
            old(self).wf(),
        ensures
            final(self).wf(),
            r == Ok::<(), ()>(()),
            final(self).queued_words() =~= old(self).queued_words() + Self::words_of(
                colors@,
            ),
            final(self).divisor() == old(self).divisor(),
            final(self).program() == old(self).program(),
            final(self).pull_threshold() == old(self).pull_threshold(),
            final(self).queue_stalled() == old(self).queue_stalled(),
            final(self).pending_words() <= old(self).pending_words() + colors@.len(),
    {
        let mut i: usize = 0;
        while i < colors.len()
            invariant
                self.wf(),
                i <= colors@.len(),
                self.queued_words() =~= old(self).queued_words() + Self::words_of(
                    colors@.take(i as int),
                ),
                self.divisor() == old(self).divisor(),
                self.program() == old(self).program(),
                self.pull_threshold() == old(self).pull_threshold(),
                self.queue_stalled() == old(self).queue_stalled(),
                self.pending_words() <= old(self).pending_words() + i,
            decreases colors@.len() - i,
        {
            let word = colors[i].to_word();
            self.tx.push_blocking(word);
            proof {
                assert(colors@.take(i + 1).map_values(|c: CF| c.word_spec()) =~= colors@.take(
                    i as int,
                ).map_values(|c: CF| c.word_spec()).push(colors@[i as int].word_spec()));
            }
            i = i + 1;
        }
        proof {
            assert(colors@.take(colors@.len() as int) =~= colors@);
        }
        Ok(())
    }
}

/// The index-wise reading of [`Ws2812Direct::words_of`]: encoding a color
/// sequence keeps its length and order, so the queue receives exactly the
/// word of color `i` at position `i`.
pub proof fn lemma_words_preserve_order<CF: ColorFormat>(colors: Seq<CF>)
    ensures
        Ws2812Direct::<CF>::words_of(colors).len() == colors.len(),
        forall|i: int|
            0 <= i < colors.len() ==> Ws2812Direct::<CF>::words_of(colors)[i] == colors[i]
                .word_spec(),
{
}

impl Ws2812Direct<crate::color::Rgb8> {
    /// Creates a new instance of this driver for 3-byte RGB devices.
    pub fn new(system_clock_hz: u32) -> (r: Result<Self, ConfigError>)
        ensures
            r is Ok <==> system_clock_hz >= crate::divisor::PROGRAM_CLOCK_HZ,
            match r {
                Ok(d) => {
                    &&& d.wf()
                    &&& d.divisor().int_value() == system_clock_hz as int
                        / crate::divisor::PROGRAM_CLOCK_HZ as int
                    &&& d.divisor().frac as int == (system_clock_hz as int
                        % crate::divisor::PROGRAM_CLOCK_HZ as int) * 256
                        / crate::divisor::PROGRAM_CLOCK_HZ as int
                    &&& d.program().ops@ =~= crate::program::spec_led_ops()
                    &&& d.pull_threshold() == 24
                    &&& d.queued_words() =~= Seq::<u32>::empty()
                    &&& d.pending_words() == 0
                },
                Err(e) => e == ConfigError::DivisorOutOfRange,
            },
    {
        Self::new_generic(system_clock_hz)
    }
}

impl Ws2812Direct<crate::color::Rgbw8> {
    /// Creates a new instance of this driver for 4-byte RGBW devices.
    pub fn new_sk6218(system_clock_hz: u32) -> (r: Result<Self, ConfigError>)
        ensures
            r is Ok <==> system_clock_hz >= crate::divisor::PROGRAM_CLOCK_HZ,
            match r {
                Ok(d) => {
                    &&& d.wf()
                    &&& d.divisor().int_value() == system_clock_hz as int
                        / crate::divisor::PROGRAM_CLOCK_HZ as int
                    &&& d.divisor().frac as int == (system_clock_hz as int
                        % crate::divisor::PROGRAM_CLOCK_HZ as int) * 256
                        / crate::divisor::PROGRAM_CLOCK_HZ as int
                    &&& d.program().ops@ =~= crate::program::spec_led_ops()
                    &&& d.pull_threshold() == 32
                    &&& d.queued_words() =~= Seq::<u32>::empty()
                    &&& d.pending_words() == 0
                },
                Err(e) => e == ConfigError::DivisorOutOfRange,
            },
    {
        Self::new_generic(system_clock_hz)
    }
}

impl<CF: ColorFormat> Ws2812Direct<CF> {
    /// How many words the queue has accepted since construction.
    pub fn queued_word_count(&self) -> (n: usize)
        requires
            self.wf(),
        ensures
            n == self.queued_words().len(),
    {
        self.tx.accepted.len()
    }

    /// The `i`-th word the queue accepted, in transmission order.
    pub fn queued_word(&self, i: usize) -> (w: u32)
        requires
            self.wf(),
            i < self.queued_words().len(),
        ensures
            w == self.queued_words()[i as int],
    {
        self.tx.accepted[i]
    }

    /// How many queued words the state machine has not yet shifted out.
    pub fn pending_word_count(&self) -> (n: usize)
        requires
            self.wf(),
        ensures
            n == self.pending_words(),
    {
        self.tx.accepted.len() - self.tx.transmitted
    }
}

/// The blocking driver: wraps [`Ws2812Direct`] together with an exclusively
/// owned countdown timer and enforces the inter-frame latch gap itself.
/// Before each write it waits until the queue has genuinely run dry — empty
/// and stalled, not merely drained into the shift register — and then for
/// [`LATCH_GAP_US`] more microseconds, so the LED chain latches the previous
/// frame before the next one begins.
pub struct Ws2812<CF: ColorFormat> {
    driver: Ws2812Direct<CF>,
    cd: CountDownTimer,
    last_drained_at_us: u64,
    last_write_began_at_us: u64,
}

impl<CF: ColorFormat> Ws2812<CF> {
    /// The queue's accepted-word history.
    pub closed spec fn queued_words(self) -> Seq<u32> {
        self.driver.queued_words()
    }

    /// Words queued and not yet shifted out.
    pub closed spec fn pending_words(self) -> int {
        self.driver.pending_words()
    }

    /// The divisor configured at construction.
    pub closed spec fn divisor(self) -> ClockDivisor {
        self.driver.divisor()
    }

    /// The micro-program installed at construction.
    pub closed spec fn program(self) -> LedProgram {
        self.driver.program()
    }

    /// The shift-register pull threshold configured at construction.
    pub closed spec fn pull_threshold(self) -> u8 {
        self.driver.pull_threshold()
    }

    /// The timer's elapsed microseconds.
    pub closed spec fn now_us(self) -> u64 {
        self.cd.now_us()
    }

    /// When, on the timer, the queue was last observed empty and stalled.
    pub closed spec fn last_drained_at(self) -> u64 {
        self.last_drained_at_us
    }

    /// When, on the timer, the last write began pushing words.
    pub closed spec fn last_write_began_at(self) -> u64 {
        self.last_write_began_at_us
    }

    /// The gated driver's invariant: the wrapped driver is well formed.
    pub closed spec fn wf(self) -> bool {
        self.driver.wf()
    }

    /// Packs and queues the colors like [`Ws2812Direct::write`], but first
    /// clears any stale stall report, waits until the queue is empty and
    /// has stalled (the state machine genuinely ran dry), and then holds
    /// off for [`LATCH_GAP_US`] microseconds on the owned countdown. The
    /// pushes of this call therefore begin at least the latch gap after
    /// the previous frame's transmission ended.
    pub fn write(&mut self, colors: &Vec<CF>) -> (r: Result<(), ()>)
        requires
            old(self).wf(),
            old(self).now_us() + old(self).pending_words() * 8 * US_PER_4_BITS
                + LATCH_GAP_US <= u64::MAX,
        ensures
            final(self).wf(),
            r == Ok::<(), ()>(()),
            final(self).queued_words() =~= old(self).queued_words()
                + Ws2812Direct::<CF>::words_of(colors@),
            final(self).divisor() == old(self).divisor(),
            final(self).program() == old(self).program(),
            final(self).pull_threshold() == old(self).pull_threshold(),
            final(self).pending_words() <= colors@.len(),
            final(self).last_drained_at() >= old(self).now_us(),
            final(self).last_write_began_at() >= final(self).last_drained_at()
                + LATCH_GAP_US,
            final(self).now_us() == final(self).last_write_began_at(),
    {
        self.driver.tx.clear_stalled_flag();
        // One word occupies num_bits / 4 * 5 microseconds on the wire; both
        // formats' bit counts are multiples of 4, so this is exact.
        let bits = CF::color_bytes().num_bits();
        let word_us: u64 = (bits as u64) / 4 * US_PER_4_BITS;
        // A word never exceeds 32 bits, i.e. eight 4-bit groups.
        assert(word_us <= 8 * US_PER_4_BITS);
        // Spin until the state machine has pulled and shifted out every
        // pending word and reports the stall; the wire time of those words
        // is what the spin waited out.
        let drained = self.driver.tx.drain_to_stall();
        proof {
            assert((drained as int) * (word_us as int) <= (drained as int) * (8
                * US_PER_4_BITS as int)) by (nonlinear_arith)
                requires
                    word_us <= 8 * US_PER_4_BITS as int,
                    drained >= 0,
            ;
        }
        self.cd.elapse((drained as u64) * word_us);
        self.last_drained_at_us = self.cd.now();
        // The mandatory inter-frame gap: the line stays low for the full
        // countdown before any new word is queued.
        self.cd.start_and_wait(LATCH_GAP_US);
        self.last_write_began_at_us = self.cd.now();
        self.driver.write(colors)
    }
}

impl Ws2812<crate::color::Rgb8> {
    /// Creates a new instance of this driver for 3-byte RGB devices,
    /// taking ownership of the countdown timer that measures latch gaps.
    pub fn new(system_clock_hz: u32, cd: CountDownTimer) -> (r: Result<Self, ConfigError>)
        ensures
            r is Ok <==> system_clock_hz >= crate::divisor::PROGRAM_CLOCK_HZ,
            match r {
                Ok(d) => {
                    &&& d.wf()
                    &&& d.divisor().int_value() == system_clock_hz as int
                        / crate::divisor::PROGRAM_CLOCK_HZ as int
                    &&& d.divisor().frac as int == (system_clock_hz as int
                        % crate::divisor::PROGRAM_CLOCK_HZ as int) * 256
                        / crate::divisor::PROGRAM_CLOCK_HZ as int
                    &&& d.program().ops@ =~= crate::program::spec_led_ops()
                    &&& d.pull_threshold() == 24
                    &&& d.queued_words() =~= Seq::<u32>::empty()
                    &&& d.pending_words() == 0
                    &&& d.now_us() == cd.now_us()
                },
                Err(e) => e == ConfigError::DivisorOutOfRange,
            },
    {
        let driver = match Ws2812Direct::<crate::color::Rgb8>::new(system_clock_hz) {
            Ok(d) => d,
            Err(e) => {
                return Err(e);
            },
        };
        Ok(Ws2812 { driver, cd, last_drained_at_us: 0, last_write_began_at_us: 0 })
    }
}

impl Ws2812<crate::color::Rgbw8> {
    /// Creates a new instance of this driver for 4-byte SK6812 RGBW
    /// devices, taking ownership of the countdown timer.
    pub fn new_sk6812(system_clock_hz: u32, cd: CountDownTimer) -> (r: Result<
        Self,
        ConfigError,
    >)
        ensures
            r is Ok <==> system_clock_hz >= crate::divisor::PROGRAM_CLOCK_HZ,
            match r {
                Ok(d) => {
                    &&& d.wf()
                    &&& d.divisor().int_value() == system_clock_hz as int
                        / crate::divisor::PROGRAM_CLOCK_HZ as int
                    &&& d.divisor().frac as int == (system_clock_hz as int
                        % crate::divisor::PROGRAM_CLOCK_HZ as int) * 256
                        / crate::divisor::PROGRAM_CLOCK_HZ as int
                    &&& d.program().ops@ =~= crate::program::spec_led_ops()
                    &&& d.pull_threshold() == 32
                    &&& d.queued_words() =~= Seq::<u32>::empty()
                    &&& d.pending_words() == 0
                    &&& d.now_us() == cd.now_us()
                },
                Err(e) => e == ConfigError::DivisorOutOfRange,
            },
    {
        let driver = match Ws2812Direct::<crate::color::Rgbw8>::new_sk6218(system_clock_hz) {
            Ok(d) => d,
            Err(e) => {
                return Err(e);
            },
        };
        Ok(Ws2812 { driver, cd, last_drained_at_us: 0, last_write_began_at_us: 0 })
    }
}

impl<CF: ColorFormat> Ws2812<CF> {
    /// How many words the queue has accepted since construction.
    pub fn queued_word_count(&self) -> (n: usize)
        requires
            self.wf(),
        ensures
            n == self.queued_words().len(),
    {
        self.driver.queued_word_count()
    }

    /// The `i`-th word the queue accepted, in transmission order.
    pub fn queued_word(&self, i: usize) -> (w: u32)
        requires
            self.wf(),
            i < self.queued_words().len(),
        ensures
            w == self.queued_words()[i as int],
    {
        self.driver.queued_word(i)
    }

    /// The timer reading when the queue was last observed drained.
    pub fn last_drained_at_micros(&self) -> (r: u64)
        ensures
            r == self.last_drained_at(),
    {
        self.last_drained_at_us
    }

    /// The timer reading when the last write began queuing words.
    pub fn last_write_began_at_micros(&self) -> (r: u64)
        ensures
            r == self.last_write_began_at(),
    {
        self.last_write_began_at_us
    }

    /// The timer's elapsed microseconds.
    pub fn elapsed_micros(&self) -> (r: u64)
        ensures
            r == self.now_us(),
    {
        self.cd.now()
    }
}

} // verus!
