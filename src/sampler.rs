use vstd::prelude::*;

verus! {

/// How many bars the visualization has.
pub const LEVEL_COUNT: usize = 10;

/// Levels run from zero up to, not including, this bound.
pub const LEVEL_SPAN: u8 = 10;

/// The level that one byte of entropy gives.
pub open spec fn level_of(b: u8) -> u8 {
    (b % LEVEL_SPAN) as u8
}

/// All bars at zero, as shown whenever nothing plays.
pub open spec fn silent() -> Seq<u8> {
    Seq::new(LEVEL_COUNT as nat, |i: int| 0u8)
}

/// The bars that a sample of `entropy` draws: one level per leading byte.
pub open spec fn sampled(entropy: Seq<u8>) -> Seq<u8> {
    Seq::new(LEVEL_COUNT as nat, |i: int| level_of(entropy[i]))
}

/// What the sampler does on one tick.
#[derive(Debug, Clone, Copy, PartialEq, Eq, Structural)]
pub enum SamplerStep {
    /// Draw fresh levels.
    Sample,
    /// Keep the levels as they are.
    Hold,
    /// Zero the levels and end the loop.
    Finish,
}

/// The sampler's decision on a tick: it ends once the play process has
/// exited or a stop was requested, holds while playback is paused, and
/// samples otherwise.
pub open spec fn step_for(live: bool, paused: bool, stopping: bool) -> SamplerStep {
    if stopping || !live {
        SamplerStep::Finish
    } else if paused {
        SamplerStep::Hold
    } else {
        SamplerStep::Sample
    }
}

pub fn sampler_step(live: bool, paused: bool, stopping: bool) -> (r: SamplerStep)
    ensures
        r == step_for(live, paused, stopping),
{
    if stopping || !live {
        SamplerStep::Finish
    } else if paused {
        SamplerStep::Hold
    } else {
        SamplerStep::Sample
    }
}

/// The levels after a tick that took `step`, with `entropy` drawn.
pub open spec fn levels_after(levels: Seq<u8>, step: SamplerStep, entropy: Seq<u8>) -> Seq<u8> {
    match step {
        SamplerStep::Sample => sampled(entropy),
        SamplerStep::Hold => levels,
        SamplerStep::Finish => silent(),
    }
}

/// The visualization buffer: a fixed number of bars, each a level below
/// `LEVEL_SPAN`.
pub struct Levels {
    bars: Vec<u8>,
}

impl View for Levels {
    type V = Seq<u8>;

    closed spec fn view(&self) -> Seq<u8> {
        self.bars@
    }
}

impl Levels {
    pub open spec fn wf(&self) -> bool {
        &&& self@.len() == LEVEL_COUNT
        &&& forall|i: int| 0 <= i < self@.len() ==> #[trigger] self@[i] < LEVEL_SPAN
    }

    /// A buffer with every bar at zero.
    pub fn new() -> (r: Levels)
        ensures
            r@ == silent(),
            r.wf(),
    {
        let mut bars: Vec<u8> = Vec::new();
        let mut i: usize = 0;
        while i < LEVEL_COUNT
            invariant
                i <= LEVEL_COUNT,
                bars@ == Seq::new(i as nat, |j: int| 0u8),
            decreases LEVEL_COUNT - i,
        {
            bars.push(0);
            i = i + 1;
        }
        Levels { bars }
    }

    /// Overwrites every bar with the level of the matching byte of `entropy`.
    pub fn sample(&mut self, entropy: &[u8])
        requires
            old(self).wf(),
            entropy@.len() >= LEVEL_COUNT,
        ensures
            final(self)@ == sampled(entropy@),
            final(self).wf(),
    {
        let mut i: usize = 0;
        while i < LEVEL_COUNT
            invariant
                i <= LEVEL_COUNT,
                entropy@.len() >= LEVEL_COUNT,
                self.bars@.len() == LEVEL_COUNT,
                forall|j: int| 0 <= j < i ==> self.bars@[j] == level_of(entropy@[j]),
            decreases LEVEL_COUNT - i,
        {
            self.bars.set(i, entropy[i] % LEVEL_SPAN);
            i = i + 1;
        }
        assert(self@ =~= sampled(entropy@));
    }

    /// Puts every bar back to zero.
    pub fn reset(&mut self)
        requires
            old(self).wf(),
        ensures
            final(self)@ == silent(),
            final(self).wf(),
    {
        let mut i: usize = 0;
        while i < LEVEL_COUNT
            invariant
                i <= LEVEL_COUNT,
                self.bars@.len() == LEVEL_COUNT,
                forall|j: int| 0 <= j < i ==> self.bars@[j] == 0,
            decreases LEVEL_COUNT - i,
        {
            self.bars.set(i, 0);
            i = i + 1;
        }
        assert(self@ =~= silent());
    }

    /// Carries out one tick of the sampler that decided `step`, with
    /// `entropy` freshly drawn.
    pub fn apply(&mut self, step: SamplerStep, entropy: &[u8])
        requires
            old(self).wf(),
            entropy@.len() >= LEVEL_COUNT,
        ensures
            final(self)@ == levels_after(old(self)@, step, entropy@),
            final(self).wf(),
    {
        match step {
            SamplerStep::Sample => self.sample(entropy),
            SamplerStep::Hold => {},
            SamplerStep::Finish => self.reset(),
        }
    }

    /// The level of bar `i`.
    pub fn level(&self, i: usize) -> (r: u8)
        requires
            i < self@.len(),
        ensures
            r == self@[i as int],
    {
        self.bars[i]
    }

    /// The number of bars.
    pub fn len(&self) -> (r: usize)
        ensures
            r == self@.len(),
    {
        self.bars.len()
    }
}

/// Once the play process has exited, or the stream is left, the sampler's
/// next tick ends the loop with every bar at zero, whatever it showed
/// before and whatever entropy it drew.
pub proof fn lemma_stopped_sampler_goes_silent(
    levels: Seq<u8>,
    live: bool,
    paused: bool,
    stopping: bool,
    entropy: Seq<u8>,
)
    requires
        stopping || !live,
    ensures
        step_for(live, paused, stopping) == SamplerStep::Finish,
        levels_after(levels, step_for(live, paused, stopping), entropy) == silent(),
{
}

/// The height, in rows, of a bar at `level` in a chart `max_height` rows
/// tall: the level's share of `LEVEL_SPAN`, rounded to the nearest row,
/// halves up.
pub open spec fn bar_rows(level: u8, max_height: u16) -> int {
    (level * max_height + 5) / 10
}

pub fn bar_height(level: u8, max_height: u16) -> (r: u32)
    ensures
        r == bar_rows(level, max_height),
        level < LEVEL_SPAN ==> r <= max_height,
{
    assert(level as u32 * max_height as u32 <= 255 * 65535) by (nonlinear_arith);
    assert(level < 10 ==> level * max_height <= 9 * max_height) by (nonlinear_arith);
    (level as u32 * max_height as u32 + 5) / 10
}

} // verus!
