//! The sample window: a sliding buffer that holds the most recent samples,
//! one per plot column, oldest first.

use vstd::prelude::*;
use crate::signal::Sample;

verus! {

/// `count` copies of `fill`.
pub open spec fn repeated(fill: Sample, count: int) -> Seq<Sample> {
    Seq::new(
        if count > 0 {
            count as nat
        } else {
            0
        },
        |i: int| fill,
    )
}

/// A sequence of samples brought to `width` entries: a shorter one is
/// extended at its end by copies of `fill`, a longer one loses its oldest
/// entries, those at the front.
pub open spec fn resized(samples: Seq<Sample>, width: int, fill: Sample) -> Seq<Sample> {
    if samples.len() <= width {
        samples + repeated(fill, width - samples.len())
    } else {
        samples.subrange(samples.len() - width, samples.len() as int)
    }
}

/// A sequence of samples after `sample` was appended to it under a limit of
/// `width` entries: if the longer sequence exceeds the limit, its oldest
/// entry is evicted.
pub open spec fn pushed(samples: Seq<Sample>, width: int, sample: Sample) -> Seq<Sample> {
    if samples.len() + 1 > width {
        samples.push(sample).drop_first()
    } else {
        samples.push(sample)
    }
}

/// Resizing yields exactly `width` samples; growth keeps every sample in its
/// place and fills each new slot with `fill`; shrinking keeps the newest
/// samples in their order.
pub proof fn lemma_resized_contents(samples: Seq<Sample>, width: int, fill: Sample)
    requires
        0 <= width,
    ensures
        resized(samples, width, fill).len() == width,
        samples.len() == width ==> resized(samples, width, fill) == samples,
        samples.len() <= width ==> forall|i: int|
            0 <= i < width ==> #[trigger] resized(samples, width, fill)[i] == if i
                < samples.len() {
                samples[i]
            } else {
                fill
            },
        samples.len() > width ==> forall|i: int|
            0 <= i < width ==> #[trigger] resized(samples, width, fill)[i] == samples[samples.len()
                - width + i],
{
}

/// Resizing to the width a window already has changes nothing, so resizing
/// twice to the same width is the same as resizing once.
pub proof fn lemma_resized_idempotent(samples: Seq<Sample>, width: int, fill: Sample, again: Sample)
    requires
        0 <= width,
    ensures
        resized(resized(samples, width, fill), width, again) == resized(samples, width, fill),
{
    lemma_resized_contents(samples, width, fill);
    lemma_resized_contents(resized(samples, width, fill), width, again);
}

/// A window that was resized to `width` holds exactly `width` samples after
/// each following push, however many follow.
pub proof fn lemma_push_keeps_width(samples: Seq<Sample>, width: int, sample: Sample)
    requires
        samples.len() == width,
    ensures
        pushed(samples, width, sample).len() == width,
{
}

/// Pushing onto a full window evicts the oldest sample and no other: every
/// remaining sample moves one place towards the front, in its old order, and
/// the new sample takes the last place.
pub proof fn lemma_push_is_fifo(samples: Seq<Sample>, width: int, sample: Sample)
    requires
        samples.len() == width,
        width > 0,
    ensures
        pushed(samples, width, sample).len() == width,
        pushed(samples, width, sample)[width - 1] == sample,
        forall|i: int|
            0 <= i < width - 1 ==> #[trigger] pushed(samples, width, sample)[i] == samples[i + 1],
{
}

/// Whatever a window held before, once it is resized to `width` and a sample
/// is pushed it holds exactly `width` samples, the pushed one last if there
/// is room for any.
pub proof fn lemma_resize_then_push(
    samples: Seq<Sample>,
    width: int,
    fill: Sample,
    sample: Sample,
)
    requires
        0 <= width,
    ensures
        pushed(resized(samples, width, fill), width, sample).len() == width,
        width > 0 ==> pushed(resized(samples, width, fill), width, sample).last() == sample,
{
    lemma_resized_contents(samples, width, fill);
}

/// Pushing onto a window that is not yet full evicts nothing.
pub proof fn lemma_push_below_width(samples: Seq<Sample>, width: int, sample: Sample)
    requires
        samples.len() < width,
    ensures
        pushed(samples, width, sample) == samples.push(sample),
{
}

/// Brings `samples` to exactly `width` entries: grows it at the end by
/// copies of `fill`, or drops its oldest entries from the front. Nothing
/// changes when it already has `width` entries.
pub fn resize_samples(samples: &mut Vec<Sample>, width: usize, fill: Sample)
    ensures
        final(samples)@ == resized(old(samples)@, width as int, fill),
        final(samples)@.len() == width,
{
    let len: usize = samples.len();
    if len == width {
        return;
    }
    if len < width {
        let mut added: usize = 0;
        while added < width - len
            invariant
                len < width,
                len == old(samples)@.len(),
                added <= width - len,
                samples@ == old(samples)@ + repeated(fill, added as int),
            decreases width - len - added,
        {
            samples.push(fill);
            added += 1;
        }
    } else {
        let kept: Vec<Sample> = samples.split_off(len - width);
        *samples = kept;
    }
}

/// Appends `sample` under a limit of `width` entries: if the vector then
/// exceeds the limit, its oldest entry, the first, is removed.
pub fn push_sample(samples: &mut Vec<Sample>, width: usize, sample: Sample)
    ensures
        final(samples)@ == pushed(old(samples)@, width as int, sample),
{
    samples.push(sample);
    if samples.len() > width {
        samples.remove(0);
    }
}

/// A sliding window over the most recent samples, oldest first, that holds
/// at most as many samples as the plot has columns.
#[derive(Clone, Debug, PartialEq, Eq)]
pub struct SampleWindow {
    samples: Vec<Sample>,
    width: usize,
}

impl View for SampleWindow {
    type V = Seq<Sample>;

    closed spec fn view(&self) -> Seq<Sample> {
        self.samples@
    }
}

impl SampleWindow {
    /// The number of samples the window holds at most.
    pub closed spec fn capacity(&self) -> nat {
        self.width as nat
    }

    /// The window holds no more samples than its width allows.
    pub open spec fn wf(&self) -> bool {
        self@.len() <= self.capacity()
    }

    /// An empty window of width zero.
    pub fn new() -> (window: SampleWindow)
        ensures
            window@ == Seq::<Sample>::empty(),
            window.capacity() == 0,
            window.wf(),
    {
        SampleWindow { samples: Vec::new(), width: 0 }
    }

    /// The number of samples in the window.
    pub fn len(&self) -> (len: usize)
        ensures
            len == self@.len(),
    {
        self.samples.len()
    }

    /// The number of samples the window holds at most.
    pub fn width(&self) -> (width: usize)
        ensures
            width == self.capacity(),
    {
        self.width
    }

    /// The newest sample, if the window holds any.
    pub fn last(&self) -> (newest: Option<Sample>)
        ensures
            self@.len() == 0 ==> newest is None,
            self@.len() > 0 ==> newest == Some(self@.last()),
    {
        let len: usize = self.samples.len();
        if len == 0 {
            None
        } else {
            Some(self.samples[len - 1])
        }
    }

    /// The samples, oldest first.
    pub fn as_slice(&self) -> (samples: &[Sample])
        ensures
            samples@ == self@,
    {
        self.samples.as_slice()
    }

    /// Replaces the contents by `width` copies of `sample` and sets the
    /// window's width to `width`.
    pub fn seed(&mut self, width: usize, sample: Sample)
        ensures
            final(self)@ == repeated(sample, width as int),
            final(self).capacity() == width,
            final(self).wf(),
    {
        let mut samples: Vec<Sample> = Vec::new();
        resize_samples(&mut samples, width, sample);
        self.samples = samples;
        self.width = width;
    }

    /// Sets the window's width to `width` and brings the contents to exactly
    /// that many samples: new slots at the end repeat `fill`, surplus samples
    /// are dropped from the front.
    pub fn resize(&mut self, width: usize, fill: Sample)
        ensures
            final(self)@ == resized(old(self)@, width as int, fill),
            final(self).capacity() == width,
            final(self)@.len() == width,
            final(self).wf(),
    {
        resize_samples(&mut self.samples, width, fill);
        self.width = width;
    }

    /// Appends `sample` as the newest; a window that was full evicts its
    /// oldest sample to make room.
    pub fn push(&mut self, sample: Sample)
        ensures
            final(self)@ == pushed(old(self)@, old(self).capacity() as int, sample),
            final(self).capacity() == old(self).capacity(),
            old(self).wf() ==> final(self).wf(),
    {
        push_sample(&mut self.samples, self.width, sample);
    }
}

} // verus!
