//! The histories of the counters: ring buffers that keep the newest values.

use crate::components::internals::counters::Counters;
use ringbuffer::ConstGenericRingBuffer;
use vstd::prelude::*;

verus! {

/// A ring buffer of fixed capacity.
#[verifier::external_type_specification]
#[verifier::external_body]
#[verifier::reject_recursive_types(T)]
pub struct ExConstGenericRingBuffer<T, const CAP: usize>(ConstGenericRingBuffer<T, CAP>);

/// The numbers that a history holds, oldest first.
pub uninterp spec fn history_values(ring: ConstGenericRingBuffer<u32, 512>) -> Seq<u32>;

/// The lines that the trail holds, oldest first.
pub uninterp spec fn trail_lines(ring: ConstGenericRingBuffer<String, 32>) -> Seq<Seq<char>>;

/// What a ring buffer of the given capacity holds after one more item: the
/// item stands last, and where the buffer was full, its oldest item has left.
pub open spec fn pushed<T>(items: Seq<T>, item: T, capacity: nat) -> Seq<T> {
    if items.len() == capacity {
        items.subrange(1, items.len() as int).push(item)
    } else {
        items.push(item)
    }
}

/// An empty history.
///
/// Trusted: the body calls `ConstGenericRingBuffer::default`, which makes a
/// buffer without items.
#[verifier::external_body]
fn new_history() -> (ring: ConstGenericRingBuffer<u32, 512>)
    ensures
        history_values(ring) == Seq::<u32>::empty(),
{
    ConstGenericRingBuffer::<u32, 512>::default()
}

/// Adds a number to a history.
///
/// Trusted: the body calls `RingBuffer::push`. By the crate's source a push
/// onto a full buffer first drops the item pushed the longest ago, and then
/// the new item is written behind the newest.
#[verifier::external_body]
fn push_value(ring: &mut ConstGenericRingBuffer<u32, 512>, value: u32)
    ensures
        history_values(*final(ring)) == pushed(history_values(*old(ring)), value, 512),
{
    ringbuffer::RingBuffer::push(ring, value)
}

/// The numbers of a history, oldest first.
///
/// Trusted: the body calls `RingBuffer::to_vec`, which collects the items
/// from the one pushed the longest ago to the one pushed last.
#[verifier::external_body]
fn values_of(ring: &ConstGenericRingBuffer<u32, 512>) -> (values: Vec<u32>)
    ensures
        values@ == history_values(*ring),
{
    ringbuffer::RingBuffer::to_vec(ring)
}

/// An empty trail.
///
/// Trusted: the body calls `ConstGenericRingBuffer::default`, which makes a
/// buffer without items.
#[verifier::external_body]
fn new_trail() -> (ring: ConstGenericRingBuffer<String, 32>)
    ensures
        trail_lines(ring) == Seq::<Seq<char>>::empty(),
{
    ConstGenericRingBuffer::<String, 32>::default()
}

/// Adds a line to the trail.
///
/// Trusted: the body calls `RingBuffer::push`. By the crate's source a push
/// onto a full buffer first drops the item pushed the longest ago, and then
/// the new item is written behind the newest.
#[verifier::external_body]
fn push_line(ring: &mut ConstGenericRingBuffer<String, 32>, line: String)
    ensures
        trail_lines(*final(ring)) == pushed(trail_lines(*old(ring)), line@, 32),
{
    ringbuffer::RingBuffer::push(ring, line)
}

/// The lines of the trail, oldest first.
///
/// Trusted: the body calls `RingBuffer::to_vec`, which collects copies of
/// the items from the one pushed the longest ago to the one pushed last.
#[verifier::external_body]
fn lines_of(ring: &ConstGenericRingBuffer<String, 32>) -> (lines: Vec<String>)
    ensures
        lines@.map_values(|line: String| line@) == trail_lines(*ring),
{
    ringbuffer::RingBuffer::to_vec(ring)
}

/// The histories of the counters, 512 samples each, and the trail of the
/// last 32 actions.
pub struct Buffers {
    pub tick: ConstGenericRingBuffer<u32, 512>,
    pub render_ticks: ConstGenericRingBuffer<u32, 512>,
    pub render_fps: ConstGenericRingBuffer<u32, 512>,
    pub app_fps: ConstGenericRingBuffer<u32, 512>,
    pub resize: ConstGenericRingBuffer<u32, 512>,
    pub suspend: ConstGenericRingBuffer<u32, 512>,
    pub resume: ConstGenericRingBuffer<u32, 512>,
    pub quit: ConstGenericRingBuffer<u32, 512>,
    pub refresh: ConstGenericRingBuffer<u32, 512>,
    pub error: ConstGenericRingBuffer<u32, 512>,
    pub change_scene: ConstGenericRingBuffer<u32, 512>,
    pub change_mode: ConstGenericRingBuffer<u32, 512>,
    pub change_view: ConstGenericRingBuffer<u32, 512>,
    pub toggle_overlay: ConstGenericRingBuffer<u32, 512>,
    pub help: ConstGenericRingBuffer<u32, 512>,
    pub trail: ConstGenericRingBuffer<String, 32>,
}

impl Default for Buffers {
    fn default() -> (buffers: Buffers)
        ensures
            forall|i: int| 0 <= i < 15 ==> #[trigger] buffers.histories()[i] == Seq::<u32>::empty(),
            buffers.trail_seen() == Seq::<Seq<char>>::empty(),
    {
        Buffers {
            tick: new_history(),
            render_ticks: new_history(),
            render_fps: new_history(),
            app_fps: new_history(),
            resize: new_history(),
            suspend: new_history(),
            resume: new_history(),
            quit: new_history(),
            refresh: new_history(),
            error: new_history(),
            change_scene: new_history(),
            change_mode: new_history(),
            change_view: new_history(),
            toggle_overlay: new_history(),
            help: new_history(),
            trail: new_trail(),
        }
    }
}

impl Buffers {
    /// What the fifteen histories hold, in the order of
    /// [`Counters::sample`].
    pub open spec fn histories(self) -> Seq<Seq<u32>> {
        seq![
            history_values(self.tick),
            history_values(self.render_ticks),
            history_values(self.app_fps),
            history_values(self.render_fps),
            history_values(self.resize),
            history_values(self.suspend),
            history_values(self.resume),
            history_values(self.quit),
            history_values(self.refresh),
            history_values(self.error),
            history_values(self.change_scene),
            history_values(self.change_mode),
            history_values(self.change_view),
            history_values(self.toggle_overlay),
            history_values(self.help),
        ]
    }

    /// What the trail holds.
    pub open spec fn trail_seen(self) -> Seq<Seq<char>> {
        trail_lines(self.trail)
    }

    /// The histories after one more sample of the counters.
    pub open spec fn sampled(before: Seq<Seq<u32>>, sample: Seq<u32>) -> Seq<Seq<u32>> {
        Seq::new(15, |i: int| pushed(before[i], sample[i], 512))
    }

    /// Adds a sample of the counters to the histories.
    pub fn record(&mut self, counters: &Counters)
        ensures
            final(self).histories() == Buffers::sampled(old(self).histories(), counters.sample()),
            final(self).trail_seen() == old(self).trail_seen(),
    {
        push_value(&mut self.tick, counters.tick);
        push_value(&mut self.render_ticks, counters.render);
        push_value(&mut self.app_fps, counters.app_fps);
        push_value(&mut self.render_fps, counters.render_fps);
        push_value(&mut self.resize, counters.resize);
        push_value(&mut self.suspend, counters.suspend);
        push_value(&mut self.resume, counters.resume);
        push_value(&mut self.quit, counters.quit);
        push_value(&mut self.refresh, counters.refresh);
        push_value(&mut self.error, counters.error);
        push_value(&mut self.change_scene, counters.change_scene);
        push_value(&mut self.change_mode, counters.change_mode);
        push_value(&mut self.change_view, counters.change_view);
        push_value(&mut self.toggle_overlay, counters.toggle_overlay);
        push_value(&mut self.help, counters.help);
        assert(self.histories() =~= Buffers::sampled(old(self).histories(), counters.sample()));
    }

    /// Adds a line to the trail.
    pub fn note(&mut self, line: String)
        ensures
            final(self).trail_seen() == pushed(old(self).trail_seen(), line@, 32),
            final(self).histories() == old(self).histories(),
    {
        push_line(&mut self.trail, line);
    }

    /// The rates of the application loop, oldest first, in thousandths of a
    /// frame per second.
    pub fn app_rates(&self) -> (rates: Vec<u32>)
        ensures
            rates@ == history_values(self.app_fps),
    {
        values_of(&self.app_fps)
    }

    /// The rates of rendering, oldest first, in thousandths of a frame per
    /// second.
    pub fn render_rates(&self) -> (rates: Vec<u32>)
        ensures
            rates@ == history_values(self.render_fps),
    {
        values_of(&self.render_fps)
    }

    /// The lines of the trail, oldest first.
    pub fn trail_lines(&self) -> (lines: Vec<String>)
        ensures
            lines@.map_values(|line: String| line@) == self.trail_seen(),
    {
        lines_of(&self.trail)
    }
}

} // verus!
