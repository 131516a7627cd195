//! A string builder that reserves its buffer up front, and a tracker of
//! memory use with its peak.
use crate::text;
use vstd::prelude::*;
use vstd::string::*;

verus! {

/// `String::with_capacity`: an empty string with room reserved for
/// `capacity` bytes.
#[verifier::external_body]
fn string_with_capacity(capacity: usize) -> (s: String)
    ensures
        s@ == Seq::<char>::empty(),
{
    String::with_capacity(capacity)
}

/// Memory-optimized string builder for reducing allocations.
pub struct OptimizedStringBuilder {
    buffer: String,
}

impl View for OptimizedStringBuilder {
    type V = Seq<char>;

    /// The text built so far.
    closed spec fn view(&self) -> Seq<char> {
        self.buffer@
    }
}

impl OptimizedStringBuilder {
    /// Create a new optimized string builder.
    pub fn new(capacity: usize) -> (r: Self)
        ensures
            r@ == Seq::<char>::empty(),
    {
        OptimizedStringBuilder { buffer: string_with_capacity(capacity) }
    }

    /// Append a string slice.
    pub fn push_str(&mut self, s: &str)
        ensures
            final(self)@ == old(self)@ + s@,
    {
        text::append_str(&mut self.buffer, s);
    }

    /// Append a character.
    pub fn push(&mut self, c: char)
        ensures
            final(self)@ == old(self)@.push(c),
    {
        text::push_char(&mut self.buffer, c);
    }

    /// Build the final string.
    pub fn build(self) -> (r: String)
        ensures
            r@ == self@,
    {
        self.buffer
    }

    /// Current length in bytes.
    pub fn len(&self) -> (r: usize)
        ensures
            r == text::str_byte_len(self@),
    {
        self.buffer.as_str().len()
    }

    /// Check if empty.
    pub fn is_empty(&self) -> (r: bool)
        ensures
            r == (self@.len() == 0),
    {
        self.buffer.as_str().is_empty()
    }
}

/// `after` is `before` with an allocation of `size` bytes tracked.
pub open spec fn allocation_tracked(before: MemoryTracker, after: MemoryTracker, size: usize) -> bool {
    &&& after.current() == before.current() + size
    &&& after.peak() == (if after.current() > before.peak() {
        after.current()
    } else {
        before.peak()
    })
}

/// `after` is `before` with a deallocation of `size` bytes tracked.
pub open spec fn deallocation_tracked(before: MemoryTracker, after: MemoryTracker, size: usize) -> bool {
    &&& after.current() == before.current().wrapping_sub(size)
    &&& after.peak() == before.peak()
}

/// Memory usage tracker.
pub struct MemoryTracker {
    peak_usage: usize,
    current_usage: usize,
}

impl MemoryTracker {
    /// The bytes currently in use.
    pub closed spec fn current(&self) -> usize {
        self.current_usage
    }

    /// The largest usage that an allocation has reached.
    pub closed spec fn peak(&self) -> usize {
        self.peak_usage
    }

    /// Create a new memory tracker.
    pub fn new() -> (r: Self)
        ensures
            r.current() == 0,
            r.peak() == 0,
    {
        MemoryTracker { peak_usage: 0, current_usage: 0 }
    }

    /// Track memory allocation: the usage grows by `size`, and the peak keeps
    /// the largest usage reached.
    pub fn track_allocation(&mut self, size: usize)
        requires
            old(self).current() + size <= usize::MAX,
        ensures
            allocation_tracked(*old(self), *final(self), size),
            final(self).peak() >= final(self).current(),
    {
        let new_total = self.current_usage + size;
        self.current_usage = new_total;
        if new_total > self.peak_usage {
            self.peak_usage = new_total;
        }
    }

    /// Track memory deallocation: the usage shrinks by `size`, wrapping
    /// around as an atomic subtraction does; the peak stays.
    pub fn track_deallocation(&mut self, size: usize)
        ensures
            deallocation_tracked(*old(self), *final(self), size),
            size <= old(self).current() ==> final(self).current() == old(self).current() - size,
    {
        self.current_usage = self.current_usage.wrapping_sub(size);
    }

    /// Get current memory usage.
    pub fn get_current_usage(&self) -> (r: usize)
        ensures
            r == self.current(),
    {
        self.current_usage
    }

    /// Get peak memory usage.
    pub fn get_peak_usage(&self) -> (r: usize)
        ensures
            r == self.peak(),
    {
        self.peak_usage
    }
}

impl Default for MemoryTracker {
    fn default() -> (r: Self)
        ensures
            r.current() == 0,
            r.peak() == 0,
    {
        Self::new()
    }
}

/// The peak never falls below the current usage as long as no deallocation
/// gives back more than is in use: an allocation, and a deallocation of at
/// most the usage, both keep `peak >= current`.
pub proof fn law_peak_covers_current(
    before: MemoryTracker,
    after: MemoryTracker,
    size: usize,
    allocated: bool,
)
    requires
        before.peak() >= before.current(),
        allocated ==> allocation_tracked(before, after, size),
        !allocated ==> deallocation_tracked(before, after, size) && size <= before.current(),
    ensures
        after.peak() >= after.current(),
{
}

} // verus!
