use vstd::prelude::*;

verus! {

/// A bounded, append-only store of captured frames. Appends saturate: once
/// the configured cap is reached further frames are silently dropped, and a
/// frame once stored is never reordered, changed or removed.
pub struct Recorder {
    frames: Vec<Vec<u8>>,
    cap: usize,
}

impl Recorder {
    /// The stored frames, in capture order.
    pub closed spec fn view(&self) -> Seq<Seq<u8>> {
        self.frames@.map_values(|f: Vec<u8>| f@)
    }

    /// The configured frame cap.
    pub closed spec fn capacity(&self) -> int {
        self.cap as int
    }

    /// The store never holds more frames than its cap.
    pub open spec fn wf(&self) -> bool {
        self@.len() <= self.capacity()
    }

    /// An empty store that will keep at most `cap` frames.
    pub fn new(cap: usize) -> (r: Recorder)
        ensures
            r.wf(),
            r.capacity() == cap,
            r@ == Seq::<Seq<u8>>::empty(),
    {
        Recorder { frames: Vec::new(), cap }
    }

    /// Appends a frame while the store is below its cap; at the cap the call
    /// is a no-op, so the store's length never moves past the cap.
    pub fn push_frame(&mut self, frame: Vec<u8>)
        requires
            old(self).wf(),
        ensures
            final(self).wf(),
            final(self).capacity() == old(self).capacity(),
            old(self)@.len() < old(self).capacity() ==> final(self)@ == old(self)@.push(frame@),
            old(self)@.len() >= old(self).capacity() ==> final(self)@ == old(self)@,
    {
        if self.frames.len() < self.cap {
            let ghost prev = self.frames@;
            self.frames.push(frame);
            proof {
                assert(self@ =~= prev.map_values(|f: Vec<u8>| f@).push(frame@));
            }
        }
    }

    /// How many frames are stored.
    pub fn len(&self) -> (n: usize)
        ensures
            n == self@.len(),
    {
        self.frames.len()
    }

    /// Whether the cap has been reached, after which appends are dropped.
    pub fn is_full(&self) -> (r: bool)
        ensures
            r == (self@.len() >= self.capacity()),
    {
        self.frames.len() >= self.cap
    }

    /// The stored frames, for encoding.
    pub fn frames(&self) -> (r: &Vec<Vec<u8>>)
        ensures
            r@.len() == self@.len(),
            forall|i: int| 0 <= i < r@.len() ==> r@[i]@ == self@[i],
    {
        &self.frames
    }
}

} // verus!
