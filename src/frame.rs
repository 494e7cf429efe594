//! Physical memory frames of 4 KiB, 2 MiB or 1 GiB, and ranges of them.
use crate::addr::PhysAddr;
use crate::page::{exclusive_starts, inclusive_starts, lemma_multiples, lemma_page_size, lemma_range_facts, PageSize, Size4KiB};
use crate::page::AddressNotAligned;
use core::marker::PhantomData;
use vstd::prelude::*;

verus! {

/// A physical memory frame of size `S`.
#[derive(Copy, PartialEq, Eq, PartialOrd, Ord, Hash, Debug)]
pub struct PhysFrame<S: PageSize = Size4KiB> {
    start_address: u64,
    size: PhantomData<S>,
}

impl<S: PageSize> Clone for PhysFrame<S> {
    fn clone(&self) -> (r: Self)
        ensures
            r == *self,
    {
        *self
    }
}

impl<S: PageSize> PhysFrame<S> {
    #[verifier::type_invariant]
    closed spec fn inv(self) -> bool {
        self.start_address % S::spec_size() == 0
    }

    /// The first address of the frame.
    pub closed spec fn start(self) -> u64 {
        self.start_address
    }

    /// The frame that starts at `address`; fails when `address` is not a
    /// multiple of the frame size.
    pub fn from_start_address(address: u64) -> (r: Result<Self, AddressNotAligned>)
        ensures
            r.is_ok() <==> address % S::spec_size() == 0,
            r.is_ok() ==> r.unwrap().start() == address,
    {
        proof {
            lemma_page_size::<S>();
        }
        if !address.is_aligned(S::size()) {
            return Err(AddressNotAligned);
        }
        Ok(PhysFrame::containing_address(address))
    }

    /// The frame that starts at `start_address`, which must be a multiple of
    /// the frame size.
    pub fn from_start_address_unchecked(start_address: u64) -> (r: Self)
        requires
            start_address % S::spec_size() == 0,
        ensures
            r.start() == start_address,
    {
        PhysFrame { start_address, size: PhantomData }
    }

    /// The frame that contains `address`.
    pub fn containing_address(address: u64) -> (r: Self)
        ensures
            r.start() == address - address % S::spec_size(),
            r.start() <= address,
            address - r.start() < S::spec_size(),
    {
        proof {
            lemma_page_size::<S>();
        }
        PhysFrame { start_address: address.align_down(S::size()), size: PhantomData }
    }

    /// The first address of the frame.
    pub fn start_address(self) -> (r: u64)
        ensures
            r == self.start(),
            r % S::spec_size() == 0,
    {
        proof {
            use_type_invariant(&self);
        }
        self.start_address
    }

    /// The size of the frame in bytes.
    pub fn size(self) -> (r: u64)
        ensures
            r == S::spec_size(),
    {
        S::size()
    }




    /// The frames from `start` up to, not including, `end`.
    pub fn range(start: Self, end: Self) -> (r: PhysFrameRange<S>)
        ensures
            r.start == start,
            r.end == end,
    {
        PhysFrameRange { start, end }
    }

    /// The frames from `start` up to and including `end`.
    pub fn range_inclusive(start: Self, end: Self) -> (r: PhysFrameRangeInclusive<S>)
        ensures
            r.start == start,
            r.end == end,
    {
        PhysFrameRangeInclusive { start, end }
    }

    /// The frame `count` frames after this one.
    pub fn add_frames(self, count: u64) -> (r: Self)
        requires
            self.start() + count * S::spec_size() <= u64::MAX,
        ensures
            r.start() == self.start() + count * S::spec_size(),
    {
        proof {
            use_type_invariant(&self);
            lemma_page_size::<S>();
            lemma_multiples(self.start() as int, 0, count as int, S::spec_size() as int);
            assert(0 <= count * S::spec_size()) by (nonlinear_arith);
        }
        PhysFrame::containing_address(self.start_address + count * S::size())
    }

    /// The frame `count` frames before this one.
    pub fn sub_frames(self, count: u64) -> (r: Self)
        requires
            count * S::spec_size() <= self.start(),
        ensures
            r.start() == self.start() - count * S::spec_size(),
    {
        proof {
            use_type_invariant(&self);
            lemma_page_size::<S>();
            lemma_multiples(self.start() as int, 0, count as int, S::spec_size() as int);
            assert(0 <= count * S::spec_size()) by (nonlinear_arith);
        }
        PhysFrame::containing_address(self.start_address - count * S::size())
    }

    /// The number of frames from `earlier` to this frame.
    pub fn frames_since(self, earlier: Self) -> (r: u64)
        requires
            earlier.start() <= self.start(),
        ensures
            r == (self.start() - earlier.start()) / S::spec_size() as int,
    {
        proof {
            lemma_page_size::<S>();
        }
        (self.start_address - earlier.start_address) / S::size()
    }
}

/// A range of frames with exclusive upper bound.
#[derive(Clone, Copy, PartialEq, Eq, Hash, Debug)]
pub struct PhysFrameRange<S: PageSize = Size4KiB> {
    /// The first frame of the range.
    pub start: PhysFrame<S>,
    /// The frame just past the range.
    pub end: PhysFrame<S>,
}

impl<S: PageSize> PhysFrameRange<S> {
    /// The start addresses of the frames of the range, in order.
    pub open spec fn starts(self) -> Seq<u64> {
        exclusive_starts(self.start.start(), self.end.start(), S::spec_size())
    }

    /// Whether the range holds no frame.
    pub fn is_empty(&self) -> (r: bool)
        ensures
            r == (self.starts().len() == 0),
            r == (self.start.start() >= self.end.start()),
    {
        let s = self.start.start_address();
        let e = self.end.start_address();
        proof {
            lemma_page_size::<S>();
            lemma_range_facts(s, e, S::spec_size());
        }
        s >= e
    }

    /// The number of frames in the range.
    pub fn len(&self) -> (r: u64)
        ensures
            r == self.starts().len(),
    {
        let s = self.start.start_address();
        let e = self.end.start_address();
        proof {
            lemma_page_size::<S>();
            lemma_range_facts(s, e, S::spec_size());
        }
        if !self.is_empty() {
            self.end.frames_since(self.start)
        } else {
            0
        }
    }

    /// The number of bytes in the frames of the range.
    pub fn size(&self) -> (r: u64)
        ensures
            r == S::spec_size() * self.starts().len(),
    {
        let s = self.start.start_address();
        let e = self.end.start_address();
        let n = self.len();
        proof {
            lemma_page_size::<S>();
            lemma_range_facts(s, e, S::spec_size());
            assert(S::spec_size() * n == n * S::spec_size()) by (nonlinear_arith);
            if s < e {
                assert(n * S::spec_size() == e - s);
            } else {
                assert(S::spec_size() * n == 0) by (nonlinear_arith)
                    requires
                        n == 0,
                ;
            }
        }
        let size = S::size();
        size * n
    }

    /// Takes the first frame off the range.
    pub fn next(&mut self) -> (r: Option<PhysFrame<S>>)
        ensures
            old(self).starts().len() == 0 ==> r.is_none() && *final(self) == *old(self),
            old(self).starts().len() > 0 ==> r == Some(old(self).start) && final(self).starts()
                == old(self).starts().drop_first() && final(self).end == old(self).end,
    {
        let s = self.start.start_address();
        let e = self.end.start_address();
        proof {
            lemma_page_size::<S>();
            lemma_range_facts(s, e, S::spec_size());
        }
        if s < e {
            let frame = self.start;
            self.start = self.start.add_frames(1);
            Some(frame)
        } else {
            None
        }
    }
}

/// A range of frames with inclusive upper bound.
#[derive(Clone, Copy, PartialEq, Eq, Hash, Debug)]
pub struct PhysFrameRangeInclusive<S: PageSize = Size4KiB> {
    /// The first frame of the range.
    pub start: PhysFrame<S>,
    /// The last frame of the range.
    pub end: PhysFrame<S>,
}

impl<S: PageSize> PhysFrameRangeInclusive<S> {
    /// The start addresses of the frames of the range, in order.
    pub open spec fn starts(self) -> Seq<u64> {
        inclusive_starts(self.start.start(), self.end.start(), S::spec_size())
    }

    /// Whether the range holds no frame.
    pub fn is_empty(&self) -> (r: bool)
        ensures
            r == (self.starts().len() == 0),
            r == (self.start.start() > self.end.start()),
    {
        let s = self.start.start_address();
        let e = self.end.start_address();
        proof {
            lemma_page_size::<S>();
            lemma_range_facts(s, e, S::spec_size());
        }
        s > e
    }

    /// The number of frames in the range.
    pub fn len(&self) -> (r: u64)
        ensures
            r == self.starts().len(),
    {
        let s = self.start.start_address();
        let e = self.end.start_address();
        proof {
            lemma_page_size::<S>();
            lemma_range_facts(s, e, S::spec_size());
        }
        if !self.is_empty() {
            self.end.frames_since(self.start) + 1
        } else {
            0
        }
    }

    /// The number of bytes in the frames of the range, which must fit in a `u64`.
    pub fn size(&self) -> (r: u64)
        requires
            S::spec_size() * self.starts().len() <= u64::MAX,
        ensures
            r == S::spec_size() * self.starts().len(),
    {
        S::size() * self.len()
    }

    /// Takes the first frame off the range. When the first frame is the last
    /// frame of the address space, the end moves back instead, so that the
    /// largest frame is still produced and the range then reads as empty.
    pub fn next(&mut self) -> (r: Option<PhysFrame<S>>)
        ensures
            old(self).starts().len() == 0 ==> r.is_none() && *final(self) == *old(self),
            old(self).starts().len() > 0 ==> r == Some(old(self).start) && final(self).starts()
                == old(self).starts().drop_first(),
    {
        let s = self.start.start_address();
        let e = self.end.start_address();
        proof {
            lemma_page_size::<S>();
            lemma_range_facts(s, e, S::spec_size());
        }
        if s <= e {
            let frame = self.start;
            let max_frame_addr = u64::MAX - (S::size() - 1);
            if s < max_frame_addr {
                self.start = self.start.add_frames(1);
            } else {
                self.end = self.end.sub_frames(1);
            }
            Some(frame)
        } else {
            None
        }
    }
}

} // verus!
