//! Fixed-capacity storage helpers.
use crate::data::ring_buffer::slide;
use vstd::prelude::*;

verus! {

/// A window over the `N` most recent values: once full, each new value
/// replaces the oldest one.
#[derive(Debug)]
pub struct ManagedSlidingWindow<T: Copy, const N: usize> {
    data: Vec<T>,
    head: usize,
}

impl<T: Copy, const N: usize> View for ManagedSlidingWindow<T, N> {
    type V = Seq<T>;

    /// The values, oldest first.
    open spec fn view(&self) -> Seq<T> {
        self.window()
    }
}

impl<T: Copy, const N: usize> ManagedSlidingWindow<T, N> {
    /// The values, oldest first.
    pub closed spec fn window(&self) -> Seq<T> {
        self.data@.subrange(self.head as int, self.data@.len() as int) + self.data@.subrange(
            0,
            self.head as int,
        )
    }

    /// At most `N` values; the oldest is at `head`, which is zero until the
    /// window is full.
    pub closed spec fn wf(&self) -> bool {
        &&& self.data@.len() <= N
        &&& (self.head == 0 || (self.data@.len() == N && self.head < N))
    }

    proof fn lemma_len(&self)
        requires
            self.wf(),
        ensures
            self.window().len() == self.data@.len(),
    {
    }

    /// A window never holds more than `N` values.
    pub proof fn lemma_window_bounded(&self)
        requires
            self.wf(),
        ensures
            self@.len() <= N,
    {
    }

    /// Creates an empty window.
    pub fn new() -> (r: Self)
        ensures
            r.wf(),
            r@ == Seq::<T>::empty(),
    {
        ManagedSlidingWindow { data: Vec::new(), head: 0 }
    }

    /// Adds a value, dropping the oldest one when the window is full.
    pub fn push(&mut self, value: T)
        requires
            old(self).wf(),
            N > 0,
        ensures
            final(self).wf(),
            final(self)@ == slide(old(self)@, value, N as nat),
    {
        let ghost before = self.window();
        let ghost d = self.data@;
        if self.data.len() < N {
            self.data.push(value);
            proof {
                assert(before =~= d);
                assert(self.window() =~= before.push(value));
            }
        } else {
            let h = self.head;
            self.data.set(h, value);
            self.head = if h + 1 < N {
                h + 1
            } else {
                0
            };
            proof {
                let n = N as int;
                let w = h as int;
                if w + 1 < n {
                    assert(self.window() =~= d.subrange(w + 1, n) + d.subrange(0, w).push(value));
                    assert(before.drop_first() =~= d.subrange(w + 1, n) + d.subrange(0, w));
                } else {
                    assert(self.window() =~= d.subrange(0, w).push(value));
                    assert(before.drop_first() =~= d.subrange(0, w));
                }
            }
        }
    }

    /// The values, oldest first.
    pub fn iter(&self) -> (r: Vec<T>)
        requires
            self.wf(),
        ensures
            r@ == self@,
    {
        let len = self.data.len();
        let ghost c = self.window();
        let mut out: Vec<T> = Vec::new();
        let mut i: usize = 0;
        while i < len
            invariant
                0 <= i <= len,
                len == self.data@.len(),
                self.wf(),
                c == self.window(),
                out@ == c.subrange(0, i as int),
            decreases len - i,
        {
            let idx = if i < len - self.head {
                self.head + i
            } else {
                i - (len - self.head)
            };
            proof {
                let w = self.head as int;
                let d = self.data@;
                if i < len - self.head {
                    assert(c[i as int] == d.subrange(w, len as int)[i as int]);
                } else {
                    assert(c[i as int] == d.subrange(0, w)[i - (len - w)]);
                }
            }
            out.push(self.data[idx]);
            assert(c.subrange(0, i + 1) =~= c.subrange(0, i as int).push(c[i as int]));
            i = i + 1;
        }
        assert(c.subrange(0, len as int) =~= c);
        out
    }

    /// The number of values.
    pub fn len(&self) -> (r: usize)
        requires
            self.wf(),
        ensures
            r == self@.len(),
            r <= N,
    {
        proof {
            self.lemma_len();
        }
        self.data.len()
    }

    /// Whether there is no value.
    pub fn is_empty(&self) -> (r: bool)
        requires
            self.wf(),
        ensures
            r == (self@.len() == 0),
    {
        proof {
            self.lemma_len();
        }
        self.data.len() == 0
    }

    /// The capacity `N`.
    pub fn capacity(&self) -> (r: usize)
        ensures
            r == N,
    {
        N
    }

    /// Removes every value.
    pub fn clear(&mut self)
        ensures
            final(self).wf(),
            final(self)@ == Seq::<T>::empty(),
    {
        self.data.clear();
        self.head = 0;
        assert(self.window() =~= Seq::<T>::empty());
    }
}

} // verus!
