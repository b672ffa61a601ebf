use vstd::prelude::*;
use std::collections::VecDeque;

verus! {

/// Number of most recent readings kept for smoothing.
pub const WINDOW_SIZE: usize = 5;

/// The window after one more reading `x`: the reading is appended, and the
/// oldest one is dropped when the window was full.
pub open spec fn slide<T>(h: Seq<T>, x: T) -> Seq<T> {
    if h.len() >= WINDOW_SIZE {
        h.drop_first().push(x)
    } else {
        h.push(x)
    }
}

/// The window after the readings `xs`, in order, starting from `h`.
pub open spec fn slide_all<T>(h: Seq<T>, xs: Seq<T>) -> Seq<T>
    decreases xs.len(),
{
    if xs.len() == 0 {
        h
    } else {
        slide(slide_all(h, xs.drop_last()), xs.last())
    }
}

/// The last `min(WINDOW_SIZE, s.len())` items of `s`.
pub open spec fn last_window<T>(s: Seq<T>) -> Seq<T> {
    if s.len() <= WINDOW_SIZE {
        s
    } else {
        s.subrange(s.len() - WINDOW_SIZE, s.len() as int)
    }
}

/// A sliding window over the most recent readings, oldest first.
pub struct History<T> {
    buf: VecDeque<T>,
}

impl<T> View for History<T> {
    type V = Seq<T>;

    closed spec fn view(&self) -> Seq<T> {
        self.buf@
    }
}

impl<T> History<T> {
    #[verifier::type_invariant]
    spec fn bounded(self) -> bool {
        self.buf@.len() <= WINDOW_SIZE
    }

    /// An empty window.
    pub fn new() -> (r: History<T>)
        ensures
            r@ == Seq::<T>::empty(),
    {
        History { buf: VecDeque::with_capacity(WINDOW_SIZE) }
    }

    /// Number of readings in the window; never more than `WINDOW_SIZE`.
    pub fn len(&self) -> (r: usize)
        ensures
            r == self@.len(),
            r <= WINDOW_SIZE,
            r <= 5,
    {
        proof {
            use_type_invariant(self);
        }
        self.buf.len()
    }

    /// Whether the window holds no reading.
    pub fn is_empty(&self) -> (r: bool)
        ensures
            r == (self@.len() == 0),
    {
        self.buf.len() == 0
    }

    /// The `i`-th reading, counted from the oldest.
    pub fn get(&self, i: usize) -> (r: &T)
        requires
            i < self@.len(),
        ensures
            *r == self@[i as int],
    {
        &self.buf[i]
    }

    /// Records reading `x`, dropping the oldest reading when the window is full.
    pub fn push(&mut self, x: T)
        ensures
            final(self)@ == slide(old(self)@, x),
            final(self)@.len() <= WINDOW_SIZE,
            final(self)@.len() <= 5,
            old(self)@.len() < 5 ==> final(self)@ == old(self)@.push(x),
            old(self)@.len() >= 5 ==> final(self)@ == old(self)@.subrange(1, old(self)@.len() as int).push(x),
    {
        proof {
            use_type_invariant(&*self);
        }
        let mut buf: VecDeque<T> = VecDeque::new();
        std::mem::swap(&mut buf, &mut self.buf);
        if buf.len() == WINDOW_SIZE {
            buf.pop_front();
        }
        buf.push_back(x);
        self.buf = buf;
    }

    /// Forgets every reading.
    pub fn clear(&mut self)
        ensures
            final(self)@ == Seq::<T>::empty(),
    {
        self.buf = VecDeque::new();
    }
}

/// The window always holds exactly the last `WINDOW_SIZE` readings (or all
/// of them, while there are fewer): pushing `xs` into a window holding `h`
/// leaves the last readings of `h` followed by `xs`.
pub proof fn window_keeps_latest<T>(h: Seq<T>, xs: Seq<T>)
    requires
        h.len() <= WINDOW_SIZE,
    ensures
        slide_all(h, xs) == last_window(h + xs),
    decreases xs.len(),
{
    if xs.len() == 0 {
        assert(h + xs == h);
    } else {
        let prev = xs.drop_last();
        window_keeps_latest(h, prev);
        let hp = h + prev;
        let hx = h + xs;
        assert(hx == hp.push(xs.last()));
        let w = last_window(hp);
        if hp.len() < WINDOW_SIZE {
            assert(slide(w, xs.last()) == last_window(hx));
        } else {
            assert(w.len() == WINDOW_SIZE);
            assert(slide(w, xs.last()) =~= last_window(hx));
        }
    }
}

/// A push keeps the new reading as the latest, keeps the previous readings
/// in order, and drops only the oldest one, and only from a full window of
/// five.
pub proof fn push_keeps_order<T>(h: Seq<T>, x: T)
    requires
        h.len() <= 5,
    ensures
        slide(h, x).last() == x,
        slide(h, x).len() == (if h.len() < 5 { h.len() + 1 } else { 5 }),
        forall|i: int| 0 <= i < slide(h, x).len() - 1 ==>
            #[trigger] slide(h, x)[i] == h[i + h.len() + 1 - slide(h, x).len()],
{
}

/// From an empty window, the readings kept are the last `WINDOW_SIZE` pushed.
pub proof fn window_from_empty<T>(xs: Seq<T>)
    ensures
        slide_all(Seq::<T>::empty(), xs) == last_window(xs),
        slide_all(Seq::<T>::empty(), xs).len() <= WINDOW_SIZE,
{
    window_keeps_latest(Seq::<T>::empty(), xs);
    assert(Seq::<T>::empty() + xs == xs);
}

} // verus!
