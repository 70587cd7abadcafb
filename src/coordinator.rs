//! The decisions of the background renderer: a bounded queue of requests
//! served in submission order, and the slot that shows the newest bitmap.
use vstd::prelude::*;
use std::collections::VecDeque;
use crate::raster::{render, RenderError, bitmap_of, CANVAS_SIZE, BITMAP_SIZE};

verus! {

/// A request to render one snapshot, stamped with its place in submission order.
#[derive(Clone, Debug)]
pub struct RenderRequest<T> {
    pub ticket: u64,
    pub snapshot: T,
}

/// A finished render, stamped with the ticket of its request.
#[derive(Debug)]
pub struct RenderCompleted {
    pub ticket: u64,
    pub bitmap: Result<Vec<u8>, RenderError>,
}

/// The tickets of the queued requests rise from front to back.
pub open spec fn tickets_rise<T>(q: Seq<RenderRequest<T>>) -> bool {
    forall|i: int, j: int| 0 <= i < j < q.len() ==> #[trigger] q[i].ticket < #[trigger] q[j].ticket
}

/// The command queue between the interaction loop and the render worker.
#[derive(Debug)]
pub struct RenderQueue<T> {
    pending: VecDeque<RenderRequest<T>>,
    capacity: usize,
    next_ticket: u64,
}

impl<T> View for RenderQueue<T> {
    type V = Seq<RenderRequest<T>>;

    closed spec fn view(&self) -> Seq<RenderRequest<T>> {
        self.pending@
    }
}

impl<T> RenderQueue<T> {
    /// How many requests the queue holds before it drops new ones.
    pub closed spec fn spec_capacity(&self) -> nat {
        self.capacity as nat
    }

    /// The ticket that the next accepted request gets.
    pub closed spec fn spec_next_ticket(&self) -> nat {
        self.next_ticket as nat
    }

    /// Tickets rise through the queue and stay below the next one to hand out,
    /// and the queue is never over its capacity.
    pub open spec fn wf(&self) -> bool {
        &&& tickets_rise(self@)
        &&& forall|i: int| 0 <= i < self@.len() ==> (#[trigger] self@[i]).ticket < self.spec_next_ticket()
        &&& self@.len() <= self.spec_capacity()
    }

    /// An empty queue that holds up to `capacity` requests.
    pub fn new(capacity: usize) -> (r: Self)
        ensures
            r@ == Seq::<RenderRequest<T>>::empty(),
            r.spec_capacity() == capacity,
            r.spec_next_ticket() == 0,
            r.wf(),
    {
        RenderQueue { pending: VecDeque::new(), capacity, next_ticket: 0 }
    }

    /// How many requests wait.
    pub fn len(&self) -> (r: usize)
        ensures
            r == self@.len(),
    {
        self.pending.len()
    }

    /// Queues a snapshot and returns its ticket; when the queue is full (or the
    /// tickets are spent) the snapshot is dropped and nothing changes.
    pub fn submit(&mut self, snapshot: T) -> (r: Option<u64>)
        requires
            old(self).wf(),
        ensures
            final(self).wf(),
            final(self).spec_capacity() == old(self).spec_capacity(),
            (old(self)@.len() < old(self).spec_capacity() && old(self).spec_next_ticket()
                < u64::MAX) ==> r == Some(old(self).spec_next_ticket() as u64) && final(self)@
                == old(self)@.push(RenderRequest { ticket: old(self).spec_next_ticket() as u64, snapshot })
                && final(self).spec_next_ticket() == old(self).spec_next_ticket() + 1,
            !(old(self)@.len() < old(self).spec_capacity() && old(self).spec_next_ticket()
                < u64::MAX) ==> r is None && final(self)@ == old(self)@
                && final(self).spec_next_ticket() == old(self).spec_next_ticket(),
    {
        if self.pending.len() >= self.capacity || self.next_ticket == u64::MAX {
            return None;
        }
        let ticket = self.next_ticket;
        self.pending.push_back(RenderRequest { ticket, snapshot });
        self.next_ticket = ticket + 1;
        Some(ticket)
    }

    /// Takes the request that was submitted first among those waiting.
    pub fn next_request(&mut self) -> (r: Option<RenderRequest<T>>)
        requires
            old(self).wf(),
        ensures
            final(self).wf(),
            final(self).spec_capacity() == old(self).spec_capacity(),
            final(self).spec_next_ticket() == old(self).spec_next_ticket(),
            old(self)@.len() == 0 ==> r is None && final(self)@ == old(self)@,
            old(self)@.len() > 0 ==> r == Some(old(self)@[0]) && final(self)@ == old(self)@.drop_first(),
            r matches Some(req) ==> forall|i: int|
                0 <= i < final(self)@.len() ==> req.ticket < (#[trigger] final(self)@[i]).ticket,
    {
        let r = self.pending.pop_front();
        proof {
            if old(self)@.len() > 0 {
                assert(self@ =~= old(self)@.drop_first());
                assert forall|i: int| 0 <= i < self@.len() implies old(self)@[0].ticket < (
                #[trigger] self@[i]).ticket by {
                    assert(self@[i] == old(self)@[i + 1]);
                }
            }
        }
        r
    }
}

/// Of two requests in a well-formed queue, the one submitted first (the lower
/// ticket) stands nearer the front, so the worker, which always takes the
/// front, completes it first.
pub proof fn lemma_earlier_submission_served_first<T>(q: Seq<RenderRequest<T>>, a: int, b: int)
    requires
        tickets_rise(q),
        0 <= a < q.len(),
        0 <= b < q.len(),
        q[a].ticket < q[b].ticket,
    ensures
        a < b,
{
    if b <= a {
        if b < a {
            assert(q[b].ticket < q[a].ticket);
        }
    }
}

/// The worker's step: renders the raster that a request carries (RGBA bytes of
/// the window, its width and its height).
pub fn serve(request: RenderRequest<(Vec<u8>, u32, u32)>) -> (r: RenderCompleted)
    ensures
        r.ticket == request.ticket,
        ({
            let (rgba, width, height) = request.snapshot;
            &&& (width < CANVAS_SIZE || height < CANVAS_SIZE) ==> r.bitmap == Err::<Vec<u8>, RenderError>(
                RenderError::OutOfBounds,
            )
            &&& (width >= CANVAS_SIZE && height >= CANVAS_SIZE && rgba@.len() < width * height * 4)
                ==> r.bitmap == Err::<Vec<u8>, RenderError>(RenderError::BufferTooSmall)
            &&& (width >= CANVAS_SIZE && height >= CANVAS_SIZE && rgba@.len() >= width * height * 4)
                ==> (r.bitmap matches Ok(v) && v@ == bitmap_of(rgba@, width) && v@.len() == BITMAP_SIZE
                * BITMAP_SIZE * 4)
        }),
{
    let (rgba, width, height) = request.snapshot;
    RenderCompleted { ticket: request.ticket, bitmap: render(&rgba, width, height) }
}

/// The bitmap on display, with the ticket of the request it came from.
#[derive(Clone, Debug)]
pub struct LatestBitmap {
    shown: Option<(u64, Vec<u8>)>,
}

impl LatestBitmap {
    /// The ticket and bytes on display, if any.
    pub closed spec fn spec_shown(&self) -> Option<(u64, Seq<u8>)> {
        match self.shown {
            Some((t, b)) => Some((t, b@)),
            None => None,
        }
    }

    /// Nothing on display yet.
    pub fn new() -> (r: Self)
        ensures
            r.spec_shown() is None,
    {
        LatestBitmap { shown: None }
    }

    /// Shows a finished bitmap unless a later request's bitmap is already shown;
    /// a failed render leaves the display as it is. Returns whether it changed.
    pub fn accept(&mut self, done: RenderCompleted) -> (r: bool)
        ensures
            r <==> (done.bitmap is Ok && match old(self).spec_shown() {
                Some((t, _)) => t < done.ticket,
                None => true,
            }),
            r ==> final(self).spec_shown() == Some((done.ticket, done.bitmap->Ok_0@)),
            !r ==> final(self).spec_shown() == old(self).spec_shown(),
    {
        let newer = match &self.shown {
            Some((t, _)) => *t < done.ticket,
            None => true,
        };
        match done.bitmap {
            Ok(b) => {
                if newer {
                    self.shown = Some((done.ticket, b));
                    true
                } else {
                    false
                }
            },
            Err(_) => false,
        }
    }

    /// The bytes on display, if any.
    pub fn bitmap(&self) -> (r: Option<&Vec<u8>>)
        ensures
            match self.spec_shown() {
                Some((_, b)) => r matches Some(v) && v@ == b,
                None => r is None,
            },
    {
        match &self.shown {
            Some((_, b)) => Some(b),
            None => None,
        }
    }
}

} // verus!
