//! The application's decisions around the canvas: what to do when a line is
//! completed, when the window is known, and when a raster or a bitmap arrives.
use vstd::prelude::*;
use crate::coordinator::{LatestBitmap, RenderCompleted, RenderQueue, RenderRequest};
use crate::strokes::Number;

verus! {

/// How many rasters may wait for the renderer before new ones are dropped.
pub const QUEUE_CAPACITY: usize = 16;

/// What the host should do next.
#[derive(Clone, Copy, Debug, PartialEq)]
pub enum Command<W> {
    Nothing,
    /// Look up the application's window again.
    FindWindow,
    /// Take a screenshot of the window, whose canvas is then rendered.
    Screenshot(W),
}

/// The state of the application: the committed strokes, the canvas bounds, the
/// window, the queue of rasters to render, whether a render is under way, and
/// the bitmap on display.
#[derive(Debug)]
pub struct Session<P, W> {
    pub canvas: Number<P>,
    pub canvas_bound: Option<P>,
    pub window: Option<W>,
    pub queue: RenderQueue<(Vec<u8>, u32, u32)>,
    pub rendering: bool,
    pub shown: LatestBitmap,
}

impl<P: Copy, W: Copy> Session<P, W> {
    pub open spec fn wf(&self) -> bool {
        self.canvas.wf() && self.queue.wf()
    }

    /// No strokes, no window, nothing queued or shown.
    pub fn new() -> (r: Self)
        ensures
            r.wf(),
            r.canvas@ == Seq::<Seq<P>>::empty(),
            r.canvas_bound is None,
            r.window is None,
            r.queue@ == Seq::<RenderRequest<(Vec<u8>, u32, u32)>>::empty(),
            r.queue.spec_capacity() == QUEUE_CAPACITY,
            !r.rendering,
            r.shown.spec_shown() is None,
    {
        Session {
            canvas: Number::new(),
            canvas_bound: None,
            window: None,
            queue: RenderQueue::new(QUEUE_CAPACITY),
            rendering: false,
            shown: LatestBitmap::new(),
        }
    }

    /// A completed line: commit its stroke, keep its bounds point, and ask for
    /// a screenshot when the window is known. A payload without a stroke point
    /// changes nothing.
    pub fn line_complete(&mut self, message: Vec<P>) -> (r: Command<W>)
        requires
            old(self).wf(),
        ensures
            final(self).wf(),
            final(self).window == old(self).window,
            final(self).queue == old(self).queue,
            final(self).rendering == old(self).rendering,
            final(self).shown == old(self).shown,
            message@.len() >= 2 ==> final(self).canvas@ == old(self).canvas@.push(message@.drop_last())
                && final(self).canvas_bound == Some(message@.last()) && r == match old(self).window {
                Some(w) => Command::Screenshot(w),
                None => Command::<W>::Nothing,
            },
            message@.len() < 2 ==> final(self).canvas@ == old(self).canvas@ && final(self).canvas_bound
                == old(self).canvas_bound && r == Command::<W>::Nothing,
    {
        match self.canvas.commit_line(message) {
            Some(bounds) => {
                self.canvas_bound = Some(bounds);
                match self.window {
                    Some(w) => Command::Screenshot(w),
                    None => Command::Nothing,
                }
            },
            None => Command::Nothing,
        }
    }

    /// The window lookup answered: keep the window, or look again.
    pub fn window_found(&mut self, window: Option<W>) -> (r: Command<W>)
        ensures
            window is Some ==> final(self).window == window && r == Command::<W>::Nothing,
            window is None ==> final(self).window == old(self).window && r == Command::<W>::FindWindow,
            final(self).canvas == old(self).canvas,
            final(self).canvas_bound == old(self).canvas_bound,
            final(self).queue == old(self).queue,
            final(self).rendering == old(self).rendering,
            final(self).shown == old(self).shown,
    {
        match window {
            Some(w) => {
                self.window = Some(w);
                Command::Nothing
            },
            None => Command::FindWindow,
        }
    }

    /// A screenshot arrived: queue its raster for the renderer. Returns its
    /// ticket, or `None` when the queue was full and it was dropped.
    pub fn screenshot_taken(&mut self, rgba: Vec<u8>, width: u32, height: u32) -> (r: Option<u64>)
        requires
            old(self).wf(),
        ensures
            final(self).wf(),
            final(self).canvas == old(self).canvas,
            final(self).canvas_bound == old(self).canvas_bound,
            final(self).window == old(self).window,
            final(self).rendering == old(self).rendering,
            final(self).shown == old(self).shown,
            final(self).queue.spec_capacity() == old(self).queue.spec_capacity(),
            r matches Some(t) ==> t == old(self).queue.spec_next_ticket() && final(self).queue@
                == old(self).queue@.push(RenderRequest { ticket: t, snapshot: (rgba, width, height) })
                && final(self).queue.spec_next_ticket() == old(self).queue.spec_next_ticket() + 1,
            r is None ==> final(self).queue@ == old(self).queue@ && final(self).queue.spec_next_ticket()
                == old(self).queue.spec_next_ticket(),
            (old(self).queue@.len() < old(self).queue.spec_capacity()
                && old(self).queue.spec_next_ticket() < u64::MAX) <==> r is Some,
    {
        self.queue.submit((rgba, width, height))
    }

    /// Starts the next render, one at a time: while a render is under way
    /// nothing starts; otherwise the raster queued first is taken, if any.
    pub fn start_render(&mut self) -> (r: Option<RenderRequest<(Vec<u8>, u32, u32)>>)
        requires
            old(self).wf(),
        ensures
            final(self).wf(),
            final(self).canvas == old(self).canvas,
            final(self).canvas_bound == old(self).canvas_bound,
            final(self).window == old(self).window,
            final(self).shown == old(self).shown,
            final(self).queue.spec_capacity() == old(self).queue.spec_capacity(),
            final(self).queue.spec_next_ticket() == old(self).queue.spec_next_ticket(),
            (old(self).rendering || old(self).queue@.len() == 0) ==> r is None && final(self).queue@
                == old(self).queue@ && final(self).rendering == old(self).rendering,
            (!old(self).rendering && old(self).queue@.len() > 0) ==> r == Some(old(self).queue@[0])
                && final(self).queue@ == old(self).queue@.drop_first() && final(self).rendering,
    {
        if self.rendering {
            return None;
        }
        let r = self.queue.next_request();
        self.rendering = r.is_some();
        r
    }

    /// A render finished: no render is under way any more, and its bitmap is
    /// shown unless a later one is.
    pub fn rendered(&mut self, done: RenderCompleted) -> (r: bool)
        ensures
            final(self).canvas == old(self).canvas,
            final(self).canvas_bound == old(self).canvas_bound,
            final(self).window == old(self).window,
            final(self).queue == old(self).queue,
            !final(self).rendering,
            r <==> (done.bitmap is Ok && match old(self).shown.spec_shown() {
                Some((t, _)) => t < done.ticket,
                None => true,
            }),
            r ==> final(self).shown.spec_shown() == Some((done.ticket, done.bitmap->Ok_0@)),
            !r ==> final(self).shown.spec_shown() == old(self).shown.spec_shown(),
    {
        self.rendering = false;
        self.shown.accept(done)
    }
}

} // verus!
