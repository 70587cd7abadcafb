use digit_canvas::coordinator::{serve, LatestBitmap, RenderCompleted, RenderQueue, RenderRequest};
use digit_canvas::raster::RenderError;

#[test]
fn requests_are_served_in_submission_order() {
    let mut q: RenderQueue<&str> = RenderQueue::new(4);
    let a = q.submit("A").unwrap();
    let b = q.submit("B").unwrap();
    assert!(a < b);
    let first = q.next_request().unwrap();
    let second = q.next_request().unwrap();
    assert_eq!((first.ticket, first.snapshot), (a, "A"));
    assert_eq!((second.ticket, second.snapshot), (b, "B"));
    assert!(q.next_request().is_none());
}

#[test]
fn full_queue_drops_new_requests() {
    let mut q: RenderQueue<u32> = RenderQueue::new(2);
    assert_eq!(q.submit(1), Some(0));
    assert_eq!(q.submit(2), Some(1));
    assert_eq!(q.submit(3), None);
    assert_eq!(q.len(), 2);
    assert_eq!(q.next_request().unwrap().snapshot, 1);
    assert_eq!(q.submit(4), Some(2));
    assert_eq!(q.next_request().unwrap().snapshot, 2);
    assert_eq!(q.next_request().unwrap().snapshot, 4);
}

#[test]
fn older_bitmap_never_replaces_newer() {
    let mut shown = LatestBitmap::new();
    assert!(shown.bitmap().is_none());
    assert!(shown.accept(RenderCompleted { ticket: 1, bitmap: Ok(vec![1]) }));
    assert!(!shown.accept(RenderCompleted { ticket: 0, bitmap: Ok(vec![0]) }));
    assert_eq!(shown.bitmap(), Some(&vec![1]));
    assert!(!shown.accept(RenderCompleted { ticket: 2, bitmap: Err(RenderError::BufferTooSmall) }));
    assert!(shown.accept(RenderCompleted { ticket: 3, bitmap: Ok(vec![3]) }));
    assert_eq!(shown.bitmap(), Some(&vec![3]));
}

#[test]
fn serve_keeps_the_ticket() {
    let done = serve(RenderRequest { ticket: 7, snapshot: (vec![255u8; 500 * 500 * 4], 500, 500) });
    assert_eq!(done.ticket, 7);
    let bitmap = done.bitmap.unwrap();
    assert_eq!(bitmap.len(), 256);
    let failed = serve(RenderRequest { ticket: 8, snapshot: (vec![], 10, 10) });
    assert_eq!(failed.bitmap, Err(RenderError::OutOfBounds));
}

#[test]
fn queued_end_to_end_render() {
    let mut q: RenderQueue<(Vec<u8>, u32, u32)> = RenderQueue::new(8);
    let mut shown = LatestBitmap::new();
    q.submit((vec![0u8; 500 * 500 * 4], 500, 500));
    q.submit((vec![255u8; 500 * 500 * 4], 500, 500));
    while let Some(req) = q.next_request() {
        shown.accept(serve(req));
    }
    assert!(shown.bitmap().unwrap().iter().all(|b| *b == 255));
}
