//! The channel on which connections report that a frame has gone out.

use tokio::sync::mpsc::UnboundedSender;
use vstd::prelude::*;

verus! {

/// The sending half of tokio's unbounded channel. Nothing of its inside is
/// known here.
#[verifier::external_type_specification]
#[verifier::external_body]
#[verifier::reject_recursive_types(T)]
pub struct ExUnboundedSender<T>(UnboundedSender<T>);

/// `UnboundedSender::send`: queues the pair without blocking. It fails only
/// where the receiving half is closed or dropped, which is for the other
/// side to decide: nothing is promised of the result.
#[verifier::external_body]
fn send_acknowledgement(
    notifier: &UnboundedSender<(i32, Option<u64>)>,
    conn_id: i32,
    frame_tm: Option<u64>,
) -> (queued: bool) {
    notifier.send((conn_id, frame_tm)).is_ok()
}

/// Reports that connection `conn_id` has dispatched the current frame;
/// `frame_tm` is the clock reading at which the frame was handed to it.
/// Returns whether the capture loop can still hear of it.
pub fn notify_video_frame_feched(
    notifier: &UnboundedSender<(i32, Option<u64>)>,
    conn_id: i32,
    frame_tm: Option<u64>,
) -> (queued: bool) {
    send_acknowledgement(notifier, conn_id, frame_tm)
}

} // verus!
