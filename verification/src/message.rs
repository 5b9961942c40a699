//! What the pipeline hands to the transport: encoded video, the
//! announcement of a display switch, and privacy-mode notices.

use vstd::prelude::*;

verus! {

/// One packet as the encoder produced it.
#[derive(Clone, Debug, PartialEq, Eq)]
pub struct EncodeFrame {
    /// The encoded bytes.
    pub data: Vec<u8>,
    /// Whether the packet is a key frame.
    pub key: bool,
    /// Presentation time in milliseconds since the session began.
    pub pts: i64,
}

/// One packet as it goes out to viewers.
#[derive(Clone, Debug, PartialEq, Eq)]
pub struct VP9 {
    pub data: Vec<u8>,
    pub key: bool,
    pub pts: i64,
}

/// The announcement that another display is captured from now on.
#[derive(Clone, Copy, Debug, PartialEq, Eq, Structural)]
pub struct SwitchDisplay {
    pub display: i32,
    pub x: i32,
    pub y: i32,
    pub width: i32,
    pub height: i32,
}

/// A state of privacy mode that connections are told of.
#[derive(Clone, Copy, Debug, PartialEq, Eq, Structural)]
pub enum PrivacyModeState {
    /// Another connection has taken privacy mode over.
    OnByOther,
}

/// A message for the transport.
#[derive(Clone, Debug, PartialEq, Eq)]
pub enum Message {
    /// The packets of one frame.
    VideoFrame(Vec<VP9>),
    /// The display captured has changed.
    SwitchDisplay(SwitchDisplay),
    /// Privacy mode has changed hands.
    PrivacyMode(PrivacyModeState),
}

/// The outgoing packet for an encoder packet.
pub open spec fn spec_create_frame(frame: EncodeFrame) -> VP9 {
    VP9 { data: frame.data, key: frame.key, pts: frame.pts }
}

/// The outgoing packets for a run of encoder packets.
pub open spec fn spec_create_frames(frames: Seq<EncodeFrame>) -> Seq<VP9> {
    Seq::new(frames.len(), |i: int| spec_create_frame(frames[i]))
}

/// Turns an encoder packet into the packet that goes out: the same bytes,
/// key flag and time.
pub fn create_frame(frame: EncodeFrame) -> (vp9: VP9)
    ensures
        vp9 == spec_create_frame(frame),
{
    VP9 { data: frame.data, key: frame.key, pts: frame.pts }
}

/// Appends the outgoing packets for `frames` to `out`, in order.
pub fn append_frames(out: &mut Vec<VP9>, frames: Vec<EncodeFrame>)
    ensures
        final(out)@ == old(out)@ + spec_create_frames(frames@),
{
    let ghost before = out@;
    let ghost all = frames@;
    let mut frames = frames;
    let mut rest: Vec<EncodeFrame> = Vec::new();
    // Take the packets from the back, then turn the run round again.
    while frames.len() > 0
        invariant
            frames@.len() + rest@.len() == all.len(),
            frames@ == all.take(frames@.len() as int),
            forall|j: int| 0 <= j < rest@.len() ==> rest@[j] == all[all.len() - 1 - j],
        decreases frames@.len(),
    {
        let frame = frames.pop().unwrap();
        rest.push(frame);
    }
    while rest.len() > 0
        invariant
            rest@.len() <= all.len(),
            forall|j: int| 0 <= j < rest@.len() ==> rest@[j] == all[all.len() - 1 - j],
            out@ == before + spec_create_frames(all.take(all.len() - rest@.len())),
        decreases rest@.len(),
    {
        let ghost done = all.len() - rest@.len();
        let frame = rest.pop().unwrap();
        assert(frame == all[done]);
        out.push(create_frame(frame));
        assert(out@ =~= before + spec_create_frames(all.take(done + 1)));
    }
    assert(all.take(all.len() as int) =~= all);
}

/// The video message that carries `vp9s`.
pub fn create_msg(vp9s: Vec<VP9>) -> (msg: Message)
    ensures
        msg == Message::VideoFrame(vp9s),
{
    Message::VideoFrame(vp9s)
}

/// The announcement that display `display`, at origin (`x`, `y`) and of
/// size `width` by `height`, is captured from now on. Sizes are cut to the
/// 32 bits of the announcement's fields.
pub fn switch_display_msg(display: usize, x: i32, y: i32, width: usize, height: usize) -> (msg:
    Message)
    ensures
        msg == Message::SwitchDisplay(
            SwitchDisplay {
                display: display as i32,
                x,
                y,
                width: width as i32,
                height: height as i32,
            },
        ),
{
    Message::SwitchDisplay(
        SwitchDisplay {
            display: #[verifier::truncate]
            (display as i32),
            x,
            y,
            width: #[verifier::truncate]
            (width as i32),
            height: #[verifier::truncate]
            (height as i32),
        },
    )
}

/// The notice of a state of privacy mode.
pub fn make_privacy_mode_msg(state: PrivacyModeState) -> (msg: Message)
    ensures
        msg == Message::PrivacyMode(state),
{
    Message::PrivacyMode(state)
}

} // verus!
