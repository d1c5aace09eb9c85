//! The encoding pipeline: configure the external AV1 encoder, feed it one
//! uniform gray frame the requested number of times, drain its packets and
//! accumulate them as frame records of an IVF file. The encoder itself is an
//! outside collaborator reached only through the trusted wrappers below; every
//! decision around it is verified.

use crate::driver::{Driver, PacketEvent, Phase, SubmitStatus};
use crate::ivf::spec_ivf_file;
use vstd::prelude::*;

verus! {

/// The external encoder context (rav1e's Context over 16-bit pixels), held
/// opaque: its generic parameter carries an outside trait bound that cannot
/// be declared here, so the context lives in a hidden field instead.
#[verifier::external_body]
struct RawContext {
    ctx: rav1e::Context<u16>,
}

/// An external raw frame (rav1e's Frame over 16-bit pixels), held opaque for
/// the same reason.
#[verifier::external_body]
struct RawPlanes {
    frame: rav1e::Frame<u16>,
}

/// The encoder together with the width and height it was configured for,
/// carried in ghost form so that a frame can be tied to the context that
/// allocated it.
pub struct Encoder {
    raw: RawContext,
    pub dims: Ghost<(u16, u16)>,
}

/// A raw frame together with the dimensions of the context that allocated it.
pub struct RawFrame {
    raw: RawPlanes,
    pub dims: Ghost<(u16, u16)>,
}

/// Which stage of the pipeline failed.
#[derive(Clone, Copy, Debug, PartialEq, Eq, Structural)]
pub enum EncodeError {
    /// The encoder rejected the configuration, or the frame geometry was
    /// unusable.
    Config,
    /// The encoder reported a fatal condition while frames were offered.
    Submission,
    /// The encoder reported a fatal condition while packets were drained, or
    /// yielded a packet too long for a record's 4-byte length prefix.
    Drain,
}

/// Relies on rav1e's Config::new_context: builds an encoder context for the
/// given dimensions, speed preset and base quantizer, or reports an invalid
/// configuration.
#[verifier::external_body]
fn new_raw_context(width: u16, height: u16, speed: u8, quantizer: u8) -> (r: Option<RawContext>) {
    let enc = rav1e::EncoderConfig {
        width: width as usize,
        height: height as usize,
        speed_settings: rav1e::config::SpeedSettings::from_preset(speed),
        quantizer: quantizer as usize,
        ..Default::default()
    };
    match rav1e::Config::new().with_encoder_config(enc).new_context::<u16>() {
        Ok(ctx) => Some(RawContext { ctx }),
        Err(_) => None,
    }
}

/// Builds the encoder and records the dimensions it was configured with.
fn new_encoder(width: u16, height: u16, speed: u8, quantizer: u8) -> (r: Option<Encoder>)
    ensures
        r matches Some(e) ==> e.dims@ == (width, height),
{
    match new_raw_context(width, height, speed, quantizer) {
        Some(raw) => Some(Encoder { raw, dims: Ghost((width, height)) }),
        None => None,
    }
}

/// Relies on Context::new_frame: allocates a frame matching the context's
/// configured dimensions and chroma sampling.
#[verifier::external_body]
fn new_raw_frame(ctx: &RawContext) -> (r: RawPlanes) {
    RawPlanes { frame: ctx.ctx.new_frame() }
}

/// Allocates a frame for this encoder, carrying the encoder's dimensions.
fn new_frame(enc: &Encoder) -> (f: RawFrame)
    ensures
        f.dims@ == enc.dims@,
{
    RawFrame { raw: new_raw_frame(&enc.raw), dims: enc.dims }
}

/// Relies on the plane configuration of v_frame's Frame: reads the horizontal
/// chroma decimation of plane `i`. A frame holds exactly three planes.
#[verifier::external_body]
fn plane_xdec(frame: &RawPlanes, i: usize) -> (r: usize)
    requires
        i < 3,
{
    frame.frame.planes[i].cfg.xdec
}

/// Relies on Plane::copy_from_raw_u8: fills plane `i` from 8-bit samples laid
/// out with the given source stride, one byte per pixel. The call asserts a
/// nonzero stride on both sides; planes allocated by Frame::new for nonzero
/// dimensions carry one.
#[verifier::external_body]
fn plane_copy_from_raw_u8(frame: &mut RawPlanes, i: usize, src: &Vec<u8>, stride: usize)
    requires
        i < 3,
        stride >= 1,
{
    frame.frame.planes[i].copy_from_raw_u8(src.as_slice(), stride, 1);
}

/// Relies on Context::send_frame: offers a copy of the frame to the encoder's
/// queue. A submission after a flush or past the encoder's frame limit is
/// answered with EnoughData, the queue-full condition; anything else that
/// fails is fatal. rav1e pads the copy in place to the context's dimensions,
/// so the frame must come from a context of the same dimensions — the ghost
/// dimensions tie the two.
#[verifier::external_body]
fn send_frame_copy(enc: &mut Encoder, frame: &RawFrame) -> (r: SubmitStatus)
    requires
        frame.dims@ == old(enc).dims@,
    ensures
        final(enc).dims@ == old(enc).dims@,
{
    match enc.raw.ctx.send_frame(frame.raw.frame.clone()) {
        Ok(()) => SubmitStatus::Accepted,
        Err(rav1e::EncoderStatus::EnoughData) => SubmitStatus::QueueFull,
        Err(_) => SubmitStatus::Fatal,
    }
}

/// Relies on Context::flush: signals the end of input; rav1e documents that
/// the internal submission of the flush marker does not fail.
#[verifier::external_body]
fn flush_encoder(enc: &mut Encoder) {
    enc.raw.ctx.flush()
}

/// Relies on Context::receive_packet: yields the next encoded packet's bytes
/// and input frame number, or a status — LimitReached ends the stream,
/// NeedMoreData asks for input that will not come, Encoded is transient;
/// anything else is fatal.
#[verifier::external_body]
fn receive_packet_event(enc: &mut Encoder) -> (r: PacketEvent) {
    match enc.raw.ctx.receive_packet() {
        Ok(p) => PacketEvent::Packet { data: p.data, display_index: p.input_frameno },
        Err(rav1e::EncoderStatus::LimitReached) => PacketEvent::StreamExhausted,
        Err(rav1e::EncoderStatus::NeedMoreData) => PacketEvent::NeedMoreInput,
        Err(rav1e::EncoderStatus::Encoded) => PacketEvent::TryAgain,
        Err(_) => PacketEvent::Fatal,
    }
}

/// Encodes `frame_count` copies of a uniform mid-gray frame and returns the
/// bytes of a complete IVF file. Whatever packets the encoder yields, a
/// successful run returns a well-formed file: the 32-byte header for the
/// given width, height and frame rate, followed by one record per packet in
/// arrival order. A full encoder queue ends submission early and is not an
/// error; a fatal encoder report in either phase is.
pub fn encode_to_ivf(
    width: u16,
    height: u16,
    frame_rate: u32,
    frame_count: usize,
    speed: u8,
    quantizer: u8,
) -> (r: Result<Vec<u8>, EncodeError>)
    ensures
        r matches Ok(buf) ==> exists|frames: Seq<(Seq<u8>, u64)>|
            buf@ == spec_ivf_file(width, height, frame_rate, frames),
        width == 0 || height == 0 ==> r == Err::<Vec<u8>, EncodeError>(EncodeError::Config),
{
    if width == 0 || height == 0 {
        return Err(EncodeError::Config);
    }
    let mut ctx = match new_encoder(width, height, speed, quantizer) {
        Some(c) => c,
        None => { return Err(EncodeError::Config) },
    };
    let mut frame = new_frame(&ctx);

    // One mid-gray 8-bit sample per pixel of the full-resolution plane.
    proof {
        assert((width as int) * (height as int) <= 0xffff * 0xffff) by (nonlinear_arith)
            requires
                width <= 0xffff,
                height <= 0xffff,
        ;
    }
    let npix: usize = (width as usize) * (height as usize);
    let pixels: Vec<u8> = vec![128; npix];

    // Fill each plane, halving the source stride where the plane is
    // chroma-decimated. Only decimations of 0 and 1 occur in frames the
    // encoder hands out; anything else is unusable geometry.
    let mut pi: usize = 0;
    while pi < 3
        invariant
            width >= 1,
            pi <= 3,
            frame.dims@ == ctx.dims@,
        decreases 3 - pi,
    {
        let xdec = plane_xdec(&frame.raw, pi);
        if xdec > 1 {
            return Err(EncodeError::Config);
        }
        let stride: usize = if xdec == 1 {
            (width as usize + 1) / 2
        } else {
            width as usize
        };
        plane_copy_from_raw_u8(&mut frame.raw, pi, &pixels, stride);
        pi = pi + 1;
    }

    let mut drv = Driver::new(width, height, frame_rate, frame_count);

    // Submission phase: offer the frame until the target is reached, the
    // queue fills, or the encoder fails.
    while drv.phase == Phase::Submitting
        invariant
            drv.wf(),
            drv.width == width,
            drv.height == height,
            drv.frame_rate == frame_rate,
            drv.phase == Phase::Submitting || drv.phase == Phase::Draining || drv.phase
                == Phase::Failed,
            frame.dims@ == ctx.dims@,
        decreases (if drv.phase == Phase::Submitting { 1int } else { 0int }),
            drv.target - drv.submitted,
    {
        let s = send_frame_copy(&mut ctx, &frame);
        drv.on_submit_status(s);
    }
    if drv.phase == Phase::Failed {
        return Err(EncodeError::Submission);
    }

    // End of input: nothing further will be submitted.
    flush_encoder(&mut ctx);

    // Drain phase: every packet becomes one record, in arrival order. The
    // poll budget is never exhausted in practice; it gives the loop a
    // termination measure over an adapter that may answer "try again".
    let mut polls_left: u64 = 0xffff_ffff_ffff_ffff;
    while drv.phase == Phase::Draining
        invariant
            width >= 1,
            height >= 1,
            drv.wf(),
            drv.width == width,
            drv.height == height,
            drv.frame_rate == frame_rate,
            drv.phase == Phase::Draining || drv.phase == Phase::Done || drv.phase == Phase::Failed,
        decreases polls_left,
    {
        if polls_left == 0 {
            return Err(EncodeError::Drain);
        }
        polls_left = polls_left - 1;
        let e = receive_packet_event(&mut ctx);
        drv.on_packet_event(e);
    }
    if drv.phase == Phase::Failed {
        return Err(EncodeError::Drain);
    }

    let ghost frames = drv.frames@;
    let buf = drv.into_bytes();
    proof {
        assert(buf@ == spec_ivf_file(width, height, frame_rate, frames));
    }
    Ok(buf)
}

} // verus!
