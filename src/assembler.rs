use vstd::prelude::*;

use crate::decoder::DecodedImage;
use crate::ServiceError;

verus! {

/// Delay of each frame, in hundredths of a second. The output is visually
/// static, so the value only keeps the animation well formed.
pub const FRAME_DELAY: u16 = 50;

/// Largest side of a GIF canvas.
pub const MAX_SIDE: u32 = 65535;

/// The GIF that the gif crate writes for a `width` by `height` canvas holding
/// the frame `first` and then the frame `second`, both RGBA, each with `delay`.
pub uninterp spec fn gif_of(width: u16, height: u16, first: Seq<u8>, second: Seq<u8>, delay: u16) -> Seq<u8>;

/// `n` zero bytes.
pub open spec fn zeros(n: nat) -> Seq<u8> {
    Seq::new(n, |i: int| 0u8)
}

/// Relies on gif::Frame::from_rgba_speed (panics unless the pixel length is
/// `width * height * 4`; at most 256 colours, palette sorted, so the bytes depend
/// on the arguments alone) and gif::Encoder::new / write_frame, which only fail on
/// a write error, a short buffer, a missing palette or more than 256 colours:
/// none of them for such frames written into a `Vec`.
#[verifier::external_body]
fn encode_two_frames(width: u16, height: u16, first: Vec<u8>, second: Vec<u8>, delay: u16) -> (r: Vec<u8>)
    requires
        first@.len() == 4 * (width as int) * (height as int),
        second@.len() == 4 * (width as int) * (height as int),
    ensures
        r@ == gif_of(width, height, first@, second@, delay),
{
    let (mut a, mut b) = (first, second);
    let mut frames = [gif::Frame::from_rgba_speed(width, height, &mut a, 30),
        gif::Frame::from_rgba_speed(width, height, &mut b, 30)];
    frames[0].delay = delay;
    frames[1].delay = delay;
    let mut out = Vec::new();
    {
        let mut enc = gif::Encoder::new(&mut out, width, height, &[]).expect("writes to a Vec");
        enc.write_frame(&frames[0]).expect("frame from RGBA");
        enc.write_frame(&frames[1]).expect("frame from RGBA");
    }
    out
}

/// `n` zero bytes.
fn zero_buffer(n: usize) -> (r: Vec<u8>)
    ensures
        r@ == zeros(n as nat),
{
    let mut v: Vec<u8> = Vec::new();
    let mut i: usize = 0;
    while i < n
        invariant
            i <= n,
            v@ == zeros(i as nat),
        decreases n - i,
    {
        v.push(0u8);
        i = i + 1;
        assert(v@ =~= zeros(i as nat));
    }
    v
}

/// Two-frame GIF of `img`: an all-zero placeholder of the same size first, then
/// the image itself, both on a canvas of the image's size.
pub fn create_gif(img: DecodedImage) -> (r: Result<Vec<u8>, ServiceError>)
    requires
        img.wf(),
    ensures
        (img.width <= MAX_SIDE && img.height <= MAX_SIDE) <==> r is Ok,
        r matches Ok(g) ==> g@ == gif_of(
            img.width as u16,
            img.height as u16,
            zeros(img.pixels@.len()),
            img.pixels@,
            FRAME_DELAY,
        ),
        r matches Err(e) ==> e is Encode,
{
    if img.width > MAX_SIDE || img.height > MAX_SIDE {
        return Err(ServiceError::Encode(String::from_str("the image is too large for a GIF canvas")));
    }
    let width = img.width as u16;
    let height = img.height as u16;
    let placeholder = zero_buffer(img.pixels.len());
    Ok(encode_two_frames(width, height, placeholder, img.pixels, FRAME_DELAY))
}

} // verus!
