use vstd::prelude::*;

verus! {

#[verifier::external_type_specification]
#[verifier::external_body]
pub struct ExEncodingError(gif::EncodingError);

/// Holds the gif crate's encoder over an in-memory byte stream. Verus sees a
/// value of this type only through the names below and the trusted wrappers.
#[verifier::external_body]
pub struct GifSink {
    enc: gif::Encoder<Vec<u8>>,
}

/// The image width the encoder was created with.
pub uninterp spec fn enc_width(e: GifSink) -> u16;

/// The image height the encoder was created with.
pub uninterp spec fn enc_height(e: GifSink) -> u16;

/// Whether the stream has been marked to repeat forever.
pub uninterp spec fn enc_looped(e: GifSink) -> bool;

/// The frames written so far, in order: for each, its indexed pixel bytes,
/// its local palette bytes, and its delay in 10 ms units.
pub uninterp spec fn enc_frames(e: GifSink) -> Seq<(Seq<u8>, Seq<u8>, u16)>;

/// The bytes of a finished stream: a function of the dimensions, the repeat
/// marker and the frames written, and of nothing else.
pub uninterp spec fn gif_bytes_of(
    width: u16,
    height: u16,
    looped: bool,
    frames: Seq<(Seq<u8>, Seq<u8>, u16)>,
) -> Seq<u8>;

/// Relies on gif::Encoder::new: starts a stream for width-by-height frames
/// with an empty global palette and no frames written yet.
#[verifier::external_body]
fn gif_new(width: u16, height: u16) -> (r: Result<GifSink, gif::EncodingError>)
    ensures
        r matches Ok(e) ==> enc_width(e) == width && enc_height(e) == height && !enc_looped(e)
            && enc_frames(e) == Seq::<(Seq<u8>, Seq<u8>, u16)>::empty(),
{
    match gif::Encoder::new(Vec::new(), width, height, &[]) {
        Ok(e) => Ok(GifSink { enc: e }),
        Err(er) => Err(er),
    }
}

/// Relies on gif::Encoder::set_repeat with gif::Repeat::Infinite: marks the
/// stream to loop forever; dimensions and already-written frames are kept.
#[verifier::external_body]
fn gif_set_repeat_infinite(e: &mut GifSink) -> (r: Result<(), gif::EncodingError>)
    ensures
        r is Ok ==> enc_width(*final(e)) == enc_width(*old(e)) && enc_height(*final(e))
            == enc_height(*old(e)) && enc_looped(*final(e)) && enc_frames(*final(e)) == enc_frames(
            *old(e),
        ),
{
    e.enc.set_repeat(gif::Repeat::Infinite)
}

/// Relies on gif::Encoder::write_frame: appends one full-size frame with the
/// given indexed pixels, local palette and delay (in 10 ms units); earlier
/// frames and the stream settings are kept.
#[verifier::external_body]
fn gif_write_frame(
    e: &mut GifSink,
    pixels: &Vec<u8>,
    width: u16,
    height: u16,
    palette: &Vec<u8>,
    delay: u16,
) -> (r: Result<(), gif::EncodingError>)
    requires
        pixels@.len() == (width as int) * (height as int),
        width == enc_width(*old(e)),
        height == enc_height(*old(e)),
    ensures
        r is Ok ==> enc_width(*final(e)) == enc_width(*old(e)) && enc_height(*final(e))
            == enc_height(*old(e)) && enc_looped(*final(e)) == enc_looped(*old(e)) && enc_frames(
            *final(e),
        ) == enc_frames(*old(e)).push((pixels@, palette@, delay)),
{
    let mut frame = gif::Frame::default();
    frame.width = width;
    frame.height = height;
    frame.buffer = std::borrow::Cow::Borrowed(pixels.as_slice());
    frame.delay = delay;
    frame.palette = Some(palette.clone());
    e.enc.write_frame(&frame)
}

/// Relies on gif::Encoder::into_inner: writes the trailer and returns the
/// accumulated stream bytes.
#[verifier::external_body]
fn gif_finish(e: GifSink) -> (r: Result<Vec<u8>, gif::EncodingError>)
    ensures
        r matches Ok(bytes) ==> bytes@ == gif_bytes_of(
            enc_width(e),
            enc_height(e),
            enc_looped(e),
            enc_frames(e),
        ),
{
    e.enc.into_inner()
}

/// A captured frame quantized to the two-entry palette: pixel i becomes
/// index 1 (white) when the red channel of its RGBA slot exceeds 128, else
/// index 0 (black). Only the red channel is inspected.
pub open spec fn quantized(frame: Seq<u8>, n: int) -> Seq<u8> {
    Seq::new(n as nat, |i: int| if frame[4 * i] > 128 { 1u8 } else { 0u8 })
}

/// The shared two-entry palette: black, then white.
pub open spec fn palette_bytes() -> Seq<u8> {
    seq![0u8, 0u8, 0u8, 255u8, 255u8, 255u8]
}

/// The views of a list of captured frames.
pub open spec fn frame_views(frames: Seq<Vec<u8>>) -> Seq<Seq<u8>> {
    frames.map_values(|f: Vec<u8>| f@)
}

/// What the encoder is fed for a list of captured frames: each frame
/// quantized, all sharing the fixed palette and the fixed delay.
pub open spec fn gif_records(frames: Seq<Seq<u8>>, w: int, h: int) -> Seq<(Seq<u8>, Seq<u8>, u16)> {
    Seq::new(frames.len(), |i: int| (quantized(frames[i], w * h), palette_bytes(), 10u16))
}

/// Failure to write the animation stream, carried up from the encoder.
#[derive(Clone, Copy, PartialEq, Eq, Structural, Debug)]
pub enum EncodeError {
    Stream,
}

/// Quantizes the first n RGBA pixels of a captured frame to two-color
/// indexed form.
pub fn quantize_frame(frame: &Vec<u8>, n: usize) -> (r: Vec<u8>)
    requires
        frame@.len() >= 4 * (n as int),
    ensures
        r@ == quantized(frame@, n as int),
{
    let total: usize = frame.len();
    let mut r: Vec<u8> = Vec::new();
    let mut i: usize = 0;
    while i < n
        invariant
            i <= n,
            frame@.len() >= 4 * (n as int),
            frame@.len() == total as int,
            r@.len() == i as int,
            forall|j: int|
                0 <= j < i ==> r@[j] == (if frame@[4 * j] > 128 {
                    1u8
                } else {
                    0u8
                }),
        decreases n - i,
    {
        if frame[4 * i] > 128 {
            r.push(1);
        } else {
            r.push(0);
        }
        i = i + 1;
    }
    proof {
        assert(r@ =~= quantized(frame@, n as int));
    }
    r
}

/// Quantizes every captured frame to the two-color palette and encodes them,
/// in capture order, as one infinitely looping animation with the fixed
/// per-frame delay. On success the returned bytes are exactly the encoding
/// of those quantized frames; any encoder failure aborts the whole encode.
pub fn save_gif(frames: &Vec<Vec<u8>>, width: u16, height: u16) -> (r: Result<
    Vec<u8>,
    EncodeError,
>)
    requires
        forall|i: int|
            0 <= i < frames@.len() ==> #[trigger] frames@[i]@.len() >= 4 * ((width as int) * (height as int)),
    ensures
        r matches Ok(bytes) ==> bytes@ == gif_bytes_of(
            width,
            height,
            true,
            gif_records(frame_views(frames@), width as int, height as int),
        ),
{
    proof {
        assert((width as int) * (height as int) <= 0xffff * 0xffff) by (nonlinear_arith)
            requires
                width as int <= 0xffff,
                height as int <= 0xffff,
        ;
    }
    let n: usize = (width as usize) * (height as usize);
    let mut palette: Vec<u8> = Vec::new();
    palette.push(0);
    palette.push(0);
    palette.push(0);
    palette.push(255);
    palette.push(255);
    palette.push(255);
    proof {
        assert(palette@ =~= palette_bytes());
    }
    let mut enc = match gif_new(width, height) {
        Ok(e) => e,
        Err(_) => {
            return Err(EncodeError::Stream);
        },
    };
    match gif_set_repeat_infinite(&mut enc) {
        Ok(u) => {},
        Err(_) => {
            return Err(EncodeError::Stream);
        },
    }
    let ghost all = gif_records(frame_views(frames@), width as int, height as int);
    let mut i: usize = 0;
    while i < frames.len()
        invariant
            i <= frames@.len(),
            forall|j: int|
                0 <= j < frames@.len() ==> #[trigger] frames@[j]@.len() >= 4 * ((width as int) * (height as int)),
            n == (width as int) * (height as int),
            palette@ == palette_bytes(),
            all == gif_records(frame_views(frames@), width as int, height as int),
            enc_width(enc) == width,
            enc_height(enc) == height,
            enc_looped(enc),
            enc_frames(enc) == all.take(i as int),
        decreases frames@.len() - i,
    {
        let q = quantize_frame(&frames[i], n);
        let ghost before = enc_frames(enc);
        match gif_write_frame(&mut enc, &q, width, height, &palette, 10) {
            Ok(u) => {},
            Err(_) => {
                return Err(EncodeError::Stream);
            },
        }
        proof {
            assert(enc_frames(enc) =~= all.take(i as int + 1));
        }
        i = i + 1;
    }
    proof {
        assert(all.take(frames@.len() as int) =~= all);
    }
    match gif_finish(enc) {
        Ok(bytes) => Ok(bytes),
        Err(_) => Err(EncodeError::Stream),
    }
}

} // verus!
