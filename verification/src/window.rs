//! The output size: the size observed this frame, the size last acted upon,
//! the notification that links them, and the buffers and the image that
//! follow a change of size.

use crate::buffers::{
    first_at, holds_slot, lemma_written_holds, written, BufferError, BufferType, ComputeBuffers,
    Slots,
};
use crate::float_bits::{
    float_bits_equal, float_bits_to_pixels, float_eq, pixels, F32_STARTUP_HEIGHT,
    F32_STARTUP_WIDTH,
};
use crate::memory::{decoded_words, lemma_image_decodes, native_image};
use crate::pipeline::{ComputeImage, Sprite};
use vstd::endian::endianness;
use vstd::prelude::*;

verus! {

/// The size of the output, each dimension as the bit pattern of a float.
#[derive(Clone, Copy, Debug)]
pub struct WindowSize {
    pub width: u32,
    pub height: u32,
}

/// The size that was last acted upon.
#[derive(Clone, Copy, Debug)]
pub struct PreviousWindowSize(pub WindowSize);

/// The notice that the output has changed its size. It carries nothing.
#[derive(Clone, Copy, Debug)]
pub struct ResizedWindowEvent();

impl WindowSize {
    /// The two sizes are not equal as pairs of floats.
    pub open spec fn differs(self, other: WindowSize) -> bool {
        !(float_eq(self.width, other.width) && float_eq(self.height, other.height))
    }

    /// The size in whole pixels.
    pub open spec fn extent(self) -> (u32, u32) {
        (pixels(self.width), pixels(self.height))
    }

    /// The value of the resolution slot for this size: width, then height.
    pub open spec fn words(self) -> Seq<u32> {
        seq![self.width, self.height]
    }
}

/// The sizes that both stages start with: 1280 by 720, observed and acted
/// upon.
pub fn init_resources() -> (sizes: (WindowSize, PreviousWindowSize))
    ensures
        sizes.0 == (WindowSize { width: F32_STARTUP_WIDTH, height: F32_STARTUP_HEIGHT }),
        sizes.1.0 == sizes.0,
{
    let size = WindowSize { width: F32_STARTUP_WIDTH, height: F32_STARTUP_HEIGHT };
    (size, PreviousWindowSize(size))
}

/// Takes in the size observed this frame. The current size becomes the
/// observed one. Where the observed size differs from the one last acted
/// upon, it becomes the one last acted upon and one notice is queued;
/// otherwise nothing else changes.
pub fn update_window_size_main(
    observed: WindowSize,
    current: &mut WindowSize,
    previous_size: &mut PreviousWindowSize,
    ev_window_resized: &mut Vec<ResizedWindowEvent>,
)
    ensures
        *final(current) == observed,
        old(previous_size).0.differs(observed) ==> final(previous_size).0 == observed
            && final(ev_window_resized)@ == old(ev_window_resized)@.push(ResizedWindowEvent()),
        !old(previous_size).0.differs(observed) ==> *final(previous_size) == *old(previous_size)
            && final(ev_window_resized)@ == old(ev_window_resized)@,
{
    *current = observed;
    let same = float_bits_equal(previous_size.0.width, observed.width) && float_bits_equal(
        previous_size.0.height,
        observed.height,
    );
    if !same {
        *previous_size = PreviousWindowSize(observed);
        ev_window_resized.push(ResizedWindowEvent());
    }
}

/// The render stage's copy of the current size.
pub fn update_window_size_render(main_world: &WindowSize) -> (copy: WindowSize)
    ensures
        copy == *main_world,
{
    *main_world
}

/// The registry after the resolution and then the aspect ratio were written
/// to it, each as far as its slot is held: a write to a slot that is not
/// held ends the sequence.
pub open spec fn window_written(s: Slots, resolution: WindowSize, aspect_ratio: u32) -> Slots {
    if !holds_slot(s, 3) {
        s
    } else if !holds_slot(s, 4) {
        written(s, 3, native_image(resolution.words()))
    } else {
        written(
            written(s, 3, native_image(resolution.words())),
            4,
            native_image(seq![aspect_ratio]),
        )
    }
}

/// Writes the size to the resolution slot and `aspect_ratio`, the bit pattern
/// of the quotient of width by height, to the aspect-ratio slot. It succeeds
/// where the registry holds both slots, and stops at the first that it does
/// not hold.
pub fn update_window_buffers(
    compute_buffers: &mut ComputeBuffers,
    resolution: &WindowSize,
    aspect_ratio: u32,
) -> (res: Result<(), BufferError>)
    ensures
        res is Ok <==> holds_slot(old(compute_buffers)@, 3) && holds_slot(
            old(compute_buffers)@,
            4,
        ),
        res is Err ==> res == Err::<(), BufferError>(BufferError::UnknownSlot),
        final(compute_buffers)@ == window_written(
            old(compute_buffers)@,
            *resolution,
            aspect_ratio,
        ),
        old(compute_buffers).wf() ==> final(compute_buffers).wf(),
{
    let size: Vec<u32> = vec![resolution.width, resolution.height];
    assert(size@ =~= resolution.words());
    match compute_buffers.set_value_at(BufferType::ScreenResolution.binding(), size) {
        Err(e) => {
            return Err(e);
        },
        Ok(()) => {},
    }
    proof {
        lemma_written_holds(
            old(compute_buffers)@,
            3,
            native_image(resolution.words()),
            4,
        );
    }
    let ratio: Vec<u32> = vec![aspect_ratio];
    assert(ratio@ =~= seq![aspect_ratio]);
    compute_buffers.set_value_at(BufferType::ScreenAspectRatio.binding(), ratio)
}

/// The image that replaces the output image on a change of size: the fresh
/// handle, and the size in whole pixels.
pub open spec fn resized_image(fresh: u64, resolution: WindowSize) -> ComputeImage {
    ComputeImage {
        handle: fresh,
        width: pixels(resolution.width),
        height: pixels(resolution.height),
    }
}

/// Why a change of size could not be acted upon.
#[derive(Clone, Copy, Debug, PartialEq, Eq, Structural)]
pub enum ResizeError {
    /// A notice is queued and the image store offers no handle for a new
    /// image.
    ImageStore,
}

/// Acts on the queued notices. `fresh` is the handle that the image store
/// offers for a new image.
///
/// Where at least one notice is queued and a handle is offered, the output
/// image is replaced by one of the current size under that handle, the
/// presentation target is pointed at it, and the queue is emptied; the result
/// is then `Ok(true)`, and the caller allocates the image. Where no notice is
/// queued, nothing is to do and the result is `Ok(false)`. Where a notice is
/// queued and no handle is offered, the change cannot be acted upon: the
/// result is the error, and image, presentation target and queue stay as
/// they were, so that the notice is not lost.
pub fn update_camera_texture_size(
    compute_image: &mut ComputeImage,
    fresh: Option<u64>,
    resolution: &WindowSize,
    sprite: &mut Sprite,
    ev_window_resized: &mut Vec<ResizedWindowEvent>,
) -> (res: Result<bool, ResizeError>)
    ensures
        res is Err <==> old(ev_window_resized)@.len() > 0 && fresh is None,
        res is Err ==> res == Err::<bool, ResizeError>(ResizeError::ImageStore)
            && *final(compute_image) == *old(compute_image) && *final(sprite) == *old(sprite)
            && *final(ev_window_resized) == *old(ev_window_resized),
        res is Ok ==> res == Ok::<bool, ResizeError>(old(ev_window_resized)@.len() > 0)
            && final(ev_window_resized)@.len() == 0,
        res == Ok::<bool, ResizeError>(true) ==> *final(compute_image) == resized_image(
            fresh.unwrap(),
            *resolution,
        ) && *final(sprite) == (Sprite { custom_size: Some(*resolution), texture: fresh.unwrap() }),
        res == Ok::<bool, ResizeError>(false) ==> *final(compute_image) == *old(compute_image)
            && *final(sprite) == *old(sprite),
{
    if ev_window_resized.len() == 0 {
        return Ok(false);
    }
    match fresh {
        None => Err(ResizeError::ImageStore),
        Some(handle) => {
            *compute_image = ComputeImage {
                handle,
                width: float_bits_to_pixels(resolution.width),
                height: float_bits_to_pixels(resolution.height),
            };
            *sprite = Sprite { custom_size: Some(*resolution), texture: handle };
            ev_window_resized.clear();
            Ok(true)
        },
    }
}

/// Once a change of size has been acted upon, the output image and the
/// resolution slot agree: the slot decodes to the width and height that the
/// image was sized from.
pub proof fn lemma_resize_in_lockstep(
    s: Slots,
    resolution: WindowSize,
    aspect_ratio: u32,
    fresh: u64,
    i: int,
)
    requires
        first_at(s, 3, i),
    ensures
        ({
            let after = window_written(s, resolution, aspect_ratio);
            let image = resized_image(fresh, resolution);
            let decoded = decoded_words(endianness(), after[i].1);
            &&& first_at(after, 3, i)
            &&& decoded == resolution.words()
            &&& image.width == pixels(decoded[0])
            &&& image.height == pixels(decoded[1])
        }),
{
    lemma_image_decodes(endianness(), resolution.words());
    let first = written(s, 3, native_image(resolution.words()));
    assert(holds_slot(s, 3));
    assert(first[i].1 == native_image(resolution.words()));
}

} // verus!
