//! The camera as the kernels read it, and the writes that bring it to the
//! registry.

use crate::buffers::{
    holds_slot, identity_matrix, lemma_written_holds, written, BufferError, BufferType,
    ComputeBuffers, Slots,
};
use crate::float_bits::F32_ONE;
use crate::memory::native_image;
use vstd::prelude::*;

verus! {

/// The camera: position, the three vectors of its frame and the inverse of
/// its view matrix, every float as its bit pattern and the matrix column by
/// column.
#[derive(Clone, Copy, Debug)]
pub struct SceneCamera {
    pub position: [u32; 3],
    pub front: [u32; 3],
    pub up: [u32; 3],
    pub right: [u32; 3],
    pub inverse_view_matrix: [u32; 16],
}

impl Default for SceneCamera {
    /// A camera at the origin that looks along z, with y up and x to the
    /// right, and the identity as its inverse view matrix.
    fn default() -> (camera: Self)
        ensures
            camera.position@ == seq![0u32, 0u32, 0u32],
            camera.front@ == seq![0u32, 0u32, F32_ONE],
            camera.up@ == seq![0u32, F32_ONE, 0u32],
            camera.right@ == seq![F32_ONE, 0u32, 0u32],
            camera.inverse_view_matrix@ == identity_matrix(),
    {
        let camera = SceneCamera {
            position: [0, 0, 0],
            front: [0, 0, F32_ONE],
            up: [0, F32_ONE, 0],
            right: [F32_ONE, 0, 0],
            inverse_view_matrix: [
                F32_ONE, 0, 0, 0,
                0, F32_ONE, 0, 0,
                0, 0, F32_ONE, 0,
                0, 0, 0, F32_ONE,
            ],
        };
        assert(camera.position@ =~= seq![0u32, 0u32, 0u32]);
        assert(camera.front@ =~= seq![0u32, 0u32, F32_ONE]);
        assert(camera.up@ =~= seq![0u32, F32_ONE, 0u32]);
        assert(camera.right@ =~= seq![F32_ONE, 0u32, 0u32]);
        assert(camera.inverse_view_matrix@ =~= identity_matrix());
        camera
    }
}

/// The words of an array, as a vector.
pub fn words_of<const N: usize>(array: &[u32; N]) -> (words: Vec<u32>)
    ensures
        words@ == array@,
{
    let mut words: Vec<u32> = Vec::new();
    let mut i: usize = 0;
    while i < N
        invariant
            i <= N,
            array@.len() == N,
            words@ == array@.subrange(0, i as int),
        decreases N - i,
    {
        words.push(array[i]);
        i += 1;
        assert(words@ =~= array@.subrange(0, i as int));
    }
    assert(array@.subrange(0, N as int) =~= array@);
    words
}

/// The registry after the camera's position, direction and inverse view
/// matrix were written to it in this order, each as far as its slot is held:
/// a write to a slot that is not held ends the sequence.
pub open spec fn camera_written(s: Slots, camera: SceneCamera) -> Slots {
    if !holds_slot(s, 1) {
        s
    } else {
        let first = written(s, 1, native_image(camera.position@));
        if !holds_slot(s, 2) {
            first
        } else {
            let second = written(first, 2, native_image(camera.front@));
            if !holds_slot(s, 5) {
                second
            } else {
                written(second, 5, native_image(camera.inverse_view_matrix@))
            }
        }
    }
}

/// Writes the camera to its three slots. It succeeds where the registry
/// holds all three, and stops at the first that it does not hold.
pub fn update_camera_buffers(compute_buffers: &mut ComputeBuffers, camera: &SceneCamera) -> (res:
    Result<(), BufferError>)
    ensures
        res is Ok <==> holds_slot(old(compute_buffers)@, 1) && holds_slot(
            old(compute_buffers)@,
            2,
        ) && holds_slot(old(compute_buffers)@, 5),
        res is Err ==> res == Err::<(), BufferError>(BufferError::UnknownSlot),
        final(compute_buffers)@ == camera_written(old(compute_buffers)@, *camera),
        old(compute_buffers).wf() ==> final(compute_buffers).wf(),
{
    let ghost before = compute_buffers@;
    let position = words_of(&camera.position);
    match compute_buffers.set_value_at(BufferType::CameraPosition.binding(), position) {
        Err(e) => {
            return Err(e);
        },
        Ok(()) => {},
    }
    let ghost first = compute_buffers@;
    proof {
        lemma_written_holds(before, 1, native_image(camera.position@), 2);
        lemma_written_holds(before, 1, native_image(camera.position@), 5);
    }
    let front = words_of(&camera.front);
    match compute_buffers.set_value_at(BufferType::CameraDirection.binding(), front) {
        Err(e) => {
            return Err(e);
        },
        Ok(()) => {},
    }
    proof {
        lemma_written_holds(first, 2, native_image(camera.front@), 5);
    }
    let matrix = words_of(&camera.inverse_view_matrix);
    compute_buffers.set_value_at(BufferType::InverseViewMatrix.binding(), matrix)
}

} // verus!
