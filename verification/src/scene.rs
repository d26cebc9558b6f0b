//! The scene: the spheres that the kernels trace against.

use crate::buffers::{
    holds_slot, init_spheres_spec, written, BufferError, BufferType, ComputeBuffers,
};
use crate::float_bits::{abs_bits, float_bits_abs, F32_FIVE, F32_FOUR, F32_ONE, F32_TWO};
use crate::memory::native_image;
use vstd::prelude::*;

verus! {

/// A sphere as the kernels read it: the three floats of its centre and its
/// radius, each as its bit pattern.
#[derive(Clone, Copy, Debug)]
pub struct Sphere {
    pub position: [u32; 3],
    pub radius: u32,
}

impl Sphere {
    /// A sphere at `position` with the absolute value of `radius`.
    pub fn new(position: [u32; 3], radius: u32) -> (sphere: Self)
        ensures
            sphere.position == position,
            sphere.radius == abs_bits(radius),
    {
        Sphere { position, radius: float_bits_abs(radius) }
    }

    /// Word `k` of the sphere's record: the centre, then the radius.
    pub open spec fn word(self, k: int) -> u32 {
        if 0 <= k < 3 {
            self.position@[k]
        } else {
            self.radius
        }
    }
}

/// The words of an array of sphere records, four to a sphere.
pub open spec fn sphere_words(spheres: Seq<Sphere>) -> Seq<u32> {
    Seq::new(4 * spheres.len(), |i: int| spheres[i / 4].word(i % 4))
}

/// The two spheres that a scene starts with.
pub fn init_spheres() -> (spheres: Vec<Sphere>)
    ensures
        spheres@ == init_spheres_spec(),
{
    let near = Sphere::new([0, 0, F32_FIVE], F32_ONE);
    let far = Sphere::new([F32_FOUR, 0, F32_FIVE], F32_TWO);
    let spheres = vec![near, far];
    assert(spheres@ =~= init_spheres_spec());
    spheres
}

/// The sphere records as one array of words.
pub fn flatten_spheres(spheres: &Vec<Sphere>) -> (words: Vec<u32>)
    ensures
        words@ == sphere_words(spheres@),
{
    let mut words: Vec<u32> = Vec::new();
    let mut i: usize = 0;
    while i < spheres.len()
        invariant
            i <= spheres.len(),
            words@.len() == 4 * i,
            forall|j: int| 0 <= j < 4 * i ==> #[trigger] words@[j] == spheres@[j / 4].word(j % 4),
        decreases spheres.len() - i,
    {
        let sphere = &spheres[i];
        words.push(sphere.position[0]);
        words.push(sphere.position[1]);
        words.push(sphere.position[2]);
        words.push(sphere.radius);
        i += 1;
    }
    assert(words@ =~= sphere_words(spheres@));
    words
}

/// The objects of the scene.
#[derive(Debug)]
pub struct Scene {
    pub spheres: Vec<Sphere>,
}

impl Clone for Scene {
    /// A scene with the same spheres, in the same order.
    fn clone(&self) -> (copy: Self)
        ensures
            copy.spheres@ == self.spheres@,
    {
        let mut spheres: Vec<Sphere> = Vec::new();
        let mut i: usize = 0;
        while i < self.spheres.len()
            invariant
                i <= self.spheres.len(),
                spheres@ == self.spheres@.subrange(0, i as int),
            decreases self.spheres.len() - i,
        {
            spheres.push(self.spheres[i]);
            i += 1;
            assert(spheres@ =~= self.spheres@.subrange(0, i as int));
        }
        assert(self.spheres@.subrange(0, self.spheres.len() as int) =~= self.spheres@);
        Scene { spheres }
    }
}

impl Default for Scene {
    fn default() -> (scene: Self)
        ensures
            scene.spheres@ == init_spheres_spec(),
    {
        Scene { spheres: init_spheres() }
    }
}

impl Scene {
    pub fn add_sphere(&mut self, sphere: Sphere)
        ensures
            final(self).spheres@ == old(self).spheres@.push(sphere),
    {
        self.spheres.push(sphere);
    }
}

/// Writes the scene's spheres to their slot.
pub fn update_scene_buffers(scene: &Scene, compute_buffers: &mut ComputeBuffers) -> (res: Result<
    (),
    BufferError,
>)
    ensures
        res is Ok <==> holds_slot(old(compute_buffers)@, 6),
        res is Err ==> res == Err::<(), BufferError>(BufferError::UnknownSlot),
        res is Ok ==> final(compute_buffers)@ == written(
            old(compute_buffers)@,
            6,
            native_image(sphere_words(scene.spheres@)),
        ),
        res is Err ==> final(compute_buffers)@ == old(compute_buffers)@,
        old(compute_buffers).wf() ==> final(compute_buffers).wf(),
{
    let words = flatten_spheres(&scene.spheres);
    assert(words@.len() % 4 == 0);
    compute_buffers.set_value_at(BufferType::Spheres.binding(), words)
}

} // verus!
