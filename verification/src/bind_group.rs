//! The binding set of one frame: the output image and every buffer of the
//! render stage's registry, each at its slot.

use crate::buffers::{copy_bytes, declared_slots, slots_of, well_formed, ComputeBuffers, Slots};
use crate::descriptors::{
    buffer_layout_entry, image_layout_entry, BindGroupLayoutEntry, IMAGE_BINDING,
};
use crate::pipeline::{layout_for, ComputeImage, ComputePipeline};
use vstd::prelude::*;

verus! {

/// What is bound at a slot.
#[derive(Debug)]
pub enum BindingResource {
    /// The view of the image that the image store holds under the handle.
    TextureView(u64),
    /// A buffer made from these bytes, and never written again.
    Buffer(Vec<u8>),
}

/// What is bound at a slot, as contracts see it.
pub ghost enum BoundResource {
    TextureView(u64),
    Buffer(Seq<u8>),
}

impl View for BindingResource {
    type V = BoundResource;

    open spec fn view(&self) -> BoundResource {
        match self {
            BindingResource::TextureView(handle) => BoundResource::TextureView(*handle),
            BindingResource::Buffer(bytes) => BoundResource::Buffer(bytes@),
        }
    }
}

/// One resource with the slot it is bound at.
#[derive(Debug)]
pub struct BindGroupEntry {
    pub binding: u32,
    pub resource: BindingResource,
}

impl View for BindGroupEntry {
    type V = (u32, BoundResource);

    open spec fn view(&self) -> (u32, BoundResource) {
        (self.binding, self.resource@)
    }
}

/// The binding set that a dispatch consumes.
#[derive(Debug)]
pub struct ComputeBindGroup(pub Vec<BindGroupEntry>);

impl View for ComputeBindGroup {
    type V = Seq<(u32, BoundResource)>;

    open spec fn view(&self) -> Seq<(u32, BoundResource)> {
        Seq::new(self.0@.len(), |i: int| self.0@[i]@)
    }
}

/// Why no binding set could be made.
#[derive(Clone, Copy, Debug, PartialEq, Eq, Structural)]
pub enum BindError {
    /// The registry's slots are not those of the pipeline's layout.
    LayoutMismatch,
}

/// The binding set for an image handle and a registry: the image at slot 0,
/// then every buffer of the registry at its slot, with its bytes, in order.
pub open spec fn assembled(handle: u64, s: Slots) -> Seq<(u32, BoundResource)> {
    Seq::new(
        s.len() + 1,
        |i: int|
            if i == 0 {
                (IMAGE_BINDING, BoundResource::TextureView(handle))
            } else {
                (s[i - 1].0, BoundResource::Buffer(s[i - 1].1))
            },
    )
}

/// The slots that a binding set binds, in order.
pub open spec fn bound_slots(group: Seq<(u32, BoundResource)>) -> Seq<u32> {
    Seq::new(group.len(), |i: int| group[i].0)
}

/// The slots of a layout, in order.
pub open spec fn layout_slots(layout: Seq<BindGroupLayoutEntry>) -> Seq<u32> {
    Seq::new(layout.len(), |i: int| layout[i].binding)
}

/// Whether the layout is the one that belongs to the registry.
pub fn layout_matches(layout: &Vec<BindGroupLayoutEntry>, compute_buffers: &ComputeBuffers) -> (yes:
    bool)
    ensures
        yes == (layout@ == layout_for(slots_of(compute_buffers@))),
{
    let ghost wanted = layout_for(slots_of(compute_buffers@));
    if layout.len() == 0 || layout.len() - 1 != compute_buffers.0.len() {
        return false;
    }
    if layout[0] != image_layout_entry() {
        assert(layout@[0] != wanted[0]);
        return false;
    }
    let mut i: usize = 0;
    while i < compute_buffers.0.len()
        invariant
            i <= compute_buffers.0.len(),
            layout.len() == compute_buffers.0.len() + 1,
            wanted == layout_for(slots_of(compute_buffers@)),
            forall|j: int| 0 <= j <= i ==> #[trigger] layout@[j] == wanted[j],
        decreases compute_buffers.0.len() - i,
    {
        if layout[i + 1] != buffer_layout_entry(compute_buffers.0[i].binding) {
            assert(layout@[i + 1] != wanted[i + 1]);
            return false;
        }
        i += 1;
    }
    assert(layout@ =~= wanted);
    true
}

/// Builds the binding set of the frame from the render stage's image and
/// registry. It is made anew from the bytes of every buffer, and shares
/// nothing with the registry. Where the registry's slots are not those of
/// the pipeline's layout, no set is made.
pub fn prepare_bind_group(
    pipeline: &ComputePipeline,
    raytracer_image: &ComputeImage,
    compute_buffers: &ComputeBuffers,
) -> (res: Result<ComputeBindGroup, BindError>)
    ensures
        res is Ok <==> pipeline.texture_bind_group_layout@ == layout_for(
            slots_of(compute_buffers@),
        ),
        res is Ok ==> res.unwrap()@ == assembled(raytracer_image.handle, compute_buffers@),
        res is Ok ==> bound_slots(res.unwrap()@) == layout_slots(
            pipeline.texture_bind_group_layout@,
        ),
        res is Ok && compute_buffers.wf() ==> bound_slots(res.unwrap()@) == seq![0u32]
            + declared_slots(),
{
    if !layout_matches(&pipeline.texture_bind_group_layout, compute_buffers) {
        return Err(BindError::LayoutMismatch);
    }
    let texture_bind_group_entry = BindGroupEntry {
        binding: IMAGE_BINDING,
        resource: BindingResource::TextureView(raytracer_image.handle),
    };
    let mut bind_group_entries: Vec<BindGroupEntry> = Vec::new();
    bind_group_entries.push(texture_bind_group_entry);
    let ghost wanted = assembled(raytracer_image.handle, compute_buffers@);
    let mut i: usize = 0;
    while i < compute_buffers.0.len()
        invariant
            i <= compute_buffers.0.len(),
            bind_group_entries@.len() == i + 1,
            wanted == assembled(raytracer_image.handle, compute_buffers@),
            forall|j: int| 0 <= j <= i ==> (#[trigger] bind_group_entries@[j])@ == wanted[j],
        decreases compute_buffers.0.len() - i,
    {
        let buffer = &compute_buffers.0[i];
        let buffer_data = copy_bytes(&buffer.bytes);
        bind_group_entries.push(
            BindGroupEntry {
                binding: buffer.binding,
                resource: BindingResource::Buffer(buffer_data),
            },
        );
        i += 1;
    }
    let bind_group = ComputeBindGroup(bind_group_entries);
    proof {
        assert(bind_group@ =~= wanted);
        lemma_binding_set_complete(raytracer_image.handle, compute_buffers@);
        assert(bound_slots(wanted) =~= layout_slots(pipeline.texture_bind_group_layout@));
    }
    Ok(bind_group)
}

/// The binding set binds the image slot and the slots of the registry, each
/// once and in order, and nothing else. For a registry with the declared
/// slots these are exactly the declared slots after the image slot.
pub proof fn lemma_binding_set_complete(handle: u64, s: Slots)
    ensures
        bound_slots(assembled(handle, s)) == seq![0u32] + slots_of(s),
        bound_slots(assembled(handle, s)) == layout_slots(layout_for(slots_of(s))),
        well_formed(s) ==> bound_slots(assembled(handle, s)) == seq![0u32] + declared_slots(),
        well_formed(s) ==> bound_slots(assembled(handle, s)).to_set() == Set::new(
            |slot: u32| slot <= 6,
        ),
{
    let bound = bound_slots(assembled(handle, s));
    assert(bound =~= seq![0u32] + slots_of(s));
    assert(bound =~= layout_slots(layout_for(slots_of(s))));
    if well_formed(s) {
        let all = seq![0u32] + declared_slots();
        assert(all =~= seq![0u32, 1u32, 2u32, 3u32, 5u32, 4u32, 6u32]);
        assert forall|slot: u32| slot <= 6 implies all.contains(slot) by {
            if slot == 0 {
                assert(all[0] == slot);
            } else if slot == 1 {
                assert(all[1] == slot);
            } else if slot == 2 {
                assert(all[2] == slot);
            } else if slot == 3 {
                assert(all[3] == slot);
            } else if slot == 5 {
                assert(all[4] == slot);
            } else if slot == 4 {
                assert(all[5] == slot);
            } else {
                assert(all[6] == slot);
            }
        }
        assert(all.to_set() =~= Set::new(|slot: u32| slot <= 6));
    }
}

} // verus!
