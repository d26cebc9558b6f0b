//! The output image, the layout of the kernels' bindings, and the state
//! machine that picks the kernel to dispatch each frame.

use crate::buffers::{slots_of, ComputeBuffers};
use crate::descriptors::{
    buffer_entry, buffer_layout_entry, image_entry, image_layout_entry, output_image,
    output_image_descriptor, BindGroupLayoutEntry, ImageDescriptor, PushConstantRange,
    WORKGROUP_LAYERS,
};
use crate::float_bits::{float_bits_to_pixels, pixels, F32_STARTUP_HEIGHT, F32_STARTUP_WIDTH};
use crate::window::WindowSize;
use vstd::prelude::*;

verus! {

/// Width and height of the output image at startup.
pub const SIZE: (u32, u32) = (1280, 720);

/// Side of the square tile of pixels that one work-group covers.
pub const WORKGROUP_SIZE: u32 = 8;

/// Where the compiled kernels are loaded from.
#[derive(Clone, Copy, Debug)]
pub struct ShaderPath(pub &'static str);

/// The output image: the handle under which the image store holds it, and
/// its size in pixels.
#[derive(Clone, Copy, Debug, PartialEq, Eq, Structural)]
pub struct ComputeImage {
    pub handle: u64,
    pub width: u32,
    pub height: u32,
}

impl ComputeImage {
    /// All that the image store needs to make this image: its size, and what
    /// is the same for every output image.
    pub fn descriptor(&self) -> (descriptor: ImageDescriptor)
        ensures
            descriptor == output_image(self.width, self.height),
    {
        output_image_descriptor(self.width, self.height)
    }
}

/// The path of the shader that holds the two kernels.
pub fn shader_path() -> (path: ShaderPath)
    ensures
        path.0@ == "shaders/raytracer.wgsl"@,
{
    ShaderPath("shaders/raytracer.wgsl")
}

/// What is shown on screen: the image it shows, and the size it is drawn at.
#[derive(Clone, Copy, Debug)]
pub struct Sprite {
    pub custom_size: Option<WindowSize>,
    pub texture: u64,
}

/// The output image and its presentation target at startup: an image of
/// 1280 by 720 pixels under `handle`, shown at that size.
pub fn setup(handle: u64) -> (made: (ComputeImage, Sprite))
    ensures
        made.0 == (ComputeImage { handle, width: 1280, height: 720 }),
        made.1 == (Sprite {
            custom_size: Some(WindowSize { width: F32_STARTUP_WIDTH, height: F32_STARTUP_HEIGHT }),
            texture: handle,
        }),
{
    let image = ComputeImage { handle, width: SIZE.0, height: SIZE.1 };
    let sprite = Sprite {
        custom_size: Some(WindowSize { width: F32_STARTUP_WIDTH, height: F32_STARTUP_HEIGHT }),
        texture: handle,
    };
    (image, sprite)
}

/// The layout for a registry with the given slots: the output image at slot
/// 0, then one read-only storage buffer for each slot, in order.
pub open spec fn layout_for(slots: Seq<u32>) -> Seq<BindGroupLayoutEntry> {
    Seq::new(
        slots.len() + 1,
        |i: int|
            if i == 0 {
                image_entry()
            } else {
                buffer_entry(slots[i - 1])
            },
    )
}

/// The layout entries for the registry.
pub fn layout_entries(compute_buffers: &ComputeBuffers) -> (entries: Vec<BindGroupLayoutEntry>)
    ensures
        entries@ == layout_for(slots_of(compute_buffers@)),
{
    let mut entries: Vec<BindGroupLayoutEntry> = Vec::new();
    entries.push(image_layout_entry());
    let mut i: usize = 0;
    while i < compute_buffers.0.len()
        invariant
            i <= compute_buffers.0.len(),
            entries@.len() == i + 1,
            forall|j: int|
                0 <= j <= i ==> #[trigger] entries@[j] == layout_for(slots_of(compute_buffers@))[j],
        decreases compute_buffers.0.len() - i,
    {
        entries.push(buffer_layout_entry(compute_buffers.0[i].binding));
        i += 1;
    }
    assert(entries@ =~= layout_for(slots_of(compute_buffers@)));
    entries
}

/// The two kernels.
#[derive(Clone, Copy, Debug, PartialEq, Eq, Structural)]
pub enum Kernel {
    Init,
    Update,
}

impl Kernel {
    /// The name of the kernel's entry point in the shader.
    pub fn entry_point(&self) -> (name: &'static str)
        ensures
            name@ == match *self {
                Kernel::Init => "init"@,
                Kernel::Update => "update"@,
            },
    {
        match self {
            Kernel::Init => "init",
            Kernel::Update => "update",
        }
    }
}

/// All that the pipeline cache needs to queue the pipeline of one kernel.
#[derive(Debug)]
pub struct ComputePipelineDescriptor {
    pub layout: Vec<BindGroupLayoutEntry>,
    pub push_constant_ranges: Vec<PushConstantRange>,
    pub shader: ShaderPath,
    pub shader_defs: Vec<&'static str>,
    pub entry_point: &'static str,
}

impl Kernel {
    /// The description of the kernel's pipeline for the registry: the layout
    /// that belongs to the registry, the shader at `shader`, the kernel's
    /// entry point, and neither push constants nor shader definitions.
    pub fn pipeline_descriptor(
        &self,
        compute_buffers: &ComputeBuffers,
        shader: ShaderPath,
    ) -> (descriptor: ComputePipelineDescriptor)
        ensures
            descriptor.layout@ == layout_for(slots_of(compute_buffers@)),
            descriptor.push_constant_ranges@.len() == 0,
            descriptor.shader.0@ == shader.0@,
            descriptor.shader_defs@.len() == 0,
            descriptor.entry_point@ == match *self {
                Kernel::Init => "init"@,
                Kernel::Update => "update"@,
            },
    {
        ComputePipelineDescriptor {
            layout: layout_entries(compute_buffers),
            push_constant_ranges: Vec::new(),
            shader,
            shader_defs: Vec::new(),
            entry_point: self.entry_point(),
        }
    }
}

/// The layout of the kernels' bindings and the two queued pipelines, each by
/// the number that the pipeline cache gave it.
#[derive(Debug)]
pub struct ComputePipeline {
    pub texture_bind_group_layout: Vec<BindGroupLayoutEntry>,
    pub init_pipeline: u64,
    pub update_pipeline: u64,
}

impl ComputePipeline {
    /// The pipeline description for the registry: its layout, and the
    /// numbers under which the "init" and the "update" pipeline were queued.
    pub fn from_world(
        compute_buffers: &ComputeBuffers,
        init_pipeline: u64,
        update_pipeline: u64,
    ) -> (pipeline: Self)
        ensures
            pipeline.texture_bind_group_layout@ == layout_for(slots_of(compute_buffers@)),
            pipeline.init_pipeline == init_pipeline,
            pipeline.update_pipeline == update_pipeline,
    {
        ComputePipeline {
            texture_bind_group_layout: layout_entries(compute_buffers),
            init_pipeline,
            update_pipeline,
        }
    }
}

/// How far the kernels' compilation has come.
#[derive(Clone, Copy, Debug, PartialEq, Eq, Structural)]
pub enum ComputeState {
    /// No kernel is known to be compiled.
    Loading,
    /// The "init" kernel is compiled.
    Init,
    /// The "update" kernel is compiled as well.
    Update,
}

impl ComputeState {
    /// The place of the state in the order in which states are reached.
    pub open spec fn rank(self) -> nat {
        match self {
            ComputeState::Loading => 0,
            ComputeState::Init => 1,
            ComputeState::Update => 2,
        }
    }

    /// The state after one poll: from `Loading` on to `Init` once the "init"
    /// kernel is ready, from `Init` on to `Update` once the "update" kernel
    /// is ready, and nowhere from `Update`.
    pub open spec fn next(self, init_ready: bool, update_ready: bool) -> ComputeState {
        match self {
            ComputeState::Loading => if init_ready {
                ComputeState::Init
            } else {
                ComputeState::Loading
            },
            ComputeState::Init => if update_ready {
                ComputeState::Update
            } else {
                ComputeState::Init
            },
            ComputeState::Update => ComputeState::Update,
        }
    }

    /// The kernel that is dispatched in this state.
    pub open spec fn kernel(self) -> Option<Kernel> {
        match self {
            ComputeState::Loading => None,
            ComputeState::Init => Some(Kernel::Init),
            ComputeState::Update => Some(Kernel::Update),
        }
    }

    /// The state after a run of polls, each with its pair of readiness
    /// signals (init, update), taken in order.
    pub open spec fn after(self, polls: Seq<(bool, bool)>) -> ComputeState
        decreases polls.len(),
    {
        if polls.len() == 0 {
            self
        } else {
            self.next(polls[0].0, polls[0].1).after(polls.drop_first())
        }
    }
}

/// The number of work-groups that cover `pixels` pixels along one side.
pub open spec fn groups_covering(pixels: u32) -> u32 {
    if pixels % WORKGROUP_SIZE == 0 {
        (pixels / WORKGROUP_SIZE) as u32
    } else {
        (pixels / WORKGROUP_SIZE + 1) as u32
    }
}

/// What the node does in one frame.
#[derive(Clone, Copy, Debug, PartialEq, Eq, Structural)]
pub enum Dispatch {
    /// Nothing is dispatched.
    Idle,
    /// The kernel is run over a grid of `x` by `y` by `z` work-groups.
    Run { kernel: Kernel, x: u32, y: u32, z: u32 },
}

/// The dispatch of the given state for an output of the given size.
pub open spec fn dispatch_for(state: ComputeState, resolution: WindowSize) -> Dispatch {
    match state.kernel() {
        None => Dispatch::Idle,
        Some(kernel) => Dispatch::Run {
            kernel,
            x: groups_covering(pixels(resolution.width)),
            y: groups_covering(pixels(resolution.height)),
            z: WORKGROUP_LAYERS,
        },
    }
}

/// The node of the render graph that runs the kernels.
#[derive(Debug)]
pub struct ComputeNode {
    pub state: ComputeState,
}

impl Default for ComputeNode {
    fn default() -> (node: Self)
        ensures
            node.state == ComputeState::Loading,
    {
        Self { state: ComputeState::Loading }
    }
}

/// The number of work-groups that cover `pixels` pixels along one side.
pub fn workgroups(pixels: u32) -> (n: u32)
    ensures
        n == groups_covering(pixels),
        n * WORKGROUP_SIZE >= pixels,
        n * WORKGROUP_SIZE < pixels + WORKGROUP_SIZE,
{
    if pixels % WORKGROUP_SIZE == 0 {
        pixels / WORKGROUP_SIZE
    } else {
        pixels / WORKGROUP_SIZE + 1
    }
}

impl ComputeNode {
    /// One poll. `init_ready` and `update_ready` say whether the pipeline
    /// cache holds the compiled "init" and "update" pipeline.
    pub fn update(&mut self, init_ready: bool, update_ready: bool)
        ensures
            final(self).state == old(self).state.next(init_ready, update_ready),
            final(self).state.rank() >= old(self).state.rank(),
    {
        match self.state {
            ComputeState::Loading => {
                if init_ready {
                    self.state = ComputeState::Init;
                }
            },
            ComputeState::Init => {
                if update_ready {
                    self.state = ComputeState::Update;
                }
            },
            ComputeState::Update => {},
        }
    }

    /// The dispatch of this frame: none while loading, else the kernel of the
    /// state over a grid of work-groups that covers the whole output.
    pub fn run(&self, resolution: &WindowSize) -> (dispatch: Dispatch)
        ensures
            dispatch == dispatch_for(self.state, *resolution),
    {
        match self.state {
            ComputeState::Loading => Dispatch::Idle,
            ComputeState::Init => Dispatch::Run {
                kernel: Kernel::Init,
                x: workgroups(float_bits_to_pixels(resolution.width)),
                y: workgroups(float_bits_to_pixels(resolution.height)),
                z: WORKGROUP_LAYERS,
            },
            ComputeState::Update => Dispatch::Run {
                kernel: Kernel::Update,
                x: workgroups(float_bits_to_pixels(resolution.width)),
                y: workgroups(float_bits_to_pixels(resolution.height)),
                z: WORKGROUP_LAYERS,
            },
        }
    }
}

/// No poll takes the state machine back: the state after a poll is the state
/// before it or a later one.
pub proof fn lemma_poll_never_regresses(state: ComputeState, init_ready: bool, update_ready: bool)
    ensures
        state.next(init_ready, update_ready).rank() >= state.rank(),
        state.next(init_ready, update_ready) != ComputeState::Loading || state
            == ComputeState::Loading,
        state == ComputeState::Update ==> state.next(init_ready, update_ready)
            == ComputeState::Update,
{
}

/// No run of polls takes the state machine back, whatever the signals.
pub proof fn lemma_polls_never_regress(state: ComputeState, polls: Seq<(bool, bool)>)
    ensures
        state.after(polls).rank() >= state.rank(),
    decreases polls.len(),
{
    if polls.len() > 0 {
        lemma_polls_never_regress(state.next(polls[0].0, polls[0].1), polls.drop_first());
    }
}

/// From `Loading`, a poll that sees the "init" kernel ready and a later poll
/// that sees the "update" kernel ready end in `Update`, whatever else the two
/// polls see.
pub proof fn lemma_ready_signals_reach_update(update_at_first: bool, init_at_second: bool)
    ensures
        ComputeState::Loading.next(true, update_at_first).next(init_at_second, true)
            == ComputeState::Update,
{
}

} // verus!
