//! One frame, stage by stage: the simulation stage takes in the observed
//! size and writes the registry, the extraction hands the render stage its
//! own copy of what it reads, and the render stage builds the binding set and
//! picks the dispatch.

use crate::bind_group::{assembled, bound_slots, prepare_bind_group, ComputeBindGroup};
use crate::buffers::{
    declared_slots, first_at, identity_matrix, init_buffers, init_spheres_spec, initial_words,
    lemma_declared_slots_are_held, slots_of, update_buffers, written, ComputeBuffers, Slots,
};
use crate::float_bits::{
    float_bits_equal, float_bits_to_pixels, lemma_equal_floats_same_pixels, lemma_startup_extent,
    F32_ONE, F32_STARTUP_HEIGHT, F32_STARTUP_WIDTH,
};
use crate::camera::{camera_written, update_camera_buffers, SceneCamera};
use crate::memory::{decoded_words, lemma_image_decodes, native_image};
use crate::pipeline::{
    dispatch_for, layout_for, setup, ComputeImage, ComputeNode, ComputePipeline, ComputeState,
    Dispatch, Sprite,
};
use crate::scene::{sphere_words, update_scene_buffers, Scene, Sphere};
use crate::window::{
    init_resources, resized_image,
    update_camera_texture_size, update_window_buffers, update_window_size_main,
    update_window_size_render, window_written, PreviousWindowSize, ResizeError,
    ResizedWindowEvent, WindowSize,
};
use vstd::endian::endianness;
use vstd::prelude::*;

verus! {

/// Why a frame was not carried out.
#[derive(Clone, Copy, Debug, PartialEq, Eq, Structural)]
pub enum FrameError {
    /// The output changed its size and the image store offered no handle for
    /// a new image.
    ImageStore,
    /// The registry's slots are not those of the pipeline's layout.
    Layout,
}

/// What the simulation stage owns.
#[derive(Debug)]
pub struct MainWorld {
    pub compute_buffers: ComputeBuffers,
    pub window_size: WindowSize,
    pub previous_window_size: PreviousWindowSize,
    pub resized: Vec<ResizedWindowEvent>,
    pub compute_image: ComputeImage,
    pub sprite: Sprite,
    pub camera: SceneCamera,
    pub scene: Scene,
}

/// What the render stage owns: its copy of the registry, of the size and of
/// the image handle, the pipeline description and the node.
#[derive(Debug)]
pub struct RenderWorld {
    pub compute_buffers: ComputeBuffers,
    pub window_size: WindowSize,
    pub compute_image: ComputeImage,
    pub pipeline: ComputePipeline,
    pub node: ComputeNode,
}

/// The registry after one simulation stage: the camera, then size and aspect
/// ratio, then the spheres.
pub open spec fn frame_written(
    s: Slots,
    camera: SceneCamera,
    size: WindowSize,
    aspect_ratio: u32,
    spheres: Seq<Sphere>,
) -> Slots {
    written(
        window_written(camera_written(s, camera), size, aspect_ratio),
        6,
        native_image(sphere_words(spheres)),
    )
}

impl MainWorld {
    /// The simulation stage is between two frames: the registry has its
    /// declared slots, no notice is queued, and the output image has the size
    /// that was last acted upon.
    pub open spec fn wf(&self) -> bool {
        &&& self.compute_buffers.wf()
        &&& self.resized@.len() == 0
        &&& (self.compute_image.width, self.compute_image.height)
            == self.previous_window_size.0.extent()
    }

    /// The output image and the resolution slot agree with the current size:
    /// the slot decodes to its width and height, and the image has that many
    /// whole pixels.
    pub open spec fn in_lockstep(&self) -> bool {
        &&& first_at(self.compute_buffers@, 3, 2)
        &&& decoded_words(endianness(), self.compute_buffers@[2].1) == self.window_size.words()
        &&& (self.compute_image.width, self.compute_image.height) == self.window_size.extent()
    }

    /// The simulation stage at startup: the registry with its initial values,
    /// a size of 1280 by 720, an output image of that size under `handle`, the
    /// default camera and the startup scene.
    pub fn new(handle: u64) -> (main: Self)
        ensures
            main.wf(),
            main.compute_image == (ComputeImage { handle, width: 1280, height: 720 }),
            main.window_size == (WindowSize {
                width: F32_STARTUP_WIDTH,
                height: F32_STARTUP_HEIGHT,
            }),
            main.previous_window_size.0 == main.window_size,
            main.sprite == (Sprite { custom_size: Some(main.window_size), texture: handle }),
            forall|i: int|
                0 <= i < 6 ==> (#[trigger] main.compute_buffers@[i]).1 == native_image(
                    initial_words(declared_slots()[i]),
                ),
            main.camera.position@ == seq![0u32, 0u32, 0u32],
            main.camera.front@ == seq![0u32, 0u32, F32_ONE],
            main.camera.up@ == seq![0u32, F32_ONE, 0u32],
            main.camera.right@ == seq![F32_ONE, 0u32, 0u32],
            main.camera.inverse_view_matrix@ == identity_matrix(),
            main.scene.spheres@ == init_spheres_spec(),
    {
        let (window_size, previous_window_size) = init_resources();
        let (compute_image, sprite) = setup(handle);
        proof {
            lemma_startup_extent();
        }
        MainWorld {
            compute_buffers: init_buffers(),
            window_size,
            previous_window_size,
            resized: Vec::new(),
            compute_image,
            sprite,
            camera: SceneCamera::default(),
            scene: Scene::default(),
        }
    }

    /// Whether the simulation stage is between two frames.
    pub fn is_wf(&self) -> (yes: bool)
        ensures
            yes == self.wf(),
    {
        self.compute_buffers.matches_declaration() && self.resized.len() == 0
            && self.compute_image.width == float_bits_to_pixels(
            self.previous_window_size.0.width,
        ) && self.compute_image.height == float_bits_to_pixels(
            self.previous_window_size.0.height,
        )
    }

    /// The simulation stage of one frame for the size `observed`, with
    /// `aspect_ratio` the bit pattern of the quotient of its width by its
    /// height and `fresh` the handle that the image store offers for a new
    /// image.
    ///
    /// The result says whether the size had changed. Where it had, and a
    /// handle is offered, the output image is replaced by one of the new
    /// size; where none is offered, the frame is not carried out and nothing
    /// changes. Then the camera, the size with the aspect ratio and the
    /// spheres are written to the registry. Afterwards the image and the
    /// resolution slot agree with the observed size.
    pub fn simulate(
        &mut self,
        observed: WindowSize,
        aspect_ratio: u32,
        fresh: Option<u64>,
    ) -> (res: Result<bool, FrameError>)
        requires
            old(self).wf(),
        ensures
            res is Err <==> old(self).previous_window_size.0.differs(observed) && fresh is None,
            res is Err ==> res == Err::<bool, FrameError>(FrameError::ImageStore) && *final(self)
                == *old(self),
            res is Ok ==> {
                let resized = old(self).previous_window_size.0.differs(observed);
                &&& res == Ok::<bool, FrameError>(resized)
                &&& final(self).wf()
                &&& final(self).in_lockstep()
                &&& final(self).window_size == observed
                &&& final(self).previous_window_size.0 == if resized {
                    observed
                } else {
                    old(self).previous_window_size.0
                }
                &&& final(self).compute_image == if resized {
                    resized_image(fresh.unwrap(), observed)
                } else {
                    old(self).compute_image
                }
                &&& final(self).compute_buffers@ == frame_written(
                    old(self).compute_buffers@,
                    old(self).camera,
                    observed,
                    aspect_ratio,
                    old(self).scene.spheres@,
                )
                &&& final(self).sprite == if resized {
                    Sprite { custom_size: Some(observed), texture: fresh.unwrap() }
                } else {
                    old(self).sprite
                }
                &&& final(self).camera == old(self).camera
                &&& final(self).scene == old(self).scene
            },
    {
        let previous = self.previous_window_size.0;
        let same = float_bits_equal(previous.width, observed.width) && float_bits_equal(
            previous.height,
            observed.height,
        );
        // The image store is asked for before anything changes, so that a
        // frame that cannot be carried out leaves no trace.
        if !same && fresh.is_none() {
            return Err(FrameError::ImageStore);
        }
        let ghost before = self.compute_buffers@;
        proof {
            lemma_declared_slots_are_held(before);
            if same {
                lemma_equal_floats_same_pixels(previous.width, observed.width);
                lemma_equal_floats_same_pixels(previous.height, observed.height);
            }
        }
        update_window_size_main(
            observed,
            &mut self.window_size,
            &mut self.previous_window_size,
            &mut self.resized,
        );
        let resized = match update_camera_texture_size(
            &mut self.compute_image,
            fresh,
            &observed,
            &mut self.sprite,
            &mut self.resized,
        ) {
            Ok(resized) => resized,
            Err(ResizeError::ImageStore) => {
                return Err(FrameError::ImageStore);
            },
        };
        let camera = self.camera;
        let after_camera = update_camera_buffers(&mut self.compute_buffers, &camera);
        let ghost with_camera = self.compute_buffers@;
        proof {
            lemma_declared_slots_are_held(with_camera);
        }
        let after_window =
            update_window_buffers(&mut self.compute_buffers, &observed, aspect_ratio);
        let ghost with_window = self.compute_buffers@;
        proof {
            lemma_declared_slots_are_held(with_window);
            lemma_image_decodes(endianness(), observed.words());
            let first = written(with_camera, 3, native_image(observed.words()));
            assert(first[2].1 == native_image(observed.words()));
            assert(with_window[2].1 == native_image(observed.words()));
        }
        let after_scene = update_scene_buffers(&self.scene, &mut self.compute_buffers);
        proof {
            lemma_declared_slots_are_held(self.compute_buffers@);
            assert(self.compute_buffers@[2] == with_window[2]);
        }
        assert(after_camera is Ok && after_window is Ok && after_scene is Ok);
        Ok(resized)
    }
}

/// Hands the render stage its copy of what it reads in this frame: the
/// registry, the image handle and the size, all three from the same state of
/// the simulation stage. The copy of the registry shares nothing with the
/// registry it was made from. The pipeline description and the node stay as
/// they are.
pub fn extract(main: &MainWorld, render: &mut RenderWorld)
    ensures
        final(render).compute_buffers@ == main.compute_buffers@,
        final(render).window_size == main.window_size,
        final(render).compute_image == main.compute_image,
        final(render).pipeline == old(render).pipeline,
        final(render).node == old(render).node,
{
    render.compute_buffers = update_buffers(&main.compute_buffers);
    render.window_size = update_window_size_render(&main.window_size);
    render.compute_image = main.compute_image;
}

impl RenderWorld {
    /// The render stage at startup: a first copy of what the simulation stage
    /// holds, the pipeline description for its registry with the numbers under
    /// which the two pipelines were queued, and the node in `Loading`.
    pub fn new(main: &MainWorld, init_pipeline: u64, update_pipeline: u64) -> (render: Self)
        ensures
            render.compute_buffers@ == main.compute_buffers@,
            render.window_size == main.window_size,
            render.compute_image == main.compute_image,
            render.pipeline.texture_bind_group_layout@ == layout_for(
                slots_of(main.compute_buffers@),
            ),
            render.pipeline.init_pipeline == init_pipeline,
            render.pipeline.update_pipeline == update_pipeline,
            render.node.state == ComputeState::Loading,
    {
        let compute_buffers = update_buffers(&main.compute_buffers);
        let pipeline =
            ComputePipeline::from_world(&compute_buffers, init_pipeline, update_pipeline);
        RenderWorld {
            compute_buffers,
            window_size: update_window_size_render(&main.window_size),
            compute_image: main.compute_image,
            pipeline,
            node: ComputeNode::default(),
        }
    }

    /// The render stage of one frame. The binding set is built from the
    /// stage's copy of the registry and image, the node takes in the two
    /// readiness signals, and the dispatch is that of the node's new state for
    /// the stage's copy of the size. Where the registry does not fit the
    /// pipeline's layout the frame is not carried out and the node stays as it
    /// is.
    pub fn render(&mut self, init_ready: bool, update_ready: bool) -> (res: Result<
        (ComputeBindGroup, Dispatch),
        FrameError,
    >)
        ensures
            res is Ok <==> old(self).pipeline.texture_bind_group_layout@ == layout_for(
                slots_of(old(self).compute_buffers@),
            ),
            res is Err ==> res.unwrap_err() == FrameError::Layout && *final(self) == *old(self),
            res is Ok ==> {
                let (group, dispatch) = res.unwrap();
                let state = old(self).node.state.next(init_ready, update_ready);
                &&& group@ == assembled(old(self).compute_image.handle, old(self).compute_buffers@)
                &&& (old(self).compute_buffers.wf() ==> bound_slots(group@) == seq![0u32]
                    + declared_slots())
                &&& dispatch == dispatch_for(state, old(self).window_size)
                &&& final(self).node.state == state
                &&& final(self).compute_buffers == old(self).compute_buffers
                &&& final(self).window_size == old(self).window_size
                &&& final(self).compute_image == old(self).compute_image
                &&& final(self).pipeline == old(self).pipeline
            },
    {
        let prepared =
            prepare_bind_group(&self.pipeline, &self.compute_image, &self.compute_buffers);
        match prepared {
            Err(_) => Err(FrameError::Layout),
            Ok(group) => {
                self.node.update(init_ready, update_ready);
                let dispatch = self.node.run(&self.window_size);
                Ok((group, dispatch))
            },
        }
    }
}

} // verus!
