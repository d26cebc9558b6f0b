use raytracer::bind_group::{
    layout_matches, prepare_bind_group, BindError, BindingResource, ComputeBindGroup,
};
use raytracer::buffers::{init_buffers, update_buffers, ComputeBuffer, ComputeBuffers};
use raytracer::descriptors::{
    buffer_layout_entry, data_buffer_usage, image_layout_entry, output_image_descriptor,
    BindingType, BufferBindingType, BufferUsages, Extent3d, Pixel,
    ShaderStages, StorageTextureAccess, TextureDimension, TextureFormat, TextureUsages,
    TextureViewDimension, BIND_GROUP_INDEX, IMAGE_BINDING, WORKGROUP_LAYERS,
};
use raytracer::pipeline::{
    layout_entries, setup, shader_path, workgroups, ComputeImage, ComputeNode, ComputePipeline,
    ComputeState, Dispatch, Kernel, ShaderPath, SIZE, WORKGROUP_SIZE,
};
use raytracer::float_bits::{
    float_bits_abs, float_bits_equal, float_bits_to_pixels, F32_FIVE, F32_FOUR,
    F32_STARTUP_HEIGHT, F32_STARTUP_WIDTH, F32_TWO,
};
use raytracer::window::{
    init_resources, update_camera_texture_size, update_window_buffers, update_window_size_main,
    update_window_size_render, PreviousWindowSize, ResizeError, ResizedWindowEvent, WindowSize,
};

fn size(width: f32, height: f32) -> WindowSize {
    WindowSize { width: width.to_bits(), height: height.to_bits() }
}

fn floats(bytes: &[u8]) -> Vec<f32> {
    bytes
        .chunks(4)
        .map(|c| f32::from_ne_bytes([c[0], c[1], c[2], c[3]]))
        .collect()
}

fn sample_floats() -> Vec<f32> {
    let mut all = vec![
        0.0f32, -0.0, 0.25, 0.5, 0.99999994, 1.0, 1.5, 1.9999999, 2.0, 7.9, 8.0, 720.0, 1079.5,
        1280.0, 1920.0, 8388607.5, 8388608.0, 16777215.0, 16777216.0, 16777218.0, 2147483648.0,
        3000000000.0, 4294967040.0, 4294967296.0, 1e20, f32::MAX, f32::INFINITY,
        f32::MIN_POSITIVE, 1e-40, f32::NAN, f32::EPSILON,
    ];
    let negatives: Vec<f32> = all.iter().map(|v| -v).collect();
    all.extend(negatives);
    all.push(f32::from_bits(0x7F80_0001));
    all.push(f32::from_bits(0xFFFF_FFFF));
    all
}

#[test]
fn startup_sizes_are_the_bits_of_their_floats() {
    assert_eq!(F32_STARTUP_WIDTH, 1280.0f32.to_bits());
    assert_eq!(F32_STARTUP_HEIGHT, 720.0f32.to_bits());
    assert_eq!(F32_TWO, 2.0f32.to_bits());
    assert_eq!(F32_FOUR, 4.0f32.to_bits());
    assert_eq!(F32_FIVE, 5.0f32.to_bits());
    assert_eq!(SIZE, (1280, 720));
    assert_eq!(WORKGROUP_SIZE, 8);
    let (current, previous) = init_resources();
    assert_eq!(current.width, 1280.0f32.to_bits());
    assert_eq!(current.height, 720.0f32.to_bits());
    assert_eq!(previous.0.width, current.width);
    assert_eq!(previous.0.height, current.height);
}

#[test]
fn bit_comparison_agrees_with_float_comparison() {
    let all = sample_floats();
    for a in all.iter() {
        for b in all.iter() {
            assert_eq!(float_bits_equal(a.to_bits(), b.to_bits()), a == b, "{} {}", a, b);
        }
    }
}

#[test]
fn pixel_count_agrees_with_float_truncation() {
    for v in sample_floats() {
        assert_eq!(float_bits_to_pixels(v.to_bits()), v as u32, "{}", v);
    }
    assert_eq!(float_bits_to_pixels(1920.0f32.to_bits()), 1920);
    assert_eq!(float_bits_to_pixels(1080.7f32.to_bits()), 1080);
    assert_eq!(float_bits_to_pixels(0.9f32.to_bits()), 0);
    assert_eq!(float_bits_to_pixels((-5.0f32).to_bits()), 0);
    assert_eq!(float_bits_to_pixels(f32::NAN.to_bits()), 0);
    assert_eq!(float_bits_to_pixels(f32::INFINITY.to_bits()), u32::MAX);
    assert_eq!(float_bits_to_pixels(5e9f32.to_bits()), u32::MAX);
    let mut bits: u32 = 0x1234_5678;
    for _ in 0..20000 {
        bits = bits.wrapping_mul(1664525).wrapping_add(1013904223);
        assert_eq!(float_bits_to_pixels(bits), f32::from_bits(bits) as u32);
    }
}

#[test]
fn absolute_value_on_bits_agrees_with_the_float() {
    for v in sample_floats() {
        if !v.is_nan() {
            assert_eq!(float_bits_abs(v.to_bits()), v.abs().to_bits(), "{}", v);
        }
    }
    assert_eq!(float_bits_abs(0xFFFF_FFFF), 0x7FFF_FFFF);
    assert_eq!(float_bits_abs(0x8000_0000), 0);
}

#[test]
fn work_groups_cover_the_output() {
    assert_eq!(workgroups(0), 0);
    assert_eq!(workgroups(1), 1);
    assert_eq!(workgroups(7), 1);
    assert_eq!(workgroups(8), 1);
    assert_eq!(workgroups(9), 2);
    assert_eq!(workgroups(720), 90);
    assert_eq!(workgroups(1080), 135);
    assert_eq!(workgroups(1280), 160);
    assert_eq!(workgroups(1921), 241);
    assert_eq!(workgroups(u32::MAX), 536870912);
}

#[test]
fn an_unchanged_size_queues_no_notice() {
    let (mut current, mut previous) = init_resources();
    let mut events: Vec<ResizedWindowEvent> = Vec::new();
    for _ in 0..3 {
        update_window_size_main(size(1280.0, 720.0), &mut current, &mut previous, &mut events);
        assert!(events.is_empty());
        assert_eq!(previous.0.width, 1280.0f32.to_bits());
        assert_eq!(previous.0.height, 720.0f32.to_bits());
        assert_eq!(current.width, 1280.0f32.to_bits());
    }
    let mut zero = WindowSize { width: 0.0f32.to_bits(), height: 0.0f32.to_bits() };
    let mut acted = PreviousWindowSize(zero);
    update_window_size_main(size(-0.0, 0.0), &mut zero, &mut acted, &mut events);
    assert!(events.is_empty());
    assert_eq!(acted.0.width, 0.0f32.to_bits());
    assert_eq!(zero.width, (-0.0f32).to_bits());
}

#[test]
fn a_size_that_is_not_a_number_always_counts_as_changed() {
    let mut current = size(f32::NAN, 720.0);
    let mut previous = PreviousWindowSize(current);
    let mut events: Vec<ResizedWindowEvent> = Vec::new();
    update_window_size_main(size(f32::NAN, 720.0), &mut current, &mut previous, &mut events);
    assert_eq!(events.len(), 1);
}

#[test]
fn a_change_of_height_alone_is_a_change() {
    let (mut current, mut previous) = init_resources();
    let mut events: Vec<ResizedWindowEvent> = Vec::new();
    update_window_size_main(size(1280.0, 721.0), &mut current, &mut previous, &mut events);
    assert_eq!(events.len(), 1);
    assert_eq!(previous.0.height, 721.0f32.to_bits());
    update_window_size_main(size(1281.0, 721.0), &mut current, &mut previous, &mut events);
    assert_eq!(events.len(), 2);
    assert_eq!(previous.0.width, 1281.0f32.to_bits());
    assert_eq!(update_window_size_render(&current).width, 1281.0f32.to_bits());
    assert_eq!(update_window_size_render(&current).height, 721.0f32.to_bits());
}

#[test]
fn resize_from_1280x720_to_1920x1080() {
    let (mut current, mut previous) = init_resources();
    let (mut image, mut sprite) = setup(1);
    assert_eq!(image, ComputeImage { handle: 1, width: 1280, height: 720 });
    assert_eq!(sprite.texture, 1);
    assert_eq!(sprite.custom_size.unwrap().width, 1280.0f32.to_bits());
    assert_eq!(sprite.custom_size.unwrap().height, 720.0f32.to_bits());
    let mut buffers = init_buffers();
    let mut events: Vec<ResizedWindowEvent> = Vec::new();

    update_window_size_main(size(1920.0, 1080.0), &mut current, &mut previous, &mut events);
    assert_eq!(events.len(), 1);
    assert_eq!(current.width, 1920.0f32.to_bits());
    assert_eq!(previous.0.width, 1920.0f32.to_bits());
    assert_eq!(previous.0.height, 1080.0f32.to_bits());

    let aspect = (1920.0f32 / 1080.0).to_bits();
    assert_eq!(update_window_buffers(&mut buffers, &current, aspect), Ok(()));
    let replaced =
        update_camera_texture_size(&mut image, Some(2), &current, &mut sprite, &mut events);
    assert_eq!(replaced, Ok(true));
    assert!(events.is_empty());
    assert_eq!(image, ComputeImage { handle: 2, width: 1920, height: 1080 });
    assert_eq!(sprite.texture, 2);
    assert_eq!(sprite.custom_size.unwrap().width, 1920.0f32.to_bits());
    assert_eq!(floats(buffers.bytes_at(3).unwrap()), vec![1920.0, 1080.0]);
    assert_eq!(floats(buffers.bytes_at(4).unwrap()), vec![1920.0f32 / 1080.0]);
    let decoded = floats(buffers.bytes_at(3).unwrap());
    assert_eq!(decoded[0] as u32, image.width);
    assert_eq!(decoded[1] as u32, image.height);

    update_window_size_main(size(1920.0, 1080.0), &mut current, &mut previous, &mut events);
    assert!(events.is_empty());
    assert_eq!(
        update_camera_texture_size(&mut image, Some(3), &current, &mut sprite, &mut events),
        Ok(false)
    );
    assert_eq!(image.handle, 2);
}

#[test]
fn image_and_resolution_slot_change_together() {
    let (mut current, mut previous) = init_resources();
    let (mut image, mut sprite) = setup(0);
    let mut buffers = init_buffers();
    let mut events: Vec<ResizedWindowEvent> = Vec::new();
    let mut handle = 0;
    for (w, h) in [(800.0f32, 600.0f32), (800.0, 600.0), (1024.5, 768.25), (1.0, 1.0), (3840.0, 2160.0)] {
        update_window_size_main(size(w, h), &mut current, &mut previous, &mut events);
        handle += 1;
        update_window_buffers(&mut buffers, &current, (w / h).to_bits()).unwrap();
        update_camera_texture_size(&mut image, Some(handle), &current, &mut sprite, &mut events)
            .unwrap();
        let decoded = floats(buffers.bytes_at(3).unwrap());
        assert_eq!(decoded, vec![w, h]);
        assert_eq!((image.width, image.height), (w as u32, h as u32));
        assert_eq!(floats(buffers.bytes_at(4).unwrap()), vec![w / h]);
        assert!(buffers.matches_declaration());
    }
}

#[test]
fn a_resize_without_an_image_store_is_an_error_and_keeps_the_notice() {
    let (mut image, mut sprite) = setup(5);
    let mut events = vec![ResizedWindowEvent(), ResizedWindowEvent()];
    let res =
        update_camera_texture_size(&mut image, None, &size(640.0, 480.0), &mut sprite, &mut events);
    assert_eq!(res, Err(ResizeError::ImageStore));
    assert_eq!(events.len(), 2);
    assert_eq!(image, ComputeImage { handle: 5, width: 1280, height: 720 });
    assert_eq!(sprite.texture, 5);
    assert_eq!(sprite.custom_size.unwrap().width, 1280.0f32.to_bits());
    let res = update_camera_texture_size(
        &mut image,
        Some(6),
        &size(640.0, 480.0),
        &mut sprite,
        &mut events,
    );
    assert_eq!(res, Ok(true));
    assert_eq!(image, ComputeImage { handle: 6, width: 640, height: 480 });
    assert_eq!(sprite.texture, 6);
    assert!(events.is_empty());
}

#[test]
fn without_a_notice_nothing_is_to_do_with_or_without_an_image_store() {
    let (mut image, mut sprite) = setup(5);
    let mut events: Vec<ResizedWindowEvent> = Vec::new();
    for fresh in [None, Some(9)] {
        let res = update_camera_texture_size(
            &mut image,
            fresh,
            &size(640.0, 480.0),
            &mut sprite,
            &mut events,
        );
        assert_eq!(res, Ok(false));
        assert_eq!(image, ComputeImage { handle: 5, width: 1280, height: 720 });
        assert_eq!(sprite.texture, 5);
        assert!(events.is_empty());
    }
}

#[test]
fn the_output_image_is_described_in_full() {
    let (image, _) = setup(1);
    let d = image.descriptor();
    assert_eq!(d.size, Extent3d { width: 1280, height: 720, depth_or_array_layers: 1 });
    assert_eq!(d.dimension, TextureDimension::D2);
    assert_eq!(d.fill, Pixel { red: 0, green: 0, blue: 0, alpha: 255 });
    assert_eq!(d.format, TextureFormat::Rgba8Unorm);
    assert_eq!(
        d.usage,
        TextureUsages {
            copy_src: false,
            copy_dst: true,
            texture_binding: true,
            storage_binding: true,
            render_attachment: false,
        }
    );
    let resized = ComputeImage { handle: 2, width: 1920, height: 1080 };
    assert_eq!(resized.descriptor(), output_image_descriptor(1920, 1080));
    assert_eq!(resized.descriptor().size.width, 1920);
    assert_eq!(resized.descriptor().size.height, 1080);
    assert_eq!(resized.descriptor().usage, d.usage);
}

#[test]
fn the_layout_entries_are_described_in_full() {
    let compute = ShaderStages { vertex: false, fragment: false, compute: true };
    let image = image_layout_entry();
    assert_eq!(image.binding, 0);
    assert_eq!(image.binding, IMAGE_BINDING);
    assert_eq!(image.visibility, compute);
    assert_eq!(
        image.ty,
        BindingType::StorageTexture {
            access: StorageTextureAccess::ReadWrite,
            format: TextureFormat::Rgba8Unorm,
            view_dimension: TextureViewDimension::D2,
        }
    );
    assert_eq!(image.count, None);
    let buffer = buffer_layout_entry(5);
    assert_eq!(buffer.binding, 5);
    assert_eq!(buffer.visibility, compute);
    assert_eq!(
        buffer.ty,
        BindingType::Buffer {
            ty: BufferBindingType::Storage { read_only: true },
            has_dynamic_offset: false,
            min_binding_size: None,
        }
    );
    assert_eq!(buffer.count, None);
    assert_eq!(
        data_buffer_usage(),
        BufferUsages {
            map_read: false,
            map_write: false,
            copy_src: false,
            copy_dst: false,
            index: false,
            vertex: false,
            uniform: false,
            storage: true,
            indirect: false,
            query_resolve: false,
        }
    );
    assert_eq!(BIND_GROUP_INDEX, 0);
    assert_eq!(WORKGROUP_LAYERS, 1);
}

#[test]
fn the_pipelines_are_described_in_full() {
    let buffers = init_buffers();
    assert_eq!(shader_path().0, "shaders/raytracer.wgsl");
    for (kernel, name) in [(Kernel::Init, "init"), (Kernel::Update, "update")] {
        let d = kernel.pipeline_descriptor(&buffers, shader_path());
        assert_eq!(d.layout, layout_entries(&buffers));
        assert_eq!(d.layout.len(), 7);
        assert!(d.push_constant_ranges.is_empty());
        assert_eq!(d.shader.0, "shaders/raytracer.wgsl");
        assert!(d.shader_defs.is_empty());
        assert_eq!(d.entry_point, name);
    }
    let other = Kernel::Init.pipeline_descriptor(&buffers, ShaderPath("other.wgsl"));
    assert_eq!(other.shader.0, "other.wgsl");
}

#[test]
fn window_writes_stop_at_the_first_slot_that_is_missing() {
    let mut only_resolution = ComputeBuffers::new(vec![ComputeBuffer::new(3, vec![0, 0])]);
    let s = size(640.0, 480.0);
    assert!(update_window_buffers(&mut only_resolution, &s, 7).is_err());
    assert_eq!(floats(&only_resolution.0[0].bytes), vec![640.0, 480.0]);
    let mut only_aspect = ComputeBuffers::new(vec![ComputeBuffer::new(4, vec![5])]);
    assert!(update_window_buffers(&mut only_aspect, &s, 7).is_err());
    assert_eq!(only_aspect.0[0].bytes, 5u32.to_ne_bytes().to_vec());
}

#[test]
fn the_state_machine_follows_the_readiness_signals() {
    let mut node = ComputeNode::default();
    assert_eq!(node.state, ComputeState::Loading);
    let resolution = size(1280.0, 720.0);
    let mut kernels = Vec::new();
    for tick in 0..12 {
        node.update(tick >= 3, tick >= 7);
        kernels.push(node.run(&resolution));
    }
    for tick in 0..3 {
        assert_eq!(kernels[tick], Dispatch::Idle);
    }
    for tick in 3..7 {
        assert_eq!(kernels[tick], Dispatch::Run { kernel: Kernel::Init, x: 160, y: 90, z: 1 });
    }
    for tick in 7..12 {
        assert_eq!(kernels[tick], Dispatch::Run { kernel: Kernel::Update, x: 160, y: 90, z: 1 });
    }
    assert_eq!(node.state, ComputeState::Update);
}

#[test]
fn the_state_machine_never_goes_back() {
    fn rank(s: ComputeState) -> u8 {
        match s {
            ComputeState::Loading => 0,
            ComputeState::Init => 1,
            ComputeState::Update => 2,
        }
    }
    for start in [ComputeState::Loading, ComputeState::Init, ComputeState::Update] {
        for pattern in 0..256u32 {
            let mut node = ComputeNode { state: start };
            let mut last = rank(node.state);
            for step in 0..4 {
                let init = (pattern >> (2 * step)) & 1 == 1;
                let update = (pattern >> (2 * step + 1)) & 1 == 1;
                node.update(init, update);
                assert!(rank(node.state) >= last);
                assert!(rank(node.state) <= last + 1);
                last = rank(node.state);
            }
        }
    }
    let mut node = ComputeNode::default();
    node.update(false, true);
    assert_eq!(node.state, ComputeState::Loading);
    node.update(true, true);
    assert_eq!(node.state, ComputeState::Init);
    node.update(true, false);
    assert_eq!(node.state, ComputeState::Init);
    node.update(false, true);
    assert_eq!(node.state, ComputeState::Update);
    node.update(false, false);
    assert_eq!(node.state, ComputeState::Update);
}

#[test]
fn the_grid_covers_sizes_that_are_no_multiple_of_the_group() {
    let node = ComputeNode { state: ComputeState::Update };
    assert_eq!(
        node.run(&size(1921.0, 1.5)),
        Dispatch::Run { kernel: Kernel::Update, x: 241, y: 1, z: 1 }
    );
    assert_eq!(
        node.run(&size(0.0, -3.0)),
        Dispatch::Run { kernel: Kernel::Update, x: 0, y: 0, z: 1 }
    );
    let loading = ComputeNode::default();
    assert_eq!(loading.run(&size(1921.0, 1.5)), Dispatch::Idle);
    assert_eq!(Kernel::Init.entry_point(), "init");
    assert_eq!(Kernel::Update.entry_point(), "update");
    assert_eq!(ShaderPath("shaders/raytracer.wgsl").0, "shaders/raytracer.wgsl");
}

fn slots(group: &ComputeBindGroup) -> Vec<u32> {
    group.0.iter().map(|e| e.binding).collect()
}

#[test]
fn default_registry_extracted_and_assembled() {
    let main = init_buffers();
    let (image, _) = setup(11);
    let render = update_buffers(&main);
    let pipeline = ComputePipeline::from_world(&render, 100, 101);
    assert_eq!(pipeline.init_pipeline, 100);
    assert_eq!(pipeline.update_pipeline, 101);
    assert_eq!(pipeline.texture_bind_group_layout.len(), 7);
    let group = prepare_bind_group(&pipeline, &image, &render).ok().unwrap();
    assert_eq!(group.0.len(), render.0.len() + 1);
    assert_eq!(slots(&group), vec![0, 1, 2, 3, 5, 4, 6]);
    match &group.0[0].resource {
        BindingResource::TextureView(handle) => assert_eq!(*handle, 11),
        BindingResource::Buffer(_) => panic!("slot 0 holds the image"),
    }
    for (entry, buffer) in group.0[1..].iter().zip(main.0.iter()) {
        assert_eq!(entry.binding, buffer.binding);
        match &entry.resource {
            BindingResource::Buffer(bytes) => {
                assert_eq!(bytes, &buffer.bytes);
                assert!(!bytes.is_empty());
            }
            BindingResource::TextureView(_) => panic!("a data slot holds a buffer"),
        }
    }
    match &group.0[3].resource {
        BindingResource::Buffer(bytes) => assert_eq!(floats(bytes), vec![1920.0, 1080.0]),
        BindingResource::TextureView(_) => panic!("a data slot holds a buffer"),
    }
    match &group.0[5].resource {
        BindingResource::Buffer(bytes) => assert_eq!(floats(bytes), vec![1920.0f32 / 1080.0]),
        BindingResource::TextureView(_) => panic!("a data slot holds a buffer"),
    }
}

#[test]
fn the_binding_set_has_exactly_the_declared_slots_every_frame() {
    let mut main = init_buffers();
    let pipeline = ComputePipeline::from_world(&main, 0, 1);
    let (image, _) = setup(0);
    for frame in 0..5u32 {
        main.set_value_at(1, vec![frame, frame, frame]).unwrap();
        main.set_value_at(6, vec![frame; 4 * frame as usize]).unwrap();
        let render = update_buffers(&main);
        let group = prepare_bind_group(&pipeline, &image, &render).ok().unwrap();
        let mut bound = slots(&group);
        bound.sort();
        assert_eq!(bound, vec![0, 1, 2, 3, 4, 5, 6]);
        match &group.0[1].resource {
            BindingResource::Buffer(bytes) => assert_eq!(bytes, main.bytes_at(1).unwrap()),
            BindingResource::TextureView(_) => panic!("a data slot holds a buffer"),
        }
    }
}

#[test]
fn the_layout_has_the_image_and_one_buffer_for_each_slot() {
    let buffers = init_buffers();
    let layout = layout_entries(&buffers);
    assert_eq!(layout.len(), 7);
    assert_eq!(layout[0], image_layout_entry());
    for (entry, slot) in layout[1..].iter().zip([1u32, 2, 3, 5, 4, 6]) {
        assert_eq!(*entry, buffer_layout_entry(slot));
        assert_eq!(entry.binding, slot);
    }
    assert!(layout_matches(&layout, &buffers));
    let empty = ComputeBuffers::new(Vec::new());
    assert_eq!(
        layout_entries(&empty),
        vec![image_layout_entry()]
    );
}

#[test]
fn a_registry_that_does_not_fit_the_layout_gives_no_binding_set() {
    let full = init_buffers();
    let pipeline = ComputePipeline::from_world(&full, 0, 1);
    let (image, _) = setup(0);
    let mut short = init_buffers().0;
    short.pop();
    let short = ComputeBuffers::new(short);
    assert!(matches!(
        prepare_bind_group(&pipeline, &image, &short),
        Err(BindError::LayoutMismatch)
    ));
    let mut swapped = init_buffers().0;
    swapped.swap(3, 4);
    let swapped = ComputeBuffers::new(swapped);
    assert!(matches!(
        prepare_bind_group(&pipeline, &image, &swapped),
        Err(BindError::LayoutMismatch)
    ));
    let mut wrong = ComputePipeline::from_world(&full, 0, 1);
    wrong.texture_bind_group_layout[0].ty = buffer_layout_entry(0).ty;
    let mut seen_by_all = ComputePipeline::from_world(&full, 0, 1);
    seen_by_all.texture_bind_group_layout[2].visibility.fragment = true;
    assert!(prepare_bind_group(&seen_by_all, &image, &full).is_err());
    let mut writable = ComputePipeline::from_world(&full, 0, 1);
    writable.texture_bind_group_layout[1].ty = BindingType::Buffer {
        ty: BufferBindingType::Storage { read_only: false },
        has_dynamic_offset: false,
        min_binding_size: None,
    };
    assert!(prepare_bind_group(&writable, &image, &full).is_err());
    assert!(prepare_bind_group(&wrong, &image, &full).is_err());
    let mut none = ComputePipeline::from_world(&full, 0, 1);
    none.texture_bind_group_layout.clear();
    assert!(prepare_bind_group(&none, &image, &full).is_err());
    assert!(!layout_matches(&none.texture_bind_group_layout, &full));
}
