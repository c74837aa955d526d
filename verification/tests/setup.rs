use compute_shader_toy::bindings::{BindingEntry, BindingSets};
use compute_shader_toy::error::SetupError;
use compute_shader_toy::geometry::{groups_along, Grid, Resolution, WORKGROUP_EXTENT};
use compute_shader_toy::layout::{
    build_blit_layout, build_compute_layout, shape_fits, LayoutEntry, ResourceKind, IMAGE_SLOT,
    UNIFORM_SLOT,
};
use compute_shader_toy::present::{
    select_fragment_variant, vertex_entry_point, FragmentVariant, SurfaceFormat,
    FULLSCREEN_VERTICES,
};
use compute_shader_toy::registry::{Pass, PipelineRegistry, ShaderArtifact};
use compute_shader_toy::resources::{
    BufferUsage, ImageFormat, ResourceDesc, ResourceSet, TextureUsage, FIXED_RESOURCES, OUTPUT_IMAGE, SAMPLER,
    UNIFORM, UNIFORM_BLOCK_BYTES,
};

fn setup_names(names: &[&str]) -> Vec<String> {
    names.iter().map(|name| name.to_string()).collect()
}

fn setup_caustics_artifact() -> ShaderArtifact {
    ShaderArtifact {
        entry_points: setup_names(&["main_velocity", "main_pressure", "main_caustics", "main_image"]),
    }
}

#[test]
fn grid_rounds_up_to_whole_groups() {
    assert_eq!(WORKGROUP_EXTENT, 16);
    assert_eq!(Resolution { width: 256, height: 256 }.workgroup_grid(), Grid { x: 16, y: 16, z: 1 });
    assert_eq!(Resolution { width: 1280, height: 720 }.workgroup_grid(), Grid { x: 80, y: 45, z: 1 });
    assert_eq!(Resolution { width: 17, height: 1 }.workgroup_grid(), Grid { x: 2, y: 1, z: 1 });
    assert_eq!(Resolution { width: 0, height: 15 }.workgroup_grid(), Grid { x: 0, y: 1, z: 1 });
    assert_eq!(groups_along(u32::MAX), 0x1000_0000);
    assert_eq!(groups_along(16), 1);
    assert_eq!(groups_along(15), 1);
    assert_eq!(groups_along(0), 0);
}

#[test]
fn buffer_bytes_scale_with_pixels() {
    let resolution = Resolution { width: 1280, height: 720 };
    assert_eq!(resolution.pixel_count(), 921_600);
    assert_eq!(resolution.buffer_bytes(16), Some(14_745_600));
    assert_eq!(resolution.buffer_bytes(64), Some(58_982_400));
    assert_eq!(resolution.buffer_bytes(0), Some(0));
    let largest = Resolution { width: u32::MAX, height: u32::MAX };
    assert_eq!(largest.pixel_count(), 18_446_744_065_119_617_025);
    assert_eq!(largest.buffer_bytes(1), Some(18_446_744_065_119_617_025));
    assert_eq!(largest.buffer_bytes(2), None);
}

#[test]
fn resource_set_follows_the_resolution() {
    let resolution = Resolution { width: 1280, height: 720 };
    let resources = ResourceSet::new(resolution, vec![16, 64], 1).unwrap();
    let buffers = BufferUsage { copy_dst: true, storage: true, uniform: true };
    assert_eq!(resources.len(), 7);
    assert_eq!(resources.resolution(), resolution);
    assert_eq!(resources.channel_count(), 1);
    assert_eq!(resources.accumulator_count(), 2);
    assert_eq!(UNIFORM_BLOCK_BYTES, 12);
    assert_eq!(FIXED_RESOURCES, 3);
    assert_eq!(
        resources.describe(UNIFORM),
        Some(ResourceDesc::Buffer { size: 12, usage: buffers })
    );
    assert_eq!(
        resources.describe(OUTPUT_IMAGE),
        Some(ResourceDesc::Texture {
            width: 1280,
            height: 720,
            format: ImageFormat::Rgba16Float,
            usage: TextureUsage {
                copy_src: false,
                copy_dst: false,
                storage_binding: true,
                texture_binding: true,
            },
        })
    );
    assert_eq!(resources.describe(SAMPLER), Some(ResourceDesc::Sampler));
    assert_eq!(resources.accumulator(0), Some(3));
    assert_eq!(resources.accumulator(1), Some(4));
    assert_eq!(resources.accumulator(2), None);
    assert_eq!(
        resources.describe(3),
        Some(ResourceDesc::Buffer { size: 14_745_600, usage: buffers })
    );
    assert_eq!(
        resources.describe(4),
        Some(ResourceDesc::Buffer { size: 58_982_400, usage: buffers })
    );
    assert_eq!(resources.channel_read(0), Some(5));
    assert_eq!(resources.channel_write(0), Some(6));
    assert_eq!(resources.channel_read(1), None);
    assert_eq!(resources.channel_write(1), None);
    assert_eq!(
        resources.describe(5),
        Some(ResourceDesc::Texture {
            width: 1280,
            height: 720,
            format: ImageFormat::Rgba16Float,
            usage: TextureUsage {
                copy_src: false,
                copy_dst: true,
                storage_binding: false,
                texture_binding: true,
            },
        })
    );
    assert_eq!(
        resources.describe(6),
        Some(ResourceDesc::Texture {
            width: 1280,
            height: 720,
            format: ImageFormat::Rgba16Float,
            usage: TextureUsage {
                copy_src: true,
                copy_dst: false,
                storage_binding: true,
                texture_binding: false,
            },
        })
    );
    assert_eq!(resources.describe(7), None);
}

#[test]
fn oversized_accumulator_is_refused() {
    let largest = Resolution { width: u32::MAX, height: u32::MAX };
    assert_eq!(
        ResourceSet::new(largest, vec![1, 2, 3], 0).err(),
        Some(SetupError::ResourceTooLarge { accumulator: 1 })
    );
    assert!(ResourceSet::new(largest, vec![1, 1], 0).is_ok());
}

#[test]
fn too_many_channels_are_refused() {
    let resolution = Resolution { width: 4, height: 4 };
    assert_eq!(
        ResourceSet::new(resolution, Vec::new(), usize::MAX).err(),
        Some(SetupError::TooManyBindings)
    );
    assert_eq!(
        ResourceSet::new(resolution, vec![4], 0x7fff_fffe).err(),
        Some(SetupError::TooManyBindings)
    );
    assert_eq!(
        PipelineRegistry::new(
            &setup_caustics_artifact(),
            &Vec::new(),
            &setup_names(&["main_image"]),
            usize::MAX,
            SurfaceFormat::Bgra8Unorm,
        )
        .err(),
        Some(SetupError::TooManyBindings)
    );
    assert_eq!(build_compute_layout(0xffff_fffd, 0).err(), Some(SetupError::TooManyBindings));
    assert!(shape_fits(0xffff_fffc, 0));
    assert!(shape_fits(0, 0x7fff_fffe));
    assert!(!shape_fits(0xffff_fffd, 0));
    assert!(!shape_fits(1, 0x7fff_fffe));
    assert!(!shape_fits(0, 0x7fff_ffff));
}

#[test]
fn compute_layout_joins_the_fragments_in_order() {
    assert_eq!(UNIFORM_SLOT, 0);
    assert_eq!(IMAGE_SLOT, 1);
    assert_eq!(
        build_compute_layout(2, 0).unwrap(),
        vec![
            LayoutEntry { slot: 0, kind: ResourceKind::UniformBuffer },
            LayoutEntry { slot: 1, kind: ResourceKind::WriteOnlyStorageTexture },
            LayoutEntry { slot: 2, kind: ResourceKind::StorageBuffer },
            LayoutEntry { slot: 3, kind: ResourceKind::StorageBuffer },
        ]
    );
    assert_eq!(
        build_compute_layout(1, 2).unwrap(),
        vec![
            LayoutEntry { slot: 0, kind: ResourceKind::UniformBuffer },
            LayoutEntry { slot: 1, kind: ResourceKind::WriteOnlyStorageTexture },
            LayoutEntry { slot: 2, kind: ResourceKind::StorageBuffer },
            LayoutEntry { slot: 3, kind: ResourceKind::ReadOnlyTexture },
            LayoutEntry { slot: 4, kind: ResourceKind::WriteOnlyStorageTexture },
            LayoutEntry { slot: 5, kind: ResourceKind::ReadOnlyTexture },
            LayoutEntry { slot: 6, kind: ResourceKind::WriteOnlyStorageTexture },
        ]
    );
    assert_eq!(
        build_blit_layout(),
        vec![
            LayoutEntry { slot: 0, kind: ResourceKind::ReadOnlyTexture },
            LayoutEntry { slot: 1, kind: ResourceKind::Sampler },
        ]
    );
}

#[test]
fn adding_a_channel_keeps_the_earlier_slots() {
    let without = build_compute_layout(2, 1).unwrap();
    let with = build_compute_layout(2, 2).unwrap();
    assert_eq!(with.len(), without.len() + 2);
    assert_eq!(&with[..without.len()], &without[..]);
}

#[test]
fn registry_has_one_pipeline_per_entry_point() {
    let artifact = setup_caustics_artifact();
    let registry = PipelineRegistry::new(
        &artifact,
        &setup_names(&["main_velocity", "main_pressure"]),
        &setup_names(&["main_caustics", "main_image"]),
        2,
        SurfaceFormat::Bgra8Unorm,
    )
    .unwrap();
    assert_eq!(registry.channel_count(), 2);
    assert_eq!(registry.image_count(), 2);
    assert_eq!(registry.accumulator_count(), 2);
    assert_eq!(registry.pipeline_count(), 4);
    let expected = [
        ("main_velocity", Pass::Channel { channel: 0 }),
        ("main_pressure", Pass::Channel { channel: 1 }),
        ("main_caustics", Pass::Image { pass: 0 }),
        ("main_image", Pass::Image { pass: 1 }),
    ];
    for (k, (name, pass)) in expected.iter().enumerate() {
        let descriptor = registry.pipeline(k).unwrap();
        assert_eq!(descriptor.entry_point, *name);
        assert_eq!(descriptor.pass, *pass);
    }
    assert!(registry.pipeline(4).is_none());
    assert_eq!(registry.compute_layout(), &build_compute_layout(2, 2).unwrap());
    assert_eq!(registry.blit_layout(), &build_blit_layout());
    assert_eq!(registry.present_variant(), FragmentVariant::GammaCorrecting);
}

#[test]
fn setup_twice_gives_the_same_layouts() {
    let artifact = setup_caustics_artifact();
    let make = |resolution: Resolution| {
        let resources = ResourceSet::new(resolution, vec![16, 64], 1).unwrap();
        let registry = PipelineRegistry::new(
            &artifact,
            &setup_names(&["main_velocity"]),
            &setup_names(&["main_image"]),
            2,
            SurfaceFormat::Bgra8UnormSrgb,
        )
        .unwrap();
        (resources, registry)
    };
    let (first_resources, first) = make(Resolution { width: 640, height: 480 });
    let (second_resources, second) = make(Resolution { width: 640, height: 480 });
    assert_eq!(first.compute_layout(), second.compute_layout());
    assert_eq!(first.blit_layout(), second.blit_layout());
    for handle in 0..=first_resources.len() {
        assert_eq!(first_resources.describe(handle), second_resources.describe(handle));
    }
    let first_bindings = BindingSets::new(&first_resources, &first).unwrap();
    let second_bindings = BindingSets::new(&second_resources, &second).unwrap();
    assert_eq!(first_bindings.compute(), second_bindings.compute());
    assert_eq!(first_bindings.blit(), second_bindings.blit());
    let (_, other) = make(Resolution { width: 1, height: 1 });
    assert_eq!(first.compute_layout(), other.compute_layout());
}

#[test]
fn unknown_channel_producer_is_refused() {
    let made = PipelineRegistry::new(
        &setup_caustics_artifact(),
        &setup_names(&["main_velocity", "main_missing", "main_gone"]),
        &setup_names(&["main_absent"]),
        0,
        SurfaceFormat::Other,
    );
    assert_eq!(made.err(), Some(SetupError::UnknownChannelProducer { channel: 1 }));
}

#[test]
fn unknown_image_pass_is_refused() {
    let made = PipelineRegistry::new(
        &setup_caustics_artifact(),
        &setup_names(&["main_velocity"]),
        &setup_names(&["main_image", "main_hist"]),
        0,
        SurfaceFormat::Other,
    );
    assert_eq!(made.err(), Some(SetupError::UnknownImagePass { pass: 1 }));
}

#[test]
fn entry_points_are_found_by_name() {
    let artifact = ShaderArtifact { entry_points: setup_names(&["main_hist", "main_image", "main_hist"]) };
    assert_eq!(artifact.find(&"main_hist".to_string()), Some(0));
    assert_eq!(artifact.find(&"main_image".to_string()), Some(1));
    assert_eq!(artifact.find(&"main".to_string()), None);
    assert_eq!(artifact.find(&"main_image ".to_string()), None);
}

#[test]
fn surface_format_selects_the_fragment_variant() {
    assert_eq!(
        select_fragment_variant(SurfaceFormat::Bgra8UnormSrgb),
        Ok(FragmentVariant::DirectCopy)
    );
    assert_eq!(
        select_fragment_variant(SurfaceFormat::Bgra8Unorm),
        Ok(FragmentVariant::GammaCorrecting)
    );
    assert_eq!(
        select_fragment_variant(SurfaceFormat::Other),
        Err(SetupError::UnsupportedSurfaceFormat)
    );
    assert_eq!(FragmentVariant::DirectCopy.entry_point(), "fs_main");
    assert_eq!(FragmentVariant::GammaCorrecting.entry_point(), "fs_main_srgb");
    assert_eq!(vertex_entry_point(), "vs_main");
    assert_eq!(FULLSCREEN_VERTICES, 3);
}

#[test]
fn unsupported_format_stops_the_setup() {
    let made = PipelineRegistry::new(
        &setup_caustics_artifact(),
        &Vec::new(),
        &setup_names(&["main_image"]),
        0,
        SurfaceFormat::Other,
    );
    assert_eq!(made.err(), Some(SetupError::UnsupportedSurfaceFormat));
}

#[test]
fn bindings_follow_the_layouts() {
    let artifact = setup_caustics_artifact();
    let resources = ResourceSet::new(Resolution { width: 64, height: 64 }, vec![16], 1).unwrap();
    let registry = PipelineRegistry::new(
        &artifact,
        &setup_names(&["main_velocity"]),
        &setup_names(&["main_image"]),
        1,
        SurfaceFormat::Bgra8Unorm,
    )
    .unwrap();
    let bindings = BindingSets::new(&resources, &registry).unwrap();
    assert_eq!(bindings.channel_count(), 1);
    assert_eq!(bindings.accumulator_count(), 1);
    assert_eq!(
        bindings.compute(),
        &vec![
            BindingEntry { slot: 0, resource: 0 },
            BindingEntry { slot: 1, resource: 1 },
            BindingEntry { slot: 2, resource: 3 },
            BindingEntry { slot: 3, resource: 4 },
            BindingEntry { slot: 4, resource: 5 },
        ]
    );
    assert_eq!(
        bindings.blit(),
        &vec![BindingEntry { slot: 0, resource: 1 }, BindingEntry { slot: 1, resource: 2 }]
    );
    let layout = registry.compute_layout();
    for (entry, binding) in layout.iter().zip(bindings.compute().iter()) {
        assert_eq!(entry.slot, binding.slot);
        let fits = match (entry.kind, resources.describe(binding.resource).unwrap()) {
            (ResourceKind::UniformBuffer, ResourceDesc::Buffer { usage, .. }) => usage.uniform,
            (ResourceKind::StorageBuffer, ResourceDesc::Buffer { usage, .. }) => usage.storage,
            (ResourceKind::ReadOnlyTexture, ResourceDesc::Texture { usage, .. }) => {
                usage.texture_binding
            }
            (ResourceKind::WriteOnlyStorageTexture, ResourceDesc::Texture { usage, .. }) => {
                usage.storage_binding
            }
            (ResourceKind::Sampler, ResourceDesc::Sampler) => true,
            _ => false,
        };
        assert!(fits);
    }
}

#[test]
fn bindings_refuse_parts_of_different_shape() {
    let artifact = setup_caustics_artifact();
    let registry = PipelineRegistry::new(
        &artifact,
        &setup_names(&["main_velocity"]),
        &setup_names(&["main_image"]),
        1,
        SurfaceFormat::Bgra8Unorm,
    )
    .unwrap();
    let resolution = Resolution { width: 64, height: 64 };
    let fewer_channels = ResourceSet::new(resolution, vec![16], 0).unwrap();
    assert_eq!(
        BindingSets::new(&fewer_channels, &registry).err(),
        Some(SetupError::ShapeMismatch)
    );
    let more_buffers = ResourceSet::new(resolution, vec![16, 16], 1).unwrap();
    assert_eq!(BindingSets::new(&more_buffers, &registry).err(), Some(SetupError::ShapeMismatch));
}
