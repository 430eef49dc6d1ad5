use frame_engine::device_select::{
    first_usable_family, select_device, DeviceCandidate, DeviceChoice, DeviceKind, QueueFamilyInfo,
};
use frame_engine::fence_table::FenceTable;
use frame_engine::frame_recorder::{
    build_program, build_program_set, record_compute_pipeline, ClearColor, Command, DrawData,
    PipelineBinding, RenderTarget,
};
use frame_engine::shader::{spirv_words, ShaderStage, SpirvError};
use frame_engine::swap_ring::{create_config, Extent, RingConfig, RingError, SurfaceCaps};

fn caps() -> SurfaceCaps {
    SurfaceCaps { min_image_count: 2, formats: vec![50, 44], composite_alphas: vec![8, 1] }
}

#[test]
fn ring_takes_one_more_than_the_minimum_and_the_first_choices() {
    let r = create_config(&caps(), Extent { width: 800, height: 600 });
    assert_eq!(
        r,
        Ok(RingConfig {
            min_image_count: 3,
            format: 50,
            extent: Extent { width: 800, height: 600 },
            composite_alpha: 8,
        })
    );
}

#[test]
fn ring_errors() {
    let e = Extent { width: 800, height: 600 };
    assert_eq!(create_config(&caps(), Extent { width: 0, height: 600 }), Err(RingError::ZeroExtent));
    assert_eq!(create_config(&caps(), Extent { width: 800, height: 0 }), Err(RingError::ZeroExtent));
    let mut c = caps();
    c.formats.clear();
    assert_eq!(create_config(&c, e), Err(RingError::NoFormat));
    let mut c = caps();
    c.composite_alphas.clear();
    assert_eq!(create_config(&c, e), Err(RingError::NoCompositeAlpha));
    let mut c = caps();
    c.min_image_count = u32::MAX;
    assert_eq!(create_config(&c, e), Err(RingError::ImageCountOverflow));
}

#[test]
fn recreate_twice_with_the_same_extent_is_stable() {
    let first = create_config(&caps(), Extent { width: 800, height: 600 }).unwrap();
    let new_extent = Extent { width: 1280, height: 720 };
    let once = first.recreate(new_extent).unwrap();
    let twice = once.recreate(new_extent).unwrap();
    assert_eq!(once, twice);
    assert_eq!(once.min_image_count, first.min_image_count);
    assert_eq!(once.format, first.format);
    assert_eq!(once.extent, new_extent);
    assert_eq!(first.recreate(Extent { width: 1280, height: 0 }), Err(RingError::ZeroExtent));
}

#[test]
fn fence_table_records_and_chains() {
    let mut t = FenceTable::new(3);
    assert_eq!(t.slot_count(), 3);
    assert_eq!(t.wait_if_pending(1), None);
    assert_eq!(t.chain(1), None);
    t.record_submission(1, 7);
    assert_eq!(t.wait_if_pending(1), Some(7));
    assert_eq!(t.chain(1), Some(7));
    assert_eq!(t.chain(3), None);
    t.record_submission(1, 9);
    t.record_submission(0, 8);
    assert_eq!(t.entries, vec![Some(8), Some(9), None]);
    assert_eq!(t.pending(), vec![8, 9]);
    assert_eq!(FenceTable::new(0).pending(), Vec::<u64>::new());
}

#[test]
fn frame_program_has_the_fixed_shape() {
    let target = RenderTarget { ring_generation: 5, slot: 2 };
    let p = build_program(target, 9, DrawData { index_count: 6 });
    assert_eq!(p.target, target);
    assert_eq!(p.pipeline, 9);
    assert_eq!(
        p.commands,
        vec![
            Command::BeginRenderTarget { target, clear: ClearColor { r: 0, g: 0, b: 255, a: 255 } },
            Command::BindPipeline(PipelineBinding::Graphics(9)),
            Command::BindDrawBuffers,
            Command::DrawIndexed { index_count: 6, instance_count: 1, first_index: 0, first_instance: 0 },
            Command::EndRenderTarget,
        ]
    );
}

#[test]
fn program_set_covers_every_slot() {
    let set = build_program_set(3, 4, 2, DrawData { index_count: 12 });
    assert_eq!(set.len(), 4);
    for (i, p) in set.iter().enumerate() {
        assert_eq!(*p, build_program(RenderTarget { ring_generation: 3, slot: i as u32 }, 2, DrawData { index_count: 12 }));
    }
    assert!(build_program_set(3, 0, 2, DrawData { index_count: 12 }).is_empty());
}

#[test]
fn compute_pass_commands() {
    assert_eq!(
        record_compute_pipeline(4, 0, 11, 1024, 1, 1),
        vec![
            Command::BindPipeline(PipelineBinding::Compute(4)),
            Command::BindDescriptorSet { set_index: 0, descriptor_set: 11 },
            Command::Dispatch { x: 1024, y: 1, z: 1 },
        ]
    );
}

fn family(graphics: bool, presents_to_surface: bool) -> QueueFamilyInfo {
    QueueFamilyInfo { graphics, presents_to_surface }
}

fn device(has_extensions: bool, kind: DeviceKind, families: Vec<QueueFamilyInfo>) -> DeviceCandidate {
    DeviceCandidate { has_extensions, kind, queue_families: families }
}

#[test]
fn discrete_gpu_is_preferred() {
    let devices = vec![
        device(true, DeviceKind::IntegratedGpu, vec![family(true, true)]),
        device(true, DeviceKind::Cpu, vec![family(true, true)]),
        device(true, DeviceKind::DiscreteGpu, vec![family(false, true), family(true, false), family(true, true)]),
    ];
    assert_eq!(select_device(&devices), Some(DeviceChoice { device: 2, queue_family: 2 }));
}

#[test]
fn ineligible_devices_are_skipped() {
    let devices = vec![
        device(false, DeviceKind::DiscreteGpu, vec![family(true, true)]),
        device(true, DeviceKind::DiscreteGpu, vec![family(true, false)]),
        device(true, DeviceKind::VirtualGpu, vec![family(true, true)]),
        device(true, DeviceKind::VirtualGpu, vec![family(true, true)]),
    ];
    assert_eq!(select_device(&devices), Some(DeviceChoice { device: 2, queue_family: 0 }));
}

#[test]
fn no_eligible_device() {
    assert_eq!(select_device(&vec![]), None);
    let devices = vec![device(true, DeviceKind::Other, vec![family(false, true)])];
    assert_eq!(select_device(&devices), None);
    assert_eq!(first_usable_family(&vec![family(true, false), family(true, true)]), Some(1));
    assert_eq!(first_usable_family(&vec![]), None);
}

#[test]
fn shader_stage_names() {
    assert_eq!(ShaderStage::from_name("vertex"), Some(ShaderStage::Vertex));
    assert_eq!(ShaderStage::from_name("fragment"), Some(ShaderStage::Fragment));
    assert_eq!(ShaderStage::from_name("compute"), Some(ShaderStage::Compute));
    assert_eq!(ShaderStage::from_name("geometry"), None);
    assert_eq!(ShaderStage::from_name("Vertex"), None);
}

#[test]
fn spirv_bytes_read_as_little_endian_words() {
    let bytes: Vec<u8> = vec![0x03, 0x02, 0x23, 0x07, 0x01, 0x02, 0x03, 0x04];
    assert_eq!(spirv_words(&bytes), Ok(vec![0x0723_0203, 0x0403_0201]));
    assert_eq!(spirv_words(&bytes[1..]), Err(SpirvError::LengthNotMultipleOf4));
    assert_eq!(spirv_words(&bytes[..0]), Ok(vec![]));
}
