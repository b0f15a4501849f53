use hiz::layout::{
    AccessMode, BindingSlot, ConfigError, ImageFormat, ResourceBindingLayout, ShaderStage,
    SlotKind, Strategy, READ_WRITE_BINDING,
};
use hiz::pipeline::{
    block_size, layout_label, BlockSize, EntryPoint, HiZPrepassPipeline, PipelineDescriptor,
    PushConstantRange, BIND_GROUP_INDEX, HIZ_SHADER_HANDLE, PUSH_CONSTANT_BYTES, WORK_GROUP_SIZE,
};

const WRITE: SlotKind = SlotKind::StorageImage(AccessMode::WriteOnly);
use hiz::prepare::{HiZ, HiZPlugin};

fn kinds(layout: &ResourceBindingLayout) -> Vec<SlotKind> {
    layout.slots().iter().map(|s| s.kind).collect()
}

#[test]
fn aggregated_layout_has_one_image_slot_per_level() {
    for levels in 1..=11u32 {
        let layout = ResourceBindingLayout::new(Strategy::Aggregated, levels, false, 64).unwrap();
        assert_eq!(layout.slot_count(), levels as usize);
        assert_eq!(layout.slots().len(), levels as usize);
        assert_eq!(layout.write_slot_count(), levels - 1);
        assert_eq!(layout.level_count(), levels);
        assert_eq!(layout.strategy(), Strategy::Aggregated);
        assert!(!layout.has_sampler());
    }
}

#[test]
fn iterative_layout_has_two_image_slots_whatever_the_levels() {
    for levels in 1..=11u32 {
        let layout = ResourceBindingLayout::new(Strategy::Iterative, levels, false, 64).unwrap();
        assert_eq!(layout.slot_count(), 2);
        assert_eq!(layout.write_slot_count(), 1);
        assert_eq!(kinds(&layout), vec![SlotKind::DepthImage, WRITE]);
    }
    let sampled = ResourceBindingLayout::new(Strategy::Iterative, 7, true, 64).unwrap();
    assert_eq!(
        kinds(&sampled),
        vec![SlotKind::DepthImage, WRITE, SlotKind::Sampler]
    );
}

#[test]
fn layout_slots_count_up_from_zero() {
    let layout = ResourceBindingLayout::new(Strategy::Aggregated, 4, true, 64).unwrap();
    assert_eq!(
        layout.slots().clone(),
        vec![
            BindingSlot { binding: 0, visibility: ShaderStage::Compute, kind: SlotKind::DepthImage },
            BindingSlot { binding: 1, visibility: ShaderStage::Compute, kind: WRITE },
            BindingSlot { binding: 2, visibility: ShaderStage::Compute, kind: WRITE },
            BindingSlot { binding: 3, visibility: ShaderStage::Compute, kind: WRITE },
            BindingSlot { binding: 4, visibility: ShaderStage::Compute, kind: SlotKind::Sampler },
        ]
    );
    assert!(layout.has_sampler());
    assert_eq!(layout.slot_count(), 5);
}

#[test]
fn slot_kinds_have_their_access() {
    assert_eq!(SlotKind::DepthImage.access(), Some(AccessMode::ReadOnly));
    assert_eq!(WRITE.access(), Some(AccessMode::WriteOnly));
    assert_eq!(
        SlotKind::StorageImage(AccessMode::ReadWrite).access(),
        Some(AccessMode::ReadWrite)
    );
    assert_eq!(SlotKind::Sampler.access(), None);
    assert_eq!(SlotKind::DepthImage.format(), Some(ImageFormat::Depth));
    assert_eq!(WRITE.format(), Some(ImageFormat::R32Float));
    assert_eq!(
        SlotKind::StorageImage(AccessMode::ReadWrite).format(),
        Some(ImageFormat::R32Float)
    );
    assert_eq!(SlotKind::Sampler.format(), None);
}

#[test]
fn aggregated_layout_reads_back_through_binding_six() {
    assert_eq!(READ_WRITE_BINDING, 6);
    let layout = HiZPlugin::default().finish(12).unwrap();
    let slots = layout.bind_group_layout().slots().clone();
    assert_eq!(slots.len(), 12);
    for (i, slot) in slots.iter().enumerate() {
        assert_eq!(slot.binding as usize, i);
        assert_eq!(slot.visibility, ShaderStage::Compute);
        let expected = match i {
            0 => SlotKind::DepthImage,
            6 => SlotKind::StorageImage(AccessMode::ReadWrite),
            11 => SlotKind::Sampler,
            _ => SlotKind::StorageImage(AccessMode::WriteOnly),
        };
        assert_eq!(slot.kind, expected);
    }
    let accesses: Vec<Option<AccessMode>> = slots.iter().map(|s| s.kind.access()).collect();
    assert_eq!(accesses.iter().filter(|a| **a == Some(AccessMode::ReadWrite)).count(), 1);
    assert_eq!(accesses.iter().filter(|a| **a == Some(AccessMode::ReadOnly)).count(), 1);
    assert_eq!(accesses.iter().filter(|a| **a == Some(AccessMode::WriteOnly)).count(), 9);
}

#[test]
fn read_write_slot_is_there_only_where_the_layout_reaches_it() {
    let seven = ResourceBindingLayout::new(Strategy::Aggregated, 7, true, 64).unwrap();
    assert_eq!(
        kinds(&seven),
        vec![
            SlotKind::DepthImage,
            WRITE,
            WRITE,
            WRITE,
            WRITE,
            WRITE,
            SlotKind::StorageImage(AccessMode::ReadWrite),
            SlotKind::Sampler,
        ]
    );
    let six = ResourceBindingLayout::new(Strategy::Aggregated, 6, true, 64).unwrap();
    assert_eq!(
        kinds(&six),
        vec![SlotKind::DepthImage, WRITE, WRITE, WRITE, WRITE, WRITE, SlotKind::Sampler]
    );
    let thirteen = ResourceBindingLayout::new(Strategy::Aggregated, 13, true, 64).unwrap();
    let read_write: Vec<u32> = thirteen
        .slots()
        .iter()
        .filter(|s| s.kind.access() == Some(AccessMode::ReadWrite))
        .map(|s| s.binding)
        .collect();
    assert_eq!(read_write, vec![6]);
    assert_eq!(thirteen.slot_count(), 14);
    for levels in 1..=13u32 {
        let iterative = ResourceBindingLayout::new(Strategy::Iterative, levels, true, 64).unwrap();
        assert!(iterative.slots().iter().all(|s| s.kind.access() != Some(AccessMode::ReadWrite)));
    }
}

#[test]
fn layout_over_the_binding_limit_is_refused() {
    let r = ResourceBindingLayout::new(Strategy::Aggregated, 11, true, 8);
    assert_eq!(r.err(), Some(ConfigError::TooManyBindings { required: 12, limit: 8 }));
    let r = ResourceBindingLayout::new(Strategy::Aggregated, 11, true, 11);
    assert_eq!(r.err(), Some(ConfigError::TooManyBindings { required: 12, limit: 11 }));
    assert!(ResourceBindingLayout::new(Strategy::Aggregated, 11, true, 12).is_ok());
    let r = ResourceBindingLayout::new(Strategy::Iterative, 11, false, 1);
    assert_eq!(r.err(), Some(ConfigError::TooManyBindings { required: 2, limit: 1 }));
    assert!(ResourceBindingLayout::new(Strategy::Iterative, 11, false, 2).is_ok());
    let r = ResourceBindingLayout::new(Strategy::Aggregated, u32::MAX, true, u32::MAX);
    assert_eq!(
        r.err(),
        Some(ConfigError::TooManyBindings { required: u32::MAX as u64 + 1, limit: u32::MAX })
    );
}

#[test]
fn layout_without_levels_is_refused() {
    for strategy in [Strategy::Aggregated, Strategy::Iterative] {
        let r = ResourceBindingLayout::new(strategy, 0, false, 64);
        assert_eq!(r.err(), Some(ConfigError::NoLevels));
        let r = ResourceBindingLayout::new(strategy, 0, true, 0);
        assert_eq!(r.err(), Some(ConfigError::NoLevels));
    }
}

#[test]
fn layout_of_a_single_level_reads_only() {
    let layout = ResourceBindingLayout::new(Strategy::Aggregated, 1, false, 1).unwrap();
    assert_eq!(kinds(&layout), vec![SlotKind::DepthImage]);
}

#[test]
fn block_sizes_hold_sixty_four_threads() {
    assert_eq!(block_size(Strategy::Aggregated), BlockSize { x: 64, y: 1 });
    assert_eq!(block_size(Strategy::Iterative), BlockSize { x: 8, y: 8 });
    for strategy in [Strategy::Aggregated, Strategy::Iterative] {
        let b = block_size(strategy);
        assert_eq!(b.x * b.y, WORK_GROUP_SIZE);
    }
    assert_eq!(WORK_GROUP_SIZE, 64);
    assert_eq!(PUSH_CONSTANT_BYTES, 4);
    assert_eq!(HIZ_SHADER_HANDLE, 3904150601);
}

#[test]
fn entry_points_have_their_names() {
    assert_eq!(EntryPoint::DownsampleDepthFirst.name(), "downsample_depth_first");
    assert_eq!(EntryPoint::DownsampleDepthSecond.name(), "downsample_depth_second");
    assert_eq!(EntryPoint::DownsampleDepthFirst.label(), "hiz_downsample_depth_first_pipeline");
    assert_eq!(EntryPoint::DownsampleDepthSecond.label(), "hiz_downsample_depth_second_pipeline");
    assert_eq!(layout_label(), "hiz_downsample_depth_bind_group_layout");
    assert_eq!(BIND_GROUP_INDEX, 0);
}

#[test]
fn aggregated_pipeline_has_one_kernel() {
    let pipeline = HiZPrepassPipeline::new(Strategy::Aggregated, 11, true, 16).unwrap();
    assert_eq!(pipeline.strategy(), Strategy::Aggregated);
    assert_eq!(pipeline.work_group_size(), 64);
    assert_eq!(pipeline.block(), BlockSize { x: 64, y: 1 });
    assert_eq!(
        pipeline.downsample_depth_first(),
        PipelineDescriptor {
            shader: 3904150601,
            shader_defs: 0,
            bind_group: 0,
            entry_point: EntryPoint::DownsampleDepthFirst,
            push_constant_range: PushConstantRange { start: 0, end: 4 },
            block: BlockSize { x: 64, y: 1 },
        }
    );
    assert_eq!(pipeline.downsample_depth_second(), None);
    assert_eq!(pipeline.bind_group_layout().slot_count(), 12);
    assert_eq!(pipeline.bind_group_layout().level_count(), 11);
}

#[test]
fn iterative_pipeline_has_two_kernels() {
    let pipeline = HiZPrepassPipeline::new(Strategy::Iterative, 11, false, 16).unwrap();
    assert_eq!(pipeline.strategy(), Strategy::Iterative);
    assert_eq!(pipeline.work_group_size(), 64);
    assert_eq!(pipeline.block(), BlockSize { x: 8, y: 8 });
    assert_eq!(pipeline.downsample_depth_first().entry_point, EntryPoint::DownsampleDepthFirst);
    assert_eq!(
        pipeline.downsample_depth_second(),
        Some(PipelineDescriptor {
            shader: HIZ_SHADER_HANDLE,
            shader_defs: 0,
            bind_group: BIND_GROUP_INDEX,
            entry_point: EntryPoint::DownsampleDepthSecond,
            push_constant_range: PushConstantRange { start: 0, end: 4 },
            block: BlockSize { x: 8, y: 8 },
        })
    );
    assert_eq!(pipeline.bind_group_layout().slot_count(), 2);
}

#[test]
fn pipeline_fails_as_its_layout_does() {
    assert_eq!(
        HiZPrepassPipeline::new(Strategy::Aggregated, 0, true, 16).err(),
        Some(ConfigError::NoLevels)
    );
    assert_eq!(
        HiZPrepassPipeline::new(Strategy::Aggregated, 11, true, 4).err(),
        Some(ConfigError::TooManyBindings { required: 12, limit: 4 })
    );
}

#[test]
fn plugin_defaults_to_twelve_slots() {
    let plugin = HiZPlugin::default();
    assert_eq!(
        plugin,
        HiZPlugin { strategy: Strategy::Aggregated, level_count: 11, sampler: true }
    );
    let pipeline = plugin.finish(1000).unwrap();
    assert_eq!(pipeline.bind_group_layout().slot_count(), 12);
    assert_eq!(
        plugin.finish(11).err(),
        Some(ConfigError::TooManyBindings { required: 12, limit: 11 })
    );
    let none = HiZPlugin { strategy: Strategy::Iterative, level_count: 0, sampler: false };
    assert_eq!(none.finish(1000).err(), Some(ConfigError::NoLevels));
    assert_eq!(HiZ::default(), HiZ);
}
