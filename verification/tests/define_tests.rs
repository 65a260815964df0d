//! Tests of the descriptor types: the render-pass output builder, image
//! descriptions, flags, layout-transition masks, and error texts.

use luxseed::cache::{StructuralCache, StructuralKey};
use luxseed::define::{ImageCreateDesc, ImageViewCreateDesc, RenderPassOutput};
use luxseed::enums::{
    Format, ImageLayout, ImageTiling, ImageType, RenderTargetLoadAction, SampleCount,
    TextureViewType,
};
use luxseed::error::RenderError;
use luxseed::flag::{AccessFlags, ImageAspectFlags, ImageUsageFlags, PipelineStageFlags};
use luxseed::render_system::barrier_masks;

#[test]
fn builder_collects_attachments_in_order() {
    let output = RenderPassOutput::builder()
        .add_color(
            Format::B8G8R8A8_SRGB,
            ImageLayout::PresentSrcKhr,
            RenderTargetLoadAction::Clear,
            SampleCount::Sample1,
        )
        .add_color(
            Format::R8G8B8A8_UNORM,
            ImageLayout::ColorAttachmentOptimal,
            RenderTargetLoadAction::Load,
            SampleCount::Sample4,
        )
        .set_depth_stencil(
            Format::D32_SFLOAT,
            ImageLayout::DepthStencilAttachmentOptimal,
            RenderTargetLoadAction::Clear,
            RenderTargetLoadAction::DontCare,
            SampleCount::Sample1,
        )
        .build();
    assert_eq!(output.num_colors, 2);
    assert_eq!(output.color_formats, vec![Format::B8G8R8A8_SRGB, Format::R8G8B8A8_UNORM]);
    assert_eq!(output.color_loads[1], RenderTargetLoadAction::Load);
    assert_eq!(output.color_samples[1], SampleCount::Sample4);
    assert_eq!(output.depth_stencil_format, Format::D32_SFLOAT);
    assert_eq!(output.stencil_load, RenderTargetLoadAction::DontCare);
}

#[test]
fn builder_reset_clears_accumulated_state() {
    let builder = RenderPassOutput::builder()
        .add_color(
            Format::B8G8R8A8_SRGB,
            ImageLayout::PresentSrcKhr,
            RenderTargetLoadAction::Clear,
            SampleCount::Sample1,
        )
        .set_depth_stencil(
            Format::D32_SFLOAT,
            ImageLayout::DepthStencilAttachmentOptimal,
            RenderTargetLoadAction::Clear,
            RenderTargetLoadAction::DontCare,
            SampleCount::Sample1,
        )
        .reset();
    let output = builder.build();
    assert_eq!(output.num_colors, 0);
    assert_eq!(output.depth_stencil_format, Format::Unknown);
    assert_eq!(output.depth_load, RenderTargetLoadAction::DontCare);
}

#[test]
fn structural_equality_is_by_value_not_identity() {
    let a = RenderPassOutput::builder()
        .add_color(
            Format::B8G8R8A8_SRGB,
            ImageLayout::PresentSrcKhr,
            RenderTargetLoadAction::Clear,
            SampleCount::Sample1,
        )
        .build();
    let b = RenderPassOutput::builder()
        .add_color(
            Format::B8G8R8A8_SRGB,
            ImageLayout::PresentSrcKhr,
            RenderTargetLoadAction::Clear,
            SampleCount::Sample1,
        )
        .build();
    let c = RenderPassOutput::builder()
        .add_color(
            Format::R8G8B8A8_SRGB,
            ImageLayout::PresentSrcKhr,
            RenderTargetLoadAction::Clear,
            SampleCount::Sample1,
        )
        .build();
    assert!(a.eq_key(&b));
    assert!(!a.eq_key(&c));
    let cloned = a.clone_key();
    assert!(cloned.eq_key(&a));
}

#[test]
fn structural_cache_inserts_and_finds_by_value() {
    let mut cache: StructuralCache<RenderPassOutput> = StructuralCache::new();
    let a = RenderPassOutput::builder()
        .add_color(
            Format::B8G8R8A8_SRGB,
            ImageLayout::PresentSrcKhr,
            RenderTargetLoadAction::Clear,
            SampleCount::Sample1,
        )
        .build();
    assert_eq!(cache.lookup(&a), None);
    cache.insert(a.clone_key(), 42);
    assert_eq!(cache.len(), 1);
    let twin = a.clone_key();
    assert_eq!(cache.lookup(&twin), Some(42));
}

#[test]
fn image_desc_constructors_fill_the_plain_fields() {
    let tex = ImageCreateDesc::new_2d("albedo", Format::R8G8B8A8_SRGB, 256, 128);
    assert_eq!(tex.name, "albedo");
    assert_eq!(tex.extent, [256, 128, 1]);
    assert_eq!(tex.type_, ImageType::Texture2D);
    assert_eq!(tex.usage.bits, 0x6);
    assert_eq!(tex.tiling, ImageTiling::Optimal);

    let depth = ImageCreateDesc::new_depth("depth", Format::D32_SFLOAT, 64, 64);
    assert_eq!(depth.usage.bits, 0x20);
    assert_eq!(depth.initial_layout, ImageLayout::Undefined);

    let view = ImageViewCreateDesc::new_2d(None, ImageAspectFlags::depth());
    assert_eq!(view.view_type, TextureViewType::Texture2D);
    assert_eq!(view.aspect_mask, ImageAspectFlags::depth());
    assert_eq!(view.layer_count, 1);

    let default_view = ImageViewCreateDesc::default();
    assert_eq!(default_view.aspect_mask, ImageAspectFlags::color());
}

#[test]
fn flag_sets_combine_and_test_bits() {
    let usage = ImageUsageFlags::sampled().union(ImageUsageFlags::transfer_dst());
    assert_eq!(usage.bits, 0x6);
    assert!(usage.contains(ImageUsageFlags::sampled()));
    assert!(!usage.contains(ImageUsageFlags::depth_stencil_attachment()));
    assert_eq!(ImageAspectFlags::empty().bits, 0);
}

#[test]
fn barrier_mask_table_matches_the_three_supported_transitions() {
    let depth = barrier_masks(
        ImageLayout::Undefined,
        ImageLayout::DepthStencilAttachmentOptimal,
    )
    .unwrap();
    assert_eq!(depth.0, AccessFlags::empty());
    assert_eq!(depth.1.bits, 0x600);
    assert_eq!(depth.2, PipelineStageFlags::top_of_pipe());
    assert_eq!(depth.3, PipelineStageFlags::early_fragment_tests());

    let upload = barrier_masks(ImageLayout::Undefined, ImageLayout::TransferDstOptimal).unwrap();
    assert_eq!(upload.1, AccessFlags::transfer_write());

    let sample = barrier_masks(
        ImageLayout::TransferDstOptimal,
        ImageLayout::ShaderReadOnlyOptimal,
    )
    .unwrap();
    assert_eq!(sample.1, AccessFlags::shader_read());

    assert!(barrier_masks(ImageLayout::General, ImageLayout::General).is_none());
}

#[test]
fn error_messages_name_their_condition() {
    assert_eq!(RenderError::HandleNotFound.message(), "handle not found");
    assert_eq!(RenderError::PoolExhausted.message(), "resource pool exhausted");
    assert_eq!(
        RenderError::NoSupportedFormat.message(),
        "no supported format among candidates"
    );
}
