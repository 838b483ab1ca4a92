//! Materials: descriptor-set layout, pipeline layout, and graphics
//! pipeline.
//!
//! A material is immutable for its lifetime.  Its vertex input is a single
//! tightly packed interleaved stream: per-attribute offsets are the running
//! sum of the preceding formats' byte sizes, and the binding stride is the
//! total.  The fixed pipeline state is baked in: triangle-list topology,
//! back-face culling, straight alpha blending, dynamic viewport and
//! scissor.

use vstd::prelude::*;
use crate::device::Device;
use crate::error::MaterialError;
use crate::vk;

verus! {

/// A caller-supplied descriptor binding; its index in the set layout is
/// assigned by position.
#[derive(Clone, Copy, Debug)]
pub struct DescriptorSetLayoutBinding {
    pub descriptor_type: vk::DescriptorType,
    pub descriptor_count: u32,
    pub stage_flags: vk::ShaderStageFlags,
}

/// A compiled shader stage, created from the caller's compiled shader
/// bytes.
#[derive(Clone, Copy, Debug)]
pub struct ShaderModule {
    pub handle: vk::ShaderModule,
}

impl ShaderModule {
    pub fn from_code(device: &mut Device, code: &[u8]) -> (module: ShaderModule)
        requires
            old(device).next_id < u64::MAX,
        ensures
            module.handle == old(device).next_id,
            final(device).next_id == old(device).next_id + 1,
            final(device).handle == old(device).handle,
            final(device).queue_family_indices == old(device).queue_family_indices,
    {
        let _ = code;
        ShaderModule { handle: device.issue() }
    }
}

/// The fixed and derived state a graphics pipeline is created with.
#[derive(Debug)]
pub struct GraphicsPipelineDesc {
    pub fragment: vk::ShaderModule,
    pub vertex: vk::ShaderModule,
    pub topology: vk::PrimitiveTopology,
    pub primitive_restart: bool,
    pub polygon_mode: vk::PolygonMode,
    pub cull_mode: vk::CullModeFlags,
    pub front_face: vk::FrontFace,
    pub blend: vk::PipelineColorBlendAttachmentState,
    pub dynamic_states: Vec<vk::DynamicState>,
    pub vertex_binding: vk::VertexInputBindingDescription,
    pub vertex_attributes: Vec<vk::VertexInputAttributeDescription>,
    pub layout: vk::PipelineLayout,
    pub render_pass: vk::RenderPass,
    pub subpass: u32,
}

/// A material: descriptor-set layout, pipeline layout and pipeline, with
/// the descriptions they were created from.
#[derive(Debug)]
pub struct Material {
    pub set_layout: vk::DescriptorSetLayout,
    pub set_layout_bindings: Vec<vk::DescriptorSetLayoutBinding>,
    pub pipeline_layout: vk::PipelineLayout,
    pub pipeline: vk::Pipeline,
    pub desc: GraphicsPipelineDesc,
}

/// A vertex attribute format's size in bytes.  Only the two-float and
/// four-float formats are used by the engine's vertex streams.
pub open spec fn spec_format_length(format: vk::Format) -> usize {
    match format {
        vk::Format::R32G32SFLOAT => 8,
        vk::Format::R32G32B32A32SFLOAT => 16,
        _ => 0,
    }
}

/// Whether the engine knows the format's byte size.
pub open spec fn format_supported(format: vk::Format) -> bool {
    format == vk::Format::R32G32SFLOAT || format == vk::Format::R32G32B32A32SFLOAT
}

/// The byte size of one tightly packed vertex with the given attribute
/// formats.
pub open spec fn spec_stride(formats: Seq<vk::Format>) -> int
    decreases formats.len(),
{
    if formats.len() == 0 {
        0
    } else {
        spec_stride(formats.drop_last()) + spec_format_length(formats.last())
    }
}

/// The byte size of a vertex attribute format.
pub fn format_length(format: vk::Format) -> (length: usize)
    requires
        format_supported(format),
    ensures
        length == spec_format_length(format),
{
    match format {
        vk::Format::R32G32SFLOAT => 8,
        vk::Format::R32G32B32A32SFLOAT => 16,
        _ => 0,
    }
}

/// The prefix sums of the formats' sizes never exceed the total.
proof fn lemma_stride_monotonic(formats: Seq<vk::Format>, i: int)
    requires
        0 <= i <= formats.len(),
    ensures
        spec_stride(formats.take(i)) <= spec_stride(formats),
        spec_stride(formats.take(i)) >= 0,
    decreases formats.len() - i,
{
    lemma_stride_nonnegative(formats.take(i));
    if i == formats.len() {
        assert(formats.take(i) =~= formats);
    } else {
        lemma_stride_monotonic(formats, i + 1);
        assert(formats.take(i + 1).drop_last() =~= formats.take(i));
        assert(spec_stride(formats.take(i + 1))
            == spec_stride(formats.take(i)) + spec_format_length(formats[i]));
    }
}

proof fn lemma_stride_nonnegative(formats: Seq<vk::Format>)
    ensures
        spec_stride(formats) >= 0,
    decreases formats.len(),
{
    if formats.len() > 0 {
        lemma_stride_nonnegative(formats.drop_last());
    }
}

/// Build the set layout from the caller's bindings, assigning binding
/// indices sequentially.  In the model, layout creation itself always
/// succeeds.
pub fn create_descriptor_set_layout(
    device: &mut Device,
    bindings: &Vec<vk::DescriptorSetLayoutBinding>,
) -> (layout: Option<vk::DescriptorSetLayout>)
    requires
        old(device).next_id < u64::MAX,
    ensures
        layout == Some(old(device).next_id),
        final(device).next_id == old(device).next_id + 1,
        final(device).handle == old(device).handle,
        final(device).queue_family_indices == old(device).queue_family_indices,
{
    let _ = bindings;
    Some(device.issue())
}

/// Build the pipeline layout from set layouts and push-constant ranges.
pub fn create_pipeline_layout(
    device: &mut Device,
    set_layouts: &Vec<vk::DescriptorSetLayout>,
    push_constant_ranges: &Vec<vk::PushConstantRange>,
) -> (layout: Option<vk::PipelineLayout>)
    requires
        old(device).next_id < u64::MAX,
    ensures
        layout == Some(old(device).next_id),
        final(device).next_id == old(device).next_id + 1,
        final(device).handle == old(device).handle,
        final(device).queue_family_indices == old(device).queue_family_indices,
{
    let _ = set_layouts;
    let _ = push_constant_ranges;
    Some(device.issue())
}

/// Create the graphics pipeline with the engine's fixed state: triangle
/// lists, filled polygons, back-face culling with clockwise front faces,
/// straight alpha blending writing all four channels, and dynamic viewport
/// and scissor.
pub fn create_graphics_pipeline(
    device: &mut Device,
    layout: vk::PipelineLayout,
    render_pass: vk::RenderPass,
    vertex_binding: vk::VertexInputBindingDescription,
    vertex_attributes: Vec<vk::VertexInputAttributeDescription>,
    fragment: ShaderModule,
    vertex: ShaderModule,
) -> (result: (vk::Pipeline, GraphicsPipelineDesc))
    requires
        old(device).next_id < u64::MAX,
    ensures
        result.0 == old(device).next_id,
        final(device).next_id == old(device).next_id + 1,
        final(device).handle == old(device).handle,
        final(device).queue_family_indices == old(device).queue_family_indices,
        result.1.fragment == fragment.handle,
        result.1.vertex == vertex.handle,
        result.1.topology == vk::PrimitiveTopology::TriangleList,
        !result.1.primitive_restart,
        result.1.polygon_mode == vk::PolygonMode::Fill,
        result.1.cull_mode == vk::CullModeBits::Back.spec_bits(),
        result.1.front_face == vk::FrontFace::Clockwise,
        result.1.blend == (vk::PipelineColorBlendAttachmentState {
            blend_enable: 1,
            src_color_blend_factor: vk::BlendFactor::SourceAlpha,
            dst_color_blend_factor: vk::BlendFactor::OneMinusSourceAlpha,
            color_blend_op: vk::BlendOp::Add,
            src_alpha_blend_factor: vk::BlendFactor::One,
            dst_alpha_blend_factor: vk::BlendFactor::Zero,
            alpha_blend_op: vk::BlendOp::Add,
            color_write_mask: vk::ColorComponentFlagBits::R.spec_bits()
                | vk::ColorComponentFlagBits::G.spec_bits()
                | vk::ColorComponentFlagBits::B.spec_bits()
                | vk::ColorComponentFlagBits::A.spec_bits(),
        }),
        result.1.dynamic_states@ == seq![vk::DynamicState::Scissor, vk::DynamicState::Viewport],
        result.1.vertex_binding == vertex_binding,
        result.1.vertex_attributes@ == vertex_attributes@,
        result.1.layout == layout,
        result.1.render_pass == render_pass,
        result.1.subpass == 0,
{
    let attachment_state = vk::PipelineColorBlendAttachmentState {
        blend_enable: 1,
        src_color_blend_factor: vk::BlendFactor::SourceAlpha,
        dst_color_blend_factor: vk::BlendFactor::OneMinusSourceAlpha,
        color_blend_op: vk::BlendOp::Add,
        src_alpha_blend_factor: vk::BlendFactor::One,
        dst_alpha_blend_factor: vk::BlendFactor::Zero,
        alpha_blend_op: vk::BlendOp::Add,
        color_write_mask: vk::ColorComponentFlagBits::R.bits()
            | vk::ColorComponentFlagBits::G.bits()
            | vk::ColorComponentFlagBits::B.bits()
            | vk::ColorComponentFlagBits::A.bits(),
    };

    let mut dynamic_states: Vec<vk::DynamicState> = Vec::new();
    dynamic_states.push(vk::DynamicState::Scissor);
    dynamic_states.push(vk::DynamicState::Viewport);
    proof {
        assert(dynamic_states@
            =~= seq![vk::DynamicState::Scissor, vk::DynamicState::Viewport]);
    }

    let desc = GraphicsPipelineDesc {
        fragment: fragment.handle,
        vertex: vertex.handle,
        topology: vk::PrimitiveTopology::TriangleList,
        primitive_restart: false,
        polygon_mode: vk::PolygonMode::Fill,
        cull_mode: vk::CullModeBits::Back.bits(),
        front_face: vk::FrontFace::Clockwise,
        blend: attachment_state,
        dynamic_states,
        vertex_binding,
        vertex_attributes,
        layout,
        render_pass,
        subpass: 0,
    };
    let pipeline = device.issue();
    (pipeline, desc)
}

impl Material {
    /// Build a material: the set layout from the bindings (indices assigned
    /// sequentially), the pipeline layout from that set layout and the
    /// push-constant ranges, the tightly packed vertex input state from the
    /// attribute formats, and the pipeline itself.
    pub fn new(
        device: &mut Device,
        bindings: &Vec<DescriptorSetLayoutBinding>,
        push_constant_ranges: &Vec<vk::PushConstantRange>,
        fragment_code: &[u8],
        vertex_code: &[u8],
        input_formats: &Vec<vk::Format>,
        render_pass: vk::RenderPass,
    ) -> (result: Result<Material, MaterialError>)
        requires
            old(device).next_id < u64::MAX - 5,
            bindings@.len() <= u32::MAX,
            input_formats@.len() <= u32::MAX,
            forall|i: int| 0 <= i < input_formats@.len()
                ==> format_supported(#[trigger] input_formats@[i]),
            spec_stride(input_formats@) <= u32::MAX,
        ensures
            final(device).next_id == old(device).next_id + 5,
            final(device).handle == old(device).handle,
            final(device).queue_family_indices == old(device).queue_family_indices,
            match result {
                Ok(material) => {
                    &&& material.set_layout_bindings@.len() == bindings@.len()
                    &&& forall|i: int| 0 <= i < bindings@.len()
                        ==> (#[trigger] material.set_layout_bindings@[i])
                            == (vk::DescriptorSetLayoutBinding {
                                binding: i as u32,
                                descriptor_type: bindings@[i].descriptor_type,
                                descriptor_count: bindings@[i].descriptor_count,
                                stage_flags: bindings@[i].stage_flags,
                            })
                    &&& material.desc.vertex_binding == (vk::VertexInputBindingDescription {
                        binding: 0,
                        stride: spec_stride(input_formats@) as u32,
                        input_rate: vk::VertexInputRate::Vertex,
                    })
                    &&& material.desc.vertex_attributes@.len() == input_formats@.len()
                    &&& forall|i: int| 0 <= i < input_formats@.len()
                        ==> (#[trigger] material.desc.vertex_attributes@[i])
                            == (vk::VertexInputAttributeDescription {
                                location: i as u32,
                                binding: 0,
                                format: input_formats@[i],
                                offset: spec_stride(input_formats@.take(i)) as u32,
                            })
                    &&& material.desc.topology == vk::PrimitiveTopology::TriangleList
                    &&& material.desc.cull_mode == vk::CullModeBits::Back.spec_bits()
                    &&& material.desc.layout == material.pipeline_layout
                    &&& material.desc.render_pass == render_pass
                    &&& material.set_layout == old(device).next_id + 2
                    &&& material.pipeline_layout == old(device).next_id + 3
                    &&& material.pipeline == old(device).next_id + 4
                },
                Err(_) => false,
            },
    {
        let fragment_module = ShaderModule::from_code(device, fragment_code);
        let vertex_module = ShaderModule::from_code(device, vertex_code);

        let mut vk_bindings: Vec<vk::DescriptorSetLayoutBinding> = Vec::new();
        let mut index: usize = 0;
        while index < bindings.len()
            invariant
                index <= bindings@.len(),
                bindings@.len() <= u32::MAX,
                vk_bindings@.len() == index,
                forall|i: int| 0 <= i < index
                    ==> (#[trigger] vk_bindings@[i]) == (vk::DescriptorSetLayoutBinding {
                        binding: i as u32,
                        descriptor_type: bindings@[i].descriptor_type,
                        descriptor_count: bindings@[i].descriptor_count,
                        stage_flags: bindings@[i].stage_flags,
                    }),
            decreases bindings@.len() - index,
        {
            let binding = &bindings[index];
            vk_bindings.push(vk::DescriptorSetLayoutBinding {
                binding: index as u32,
                descriptor_type: binding.descriptor_type,
                descriptor_count: binding.descriptor_count,
                stage_flags: binding.stage_flags,
            });
            index = index + 1;
        }

        let set_layout = match create_descriptor_set_layout(device, &vk_bindings) {
            Some(layout) => layout,
            None => {
                return Err(MaterialError::DescriptorSet);
            },
        };
        let mut set_layouts: Vec<vk::DescriptorSetLayout> = Vec::new();
        set_layouts.push(set_layout);

        let pipeline_layout = match create_pipeline_layout(
            device,
            &set_layouts,
            push_constant_ranges,
        ) {
            Some(layout) => layout,
            None => {
                return Err(MaterialError::PipelineLayout);
            },
        };

        let mut vertex_attributes: Vec<vk::VertexInputAttributeDescription> = Vec::new();
        let mut offset: u32 = 0;
        let mut i: usize = 0;
        while i < input_formats.len()
            invariant
                i <= input_formats@.len(),
                input_formats@.len() <= u32::MAX,
                forall|j: int| 0 <= j < input_formats@.len()
                    ==> format_supported(#[trigger] input_formats@[j]),
                spec_stride(input_formats@) <= u32::MAX,
                vertex_attributes@.len() == i,
                offset == spec_stride(input_formats@.take(i as int)),
                forall|j: int| 0 <= j < i
                    ==> (#[trigger] vertex_attributes@[j])
                        == (vk::VertexInputAttributeDescription {
                            location: j as u32,
                            binding: 0,
                            format: input_formats@[j],
                            offset: spec_stride(input_formats@.take(j)) as u32,
                        }),
            decreases input_formats@.len() - i,
        {
            let format = input_formats[i];
            proof {
                lemma_stride_monotonic(input_formats@, i + 1);
                assert(input_formats@.take(i + 1).drop_last() =~= input_formats@.take(i as int));
                assert(input_formats@.take(i + 1).last() == input_formats@[i as int]);
            }
            vertex_attributes.push(vk::VertexInputAttributeDescription {
                location: i as u32,
                binding: 0,
                format,
                offset,
            });
            offset = offset + format_length(format) as u32;
            i = i + 1;
        }
        proof {
            assert(input_formats@.take(input_formats@.len() as int) =~= input_formats@);
        }

        let vertex_binding = vk::VertexInputBindingDescription {
            binding: 0,
            stride: offset,
            input_rate: vk::VertexInputRate::Vertex,
        };

        let (pipeline, desc) = create_graphics_pipeline(
            device,
            pipeline_layout,
            render_pass,
            vertex_binding,
            vertex_attributes,
            fragment_module,
            vertex_module,
        );

        Ok(Material {
            set_layout,
            set_layout_bindings: vk_bindings,
            pipeline_layout,
            pipeline,
            desc,
        })
    }

    /// The sprite material: one combined image sampler for the fragment
    /// stage, and a vertex of two two-float attributes (position and UV).
    pub fn sprite(
        device: &mut Device,
        render_pass: vk::RenderPass,
        fragment_code: &[u8],
        vertex_code: &[u8],
    ) -> (result: Result<Material, MaterialError>)
        requires
            old(device).next_id < u64::MAX - 5,
        ensures
            final(device).next_id == old(device).next_id + 5,
            final(device).handle == old(device).handle,
            final(device).queue_family_indices == old(device).queue_family_indices,
            match result {
                Ok(material) => {
                    &&& material.desc.vertex_binding.stride == 16
                    &&& material.desc.vertex_attributes@.len() == 2
                    &&& material.desc.vertex_attributes@[0].offset == 0
                    &&& material.desc.vertex_attributes@[1].offset == 8
                    &&& material.set_layout_bindings@.len() == 1
                    &&& material.set_layout_bindings@[0].binding == 0
                    &&& material.set_layout_bindings@[0].descriptor_type
                        == vk::DescriptorType::CombinedImageSampler
                    &&& material.desc.topology == vk::PrimitiveTopology::TriangleList
                    &&& material.desc.render_pass == render_pass
                },
                Err(_) => false,
            },
    {
        let mut bindings: Vec<DescriptorSetLayoutBinding> = Vec::new();
        bindings.push(DescriptorSetLayoutBinding {
            descriptor_type: vk::DescriptorType::CombinedImageSampler,
            descriptor_count: 1,
            stage_flags: vk::ShaderStageFlagBits::Fragment.bits(),
        });
        let push_constant_ranges: Vec<vk::PushConstantRange> = Vec::new();

        let mut formats: Vec<vk::Format> = Vec::new();
        formats.push(vk::Format::R32G32SFLOAT);
        formats.push(vk::Format::R32G32SFLOAT);
        proof {
            lemma_two_format_stride(formats@);
        }

        Material::new(
            device,
            &bindings,
            &push_constant_ranges,
            fragment_code,
            vertex_code,
            &formats,
            render_pass,
        )
    }

    /// The text material: one combined image sampler for the fragment
    /// stage, and a vertex of two two-float attributes and one four-float
    /// attribute.
    pub fn text(
        device: &mut Device,
        render_pass: vk::RenderPass,
        fragment_code: &[u8],
        vertex_code: &[u8],
    ) -> (result: Result<Material, MaterialError>)
        requires
            old(device).next_id < u64::MAX - 5,
        ensures
            final(device).next_id == old(device).next_id + 5,
            final(device).handle == old(device).handle,
            final(device).queue_family_indices == old(device).queue_family_indices,
            match result {
                Ok(material) => {
                    &&& material.desc.vertex_binding.stride == 32
                    &&& material.desc.vertex_attributes@.len() == 3
                    &&& material.desc.vertex_attributes@[0].offset == 0
                    &&& material.desc.vertex_attributes@[1].offset == 8
                    &&& material.desc.vertex_attributes@[2].offset == 16
                    &&& material.set_layout_bindings@.len() == 1
                    &&& material.set_layout_bindings@[0].binding == 0
                    &&& material.set_layout_bindings@[0].descriptor_type
                        == vk::DescriptorType::CombinedImageSampler
                    &&& material.desc.topology == vk::PrimitiveTopology::TriangleList
                    &&& material.desc.render_pass == render_pass
                },
                Err(_) => false,
            },
    {
        let mut bindings: Vec<DescriptorSetLayoutBinding> = Vec::new();
        bindings.push(DescriptorSetLayoutBinding {
            descriptor_type: vk::DescriptorType::CombinedImageSampler,
            descriptor_count: 1,
            stage_flags: vk::ShaderStageFlagBits::Fragment.bits(),
        });
        let push_constant_ranges: Vec<vk::PushConstantRange> = Vec::new();

        let mut formats: Vec<vk::Format> = Vec::new();
        formats.push(vk::Format::R32G32SFLOAT);
        formats.push(vk::Format::R32G32SFLOAT);
        formats.push(vk::Format::R32G32B32A32SFLOAT);
        proof {
            lemma_three_format_stride(formats@);
        }

        Material::new(
            device,
            &bindings,
            &push_constant_ranges,
            fragment_code,
            vertex_code,
            &formats,
            render_pass,
        )
    }
}

/// The stride of the sprite vertex: two two-float attributes.
proof fn lemma_two_format_stride(formats: Seq<vk::Format>)
    requires
        formats =~= seq![vk::Format::R32G32SFLOAT, vk::Format::R32G32SFLOAT],
    ensures
        spec_stride(formats) == 16,
        spec_stride(formats.take(0)) == 0,
        spec_stride(formats.take(1)) == 8,
{
    assert(formats.take(0) =~= Seq::<vk::Format>::empty());
    assert(formats.take(1).drop_last() =~= formats.take(0));
    assert(formats.drop_last() =~= formats.take(1));
    assert(spec_stride(formats.take(0)) == 0);
    assert(formats.take(1).last() == vk::Format::R32G32SFLOAT);
    assert(spec_stride(formats.take(1)) == 8);
    assert(formats.last() == vk::Format::R32G32SFLOAT);
    assert(spec_stride(formats) == 16);
}

/// The stride of the text vertex: two two-float attributes and one
/// four-float attribute.
proof fn lemma_three_format_stride(formats: Seq<vk::Format>)
    requires
        formats =~= seq![
            vk::Format::R32G32SFLOAT,
            vk::Format::R32G32SFLOAT,
            vk::Format::R32G32B32A32SFLOAT,
        ],
    ensures
        spec_stride(formats) == 32,
        spec_stride(formats.take(0)) == 0,
        spec_stride(formats.take(1)) == 8,
        spec_stride(formats.take(2)) == 16,
{
    assert(formats.take(0) =~= Seq::<vk::Format>::empty());
    assert(formats.take(1).drop_last() =~= formats.take(0));
    assert(formats.take(2).drop_last() =~= formats.take(1));
    assert(formats.drop_last() =~= formats.take(2));
    assert(spec_stride(formats.take(0)) == 0);
    assert(formats.take(1).last() == vk::Format::R32G32SFLOAT);
    assert(spec_stride(formats.take(1)) == 8);
    assert(formats.take(2).last() == vk::Format::R32G32SFLOAT);
    assert(spec_stride(formats.take(2)) == 16);
    assert(formats.last() == vk::Format::R32G32B32A32SFLOAT);
    assert(spec_stride(formats) == 32);
}

} // verus!
