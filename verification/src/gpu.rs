//! The boundary to `wgpu`.
//!
//! Everything here is taken on trust: the types are opaque to the verifier and
//! the functions are thin calls whose bodies are not checked.  A function
//! without an `ensures` clause promises nothing about what the device did.
//!
//! Every call that the device checks at once runs inside two error scopes,
//! one for what fails validation and one for a lack of memory, so a refused
//! request comes back as an error instead of reaching the device's
//! uncaptured-error handler.  Calls on a pass are checked when the pass
//! ends, and that happens inside the scopes too.  A scope hears what is
//! reported to the device it was opened on: where a call reports to the
//! device of one of its arguments (a write on a queue, a view of a texture),
//! the function asks for that device.
//!
//! What the device was asked for is kept in names: the value that a
//! constructor builds ([`uniform_entry`], [`entry_value`], ...), what an
//! object was made of ([`layout_entries`], [`group_request`],
//! [`render_request`], ...), and what a pass keeps of the calls made on it
//! ([`compute_log`], [`render_log`]).  None of them says what the device did
//! with it.

use vstd::multiset::Multiset;
use vstd::prelude::*;

use std::ops::Range;
use std::rc::Rc;

use crate::binding::{SamplerKind, StorageAccess};
use crate::pipelines::{Blending, Culling, Rasterization, Topology, Winding};
use crate::context::{AddressMode, FilterMode, PixelFormat};
use crate::stream::ClearColor;
use crate::vertex::{Attribute, AttributeFormat, StepMode};

verus! {

// The `wgpu` types that the library holds or hands on.  The verifier knows
// them by name only: nothing is assumed about what a value of them contains.

#[verifier::external_type_specification]
#[verifier::external_body]
pub struct ExDevice(wgpu::Device);

#[verifier::external_type_specification]
#[verifier::external_body]
pub struct ExBuffer(wgpu::Buffer);

#[verifier::external_type_specification]
#[verifier::external_body]
pub struct ExTextureView(wgpu::TextureView);

#[verifier::external_type_specification]
#[verifier::external_body]
pub struct ExSampler(wgpu::Sampler);

#[verifier::external_type_specification]
#[verifier::external_body]
pub struct ExTextureFormat(wgpu::TextureFormat);

#[verifier::external_type_specification]
#[verifier::external_body]
pub struct ExBindGroup(wgpu::BindGroup);

#[verifier::external_type_specification]
#[verifier::external_body]
pub struct ExBindGroupLayout(wgpu::BindGroupLayout);

#[verifier::external_type_specification]
#[verifier::external_body]
pub struct ExBindGroupLayoutEntry(wgpu::BindGroupLayoutEntry);

#[verifier::external_type_specification]
#[verifier::external_body]
pub struct ExBindGroupEntry<'a>(wgpu::BindGroupEntry<'a>);

#[verifier::external_type_specification]
#[verifier::external_body]
pub struct ExError(wgpu::Error);

#[verifier::external_type_specification]
#[verifier::external_body]
pub struct ExQueue(wgpu::Queue);

#[verifier::external_type_specification]
#[verifier::external_body]
pub struct ExTexture(wgpu::Texture);

#[verifier::external_type_specification]
#[verifier::external_body]
pub struct ExShaderModule(wgpu::ShaderModule);

#[verifier::external_type_specification]
#[verifier::external_body]
pub struct ExAdapter(wgpu::Adapter);

#[verifier::external_type_specification]
#[verifier::external_body]
pub struct ExLimits(wgpu::Limits);

#[verifier::external_type_specification]
#[verifier::external_body]
pub struct ExRequestDeviceError(wgpu::RequestDeviceError);

#[verifier::external_type_specification]
#[verifier::external_body]
pub struct ExDepthStencilState(wgpu::DepthStencilState);

#[verifier::external_type_specification]
#[verifier::external_body]
pub struct ExPipelineLayout(wgpu::PipelineLayout);

#[verifier::external_type_specification]
#[verifier::external_body]
pub struct ExRenderPipeline(wgpu::RenderPipeline);

#[verifier::external_type_specification]
#[verifier::external_body]
pub struct ExComputePipeline(wgpu::ComputePipeline);

#[verifier::external_type_specification]
#[verifier::external_body]
pub struct ExVertexAttribute(wgpu::VertexAttribute);

#[verifier::external_type_specification]
#[verifier::external_body]
pub struct ExVertexBufferLayout<'a>(wgpu::VertexBufferLayout<'a>);

#[verifier::external_type_specification]
#[verifier::external_body]
pub struct ExPrimitiveTopology(wgpu::PrimitiveTopology);

#[verifier::external_type_specification]
#[verifier::external_body]
pub struct ExFrontFace(wgpu::FrontFace);

#[verifier::external_type_specification]
#[verifier::external_body]
pub struct ExFace(wgpu::Face);

#[verifier::external_type_specification]
#[verifier::external_body]
pub struct ExPolygonMode(wgpu::PolygonMode);

#[verifier::external_type_specification]
#[verifier::external_body]
pub struct ExPrimitiveState(wgpu::PrimitiveState);

#[verifier::external_type_specification]
#[verifier::external_body]
pub struct ExColorTargetState(wgpu::ColorTargetState);

#[verifier::external_type_specification]
#[verifier::external_body]
pub struct ExMultisampleState(wgpu::MultisampleState);

#[verifier::external_type_specification]
#[verifier::external_body]
pub struct ExColor(wgpu::Color);

#[verifier::external_type_specification]
#[verifier::external_body]
pub struct ExCommandEncoder(wgpu::CommandEncoder);

#[verifier::external_type_specification]
#[verifier::external_body]
pub struct ExCommandBuffer(wgpu::CommandBuffer);

#[verifier::external_type_specification]
#[verifier::external_body]
pub struct ExRenderPass<'a>(wgpu::RenderPass<'a>);

#[verifier::external_type_specification]
#[verifier::external_body]
pub struct ExComputePass<'a>(wgpu::ComputePass<'a>);

#[verifier::external_type_specification]
#[verifier::external_body]
pub struct ExPresentMode(wgpu::PresentMode);

#[verifier::external_type_specification]
#[verifier::external_body]
pub struct ExCompositeAlphaMode(wgpu::CompositeAlphaMode);

#[verifier::external_type_specification]
#[verifier::external_body]
pub struct ExSamplerDescriptor<'a>(wgpu::SamplerDescriptor<'a>);

/// One call made on a compute pass.
pub enum ComputeCall {
    /// `set_pipeline` with this pipeline.
    Pipeline(wgpu::ComputePipeline),
    /// `set_bind_group` with this index and bind group, no dynamic offsets.
    BindGroup(u32, wgpu::BindGroup),
    /// `dispatch_workgroups` with these counts.
    Dispatch(u32, u32, u32),
}

/// One call made on a render pass, the call that began it included.
pub enum RenderCall {
    /// `begin_render_pass` with this view as the only colour attachment,
    /// cleared to this colour; the flag says whether what is drawn is stored.
    Begin(wgpu::TextureView, wgpu::Color, bool),
    /// `set_pipeline` with this pipeline.
    Pipeline(wgpu::RenderPipeline),
    /// `set_bind_group` with this index and bind group, no dynamic offsets.
    BindGroup(u32, wgpu::BindGroup),
    /// `set_vertex_buffer` with this slot and the whole of this buffer.
    VertexBuffer(u32, wgpu::Buffer),
    /// `draw` with the vertices from the first to the second number and the
    /// instances from the third to the fourth.
    Draw(u32, u32, u32, u32),
}

/// The number of set indices for which a pass remembers the bind group it
/// was given last: `wgpu`'s limit on the bind groups of a pipeline.
pub const TRACKED_GROUPS: u32 = 8;

/// What a compute pass keeps of the calls made on it.
pub struct ComputeLog {
    /// The commands it holds, oldest first.
    pub commands: Seq<ComputeCall>,
    /// The pipeline it was given last.
    pub pipeline: Option<wgpu::ComputePipeline>,
    /// The bind group it was given last, by set index, for the set indices
    /// below [`TRACKED_GROUPS`].
    pub groups: Map<u32, wgpu::BindGroup>,
}

impl ComputeLog {
    /// What a pass keeps when it begins: nothing.
    pub open spec fn fresh() -> ComputeLog {
        ComputeLog { commands: Seq::empty(), pipeline: None, groups: Map::empty() }
    }

    /// What the pass keeps after one more call.  A pipeline that is current
    /// already, and a bind group that is current at its index already, leave
    /// the commands as they are; every other call is added at the end.
    pub open spec fn told(self, call: ComputeCall) -> ComputeLog {
        match call {
            ComputeCall::Pipeline(pipeline) => if self.pipeline == Some(pipeline) {
                self
            } else {
                ComputeLog { commands: self.commands.push(call), pipeline: Some(pipeline), ..self }
            },
            ComputeCall::BindGroup(index, group) => if index >= TRACKED_GROUPS {
                ComputeLog { commands: self.commands.push(call), ..self }
            } else if self.groups.contains_key(index) && self.groups[index] == group {
                self
            } else {
                ComputeLog { commands: self.commands.push(call), groups: self.groups.insert(index, group), ..self }
            },
            ComputeCall::Dispatch(_, _, _) => ComputeLog { commands: self.commands.push(call), ..self },
        }
    }

    /// What the pass keeps after these calls, made in order.
    pub open spec fn told_all(self, calls: Seq<ComputeCall>) -> ComputeLog
        decreases calls.len(),
    {
        if calls.len() == 0 {
            self
        } else {
            self.told_all(calls.drop_last()).told(calls.last())
        }
    }
}

/// What a compute pass keeps of the calls made on it: its commands and what
/// is current in it.  The pass leaves out a call that repeats what is
/// current: see [`ComputeLog::told`].
pub uninterp spec fn compute_log(pass: wgpu::ComputePass<'_>) -> ComputeLog;

/// What a render pass keeps of the calls made on it.
pub struct RenderLog {
    /// How it began and the commands it holds, oldest first.
    pub commands: Seq<RenderCall>,
    /// The pipeline it was given last.
    pub pipeline: Option<wgpu::RenderPipeline>,
    /// The bind group it was given last, by set index, for the set indices
    /// below [`TRACKED_GROUPS`].
    pub groups: Map<u32, wgpu::BindGroup>,
}

impl RenderLog {
    /// What is kept before a pass has begun: nothing.
    pub open spec fn fresh() -> RenderLog {
        RenderLog { commands: Seq::empty(), pipeline: None, groups: Map::empty() }
    }

    /// What the pass keeps after one more call.  A pipeline that is current
    /// already, and a bind group that is current at its index already, leave
    /// the commands as they are; every other call is added at the end.
    pub open spec fn told(self, call: RenderCall) -> RenderLog {
        match call {
            RenderCall::Pipeline(pipeline) => if self.pipeline == Some(pipeline) {
                self
            } else {
                RenderLog { commands: self.commands.push(call), pipeline: Some(pipeline), ..self }
            },
            RenderCall::BindGroup(index, group) => if index >= TRACKED_GROUPS {
                RenderLog { commands: self.commands.push(call), ..self }
            } else if self.groups.contains_key(index) && self.groups[index] == group {
                self
            } else {
                RenderLog { commands: self.commands.push(call), groups: self.groups.insert(index, group), ..self }
            },
            _ => RenderLog { commands: self.commands.push(call), ..self },
        }
    }

    /// What the pass keeps after these calls, made in order.
    pub open spec fn told_all(self, calls: Seq<RenderCall>) -> RenderLog
        decreases calls.len(),
    {
        if calls.len() == 0 {
            self
        } else {
            self.told_all(calls.drop_last()).told(calls.last())
        }
    }
}

/// What a render pass keeps of the calls made on it: how it began, its
/// commands and what is current in it.  The pass leaves out a call that
/// repeats what is current: see [`RenderLog::told`].
pub uninterp spec fn render_log(pass: wgpu::RenderPass<'_>) -> RenderLog;

/// The `wgpu::Color` constant that a clear colour stands for.
pub uninterp spec fn color_value(color: ClearColor) -> wgpu::Color;

/// The `wgpu::TextureFormat` that a pixel format stands for.
pub uninterp spec fn format_value(format: PixelFormat) -> wgpu::TextureFormat;

/// Whether a texture format stores colours in the sRGB encoding:
/// `wgpu::TextureFormat::is_srgb`.
pub uninterp spec fn srgb(format: wgpu::TextureFormat) -> bool;

/// The layout entry for a uniform buffer at `binding`, visible to the
/// stages of `stage_mask`, without dynamic offset or minimum size.
pub uninterp spec fn uniform_entry(binding: u32, stage_mask: u32) -> wgpu::BindGroupLayoutEntry;

/// The layout entry for a storage buffer at `binding`.
pub uninterp spec fn storage_entry(binding: u32, stage_mask: u32, read_only: bool) -> wgpu::BindGroupLayoutEntry;

/// The layout entry for a two-dimensional float texture at `binding`.
pub uninterp spec fn texture_entry(
    binding: u32,
    stage_mask: u32,
    filterable: bool,
    multisampled: bool,
) -> wgpu::BindGroupLayoutEntry;

/// The layout entry for a sampler of this kind at `binding`.
pub uninterp spec fn sampler_entry(binding: u32, stage_mask: u32, kind: SamplerKind) -> wgpu::BindGroupLayoutEntry;

/// The layout entry for a two-dimensional storage texture at `binding`.
pub uninterp spec fn storage_texture_entry(
    binding: u32,
    stage_mask: u32,
    format: wgpu::TextureFormat,
    access: StorageAccess,
) -> wgpu::BindGroupLayoutEntry;

/// What a bind group entry binds, and where.
pub enum GroupEntry {
    /// The whole of this buffer at this binding index.
    Buffer(u32, wgpu::Buffer),
    /// This texture view at this binding index.
    View(u32, wgpu::TextureView),
    /// This sampler at this binding index.
    Sampler(u32, wgpu::Sampler),
}

/// What a bind group entry made by this crate binds, and where.
pub uninterp spec fn entry_value(entry: wgpu::BindGroupEntry<'_>) -> GroupEntry;

/// What each of a list of bind group entries binds.
pub open spec fn entry_values(entries: Seq<wgpu::BindGroupEntry<'_>>) -> Seq<GroupEntry> {
    Seq::new(entries.len(), |i: int| entry_value(entries[i]))
}

/// The entries that a bind group layout holds.  The device keeps them by
/// binding index, not in the order in which they were given, and hands out
/// the same layout for the same entries.
pub uninterp spec fn layout_entries(layout: wgpu::BindGroupLayout) -> Multiset<wgpu::BindGroupLayoutEntry>;

/// The layout and the entries that a bind group was made of.
pub uninterp spec fn group_request(group: wgpu::BindGroup) -> (wgpu::BindGroupLayout, Seq<GroupEntry>);

/// The bind group layouts that a pipeline layout was made of; set index is
/// position.
pub uninterp spec fn pipeline_sets(layout: wgpu::PipelineLayout) -> Seq<wgpu::BindGroupLayout>;

/// The label and the WGSL source text that a shader module was compiled
/// from.
pub uninterp spec fn shader_source(module: wgpu::ShaderModule) -> (Seq<char>, Seq<char>);

/// The vertex attribute with this location, offset and format.
pub uninterp spec fn attribute_value(location: u32, offset: u64, format: AttributeFormat) -> wgpu::VertexAttribute;

/// The vertex buffer layout with this stride, step mode and attributes.
pub uninterp spec fn buffer_layout_value(
    stride: u64,
    step: StepMode,
    attributes: Seq<wgpu::VertexAttribute>,
) -> wgpu::VertexBufferLayout<'static>;

/// The `wgpu::PrimitiveTopology` that a topology stands for.
pub uninterp spec fn topology_value(topology: Topology) -> wgpu::PrimitiveTopology;

/// The `wgpu::FrontFace` that a winding order stands for.
pub uninterp spec fn front_face_value(winding: Winding) -> wgpu::FrontFace;

/// The `wgpu` cull mode that a culling stands for.
pub uninterp spec fn cull_value(culling: Culling) -> Option<wgpu::Face>;

/// The `wgpu::PolygonMode` that a rasterisation stands for.
pub uninterp spec fn polygon_value(polygons: Rasterization) -> wgpu::PolygonMode;

/// The primitive state with these fields and no strip index format.
pub uninterp spec fn primitive_value(
    topology: wgpu::PrimitiveTopology,
    front_face: wgpu::FrontFace,
    cull_mode: Option<wgpu::Face>,
    polygon_mode: wgpu::PolygonMode,
    unclipped_depth: bool,
    conservative: bool,
) -> wgpu::PrimitiveState;

/// The colour target state for this format, blending and write mask.
pub uninterp spec fn target_value(format: wgpu::TextureFormat, blending: Blending, write_mask: u32) -> wgpu::ColorTargetState;

/// The multisample state with these fields.
pub uninterp spec fn multisample_value(count: u32, mask: u64, alpha_to_coverage_enabled: bool) -> wgpu::MultisampleState;

/// What a render pipeline is made of.  It has one colour target and no
/// multiview.
pub struct RenderRequest {
    pub label: Seq<char>,
    pub layout: wgpu::PipelineLayout,
    /// The module of the vertex stage.
    pub vertex: wgpu::ShaderModule,
    pub vertex_entry: Seq<char>,
    /// The layout of each vertex buffer; slot is position.
    pub buffers: Seq<wgpu::VertexBufferLayout<'static>>,
    /// The module of the fragment stage.
    pub fragment: wgpu::ShaderModule,
    pub fragment_entry: Seq<char>,
    pub primitive: wgpu::PrimitiveState,
    pub multisample: wgpu::MultisampleState,
    pub target: wgpu::ColorTargetState,
    /// The depth and stencil state, if the pipeline tests either.
    pub depth_stencil: Option<wgpu::DepthStencilState>,
}

/// What a compute pipeline is made of.
pub struct ComputeRequest {
    pub label: Seq<char>,
    pub layout: wgpu::PipelineLayout,
    pub module: wgpu::ShaderModule,
    pub entry: Seq<char>,
}

/// What a render pipeline was made of.
pub uninterp spec fn render_request(pipeline: wgpu::RenderPipeline) -> RenderRequest;

/// What a compute pipeline was made of.
pub uninterp spec fn compute_request(pipeline: wgpu::ComputePipeline) -> ComputeRequest;

/// The sampler descriptor that uses `address` on all three axes and `filter`
/// for magnification, minification and between mip levels, and is `wgpu`'s
/// default otherwise.
pub uninterp spec fn sampling(address: AddressMode, filter: FilterMode) -> wgpu::SamplerDescriptor<'static>;

/// The descriptor that a sampler was made of.
pub uninterp spec fn sampler_request(sampler: wgpu::Sampler) -> wgpu::SamplerDescriptor<'static>;

/// The texture that a view made by this crate looks at: the view covers the
/// whole of it.
pub uninterp spec fn view_texture(view: wgpu::TextureView) -> wgpu::Texture;

/// What a texture is made of.  It is two-dimensional with one layer.
pub struct TextureRequest {
    /// The device that made it.
    pub device: wgpu::Device,
    pub label: Seq<char>,
    /// Width and height in pixels.
    pub size: (u32, u32),
    pub format: wgpu::TextureFormat,
    /// The usage bits.
    pub usage: u32,
    /// The number of mip levels.
    pub mips: u32,
    /// The number of samples per pixel.
    pub samples: u32,
}

/// What a texture was made of.
pub uninterp spec fn texture_request(texture: wgpu::Texture) -> TextureRequest;

/// The device that a queue belongs to.  The two report what they object to
/// in the same place.
pub uninterp spec fn queue_device(queue: wgpu::Queue) -> wgpu::Device;

/// What a buffer was made of: its label, size in bytes and usage bits.
pub uninterp spec fn buffer_request(buffer: wgpu::Buffer) -> (Seq<char>, u64, u32);

/// `wgpu::Error`'s `Display` text.  Nothing is claimed about the wording.
#[verifier::external_body]
pub(crate) fn error_text(cause: &wgpu::Error) -> (text: String)
{
    cause.to_string()
}

/// A `wgpu::BindGroupLayoutEntry` for a uniform buffer at `binding`, visible
/// to the stages in `stage_mask` (bits outside `wgpu::ShaderStages` are
/// dropped by `from_bits_truncate`).
#[verifier::external_body]
pub(crate) fn uniform_layout_entry(binding: u32, stage_mask: u32) -> (entry: wgpu::BindGroupLayoutEntry)
    ensures
        entry == uniform_entry(binding, stage_mask),
{
    wgpu::BindGroupLayoutEntry {
        binding,
        visibility: wgpu::ShaderStages::from_bits_truncate(stage_mask),
        ty: wgpu::BindingType::Buffer {
            ty: wgpu::BufferBindingType::Uniform,
            has_dynamic_offset: false,
            min_binding_size: None,
        },
        count: None,
    }
}

/// A `wgpu::BindGroupLayoutEntry` for a storage buffer at `binding`.
#[verifier::external_body]
pub(crate) fn storage_layout_entry(binding: u32, stage_mask: u32, read_only: bool) -> (entry: wgpu::BindGroupLayoutEntry)
    ensures
        entry == storage_entry(binding, stage_mask, read_only),
{
    wgpu::BindGroupLayoutEntry {
        binding,
        visibility: wgpu::ShaderStages::from_bits_truncate(stage_mask),
        ty: wgpu::BindingType::Buffer {
            ty: wgpu::BufferBindingType::Storage { read_only },
            has_dynamic_offset: false,
            min_binding_size: None,
        },
        count: None,
    }
}

/// A `wgpu::BindGroupLayoutEntry` for a two-dimensional float texture at
/// `binding`.
#[verifier::external_body]
pub(crate) fn texture_layout_entry(binding: u32, stage_mask: u32, filterable: bool, multisampled: bool) -> (entry:
    wgpu::BindGroupLayoutEntry)
    ensures
        entry == texture_entry(binding, stage_mask, filterable, multisampled),
{
    wgpu::BindGroupLayoutEntry {
        binding,
        visibility: wgpu::ShaderStages::from_bits_truncate(stage_mask),
        ty: wgpu::BindingType::Texture {
            sample_type: wgpu::TextureSampleType::Float { filterable },
            view_dimension: wgpu::TextureViewDimension::D2,
            multisampled,
        },
        count: None,
    }
}

/// A `wgpu::BindGroupLayoutEntry` for a sampler at `binding`; `kind` is
/// translated variant for variant.
#[verifier::external_body]
pub(crate) fn sampler_layout_entry(binding: u32, stage_mask: u32, kind: SamplerKind) -> (entry:
    wgpu::BindGroupLayoutEntry)
    ensures
        entry == sampler_entry(binding, stage_mask, kind),
{
    let kind = match kind {
        SamplerKind::Filtering => wgpu::SamplerBindingType::Filtering,
        SamplerKind::NonFiltering => wgpu::SamplerBindingType::NonFiltering,
        SamplerKind::Comparison => wgpu::SamplerBindingType::Comparison,
    };
    wgpu::BindGroupLayoutEntry {
        binding,
        visibility: wgpu::ShaderStages::from_bits_truncate(stage_mask),
        ty: wgpu::BindingType::Sampler(kind),
        count: None,
    }
}

/// A `wgpu::BindGroupLayoutEntry` for a two-dimensional storage texture at
/// `binding`; `access` is translated variant for variant.
#[verifier::external_body]
pub(crate) fn storage_texture_layout_entry(
    binding: u32,
    stage_mask: u32,
    format: wgpu::TextureFormat,
    access: StorageAccess,
) -> (entry: wgpu::BindGroupLayoutEntry)
    ensures
        entry == storage_texture_entry(binding, stage_mask, format, access),
{
    let access = match access {
        StorageAccess::WriteOnly => wgpu::StorageTextureAccess::WriteOnly,
        StorageAccess::ReadOnly => wgpu::StorageTextureAccess::ReadOnly,
        StorageAccess::ReadWrite => wgpu::StorageTextureAccess::ReadWrite,
    };
    wgpu::BindGroupLayoutEntry {
        binding,
        visibility: wgpu::ShaderStages::from_bits_truncate(stage_mask),
        ty: wgpu::BindingType::StorageTexture { access, format, view_dimension: wgpu::TextureViewDimension::D2 },
        count: None,
    }
}

/// A `wgpu::BindGroupEntry` that binds the whole of `buffer` at `binding`
/// (`wgpu::Buffer::as_entire_binding`).
#[verifier::external_body]
pub(crate) fn buffer_group_entry<'a>(binding: u32, buffer: &'a wgpu::Buffer) -> (entry: wgpu::BindGroupEntry<'a>)
    ensures
        entry_value(entry) == GroupEntry::Buffer(binding, *buffer),
{
    wgpu::BindGroupEntry { binding, resource: buffer.as_entire_binding() }
}

/// A `wgpu::BindGroupEntry` that binds a texture view at `binding`.
#[verifier::external_body]
pub(crate) fn view_group_entry<'a>(binding: u32, view: &'a wgpu::TextureView) -> (entry: wgpu::BindGroupEntry<'a>)
    ensures
        entry_value(entry) == GroupEntry::View(binding, *view),
{
    wgpu::BindGroupEntry { binding, resource: wgpu::BindingResource::TextureView(view) }
}

/// A `wgpu::BindGroupEntry` that binds a sampler at `binding`.
#[verifier::external_body]
pub(crate) fn sampler_group_entry<'a>(binding: u32, sampler: &'a wgpu::Sampler) -> (entry: wgpu::BindGroupEntry<'a>)
    ensures
        entry_value(entry) == GroupEntry::Sampler(binding, *sampler),
{
    wgpu::BindGroupEntry { binding, resource: wgpu::BindingResource::Sampler(sampler) }
}

/// `wgpu::Device::create_bind_group_layout` inside error scopes:
/// `Err` carries what the device reported, `Ok` a layout that holds the
/// entries given, in no order.
#[verifier::external_body]
pub(crate) fn create_bind_group_layout(
    device: &wgpu::Device,
    entries: &Vec<wgpu::BindGroupLayoutEntry>,
) -> (made: Result<wgpu::BindGroupLayout, wgpu::Error>)
    ensures
        made matches Ok(layout) ==> layout_entries(layout) == entries@.to_multiset(),
{
    device.push_error_scope(wgpu::ErrorFilter::OutOfMemory);
    device.push_error_scope(wgpu::ErrorFilter::Validation);
    let layout = device.create_bind_group_layout(&wgpu::BindGroupLayoutDescriptor { entries, label: None });
    match pollster::block_on(device.pop_error_scope()).or(pollster::block_on(device.pop_error_scope())) {
        Some(cause) => Err(cause),
        None => Ok(layout),
    }
}

/// `wgpu::Device::create_bind_group` inside error scopes.
#[verifier::external_body]
pub(crate) fn create_bind_group<'a>(
    device: &wgpu::Device,
    layout: &wgpu::BindGroupLayout,
    entries: &Vec<wgpu::BindGroupEntry<'a>>,
) -> (made: Result<wgpu::BindGroup, wgpu::Error>)
    ensures
        made matches Ok(group) ==> group_request(group) == (*layout, entry_values(entries@)),
{
    device.push_error_scope(wgpu::ErrorFilter::OutOfMemory);
    device.push_error_scope(wgpu::ErrorFilter::Validation);
    let group = device.create_bind_group(&wgpu::BindGroupDescriptor { layout, entries, label: None });
    match pollster::block_on(device.pop_error_scope()).or(pollster::block_on(device.pop_error_scope())) {
        Some(cause) => Err(cause),
        None => Ok(group),
    }
}

/// `bytemuck::cast_slice` from words to bytes: the same memory seen as bytes,
/// four for each word, in the byte order of the machine.
#[verifier::external_body]
pub(crate) fn word_bytes<'a>(words: &'a [u32]) -> (bytes: &'a [u8])
    ensures
        bytes@.len() == 4 * words@.len(),
{
    bytemuck::cast_slice(words)
}

/// `wgpu::Device::create_buffer` inside error scopes, for a
/// buffer that is not mapped when it is created.  Bits of `usage_bits`
/// outside `wgpu::BufferUsages` are dropped.
#[verifier::external_body]
pub(crate) fn create_buffer(device: &wgpu::Device, label: &str, size: u64, usage_bits: u32) -> (made: Result<
    wgpu::Buffer,
    wgpu::Error,
>)
    ensures
        made matches Ok(buffer) ==> buffer_request(buffer) == (label@, size, usage_bits),
{
    let usage = wgpu::BufferUsages::from_bits_truncate(usage_bits);
    device.push_error_scope(wgpu::ErrorFilter::OutOfMemory);
    device.push_error_scope(wgpu::ErrorFilter::Validation);
    let buffer = device.create_buffer(&wgpu::BufferDescriptor {
        label: Some(label),
        size,
        usage,
        mapped_at_creation: false,
    });
    match pollster::block_on(device.pop_error_scope()).or(pollster::block_on(device.pop_error_scope())) {
        Some(cause) => Err(cause),
        None => Ok(buffer),
    }
}

/// `wgpu::Adapter::request_device` without optional features and without a
/// trace, waited for on the spot: a device and its queue, which report to
/// one error sink, or the adapter's refusal.
#[verifier::external_body]
pub(crate) fn request_device(adapter: &wgpu::Adapter, limits: wgpu::Limits) -> (made: Result<
    (wgpu::Device, wgpu::Queue),
    wgpu::RequestDeviceError,
>)
    ensures
        made matches Ok(pair) ==> queue_device(pair.1) == pair.0,
{
    pollster::block_on(
        adapter.request_device(
            &wgpu::DeviceDescriptor { features: wgpu::Features::empty(), limits, label: None },
            None,
        ),
    )
}

/// `wgpu::Queue::write_buffer` inside error scopes of the
/// queue's own device, which is where a refusal is reported: a write that
/// does not fit the buffer comes back as what the device objected to.
#[verifier::external_body]
pub(crate) fn write_buffer(
    device: &wgpu::Device,
    queue: &wgpu::Queue,
    buffer: &wgpu::Buffer,
    offset: u64,
    data: &[u8],
) -> (refused: Option<wgpu::Error>)
    requires
        queue_device(*queue) == *device,
{
    device.push_error_scope(wgpu::ErrorFilter::OutOfMemory);
    device.push_error_scope(wgpu::ErrorFilter::Validation);
    queue.write_buffer(buffer, offset, data);
    pollster::block_on(device.pop_error_scope()).or(pollster::block_on(device.pop_error_scope()))
}

/// `wgpu::Device::create_shader_module` for WGSL source text, inside error
/// scopes.
#[verifier::external_body]
pub(crate) fn create_shader_module(device: &wgpu::Device, label: &str, source: &str) -> (made: Result<
    wgpu::ShaderModule,
    wgpu::Error,
>)
    ensures
        made matches Ok(shader) ==> shader_source(shader) == (label@, source@),
{
    device.push_error_scope(wgpu::ErrorFilter::OutOfMemory);
    device.push_error_scope(wgpu::ErrorFilter::Validation);
    let shader = device.create_shader_module(wgpu::ShaderModuleDescriptor {
        label: Some(label),
        source: wgpu::ShaderSource::Wgsl(std::borrow::Cow::Borrowed(source)),
    });
    match pollster::block_on(device.pop_error_scope()).or(pollster::block_on(device.pop_error_scope())) {
        Some(cause) => Err(cause),
        None => Ok(shader),
    }
}

/// `wgpu::Device::create_pipeline_layout` inside error scopes;
/// set `i` of the layout is `layouts[i]`, and there are no push constants.
#[verifier::external_body]
pub(crate) fn create_pipeline_layout(
    device: &wgpu::Device,
    label: &str,
    layouts: &Vec<&wgpu::BindGroupLayout>,
) -> (made: Result<wgpu::PipelineLayout, wgpu::Error>)
    ensures
        made matches Ok(layout) ==> pipeline_sets(layout) == Seq::new(layouts@.len(), |i: int| *layouts@[i]),
{
    device.push_error_scope(wgpu::ErrorFilter::OutOfMemory);
    device.push_error_scope(wgpu::ErrorFilter::Validation);
    let layout = device.create_pipeline_layout(&wgpu::PipelineLayoutDescriptor {
        label: Some(label),
        bind_group_layouts: layouts,
        push_constant_ranges: &[],
    });
    match pollster::block_on(device.pop_error_scope()).or(pollster::block_on(device.pop_error_scope())) {
        Some(cause) => Err(cause),
        None => Ok(layout),
    }
}

/// A `wgpu::VertexAttribute` with the same location, offset and format.
#[verifier::external_body]
pub(crate) fn vertex_attribute(attribute: &Attribute) -> (made: wgpu::VertexAttribute)
    ensures
        made == attribute_value(attribute.location, attribute.offset, attribute.format),
{
    let format = match attribute.format {
        AttributeFormat::Float32 => wgpu::VertexFormat::Float32,
        AttributeFormat::Float32x2 => wgpu::VertexFormat::Float32x2,
        AttributeFormat::Float32x3 => wgpu::VertexFormat::Float32x3,
        AttributeFormat::Float32x4 => wgpu::VertexFormat::Float32x4,
        AttributeFormat::Uint32 => wgpu::VertexFormat::Uint32,
    };
    wgpu::VertexAttribute { format, offset: attribute.offset, shader_location: attribute.location }
}

/// A `wgpu::VertexBufferLayout` over attributes already translated.
#[verifier::external_body]
pub(crate) fn vertex_buffer_layout<'a>(
    stride: u64,
    step: StepMode,
    attributes: &'a Vec<wgpu::VertexAttribute>,
) -> (made: wgpu::VertexBufferLayout<'a>)
    ensures
        made == buffer_layout_value(stride, step, attributes@),
{
    let step_mode = match step {
        StepMode::Vertex => wgpu::VertexStepMode::Vertex,
        StepMode::Instance => wgpu::VertexStepMode::Instance,
    };
    wgpu::VertexBufferLayout { array_stride: stride, step_mode, attributes }
}

/// The `wgpu::PrimitiveTopology` of the same name.
#[verifier::external_body]
pub(crate) fn topology_of(topology: Topology) -> (made: wgpu::PrimitiveTopology)
    ensures
        made == topology_value(topology),
{
    match topology {
        Topology::PointList => wgpu::PrimitiveTopology::PointList,
        Topology::LineList => wgpu::PrimitiveTopology::LineList,
        Topology::LineStrip => wgpu::PrimitiveTopology::LineStrip,
        Topology::TriangleList => wgpu::PrimitiveTopology::TriangleList,
        Topology::TriangleStrip => wgpu::PrimitiveTopology::TriangleStrip,
    }
}

/// The `wgpu::FrontFace` for a winding order.
#[verifier::external_body]
pub(crate) fn front_face_of(winding: Winding) -> (made: wgpu::FrontFace)
    ensures
        made == front_face_value(winding),
{
    match winding {
        Winding::CounterClockwise => wgpu::FrontFace::Ccw,
        Winding::Clockwise => wgpu::FrontFace::Cw,
    }
}

/// The `wgpu` cull mode: the face to discard, if any.
#[verifier::external_body]
pub(crate) fn cull_mode_of(culling: Culling) -> (made: Option<wgpu::Face>)
    ensures
        made == cull_value(culling),
{
    match culling {
        Culling::Disabled => None,
        Culling::FrontFaces => Some(wgpu::Face::Front),
        Culling::BackFaces => Some(wgpu::Face::Back),
    }
}

/// The `wgpu::PolygonMode` of the same name.
#[verifier::external_body]
pub(crate) fn polygon_mode_of(polygons: Rasterization) -> (made: wgpu::PolygonMode)
    ensures
        made == polygon_value(polygons),
{
    match polygons {
        Rasterization::Fill => wgpu::PolygonMode::Fill,
        Rasterization::Line => wgpu::PolygonMode::Line,
        Rasterization::Point => wgpu::PolygonMode::Point,
    }
}

/// A `wgpu::PrimitiveState` with the given fields and no strip index format.
#[verifier::external_body]
pub(crate) fn primitive_state(
    topology: wgpu::PrimitiveTopology,
    front_face: wgpu::FrontFace,
    cull_mode: Option<wgpu::Face>,
    polygon_mode: wgpu::PolygonMode,
    unclipped_depth: bool,
    conservative: bool,
) -> (made: wgpu::PrimitiveState)
    ensures
        made == primitive_value(topology, front_face, cull_mode, polygon_mode, unclipped_depth, conservative),
{
    wgpu::PrimitiveState {
        topology,
        strip_index_format: None,
        front_face,
        cull_mode,
        polygon_mode,
        unclipped_depth,
        conservative,
    }
}

/// A `wgpu::ColorTargetState` for `format`: `blending` names one of the blend
/// states that `wgpu::BlendState` has a constant for, and bits of
/// `write_mask` outside `wgpu::ColorWrites` are dropped.
#[verifier::external_body]
pub(crate) fn color_target(format: wgpu::TextureFormat, blending: Blending, write_mask: u32) -> (made:
    wgpu::ColorTargetState)
    ensures
        made == target_value(format, blending, write_mask),
{
    let blend = match blending {
        Blending::Replace => wgpu::BlendState::REPLACE,
        Blending::Alpha => wgpu::BlendState::ALPHA_BLENDING,
        Blending::PremultipliedAlpha => wgpu::BlendState::PREMULTIPLIED_ALPHA_BLENDING,
    };
    wgpu::ColorTargetState {
        format,
        blend: Some(blend),
        write_mask: wgpu::ColorWrites::from_bits_truncate(write_mask),
    }
}

/// A `wgpu::MultisampleState` with the given fields.
#[verifier::external_body]
pub(crate) fn multisample_state(count: u32, mask: u64, alpha_to_coverage_enabled: bool) -> (made:
    wgpu::MultisampleState)
    ensures
        made == multisample_value(count, mask, alpha_to_coverage_enabled),
{
    wgpu::MultisampleState { count, mask, alpha_to_coverage_enabled }
}

/// `wgpu::Device::create_render_pipeline` inside error scopes,
/// for a pipeline with one colour target and no multiview.
#[verifier::external_body]
pub(crate) fn create_render_pipeline(
    device: &wgpu::Device,
    label: &str,
    layout: &wgpu::PipelineLayout,
    vertex: (&wgpu::ShaderModule, &str),
    buffers: &Vec<wgpu::VertexBufferLayout<'_>>,
    fragment: (&wgpu::ShaderModule, &str),
    fixed: (wgpu::PrimitiveState, wgpu::MultisampleState, wgpu::ColorTargetState, Option<wgpu::DepthStencilState>),
) -> (made: Result<wgpu::RenderPipeline, wgpu::Error>)
    ensures
        made matches Ok(pipeline) ==> render_request(pipeline) == (RenderRequest {
            label: label@,
            layout: *layout,
            vertex: *vertex.0,
            vertex_entry: vertex.1@,
            buffers: buffers@,
            fragment: *fragment.0,
            fragment_entry: fragment.1@,
            primitive: fixed.0,
            multisample: fixed.1,
            target: fixed.2,
            depth_stencil: fixed.3,
        }),
{
    let targets = [Some(fixed.2)];
    device.push_error_scope(wgpu::ErrorFilter::OutOfMemory);
    device.push_error_scope(wgpu::ErrorFilter::Validation);
    let pipeline = device.create_render_pipeline(&wgpu::RenderPipelineDescriptor {
        label: Some(label),
        layout: Some(layout),
        vertex: wgpu::VertexState { module: vertex.0, entry_point: vertex.1, buffers },
        fragment: Some(wgpu::FragmentState { module: fragment.0, entry_point: fragment.1, targets: &targets }),
        primitive: fixed.0,
        depth_stencil: fixed.3,
        multisample: fixed.1,
        multiview: None,
    });
    pollster::block_on(device.pop_error_scope()).or(pollster::block_on(device.pop_error_scope())).map_or(Ok(pipeline), Err)
}

/// `wgpu::Device::create_compute_pipeline` inside error scopes.
#[verifier::external_body]
pub(crate) fn create_compute_pipeline(
    device: &wgpu::Device,
    label: &str,
    layout: &wgpu::PipelineLayout,
    module: &wgpu::ShaderModule,
    entry_point: &str,
) -> (made: Result<wgpu::ComputePipeline, wgpu::Error>)
    ensures
        made matches Ok(pipeline) ==> compute_request(pipeline) == (ComputeRequest {
            label: label@,
            layout: *layout,
            module: *module,
            entry: entry_point@,
        }),
{
    device.push_error_scope(wgpu::ErrorFilter::OutOfMemory);
    device.push_error_scope(wgpu::ErrorFilter::Validation);
    let pipeline = device.create_compute_pipeline(&wgpu::ComputePipelineDescriptor {
        label: Some(label),
        layout: Some(layout),
        module,
        entry_point,
    });
    match pollster::block_on(device.pop_error_scope()).or(pollster::block_on(device.pop_error_scope())) {
        Some(cause) => Err(cause),
        None => Ok(pipeline),
    }
}

/// `wgpu::Device::create_command_encoder` inside error scopes.
/// The device hands out an encoder in every case; the second part is what it
/// objected to.
#[verifier::external_body]
pub(crate) fn create_command_encoder(device: &wgpu::Device, label: &str) -> (made: (
    wgpu::CommandEncoder,
    Option<wgpu::Error>,
))
{
    device.push_error_scope(wgpu::ErrorFilter::OutOfMemory);
    device.push_error_scope(wgpu::ErrorFilter::Validation);
    let encoder = device.create_command_encoder(&wgpu::CommandEncoderDescriptor { label: Some(label) });
    (encoder, pollster::block_on(device.pop_error_scope()).or(pollster::block_on(device.pop_error_scope())))
}

/// `wgpu::CommandEncoder::begin_compute_pass`.
#[verifier::external_body]
pub(crate) fn begin_compute_pass<'a>(encoder: &'a mut wgpu::CommandEncoder, label: &str) -> (pass:
    wgpu::ComputePass<'a>)
    ensures
        compute_log(pass) == ComputeLog::fresh(),
{
    encoder.begin_compute_pass(&wgpu::ComputePassDescriptor { label: Some(label) })
}

/// `wgpu::ComputePass::set_pipeline`: the pipeline becomes current, and a
/// command is added unless it was current already.
#[verifier::external_body]
pub(crate) fn compute_set_pipeline<'a>(pass: &mut wgpu::ComputePass<'a>, pipeline: &'a wgpu::ComputePipeline)
    ensures
        compute_log(*final(pass)) == compute_log(*old(pass)).told(ComputeCall::Pipeline(*pipeline)),
{
    pass.set_pipeline(pipeline)
}

/// `wgpu::ComputePass::set_bind_group` without dynamic offsets: the bind
/// group becomes current at `index`, and a command is added unless it was
/// current there already.
#[verifier::external_body]
pub(crate) fn compute_set_bind_group<'a>(pass: &mut wgpu::ComputePass<'a>, index: u32, group: &'a wgpu::BindGroup)
    ensures
        compute_log(*final(pass)) == compute_log(*old(pass)).told(ComputeCall::BindGroup(index, *group)),
{
    pass.set_bind_group(index, group, &[])
}

/// `wgpu::ComputePass::dispatch_workgroups`: one more command; what is
/// current stays.
#[verifier::external_body]
pub(crate) fn dispatch_workgroups<'a>(pass: &mut wgpu::ComputePass<'a>, x: u32, y: u32, z: u32)
    ensures
        compute_log(*final(pass)) == compute_log(*old(pass)).told(ComputeCall::Dispatch(x, y, z)),
{
    pass.dispatch_workgroups(x, y, z)
}

/// Ends a compute pass by dropping it, inside error scopes: the
/// device checks the recorded pass at that moment, and what it objects to
/// comes back here.
#[verifier::external_body]
pub(crate) fn end_compute_pass(device: &wgpu::Device, pass: wgpu::ComputePass<'_>) -> (refused: Option<
    wgpu::Error,
>)
{
    device.push_error_scope(wgpu::ErrorFilter::OutOfMemory);
    device.push_error_scope(wgpu::ErrorFilter::Validation);
    drop(pass);
    pollster::block_on(device.pop_error_scope()).or(pollster::block_on(device.pop_error_scope()))
}

/// The `wgpu::Color` constant of the same name.
#[verifier::external_body]
pub(crate) fn clear_color(color: ClearColor) -> (made: wgpu::Color)
    ensures
        made == color_value(color),
{
    match color {
        ClearColor::Transparent => wgpu::Color::TRANSPARENT,
        ClearColor::Black => wgpu::Color::BLACK,
        ClearColor::White => wgpu::Color::WHITE,
        ClearColor::Red => wgpu::Color::RED,
        ClearColor::Green => wgpu::Color::GREEN,
        ClearColor::Blue => wgpu::Color::BLUE,
    }
}

/// `wgpu::CommandEncoder::begin_render_pass` with one colour attachment that
/// is cleared to `clear`, without resolve target and without depth or
/// stencil attachment; `store` says whether what is drawn is stored.
#[verifier::external_body]
pub(crate) fn begin_render_pass<'a>(
    encoder: &'a mut wgpu::CommandEncoder,
    label: &str,
    view: &'a wgpu::TextureView,
    clear: wgpu::Color,
    store: bool,
) -> (pass: wgpu::RenderPass<'a>)
    ensures
        render_log(pass) == RenderLog::fresh().told(RenderCall::Begin(*view, clear, store)),
{
    encoder.begin_render_pass(&wgpu::RenderPassDescriptor {
        label: Some(label),
        color_attachments: &[Some(wgpu::RenderPassColorAttachment {
            view,
            resolve_target: None,
            ops: wgpu::Operations { load: wgpu::LoadOp::Clear(clear), store },
        })],
        depth_stencil_attachment: None,
    })
}

/// `wgpu::RenderPass::set_pipeline`: the pipeline becomes current, and a
/// command is added unless it was current already.
#[verifier::external_body]
pub(crate) fn render_set_pipeline<'a>(pass: &mut wgpu::RenderPass<'a>, pipeline: &'a wgpu::RenderPipeline)
    ensures
        render_log(*final(pass)) == render_log(*old(pass)).told(RenderCall::Pipeline(*pipeline)),
{
    pass.set_pipeline(pipeline)
}

/// `wgpu::RenderPass::set_bind_group` without dynamic offsets: the bind
/// group becomes current at `index`, and a command is added unless it was
/// current there already.
#[verifier::external_body]
pub(crate) fn render_set_bind_group<'a>(pass: &mut wgpu::RenderPass<'a>, index: u32, group: &'a wgpu::BindGroup)
    ensures
        render_log(*final(pass)) == render_log(*old(pass)).told(RenderCall::BindGroup(index, *group)),
{
    pass.set_bind_group(index, group, &[])
}

/// `wgpu::RenderPass::set_vertex_buffer` with the whole of `buffer`: one
/// more command; what is current stays.
#[verifier::external_body]
pub(crate) fn render_set_vertex_buffer<'a>(pass: &mut wgpu::RenderPass<'a>, slot: u32, buffer: &'a Rc<wgpu::Buffer>)
    ensures
        render_log(*final(pass)) == render_log(*old(pass)).told(RenderCall::VertexBuffer(slot, **buffer)),
{
    pass.set_vertex_buffer(slot, buffer.slice(..))
}

/// `wgpu::RenderPass::draw`.  `wgpu` takes the length of both ranges by
/// subtraction, so neither may end before it starts.
#[verifier::external_body]
pub(crate) fn render_draw<'a>(pass: &mut wgpu::RenderPass<'a>, vertices: Range<u32>, instances: Range<u32>)
    requires
        vertices.start <= vertices.end,
        instances.start <= instances.end,
    ensures
        render_log(*final(pass)) == render_log(*old(pass)).told(
            RenderCall::Draw(vertices.start, vertices.end, instances.start, instances.end),
        ),
{
    pass.draw(vertices, instances)
}

/// Ends a render pass by dropping it, inside error scopes.
#[verifier::external_body]
pub(crate) fn end_render_pass(device: &wgpu::Device, pass: wgpu::RenderPass<'_>) -> (refused: Option<wgpu::Error>)
{
    device.push_error_scope(wgpu::ErrorFilter::OutOfMemory);
    device.push_error_scope(wgpu::ErrorFilter::Validation);
    drop(pass);
    pollster::block_on(device.pop_error_scope()).or(pollster::block_on(device.pop_error_scope()))
}

/// `wgpu::CommandEncoder::finish` inside error scopes.
#[verifier::external_body]
pub(crate) fn finish_encoder(device: &wgpu::Device, encoder: wgpu::CommandEncoder) -> (made: Result<
    wgpu::CommandBuffer,
    wgpu::Error,
>)
{
    device.push_error_scope(wgpu::ErrorFilter::OutOfMemory);
    device.push_error_scope(wgpu::ErrorFilter::Validation);
    let buffer = encoder.finish();
    match pollster::block_on(device.pop_error_scope()).or(pollster::block_on(device.pop_error_scope())) {
        Some(cause) => Err(cause),
        None => Ok(buffer),
    }
}

/// `wgpu::TextureFormat::is_srgb`.
#[verifier::external_body]
pub(crate) fn is_srgb(format: wgpu::TextureFormat) -> (b: bool)
    ensures
        b == srgb(format),
{
    format.is_srgb()
}

/// The `wgpu::TextureFormat` of the same name.
#[verifier::external_body]
pub(crate) fn format_of(format: PixelFormat) -> (made: wgpu::TextureFormat)
    ensures
        made == format_value(format),
{
    match format {
        PixelFormat::Rgba8Unorm => wgpu::TextureFormat::Rgba8Unorm,
        PixelFormat::Rgba8UnormSrgb => wgpu::TextureFormat::Rgba8UnormSrgb,
        PixelFormat::Bgra8Unorm => wgpu::TextureFormat::Bgra8Unorm,
        PixelFormat::Bgra8UnormSrgb => wgpu::TextureFormat::Bgra8UnormSrgb,
    }
}

/// `wgpu::Device::create_texture` inside error scopes, for a
/// two-dimensional texture with one layer; `levels` is the number of mip
/// levels and then the number of samples.  Bits of `usage_bits` outside
/// `wgpu::TextureUsages` are dropped.
#[verifier::external_body]
pub(crate) fn create_texture(
    device: &wgpu::Device,
    label: &str,
    size: (u32, u32),
    format: wgpu::TextureFormat,
    usage_bits: u32,
    levels: (u32, u32),
) -> (made: Result<wgpu::Texture, wgpu::Error>)
    ensures
        made matches Ok(texture) ==> texture_request(texture) == (TextureRequest {
            device: *device,
            label: label@,
            size,
            format,
            usage: usage_bits,
            mips: levels.0,
            samples: levels.1,
        }),
{
    device.push_error_scope(wgpu::ErrorFilter::OutOfMemory);
    device.push_error_scope(wgpu::ErrorFilter::Validation);
    let texture = device.create_texture(&wgpu::TextureDescriptor {
        label: Some(label),
        size: wgpu::Extent3d { width: size.0, height: size.1, depth_or_array_layers: 1 },
        mip_level_count: levels.0,
        sample_count: levels.1,
        dimension: wgpu::TextureDimension::D2,
        format,
        usage: wgpu::TextureUsages::from_bits_truncate(usage_bits),
        view_formats: &[],
    });
    pollster::block_on(device.pop_error_scope()).or(pollster::block_on(device.pop_error_scope())).map_or(Ok(texture), Err)
}

/// `wgpu::Texture::create_view` with the default descriptor, inside error
/// scopes of the device that made the texture, which is where a refusal is
/// reported: a view of the whole texture, or what the device objected to.
#[verifier::external_body]
pub(crate) fn create_view(device: &wgpu::Device, texture: &wgpu::Texture) -> (made: Result<
    wgpu::TextureView,
    wgpu::Error,
>)
    requires
        texture_request(*texture).device == *device,
    ensures
        made matches Ok(view) ==> view_texture(view) == *texture,
{
    device.push_error_scope(wgpu::ErrorFilter::OutOfMemory);
    device.push_error_scope(wgpu::ErrorFilter::Validation);
    let view = texture.create_view(&wgpu::TextureViewDescriptor::default());
    match pollster::block_on(device.pop_error_scope()).or(pollster::block_on(device.pop_error_scope())) {
        Some(cause) => Err(cause),
        None => Ok(view),
    }
}

/// A `wgpu::SamplerDescriptor` that uses `address` on all three axes and
/// `filter` for magnification, minification and between mip levels, and is
/// `wgpu`'s default otherwise.
#[verifier::external_body]
pub(crate) fn sampler_descriptor(address: AddressMode, filter: FilterMode) -> (made: wgpu::SamplerDescriptor<'static>)
    ensures
        made == sampling(address, filter),
{
    let address = match address {
        AddressMode::ClampToEdge => wgpu::AddressMode::ClampToEdge,
        AddressMode::Repeat => wgpu::AddressMode::Repeat,
        AddressMode::MirrorRepeat => wgpu::AddressMode::MirrorRepeat,
    };
    let filter = match filter {
        FilterMode::Nearest => wgpu::FilterMode::Nearest,
        FilterMode::Linear => wgpu::FilterMode::Linear,
    };
    wgpu::SamplerDescriptor {
        address_mode_u: address, address_mode_v: address, address_mode_w: address,
        mag_filter: filter, min_filter: filter, mipmap_filter: filter,
        ..Default::default()
    }
}

/// `wgpu::Device::create_sampler` inside error scopes.
#[verifier::external_body]
pub(crate) fn create_sampler(device: &wgpu::Device, descriptor: &wgpu::SamplerDescriptor<'_>) -> (made: Result<
    wgpu::Sampler,
    wgpu::Error,
>)
    ensures
        made matches Ok(sampler) ==> sampler_request(sampler) == *descriptor,
{
    device.push_error_scope(wgpu::ErrorFilter::OutOfMemory);
    device.push_error_scope(wgpu::ErrorFilter::Validation);
    let sampler = device.create_sampler(descriptor);
    match pollster::block_on(device.pop_error_scope()).or(pollster::block_on(device.pop_error_scope())) {
        Some(cause) => Err(cause),
        None => Ok(sampler),
    }
}


} // verus!
