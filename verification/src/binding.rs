//! Resource bindings and the binding-set builder.
//!
//! A [`Binding`] declares one resource that a set of shader stages may
//! access.  A [`BindgroupBuilder`] collects bindings in the order in which the
//! shader declares them and numbers their slots: every binding takes the next
//! free slot, and a sampled texture takes two (the texture, then its sampler).
//! [`layout_of`] is that numbering as a mathematical function; everything else
//! in this module is proved against it.

use vstd::prelude::*;

use crate::error::{staged, BuildError, BuildStage};
use crate::target::{Target, TargetView};
use crate::gpu::{
    buffer_group_entry, create_bind_group, create_bind_group_layout, entry_value, entry_values, group_request,
    layout_entries, sampler_entry, sampler_group_entry, sampler_layout_entry, storage_entry,
    storage_layout_entry, storage_texture_entry, storage_texture_layout_entry, texture_entry,
    texture_layout_entry, uniform_entry, uniform_layout_entry, view_group_entry, GroupEntry,
};

verus! {

/// The shader stages that may access a binding.
#[derive(Clone, Copy, Debug, PartialEq, Eq, Structural)]
pub struct Visibility {
    pub vertex: bool,
    pub fragment: bool,
    pub compute: bool,
}

impl Visibility {
    /// The stage mask in the encoding of the graphics API: vertex is bit 0,
    /// fragment bit 1, compute bit 2.
    pub open spec fn mask(self) -> int {
        (if self.vertex { 1int } else { 0int }) + (if self.fragment { 2int } else { 0int }) + (if self.compute {
            4int
        } else {
            0int
        })
    }

    /// Visible to the vertex stage only.
    pub open spec fn vertex_only() -> Visibility {
        Visibility { vertex: true, fragment: false, compute: false }
    }

    /// Visible to the fragment stage only.
    pub open spec fn fragment_only() -> Visibility {
        Visibility { vertex: false, fragment: true, compute: false }
    }

    /// Visible to the compute stage only.
    pub open spec fn compute_only() -> Visibility {
        Visibility { vertex: false, fragment: false, compute: true }
    }

    /// Visible to the vertex stage only.
    pub fn vertex() -> (v: Visibility)
        ensures
            v == Self::vertex_only(),
    {
        Visibility { vertex: true, fragment: false, compute: false }
    }

    /// Visible to the fragment stage only.
    pub fn fragment() -> (v: Visibility)
        ensures
            v == Self::fragment_only(),
    {
        Visibility { vertex: false, fragment: true, compute: false }
    }

    /// Visible to the compute stage only.
    pub fn compute() -> (v: Visibility)
        ensures
            v == Self::compute_only(),
    {
        Visibility { vertex: false, fragment: false, compute: true }
    }

    /// Visible to every stage that either of the two can see.
    pub fn union(self, other: Visibility) -> (v: Visibility)
        ensures
            v.vertex == (self.vertex || other.vertex),
            v.fragment == (self.fragment || other.fragment),
            v.compute == (self.compute || other.compute),
    {
        Visibility {
            vertex: self.vertex || other.vertex,
            fragment: self.fragment || other.fragment,
            compute: self.compute || other.compute,
        }
    }

    /// The stage mask as a machine word.
    pub fn bits(&self) -> (m: u32)
        ensures
            m == self.mask(),
            m <= 7,
    {
        let v: u32 = if self.vertex { 1 } else { 0 };
        let f: u32 = if self.fragment { 2 } else { 0 };
        let c: u32 = if self.compute { 4 } else { 0 };
        v + f + c
    }
}

/// What a sampler slot asks of the sampler bound to it.
#[derive(Clone, Copy, Debug, PartialEq, Eq, Structural)]
pub enum SamplerKind {
    Filtering,
    NonFiltering,
    Comparison,
}

/// How a compute shader may touch a storage texture.
#[derive(Clone, Copy, Debug, PartialEq, Eq, Structural)]
pub enum StorageAccess {
    WriteOnly,
    ReadOnly,
    ReadWrite,
}

/// One GPU resource offered to shaders.  Declarative: holding one performs no
/// GPU call.
pub enum BindingResource<'a> {
    /// A raw storage buffer; the flag says whether shaders may only read it.
    Buffer(&'a wgpu::Buffer, bool),
    /// A texture view together with the sampler that reads it.
    Texture(&'a TargetView, &'a wgpu::Sampler),
    /// A small constant buffer.
    Uniform(&'a wgpu::Buffer),
    /// A texture view opened for direct access by compute shaders, with its
    /// pixel format and access mode.
    TextureStore(wgpu::TextureFormat, &'a TargetView, StorageAccess),
}

/// What a binding does with a texture.
#[derive(Clone, Copy, Debug, PartialEq, Eq, Structural)]
pub enum TextureUse {
    /// Shaders sample it.
    Sampled(Target),
    /// Compute shaders access it directly.
    Storage(Target),
}

/// A resource and the stages that may see it.
pub struct Binding<'a> {
    pub vis: Visibility,
    pub res: BindingResource<'a>,
}

/// What kind of resource a binding offers, without the resource itself.
#[derive(Clone, Copy, Debug, PartialEq, Eq)]
pub enum BindingKind {
    Buffer { read_only: bool },
    Texture,
    Uniform,
    TextureStore { format: wgpu::TextureFormat, access: StorageAccess },
}

/// A binding stripped of its resource handles: all that slot assignment
/// depends on.
#[derive(Clone, Copy, Debug, PartialEq, Eq)]
pub struct BindingShape {
    pub vis: Visibility,
    pub kind: BindingKind,
}

/// What a single slot of a binding-set layout holds.
#[derive(Clone, Copy, Debug, PartialEq, Eq)]
pub enum SlotType {
    /// A storage buffer.
    Storage { read_only: bool },
    /// A uniform buffer.
    Uniform,
    /// A two-dimensional, filterable float texture with one sample per
    /// texel.
    Texture,
    /// A filtering sampler.
    Sampler,
    /// A two-dimensional storage texture.
    StorageTexture { format: wgpu::TextureFormat, access: StorageAccess },
}

/// One slot of a binding-set layout.
#[derive(Clone, Copy, Debug, PartialEq, Eq)]
pub struct SlotEntry {
    /// The index the shader uses for this slot.
    pub binding: u32,
    pub vis: Visibility,
    pub ty: SlotType,
}

impl<'a> BindingResource<'a> {
    /// The kind of this resource.
    pub open spec fn kind(self) -> BindingKind {
        match self {
            BindingResource::Buffer(_, read_only) => BindingKind::Buffer { read_only },
            BindingResource::Texture(_, _) => BindingKind::Texture,
            BindingResource::Uniform(_) => BindingKind::Uniform,
            BindingResource::TextureStore(format, _, access) => BindingKind::TextureStore { format, access },
        }
    }
}

impl<'a> BindingResource<'a> {
    /// The texture this resource offers and how, if it offers one.
    pub open spec fn texture_use(self) -> Option<TextureUse> {
        match self {
            BindingResource::Texture(view, _) => Some(TextureUse::Sampled(view.target())),
            BindingResource::TextureStore(_, view, _) => Some(TextureUse::Storage(view.target())),
            _ => None,
        }
    }
}

impl<'a> Binding<'a> {
    /// The shape of this binding.
    pub open spec fn shape(self) -> BindingShape {
        BindingShape { vis: self.vis, kind: self.res.kind() }
    }

    /// Computes the shape of this binding.
    pub fn describe(&self) -> (s: BindingShape)
        ensures
            s == self.shape(),
    {
        let kind = match &self.res {
            BindingResource::Buffer(_, read_only) => BindingKind::Buffer { read_only: *read_only },
            BindingResource::Texture(_, _) => BindingKind::Texture,
            BindingResource::Uniform(_) => BindingKind::Uniform,
            BindingResource::TextureStore(format, _, access) => BindingKind::TextureStore {
                format: *format,
                access: *access,
            },
        };
        BindingShape { vis: self.vis, kind }
    }
}

/// The number of consecutive slots a binding of this kind takes.
pub open spec fn slot_width(kind: BindingKind) -> nat {
    match kind {
        BindingKind::Texture => 2,
        _ => 1,
    }
}

/// The number of slots that a sequence of bindings takes in all.
pub open spec fn slots_needed(shapes: Seq<BindingShape>) -> nat
    decreases shapes.len(),
{
    if shapes.len() == 0 {
        0
    } else {
        slots_needed(shapes.drop_last()) + slot_width(shapes.last().kind)
    }
}

/// The layout slots of one binding whose first slot is `first`.
pub open spec fn slots_for(shape: BindingShape, first: nat) -> Seq<SlotEntry> {
    match shape.kind {
        BindingKind::Buffer { read_only } => seq![
            SlotEntry { binding: first as u32, vis: shape.vis, ty: SlotType::Storage { read_only } },
        ],
        BindingKind::Uniform => seq![SlotEntry { binding: first as u32, vis: shape.vis, ty: SlotType::Uniform }],
        BindingKind::Texture => seq![
            SlotEntry { binding: first as u32, vis: shape.vis, ty: SlotType::Texture },
            SlotEntry { binding: (first + 1) as u32, vis: shape.vis, ty: SlotType::Sampler },
        ],
        BindingKind::TextureStore { format, access } => seq![
            SlotEntry { binding: first as u32, vis: shape.vis, ty: SlotType::StorageTexture { format, access } },
        ],
    }
}

/// The layout of a binding set: the slots of each binding in insertion
/// order, each binding starting at the first slot its predecessors left free.
pub open spec fn layout_of(shapes: Seq<BindingShape>) -> Seq<SlotEntry>
    decreases shapes.len(),
{
    if shapes.len() == 0 {
        Seq::empty()
    } else {
        layout_of(shapes.drop_last()) + slots_for(shapes.last(), slots_needed(shapes.drop_last()))
    }
}

/// A binding added at the end takes the next free slots and leaves the rest
/// of the layout as it was.
pub proof fn lemma_layout_push(shapes: Seq<BindingShape>, shape: BindingShape)
    ensures
        slots_needed(shapes.push(shape)) == slots_needed(shapes) + slot_width(shape.kind),
        layout_of(shapes.push(shape)) == layout_of(shapes) + slots_for(shape, slots_needed(shapes)),
{
    assert(shapes.push(shape).drop_last() =~= shapes);
}

/// A prefix of a binding sequence never needs more slots than the whole.
pub proof fn lemma_slots_prefix(shapes: Seq<BindingShape>, k: int)
    requires
        0 <= k <= shapes.len(),
    ensures
        slots_needed(shapes.take(k)) <= slots_needed(shapes),
    decreases shapes.len(),
{
    if k == shapes.len() {
        assert(shapes.take(k) =~= shapes);
    } else {
        lemma_slots_prefix(shapes.drop_last(), k);
        assert(shapes.drop_last().take(k) =~= shapes.take(k));
    }
}

/// A layout has exactly as many slots as its bindings need.
pub proof fn lemma_layout_len(shapes: Seq<BindingShape>)
    ensures
        layout_of(shapes).len() == slots_needed(shapes),
    decreases shapes.len(),
{
    if shapes.len() > 0 {
        lemma_layout_len(shapes.drop_last());
    }
}

/// Slots are numbered consecutively from zero: the entry at position `k` of a
/// layout has binding index `k`.
pub proof fn lemma_layout_consecutive(shapes: Seq<BindingShape>, k: int)
    requires
        slots_needed(shapes) <= u32::MAX,
        0 <= k < layout_of(shapes).len(),
    ensures
        layout_of(shapes)[k].binding == k,
    decreases shapes.len(),
{
    if shapes.len() > 0 {
        let front = shapes.drop_last();
        lemma_layout_len(front);
        lemma_layout_len(shapes);
        if k < layout_of(front).len() {
            lemma_layout_consecutive(front, k);
        }
    }
}

/// Adding bindings leaves the slots of the earlier ones as they were: the
/// layout of `earlier` is a prefix of the layout of `earlier + later`.
pub proof fn lemma_layout_extends(earlier: Seq<BindingShape>, later: Seq<BindingShape>)
    ensures
        layout_of(earlier).len() <= layout_of(earlier + later).len(),
        layout_of(earlier + later).take(layout_of(earlier).len() as int) == layout_of(earlier),
    decreases later.len(),
{
    let whole = earlier + later;
    if later.len() == 0 {
        assert(whole =~= earlier);
        assert(layout_of(earlier).take(layout_of(earlier).len() as int) =~= layout_of(earlier));
    } else {
        lemma_layout_extends(earlier, later.drop_last());
        assert(whole.drop_last() =~= earlier + later.drop_last());
        let front = layout_of(whole.drop_last());
        let n = layout_of(earlier).len() as int;
        assert(layout_of(whole).take(n) =~= front.take(n));
    }
}

/// The first slot of the binding at position `i` is the number of slots that
/// the bindings before it take, and its slots stand there in the layout.
pub proof fn lemma_binding_slots(shapes: Seq<BindingShape>, i: int)
    requires
        0 <= i < shapes.len(),
    ensures
        slots_needed(shapes.take(i)) + slot_width(shapes[i].kind) <= layout_of(shapes).len(),
        layout_of(shapes).subrange(
            slots_needed(shapes.take(i)) as int,
            (slots_needed(shapes.take(i)) + slot_width(shapes[i].kind)) as int,
        ) == slots_for(shapes[i], slots_needed(shapes.take(i))),
{
    let upto = shapes.take(i + 1);
    assert(upto.drop_last() =~= shapes.take(i));
    assert(upto.last() == shapes[i]);
    lemma_layout_len(shapes.take(i));
    lemma_layout_len(upto);
    assert(shapes =~= upto + shapes.skip(i + 1));
    lemma_layout_extends(upto, shapes.skip(i + 1));
    let first = slots_needed(shapes.take(i)) as int;
    let width = slot_width(shapes[i].kind) as int;
    assert(layout_of(upto).subrange(first, first + width) =~= slots_for(shapes[i], first as nat));
    assert(layout_of(shapes).subrange(first, first + width) =~= layout_of(shapes).take(
        layout_of(upto).len() as int,
    ).subrange(first, first + width));
}

/// Slot assignment is deterministic: two binding sets built from builders
/// that were given bindings of the same shapes in the same order have the
/// same layout, whatever resources the bindings hold and whichever device
/// built them.
pub proof fn lemma_layout_deterministic(
    first: BindgroupBuilder,
    second: BindgroupBuilder,
    first_built: BindingSet,
    second_built: BindingSet,
)
    requires
        first.shapes() == second.shapes(),
        first_built.layout() == layout_of(first.shapes()),
        second_built.layout() == layout_of(second.shapes()),
    ensures
        first_built.layout() == second_built.layout(),
{
}

/// Numbers the slots of `shapes`.
pub fn slot_layout(shapes: &Vec<BindingShape>) -> (layout: Vec<SlotEntry>)
    requires
        slots_needed(shapes@) <= u32::MAX,
    ensures
        layout@ == layout_of(shapes@),
{
    let mut layout: Vec<SlotEntry> = Vec::new();
    let mut next: u32 = 0;
    let mut i: usize = 0;
    while i < shapes.len()
        invariant
            i <= shapes@.len(),
            slots_needed(shapes@) <= u32::MAX,
            next == slots_needed(shapes@.take(i as int)),
            layout@ == layout_of(shapes@.take(i as int)),
        decreases shapes@.len() - i,
    {
        let shape = shapes[i];
        proof {
            let upto = shapes@.take(i + 1);
            assert(upto.drop_last() =~= shapes@.take(i as int));
            assert(upto.last() == shape);
            lemma_slots_prefix(shapes@, i + 1);
        }
        match shape.kind {
            BindingKind::Buffer { read_only } => {
                layout.push(SlotEntry { binding: next, vis: shape.vis, ty: SlotType::Storage { read_only } });
                next = next + 1;
            },
            BindingKind::Uniform => {
                layout.push(SlotEntry { binding: next, vis: shape.vis, ty: SlotType::Uniform });
                next = next + 1;
            },
            BindingKind::Texture => {
                layout.push(SlotEntry { binding: next, vis: shape.vis, ty: SlotType::Texture });
                layout.push(SlotEntry { binding: next + 1, vis: shape.vis, ty: SlotType::Sampler });
                next = next + 2;
            },
            BindingKind::TextureStore { format, access } => {
                layout.push(
                    SlotEntry { binding: next, vis: shape.vis, ty: SlotType::StorageTexture { format, access } },
                );
                next = next + 1;
            },
        }
        assert(layout@ =~= layout_of(shapes@.take(i + 1)));
        i += 1;
    }
    assert(shapes@.take(i as int) =~= shapes@);
    layout
}

/// The entry that the device is given for one slot: the slot's binding
/// index, its stages as a mask, and its type.
pub open spec fn device_entry(slot: SlotEntry) -> wgpu::BindGroupLayoutEntry {
    let mask = slot.vis.mask() as u32;
    match slot.ty {
        SlotType::Storage { read_only } => storage_entry(slot.binding, mask, read_only),
        SlotType::Uniform => uniform_entry(slot.binding, mask),
        SlotType::Texture => texture_entry(slot.binding, mask, true, false),
        SlotType::Sampler => sampler_entry(slot.binding, mask, SamplerKind::Filtering),
        SlotType::StorageTexture { format, access } => storage_texture_entry(slot.binding, mask, format, access),
    }
}

/// The entries that the device is given for a layout: one for each slot,
/// in order.
pub open spec fn device_plan(layout: Seq<SlotEntry>) -> Seq<wgpu::BindGroupLayoutEntry> {
    Seq::new(layout.len(), |k: int| device_entry(layout[k]))
}

/// The bind group entries of one binding whose first slot is `first`: the
/// whole buffer of a buffer binding, the view of a storage texture, and the
/// view and then the sampler of a sampled texture.
pub open spec fn resource_entries(res: BindingResource, first: nat) -> Seq<GroupEntry> {
    match res {
        BindingResource::Buffer(buffer, _) => seq![GroupEntry::Buffer(first as u32, *buffer)],
        BindingResource::Uniform(buffer) => seq![GroupEntry::Buffer(first as u32, *buffer)],
        BindingResource::Texture(view, sampler) => seq![
            GroupEntry::View(first as u32, view.texture_view()),
            GroupEntry::Sampler((first + 1) as u32, *sampler),
        ],
        BindingResource::TextureStore(_, view, _) => seq![GroupEntry::View(first as u32, view.texture_view())],
    }
}

/// The shapes of a sequence of bindings.
pub open spec fn shapes_of(bindings: Seq<Binding>) -> Seq<BindingShape> {
    Seq::new(bindings.len(), |i: int| bindings[i].shape())
}

/// The bind group entries that the device is given for a sequence of
/// bindings: the entries of each binding in insertion order, each at the
/// slots that the layout gives it.
pub open spec fn group_plan(bindings: Seq<Binding>) -> Seq<GroupEntry>
    decreases bindings.len(),
{
    if bindings.len() == 0 {
        Seq::empty()
    } else {
        group_plan(bindings.drop_last()) + resource_entries(
            bindings.last().res,
            slots_needed(shapes_of(bindings.drop_last())),
        )
    }
}

/// A binding added at the end gets its entries at the next free slots, and
/// the entries of the others stay as they were.
pub proof fn lemma_group_push(bindings: Seq<Binding>, binding: Binding)
    ensures
        shapes_of(bindings.push(binding)) == shapes_of(bindings).push(binding.shape()),
        group_plan(bindings.push(binding)) == group_plan(bindings) + resource_entries(
            binding.res,
            slots_needed(shapes_of(bindings)),
        ),
{
    assert(bindings.push(binding).drop_last() =~= bindings);
    assert(shapes_of(bindings.push(binding)) =~= shapes_of(bindings).push(binding.shape()));
}

/// Translates a layout into the entries that the device takes, one for one
/// and in order.
pub fn device_entries(layout: &Vec<SlotEntry>) -> (entries: Vec<wgpu::BindGroupLayoutEntry>)
    ensures
        entries@ == device_plan(layout@),
{
    let mut entries: Vec<wgpu::BindGroupLayoutEntry> = Vec::new();
    let mut k: usize = 0;
    while k < layout.len()
        invariant
            k <= layout@.len(),
            entries@ == device_plan(layout@).take(k as int),
        decreases layout@.len() - k,
    {
        let slot = layout[k];
        let mask: u32 = slot.vis.bits();
        let entry = match slot.ty {
            SlotType::Storage { read_only } => storage_layout_entry(slot.binding, mask, read_only),
            SlotType::Uniform => uniform_layout_entry(slot.binding, mask),
            SlotType::Texture => texture_layout_entry(slot.binding, mask, true, false),
            SlotType::Sampler => sampler_layout_entry(slot.binding, mask, SamplerKind::Filtering),
            SlotType::StorageTexture { format, access } => storage_texture_layout_entry(
                slot.binding,
                mask,
                format,
                access,
            ),
        };
        entries.push(entry);
        assert(entries@ =~= device_plan(layout@).take(k + 1));
        k += 1;
    }
    assert(device_plan(layout@).take(k as int) =~= device_plan(layout@));
    entries
}

/// What a binding set is, as far as this crate decides it.
pub struct BindingSetView {
    /// Its slots, in order.
    pub layout: Seq<SlotEntry>,
    /// For each binding it was built from, in order, the texture that
    /// binding offers.
    pub textures: Seq<Option<TextureUse>>,
}

/// A built binding set: the layout it was numbered with, and the device
/// objects made from it.  Immutable once built.
pub struct BindingSet {
    layout: Vec<SlotEntry>,
    group: wgpu::BindGroup,
    group_layout: wgpu::BindGroupLayout,
    textures: Ghost<Seq<Option<TextureUse>>>,
}

impl View for BindingSet {
    type V = BindingSetView;

    open spec fn view(&self) -> BindingSetView {
        BindingSetView { layout: self.layout(), textures: self.textures() }
    }
}

impl BindingSet {
    /// The bind group that the device made for this set.
    pub closed spec fn bind_group(&self) -> wgpu::BindGroup {
        self.group
    }

    /// The bind group layout that the device made for this set.
    pub closed spec fn bind_group_layout(&self) -> wgpu::BindGroupLayout {
        self.group_layout
    }

    /// For each binding this set was built from, in order, the texture that
    /// binding offers.
    pub closed spec fn textures(&self) -> Seq<Option<TextureUse>> {
        self.textures@
    }

    /// The slots of this set, in order.
    pub closed spec fn layout(&self) -> Seq<SlotEntry> {
        self.layout@
    }

    /// Whether this set is the one that the device made of `bindings`: its
    /// layout is their layout, its bind group layout holds the entries of
    /// that layout (the device keeps them by slot number, in no order), and
    /// its bind group was made of that layout and of the entries that put
    /// each resource at the slots of its binding.
    pub open spec fn made_of(&self, bindings: Seq<Binding>) -> bool {
        &&& self.layout() == layout_of(shapes_of(bindings))
        &&& self.textures() == Seq::new(bindings.len(), |i: int| bindings[i].res.texture_use())
        &&& layout_entries(self.bind_group_layout()) == device_plan(
            layout_of(shapes_of(bindings)),
        ).to_multiset()
        &&& group_request(self.bind_group()) == (self.bind_group_layout(), group_plan(bindings))
    }

    /// The slots of this set, in order.
    pub fn slots(&self) -> (slots: &Vec<SlotEntry>)
        ensures
            slots@ == self.layout(),
    {
        &self.layout
    }

    /// The device's bind group.
    pub fn group(&self) -> (group: &wgpu::BindGroup)
        ensures
            *group == self.bind_group(),
    {
        &self.group
    }

    /// The device's bind group layout.
    pub fn group_layout(&self) -> (layout: &wgpu::BindGroupLayout)
        ensures
            *layout == self.bind_group_layout(),
    {
        &self.group_layout
    }
}

/// Collects bindings and builds a binding set from them.
pub struct BindgroupBuilder<'a> {
    resources: Vec<Binding<'a>>,
}

impl<'a> BindgroupBuilder<'a> {
    /// The bindings added so far, in insertion order.
    pub closed spec fn bindings(&self) -> Seq<Binding<'a>> {
        self.resources@
    }

    /// The shapes of the bindings added so far, in insertion order.
    pub open spec fn shapes(&self) -> Seq<BindingShape> {
        shapes_of(self.bindings())
    }

    /// For each binding added so far, in insertion order, the texture it
    /// offers.
    pub open spec fn textures(&self) -> Seq<Option<TextureUse>> {
        Seq::new(self.bindings().len(), |i: int| self.bindings()[i].res.texture_use())
    }

    /// The binding set that [`build`](Self::build) makes of the bindings
    /// added so far.
    pub open spec fn plan(&self) -> BindingSetView {
        BindingSetView { layout: layout_of(self.shapes()), textures: self.textures() }
    }

    /// A builder without bindings.
    pub fn new() -> (b: Self)
        ensures
            b.bindings() == Seq::<Binding>::empty(),
            b.shapes() == Seq::<BindingShape>::empty(),
            b.textures() == Seq::<Option<TextureUse>>::empty(),
    {
        let b = BindgroupBuilder { resources: Vec::new() };
        assert(b.shapes() =~= Seq::<BindingShape>::empty());
        assert(b.textures() =~= Seq::<Option<TextureUse>>::empty());
        b
    }

    /// Adds a binding behind those already there.
    pub fn resource(self, res: Binding<'a>) -> (b: Self)
        ensures
            b.bindings() == self.bindings().push(res),
            b.shapes() == self.shapes().push(res.shape()),
            b.textures() == self.textures().push(res.res.texture_use()),
    {
        let mut resources = self.resources;
        resources.push(res);
        let b = BindgroupBuilder { resources };
        assert(b.shapes() =~= self.shapes().push(res.shape()));
        assert(b.textures() =~= self.textures().push(res.res.texture_use()));
        b
    }

    /// The shapes of the bindings added so far.
    pub fn describe(&self) -> (shapes: Vec<BindingShape>)
        ensures
            shapes@ == self.shapes(),
    {
        let mut shapes: Vec<BindingShape> = Vec::new();
        let mut i: usize = 0;
        while i < self.resources.len()
            invariant
                i <= self.resources@.len(),
                shapes@ == self.shapes().take(i as int),
            decreases self.resources@.len() - i,
        {
            shapes.push(self.resources[i].describe());
            assert(shapes@ =~= self.shapes().take(i + 1));
            i += 1;
        }
        assert(self.shapes().take(i as int) =~= self.shapes());
        shapes
    }

    /// The device entries that attach each resource to the slots that
    /// `layout` gives it.
    fn group_entries(&self, layout: &Vec<SlotEntry>) -> (entries: Vec<wgpu::BindGroupEntry<'a>>)
        requires
            slots_needed(self.shapes()) <= u32::MAX,
            layout@ == layout_of(self.shapes()),
        ensures
            entry_values(entries@) == group_plan(self.bindings()),
    {
        let mut entries: Vec<wgpu::BindGroupEntry<'a>> = Vec::new();
        let slots: usize = layout.len();
        let mut k: usize = 0;
        let mut i: usize = 0;
        proof {
            lemma_layout_len(self.shapes());
            assert(self.bindings().take(0) =~= Seq::<Binding>::empty());
            assert(shapes_of(self.bindings().take(0)) =~= self.shapes().take(0));
        }
        while i < self.resources.len()
            invariant
                i <= self.resources@.len(),
                slots == layout@.len(),
                slots_needed(self.shapes()) <= u32::MAX,
                self.resources@.len() == self.shapes().len(),
                layout@ == layout_of(self.shapes()),
                layout@.len() == slots_needed(self.shapes()),
                k == slots_needed(self.shapes().take(i as int)),
                entry_values(entries@) == group_plan(self.bindings().take(i as int)),
            decreases self.resources@.len() - i,
        {
            proof {
                lemma_binding_slots(self.shapes(), i as int);
                let upto = self.shapes().take(i + 1);
                assert(upto.drop_last() =~= self.shapes().take(i as int));
                assert(upto.last() == self.resources@[i as int].shape());
                assert(self.shapes()[i as int] == self.resources@[i as int].shape());
                assert(k + slot_width(self.shapes()[i as int].kind) <= layout@.len());
                lemma_layout_consecutive(self.shapes(), k as int);
                if self.shapes()[i as int].kind is Texture {
                    lemma_layout_consecutive(self.shapes(), k + 1);
                }
                let bound = self.bindings().take(i + 1);
                assert(bound.drop_last() =~= self.bindings().take(i as int));
                assert(bound.last() == self.resources@[i as int]);
                assert(shapes_of(self.bindings().take(i as int)) =~= self.shapes().take(i as int));
            }
            match &self.resources[i].res {
                BindingResource::Buffer(buffer, _) => {
                    entries.push(buffer_group_entry(layout[k].binding, *buffer));
                    k += 1;
                },
                BindingResource::Uniform(buffer) => {
                    entries.push(buffer_group_entry(layout[k].binding, *buffer));
                    k += 1;
                },
                BindingResource::Texture(view, sampler) => {
                    entries.push(view_group_entry(layout[k].binding, view.view()));
                    entries.push(sampler_group_entry(layout[k + 1].binding, *sampler));
                    k += 2;
                },
                BindingResource::TextureStore(_, view, _) => {
                    entries.push(view_group_entry(layout[k].binding, view.view()));
                    k += 1;
                },
            }
            assert(entry_values(entries@) =~= group_plan(self.bindings().take(i + 1)));
            i += 1;
        }
        assert(self.shapes().take(i as int) =~= self.shapes());
        assert(self.bindings().take(i as int) =~= self.bindings());
        entries
    }

    /// Numbers the slots and asks the device for a bind group layout and a
    /// bind group.
    ///
    /// The device is given the entries of the layout, one for each slot, and
    /// the entries that put each resource at the slots of its binding.  The
    /// device alone decides whether the call succeeds; when it refuses, the
    /// error names the object it refused.
    pub fn build(self, device: &wgpu::Device) -> (r: Result<BindingSet, BuildError>)
        requires
            slots_needed(self.shapes()) <= u32::MAX,
        ensures
            r matches Ok(set) ==> set@ == self.plan() && set.made_of(self.bindings()),
            r matches Err(e) ==> e.stage == BuildStage::BindGroupLayout || e.stage == BuildStage::BindGroup,
    {
        let shapes = self.describe();
        let layout = slot_layout(&shapes);
        let layout_entries = device_entries(&layout);
        let group_entries = self.group_entries(&layout);
        match staged(BuildStage::BindGroupLayout, create_bind_group_layout(device, &layout_entries)) {
            Err(e) => Err(e),
            Ok(group_layout) => {
                match staged(BuildStage::BindGroup, create_bind_group(device, &group_layout, &group_entries)) {
                    Err(e) => Err(e),
                    Ok(group) => Ok(BindingSet { layout, group, group_layout, textures: Ghost(self.textures()) }),
                }
            },
        }
    }
}

} // verus!
