use crate::buffer::GpuBuffer;
use crate::usage::GpuBufferUsage;
use vstd::prelude::*;

verus! {

/// The shader stage that can see a binding.
#[derive(Clone, Copy, Debug, PartialEq, Eq, Structural)]
pub enum ShaderStage {
    /// The compute stage, the only one a binding set is visible to.
    Compute,
}

/// The layout of one binding: a storage buffer at a binding index.
#[derive(Clone, Copy, Debug, PartialEq, Eq)]
pub struct BindGroupLayoutEntry {
    /// The binding index, as the shader declares it.
    pub binding: u32,
    /// The stage the binding is visible to.
    pub visibility: ShaderStage,
    /// Whether the storage buffer is bound read-only.
    pub read_only: bool,
    /// Whether the binding takes a dynamic offset.
    pub has_dynamic_offset: bool,
    /// The least size a bound buffer must have, if one is demanded.
    pub min_binding_size: Option<u64>,
    /// The length of a binding array, if the binding is one.
    pub count: Option<u32>,
}

/// The resource at one binding: a buffer of `size` bytes, bound in its entirety.
#[derive(Clone, Copy, Debug, PartialEq, Eq, Structural)]
pub struct BindGroupEntry {
    /// The binding index, as the shader declares it.
    pub binding: u32,
    /// The size in bytes of the buffer that backs the binding.
    pub size: u64,
}

/// One slot of a binding set: which buffer sits at which binding index, and
/// how the program may access it.
#[derive(Clone, Copy, Debug, PartialEq, Eq, Structural)]
pub struct BindingSlot {
    /// The binding index: the slot's position in its set.
    pub binding: u32,
    /// The access mode.
    pub usage: GpuBufferUsage,
    /// The size in bytes of the bound buffer.
    pub size: u64,
}

/// The layout that describes a slot: a storage buffer visible to the compute
/// stage, read-only exactly if the slot's access mode is.
pub open spec fn spec_layout_entry(slot: BindingSlot) -> BindGroupLayoutEntry {
    BindGroupLayoutEntry {
        binding: slot.binding,
        visibility: ShaderStage::Compute,
        read_only: slot.usage.spec_read_only(),
        has_dynamic_offset: false,
        min_binding_size: None,
        count: None,
    }
}

/// The resource binding of a slot: the whole of its buffer.
pub open spec fn spec_group_entry(slot: BindingSlot) -> BindGroupEntry {
    BindGroupEntry { binding: slot.binding, size: slot.size }
}

/// The slots after one more buffer is bound: the new slot comes last, and its
/// binding index is the number of slots before it.
pub open spec fn spec_bind(slots: Seq<BindingSlot>, usage: GpuBufferUsage, size: u64) -> Seq<
    BindingSlot,
> {
    slots.push(BindingSlot { binding: slots.len() as u32, usage, size })
}

/// The slots after a run of bindings, made in order on an empty set.
pub open spec fn spec_bind_all(bindings: Seq<(GpuBufferUsage, u64)>) -> Seq<BindingSlot>
    decreases bindings.len(),
{
    if bindings.len() == 0 {
        Seq::empty()
    } else {
        spec_bind(spec_bind_all(bindings.drop_last()), bindings.last().0, bindings.last().1)
    }
}

/// Binding indices follow call order: after any run of bindings on an empty
/// set there is one slot per call, and the slot of the call at position `i`
/// has binding index `i`, with that call's access mode and buffer.
pub proof fn lemma_binding_indices_follow_call_order(bindings: Seq<(GpuBufferUsage, u64)>)
    requires
        bindings.len() <= u32::MAX,
    ensures
        spec_bind_all(bindings).len() == bindings.len(),
        forall|i: int|
            0 <= i < bindings.len() ==> #[trigger] spec_bind_all(bindings)[i] == (BindingSlot {
                binding: i as u32,
                usage: bindings[i].0,
                size: bindings[i].1,
            }),
    decreases bindings.len(),
{
    if bindings.len() > 0 {
        lemma_binding_indices_follow_call_order(bindings.drop_last());
    }
}

/// An ordered set of bindings: the buffers a compute program may access, and
/// in what mode. A set is build-only; nothing is removed or reordered.
#[derive(Debug)]
pub struct DescriptorSet {
    layout: Vec<BindGroupLayoutEntry>,
    set: Vec<BindGroupEntry>,
}

impl View for DescriptorSet {
    type V = Seq<BindingSlot>;

    /// The slots in binding order. The binding index of a slot is its position.
    closed spec fn view(&self) -> Seq<BindingSlot> {
        Seq::new(
            self.layout@.len(),
            |i: int|
                BindingSlot {
                    binding: i as u32,
                    usage: if self.layout@[i].read_only {
                        GpuBufferUsage::ReadOnly
                    } else {
                        GpuBufferUsage::ReadWrite
                    },
                    size: self.set@[i].size,
                },
        )
    }
}

impl DescriptorSet {
    /// Each stored layout and resource binding carries its position as its
    /// binding index, and each layout is that of a compute-visible storage buffer.
    #[verifier::type_invariant]
    spec fn well_formed(self) -> bool {
        &&& self.layout@.len() == self.set@.len()
        &&& self.layout@.len() <= u32::MAX
        &&& forall|i: int|
            0 <= i < self.layout@.len() ==> {
                &&& (#[trigger] self.layout@[i]).binding == i
                &&& self.layout@[i].visibility == ShaderStage::Compute
                &&& !self.layout@[i].has_dynamic_offset
                &&& self.layout@[i].min_binding_size is None
                &&& self.layout@[i].count is None
            }
        &&& forall|i: int| 0 <= i < self.set@.len() ==> (#[trigger] self.set@[i]).binding == i
    }

    /// In every set the binding index of a slot is the slot's position.
    pub proof fn lemma_binding_is_position(&self, i: int)
        requires
            0 <= i < self@.len(),
        ensures
            self@[i].binding == i as u32,
    {
    }

    /// The empty set.
    pub fn new() -> (set: DescriptorSet)
        ensures
            set@ == Seq::<BindingSlot>::empty(),
    {
        let set = DescriptorSet { layout: Vec::new(), set: Vec::new() };
        assert(set@ =~= Seq::<BindingSlot>::empty());
        set
    }

    /// The number of slots.
    pub fn len(&self) -> (len: usize)
        ensures
            len == self@.len(),
            len <= u32::MAX,
    {
        proof {
            use_type_invariant(self);
        }
        self.layout.len()
    }

    /// Appends one binding for `storage_buf` with access mode `usage`. The
    /// new slot takes the next binding index, so buffers must be bound in the
    /// order in which the shader declares them.
    pub fn bind_buffer<T>(self, storage_buf: &GpuBuffer<T>, usage: GpuBufferUsage) -> (set:
        DescriptorSet)
        requires
            self@.len() < u32::MAX,
        ensures
            set@ == spec_bind(self@, usage, storage_buf.spec_size() as u64),
    {
        proof {
            use_type_invariant(&self);
        }
        let ghost before = self@;
        let mut layout = self.layout;
        let mut set = self.set;
        let bind_id = layout.len() as u32;
        let entry_layout = BindGroupLayoutEntry {
            binding: bind_id,
            visibility: ShaderStage::Compute,
            read_only: usage.read_only(),
            has_dynamic_offset: false,
            min_binding_size: None,
            count: None,
        };
        let entry = BindGroupEntry { binding: bind_id, size: storage_buf.size() };
        layout.push(entry_layout);
        set.push(entry);
        let bound = DescriptorSet { layout, set };
        assert(bound@ =~= spec_bind(before, usage, storage_buf.spec_size() as u64));
        bound
    }

    /// The layout descriptions, one per slot, in binding order.
    pub fn layout(&self) -> (layout: &Vec<BindGroupLayoutEntry>)
        ensures
            layout@ == self@.map_values(|slot: BindingSlot| spec_layout_entry(slot)),
    {
        proof {
            use_type_invariant(self);
            assert(self.layout@ =~= self@.map_values(|slot: BindingSlot| spec_layout_entry(slot)));
        }
        &self.layout
    }

    /// The resource bindings, one per slot, in binding order.
    pub fn set(&self) -> (set: &Vec<BindGroupEntry>)
        ensures
            set@ == self@.map_values(|slot: BindingSlot| spec_group_entry(slot)),
    {
        proof {
            use_type_invariant(self);
            assert(self.set@ =~= self@.map_values(|slot: BindingSlot| spec_group_entry(slot)));
        }
        &self.set
    }
}

impl Default for DescriptorSet {
    fn default() -> (set: DescriptorSet)
        ensures
            set@ == Seq::<BindingSlot>::empty(),
    {
        DescriptorSet::new()
    }
}

} // verus!
