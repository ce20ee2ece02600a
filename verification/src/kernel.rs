use crate::descriptor::{spec_bind_all, spec_group_entry, spec_layout_entry};
use crate::descriptor::{lemma_binding_indices_follow_call_order, BindingSlot, DescriptorSet};
use crate::framework::Framework;
use crate::program::{spec_slots, Program};
use crate::shader::Shader;
use crate::usage::GpuBufferUsage;
use vstd::prelude::*;

verus! {

/// One step of turning a program into a dispatchable pipeline.
#[derive(Clone, Copy, Debug, PartialEq, Eq, Structural)]
pub enum BuildStep {
    /// Create the binding-group layout of set `set` from its layout entries.
    CreateBindGroupLayout { set: u32 },
    /// Create the binding group of set `set` from its resource bindings,
    /// against the layout of the same set.
    CreateBindGroup { set: u32 },
    /// Create the pipeline layout over the layouts of the sets `0..sets`, in
    /// set order.
    CreatePipelineLayout { sets: u32 },
    /// Compile the compute pipeline from the shader, the entry point and the
    /// pipeline layout.
    CreateComputePipeline,
}

/// One command of a dispatch, as it is recorded and submitted.
#[derive(Clone, Copy, Debug, PartialEq, Eq, Structural)]
pub enum Command {
    /// Open the compute pass.
    BeginComputePass,
    /// Bind the kernel's pipeline.
    SetPipeline,
    /// Bind the binding group of set `index` at set index `index`.
    SetBindGroup { index: u32 },
    /// Mark the pass with the kernel's entry point.
    InsertDebugMarker,
    /// Dispatch a grid of `x * y * z` work-groups.
    DispatchWorkgroups { x: u32, y: u32, z: u32 },
    /// Close the compute pass.
    EndComputePass,
    /// Submit what was recorded to the queue.
    Submit,
}

/// The steps that create layout and binding group of the first `sets` sets:
/// set by set in set order, each layout just before its group.
pub open spec fn spec_set_steps(sets: nat) -> Seq<BuildStep>
    decreases sets,
{
    if sets == 0 {
        Seq::empty()
    } else {
        spec_set_steps((sets - 1) as nat).push(
            BuildStep::CreateBindGroupLayout { set: (sets - 1) as u32 },
        ).push(BuildStep::CreateBindGroup { set: (sets - 1) as u32 })
    }
}

/// The steps that build the pipeline of a program with `sets` binding sets:
/// the sets' steps, then the pipeline layout over all of them, then the
/// pipeline itself.
pub open spec fn spec_build_steps(sets: nat) -> Seq<BuildStep> {
    spec_set_steps(sets).push(BuildStep::CreatePipelineLayout { sets: sets as u32 }).push(
        BuildStep::CreateComputePipeline,
    )
}

/// The commands that bind the groups of the first `sets` sets, each at its
/// own set index, in set order.
pub open spec fn spec_bind_commands(sets: nat) -> Seq<Command> {
    Seq::new(sets, |index: int| Command::SetBindGroup { index: index as u32 })
}

/// The commands of one dispatch of a kernel with `sets` binding sets over a
/// grid of `x * y * z` work-groups: a single compute pass that binds the
/// pipeline, then every binding group, then dispatches once; and its
/// submission.
pub open spec fn spec_commands(sets: nat, x: u32, y: u32, z: u32) -> Seq<Command> {
    seq![Command::BeginComputePass, Command::SetPipeline] + spec_bind_commands(sets) + seq![
        Command::InsertDebugMarker,
        Command::DispatchWorkgroups { x, y, z },
        Command::EndComputePass,
        Command::Submit,
    ]
}

/// A program made dispatchable: its binding groups, and the steps that build
/// its pipeline. Once constructed it only gets dispatched.
#[derive(Debug)]
pub struct Kernel<'fw, 'sha> {
    fw: &'fw Framework,
    shader: &'sha Shader,
    pipeline: Vec<BuildStep>,
    bindgroups: Vec<DescriptorSet>,
    entry_point: String,
}

impl<'fw, 'sha> Kernel<'fw, 'sha> {
    /// The build steps are those of the kernel's sets, whose indices fit 32 bits.
    #[verifier::type_invariant]
    spec fn well_formed(self) -> bool {
        &&& self.bindgroups@.len() <= u32::MAX
        &&& self.pipeline@ == spec_build_steps(self.bindgroups@.len())
    }

    /// The session the kernel belongs to.
    pub closed spec fn spec_framework(&self) -> &'fw Framework {
        self.fw
    }

    /// The shader the pipeline is compiled from.
    pub closed spec fn spec_shader(&self) -> &'sha Shader {
        self.shader
    }

    /// The name of the entry point.
    pub closed spec fn spec_entry_point(&self) -> Seq<char> {
        self.entry_point@
    }

    /// The slots of each binding group, in set order.
    pub closed spec fn spec_sets(&self) -> Seq<Seq<BindingSlot>> {
        spec_slots(self.bindgroups@)
    }

    /// The commands of one dispatch of this kernel over the given grid.
    pub open spec fn spec_enqueue(&self, x: u32, y: u32, z: u32) -> Seq<Command> {
        spec_commands(self.spec_sets().len(), x, y, z)
    }

    /// Makes `program` dispatchable in the session `fw`. The kernel keeps
    /// the program's shader and entry point and has one binding group per
    /// binding set, in set order, each with the set's slots unchanged.
    pub fn new(fw: &'fw Framework, program: Program<'sha>) -> (kernel: Self)
        ensures
            kernel.spec_framework() == fw,
            kernel.spec_shader() == program.spec_shader(),
            kernel.spec_entry_point() == program.spec_entry_point(),
            kernel.spec_sets() == program.spec_sets(),
    {
        let (shader, entry_point, bindgroups) = program.into_parts();
        let sets = bindgroups.len();
        let mut pipeline: Vec<BuildStep> = Vec::new();
        let mut set_id: usize = 0;
        while set_id < sets
            invariant
                set_id <= sets,
                sets <= u32::MAX,
                pipeline@ == spec_set_steps(set_id as nat),
            decreases sets - set_id,
        {
            pipeline.push(BuildStep::CreateBindGroupLayout { set: set_id as u32 });
            pipeline.push(BuildStep::CreateBindGroup { set: set_id as u32 });
            set_id += 1;
        }
        pipeline.push(BuildStep::CreatePipelineLayout { sets: sets as u32 });
        pipeline.push(BuildStep::CreateComputePipeline);
        Kernel { fw, shader, pipeline, bindgroups, entry_point }
    }

    /// The steps that build the kernel's pipeline, in the order in which
    /// they are to be performed.
    pub fn build_steps(&self) -> (steps: &Vec<BuildStep>)
        ensures
            steps@ == spec_build_steps(self.spec_sets().len()),
    {
        proof {
            use_type_invariant(self);
        }
        &self.pipeline
    }

    /// The binding groups, in set order.
    pub fn bindgroups(&self) -> (bindgroups: &Vec<DescriptorSet>)
        ensures
            spec_slots(bindgroups@) == self.spec_sets(),
            bindgroups@.len() <= u32::MAX,
    {
        proof {
            use_type_invariant(self);
        }
        &self.bindgroups
    }

    /// The session the kernel belongs to.
    pub fn framework(&self) -> (fw: &'fw Framework)
        ensures
            fw == self.spec_framework(),
    {
        self.fw
    }

    /// The shader the pipeline is compiled from.
    pub fn shader(&self) -> (shader: &'sha Shader)
        ensures
            shader == self.spec_shader(),
    {
        self.shader
    }

    /// The name of the entry point.
    pub fn entry_point(&self) -> (entry_point: &str)
        ensures
            entry_point@ == self.spec_entry_point(),
    {
        self.entry_point.as_str()
    }

    /// Records one dispatch over a grid of `x * y * z` work-groups: a single
    /// compute pass that binds the pipeline and every binding group at its
    /// set index and dispatches once, followed by its submission. The grid
    /// is not checked against the backend's limits.
    pub fn enqueue(&self, x: u32, y: u32, z: u32) -> (commands: Vec<Command>)
        ensures
            commands@ == self.spec_enqueue(x, y, z),
    {
        proof {
            use_type_invariant(self);
        }
        let sets = self.bindgroups.len();
        let mut commands: Vec<Command> = Vec::new();
        commands.push(Command::BeginComputePass);
        commands.push(Command::SetPipeline);
        let mut id: usize = 0;
        while id < sets
            invariant
                id <= sets,
                sets <= u32::MAX,
                commands@ == seq![Command::BeginComputePass, Command::SetPipeline]
                    + spec_bind_commands(id as nat),
            decreases sets - id,
        {
            commands.push(Command::SetBindGroup { index: id as u32 });
            assert(spec_bind_commands(id as nat).push(Command::SetBindGroup { index: id as u32 })
                =~= spec_bind_commands((id + 1) as nat));
            assert(commands@ =~= seq![Command::BeginComputePass, Command::SetPipeline]
                + spec_bind_commands((id + 1) as nat));
            id += 1;
        }
        commands.push(Command::InsertDebugMarker);
        commands.push(Command::DispatchWorkgroups { x, y, z });
        commands.push(Command::EndComputePass);
        commands.push(Command::Submit);
        assert(commands@ =~= spec_commands(sets as nat, x, y, z));
        commands
    }
}

/// Binding order survives to the binding group. Where the set at index
/// `set` of a kernel was built by a run of bindings on an empty set, the
/// layout and the resource binding at position `i` of that group carry
/// binding index `i`, the access mode and the buffer of the call at
/// position `i`.
pub proof fn lemma_bind_group_keeps_call_order(
    kernel: &Kernel,
    set: int,
    bindings: Seq<(GpuBufferUsage, u64)>,
)
    requires
        0 <= set < kernel.spec_sets().len(),
        bindings.len() <= u32::MAX,
        kernel.spec_sets()[set] == spec_bind_all(bindings),
    ensures
        kernel.spec_sets()[set].len() == bindings.len(),
        forall|i: int|
            0 <= i < bindings.len() ==> {
                &&& spec_group_entry(#[trigger] kernel.spec_sets()[set][i]).binding == i
                &&& spec_group_entry(kernel.spec_sets()[set][i]).size == bindings[i].1
                &&& spec_layout_entry(kernel.spec_sets()[set][i]).binding == i
                &&& spec_layout_entry(kernel.spec_sets()[set][i]).read_only
                    == bindings[i].0.spec_read_only()
            },
{
    lemma_binding_indices_follow_call_order(bindings);
}

/// A dispatch reads nothing of a kernel but the number of its binding sets:
/// kernels with as many sets record the same commands over the same grid,
/// so repeating a dispatch repeats its commands exactly.
pub proof fn lemma_enqueue_depends_on_set_count_and_grid(
    first: &Kernel,
    second: &Kernel,
    x: u32,
    y: u32,
    z: u32,
)
    requires
        first.spec_sets().len() == second.spec_sets().len(),
    ensures
        first.spec_enqueue(x, y, z) == second.spec_enqueue(x, y, z),
{
}

/// Every dispatch holds, in this order, the binding of the pipeline, one
/// binding per set at the set's own index, and exactly one dispatch of the
/// grid that was asked for.
pub proof fn lemma_commands_layout(sets: nat, x: u32, y: u32, z: u32)
    ensures
        spec_commands(sets, x, y, z).len() == sets + 6,
        spec_commands(sets, x, y, z)[0] == Command::BeginComputePass,
        spec_commands(sets, x, y, z)[1] == Command::SetPipeline,
        forall|i: int|
            0 <= i < sets ==> #[trigger] spec_commands(sets, x, y, z)[2 + i]
                == (Command::SetBindGroup { index: i as u32 }),
        spec_commands(sets, x, y, z)[sets as int + 2] == Command::InsertDebugMarker,
        spec_commands(sets, x, y, z)[sets as int + 3] == (Command::DispatchWorkgroups { x, y, z }),
        spec_commands(sets, x, y, z)[sets as int + 4] == Command::EndComputePass,
        spec_commands(sets, x, y, z)[sets as int + 5] == Command::Submit,
{
}

} // verus!
