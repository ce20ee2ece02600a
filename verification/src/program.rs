use crate::descriptor::{BindingSlot, DescriptorSet};
use crate::shader::Shader;
use vstd::prelude::*;

verus! {

/// The slots of each set of a list of binding sets, in set order.
pub open spec fn spec_slots(descriptors: Seq<DescriptorSet>) -> Seq<Seq<BindingSlot>> {
    descriptors.map_values(|set: DescriptorSet| set@)
}

/// A shader with its entry point and its binding sets. The index of a set
/// is its position.
#[derive(Debug)]
pub struct Program<'sha> {
    shader: &'sha Shader,
    entry_point: String,
    descriptors: Vec<DescriptorSet>,
}

impl<'sha> Program<'sha> {
    /// Set indices fit the 32 bits the backend gives them.
    #[verifier::type_invariant]
    spec fn well_formed(self) -> bool {
        self.descriptors@.len() <= u32::MAX
    }

    /// The shader the program runs.
    pub closed spec fn spec_shader(&self) -> &'sha Shader {
        self.shader
    }

    /// The name of the entry point.
    pub closed spec fn spec_entry_point(&self) -> Seq<char> {
        self.entry_point@
    }

    /// The slots of each binding set, in set order.
    pub closed spec fn spec_sets(&self) -> Seq<Seq<BindingSlot>> {
        spec_slots(self.descriptors@)
    }

    /// A program that runs `entry_point` of `shader`, with no binding set yet.
    pub fn new(shader: &'sha Shader, entry_point: &str) -> (program: Self)
        ensures
            program.spec_shader() == shader,
            program.spec_entry_point() == entry_point@,
            program.spec_sets() == Seq::<Seq<BindingSlot>>::empty(),
    {
        let program = Program { shader, entry_point: entry_point.to_owned(), descriptors: Vec::new() };
        assert(program.spec_sets() =~= Seq::<Seq<BindingSlot>>::empty());
        program
    }

    /// Appends one binding set: the resources the shader reaches through the
    /// next set index. Shader and entry point stay as they are.
    pub fn add_descriptor(self, desc: DescriptorSet) -> (program: Self)
        requires
            self.spec_sets().len() < u32::MAX,
        ensures
            program.spec_shader() == self.spec_shader(),
            program.spec_entry_point() == self.spec_entry_point(),
            program.spec_sets() == self.spec_sets().push(desc@),
    {
        let ghost before = self.spec_sets();
        let shader = self.shader;
        let entry_point = self.entry_point;
        let mut descriptors = self.descriptors;
        descriptors.push(desc);
        let program = Program { shader, entry_point, descriptors };
        assert(program.spec_sets() =~= before.push(desc@));
        program
    }

    /// The shader the program runs.
    pub fn shader(&self) -> (shader: &'sha Shader)
        ensures
            shader == self.spec_shader(),
    {
        self.shader
    }

    /// The name of the entry point.
    pub fn entry_point(&self) -> (entry_point: &str)
        ensures
            entry_point@ == self.spec_entry_point(),
    {
        self.entry_point.as_str()
    }

    /// The binding sets, in set order.
    pub fn descriptors(&self) -> (descriptors: &Vec<DescriptorSet>)
        ensures
            spec_slots(descriptors@) == self.spec_sets(),
            descriptors@.len() <= u32::MAX,
    {
        proof {
            use_type_invariant(self);
        }
        &self.descriptors
    }

    /// Takes the program apart: shader, entry point, and the binding sets in
    /// set order.
    pub fn into_parts(self) -> (parts: (&'sha Shader, String, Vec<DescriptorSet>))
        ensures
            parts.0 == self.spec_shader(),
            parts.1@ == self.spec_entry_point(),
            spec_slots(parts.2@) == self.spec_sets(),
            parts.2@.len() <= u32::MAX,
    {
        proof {
            use_type_invariant(&self);
        }
        (self.shader, self.entry_point, self.descriptors)
    }
}

} // verus!
