use crate::framework::Framework;
use vstd::prelude::*;

verus! {

/// A compute shader: WGSL source text under an optional label. The text is
/// neither parsed nor validated here; the backend compiles it.
#[derive(Debug)]
pub struct Shader {
    label: Option<String>,
    source: String,
}

impl Shader {
    /// The label, if the shader has one.
    pub closed spec fn spec_label(&self) -> Option<Seq<char>> {
        match self.label {
            Some(label) => Some(label@),
            None => None,
        }
    }

    /// The WGSL source text.
    pub closed spec fn spec_source(&self) -> Seq<char> {
        self.source@
    }

    /// A shader for the session `fw` from the contents of a WGSL file.
    /// `path` is the file's path where it is valid Unicode, and becomes the
    /// label; `source` is the text that was read from the file.
    pub fn from_wgsl_file(fw: &Framework, path: Option<&str>, source: String) -> (shader: Shader)
        ensures
            shader.spec_source() == source@,
            shader.spec_label() == match path {
                Some(path) => Some(path@),
                None => None,
            },
    {
        let label = match path {
            Some(path) => Some(path.to_owned()),
            None => None,
        };
        Shader { label, source }
    }

    /// The label, if the shader has one.
    pub fn label(&self) -> (label: Option<&str>)
        ensures
            match label {
                Some(label) => self.spec_label() == Some(label@),
                None => self.spec_label() is None,
            },
    {
        match &self.label {
            Some(label) => Some(label.as_str()),
            None => None,
        }
    }

    /// The WGSL source text.
    pub fn source(&self) -> (source: &str)
        ensures
            source@ == self.spec_source(),
    {
        self.source.as_str()
    }
}

} // verus!
