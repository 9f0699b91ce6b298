//! Shader modules: where their code comes from and how their entry points
//! are named.

use vstd::prelude::*;
use vstd::string::StringExecFns;

verus! {

/// A WGSL shader module with a vertex and a fragment stage.
#[derive(Debug)]
pub struct Shader {
    /// The WGSL text to compile, or nothing where the caller holds a
    /// compiled module already.
    pub source: Option<String>,
    /// The debug label to compile under.
    pub label: Option<String>,
}

impl Shader {
    /// The name of the vertex stage's entry point in every shader.
    pub const VERTEX_ENTRY: &'static str = "vs_main";

    /// The name of the fragment stage's entry point in every shader.
    pub const FRAGMENT_ENTRY: &'static str = "fs_main";

    /// A shader to be compiled from WGSL `source` under `label`.
    pub fn new(source: &str, label: Option<&str>) -> (shader: Shader)
        ensures
            shader.source matches Some(text) && text@ == source@,
            label is None <==> shader.label is None,
            label matches Some(given) ==> shader.label matches Some(kept) && kept@ == given@,
    {
        let label = match label {
            Some(given) => Some(given.to_owned()),
            None => None,
        };
        Shader { source: Some(source.to_owned()), label }
    }

    /// A shader around a module that the caller compiled.
    pub fn from_module() -> (shader: Shader)
        ensures
            shader.source is None,
            shader.label is None,
    {
        Shader { source: None, label: None }
    }

    /// Whether the shader still has to be compiled from its text.
    pub fn needs_compiling(&self) -> (needed: bool)
        ensures
            needed == self.source is Some,
    {
        self.source.is_some()
    }

    pub fn vertex_entry(&self) -> (name: &'static str)
        ensures
            name@ == Shader::VERTEX_ENTRY@,
            name@ == "vs_main"@,
    {
        Shader::VERTEX_ENTRY
    }

    pub fn fragment_entry(&self) -> (name: &'static str)
        ensures
            name@ == Shader::FRAGMENT_ENTRY@,
            name@ == "fs_main"@,
    {
        Shader::FRAGMENT_ENTRY
    }
}

/// What a pipeline is given as its shader.
#[derive(Debug)]
pub enum ShaderSource {
    /// WGSL text, to be compiled for this pipeline.
    SourceCode(String),
    /// A module that the caller compiled.
    Module,
    /// A shader that is already described.
    Struct(Shader),
}

/// The label under which a pipeline labelled `label` compiles its shader.
pub open spec fn shader_label_spec(label: Seq<char>) -> Seq<char> {
    "shader for pipeline "@ + label
}

/// Names the shader of a pipeline after the pipeline. A pipeline without a
/// label has a shader without one.
pub fn shader_label(label: Option<&str>) -> (shader_label: Option<String>)
    ensures
        label is None <==> shader_label is None,
        label matches Some(given) ==> shader_label matches Some(made) && made@
            == shader_label_spec(given@),
{
    match label {
        Some(given) => {
            let mut made = "shader for pipeline ".to_owned();
            made.append(given);
            Some(made)
        },
        None => None,
    }
}

/// Settles which shader a pipeline labelled `label` uses: text is compiled
/// under the label derived from the pipeline's, a module is wrapped, and a
/// described shader is taken as it is.
pub fn resolve_shader(source: ShaderSource, label: Option<&str>) -> (shader: Shader)
    ensures
        match source {
            ShaderSource::SourceCode(text) => {
                &&& shader.source matches Some(kept) && kept@ == text@
                &&& label is None <==> shader.label is None
                &&& label matches Some(given) ==> shader.label matches Some(made) && made@
                    == shader_label_spec(given@)
            },
            ShaderSource::Module => shader.source is None && shader.label is None,
            ShaderSource::Struct(given) => shader == given,
        },
{
    match source {
        ShaderSource::SourceCode(text) => Shader { source: Some(text), label: shader_label(label) },
        ShaderSource::Module => Shader::from_module(),
        ShaderSource::Struct(given) => given,
    }
}

} // verus!
