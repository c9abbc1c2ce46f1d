use vstd::prelude::*;

verus! {

/// What an output stream of a specification is: a named stream, whose
/// values are reported, or a trigger with its index among the triggers.
#[derive(Clone, Debug)]
pub enum OutputKind {
    NamedOutput(String),
    Trigger(usize),
}

/// The mathematical model of an [`OutputKind`].
pub enum OutputKindModel {
    NamedOutput(Seq<char>),
    Trigger(nat),
}

impl View for OutputKind {
    type V = OutputKindModel;

    open spec fn view(&self) -> OutputKindModel {
        match self {
            OutputKind::NamedOutput(n) => OutputKindModel::NamedOutput(n@),
            OutputKind::Trigger(t) => OutputKindModel::Trigger(*t as nat),
        }
    }
}

/// What the adapter needs to know of a parsed specification: the names of
/// its inputs and the kinds of its outputs, each in the specification's
/// order.
#[derive(Clone, Debug)]
pub struct SpecShape {
    pub input_names: Vec<String>,
    pub outputs: Vec<OutputKind>,
}

/// The model of a [`SpecShape`]: input names, then output kinds.
pub type ShapeModel = (Seq<Seq<char>>, Seq<OutputKindModel>);

impl View for SpecShape {
    type V = ShapeModel;

    open spec fn view(&self) -> ShapeModel {
        (
            self.input_names@.map_values(|n: String| n@),
            self.outputs@.map_values(|k: OutputKind| k@),
        )
    }
}

/// Copies an output kind.
pub fn clone_output_kind(k: &OutputKind) -> (r: OutputKind)
    ensures
        r@ == k@,
{
    match k {
        OutputKind::NamedOutput(n) => OutputKind::NamedOutput(n.clone()),
        OutputKind::Trigger(t) => OutputKind::Trigger(*t),
    }
}

} // verus!
