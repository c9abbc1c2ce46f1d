use vstd::prelude::*;
use crate::number::{format_value, number_text, NumberText, NumberTextModel, DEFAULT_THRESHOLD};
use crate::shape::{clone_output_kind, OutputKind, OutputKindModel, ShapeModel, SpecShape};
use crate::timing::{format_timestamp, timestamp_text};
use crate::value::{TypedValue, ValueModel};

verus! {

/// Whether a verdict answers a deadline (`Timed`) or an event (`Event`).
#[derive(PartialEq, Eq, Structural, Clone, Copy, Debug)]
pub enum VerdictKind {
    Timed,
    Event,
}

/// One change to an output stream instance, as the engine reports it: the
/// instance was created, took a value, or was closed.
#[derive(Clone, Debug)]
pub enum Change {
    Spawn(Vec<TypedValue>),
    Value(Option<Vec<TypedValue>>, TypedValue),
    Close(Vec<TypedValue>),
}

/// The model of a sequence of values.
pub open spec fn values_model(vs: Seq<TypedValue>) -> Seq<ValueModel> {
    vs.map_values(|v: TypedValue| v@)
}

/// The mathematical model of a [`Change`].
pub enum ChangeModel {
    Spawn(Seq<ValueModel>),
    Value(Option<Seq<ValueModel>>, ValueModel),
    Close(Seq<ValueModel>),
}

impl View for Change {
    type V = ChangeModel;

    open spec fn view(&self) -> ChangeModel {
        match self {
            Change::Spawn(p) => ChangeModel::Spawn(values_model(p@)),
            Change::Value(p, v) => ChangeModel::Value(
                match p {
                    Some(q) => Some(values_model(q@)),
                    None => None,
                },
                v@,
            ),
            Change::Close(p) => ChangeModel::Close(values_model(p@)),
        }
    }
}

/// Everything that one event or one deadline caused: the echoed inputs, by
/// input index, and the changes of each output, by output index.
#[derive(Clone, Debug)]
pub struct Verdict {
    pub kind: VerdictKind,
    pub inputs: Vec<(usize, TypedValue)>,
    pub outputs: Vec<(usize, Vec<Change>)>,
}

/// The mathematical model of a [`Verdict`].
pub struct VerdictModel {
    pub kind: VerdictKind,
    pub inputs: Seq<(usize, ValueModel)>,
    pub outputs: Seq<(usize, Seq<ChangeModel>)>,
}

impl View for Verdict {
    type V = VerdictModel;

    open spec fn view(&self) -> VerdictModel {
        VerdictModel {
            kind: self.kind,
            inputs: self.inputs@.map_values(|p: (usize, TypedValue)| (p.0, p.1@)),
            outputs: self.outputs@.map_values(
                |p: (usize, Vec<Change>)| (p.0, p.1@.map_values(|c: Change| c@)),
            ),
        }
    }
}

/// Every input and output index of the verdict names a stream of the shape.
pub open spec fn verdict_fits(v: VerdictModel, shape: ShapeModel) -> bool {
    &&& forall|i: int| 0 <= i < v.inputs.len() ==> (#[trigger] v.inputs[i]).0 < shape.0.len()
    &&& forall|i: int| 0 <= i < v.outputs.len() ==> (#[trigger] v.outputs[i]).0 < shape.1.len()
}

/// One line of a formatted verdict, without its time prefix.
#[derive(Clone, Debug)]
pub enum LineBody {
    /// A deadline was reached.
    DeadlineReached,
    /// A new event was processed.
    NewEvent,
    /// An input of the event, by name, and how its value is shown.
    Input(String, NumberText),
    /// An instance of a named stream was created with these parameters.
    Spawn(OutputKind, Vec<TypedValue>),
    /// A named stream took a value, shown so.
    OutputValue(OutputKind, NumberText),
    /// A trigger fired with this value.
    TriggerFired(OutputKind, TypedValue),
    /// An instance of a named stream was closed.
    Close(OutputKind, Vec<TypedValue>),
}

/// The mathematical model of a [`LineBody`].
pub enum LineModel {
    DeadlineReached,
    NewEvent,
    Input(Seq<char>, NumberTextModel),
    Spawn(OutputKindModel, Seq<ValueModel>),
    OutputValue(OutputKindModel, NumberTextModel),
    TriggerFired(OutputKindModel, ValueModel),
    Close(OutputKindModel, Seq<ValueModel>),
}

impl View for LineBody {
    type V = LineModel;

    open spec fn view(&self) -> LineModel {
        match self {
            LineBody::DeadlineReached => LineModel::DeadlineReached,
            LineBody::NewEvent => LineModel::NewEvent,
            LineBody::Input(n, t) => LineModel::Input(n@, t@),
            LineBody::Spawn(k, p) => LineModel::Spawn(k@, values_model(p@)),
            LineBody::OutputValue(k, t) => LineModel::OutputValue(k@, t@),
            LineBody::TriggerFired(k, v) => LineModel::TriggerFired(k@, v@),
            LineBody::Close(k, p) => LineModel::Close(k@, values_model(p@)),
        }
    }
}

/// The lines of a verdict in order, each to be shown after the time stamp
/// `time`.
#[derive(Clone, Debug)]
pub struct FormattedVerdict {
    pub time: String,
    pub lines: Vec<LineBody>,
}

/// The model of a sequence of lines.
pub open spec fn lines_model(ls: Seq<LineBody>) -> Seq<LineModel> {
    ls.map_values(|l: LineBody| l@)
}

/// The header: a deadline line, or a new-event line followed by one line
/// per echoed input with the input's name and its shown value.
pub open spec fn header_lines(v: VerdictModel, names: Seq<Seq<char>>) -> Seq<LineModel> {
    match v.kind {
        VerdictKind::Timed => seq![LineModel::DeadlineReached],
        VerdictKind::Event => seq![LineModel::NewEvent] + input_lines(v.inputs, names),
    }
}

/// One line per echoed input, in the verdict's order.
pub open spec fn input_lines(inputs: Seq<(usize, ValueModel)>, names: Seq<Seq<char>>) -> Seq<LineModel>
    decreases inputs.len(),
{
    if inputs.len() == 0 {
        Seq::empty()
    } else {
        let p = inputs.last();
        input_lines(inputs.drop_last(), names).push(
            LineModel::Input(names[p.0 as int], number_text(p.1, DEFAULT_THRESHOLD)),
        )
    }
}

/// The lines of one change of an output of the given kind. A named stream
/// shows its spawns, values and closes; a trigger shows only that it fired.
pub open spec fn change_lines(kind: OutputKindModel, c: ChangeModel) -> Seq<LineModel> {
    match (kind, c) {
        (OutputKindModel::NamedOutput(_), ChangeModel::Spawn(p)) => seq![LineModel::Spawn(kind, p)],
        (OutputKindModel::NamedOutput(_), ChangeModel::Value(_, x)) => seq![
            LineModel::OutputValue(kind, number_text(x, DEFAULT_THRESHOLD)),
        ],
        (OutputKindModel::NamedOutput(_), ChangeModel::Close(p)) => seq![LineModel::Close(kind, p)],
        (OutputKindModel::Trigger(_), ChangeModel::Value(_, x)) => seq![LineModel::TriggerFired(kind, x)],
        (OutputKindModel::Trigger(_), _) => Seq::empty(),
    }
}

/// The lines of a list of changes of one output, in order.
pub open spec fn changes_lines(kind: OutputKindModel, cs: Seq<ChangeModel>) -> Seq<LineModel>
    decreases cs.len(),
{
    if cs.len() == 0 {
        Seq::empty()
    } else {
        changes_lines(kind, cs.drop_last()) + change_lines(kind, cs.last())
    }
}

/// The lines of all changed outputs, output by output in the verdict's
/// order.
pub open spec fn output_lines(outs: Seq<(usize, Seq<ChangeModel>)>, kinds: Seq<OutputKindModel>) -> Seq<LineModel>
    decreases outs.len(),
{
    if outs.len() == 0 {
        Seq::empty()
    } else {
        let p = outs.last();
        output_lines(outs.drop_last(), kinds) + changes_lines(kinds[p.0 as int], p.1)
    }
}

/// All lines of a verdict.
pub open spec fn verdict_lines(v: VerdictModel, shape: ShapeModel) -> Seq<LineModel> {
    header_lines(v, shape.0) + output_lines(v.outputs, shape.1)
}

/// Copies a value.
pub fn clone_value(v: &TypedValue) -> (r: TypedValue)
    ensures
        r@ == v@,
{
    match v {
        TypedValue::Unsigned(u) => TypedValue::Unsigned(*u),
        TypedValue::Signed(s) => TypedValue::Signed(*s),
        TypedValue::Float(b) => TypedValue::Float(*b),
        TypedValue::Bool(b) => TypedValue::Bool(*b),
        TypedValue::Str(s) => TypedValue::Str(s.clone()),
        TypedValue::Other(s) => TypedValue::Other(s.clone()),
    }
}

/// Copies a sequence of values.
pub fn clone_values(vs: &Vec<TypedValue>) -> (r: Vec<TypedValue>)
    ensures
        values_model(r@) == values_model(vs@),
{
    let mut r: Vec<TypedValue> = Vec::new();
    let mut i: usize = 0;
    while i < vs.len()
        invariant
            i <= vs@.len(),
            r@.len() == i,
            forall|j: int| 0 <= j < i ==> (#[trigger] r@[j])@ == vs@[j]@,
        decreases vs@.len() - i,
    {
        r.push(clone_value(&vs[i]));
        i = i + 1;
    }
    assert(values_model(r@) =~= values_model(vs@));
    r
}

/// Appends the lines of one change.
fn push_change_lines(lines: &mut Vec<LineBody>, kind: &OutputKind, c: &Change)
    ensures
        lines_model(final(lines)@) == lines_model(old(lines)@) + change_lines(kind@, c@),
{
    let ghost before = lines@;
    match (kind, c) {
        (OutputKind::NamedOutput(_), Change::Spawn(p)) => {
            lines.push(LineBody::Spawn(clone_output_kind(kind), clone_values(p)));
        },
        (OutputKind::NamedOutput(_), Change::Value(_, x)) => {
            lines.push(LineBody::OutputValue(clone_output_kind(kind), format_value(x, DEFAULT_THRESHOLD)));
        },
        (OutputKind::NamedOutput(_), Change::Close(p)) => {
            lines.push(LineBody::Close(clone_output_kind(kind), clone_values(p)));
        },
        (OutputKind::Trigger(_), Change::Value(_, x)) => {
            lines.push(LineBody::TriggerFired(clone_output_kind(kind), clone_value(x)));
        },
        (OutputKind::Trigger(_), _) => {},
    }
    assert(lines_model(lines@) =~= lines_model(before) + change_lines(kind@, c@));
}

/// Formats a verdict into its lines, all under the prefix of time `nanos`.
/// The verdict must name only streams of the shape.
pub fn format_verdict(v: &Verdict, shape: &SpecShape, nanos: u64) -> (r: FormattedVerdict)
    requires
        verdict_fits(v@, shape@),
    ensures
        r.time@ == timestamp_text(nanos),
        lines_model(r.lines@) == verdict_lines(v@, shape@),
{
    let mut lines: Vec<LineBody> = Vec::new();
    match v.kind {
        VerdictKind::Timed => {
            lines.push(LineBody::DeadlineReached);
        },
        VerdictKind::Event => {
            lines.push(LineBody::NewEvent);
            let mut i: usize = 0;
            while i < v.inputs.len()
                invariant
                    i <= v.inputs@.len(),
                    v@.kind == VerdictKind::Event,
                    verdict_fits(v@, shape@),
                    lines_model(lines@) == seq![LineModel::NewEvent] + input_lines(
                        v@.inputs.subrange(0, i as int),
                        shape@.0,
                    ),
                decreases v.inputs@.len() - i,
            {
                let (idx, val) = &v.inputs[i];
                assert(v@.inputs[i as int].0 < shape@.0.len());
                let ghost before = lines@;
                let line = LineBody::Input(shape.input_names[*idx].clone(), format_value(val, DEFAULT_THRESHOLD));
                assert(line@ == LineModel::Input(shape@.0[v@.inputs[i as int].0 as int], number_text(v@.inputs[i as int].1, DEFAULT_THRESHOLD)));
                lines.push(line);
                assert(lines_model(lines@) =~= lines_model(before).push(line@));
                assert(v@.inputs.subrange(0, i + 1).drop_last() =~= v@.inputs.subrange(0, i as int));
                assert(v@.inputs.subrange(0, i + 1).last() == v@.inputs[i as int]);
                i = i + 1;
                assert(lines_model(lines@) =~= seq![LineModel::NewEvent] + input_lines(
                    v@.inputs.subrange(0, i as int),
                    shape@.0,
                ));
            }
            assert(v@.inputs.subrange(0, v@.inputs.len() as int) =~= v@.inputs);
        },
    }
    assert(lines_model(lines@) == header_lines(v@, shape@.0));
    let mut o: usize = 0;
    while o < v.outputs.len()
        invariant
            o <= v.outputs@.len(),
            verdict_fits(v@, shape@),
            lines_model(lines@) == header_lines(v@, shape@.0) + output_lines(
                v@.outputs.subrange(0, o as int),
                shape@.1,
            ),
        decreases v.outputs@.len() - o,
    {
        let (idx, changes) = &v.outputs[o];
        assert(v@.outputs[o as int].0 < shape@.1.len());
        let kind = &shape.outputs[*idx];
        let ghost start = lines_model(lines@);
        let ghost cs = v@.outputs[o as int].1;
        let mut c: usize = 0;
        while c < changes.len()
            invariant
                c <= changes@.len(),
                cs == changes@.map_values(|x: Change| x@),
                o < v@.outputs.len(),
                v@.outputs[o as int].0 < shape@.1.len(),
                kind@ == shape@.1[v@.outputs[o as int].0 as int],
                lines_model(lines@) == start + changes_lines(kind@, cs.subrange(0, c as int)),
            decreases changes@.len() - c,
        {
            push_change_lines(&mut lines, kind, &changes[c]);
            assert(cs.subrange(0, c + 1).drop_last() =~= cs.subrange(0, c as int));
            c = c + 1;
            assert(lines_model(lines@) =~= start + changes_lines(kind@, cs.subrange(0, c as int)));
        }
        assert(cs.subrange(0, cs.len() as int) =~= cs);
        assert(v@.outputs.subrange(0, o + 1).drop_last() =~= v@.outputs.subrange(0, o as int));
        o = o + 1;
        assert(lines_model(lines@) =~= header_lines(v@, shape@.0) + output_lines(
            v@.outputs.subrange(0, o as int),
            shape@.1,
        ));
    }
    assert(v@.outputs.subrange(0, v@.outputs.len() as int) =~= v@.outputs);
    FormattedVerdict { time: format_timestamp(nanos), lines }
}

} // verus!
