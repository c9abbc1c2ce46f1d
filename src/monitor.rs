use vstd::prelude::*;
use crate::number::{format_value, number_text, NumberText};
use crate::shape::{ShapeModel, SpecShape};
use crate::text::{decimal, push_decimal, push_text};
use crate::timing::{resolve_timestamp, resolve_timestamp_spec, timestamp_text};
use crate::value::{MarshalError, TypedValue, ValueModel};
use crate::verdict::{
    format_verdict, lines_model, values_model, verdict_fits, verdict_lines, FormattedVerdict,
    LineModel, Verdict, VerdictModel,
};

verus! {

/// Where a monitor stands: constructed, running, or cut off from its
/// engine for good.
#[derive(PartialEq, Eq, Structural, Clone, Copy, Debug)]
pub enum Phase {
    Constructed,
    Running,
    Disconnected,
}

/// Why a monitor could not be constructed.
#[derive(Clone, Debug)]
pub enum ConstructionError {
    /// The specification text does not parse or fails analysis; the
    /// parser's diagnostic.
    SpecParseError(String),
    /// The number of input names differs from the specification's inputs.
    InputArityMismatch { spec_inputs: usize, names: usize },
}

/// The text that explains a construction failure.
pub open spec fn construction_message(e: ConstructionError) -> Seq<char> {
    match e {
        ConstructionError::SpecParseError(d) => "Failed to parse specification: "@ + d@,
        ConstructionError::InputArityMismatch { spec_inputs, names } => "Spec requires "@ + decimal(
            spec_inputs as nat,
        ) + " inputs but "@ + decimal(names as nat) + " names provided"@,
    }
}

impl ConstructionError {
    /// The text that explains this failure (see [`construction_message`]).
    pub fn message(&self) -> (r: String)
        ensures
            r@ == construction_message(*self),
    {
        let mut r = String::new();
        match self {
            ConstructionError::SpecParseError(d) => {
                push_text(&mut r, "Failed to parse specification: ");
                push_text(&mut r, d.as_str());
            },
            ConstructionError::InputArityMismatch { spec_inputs, names } => {
                push_text(&mut r, "Spec requires ");
                push_decimal(&mut r, *spec_inputs as u64);
                push_text(&mut r, " inputs but ");
                push_decimal(&mut r, *names as u64);
                push_text(&mut r, " names provided");
            },
        }
        assert(r@ =~= construction_message(*self));
        r
    }
}

/// Why an operation on a monitor failed.
#[derive(Debug)]
pub enum MonitorError {
    /// The engine's worker has terminated; the monitor is unusable.
    Disconnected,
    /// The batch does not hold one value per declared input.
    ArityMismatch,
    /// An input could not be marshaled.
    Marshal(MarshalError),
    /// The engine refused the event, with its diagnostic.
    SubmitRejected(String),
    /// No verdict arrived within the timeout.
    Timeout,
    /// The engine's verdict names a stream that the specification lacks.
    MalformedVerdict,
    /// The handle was already freed.
    Freed,
}

/// What the engine answered after an event was handed to it.
#[derive(Clone, Debug)]
pub enum ReceiveOutcome {
    /// The engine refused the event, with its diagnostic.
    Rejected(String),
    /// A verdict arrived.
    Verdict(Verdict),
    /// No verdict arrived within the timeout.
    Timeout,
    /// The verdict channel is closed.
    Disconnected,
}

/// The mathematical model of a [`ReceiveOutcome`].
pub enum ReceiveModel {
    Rejected(Seq<char>),
    Verdict(VerdictModel),
    Timeout,
    Disconnected,
}

impl View for ReceiveOutcome {
    type V = ReceiveModel;

    open spec fn view(&self) -> ReceiveModel {
        match self {
            ReceiveOutcome::Rejected(m) => ReceiveModel::Rejected(m@),
            ReceiveOutcome::Verdict(v) => ReceiveModel::Verdict(v@),
            ReceiveOutcome::Timeout => ReceiveModel::Timeout,
            ReceiveOutcome::Disconnected => ReceiveModel::Disconnected,
        }
    }
}

/// What comes of an engine's answer.
pub enum CompletionModel {
    Lines(Seq<LineModel>),
    Rejected(Seq<char>),
    TimedOut,
    Disconnected,
    Malformed,
}

/// The answer to an event: the verdict's lines where the verdict fits the
/// specification, and otherwise the failure that the engine's answer shows.
pub open spec fn complete_spec(shape: ShapeModel, outcome: ReceiveModel) -> CompletionModel {
    match outcome {
        ReceiveModel::Rejected(m) => CompletionModel::Rejected(m),
        ReceiveModel::Verdict(v) => if verdict_fits(v, shape) {
            CompletionModel::Lines(verdict_lines(v, shape))
        } else {
            CompletionModel::Malformed
        },
        ReceiveModel::Timeout => CompletionModel::TimedOut,
        ReceiveModel::Disconnected => CompletionModel::Disconnected,
    }
}

/// Whether a result matches an answer's completion, its lines carrying the
/// prefix of time `nanos`.
pub open spec fn completes_as(r: Result<FormattedVerdict, MonitorError>, c: CompletionModel, nanos: u64) -> bool {
    match c {
        CompletionModel::Lines(ls) => r matches Ok(f) && lines_model(f.lines@) == ls && f.time@
            == timestamp_text(nanos),
        CompletionModel::Rejected(m) => r matches Err(MonitorError::SubmitRejected(s)) && s@ == m,
        CompletionModel::TimedOut => r matches Err(MonitorError::Timeout),
        CompletionModel::Disconnected => r matches Err(MonitorError::Disconnected),
        CompletionModel::Malformed => r matches Err(MonitorError::MalformedVerdict),
    }
}

/// An event that passed every check and is ready for the engine: one value
/// per input, in declaration order, and its logical time in nanoseconds.
#[derive(Clone, Debug)]
pub struct PendingEvent {
    pub values: Vec<TypedValue>,
    pub time: u64,
}

/// What a batch of values becomes before it reaches the engine: rejected
/// unless it holds exactly `count` values, and otherwise stamped with its
/// logical time.
pub open spec fn prepare_spec(count: nat, values: Seq<ValueModel>, explicit: Option<u64>, elapsed: u64) -> Option<
    (Seq<ValueModel>, u64),
> {
    if values.len() != count {
        None
    } else {
        Some((values, resolve_timestamp_spec(explicit, elapsed)))
    }
}

/// The adapter's side of one monitoring session: the specification's
/// shape, the declared input names (their index is their position), the
/// verdict timeout in milliseconds, and the phase.
pub struct RtlolaMonitor {
    shape: SpecShape,
    input_names: Vec<String>,
    timeout_ms: u64,
    phase: Phase,
}

impl RtlolaMonitor {
    /// The default threshold under which floats go to scientific notation.
    pub const DEFAULT_THRESHOLD: u64 = crate::number::DEFAULT_THRESHOLD;

    /// The shape of the monitored specification.
    pub closed spec fn shape_view(&self) -> ShapeModel {
        self.shape@
    }

    /// The declared input names.
    pub closed spec fn names_view(&self) -> Seq<Seq<char>> {
        self.input_names@.map_values(|n: String| n@)
    }

    /// The verdict timeout in milliseconds.
    pub closed spec fn timeout_view(&self) -> u64 {
        self.timeout_ms
    }

    /// The phase of the monitor.
    pub closed spec fn phase_view(&self) -> Phase {
        self.phase
    }

    /// Builds a monitor from the outcome of parsing its specification (the
    /// parsed shape, or the parser's diagnostic) and checks that the
    /// specification declares exactly as many inputs as names are given.
    /// The new monitor is constructed, not yet running.
    pub fn new(parsed: Result<SpecShape, String>, timeout_ms: u64, input_names: &Vec<String>) -> (r: Result<Self, ConstructionError>)
        ensures
            match parsed {
                Err(d) => r matches Err(ConstructionError::SpecParseError(e)) && e@ == d@,
                Ok(sh) => if sh.input_names@.len() != input_names@.len() {
                    r matches Err(ConstructionError::InputArityMismatch { spec_inputs, names })
                        && spec_inputs == sh.input_names@.len() && names == input_names@.len()
                } else {
                    r matches Ok(m) && m.shape_view() == sh@ && m.names_view() == input_names@.map_values(
                        |n: String| n@,
                    ) && m.timeout_view() == timeout_ms && m.phase_view() == Phase::Constructed
                },
            },
    {
        let shape = match parsed {
            Ok(s) => s,
            Err(d) => return Err(ConstructionError::SpecParseError(d)),
        };
        if shape.input_names.len() != input_names.len() {
            return Err(
                ConstructionError::InputArityMismatch {
                    spec_inputs: shape.input_names.len(),
                    names: input_names.len(),
                },
            );
        }
        let mut names: Vec<String> = Vec::new();
        let mut i: usize = 0;
        while i < input_names.len()
            invariant
                i <= input_names@.len(),
                names@.len() == i,
                forall|j: int| 0 <= j < i ==> (#[trigger] names@[j])@ == input_names@[j]@,
            decreases input_names@.len() - i,
        {
            names.push(input_names[i].clone());
            i = i + 1;
        }
        let m = RtlolaMonitor { shape, input_names: names, timeout_ms, phase: Phase::Constructed };
        assert(m.names_view() =~= input_names@.map_values(|n: String| n@));
        Ok(m)
    }

    /// The number of declared inputs.
    pub fn input_count(&self) -> (r: usize)
        ensures
            r == self.names_view().len(),
    {
        self.input_names.len()
    }

    /// The verdict timeout in milliseconds.
    pub fn timeout_ms(&self) -> (r: u64)
        ensures
            r == self.timeout_view(),
    {
        self.timeout_ms
    }

    /// The phase of the monitor.
    pub fn phase(&self) -> (r: Phase)
        ensures
            r == self.phase_view(),
    {
        self.phase
    }

    /// Marks the monitor as running. A monitor cut off from its engine
    /// stays so and reports it.
    pub fn start(&mut self) -> (r: Result<(), MonitorError>)
        ensures
            old(self).phase_view() == Phase::Disconnected ==> (r matches Err(MonitorError::Disconnected)
                && final(self).phase_view() == Phase::Disconnected),
            old(self).phase_view() != Phase::Disconnected ==> (r is Ok && final(self).phase_view()
                == Phase::Running),
            final(self).shape_view() == old(self).shape_view(),
            final(self).names_view() == old(self).names_view(),
            final(self).timeout_view() == old(self).timeout_view(),
    {
        if self.phase == Phase::Disconnected {
            Err(MonitorError::Disconnected)
        } else {
            self.phase = Phase::Running;
            Ok(())
        }
    }

    /// Checks a batch of values before it goes to the engine: a monitor cut
    /// off from its engine fails fast, a batch that does not hold one value
    /// per declared input is rejected, and an accepted batch is stamped
    /// with the caller's time if given, else with the elapsed time.
    pub fn process_event(&self, inputs: Vec<TypedValue>, current_time: Option<u64>, elapsed: u64) -> (r: Result<PendingEvent, MonitorError>)
        ensures
            self.phase_view() == Phase::Disconnected ==> r matches Err(MonitorError::Disconnected),
            self.phase_view() != Phase::Disconnected ==> match prepare_spec(
                self.names_view().len(),
                values_model(inputs@),
                current_time,
                elapsed,
            ) {
                None => r matches Err(MonitorError::ArityMismatch),
                Some((vs, t)) => r matches Ok(p) && values_model(p.values@) == vs && p.time == t,
            },
    {
        if self.phase == Phase::Disconnected {
            return Err(MonitorError::Disconnected);
        }
        if inputs.len() != self.input_names.len() {
            return Err(MonitorError::ArityMismatch);
        }
        Ok(PendingEvent { values: inputs, time: resolve_timestamp(current_time, elapsed) })
    }

    /// Turns the engine's answer to an event at time `nanos` into the
    /// verdict's lines or the matching failure. A closed channel cuts the
    /// monitor off from its engine for good.
    pub fn process_event_verdict(&mut self, nanos: u64, outcome: ReceiveOutcome) -> (r: Result<FormattedVerdict, MonitorError>)
        ensures
            completes_as(r, complete_spec(old(self).shape_view(), outcome@), nanos),
            final(self).phase_view() == (if outcome@ is Disconnected {
                Phase::Disconnected
            } else {
                old(self).phase_view()
            }),
            final(self).shape_view() == old(self).shape_view(),
            final(self).names_view() == old(self).names_view(),
            final(self).timeout_view() == old(self).timeout_view(),
    {
        match outcome {
            ReceiveOutcome::Rejected(m) => Err(MonitorError::SubmitRejected(m)),
            ReceiveOutcome::Timeout => Err(MonitorError::Timeout),
            ReceiveOutcome::Disconnected => {
                self.phase = Phase::Disconnected;
                Err(MonitorError::Disconnected)
            },
            ReceiveOutcome::Verdict(v) => {
                if verdict_fits_shape(&v, &self.shape) {
                    Ok(format_verdict(&v, &self.shape, nanos))
                } else {
                    Err(MonitorError::MalformedVerdict)
                }
            },
        }
    }

    /// Shows a value against a threshold given as a double's bit pattern.
    pub fn format_number(&self, val: &TypedValue, threshold: u64) -> (r: NumberText)
        ensures
            r@ == number_text(val@, threshold),
    {
        format_value(val, threshold)
    }
}

/// Whether every stream index of the verdict names a stream of the shape.
pub fn verdict_fits_shape(v: &Verdict, shape: &SpecShape) -> (r: bool)
    ensures
        r == verdict_fits(v@, shape@),
{
    let mut i: usize = 0;
    while i < v.inputs.len()
        invariant
            i <= v.inputs@.len(),
            forall|j: int| 0 <= j < i ==> (#[trigger] v@.inputs[j]).0 < shape@.0.len(),
        decreases v.inputs@.len() - i,
    {
        if v.inputs[i].0 >= shape.input_names.len() {
            assert(!(v@.inputs[i as int].0 < shape@.0.len()));
            return false;
        }
        i = i + 1;
    }
    let mut o: usize = 0;
    while o < v.outputs.len()
        invariant
            o <= v.outputs@.len(),
            forall|j: int| 0 <= j < v@.inputs.len() ==> (#[trigger] v@.inputs[j]).0 < shape@.0.len(),
            forall|j: int| 0 <= j < o ==> (#[trigger] v@.outputs[j]).0 < shape@.1.len(),
        decreases v.outputs@.len() - o,
    {
        if v.outputs[o].0 >= shape.outputs.len() {
            assert(!(v@.outputs[o as int].0 < shape@.1.len()));
            return false;
        }
        o = o + 1;
    }
    true
}

/// A batch with one value per declared input is never dropped: it reaches
/// the engine whole, and the engine's answer always becomes either the
/// verdict's lines or a named failure: a timeout, a closed channel, a
/// refusal, or a verdict that names unknown streams.
pub proof fn every_accepted_event_is_answered(
    count: nat,
    values: Seq<ValueModel>,
    explicit: Option<u64>,
    elapsed: u64,
    shape: ShapeModel,
    outcome: ReceiveModel,
)
    requires
        values.len() == count,
    ensures
        prepare_spec(count, values, explicit, elapsed) == Some(
            (values, resolve_timestamp_spec(explicit, elapsed)),
        ),
        complete_spec(shape, outcome) is Lines <==> (outcome matches ReceiveModel::Verdict(v)
            && verdict_fits(v, shape)),
        outcome is Verdict && verdict_fits(outcome->Verdict_0, shape) ==> complete_spec(shape, outcome)
            == CompletionModel::Lines(verdict_lines(outcome->Verdict_0, shape)),
        complete_spec(shape, outcome) is TimedOut <==> outcome is Timeout,
        complete_spec(shape, outcome) is Disconnected <==> outcome is Disconnected,
        complete_spec(shape, outcome) is Rejected <==> outcome is Rejected,
{
}

/// A batch whose length differs from the declared input count is rejected
/// before it reaches the engine, whatever it holds.
pub proof fn arity_mismatch_is_rejected(count: nat, values: Seq<ValueModel>, explicit: Option<u64>, elapsed: u64)
    requires
        values.len() != count,
    ensures
        prepare_spec(count, values, explicit, elapsed) is None,
{
}

/// With an explicit time, an event is stamped with that time however much
/// wall-clock time has passed, and two monitors of the same specification
/// format the same engine answer to the same lines.
pub proof fn explicit_time_is_deterministic(
    count: nat,
    values: Seq<ValueModel>,
    t: u64,
    elapsed1: u64,
    elapsed2: u64,
    shape1: ShapeModel,
    shape2: ShapeModel,
    outcome: ReceiveModel,
)
    requires
        values.len() == count,
        shape1 == shape2,
    ensures
        prepare_spec(count, values, Some(t), elapsed1) == prepare_spec(count, values, Some(t), elapsed2),
        prepare_spec(count, values, Some(t), elapsed1) == Some((values, t)),
        complete_spec(shape1, outcome) == complete_spec(shape2, outcome),
{
}

} // verus!
