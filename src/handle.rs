use vstd::prelude::*;
use crate::monitor::{
    complete_spec, completes_as, prepare_spec, ConstructionError, MonitorError, PendingEvent, Phase, ReceiveOutcome,
    RtlolaMonitor,
};
use crate::shape::SpecShape;
use crate::value::{all_marshal, first_failure, marshal_input_spec, marshal_inputs, RTLolaInput};
use crate::verdict::{values_model, FormattedVerdict};

verus! {

/// The single owner of one monitor, as handed to a foreign caller. Once
/// freed it holds nothing, and every call on it is refused.
pub struct RTLolaMonitorHandle {
    inner: Option<RtlolaMonitor>,
}

/// The model of the values that a batch of foreign inputs marshals to.
pub open spec fn marshaled_values(inputs: Seq<RTLolaInput>) -> Seq<crate::value::ValueModel>
    recommends
        all_marshal(inputs),
{
    inputs.map_values(|i: RTLolaInput| marshal_input_spec(&i)->Ok_0)
}

impl RTLolaMonitorHandle {
    /// Whether the handle still owns its monitor.
    pub closed spec fn is_live(&self) -> bool {
        self.inner is Some
    }

    /// The monitor that a live handle owns.
    pub closed spec fn monitor(&self) -> RtlolaMonitor
        recommends
            self.is_live(),
    {
        self.inner->Some_0
    }

    /// Whether the handle still owns its monitor.
    pub fn live(&self) -> (r: bool)
        ensures
            r == self.is_live(),
    {
        self.inner.is_some()
    }

    /// The number of declared inputs, or `None` once freed.
    pub fn input_count(&self) -> (r: Option<usize>)
        ensures
            self.is_live() ==> r == Some(self.monitor().names_view().len() as usize),
            !self.is_live() ==> r is None,
    {
        match &self.inner {
            Some(m) => Some(m.input_count()),
            None => None,
        }
    }

    /// The phase of the handle's monitor, or `None` once freed.
    pub fn phase(&self) -> (r: Option<Phase>)
        ensures
            self.is_live() ==> r == Some(self.monitor().phase_view()),
            !self.is_live() ==> r is None,
    {
        match &self.inner {
            Some(m) => Some(m.phase()),
            None => None,
        }
    }

    /// The verdict timeout in milliseconds, or `None` once freed.
    pub fn timeout_ms(&self) -> (r: Option<u64>)
        ensures
            self.is_live() ==> r == Some(self.monitor().timeout_view()),
            !self.is_live() ==> r is None,
    {
        match &self.inner {
            Some(m) => Some(m.timeout_ms()),
            None => None,
        }
    }
}

/// Creates a handle from the outcome of parsing a specification (its
/// shape, or the parser's diagnostic) and the declared input names. It
/// fails as [`RtlolaMonitor::new`] does.
pub fn rtlola_monitor_new(parsed: Result<SpecShape, String>, timeout_ms: u64, input_names: &Vec<String>) -> (r: Result<
    RTLolaMonitorHandle,
    ConstructionError,
>)
    ensures
        match parsed {
            Err(d) => r matches Err(ConstructionError::SpecParseError(e)) && e@ == d@,
            Ok(sh) => if sh.input_names@.len() != input_names@.len() {
                r matches Err(ConstructionError::InputArityMismatch { spec_inputs, names })
                    && spec_inputs == sh.input_names@.len() && names == input_names@.len()
            } else {
                r matches Ok(h) && h.is_live() && h.monitor().phase_view() == Phase::Constructed
                    && h.monitor().timeout_view() == timeout_ms && h.monitor().names_view()
                    == input_names@.map_values(|n: String| n@) && h.monitor().shape_view() == sh@
            },
        },
{
    match RtlolaMonitor::new(parsed, timeout_ms, input_names) {
        Ok(m) => Ok(RTLolaMonitorHandle { inner: Some(m) }),
        Err(e) => Err(e),
    }
}

/// Marks the handle's monitor as running; `false` once freed or once the
/// monitor is cut off from its engine.
pub fn rtlola_monitor_start(handle: &mut RTLolaMonitorHandle) -> (r: bool)
    ensures
        final(handle).is_live() == old(handle).is_live(),
        !old(handle).is_live() ==> !r,
        old(handle).is_live() ==> (r <==> old(handle).monitor().phase_view() != Phase::Disconnected),
        r ==> final(handle).monitor().phase_view() == Phase::Running,
        old(handle).is_live() ==> final(handle).monitor().names_view() == old(handle).monitor().names_view()
            && final(handle).monitor().shape_view() == old(handle).monitor().shape_view(),
{
    match &mut handle.inner {
        Some(m) => m.start().is_ok(),
        None => false,
    }
}

/// Checks a batch of foreign inputs before anything reaches the engine.
/// Refused once freed or cut off; a batch whose length differs from the
/// declared input count is rejected whatever it holds; then each input is
/// marshaled in order, and the first failure is reported. An accepted
/// batch is stamped with the caller's time if given, else with `elapsed`.
pub fn rtlola_process_inputs(
    handle: &RTLolaMonitorHandle,
    inputs: &Vec<RTLolaInput>,
    time: Option<u64>,
    elapsed: u64,
) -> (r: Result<PendingEvent, MonitorError>)
    ensures
        !handle.is_live() ==> r matches Err(MonitorError::Freed),
        handle.is_live() && handle.monitor().phase_view() == Phase::Disconnected ==> r matches Err(
            MonitorError::Disconnected,
        ),
        handle.is_live() && handle.monitor().phase_view() != Phase::Disconnected && inputs@.len()
            != handle.monitor().names_view().len() ==> r matches Err(MonitorError::ArityMismatch),
        handle.is_live() && handle.monitor().phase_view() != Phase::Disconnected && inputs@.len()
            == handle.monitor().names_view().len() && !all_marshal(inputs@) ==> (r matches Err(
            MonitorError::Marshal(e),
        ) && exists|i: int|
            first_failure(inputs@, i) && marshal_input_spec(&inputs@[i]) == Err::<
                crate::value::ValueModel,
                crate::value::MarshalError,
            >(e)),
        handle.is_live() && handle.monitor().phase_view() != Phase::Disconnected && inputs@.len()
            == handle.monitor().names_view().len() && all_marshal(inputs@) ==> (r matches Ok(p)
            && prepare_spec(
            handle.monitor().names_view().len(),
            marshaled_values(inputs@),
            time,
            elapsed,
        ) == Some((values_model(p.values@), p.time))),
{
    let m = match &handle.inner {
        Some(m) => m,
        None => return Err(MonitorError::Freed),
    };
    if m.phase() == Phase::Disconnected {
        return Err(MonitorError::Disconnected);
    }
    if inputs.len() != m.input_count() {
        return Err(MonitorError::ArityMismatch);
    }
    match marshal_inputs(inputs) {
        Err(e) => Err(MonitorError::Marshal(e)),
        Ok(values) => {
            assert(values_model(values@) =~= marshaled_values(inputs@));
            m.process_event(values, time, elapsed)
        },
    }
}

/// Hands the engine's answer to an event at time `nanos` to the handle's
/// monitor (see [`RtlolaMonitor::process_event_verdict`]); refused once
/// freed.
pub fn rtlola_receive_verdict(handle: &mut RTLolaMonitorHandle, nanos: u64, outcome: ReceiveOutcome) -> (r: Result<
    FormattedVerdict,
    MonitorError,
>)
    ensures
        final(handle).is_live() == old(handle).is_live(),
        !old(handle).is_live() ==> r matches Err(MonitorError::Freed),
        old(handle).is_live() ==> completes_as(
            r,
            complete_spec(old(handle).monitor().shape_view(), outcome@),
            nanos,
        ),
        old(handle).is_live() ==> final(handle).monitor().phase_view() == (if outcome@ is Disconnected {
            Phase::Disconnected
        } else {
            old(handle).monitor().phase_view()
        }),
{
    match &mut handle.inner {
        Some(m) => m.process_event_verdict(nanos, outcome),
        None => Err(MonitorError::Freed),
    }
}

/// Releases the handle's monitor. Freeing a freed handle does nothing.
pub fn rtlola_monitor_free(handle: &mut RTLolaMonitorHandle)
    ensures
        !final(handle).is_live(),
{
    handle.inner = None;
}

} // verus!
