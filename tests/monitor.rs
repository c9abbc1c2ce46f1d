use rtlola_ffi::handle::{
    rtlola_monitor_free, rtlola_monitor_new, rtlola_monitor_start, rtlola_process_inputs,
    rtlola_receive_verdict, RTLolaMonitorHandle,
};
use rtlola_ffi::monitor::{ConstructionError, MonitorError, Phase, ReceiveOutcome, RtlolaMonitor};
use rtlola_ffi::number::NumberText;
use rtlola_ffi::shape::{OutputKind, SpecShape};
use rtlola_ffi::value::{MarshalError, RTLolaInput, RTLolaValueData, TypedValue, TAG_FLOAT};
use rtlola_ffi::verdict::{Change, FormattedVerdict, LineBody, Verdict, VerdictKind};

fn ball() -> Result<SpecShape, String> {
    Ok(SpecShape {
        input_names: names(),
        outputs: vec![OutputKind::NamedOutput("energy".to_string()), OutputKind::Trigger(0)],
    })
}

fn names() -> Vec<String> {
    vec!["height".to_string(), "velocity".to_string(), "temperature".to_string()]
}

fn float_input(name: &str, f: f64) -> RTLolaInput {
    RTLolaInput { name: name.to_string(), type_: TAG_FLOAT, value: RTLolaValueData { word: f.to_bits(), text: vec![] } }
}

fn batch(h: f64, v: f64, t: f64) -> Vec<RTLolaInput> {
    vec![float_input("height", h), float_input("velocity", v), float_input("temperature", t)]
}

fn started() -> RTLolaMonitorHandle {
    let mut h = rtlola_monitor_new(ball(), 500, &names()).expect("the names match the specification");
    assert!(rtlola_monitor_start(&mut h));
    h
}

fn event_verdict(h: f64, v: f64, t: f64) -> Verdict {
    Verdict {
        kind: VerdictKind::Event,
        inputs: vec![
            (0, TypedValue::Float(h.to_bits())),
            (1, TypedValue::Float(v.to_bits())),
            (2, TypedValue::Float(t.to_bits())),
        ],
        outputs: vec![(0, vec![Change::Value(None, TypedValue::Float((h * v).to_bits()))])],
    }
}

fn show(t: &NumberText) -> String {
    match t {
        NumberText::Scientific(b) => format!("{:.6e}", f64::from_bits(*b)),
        NumberText::Negligible => "0.0".to_string(),
        NumberText::Fixed(b) => format!("{:.6}", f64::from_bits(*b)),
        NumberText::Plain(s) => s.clone(),
    }
}

fn render(f: &FormattedVerdict) -> Vec<String> {
    f.lines
        .iter()
        .map(|l| match l {
            LineBody::DeadlineReached => format!("{} deadline", f.time),
            LineBody::NewEvent => format!("{} event", f.time),
            LineBody::Input(n, v) => format!("{} {} = {}", f.time, n, show(v)),
            LineBody::Spawn(_, p) => format!("{} spawn {}", f.time, p.len()),
            LineBody::OutputValue(OutputKind::NamedOutput(n), v) => format!("{} {} = {}", f.time, n, show(v)),
            LineBody::OutputValue(OutputKind::Trigger(i), v) => format!("{} #{} = {}", f.time, i, show(v)),
            LineBody::TriggerFired(k, _) => format!("{} fired {:?}", f.time, matches!(k, OutputKind::Trigger(_))),
            LineBody::Close(_, p) => format!("{} close {}", f.time, p.len()),
        })
        .collect()
}

#[test]
fn construction_reads_the_specification() {
    let m = RtlolaMonitor::new(ball(), 250, &names()).unwrap();
    assert_eq!(m.input_count(), 3);
    assert_eq!(m.timeout_ms(), 250);
    assert_eq!(m.phase(), Phase::Constructed);
}

#[test]
fn unparsable_specification_is_refused() {
    let e = RtlolaMonitor::new(Err("unexpected token".to_string()), 10, &names()).err().unwrap();
    assert!(matches!(e, ConstructionError::SpecParseError(ref d) if d == "unexpected token"));
    assert_eq!(e.message(), "Failed to parse specification: unexpected token");
    assert!(rtlola_monitor_new(Err("x".to_string()), 10, &names()).is_err());
}

#[test]
fn name_count_must_match_specification() {
    let two = vec!["height".to_string(), "velocity".to_string()];
    let e = RtlolaMonitor::new(ball(), 10, &two).err().unwrap();
    assert!(matches!(e, ConstructionError::InputArityMismatch { spec_inputs: 3, names: 2 }));
    assert_eq!(e.message(), "Spec requires 3 inputs but 2 names provided");
    assert!(matches!(
        rtlola_monitor_new(ball(), 10, &two),
        Err(ConstructionError::InputArityMismatch { spec_inputs: 3, names: 2 })
    ));
}

#[test]
fn start_runs_the_monitor() {
    let mut m = RtlolaMonitor::new(ball(), 10, &names()).unwrap();
    assert!(m.start().is_ok());
    assert_eq!(m.phase(), Phase::Running);
    let h = started();
    assert_eq!(h.phase(), Some(Phase::Running));
}

#[test]
fn three_float_inputs_echo_in_declaration_order() {
    let mut h = started();
    let p = rtlola_process_inputs(&h, &batch(1.5, 2.5, 25.0), Some(0), 123_456).unwrap();
    assert_eq!(p.time, 0);
    assert_eq!(p.values.len(), 3);
    assert!(matches!(p.values[2], TypedValue::Float(b) if b == 25.0f64.to_bits()));
    let f = rtlola_receive_verdict(&mut h, p.time, ReceiveOutcome::Verdict(event_verdict(1.5, 2.5, 25.0))).unwrap();
    let lines = render(&f);
    assert_eq!(lines[0], "[0.000000s] event");
    assert_eq!(lines[1], "[0.000000s] height = 1.500000");
    assert_eq!(lines[2], "[0.000000s] velocity = 2.500000");
    assert_eq!(lines[3], "[0.000000s] temperature = 25.000000");
    assert_eq!(lines[4], "[0.000000s] energy = 3.750000");
    assert_eq!(lines.len(), 5);
}

#[test]
fn timed_verdict_has_no_input_echo() {
    let mut h = started();
    let v = Verdict { kind: VerdictKind::Timed, inputs: vec![], outputs: vec![] };
    let f = rtlola_receive_verdict(&mut h, 2_000_000_000, ReceiveOutcome::Verdict(v)).unwrap();
    assert_eq!(render(&f), vec!["[2.000000s] deadline".to_string()]);
}

#[test]
fn trigger_reports_firing_and_skips_lifecycle() {
    let mut h = started();
    let v = Verdict {
        kind: VerdictKind::Timed,
        inputs: vec![],
        outputs: vec![(
            1,
            vec![
                Change::Spawn(vec![]),
                Change::Value(None, TypedValue::Bool(true)),
                Change::Close(vec![]),
            ],
        )],
    };
    let f = rtlola_receive_verdict(&mut h, 0, ReceiveOutcome::Verdict(v)).unwrap();
    assert_eq!(f.lines.len(), 2);
    assert!(matches!(f.lines[1], LineBody::TriggerFired(OutputKind::Trigger(_), TypedValue::Bool(true))));
}

#[test]
fn named_stream_reports_spawn_value_close_in_order() {
    let mut h = started();
    let params = vec![TypedValue::Unsigned(4)];
    let v = Verdict {
        kind: VerdictKind::Timed,
        inputs: vec![],
        outputs: vec![(
            0,
            vec![
                Change::Spawn(params.clone()),
                Change::Value(Some(params.clone()), TypedValue::Float(5e-7f64.to_bits())),
                Change::Close(params),
            ],
        )],
    };
    let f = rtlola_receive_verdict(&mut h, 0, ReceiveOutcome::Verdict(v)).unwrap();
    assert_eq!(render(&f), vec![
        "[0.000000s] deadline".to_string(),
        "[0.000000s] spawn 1".to_string(),
        "[0.000000s] energy = 5.000000e-7".to_string(),
        "[0.000000s] close 1".to_string(),
    ]);
}

#[test]
fn wrong_batch_length_is_rejected_whatever_it_holds() {
    let h = started();
    for n in [0usize, 1, 2, 4, 9] {
        let inputs: Vec<RTLolaInput> = (0..n).map(|_| RTLolaInput {
            name: "bad".to_string(),
            type_: 77,
            value: RTLolaValueData { word: 0, text: vec![] },
        }).collect();
        assert!(matches!(rtlola_process_inputs(&h, &inputs, None, 0), Err(MonitorError::ArityMismatch)));
    }
}

#[test]
fn marshal_failure_in_batch_is_reported() {
    let h = started();
    let r = rtlola_process_inputs(&h, &batch(1.0, f64::NAN, 3.0), None, 0);
    assert!(matches!(r, Err(MonitorError::Marshal(MarshalError::InvalidFloat))));
}

#[test]
fn elapsed_time_is_used_without_explicit_time() {
    let h = started();
    let p = rtlola_process_inputs(&h, &batch(1.0, 2.0, 3.0), None, 42_000).unwrap();
    assert_eq!(p.time, 42_000);
}

#[test]
fn explicit_time_gives_identical_output_on_two_handles() {
    let mut a = started();
    let mut b = started();
    let pa = rtlola_process_inputs(&a, &batch(1.5, 2.5, 25.0), Some(3_000_000), 17).unwrap();
    let pb = rtlola_process_inputs(&b, &batch(1.5, 2.5, 25.0), Some(3_000_000), 9_999_999).unwrap();
    assert_eq!(pa.time, pb.time);
    let fa = rtlola_receive_verdict(&mut a, pa.time, ReceiveOutcome::Verdict(event_verdict(1.5, 2.5, 25.0))).unwrap();
    let fb = rtlola_receive_verdict(&mut b, pb.time, ReceiveOutcome::Verdict(event_verdict(1.5, 2.5, 25.0))).unwrap();
    assert_eq!(render(&fa), render(&fb));
}

#[test]
fn zero_timeout_reports_timeout() {
    let mut h = rtlola_monitor_new(ball(), 0, &names()).unwrap();
    assert!(rtlola_monitor_start(&mut h));
    let p = rtlola_process_inputs(&h, &batch(1.0, 2.0, 3.0), Some(0), 0).unwrap();
    assert!(matches!(rtlola_receive_verdict(&mut h, p.time, ReceiveOutcome::Timeout), Err(MonitorError::Timeout)));
    assert!(rtlola_process_inputs(&h, &batch(1.0, 2.0, 3.0), Some(1), 0).is_ok());
}

#[test]
fn refused_event_carries_engine_diagnostic() {
    let mut h = started();
    let r = rtlola_receive_verdict(&mut h, 0, ReceiveOutcome::Rejected("late event".to_string()));
    assert!(matches!(r, Err(MonitorError::SubmitRejected(ref s)) if s == "late event"));
}

#[test]
fn disconnect_is_fatal_for_the_handle() {
    let mut h = started();
    assert!(matches!(rtlola_receive_verdict(&mut h, 0, ReceiveOutcome::Disconnected), Err(MonitorError::Disconnected)));
    assert!(matches!(rtlola_process_inputs(&h, &batch(1.0, 2.0, 3.0), None, 0), Err(MonitorError::Disconnected)));
    assert!(!rtlola_monitor_start(&mut h));
}

#[test]
fn verdict_naming_unknown_stream_is_refused() {
    let mut h = started();
    let v = Verdict { kind: VerdictKind::Event, inputs: vec![(3, TypedValue::Bool(true))], outputs: vec![] };
    assert!(matches!(rtlola_receive_verdict(&mut h, 0, ReceiveOutcome::Verdict(v)), Err(MonitorError::MalformedVerdict)));
    let v = Verdict { kind: VerdictKind::Timed, inputs: vec![], outputs: vec![(2, vec![])] };
    assert!(matches!(rtlola_receive_verdict(&mut h, 0, ReceiveOutcome::Verdict(v)), Err(MonitorError::MalformedVerdict)));
}

#[test]
fn freed_handle_refuses_every_call() {
    let mut h = started();
    rtlola_monitor_free(&mut h);
    assert!(!h.live());
    assert!(!rtlola_monitor_start(&mut h));
    assert!(matches!(rtlola_process_inputs(&h, &batch(1.0, 2.0, 3.0), Some(0), 0), Err(MonitorError::Freed)));
    assert!(matches!(
        rtlola_receive_verdict(&mut h, 0, ReceiveOutcome::Verdict(event_verdict(1.0, 2.0, 3.0))),
        Err(MonitorError::Freed)
    ));
    assert_eq!(h.input_count(), None);
    assert_eq!(h.phase(), None);
    rtlola_monitor_free(&mut h);
    assert!(!h.live());
}
