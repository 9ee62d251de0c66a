use intel_pstate::codec::{parse_field, render_flag, render_pct, ParseFault};
use intel_pstate::session::{ReadProgress, WriteProgress};
use intel_pstate::{complete_write, Field, FieldValue, IoFault, PState, PStateError, PStateValues};

fn handle() -> PState {
    match PState::new(true) {
        Ok(p) => p,
        Err(_) => panic!("handle"),
    }
}

#[test]
fn new_present_yields_handle() {
    let p = handle();
    assert_eq!(p.path(), "/sys/devices/system/cpu/intel_pstate");
}

#[test]
fn new_absent_yields_not_found() {
    assert!(matches!(PState::new(false), Err(PStateError::NotFound)));
}

#[test]
fn file_names() {
    assert_eq!(Field::MinPerfPct.file_name(), "min_perf_pct");
    assert_eq!(Field::MaxPerfPct.file_name(), "max_perf_pct");
    assert_eq!(Field::NoTurbo.file_name(), "no_turbo");
}

#[test]
fn default_values() {
    let v = PStateValues::default();
    assert_eq!(v.min_perf_pct, 0);
    assert_eq!(v.max_perf_pct, 100);
    assert!(!v.no_turbo);
}

#[test]
fn new_values() {
    let v = PStateValues::new(10, 90, true);
    assert_eq!(v.min_perf_pct, 10);
    assert_eq!(v.max_perf_pct, 90);
    assert!(v.no_turbo);
}

#[test]
fn min_perf_pct_parses_trimmed_content() {
    let p = handle();
    assert_eq!(p.min_perf_pct(Ok(b"42\n".to_vec())).unwrap(), 42);
    assert_eq!(p.min_perf_pct(Ok(b" 100 \t\n".to_vec())).unwrap(), 100);
    assert_eq!(p.min_perf_pct(Ok(b"0".to_vec())).unwrap(), 0);
    assert_eq!(p.min_perf_pct(Ok(b"255".to_vec())).unwrap(), 255);
    assert_eq!(p.min_perf_pct(Ok(b"+5".to_vec())).unwrap(), 5);
    assert_eq!(p.min_perf_pct(Ok(b"-0".to_vec())).unwrap(), 0);
}

#[test]
fn max_perf_pct_parses_and_wraps_its_own_error() {
    let p = handle();
    assert_eq!(p.max_perf_pct(Ok(b"88\n".to_vec())).unwrap(), 88);
    let r = p.max_perf_pct(Err(IoFault::Os(String::from("permission denied"))));
    match r {
        Err(PStateError::GetMaxPerf(IoFault::Os(m))) => assert_eq!(m, "permission denied"),
        _ => panic!("wrong error"),
    }
}

#[test]
fn no_turbo_true_for_any_nonzero() {
    let p = handle();
    assert_eq!(p.no_turbo(Ok(b"0\n".to_vec())).unwrap(), false);
    assert_eq!(p.no_turbo(Ok(b"1\n".to_vec())).unwrap(), true);
    assert_eq!(p.no_turbo(Ok(b"2".to_vec())).unwrap(), true);
    assert_eq!(p.no_turbo(Ok(b"255".to_vec())).unwrap(), true);
    assert!(matches!(
        p.no_turbo(Err(IoFault::Os(String::from("gone")))),
        Err(PStateError::GetNoTurbo(IoFault::Os(_)))
    ));
}

#[test]
fn malformed_content_is_a_data_fault() {
    let p = handle();
    assert!(matches!(
        p.min_perf_pct(Ok(b"abc\n".to_vec())),
        Err(PStateError::GetMinPerf(IoFault::Data(ParseFault::InvalidDigit)))
    ));
    assert!(matches!(
        p.min_perf_pct(Ok(b"".to_vec())),
        Err(PStateError::GetMinPerf(IoFault::Data(ParseFault::Empty)))
    ));
    assert!(matches!(
        p.min_perf_pct(Ok(b"  \t\n".to_vec())),
        Err(PStateError::GetMinPerf(IoFault::Data(ParseFault::Empty)))
    ));
    assert!(matches!(
        p.min_perf_pct(Ok(b"256".to_vec())),
        Err(PStateError::GetMinPerf(IoFault::Data(ParseFault::PosOverflow)))
    ));
    assert!(matches!(
        p.min_perf_pct(Ok(b"+".to_vec())),
        Err(PStateError::GetMinPerf(IoFault::Data(ParseFault::InvalidDigit)))
    ));
    assert!(matches!(
        p.min_perf_pct(Ok(b"-1".to_vec())),
        Err(PStateError::GetMinPerf(IoFault::Data(ParseFault::NegOverflow)))
    ));
    assert!(matches!(
        p.min_perf_pct(Ok(b"4 2".to_vec())),
        Err(PStateError::GetMinPerf(IoFault::Data(ParseFault::InvalidDigit)))
    ));
}

#[test]
fn fault_messages() {
    assert_eq!(ParseFault::Empty.message(), "cannot parse integer from empty string");
    assert_eq!(ParseFault::InvalidDigit.message(), "invalid digit found in string");
    assert_eq!(ParseFault::PosOverflow.message(), "number too large to fit in target type");
    assert_eq!(ParseFault::NegOverflow.message(), "number too small to fit in target type");
    assert_eq!(IoFault::Data(ParseFault::Empty).message(), "cannot parse integer from empty string");
    assert_eq!(IoFault::Os(String::from("no such file")).message(), "no such file");
}

#[test]
fn set_no_turbo_stages_one_byte() {
    let p = handle();
    let req = p.set_no_turbo(true);
    assert_eq!(req.field, Field::NoTurbo);
    assert_eq!(req.value, FieldValue::Flag(true));
    assert_eq!(req.data, b"1".to_vec());
    let req = p.set_no_turbo(false);
    assert_eq!(req.data, b"0".to_vec());
}

#[test]
fn setters_stage_decimal_text() {
    let p = handle();
    assert_eq!(p.set_min_perf_pct(0).data, b"0".to_vec());
    assert_eq!(p.set_min_perf_pct(7).data, b"7".to_vec());
    assert_eq!(p.set_min_perf_pct(50).data, b"50".to_vec());
    assert_eq!(p.set_max_perf_pct(100).data, b"100".to_vec());
    assert_eq!(p.set_max_perf_pct(255).data, b"255".to_vec());
    assert_eq!(p.set_min_perf_pct(50).field, Field::MinPerfPct);
    assert_eq!(p.set_max_perf_pct(100).field, Field::MaxPerfPct);
}

#[test]
fn complete_write_keeps_success_and_wraps_failure() {
    let p = handle();
    let req = p.set_min_perf_pct(42);
    assert!(complete_write(&req, Ok(())).is_ok());
    match complete_write(&req, Err(IoFault::Os(String::from("denied")))) {
        Err(PStateError::SetMinPerf(42, IoFault::Os(m))) => assert_eq!(m, "denied"),
        _ => panic!("wrong error"),
    }
    let req = p.set_no_turbo(true);
    assert!(matches!(
        complete_write(&req, Err(IoFault::Os(String::from("denied")))),
        Err(PStateError::SetNoTurbo(true, IoFault::Os(_)))
    ));
}

#[test]
fn round_trip_every_percentage() {
    let p = handle();
    let mut v: u16 = 0;
    while v <= 255 {
        let req = p.set_min_perf_pct(v as u8);
        assert_eq!(p.min_perf_pct(Ok(req.data)).unwrap(), v as u8);
        let req = p.set_max_perf_pct(v as u8);
        assert_eq!(p.max_perf_pct(Ok(req.data)).unwrap(), v as u8);
        v += 1;
    }
}

#[test]
fn round_trip_flag() {
    let p = handle();
    for b in [false, true] {
        let req = p.set_no_turbo(b);
        assert_eq!(p.no_turbo(Ok(req.data)).unwrap(), b);
    }
}

#[test]
fn parse_and_render_directly() {
    assert_eq!(parse_field(&b" 42\n".to_vec()).unwrap(), 42);
    assert_eq!(parse_field(&b"007".to_vec()).unwrap(), 7);
    assert_eq!(parse_field(&b"+100".to_vec()).unwrap(), 100);
    assert_eq!(parse_field(&b"-000".to_vec()).unwrap(), 0);
    assert!(matches!(parse_field(&b"x".to_vec()), Err(ParseFault::InvalidDigit)));
    assert!(matches!(parse_field(&vec![0xFFu8]), Err(ParseFault::InvalidDigit)));
    assert!(matches!(parse_field(&b"999".to_vec()), Err(ParseFault::PosOverflow)));
    assert!(matches!(parse_field(&b"-".to_vec()), Err(ParseFault::InvalidDigit)));
    assert_eq!(render_pct(207), b"207".to_vec());
    assert_eq!(render_flag(true), b"1".to_vec());
    assert_eq!(render_flag(false), b"0".to_vec());
}

#[test]
fn values_reads_in_order_and_assembles() {
    let p = handle();
    let st = p.values();
    assert_eq!(st.pending(), Some(Field::MinPerfPct));
    let st = st.step(Ok(b"1\n".to_vec()));
    assert_eq!(st.pending(), Some(Field::MaxPerfPct));
    let st = st.step(Ok(b"88\n".to_vec()));
    assert_eq!(st.pending(), Some(Field::NoTurbo));
    let st = st.step(Ok(b"1\n".to_vec()));
    assert_eq!(st.pending(), None);
    let v = st.finish().unwrap();
    assert_eq!(v, PStateValues { min_perf_pct: 1, max_perf_pct: 88, no_turbo: true });
}

#[test]
fn values_aborts_on_first_failing_getter() {
    let p = handle();
    let st = p.values();
    let st = st.step(Ok(b"1\n".to_vec()));
    let st = st.step(Err(IoFault::Os(String::from("vanished"))));
    assert_eq!(st.pending(), None);
    assert!(matches!(st.finish(), Err(PStateError::GetMaxPerf(IoFault::Os(_)))));
}

#[test]
fn values_aborts_on_malformed_content() {
    let p = handle();
    let st = p.values();
    let st = st.step(Ok(b"oops".to_vec()));
    assert_eq!(st.pending(), None);
    assert!(matches!(
        st.finish(),
        Err(PStateError::GetMinPerf(IoFault::Data(ParseFault::InvalidDigit)))
    ));
}

#[test]
fn set_values_writes_in_order() {
    let p = handle();
    let st = p.set_values(PStateValues::new(10, 90, false));
    let req = st.pending().unwrap();
    assert_eq!(req.field, Field::MinPerfPct);
    assert_eq!(req.data, b"10".to_vec());
    let st = st.step(Ok(()));
    let req = st.pending().unwrap();
    assert_eq!(req.field, Field::MaxPerfPct);
    assert_eq!(req.data, b"90".to_vec());
    let st = st.step(Ok(()));
    let req = st.pending().unwrap();
    assert_eq!(req.field, Field::NoTurbo);
    assert_eq!(req.data, b"0".to_vec());
    let st = st.step(Ok(()));
    assert!(st.pending().is_none());
    assert!(st.finish().is_ok());
}

#[test]
fn set_values_short_circuits_on_max_failure() {
    let p = handle();
    let st = p.set_values(PStateValues::new(10, 90, true));
    let st = st.step(Ok(()));
    let st = st.step(Err(IoFault::Os(String::from("denied"))));
    // the min write stood, the turbo flag was never staged
    assert!(st.pending().is_none());
    match st.finish() {
        Err(PStateError::SetMaxPerf(90, IoFault::Os(m))) => assert_eq!(m, "denied"),
        _ => panic!("wrong error"),
    }
}
