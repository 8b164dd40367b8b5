use w_boson::capture::capture_prefix;
use w_boson::fault::{classify_fault, fault_response, FaultDisposition, STACK_OVERFLOW_CODE};
use w_boson::symbol::SymbolRecord;

#[test]
fn stack_overflow_code_is_the_documented_value() {
    assert_eq!(STACK_OVERFLOW_CODE, 0xC00000FD);
}

#[test]
fn non_stack_overflow_faults_pass_through_with_no_output() {
    // An access-violation code, and a few arbitrary others.
    for code in [0xC0000005u32, 0, 1, 0xC00000FE, 0x80000003] {
        assert_eq!(classify_fault(code), FaultDisposition::ContinueSearch);
        let records = vec![SymbolRecord::unresolved()];
        assert!(fault_response(code, &records).is_none());
    }
}

#[test]
fn stack_overflow_fault_emits_report_with_header() {
    assert_eq!(classify_fault(STACK_OVERFLOW_CODE), FaultDisposition::EmitAndAbort);
    let records = vec![SymbolRecord::unresolved(), SymbolRecord::unresolved()];
    let out = fault_response(STACK_OVERFLOW_CODE, &records);
    let report = out.expect("stack overflow must produce a report");
    assert!(report.starts_with("Stack Overflow:\n"));
    assert_eq!(report, "Stack Overflow:\n0: <unknown>\n1: <unknown>\n");
}

#[test]
fn capture_returns_min_of_depth_and_maximum() {
    let stack: Vec<u64> = vec![0x1000, 0x2000, 0x3000, 0x4000, 0x5000];
    assert_eq!(capture_prefix(&stack, 0), Vec::<u64>::new());
    assert_eq!(capture_prefix(&stack, 3), vec![0x1000, 0x2000, 0x3000]);
    assert_eq!(capture_prefix(&stack, 5), stack);
    assert_eq!(capture_prefix(&stack, 9), stack);
    let empty: Vec<u64> = Vec::new();
    assert_eq!(capture_prefix(&empty, 4), Vec::<u64>::new());
}

#[test]
fn ordering_scenario_innermost_first() {
    // A controlled call chain main -> f -> g -> h where h faults: the
    // captured stack holds h innermost, and the report lists h before g
    // before f before main.
    let chain: Vec<u64> = vec![0x4004, 0x3003, 0x2002, 0x1001];
    let captured = capture_prefix(&chain, 10);
    assert_eq!(captured, chain);
    let names = ["h", "g", "f", "main"];
    let records: Vec<SymbolRecord> = names
        .iter()
        .map(|n| SymbolRecord { name: Some(String::from(*n)), location: None })
        .collect();
    let report = fault_response(STACK_OVERFLOW_CODE, &records).unwrap();
    assert_eq!(report, "Stack Overflow:\n0: h\n1: g\n2: f\n3: main\n");
}

#[test]
fn deep_chain_scenario_reports_every_captured_frame() {
    // The model of the runaway-recursion scenario: a deep synthetic chain,
    // captured under the handler's fixed maximum, reported frame by frame.
    let depth: usize = 100;
    let stack: Vec<u64> = (0..depth as u64).map(|i| 0x10000 + 16 * i).collect();
    let captured = capture_prefix(&stack, 10000);
    assert_eq!(captured.len(), depth);
    let records: Vec<SymbolRecord> =
        captured.iter().map(|_| SymbolRecord::unresolved()).collect();
    let report = fault_response(STACK_OVERFLOW_CODE, &records).unwrap();
    assert!(report.starts_with("Stack Overflow:\n"));
    assert_eq!(report.lines().count(), 1 + depth);
    assert!(report.ends_with("99: <unknown>\n"));
}
