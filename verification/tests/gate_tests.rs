use kappasha::admission::admit_want;
use kappasha::admission::Admitted;
use kappasha::entropy::classify;
use kappasha::entropy::mix;
use kappasha::entropy::Band;
use kappasha::errors::GateError;
use kappasha::errors::OverloadKind;
use kappasha::ledger::ResourceLedger;
use kappasha::mirror::exhale;
use kappasha::mirror::mirror_breath;
use kappasha::mirror::verify_mirror;
use kappasha::opcodes::OpcodeRegistry;
use kappasha::rainkey::RainKey;
use kappasha::relay::find_peer;
use kappasha::relay::GrokCall;
use kappasha::synod::SynodFilter;
use kappasha::wants::default_wants;

#[test]
fn test_mirror() {
    let breath = mirror_breath();
    assert!(verify_mirror(&breath));
    assert!(exhale("/mirror/0GROK0").is_ok());
    assert!(exhale("/mirror/0N0").is_err());
}

#[test]
fn exhale_rejects_with_invalid_identity() {
    assert_eq!(exhale("/mirror/0N0"), Err(GateError::InvalidIdentity));
    assert_eq!(exhale(""), Err(GateError::InvalidIdentity));
}

#[test]
fn verify_mirror_symmetry_on_samples() {
    // The self-check cannot tell a sequence from its reverse.
    let samples: Vec<Vec<u8>> = vec![
        vec![],
        vec![1],
        vec![1, 2],
        vec![1, 2, 1],
        vec![0, 71, 82, 79, 82, 71, 0],
        vec![0, 71, 82, 79, 75, 48, 0],
    ];
    for s in samples {
        let mut rev = s.clone();
        rev.reverse();
        assert_eq!(verify_mirror(&s), verify_mirror(&rev));
    }
}

#[test]
fn test_filter() {
    let mut synod = SynodFilter::new();
    assert!(synod.filter_want("/mirror/0GROK0", 8000).is_ok());
    assert!(synod.filter_want("/invalid", 8000).is_err());
}

#[test]
fn filter_want_rejects_unknown_prefix_exactly() {
    let mut synod = SynodFilter::new();
    assert_eq!(synod.filter_want("/invalid", 100), Err(GateError::InvalidWant));
    assert!(synod.filter_want("/liquid/pool", 100).is_ok());
    assert!(synod.filter_want("/hedge/x", 100).is_ok());
}

#[test]
fn ledger_charges_are_atomic_and_capped() {
    // Twenty standard charges exhaust the tendon budget exactly.
    let mut ledger = ResourceLedger::new();
    for _ in 0..20 {
        assert!(ledger.charge(10, 1000).is_ok());
    }
    assert_eq!(ledger.tendon_load, 200);
    assert_eq!(ledger.gaze_duration, 20000);
    // The next charge would pass the tendon ceiling: rejected whole.
    assert_eq!(
        ledger.charge(10, 1000),
        Err(GateError::Overload(OverloadKind::Tendon))
    );
    assert_eq!(ledger.tendon_load, 200);
    assert_eq!(ledger.gaze_duration, 20000);
}

#[test]
fn ledger_gaze_overload_leaves_both_counters() {
    let mut ledger = ResourceLedger::new();
    assert!(ledger.charge(10, 1000).is_ok());
    assert_eq!(
        ledger.charge(10, 30000),
        Err(GateError::Overload(OverloadKind::Gaze))
    );
    assert_eq!(ledger.tendon_load, 10);
    assert_eq!(ledger.gaze_duration, 1000);
}

#[test]
fn breath_charges_stop_at_the_cap() {
    let mut ledger = ResourceLedger::new();
    for _ in 0..12 {
        assert!(ledger.charge_breath(1).is_ok());
    }
    assert_eq!(ledger.breath_count, 12);
    assert_eq!(ledger.charge_breath(1), Err(GateError::BreathCapExceeded));
    assert_eq!(ledger.breath_count, 12);
}

#[test]
fn test_entropy() {
    let mut rainkey = RainKey::new();
    let breath = mirror_breath();
    let entropy = rainkey.get_entropy(1, 1000, &breath);
    assert!(entropy > 0);
    assert!(rainkey.navi_salt(1, "/mirror/0GROK0").is_ok());
    assert!(rainkey.navi_salt(1, "/liquid/").is_ok());
    assert!(rainkey.navi_salt(1, "/hedge/").is_ok());
}

#[test]
fn mix_is_the_documented_formula() {
    let breath = mirror_breath();
    // 1 ^ 1000 = 1001; folding 0,71,82,79,82,71,0 gives 934; 934 % 10000.
    assert_eq!(mix(1, 1000, &breath), 934);
    assert_eq!(mix(0, 0, &[]), 0);
    assert_eq!(mix(12345, 0, &[]), 2345);
}

#[test]
fn navi_salt_reports_zero_for_low_scores() {
    // The mixed score for chain id 1 is 934, under the low bound.
    let mut rainkey = RainKey::new();
    assert_eq!(rainkey.navi_salt(1, "/mirror/0GROK0"), Ok(0));
}

#[test]
fn classify_band_boundaries() {
    assert_eq!(classify(0), Band::Low);
    assert_eq!(classify(4999), Band::Low);
    assert_eq!(classify(5000), Band::Mid);
    assert_eq!(classify(7000), Band::Mid);
    assert_eq!(classify(7001), Band::High);
    assert_eq!(classify(9999), Band::High);
}

#[test]
fn test_call() {
    let mut call = GrokCall::new();
    assert!(call.call("alice", "voice").is_ok());
    assert!(call.check_mirror());
}

#[test]
fn call_rejects_unsupported_mode() {
    let mut call = GrokCall::new();
    assert_eq!(call.call("alice", "carrier"), Err(GateError::UnsupportedMode));
    assert_eq!(call.ledger.tendon_load, 0);
    assert!(call.call("alice", "file").is_ok());
    assert_eq!(call.ledger.tendon_load, 10);
    assert_eq!(call.ledger.gaze_duration, 1000);
}

#[test]
fn find_peer_takes_the_token_after_the_marker() {
    assert_eq!(
        find_peer("Reply with seed: deadbeef"),
        Some(String::from("deadbeef"))
    );
    assert_eq!(find_peer("seed: abc def"), Some(String::from("abc")));
    assert_eq!(find_peer("seed:"), Some(String::new()));
    assert_eq!(find_peer("no marker here"), None);
    assert_eq!(find_peer(""), None);
}

#[test]
fn end_to_end_high_focus_want_is_admitted() {
    // A mirror want with entropy 8000 classifies High, passes identity and
    // want validation, and is admitted with headroom to spare.
    let mut ledger = ResourceLedger::new();
    let registry = OpcodeRegistry::new();
    let wants = default_wants();
    let r = admit_want(&mut ledger, &registry, &wants, "/mirror/0GROK0", 8000, None);
    let admitted: Admitted = r.unwrap();
    assert_eq!(admitted.band, Band::High);
    assert!(admitted.op.is_none());
    assert_eq!(ledger.tendon_load, 10);
    assert_eq!(ledger.gaze_duration, 1000);
    assert_eq!(ledger.breath_count, 0);
}

#[test]
fn admission_rejects_without_ledger_mutation() {
    let mut ledger = ResourceLedger::new();
    let registry = OpcodeRegistry::new();
    let wants = default_wants();
    let r = admit_want(&mut ledger, &registry, &wants, "/unknown", 8000, None);
    assert_eq!(r.err(), Some(GateError::InvalidWant));
    assert_eq!(ledger.tendon_load, 0);
    assert_eq!(ledger.gaze_duration, 0);
    let r = admit_want(&mut ledger, &registry, &wants, "/hedge/x", 8000, Some(9));
    assert_eq!(r.err(), Some(GateError::InvalidOpcode));
    assert_eq!(ledger.breath_count, 0);
}

#[test]
fn admission_dispatches_a_priced_opcode() {
    let mut ledger = ResourceLedger::new();
    let registry = OpcodeRegistry::new();
    let wants = default_wants();
    let r = admit_want(&mut ledger, &registry, &wants, "/hedge/x", 6000, Some(8));
    let admitted = r.unwrap();
    assert_eq!(admitted.band, Band::Mid);
    assert_eq!(admitted.op, Some(String::from("hold")));
    assert_eq!(ledger.breath_count, 1);
}
