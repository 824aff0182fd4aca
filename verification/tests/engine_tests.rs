use kappasha::buffer::pulse_buffer;
use kappasha::errors::GateError;
use kappasha::func_id::FuncId;
use kappasha::ledger::ResourceLedger;
use kappasha::martingale::Martingale;
use kappasha::opcodes::OpcodeRegistry;

#[test]
fn test_hedge_double() {
    // Sizes and deltas are fixed-point milli-units: 1000 is 1.0.
    let mut martingale = Martingale::new();
    martingale.hedge_double(-700);
    assert_eq!(martingale.size, 2000);
    martingale.hedge_double(500);
    assert_eq!(martingale.size, 2000);
}

#[test]
fn hedge_double_threshold_is_strict() {
    let mut martingale = Martingale::new();
    martingale.hedge_double(-618);
    assert_eq!(martingale.size, 1000);
    martingale.hedge_double(-619);
    assert_eq!(martingale.size, 2000);
    martingale.hedge_double(-619);
    assert_eq!(martingale.size, 4000);
}

#[test]
fn test_curl_detect() {
    let mut martingale = Martingale::new();
    martingale.curl_detect(1000, 500);
    assert!(martingale.curl_detect(200, 500));
}

#[test]
fn curl_not_detected_on_shallow_move() {
    // 1.0 then 0.9: the delta -0.1 stays above the -0.618 threshold.
    let mut martingale = Martingale::new();
    assert!(!martingale.curl_detect(1000, 500));
    assert!(!martingale.curl_detect(900, 500));
}

#[test]
fn window_keeps_the_sixteen_most_recent() {
    let mut martingale = Martingale::new();
    for p in 0..20 {
        martingale.curl_detect(p * 1000, 0);
    }
    assert_eq!(martingale.nodes.len(), 16);
    for (k, v) in martingale.nodes.iter().enumerate() {
        assert_eq!(*v, (k as i64 + 4) * 1000);
    }
}

#[test]
fn test_tangent_burn() {
    let martingale = Martingale::new();
    assert!(martingale.tangent_burn());
    martingale.burn_lamports(1);
}

#[test]
fn burn_lamports_formats_the_notification() {
    let martingale = Martingale::new();
    assert_eq!(
        martingale.burn_lamports(1),
        String::from("Burned 1 lamports on tangent")
    );
    assert_eq!(
        martingale.burn_lamports(12305),
        String::from("Burned 12305 lamports on tangent")
    );
}

#[test]
fn test_pulse() {
    assert_eq!(pulse_buffer("torrent", 20000000), 3);
    assert_eq!(pulse_buffer("loan", 20000000), 72);
    assert!(pulse_buffer("trade", 20000000) <= 144);
}

#[test]
fn pulse_falls_back_on_low_entropy() {
    assert_eq!(pulse_buffer("loan", 10000000), 3);
    assert_eq!(pulse_buffer("trade", 20000000), 144);
    assert_eq!(pulse_buffer("other", 20000000), 3);
}

#[test]
fn test_func_id() {
    let func_id = FuncId::new();
    assert_eq!(func_id.get_func(0), Some("stop"));
    assert_eq!(func_id.get_color(5), Some("#00ff00"));
    assert!(func_id.free_tilde("sell", 8000));
    assert!(func_id.repeater("deed"));
}

#[test]
fn func_id_bounds_and_negatives() {
    let func_id = FuncId::new();
    assert_eq!(func_id.get_func(16), None);
    assert_eq!(func_id.get_color(16), None);
    assert!(!func_id.free_tilde("sell", 7000));
    assert!(!func_id.free_tilde("mint", 8000));
    assert!(!func_id.repeater("deeds"));
    assert!(func_id.repeater(""));
}

#[test]
fn test_backslash() {
    let func_id = FuncId::new();
    let encrypted = func_id.backslash_encrypt("test", "\\backslash");
    let parsed = func_id.backslash_parse("1001/100/001/101");
    assert_eq!(parsed, "1001\\/\\100\\/\\001\\/\\101");
    assert_eq!(
        func_id.backwards_greedy(&parsed),
        vec!["101", "001", "100", "1001"]
    );
    assert_eq!(encrypted.len(), 4);
}

#[test]
fn backslash_encrypt_is_xor_with_the_key() {
    let func_id = FuncId::new();
    let encrypted = func_id.backslash_encrypt("test", "\\backslash");
    let codes: Vec<u32> = encrypted.chars().map(|c| c as u32).collect();
    assert_eq!(codes, vec![116 ^ 92, 101 ^ 98, 115 ^ 97, 116 ^ 99]);
}

#[test]
fn backslash_parse_edges() {
    let func_id = FuncId::new();
    assert_eq!(func_id.backslash_parse(""), "");
    assert_eq!(func_id.backslash_parse("ab"), "ab");
    assert_eq!(func_id.backslash_parse("\\"), "\\\\");
    assert_eq!(func_id.backslash_parse("/"), "\\/\\");
}

#[test]
fn backwards_greedy_edges() {
    let func_id = FuncId::new();
    assert_eq!(func_id.backwards_greedy("abc"), vec!["abc"]);
    assert_eq!(func_id.backwards_greedy(""), vec![""]);
    assert_eq!(func_id.backwards_greedy("a\\b"), vec!["b", "a"]);
}

#[test]
fn lookup_rejects_out_of_range_and_unassigned_ids() {
    let registry = OpcodeRegistry::new();
    assert_eq!(registry.lookup(16).err(), Some(GateError::InvalidOpcode));
    for id in 9..16 {
        assert_eq!(registry.lookup(id).err(), Some(GateError::InvalidOpcode));
    }
}

#[test]
fn lookup_returns_the_canonical_table() {
    let registry = OpcodeRegistry::new();
    let mint = registry.lookup(0).unwrap();
    assert_eq!(mint.name, "mint");
    assert!(mint.free);
    let stop = registry.lookup(2).unwrap();
    assert_eq!(stop.name, "stop");
    assert_eq!(stop.color, "#ff0000");
    let hold = registry.lookup(8).unwrap();
    assert_eq!(hold.name, "hold");
    assert!(!hold.free);
}

#[test]
fn apply_charges_breath_only_for_priced_opcodes() {
    let registry = OpcodeRegistry::new();
    let mut ledger = ResourceLedger::new();
    for id in 0..8 {
        assert!(registry.apply(id, &mut ledger).is_ok());
        assert_eq!(ledger.breath_count, 0);
    }
    assert_eq!(registry.apply(8, &mut ledger).unwrap(), String::from("hold"));
    assert_eq!(ledger.breath_count, 1);
    for id in 9..16 {
        assert_eq!(registry.apply(id, &mut ledger).err(), Some(GateError::InvalidOpcode));
        assert_eq!(ledger.breath_count, 1);
    }
}

#[test]
fn apply_rejects_past_the_breath_cap() {
    let registry = OpcodeRegistry::new();
    let mut ledger = ResourceLedger::new();
    for _ in 0..12 {
        assert!(registry.apply(8, &mut ledger).is_ok());
    }
    assert_eq!(ledger.breath_count, 12);
    assert_eq!(
        registry.apply(8, &mut ledger).err(),
        Some(GateError::BreathCapExceeded)
    );
    assert_eq!(ledger.breath_count, 12);
    // A free opcode still dispatches at the cap.
    assert!(registry.apply(0, &mut ledger).is_ok());
}
