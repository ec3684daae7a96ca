use libasp::crash_oracle::{exec_block_hook, exec_writes_hook, exec_writes_hook_n, HookCounters};
use libasp::tunneling::{
    add_tunnels_cmp, parse_u32_source, str_reg_to_regs, tunnel_override_value, tunnels_cmp_hook,
    Regs, TunnelRule, TunnelSource, TUNNEL_OVERRIDE_REG,
};
use libasp::util::parse_u32;

#[test]
fn block_hook_instruments_non_executable_ranges() {
    let mut c = HookCounters::new();
    let no_exec = vec![(0x100u32, 0x200u32)];
    let flash_fn_areas: Vec<(u32, u32, Vec<u32>)> = vec![];
    // Inside a non-executable range: fresh id, immediate stop.
    let (id, stop) = c.gen_block_hook(&no_exec, &flash_fn_areas, 0x9000, 0x100);
    assert_eq!(id, Some(1));
    assert!(stop);
    // The end of the range is exclusive.
    let (id, stop) = c.gen_block_hook(&no_exec, &flash_fn_areas, 0x9000, 0x200);
    assert_eq!(id, None);
    assert!(!stop);
    assert_eq!(c.counter_edge_hooks, 1);
}

#[test]
fn block_hook_reserves_flash_read_id() {
    let mut c = HookCounters::new();
    let no_exec = vec![(0x100u32, 0x200u32)];
    let areas = vec![(0x300u32, 0x3ffu32, vec![0x42u32])];
    let (id, stop) = c.gen_block_hook(&no_exec, &areas, 0x9000, 0x9000);
    assert_eq!(id, Some(1));
    assert!(!stop);
    assert_eq!(c.flash_read_hook_id, 1);
    // Without configured protected ranges the flash-read address is not hooked.
    let mut c2 = HookCounters::new();
    let none: Vec<(u32, u32, Vec<u32>)> = vec![];
    let (id, _) = c2.gen_block_hook(&no_exec, &none, 0x9000, 0x9000);
    assert_eq!(id, None);
}

#[test]
fn flash_read_copy_overlapping_without_allowance_stops() {
    let areas = vec![(0x1000u32, 0x1fffu32, vec![0xaaaa_0000u32])];
    // Destination [0x0f00, 0x1100) overlaps the protected range; the call
    // site is not allow-listed: forced stop.
    assert!(exec_block_hook(&areas, 0x9000, 1, 1, 0x9000, 0x0f00, 0x200, 0xbbbb_0000));
    // Same overlap from the allow-listed call site: no stop.
    assert!(!exec_block_hook(&areas, 0x9000, 1, 1, 0x9000, 0x0f00, 0x200, 0xaaaa_0000));
    // A copy that stays below the protected range: no stop.
    assert!(!exec_block_hook(&areas, 0x9000, 1, 1, 0x9000, 0x0e00, 0x100, 0xbbbb_0000));
    // A zero-length copy reaches nothing.
    assert!(!exec_block_hook(&areas, 0x9000, 1, 1, 0x9000, 0x1000, 0, 0xbbbb_0000));
    // A destination interval enclosing the whole protected range overlaps it.
    assert!(exec_block_hook(&areas, 0x9000, 1, 1, 0x9000, 0x0800, 0x2000, 0xbbbb_0000));
}

#[test]
fn non_flash_block_hook_always_stops() {
    let areas: Vec<(u32, u32, Vec<u32>)> = vec![];
    // Any hook id other than the flash-read one marks a non-executable
    // instruction and stops unconditionally.
    assert!(exec_block_hook(&areas, 0x9000, 7, 3, 0x123, 0, 0, 0));
}

#[test]
fn allow_listed_writer_is_never_instrumented() {
    let mut c = HookCounters::new();
    let hooks = vec![(0x1000u32, 0x2000u32, vec![0x500u32, 0x504])];
    // The writing instruction is allow-listed: no hook at all, even though
    // its writes may land inside the protected range.
    assert_eq!(c.gen_writes_hook(&hooks, 0x504, 4), None);
    assert_eq!(c.counter_write_hooks, 0);
    // Any other writer gets a fresh id.
    assert_eq!(c.gen_writes_hook(&hooks, 0x508, 4), Some(1));
    assert_eq!(c.gen_writes_hook(&hooks, 0x50c, 2), Some(2));
}

#[test]
fn write_into_protected_range_stops() {
    let hooks = vec![(0x1000u32, 0x2000u32, vec![])];
    assert!(exec_writes_hook(&hooks, 1, 0x1000));
    assert!(exec_writes_hook(&hooks, 1, 0x1fff));
    assert!(!exec_writes_hook(&hooks, 1, 0x2000));
    assert!(!exec_writes_hook(&hooks, 1, 0x0fff));
    // The arbitrary-size variant shares the membership logic; size plays no part.
    assert!(exec_writes_hook_n(&hooks, 1, 0x1800, 64));
    assert!(!exec_writes_hook_n(&hooks, 1, 0x2400, 64));
}

#[test]
fn tunnel_literal_rule_sets_exact_literal() {
    let mut rules: Vec<TunnelRule> = Vec::new();
    assert!(add_tunnels_cmp(&mut rules, 0x4000, "305419896"));
    let act = tunnels_cmp_hook(&rules, 0x4000).unwrap();
    assert_eq!(act, TunnelSource::Literal(0x12345678));
    // The live register value plays no part for a literal rule, and the
    // override always lands in the first general-purpose register.
    assert_eq!(tunnel_override_value(&act, 0xffff), 0x12345678);
    assert_eq!(TUNNEL_OVERRIDE_REG, Regs::R0);
    assert_eq!(TUNNEL_OVERRIDE_REG.index(), 0);
}

#[test]
fn tunnel_register_rule_copies_live_value() {
    let mut rules: Vec<TunnelRule> = Vec::new();
    assert!(add_tunnels_cmp(&mut rules, 0x4000, "R7"));
    let act = tunnels_cmp_hook(&rules, 0x4000).unwrap();
    assert_eq!(act, TunnelSource::Register(Regs::R7));
    // The override copies the live value of the named register at the hit.
    assert_eq!(tunnel_override_value(&act, 0xcafe), 0xcafe);
}

#[test]
fn tunnel_rules_match_by_exact_address_first_wins() {
    let mut rules: Vec<TunnelRule> = Vec::new();
    assert!(add_tunnels_cmp(&mut rules, 0x4000, "1"));
    assert!(add_tunnels_cmp(&mut rules, 0x4000, "2"));
    assert!(add_tunnels_cmp(&mut rules, 0x5000, "3"));
    assert_eq!(tunnels_cmp_hook(&rules, 0x4000), Some(TunnelSource::Literal(1)));
    assert_eq!(tunnels_cmp_hook(&rules, 0x5000), Some(TunnelSource::Literal(3)));
    assert_eq!(tunnels_cmp_hook(&rules, 0x6000), None);
}

#[test]
fn unknown_tunnel_source_is_rejected_at_parse_time() {
    let mut rules: Vec<TunnelRule> = Vec::new();
    assert!(!add_tunnels_cmp(&mut rules, 0x4000, "R99"));
    assert!(rules.is_empty());
    assert_eq!(parse_u32_source("banana"), None);
}

#[test]
fn register_names_and_aliases_resolve() {
    assert_eq!(str_reg_to_regs("R0"), Some(Regs::R0));
    assert_eq!(str_reg_to_regs("R12"), Some(Regs::R12));
    assert_eq!(str_reg_to_regs("Sp"), Some(Regs::R13));
    assert_eq!(str_reg_to_regs("SP"), Some(Regs::R13));
    assert_eq!(str_reg_to_regs("Lr"), Some(Regs::R14));
    assert_eq!(str_reg_to_regs("PC"), Some(Regs::R15));
    assert_eq!(str_reg_to_regs("Sb"), Some(Regs::R9));
    assert_eq!(str_reg_to_regs("Sl"), Some(Regs::R10));
    assert_eq!(str_reg_to_regs("Fp"), Some(Regs::R11));
    assert_eq!(str_reg_to_regs("Ip"), Some(Regs::R12));
    assert_eq!(str_reg_to_regs("Cpsr"), Some(Regs::Cpsr));
    assert_eq!(str_reg_to_regs("R25"), Some(Regs::Cpsr));
    assert_eq!(str_reg_to_regs("r0"), None);
    assert_eq!(str_reg_to_regs(""), None);
    assert_eq!(Regs::R13.index(), 13);
    assert_eq!(Regs::Cpsr.index(), 16);
}

#[test]
fn decimal_parsing_is_exact() {
    assert_eq!(parse_u32("0"), Some(0));
    assert_eq!(parse_u32("123"), Some(123));
    assert_eq!(parse_u32("4294967295"), Some(u32::MAX));
    assert_eq!(parse_u32("4294967296"), None);
    assert_eq!(parse_u32("99999999999999999999"), None);
    assert_eq!(parse_u32(""), None);
    assert_eq!(parse_u32("12a"), None);
    assert_eq!(parse_u32("-1"), None);
    assert_eq!(parse_u32("+1"), None);
}
