use pulse::badge::{
    badge_text, frequency_power, frequency_prefix, normalize_vendor_name, BadgeError, BadgeText,
    FREQUENCY_PREFIXES,
};
use pulse::cpuinfo::parse_cpuinfo;

fn vendor(s: &str) -> Option<String> {
    normalize_vendor_name(&s.to_string())
}

#[test]
fn known_vendors() {
    assert_eq!(vendor("GenuineIntel").as_deref(), Some("Intel"));
    assert_eq!(vendor("AuthenticAMD").as_deref(), Some("AMD"));
    assert_eq!(vendor("AMDisbetter!").as_deref(), Some("AMD"));
    assert_eq!(vendor("Geode by NSC").as_deref(), Some("National Semiconductor"));
    assert_eq!(vendor("  Shanghai  ").as_deref(), Some("Zhaoxin"));
    assert_eq!(vendor(" KVMKVMKVM  ").as_deref(), Some("KVM"));
    assert_eq!(vendor("Vortex86 SoC").as_deref(), Some("DM&P Vortex86"));
    assert_eq!(vendor("E2K MACHINE").as_deref(), Some("MCST Elbrus"));
    assert_eq!(vendor(" QNXQVMBSQG ").as_deref(), Some("QNX"));
    assert_eq!(vendor("XenVMMXenVMM").as_deref(), Some("Xen HVM"));
}

#[test]
fn unknown_vendors() {
    assert_eq!(vendor(""), None);
    assert_eq!(vendor("genuineintel"), None);
    assert_eq!(vendor("GenuineIntel "), None);
    assert_eq!(vendor("Shanghai"), None);
}

#[test]
fn frequency_powers() {
    assert_eq!(frequency_power(0), 0);
    assert_eq!(frequency_power(1000), 0);
    assert_eq!(frequency_power(1001), 1);
    assert_eq!(frequency_power(1_000_000), 1);
    assert_eq!(frequency_power(1_000_001), 2);
    assert_eq!(frequency_power(3_600_000), 2);
    assert_eq!(frequency_power(1_000_000_000), 2);
    assert_eq!(frequency_power(1_000_000_001), 3);
    assert_eq!(frequency_power(u32::MAX), 3);
}

#[test]
fn frequency_prefixes() {
    assert_eq!(FREQUENCY_PREFIXES, 4);
    assert_eq!(frequency_prefix(0), 'k');
    assert_eq!(frequency_prefix(1), 'M');
    assert_eq!(frequency_prefix(2), 'G');
    assert_eq!(frequency_prefix(3), 'T');
}

#[test]
fn badge_text_from_table() {
    let map = parse_cpuinfo("vendor_id\t: GenuineIntel\nmodel name\t: Core i7\n");
    assert_eq!(
        badge_text(&map),
        Ok(BadgeText { vendor: "Intel".to_string(), model: "Core i7".to_string() })
    );
}

#[test]
fn badge_text_errors() {
    assert_eq!(
        badge_text(&parse_cpuinfo("model name\t: Core i7\n")),
        Err(BadgeError::MissingVendor)
    );
    assert_eq!(
        badge_text(&parse_cpuinfo("vendor_id\t: Nobody\nmodel name\t: X\n")),
        Err(BadgeError::UnknownVendor)
    );
    assert_eq!(
        badge_text(&parse_cpuinfo("vendor_id\t: AuthenticAMD\n")),
        Err(BadgeError::MissingModel)
    );
}
