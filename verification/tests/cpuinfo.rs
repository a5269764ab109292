use pulse::cpuinfo::{parse_cpuinfo, parse_cpuinfo_line, CpuInfoMap};
use pulse::text::chars_of;

const CPUINFO: &str = "processor\t: 0
vendor_id\t: GenuineIntel
cpu family\t: 6
model name\t: Intel(R) Core(TM) i7-8550U CPU @ 1.80GHz
power management:
flags\t\t: fpu vme de
bugs\t\t: 

processor\t: 1
vendor_id\t: AuthenticAMD
model name\t: Other
";

#[test]
fn cpuinfo_reads_first_block() {
    let map = parse_cpuinfo(CPUINFO);
    assert_eq!(map.len(), 5);
    assert_eq!(map.get("processor").unwrap(), "0");
    assert_eq!(map.get("vendor_id").unwrap(), "GenuineIntel");
    assert_eq!(map.get("cpu family").unwrap(), "6");
    assert_eq!(
        map.get("model name").unwrap(),
        "Intel(R) Core(TM) i7-8550U CPU @ 1.80GHz"
    );
    assert_eq!(map.get("flags").unwrap(), "fpu vme de");
    assert!(map.get("power management").is_none());
    assert!(map.get("bugs").is_none());
}

#[test]
fn cpuinfo_later_line_overrides() {
    let map = parse_cpuinfo("a\t: 1\nb\t: 2\na\t: 3\n");
    assert_eq!(map.len(), 2);
    assert_eq!(map.get("a").unwrap(), "3");
    assert_eq!(map.get("b").unwrap(), "2");
}

#[test]
fn cpuinfo_empty_text() {
    assert_eq!(parse_cpuinfo("").len(), 0);
    assert_eq!(parse_cpuinfo("\nkey\t: value\n").len(), 0);
}

#[test]
fn cpuinfo_crlf_lines() {
    let map = parse_cpuinfo("key\t: value\r\nother\t: x\r\n");
    assert_eq!(map.get("key").unwrap(), "value");
    assert_eq!(map.get("other").unwrap(), "x");
}

#[test]
fn cpuinfo_line_shapes() {
    let ok = |s: &str| parse_cpuinfo_line(&chars_of(s));
    assert_eq!(ok("key\t: value"), Some(("key".to_string(), "value".to_string())));
    assert_eq!(ok("a b\t\t\t: c: d\t"), Some(("a b".to_string(), "c: d\t".to_string())));
    assert_eq!(ok("\t: value"), None);
    assert_eq!(ok("key: value"), None);
    assert_eq!(ok("key\t:value"), None);
    assert_eq!(ok("key\t: "), None);
    assert_eq!(ok("key\t \t: v"), None);
    assert_eq!(ok("key"), None);
    assert_eq!(ok(""), None);
}

#[test]
fn table_insert_and_get() {
    let mut map = CpuInfoMap::new();
    assert_eq!(map.len(), 0);
    assert!(map.get("x").is_none());
    map.insert("x".to_string(), "1".to_string());
    map.insert("y".to_string(), "2".to_string());
    assert_eq!(map.get("x").unwrap(), "1");
    map.insert("x".to_string(), "3".to_string());
    assert_eq!(map.get("x").unwrap(), "3");
    assert_eq!(map.get("y").unwrap(), "2");
    assert_eq!(map.len(), 2);
}

#[test]
fn cpuinfo_line_reads_back_key_and_value() {
    for tabs in 1..5 {
        let line = format!("cache size{}: 8192 KB", "\t".repeat(tabs));
        assert_eq!(
            parse_cpuinfo_line(&chars_of(&line)),
            Some(("cache size".to_string(), "8192 KB".to_string()))
        );
    }
}

#[test]
fn cpuinfo_text_after_blank_line_is_ignored() {
    let first = "vendor_id\t: GenuineIntel\nmodel name\t: X";
    let alone = parse_cpuinfo(&format!("{}\n", first));
    let with_more = parse_cpuinfo(&format!("{}\n\nvendor_id\t: AuthenticAMD\nextra\t: 1\n", first));
    assert_eq!(alone.len(), with_more.len());
    assert_eq!(with_more.get("vendor_id").unwrap(), "GenuineIntel");
    assert_eq!(alone.get("model name"), with_more.get("model name"));
    assert!(with_more.get("extra").is_none());
}
