use axplat::dtb::{DtbError, DtbParser, MemoryRange};

fn push_u32(out: &mut Vec<u8>, v: u32) {
    out.extend_from_slice(&v.to_be_bytes());
}

fn begin(out: &mut Vec<u8>, name: &str) {
    push_u32(out, 1);
    out.extend_from_slice(name.as_bytes());
    out.push(0);
    while out.len() % 4 != 0 {
        out.push(0);
    }
}

fn end(out: &mut Vec<u8>) {
    push_u32(out, 2);
}

fn prop(out: &mut Vec<u8>, nameoff: u32, data: &[u8]) {
    push_u32(out, 3);
    push_u32(out, data.len() as u32);
    push_u32(out, nameoff);
    out.extend_from_slice(data);
    while out.len() % 4 != 0 {
        out.push(0);
    }
}

fn words(ws: &[u32]) -> Vec<u8> {
    let mut v = Vec::new();
    for w in ws {
        v.extend_from_slice(&w.to_be_bytes());
    }
    v
}

const REG: u32 = 0;
const CLOCK: u32 = 4;

fn blob(structure: Vec<u8>) -> Vec<u8> {
    let strings = b"reg\0clock-frequency\0".to_vec();
    let mut out = Vec::new();
    let off_struct = 40u32;
    let off_strings = off_struct + structure.len() as u32;
    let total = off_strings + strings.len() as u32;
    for w in [0xd00d_feed, total, off_struct, off_strings, 0, 17, 16, 0, strings.len() as u32, structure.len() as u32] {
        push_u32(&mut out, w);
    }
    out.extend_from_slice(&structure);
    out.extend_from_slice(&strings);
    out
}

fn blob_strings_first(structure: Vec<u8>) -> Vec<u8> {
    let strings = b"reg\0clock-frequency\0".to_vec();
    let mut out = Vec::new();
    let off_strings = 40u32;
    let off_struct = off_strings + strings.len() as u32;
    let total = off_struct + structure.len() as u32;
    for w in [0xd00d_feed, total, off_struct, off_strings, 0, 17, 16, 0, strings.len() as u32, structure.len() as u32] {
        push_u32(&mut out, w);
    }
    out.extend_from_slice(&strings);
    out.extend_from_slice(&structure);
    out
}

fn board_blob() -> Vec<u8> {
    let mut s = Vec::new();
    begin(&mut s, "");
    begin(&mut s, "memory@80000000");
    prop(&mut s, REG, &words(&[0, 0x8000_0000, 0, 0x1000_0000, 1, 0, 0, 0]));
    end(&mut s);
    begin(&mut s, "cpu@0");
    end(&mut s);
    begin(&mut s, "cpu@1");
    prop(&mut s, REG, &words(&[1]));
    end(&mut s);
    begin(&mut s, "timer");
    prop(&mut s, CLOCK, &words(&[4_000_000]));
    end(&mut s);
    begin(&mut s, "uart@10001000");
    prop(&mut s, REG, &words(&[0, 0x1000_1000, 0, 0x100]));
    end(&mut s);
    begin(&mut s, "plic@c100000");
    prop(&mut s, REG, &words(&[0, 0x0c10_0000, 0, 0x400_0000]));
    end(&mut s);
    end(&mut s);
    push_u32(&mut s, 9);
    blob(s)
}

#[test]
fn reads_board_facts_from_blob() {
    let parser = DtbParser::new(board_blob()).unwrap();
    let ranges = parser.get_memory_ranges();
    assert_eq!(ranges, vec![MemoryRange { base: 0x8000_0000, size: 0x1000_0000 }]);
    assert_eq!(parser.get_cpu_count(), 2);
    assert_eq!(parser.get_timer_frequency(), Some(4_000_000));
    assert_eq!(parser.get_uart_base(), Some(0x1000_1000));
    assert_eq!(parser.get_plic_base(), Some(0x0c10_0000));
    let info = parser.print_info().unwrap();
    assert_eq!(info.cpu_count, 2);
    assert_eq!(info.memory_ranges.len(), 1);
}

#[test]
fn blob_without_nodes_gives_defaults() {
    let mut s = Vec::new();
    begin(&mut s, "");
    end(&mut s);
    push_u32(&mut s, 9);
    let parser = DtbParser::new(blob(s)).unwrap();
    assert_eq!(parser.get_memory_ranges(), vec![MemoryRange { base: 0x8000_0000, size: 0x800_0000 }]);
    assert_eq!(parser.get_cpu_count(), 1);
    assert_eq!(parser.get_timer_frequency(), Some(10_000_000));
    assert_eq!(parser.get_uart_base(), Some(0x1000_0000));
    assert_eq!(parser.get_plic_base(), Some(0x0c00_0000));
}

#[test]
fn nested_nodes_are_not_top_level() {
    let mut s = Vec::new();
    begin(&mut s, "");
    begin(&mut s, "cpus");
    begin(&mut s, "cpu@0");
    end(&mut s);
    end(&mut s);
    begin(&mut s, "soc");
    begin(&mut s, "uart@20000000");
    prop(&mut s, REG, &words(&[0, 0x2000_0000]));
    end(&mut s);
    end(&mut s);
    end(&mut s);
    push_u32(&mut s, 9);
    let parser = DtbParser::new(blob(s)).unwrap();
    assert_eq!(parser.get_cpu_count(), 1);
    assert_eq!(parser.get_uart_base(), Some(0x1000_0000));
}

#[test]
fn truncated_property_stops_the_scan() {
    let mut s = Vec::new();
    begin(&mut s, "");
    begin(&mut s, "memory");
    push_u32(&mut s, 3);
    push_u32(&mut s, 64);
    push_u32(&mut s, REG);
    s.extend_from_slice(&words(&[0, 0x9000_0000, 0, 0x100]));
    let parser = DtbParser::new(blob_strings_first(s)).unwrap();
    assert_eq!(parser.get_memory_ranges(), vec![MemoryRange { base: 0x9000_0000, size: 0x100 }]);
}

#[test]
fn refuses_bad_blobs() {
    assert_eq!(DtbParser::new(Vec::new()).err(), Some(DtbError::Empty));
    assert_eq!(DtbParser::new(vec![0u8; 64]).err(), Some(DtbError::BadMagic));
    assert_eq!(DtbParser::new(vec![0xd0, 0x0d]).err(), Some(DtbError::BadMagic));
    assert_eq!(DtbParser::new(vec![0xd0, 0x0d, 0xfe, 0xed, 0, 0]).err(), Some(DtbError::TruncatedHeader));
}

#[test]
fn self_checks_pass() {
    assert!(axplat::selftest::test_memory_range());
    assert!(axplat::selftest::test_basic_constants());
    assert!(axplat::selftest::test_dtb_parser_basic());
    assert!(axplat::selftest::test_dtb_parser_info());
    assert!(axplat::selftest::test_plic_basic_functionality());
    assert!(axplat::selftest::test_plic_error_handling());
    assert!(axplat::selftest::test_plic_batch_operations());
    assert!(axplat::selftest::run_all_tests());
}
