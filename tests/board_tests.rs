use hardware_inventory::errors::{ProbeError, QueryError};
use hardware_inventory::motherboard::{
    chipset_in_upper, classify_designation, derive_motherboards, detect_chipset,
    finish_motherboard_probe, ram_slot_info, summarize_slots, BaseBoard, MemoryArray, SlotKind,
    SystemSlot,
};

fn slot(d: Option<&str>, usage: Option<u16>) -> SystemSlot {
    SystemSlot { slot_designation: d.map(|s| s.to_string()), current_usage: usage, description: None }
}

fn board(product: &str) -> BaseBoard {
    BaseBoard {
        manufacturer: "ASUSTeK".to_string(),
        product: product.to_string(),
        version: "Rev 1.xx".to_string(),
        serial_number: "SN1".to_string(),
    }
}

#[test]
fn chipset_first_match_without_case() {
    assert_eq!(detect_chipset("ROG STRIX X670E-E GAMING WIFI"), "X670E");
    assert_eq!(detect_chipset("prime b550m-a"), "B550");
    assert_eq!(detect_chipset("PRO Z790-P"), "Z790");
    assert_eq!(detect_chipset("Custom Board"), "Unknown");
    assert_eq!(chipset_in_upper("prime b550m-a"), "Unknown");
}

#[test]
fn hybrid_designation_counts_in_both() {
    let k = classify_designation("M.2 PCIEX16 HYBRID");
    assert!(k.gpu && k.ssd);
    let slots = vec![slot(Some("m.2_pciex16 hybrid"), Some(4)), slot(Some("PCIEX16_1"), Some(3)), slot(Some("M2_1"), None)];
    let g = summarize_slots(&slots, SlotKind::Gpu);
    let s = summarize_slots(&slots, SlotKind::Ssd);
    assert_eq!((g.total, g.used), (2, 1));
    assert_eq!((s.total, s.used), (2, 1));
    assert_eq!(g.details, vec!["m.2_pciex16 hybrid: In Use".to_string(), "PCIEX16_1: Empty".to_string()]);
    assert_eq!(s.details, vec!["m.2_pciex16 hybrid: In Use".to_string(), "M2_1: Empty".to_string()]);
    let g2 = summarize_slots(&slots, SlotKind::Gpu);
    let s2 = summarize_slots(&slots, SlotKind::Ssd);
    assert_eq!((g2.total, g2.used, g2.details), (g.total, g.used, g.details));
    assert_eq!((s2.total, s2.used, s2.details), (s.total, s.used, s.details));
}

#[test]
fn slot_patterns() {
    for d in ["PCIE_16_1", "pci-e x16 slot", "PCIEX16"] {
        assert!(classify_designation(&d.to_uppercase()).gpu);
    }
    assert!(!classify_designation("PCIEX1_1").gpu);
    assert!(!classify_designation("PCIEX1_1").ssd);
    let slots = vec![slot(None, Some(4)), slot(Some("PCIEX1"), Some(4))];
    let g = summarize_slots(&slots, SlotKind::Gpu);
    assert_eq!((g.total, g.used), (0, 0));
    assert!(g.details.is_empty());
}

#[test]
fn ram_slots_from_first_array() {
    let r = ram_slot_info(&vec![MemoryArray { memory_devices: Some(4) }, MemoryArray { memory_devices: Some(8) }], 2);
    assert_eq!((r.total, r.used), (4, 2));
    assert_eq!(r.details, vec!["Used 2 of 4 slots".to_string()]);
    let r = ram_slot_info(&vec![MemoryArray { memory_devices: Some(16) }], 12);
    assert_eq!(r.details, vec!["Used 12 of 16 slots".to_string()]);
    let r = ram_slot_info(&vec![MemoryArray { memory_devices: Some(65535) }], 4294967295);
    assert_eq!(r.details, vec!["Used 4294967295 of 65535 slots".to_string()]);
    let r = ram_slot_info(&vec![], 3);
    assert_eq!((r.total, r.used), (0, 3));
    assert_eq!(r.details, vec!["Used 3 of 0 slots".to_string()]);
}

#[test]
fn boards_derive_chipset_and_slots() {
    let slots = vec![slot(Some("PCIEX16_1"), Some(4)), slot(Some("M.2_1"), Some(4))];
    let r = derive_motherboards(vec![board("TUF GAMING B650-PLUS")], &slots, &vec![MemoryArray { memory_devices: Some(4) }], 2);
    assert_eq!(r.len(), 1);
    assert_eq!(r[0].chipset, "B650");
    assert_eq!(r[0].product, "TUF GAMING B650-PLUS");
    assert_eq!((r[0].gpu_slots.total, r[0].gpu_slots.used), (1, 1));
    assert_eq!((r[0].ssd_slots.total, r[0].ssd_slots.used), (1, 1));
    assert_eq!(r[0].ram_slots.details, vec!["Used 2 of 4 slots".to_string()]);
}

#[test]
fn motherboard_probe_failures() {
    let r = finish_motherboard_probe(Err(QueryError::ClassNotFound), Ok(vec![]), Ok(vec![]), Ok(vec![]));
    assert!(matches!(r, Err(ProbeError::Query(QueryError::ClassNotFound))));
    let r = finish_motherboard_probe(
        Ok(vec![board("Z690 AORUS")]),
        Err(QueryError::FieldMissing),
        Err(QueryError::ClassNotFound),
        Ok(vec![8u64 << 30, 8u64 << 30, 8u64 << 30]),
    )
    .unwrap();
    assert_eq!(r[0].chipset, "Z690");
    assert_eq!(r[0].gpu_slots.total, 0);
    assert_eq!((r[0].ram_slots.total, r[0].ram_slots.used), (0, 3));
}
