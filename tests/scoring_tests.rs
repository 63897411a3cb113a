use hardware_inventory::scoring::{
    calculate_cpu_score_num, calculate_disk_score_num, calculate_gpu_score_num,
    calculate_ram_score_num, score_cpu, score_disk, score_gpu, score_ram, Score, GIB,
};

#[test]
fn cpu_boundary_is_excellent() {
    assert_eq!(score_cpu(8, 3500), Score::Excellent);
    assert_eq!(score_cpu(8, 3499), Score::Good);
    assert_eq!(score_cpu(7, 3500), Score::Good);
    assert_eq!(score_cpu(6, 3000), Score::Good);
    assert_eq!(score_cpu(6, 2999), Score::Average);
    assert_eq!(score_cpu(4, 1000), Score::Average);
    assert_eq!(score_cpu(3, 5000), Score::Poor);
}

#[test]
fn cpu_tier_never_drops_with_more_cores_or_clock() {
    let rank = |s: Score| match s {
        Score::Excellent => 4,
        Score::Good => 3,
        Score::Average => 2,
        Score::Poor => 1,
        Score::Unknown => 0,
    };
    let mut prev = 0;
    for cores in [1u32, 4, 6, 8, 16] {
        let r = rank(score_cpu(cores, 3200));
        assert!(r >= prev);
        prev = r;
    }
    let mut prev = 0;
    for clock in [1000u32, 3000, 3499, 3500, 5000] {
        let r = rank(score_cpu(8, clock));
        assert!(r >= prev);
        prev = r;
    }
    assert!(calculate_cpu_score_num(8, 3500) >= calculate_cpu_score_num(8, 3499));
    assert!(calculate_cpu_score_num(9, 3500) >= calculate_cpu_score_num(8, 3500));
}

#[test]
fn cpu_points_formula() {
    assert_eq!(calculate_cpu_score_num(6, 4000), 112);
    assert_eq!(calculate_cpu_score_num(4, 2500), 70);
    assert_eq!(calculate_cpu_score_num(u32::MAX, u32::MAX), u32::MAX);
}

#[test]
fn ram_tiers_and_points() {
    assert_eq!(score_ram(32, 3200), Score::Excellent);
    assert_eq!(score_ram(32, 3199), Score::Good);
    assert_eq!(score_ram(16, 2666), Score::Good);
    assert_eq!(score_ram(16, 2133), Score::Average);
    assert_eq!(score_ram(4, 3200), Score::Poor);
    assert_eq!(calculate_ram_score_num(16, 3200), 96);
    assert_eq!(calculate_ram_score_num(8, 2133), 61);
    assert_eq!(calculate_ram_score_num(u64::MAX, 3200), u32::MAX);
}

#[test]
fn gpu_tiers_and_points() {
    assert_eq!(score_gpu(8 * GIB), Score::Excellent);
    assert_eq!(score_gpu(8 * GIB - 1), Score::Good);
    assert_eq!(score_gpu(2 * GIB), Score::Average);
    assert_eq!(score_gpu(GIB), Score::Poor);
    assert_eq!(calculate_gpu_score_num(8 * GIB), 64);
    assert_eq!(calculate_gpu_score_num(12 * GIB), 96);
    assert_eq!(calculate_gpu_score_num(GIB - 1), 0);
}

#[test]
fn disk_tiers_and_points() {
    assert_eq!(score_disk(1000 * GIB), Score::Excellent);
    assert_eq!(score_disk(999 * GIB), Score::Good);
    assert_eq!(score_disk(500 * GIB), Score::Good);
    assert_eq!(score_disk(250 * GIB), Score::Average);
    assert_eq!(score_disk(249 * GIB), Score::Poor);
    assert_eq!(calculate_disk_score_num(1000 * GIB), 100);
    assert_eq!(calculate_disk_score_num(500 * GIB), 50);
    assert_eq!(calculate_disk_score_num(u64::MAX), 1717986918);
}

#[test]
fn score_labels_and_colours() {
    assert_eq!(Score::Excellent.label(), "Excellent");
    assert_eq!(Score::Unknown.label(), "Unknown");
    let c = Score::Excellent.to_colored_string();
    assert_eq!(&*c, "Excellent");
    assert!(format!("{}", c).contains("Excellent"));
    let p = Score::Poor.to_colored_string();
    assert_eq!(&*p, "Poor");
}
