use rik::system::{total_cpu, total_disk, total_memory, used_cpu, used_disk, used_memory};
use sysinfo::{CpuExt, DiskExt, System, SystemExt};

fn init_system() -> System {
    System::new_all()
}

fn cpu_limit(sys: &mut System) -> u64 {
    sys.refresh_all();
    total_cpu(sys.cpus().len() as u64)
}

fn disk_figures(sys: &mut System) -> (Vec<u64>, Vec<u64>) {
    sys.refresh_all();
    let totals = sys.disks().iter().map(|d| d.total_space()).collect();
    let available = sys.disks().iter().map(|d| d.available_space()).collect();
    (totals, available)
}

#[test]
fn test_total_cpu() {
    let mut sys = init_system();

    assert!(cpu_limit(&mut sys) >= 1000) // minimum 1 core
}

#[test]
fn test_used_cpu() {
    let mut sys = init_system();

    let total = cpu_limit(&mut sys);
    for _ in 0..3 {
        sys.refresh_cpu();
    }
    let percent = sys.global_cpu_info().cpu_usage().ceil() as u64;
    let used = used_cpu(total, percent);

    assert!(used <= total)
}

#[test]
fn test_used_memory() {
    let mut sys = init_system();

    sys.refresh_all();
    let total = total_memory(sys.available_memory(), sys.used_memory());
    let used = used_memory(sys.used_memory());

    assert!(used <= total)
}

#[test]
fn test_used_disk() {
    let mut sys = init_system();

    let (totals, available) = disk_figures(&mut sys);
    let total = total_disk(&totals);
    let used = used_disk(&totals, &available);

    assert!(used <= total)
}

#[test]
fn used_figures_stay_within_limits() {
    assert_eq!(total_cpu(1), 1000);
    assert_eq!(used_cpu(4000, 100), 4000);
    assert_eq!(used_cpu(4000, 37), 1480);
    assert_eq!(used_memory(1999), 1);
    assert_eq!(total_memory(1, 1999), 2);
    assert_eq!(used_disk(&vec![5_000_000_000], &vec![5_000_000_000]), 0);
    assert_eq!(total_disk(&vec![2_500_000_000, 7_999_999_999]), 7);
    assert_eq!(used_disk(&vec![2_500_000_000, 7_999_999_999], &vec![1_000_000_000, 2_000_000_000]), 5);
}
