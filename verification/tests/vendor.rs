use ferron::vendor::{gib_tenths, GpuProfile, MemoryHeap, MemoryType, Vendor};

fn profile(device_local: u64, host_visible: u64) -> GpuProfile {
    GpuProfile { vendor: Vendor::Amd, device_local, host_visible_device_local: host_visible }
}

const GIB: u64 = 1024 * 1024 * 1024;
const MIB: u64 = 1024 * 1024;

/// The two configurations the distinction exists for, at the sizes real hardware
/// reports them.
#[test]
fn the_legacy_aperture_is_not_mistaken_for_a_resized_one() {
    // A 16 GiB card with Resizable BAR off: one 256 MiB window.
    assert!(!profile(16 * GIB, 256 * MIB).wide_bar(None));
    // The same card with it on.
    assert!(profile(16 * GIB, 16 * GIB).wide_bar(None));
    // A 2 GiB card with it off, and still the same 256 MiB.
    assert!(!profile(2 * GIB, 256 * MIB).wide_bar(None));
}

/// Unified memory: every type is both, so there is no staging to do.
#[test]
fn a_unified_memory_part_is_wide() {
    assert!(profile(8 * GIB, 8 * GIB).wide_bar(None));
}

/// A device advertising no host-visible video memory at all must not read as wide,
/// and neither must one reporting no device-local memory.
#[test]
fn the_degenerate_shapes_read_as_narrow() {
    assert!(!profile(16 * GIB, 0).wide_bar(None));
    assert!(!profile(0, 0).wide_bar(None));
}

#[test]
fn the_staged_path_can_be_forced() {
    assert!(!profile(8 * GIB, 8 * GIB).wide_bar(Some("1")));
    assert!(profile(8 * GIB, 8 * GIB).wide_bar(Some("0")));
    assert!(profile(8 * GIB, 8 * GIB).wide_bar(Some(" 1")));
    // Half is wide enough.
    assert!(profile(8 * GIB, 4 * GIB).wide_bar(None));
    assert!(!profile(8 * GIB, 4 * GIB - 1).wide_bar(None));
}

#[test]
fn vendors_are_known_by_their_numbers() {
    assert_eq!(Vendor::from_id(0x1002), Vendor::Amd);
    assert_eq!(Vendor::from_id(0x1022), Vendor::Amd);
    assert_eq!(Vendor::from_id(0x10DE), Vendor::Nvidia);
    assert_eq!(Vendor::from_id(0x8086), Vendor::Intel);
    assert_eq!(Vendor::from_id(0x13B5), Vendor::Other(0x13B5));
    assert_eq!(Vendor::Amd.name(), "AMD");
    assert_eq!(Vendor::Nvidia.name(), "NVIDIA");
    assert_eq!(Vendor::Intel.name(), "Intel");
    for id in [0, 1, 0xf, 0x13B5, 0xabcdef01, u32::MAX] {
        assert_eq!(Vendor::Other(id).name(), format!("vendor 0x{id:04X}"));
    }
}

/// The window is the largest heap a type reaches it through, and what counts as
/// video memory is every heap's.
#[test]
fn the_memory_shape_is_read_per_type() {
    let heaps = [
        MemoryHeap { size: 16 * GIB, device_local: true },
        MemoryHeap { size: 32 * GIB, device_local: false },
        MemoryHeap { size: 256 * MIB, device_local: true },
    ];
    let types = [
        MemoryType { heap_index: 0, device_local: true, host_visible: false },
        MemoryType { heap_index: 1, device_local: false, host_visible: true },
        MemoryType { heap_index: 2, device_local: true, host_visible: true },
    ];
    let profile = GpuProfile::detect(0x10DE, &heaps, &types);
    assert_eq!(profile.vendor, Vendor::Nvidia);
    assert_eq!(profile.device_local, 16 * GIB + 256 * MIB);
    assert_eq!(profile.host_visible_device_local, 256 * MIB);
    let resized = [MemoryType { heap_index: 0, device_local: true, host_visible: true }];
    assert_eq!(GpuProfile::detect(0, &heaps, &resized).host_visible_device_local, 16 * GIB);
    assert_eq!(GpuProfile::detect(0, &[], &[]).device_local, 0);
}

fn described(profile: &GpuProfile, wide: bool) -> String {
    let gib = |bytes: u64| bytes as f64 / (1024.0 * 1024.0 * 1024.0);
    format!(
        "{}, {:.1} GiB device-local, {:.1} GiB host-visible ({})",
        profile.vendor.name(),
        gib(profile.device_local),
        gib(profile.host_visible_device_local),
        if wide {
            "wide BAR: CPU writes go straight to VRAM"
        } else {
            "narrow BAR: static geometry is staged"
        },
    )
}

#[test]
fn the_startup_line_reads_as_floating_point_would() {
    assert_eq!(
        profile(16 * GIB, 256 * MIB).describe(None),
        "AMD, 16.0 GiB device-local, 0.2 GiB host-visible (narrow BAR: static geometry is staged)"
    );
    let mut sizes = vec![
        0, 1, MIB, 256 * MIB, GIB / 4, GIB / 2, 3 * GIB / 4, GIB, GIB + GIB / 4, GIB + 3 * GIB / 4,
        8 * GIB - 1, 8 * GIB + 1, u64::MAX / 4, u64::MAX / 2, (1 << 53) + 1, (1 << 54) + 2, (1 << 54) + 6,
        (1 << 62) + 1, (1 << 62) + (1 << 9), (1 << 62) + 3 * (1 << 9),
    ];
    // Ties and their neighbours.
    for tenths in 0..400u64 {
        let tie = (2 * tenths + 1) * GIB / 20;
        sizes.extend([tie.saturating_sub(1), tie, tie + 1]);
    }
    let mut state = 0x1234_5678_9abc_def1u64;
    for shift in 0..2000u32 {
        state = state.wrapping_mul(6364136223846793005).wrapping_add(1442695040888963407);
        sizes.push((state >> 1) >> (shift % 40));
    }
    for size in sizes {
        let text = format!("{:.1}", size as f64 / (1024.0 * 1024.0 * 1024.0));
        let tenths = gib_tenths(size);
        assert_eq!(format!("{}.{}", tenths / 10, tenths % 10), text, "{size}");
        if size <= u64::MAX / 2 {
            let profile = profile(size, size / 3);
            let wide = profile.wide_bar(None);
            assert_eq!(profile.describe(None), described(&profile, wide));
        }
    }
}
