//! What the device is, and the one renderer choice that turns on it: where a
//! buffer the CPU writes and the GPU reads should live.

use crate::text::{append_number, append_padded, padded, same, written};
use vstd::prelude::*;
use vstd::string::*;

verus! {

/// Who made the GPU, by PCI vendor ID.
///
/// Carried for diagnostics rather than for branching: no decision below reads
/// it. It is reported at startup because a performance number without the vendor
/// beside it is not reproducible.
#[derive(Clone, Copy, PartialEq, Eq, Debug, Structural)]
pub enum Vendor {
    Amd,
    Nvidia,
    Intel,
    Other(u32),
}

/// The name of a vendor, as the log shows it.
pub open spec fn name_of(vendor: Vendor) -> Seq<char> {
    match vendor {
        Vendor::Amd => "AMD"@,
        Vendor::Nvidia => "NVIDIA"@,
        Vendor::Intel => "Intel"@,
        Vendor::Other(id) => "vendor 0x"@ + padded(written(id as nat, 16), 4),
    }
}

impl Vendor {
    /// PCI-SIG vendor IDs, reported verbatim for any real PCI device.
    pub fn from_id(id: u32) -> (vendor: Self)
        ensures
            vendor == (if id == 0x1002 || id == 0x1022 {
                Vendor::Amd
            } else if id == 0x10DE {
                Vendor::Nvidia
            } else if id == 0x8086 {
                Vendor::Intel
            } else {
                Vendor::Other(id)
            }),
    {
        match id {
            0x1002 | 0x1022 => Vendor::Amd,
            0x10DE => Vendor::Nvidia,
            0x8086 => Vendor::Intel,
            other => Vendor::Other(other),
        }
    }

    pub fn name(self) -> (name: String)
        ensures
            name@ == name_of(self),
    {
        match self {
            Vendor::Amd => "AMD".to_owned(),
            Vendor::Nvidia => "NVIDIA".to_owned(),
            Vendor::Intel => "Intel".to_owned(),
            Vendor::Other(id) => {
                let mut name: String = "vendor 0x".to_owned();
                append_padded(&mut name, id as u64, 16, 4);
                name
            },
        }
    }
}

/// One heap of the device's memory.
#[derive(Clone, Copy, Debug, PartialEq, Eq, Structural)]
pub struct MemoryHeap {
    pub size: u64,
    pub device_local: bool,
}

/// One way to reach a heap.
#[derive(Clone, Copy, Debug, PartialEq, Eq, Structural)]
pub struct MemoryType {
    pub heap_index: u32,
    pub device_local: bool,
    pub host_visible: bool,
}

/// The device's memory shape and vendor, resolved once at startup.
#[derive(Clone, Copy, Debug)]
pub struct GpuProfile {
    pub vendor: Vendor,
    /// Summed size of every device-local heap: what "VRAM" means here, and on a
    /// unified-memory part, system RAM.
    pub device_local: u64,
    /// The largest heap reachable through a memory type that is both
    /// device-local and host-visible: the window the CPU can write straight into
    /// video memory through. Per type rather than per heap, because drivers
    /// expose it as a type pointing into the ordinary heap.
    pub host_visible_device_local: u64,
}

/// The device-local memory of the first `count` heaps.
pub open spec fn local_of(heaps: Seq<MemoryHeap>, count: int) -> nat
    decreases count,
{
    if count <= 0 {
        0
    } else {
        local_of(heaps, count - 1) + (if heaps[count - 1].device_local {
            heaps[count - 1].size as nat
        } else {
            0
        })
    }
}

/// Whether a memory type is a window from the CPU into video memory.
pub open spec fn is_window(ty: MemoryType) -> bool {
    ty.device_local && ty.host_visible
}

/// The largest heap that a window among the first `count` types opens on.
pub open spec fn window_of(heaps: Seq<MemoryHeap>, types: Seq<MemoryType>, count: int) -> u64
    decreases count,
{
    if count <= 0 {
        0
    } else {
        let rest = window_of(heaps, types, count - 1);
        let size = heaps[types[count - 1].heap_index as int].size;
        if is_window(types[count - 1]) && size > rest {
            size
        } else {
            rest
        }
    }
}

/// The multiple of `unit` nearest to `value`, counted in units; halfway between
/// two, the even one.
pub open spec fn nearest(value: nat, unit: nat) -> nat {
    let whole = value / unit;
    let rest = value % unit;
    if 2 * rest < unit || (2 * rest == unit && whole % 2 == 0) {
        whole
    } else {
        whole + 1
    }
}

/// How far apart the doubles around a number are, in whole steps: one below
/// `2^53`, and twice as much for each doubling past it.
pub open spec fn spacing(value: nat) -> nat
    decreases value,
{
    if value < 0x20_0000_0000_0000 {
        1
    } else {
        2 * spacing(value / 2)
    }
}

/// The double nearest to a byte count.
pub open spec fn as_double(bytes: nat) -> nat {
    nearest(bytes, spacing(bytes)) * spacing(bytes)
}

/// A byte count as tenths of a GiB: the double nearest to it, divided, and
/// rounded to one decimal.
pub open spec fn tenths_of_gib(bytes: nat) -> nat {
    nearest(10 * as_double(bytes), 0x4000_0000)
}

/// A number of tenths with its decimal point.
pub open spec fn with_point(tenths: nat) -> Seq<char> {
    written(tenths / 10, 10) + "."@ + written(tenths % 10, 10)
}

/// Whether the window is wide, where nothing forces the answer: it covers at
/// least half of a memory that is there at all.
pub open spec fn is_wide(device_local: u64, window: u64) -> bool {
    window * 2 >= device_local && device_local > 0
}

proof fn local_grows(heaps: Seq<MemoryHeap>, low: int, high: int)
    requires
        low <= high,
    ensures
        local_of(heaps, low) <= local_of(heaps, high),
    decreases high - low,
{
    if low < high {
        local_grows(heaps, low, high - 1);
    }
}

fn round_to(value: u128, unit: u128) -> (count: u128)
    requires
        1 <= unit <= 0x4000_0000,
        value < 0x1_0000_0000_0000_0000_0000,
    ensures
        count == nearest(value as nat, unit as nat),
        count <= value / unit + 1,
{
    let whole: u128 = value / unit;
    let rest: u128 = value % unit;
    proof {
        assert(whole <= value) by (nonlinear_arith)
            requires
                whole == value / unit,
                unit >= 1,
        ;
    }
    if 2 * rest < unit || (2 * rest == unit && whole % 2 == 0) {
        whole
    } else {
        whole + 1
    }
}

fn double_spacing(bytes: u64) -> (unit: u64)
    ensures
        unit == spacing(bytes as nat),
        1 <= unit <= 2048,
{
    proof {
        reveal_with_fuel(spacing, 13);
    }
    if bytes < 0x20_0000_0000_0000 {
        return 1;
    }
    if bytes < 0x40_0000_0000_0000 {
        return 2;
    }
    if bytes < 0x80_0000_0000_0000 {
        return 4;
    }
    if bytes < 0x100_0000_0000_0000 {
        return 8;
    }
    if bytes < 0x200_0000_0000_0000 {
        return 16;
    }
    if bytes < 0x400_0000_0000_0000 {
        return 32;
    }
    if bytes < 0x800_0000_0000_0000 {
        return 64;
    }
    if bytes < 0x1000_0000_0000_0000 {
        return 128;
    }
    if bytes < 0x2000_0000_0000_0000 {
        return 256;
    }
    if bytes < 0x4000_0000_0000_0000 {
        return 512;
    }
    if bytes < 0x8000_0000_0000_0000 {
        return 1024;
    }
    2048
}

/// A byte count as tenths of a GiB, rounded the way one decimal of it is.
pub fn gib_tenths(bytes: u64) -> (tenths: u64)
    ensures
        tenths == tenths_of_gib(bytes as nat),
{
    let unit: u64 = double_spacing(bytes);
    let count: u128 = round_to(bytes as u128, unit as u128);
    proof {
        assert(bytes as u128 / unit as u128 * unit as u128 <= bytes) by (nonlinear_arith)
            requires
                unit >= 1,
        ;
        assert(count * unit <= bytes + 2048) by (nonlinear_arith)
            requires
                count <= bytes as u128 / unit as u128 + 1,
                bytes as u128 / unit as u128 * unit as u128 <= bytes,
                1 <= unit <= 2048,
        ;
    }
    let double: u128 = count * (unit as u128);
    let tenths: u128 = round_to(10 * double, 0x4000_0000);
    tenths as u64
}

fn append_gib(text: &mut String, bytes: u64)
    ensures
        final(text)@ == old(text)@ + with_point(tenths_of_gib(bytes as nat)),
{
    let ghost before = text@;
    let tenths: u64 = gib_tenths(bytes);
    append_number(text, tenths / 10, 10);
    text.append(".");
    append_number(text, tenths % 10, 10);
    assert(text@ =~= before + with_point(tenths_of_gib(bytes as nat)));
}

impl GpuProfile {
    /// Whether the CPU can write into video memory at large, under a setting
    /// that forces the answer to no where it reads `1`.
    pub open spec fn wide(&self, narrow_bar: Option<&str>) -> bool {
        !(narrow_bar is Some && narrow_bar->0@ == "1"@) && is_wide(
            self.device_local,
            self.host_visible_device_local,
        )
    }

    /// The line for the startup log.
    pub open spec fn described(&self, narrow_bar: Option<&str>) -> Seq<char> {
        name_of(self.vendor) + ", "@ + with_point(tenths_of_gib(self.device_local as nat))
            + " GiB device-local, "@ + with_point(
            tenths_of_gib(self.host_visible_device_local as nat),
        ) + " GiB host-visible ("@ + (if self.wide(narrow_bar) {
            "wide BAR: CPU writes go straight to VRAM"@
        } else {
            "narrow BAR: static geometry is staged"@
        }) + ")"@
    }

    /// Resolve a device's memory shape from its heaps and the ways to reach them.
    pub fn detect(vendor_id: u32, heaps: &[MemoryHeap], types: &[MemoryType]) -> (profile: Self)
        requires
            local_of(heaps@, heaps@.len() as int) <= u64::MAX,
            forall|i: int|
                0 <= i < types@.len() && is_window(#[trigger] types@[i]) ==> types@[i].heap_index
                    < heaps@.len(),
        ensures
            profile.vendor == (if vendor_id == 0x1002 || vendor_id == 0x1022 {
                Vendor::Amd
            } else if vendor_id == 0x10DE {
                Vendor::Nvidia
            } else if vendor_id == 0x8086 {
                Vendor::Intel
            } else {
                Vendor::Other(vendor_id)
            }),
            profile.device_local == local_of(heaps@, heaps@.len() as int),
            profile.host_visible_device_local == window_of(
                heaps@,
                types@,
                types@.len() as int,
            ),
    {
        let mut device_local: u64 = 0;
        let mut i: usize = 0;
        while i < heaps.len()
            invariant
                i <= heaps@.len(),
                local_of(heaps@, heaps@.len() as int) <= u64::MAX,
                device_local == local_of(heaps@, i as int),
            decreases heaps@.len() - i,
        {
            proof {
                local_grows(heaps@, i as int + 1, heaps@.len() as int);
            }
            if heaps[i].device_local {
                device_local = device_local + heaps[i].size;
            }
            i = i + 1;
        }
        let mut window: u64 = 0;
        let mut j: usize = 0;
        while j < types.len()
            invariant
                j <= types@.len(),
                forall|k: int|
                    0 <= k < types@.len() && is_window(#[trigger] types@[k])
                        ==> types@[k].heap_index < heaps@.len(),
                window == window_of(heaps@, types@, j as int),
            decreases types@.len() - j,
        {
            let ty = types[j];
            if ty.device_local && ty.host_visible {
                assert(is_window(types@[j as int]));
                let size: u64 = heaps[ty.heap_index as usize].size;
                if size > window {
                    window = size;
                }
            }
            j = j + 1;
        }
        GpuProfile {
            vendor: Vendor::from_id(vendor_id),
            device_local,
            host_visible_device_local: window,
        }
    }

    /// Whether the CPU can write into video memory at large: Resizable BAR on a
    /// discrete card, and always on a unified-memory part.
    ///
    /// A ratio rather than a byte count because the two configurations differ by
    /// orders of magnitude: the legacy aperture is fixed whatever the card has,
    /// while a resized bar covers all of it. `narrow_bar` is a setting that forces
    /// the answer to `false` where it reads `1`, so that the staged path stays a
    /// tested one.
    pub fn wide_bar(&self, narrow_bar: Option<&str>) -> (wide: bool)
        requires
            self.host_visible_device_local * 2 <= u64::MAX,
        ensures
            wide == self.wide(narrow_bar),
    {
        if let Some(forced) = narrow_bar {
            if same(forced, "1") {
                return false;
            }
        }
        self.host_visible_device_local * 2 >= self.device_local && self.device_local > 0
    }

    /// One line for the startup log, next to the device name.
    pub fn describe(&self, narrow_bar: Option<&str>) -> (line: String)
        requires
            self.host_visible_device_local * 2 <= u64::MAX,
        ensures
            line@ == self.described(narrow_bar),
    {
        let mut line: String = self.vendor.name();
        line.append(", ");
        append_gib(&mut line, self.device_local);
        line.append(" GiB device-local, ");
        append_gib(&mut line, self.host_visible_device_local);
        line.append(" GiB host-visible (");
        if self.wide_bar(narrow_bar) {
            line.append("wide BAR: CPU writes go straight to VRAM");
        } else {
            line.append("narrow BAR: static geometry is staged");
        }
        line.append(")");
        line
    }
}

/// **Unified memory is wide.** A window over everything the device has is wide,
/// as long as it has something and nothing forces the answer.
pub proof fn unified_memory_is_wide(profile: GpuProfile)
    requires
        profile.host_visible_device_local >= profile.device_local > 0,
    ensures
        profile.wide(None),
{
}

/// **No window is narrow.** A device the CPU cannot write into never reads as
/// wide, nor does one that reports no memory at all.
pub proof fn nothing_visible_is_narrow(profile: GpuProfile, narrow_bar: Option<&str>)
    requires
        profile.host_visible_device_local == 0 || profile.device_local == 0,
    ensures
        !profile.wide(narrow_bar),
{
}

/// **Video memory is the sum of what is local**, heap by heap; memory that is not adds
/// nothing to it.
pub proof fn local_memory_adds_up(heaps: Seq<MemoryHeap>, heap: int)
    requires
        0 <= heap,
    ensures
        local_of(heaps, 0) == 0,
        heaps[heap].device_local ==> local_of(heaps, heap + 1) == local_of(heaps, heap)
            + heaps[heap].size,
        !heaps[heap].device_local ==> local_of(heaps, heap + 1) == local_of(heaps, heap),
{
}

/// **The window is the widest there is.** It is as large as a heap that some type opens
/// both to the device and to the CPU, and no such heap is larger; without any there is
/// no window.
pub proof fn windows_are_the_widest(
    heaps: Seq<MemoryHeap>,
    types: Seq<MemoryType>,
    ty: int,
    count: int,
)
    requires
        0 <= count <= types.len(),
    ensures
        0 <= ty < count && types[ty].device_local && types[ty].host_visible ==> window_of(
            heaps,
            types,
            count,
        ) >= heaps[types[ty].heap_index as int].size,
        window_of(heaps, types, count) > 0 ==> exists|k: int|
            #![trigger types[k]]
            0 <= k < count && types[k].device_local && types[k].host_visible
                && heaps[types[k].heap_index as int].size == window_of(heaps, types, count),
    decreases count,
{
    if count > 0 {
        windows_are_the_widest(heaps, types, ty, count - 1);
        let rest = window_of(heaps, types, count - 1);
        let last = types[count - 1];
        if window_of(heaps, types, count) == rest && rest > 0 {
            let k = choose|k: int|
                #![trigger types[k]]
                0 <= k < count - 1 && types[k].device_local && types[k].host_visible
                    && heaps[types[k].heap_index as int].size == rest;
            assert(0 <= k < count && heaps[types[k].heap_index as int].size == window_of(
                heaps,
                types,
                count,
            ));
        } else {
            assert(last == types[count - 1]);
        }
    }
}

/// **A window over half of the memory is wide, and one over less is not**; forced, none
/// is.
pub proof fn half_the_memory_is_wide(profile: GpuProfile, narrow_bar: Option<&str>)
    ensures
        ({
            let forced = narrow_bar is Some && narrow_bar->0@ == "1"@;
            &&& forced ==> !profile.wide(narrow_bar)
            &&& !forced ==> (profile.wide(narrow_bar) <==> profile.device_local > 0 && 2
                * profile.host_visible_device_local >= profile.device_local)
        }),
{
}

/// **Rounding goes to the nearest, and to the even one between two.**
pub proof fn rounding_is_to_the_nearest(value: nat, unit: nat)
    requires
        unit >= 1,
    ensures
        2 * (nearest(value, unit) * unit - value) <= unit,
        2 * (value - nearest(value, unit) * unit) <= unit,
        2 * (nearest(value, unit) * unit - value) == unit || 2 * (value - nearest(value, unit)
            * unit) == unit ==> nearest(value, unit) % 2 == 0,
{
    let whole = value / unit;
    let rest = value % unit;
    vstd::arithmetic::div_mod::lemma_fundamental_div_mod(value as int, unit as int);
    vstd::arithmetic::div_mod::lemma_mod_bound(value as int, unit as int);
    assert(whole * unit == unit * whole) by (nonlinear_arith);
    assert((whole + 1) * unit == whole * unit + unit) by (nonlinear_arith);
}

/// **A double holds fifty-three bits.** The spacing around a number is the least power
/// of two that leaves it no more.
pub proof fn spacings_leave_fifty_three_bits(value: nat)
    ensures
        spacing(value) >= 1,
        value / spacing(value) < 0x20_0000_0000_0000,
        spacing(value) > 1 ==> value / spacing(value) >= 0x10_0000_0000_0000,
        spacing(value) > 1 ==> spacing(value) % 2 == 0,
    decreases value,
{
    if value >= 0x20_0000_0000_0000 {
        spacings_leave_fifty_three_bits(value / 2);
        let half = spacing(value / 2);
        assert(value / 2 / half == value / (2 * half)) by {
            vstd::arithmetic::div_mod::lemma_div_denominator(value as int, 2, half as int);
        }
        if half == 1 {
            assert(value / 2 >= 0x10_0000_0000_0000);
        }
    }
}

/// **A vendor is called by its name**, and one without a name by its number.
pub proof fn vendors_have_their_names(id: u32)
    ensures
        name_of(Vendor::Amd) == "AMD"@,
        name_of(Vendor::Nvidia) == "NVIDIA"@,
        name_of(Vendor::Intel) == "Intel"@,
        name_of(Vendor::Other(id)) == "vendor 0x"@ + padded(written(id as nat, 16), 4),
{
}

/// **Tenths have one digit behind the point.**
pub proof fn tenths_have_their_point(whole: nat, tenth: nat)
    requires
        tenth < 10,
    ensures
        with_point(10 * whole + tenth) == written(whole, 10) + "."@ + written(tenth, 10),
{
    assert((10 * whole + tenth) / 10 == whole);
    assert((10 * whole + tenth) % 10 == tenth);
}

} // verus!
