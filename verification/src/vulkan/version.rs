//! Packed Vulkan API version numbers: 10 bits of major version, 10 bits of minor version and 12
//! bits of patch version.
use vstd::prelude::*;

verus! {

/// The packed version number for `major.minor.patch`.
pub open spec fn version_bits(major: u32, minor: u32, patch: u32) -> u32 {
    (major << 22u32) | (minor << 12u32) | patch
}

/// The `(major, minor, patch)` fields of a packed version number.
pub open spec fn version_parts(ver: u32) -> (u32, u32, u32) {
    (ver >> 22u32, (ver >> 12u32) & 0x3ffu32, ver & 0xfffu32)
}

pub const VERSION_1_0: u32 = 0x0040_0000;
pub const VERSION_1_1: u32 = 0x0040_1000;
pub const VERSION_1_2: u32 = 0x0040_2000;
pub const VERSION_1_3: u32 = 0x0040_3000;

/// Packs a version number.
pub fn make_version(major: u32, minor: u32, patch: u32) -> (res: u32)
    ensures
        res == version_bits(major, minor, patch),
        major < 0x400 && minor < 0x400 && patch < 0x1000 ==> res == major * 0x40_0000 + minor
            * 0x1000 + patch,
{
    proof {
        assert(major < 0x400 && minor < 0x400 && patch < 0x1000 ==> (major << 22u32) | (minor
            << 12u32) | patch == major * 0x40_0000 + minor * 0x1000 + patch) by (bit_vector);
    }
    (major << 22u32) | (minor << 12u32) | patch
}

/// Splits a packed version number into `(major, minor, patch)`.
pub fn get_version(ver: u32) -> (res: (u32, u32, u32))
    ensures
        res == version_parts(ver),
        res.0 == ver / 0x40_0000,
        res.1 == (ver / 0x1000) % 0x400,
        res.2 == ver % 0x1000,
{
    proof {
        assert(ver >> 22u32 == ver / 0x40_0000 && (ver >> 12u32) & 0x3ffu32 == (ver / 0x1000)
            % 0x400 && ver & 0xfffu32 == ver % 0x1000) by (bit_vector);
    }
    (ver >> 22u32, (ver >> 12u32) & 0x3ffu32, ver & 0xfffu32)
}

/// Packing a version whose fields fit their widths and unpacking it gives the fields back.
pub proof fn law_version_round_trip(major: u32, minor: u32, patch: u32)
    requires
        major < 0x400,
        minor < 0x400,
        patch < 0x1000,
    ensures
        version_parts(version_bits(major, minor, patch)) == (major, minor, patch),
{
    let v = version_bits(major, minor, patch);
    assert(v >> 22u32 == major && (v >> 12u32) & 0x3ffu32 == minor && v & 0xfffu32 == patch)
        by (bit_vector)
        requires
            v == (major << 22u32) | (minor << 12u32) | patch,
            major < 0x400,
            minor < 0x400,
            patch < 0x1000,
    ;
}

/// Unpacking any version number and packing its fields again gives the same number.
pub proof fn law_version_parts_repack(ver: u32)
    ensures
        version_bits(version_parts(ver).0, version_parts(ver).1, version_parts(ver).2) == ver,
{
    assert(((ver >> 22u32) << 22u32) | ((((ver >> 12u32) & 0x3ffu32)) << 12u32) | (ver
        & 0xfffu32) == ver) by (bit_vector);
}

/// Versions are ordered by major, then minor, then patch number.
pub proof fn law_version_order(a: (u32, u32, u32), b: (u32, u32, u32))
    requires
        a.0 < 0x400 && a.1 < 0x400 && a.2 < 0x1000,
        b.0 < 0x400 && b.1 < 0x400 && b.2 < 0x1000,
    ensures
        version_bits(a.0, a.1, a.2) < version_bits(b.0, b.1, b.2) <==> (a.0 < b.0 || (a.0 == b.0
            && (a.1 < b.1 || (a.1 == b.1 && a.2 < b.2)))),
{
    let (x0, x1, x2) = a;
    let (y0, y1, y2) = b;
    assert(((x0 << 22u32) | (x1 << 12u32) | x2) < ((y0 << 22u32) | (y1 << 12u32) | y2) <==> (x0
        < y0 || (x0 == y0 && (x1 < y1 || (x1 == y1 && x2 < y2))))) by (bit_vector)
        requires
            x0 < 0x400 && x1 < 0x400 && x2 < 0x1000,
            y0 < 0x400 && y1 < 0x400 && y2 < 0x1000,
    ;
}

} // verus!
