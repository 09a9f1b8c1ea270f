use narcissus::vulkan::flags::{AccessFlags2, PipelineStageFlags, QueueFlags};
use narcissus::vulkan::types::Bool32;
use narcissus::vulkan::version::{
    get_version, make_version, VERSION_1_0, VERSION_1_1, VERSION_1_2, VERSION_1_3,
};
use narcissus::vulkan_external::handles::{Buffer, Instance};
use narcissus::vulkan_external::structs::{Extent2d, ImageSubresourceRange, PhysicalDeviceFeatures};

#[test]
fn version_packing() {
    assert_eq!(make_version(1, 0, 0), VERSION_1_0);
    assert_eq!(make_version(1, 1, 0), VERSION_1_1);
    assert_eq!(make_version(1, 2, 0), VERSION_1_2);
    assert_eq!(make_version(1, 3, 0), VERSION_1_3);
    assert_eq!(get_version(make_version(1, 3, 250)), (1, 3, 250));
    assert_eq!(get_version(0xffff_ffff), (0x3ff, 0x3ff, 0xfff));
    assert!(make_version(1, 2, 4095) < make_version(1, 3, 0));
}

#[test]
fn flag_set_operations() {
    let graphics = QueueFlags::from_raw(1);
    let compute = QueueFlags::from_raw(2);
    let both = graphics | compute;
    assert_eq!(both.as_raw(), 3);
    assert!(both.contains(graphics));
    assert!(both.contains(compute));
    assert!(!graphics.contains(both));
    assert!(both.intersects(graphics));
    assert!(!graphics.intersects(compute));
    assert_eq!((both & compute).as_raw(), 2);
    assert_eq!((both ^ graphics).as_raw(), 2);
    assert_eq!(both.cardinality(), 2);
    assert_eq!(QueueFlags::default().as_raw(), 0);
    assert_eq!(QueueFlags::default().cardinality(), 0);
}

#[test]
fn flag_assign_operations() {
    let mut stages = PipelineStageFlags::from_raw(0x1);
    stages |= PipelineStageFlags::from_raw(0x8);
    assert_eq!(stages.as_raw(), 0x9);
    stages &= PipelineStageFlags::from_raw(0x8);
    assert_eq!(stages.as_raw(), 0x8);
    stages ^= PipelineStageFlags::from_raw(0x18);
    assert_eq!(stages.as_raw(), 0x10);
    assert_eq!(PipelineStageFlags::from_raw(0x7FFF_FFFF).cardinality(), 31);
}

#[test]
fn wide_flags() {
    let a = AccessFlags2::from_raw(0x1_0000_0001);
    assert_eq!(a.cardinality(), 2);
    assert_eq!(AccessFlags2::from_raw(u64::MAX).cardinality(), 64);
    assert!(a.contains(AccessFlags2::from_raw(0x1_0000_0000)));
}

#[test]
fn handles() {
    assert!(Instance::null().is_null());
    assert!(Instance::default().is_null());
    let b = Buffer::from_raw(0xdead_beef);
    assert!(!b.is_null());
    assert_eq!(b.as_raw(), 0xdead_beef);
    assert_eq!(b, Buffer::from_raw(0xdead_beef));
}

#[test]
fn plain_structs() {
    assert_eq!(Bool32::default(), Bool32::False);
    assert_eq!(Bool32::True.as_raw(), 1);
    assert_eq!(Bool32::False.as_raw(), 0);
    let e = Extent2d::default();
    assert_eq!(e, Extent2d { width: 0, height: 0 });
    let r = ImageSubresourceRange::default();
    assert_eq!(r.layer_count, 0);
    assert_eq!(r.aspect_mask.as_raw(), 0);
    let f = PhysicalDeviceFeatures::default();
    assert_eq!(f.robust_buffer_access, Bool32::False);
    assert_eq!(f.inherited_queries, Bool32::False);
}

#[test]
fn flag_laws_on_values() {
    let a = QueueFlags::from_raw(0b1011);
    let b = QueueFlags::from_raw(0b0110);
    // Toggling twice restores the set.
    assert_eq!((a ^ b) ^ b, a);
    // Inclusion-exclusion of cardinalities.
    assert_eq!((a | b).cardinality() + (a & b).cardinality(), a.cardinality() + b.cardinality());
    // Containment is transitive.
    let c = QueueFlags::from_raw(0b0010);
    assert!(a.contains(c) && (a | b).contains(a) && (a | b).contains(c));
    // The intersection is contained in both sets.
    assert!(a.contains(a & b) && b.contains(a & b));
}
