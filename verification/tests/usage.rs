use gpu_hal::command::BufferBarrier;
use gpu_hal::command::TextureBarrier;
use gpu_hal::resource::Buffer;
use gpu_hal::resource::DeviceId;
use gpu_hal::resource::RawHandle;
use gpu_hal::resource::Texture;
use gpu_hal::types::ImageSubresourceRange;
use gpu_hal::types::TextureAspect;
use gpu_hal::usage::AccelerationStructureUses;
use gpu_hal::usage::BufferUses;
use gpu_hal::usage::TextureUses;

const BUFFER_FLAGS: [u16; 14] = [
    BufferUses::MAP_READ,
    BufferUses::MAP_WRITE,
    BufferUses::COPY_SRC,
    BufferUses::COPY_DST,
    BufferUses::INDEX,
    BufferUses::VERTEX,
    BufferUses::UNIFORM,
    BufferUses::STORAGE_READ,
    BufferUses::STORAGE_READ_WRITE,
    BufferUses::INDIRECT,
    BufferUses::QUERY_RESOLVE,
    BufferUses::ACCELERATION_STRUCTURE_SCRATCH,
    BufferUses::BOTTOM_LEVEL_ACCELERATION_STRUCTURE_INPUT,
    BufferUses::TOP_LEVEL_ACCELERATION_STRUCTURE_INPUT,
];

#[test]
fn buffer_flags_are_single_bits_in_order() {
    for (position, flag) in BUFFER_FLAGS.iter().enumerate() {
        assert_eq!(*flag, 1u16 << position);
    }
    assert_eq!(BufferUses::ALL, 0x3fff);
    assert_eq!(BufferUses::all().bits(), 0x3fff);
}

#[test]
fn buffer_composite_masks_are_unions_of_their_flags() {
    assert_eq!(
        BufferUses::INCLUSIVE,
        BufferUses::MAP_READ
            | BufferUses::COPY_SRC
            | BufferUses::INDEX
            | BufferUses::VERTEX
            | BufferUses::UNIFORM
            | BufferUses::STORAGE_READ
            | BufferUses::INDIRECT
            | BufferUses::BOTTOM_LEVEL_ACCELERATION_STRUCTURE_INPUT
            | BufferUses::TOP_LEVEL_ACCELERATION_STRUCTURE_INPUT
    );
    assert_eq!(
        BufferUses::EXCLUSIVE,
        BufferUses::MAP_WRITE
            | BufferUses::COPY_DST
            | BufferUses::STORAGE_READ_WRITE
            | BufferUses::ACCELERATION_STRUCTURE_SCRATCH
    );
    assert_eq!(BufferUses::ORDERED, BufferUses::INCLUSIVE | BufferUses::MAP_WRITE);
}

#[test]
fn texture_composite_masks_are_unions_of_their_flags() {
    assert_eq!(
        TextureUses::INCLUSIVE,
        TextureUses::COPY_SRC | TextureUses::RESOURCE | TextureUses::DEPTH_STENCIL_READ
    );
    assert_eq!(
        TextureUses::EXCLUSIVE,
        TextureUses::COPY_DST
            | TextureUses::COLOR_TARGET
            | TextureUses::DEPTH_STENCIL_WRITE
            | TextureUses::STORAGE_READ
            | TextureUses::STORAGE_READ_WRITE
            | TextureUses::PRESENT
    );
    assert_eq!(
        TextureUses::ORDERED,
        TextureUses::INCLUSIVE
            | TextureUses::COLOR_TARGET
            | TextureUses::DEPTH_STENCIL_WRITE
            | TextureUses::STORAGE_READ
    );
    assert_eq!(TextureUses::COMPLEX, 1 << 10);
    assert_eq!(TextureUses::UNKNOWN, 1 << 11);
    assert_eq!(TextureUses::ALL, 0x0fff);
}

#[test]
fn inclusive_and_exclusive_share_no_usage() {
    assert_eq!(BufferUses::INCLUSIVE & BufferUses::EXCLUSIVE, 0);
    assert_eq!(TextureUses::INCLUSIVE & TextureUses::EXCLUSIVE, 0);
    let inclusive = BufferUses::from_bits_retain(BufferUses::INCLUSIVE);
    let exclusive = BufferUses::from_bits_retain(BufferUses::EXCLUSIVE);
    assert!(inclusive.intersection(exclusive).is_empty());
    assert!(!inclusive.intersects(exclusive));
    let inclusive = TextureUses::from_bits_retain(TextureUses::INCLUSIVE);
    let exclusive = TextureUses::from_bits_retain(TextureUses::EXCLUSIVE);
    assert!(inclusive.intersection(exclusive).is_empty());
}

#[test]
fn no_set_of_inclusive_usages_holds_an_exclusive_one() {
    for bits in 0..=BufferUses::ALL {
        let uses = BufferUses::from_bits_retain(bits);
        if bits & BufferUses::INCLUSIVE == bits {
            assert!(!uses.any_exclusive());
            assert!(uses.is_valid_state());
            assert!(uses.all_ordered());
        }
    }
    for bits in 0..=TextureUses::ALL {
        let uses = TextureUses::from_bits_retain(bits);
        if bits & TextureUses::INCLUSIVE == bits {
            assert!(!uses.any_exclusive());
            assert!(uses.is_valid_state());
            assert!(uses.all_ordered());
        }
    }
}

#[test]
fn same_ordered_usage_needs_no_transition() {
    for bits in 0..=BufferUses::ALL {
        let uses = BufferUses::from_bits_retain(bits);
        let ordered = bits & BufferUses::ORDERED == bits;
        assert_eq!(BufferUses::requires_transition(uses, uses), !ordered);
    }
    for bits in 0..=TextureUses::ALL {
        let uses = TextureUses::from_bits_retain(bits);
        let ordered = bits & TextureUses::ORDERED == bits;
        assert_eq!(TextureUses::requires_transition(uses, uses), !ordered);
    }
}

#[test]
fn a_change_of_usage_needs_a_transition() {
    let vertex = BufferUses::from_bits_retain(BufferUses::VERTEX);
    let index = BufferUses::from_bits_retain(BufferUses::INDEX);
    assert!(BufferUses::requires_transition(vertex, index));
    assert!(BufferUses::requires_transition(index, vertex));
    assert!(!BufferUses::requires_transition(vertex, vertex));
    let resource = TextureUses::from_bits_retain(TextureUses::RESOURCE);
    let target = TextureUses::from_bits_retain(TextureUses::COLOR_TARGET);
    assert!(TextureUses::requires_transition(resource, target));
    assert!(!TextureUses::requires_transition(target, target));
}

#[test]
fn an_unordered_usage_needs_a_transition_even_when_it_stays() {
    let copy_dst = BufferUses::from_bits_retain(BufferUses::COPY_DST);
    assert!(BufferUses::requires_transition(copy_dst, copy_dst));
    let storage = BufferUses::from_bits_retain(BufferUses::STORAGE_READ_WRITE);
    assert!(BufferUses::requires_transition(storage, storage));
    let map_write = BufferUses::from_bits_retain(BufferUses::MAP_WRITE);
    assert!(!BufferUses::requires_transition(map_write, map_write));
    let copy_dst = TextureUses::from_bits_retain(TextureUses::COPY_DST);
    assert!(TextureUses::requires_transition(copy_dst, copy_dst));
    let present = TextureUses::from_bits_retain(TextureUses::PRESENT);
    assert!(TextureUses::requires_transition(present, present));
    let storage_read = TextureUses::from_bits_retain(TextureUses::STORAGE_READ);
    assert!(!TextureUses::requires_transition(storage_read, storage_read));
}

#[test]
fn exclusive_usage_is_valid_only_alone() {
    let copy_dst = BufferUses::from_bits_retain(BufferUses::COPY_DST);
    assert!(copy_dst.is_valid_state());
    let mixed = BufferUses::from_bits_retain(BufferUses::COPY_DST | BufferUses::MAP_READ);
    assert!(!mixed.is_valid_state());
    let readers = BufferUses::from_bits_retain(BufferUses::COPY_SRC | BufferUses::VERTEX);
    assert!(readers.is_valid_state());
    assert!(BufferUses::empty().is_valid_state());
    for bits in 0..=BufferUses::ALL {
        let uses = BufferUses::from_bits_retain(bits);
        let expected = bits & BufferUses::EXCLUSIVE == 0 || bits.count_ones() == 1;
        assert_eq!(uses.is_valid_state(), expected);
    }
    for bits in 0..=TextureUses::ALL {
        let uses = TextureUses::from_bits_retain(bits);
        let expected = bits & TextureUses::EXCLUSIVE == 0 || bits.count_ones() == 1;
        assert_eq!(uses.is_valid_state(), expected);
    }
}

#[test]
fn from_bits_refuses_unnamed_bits() {
    assert!(BufferUses::from_bits(0x4000).is_none());
    assert_eq!(BufferUses::from_bits(0x0009).map(|uses| uses.bits()), Some(0x0009));
    assert_eq!(BufferUses::from_bits_truncate(0xc009).bits(), 0x0009);
    assert_eq!(BufferUses::from_bits_retain(0xc009).bits(), 0xc009);
    assert!(TextureUses::from_bits(0x1000).is_none());
    assert_eq!(TextureUses::from_bits_truncate(0xf010).bits(), 0x0010);
    assert!(AccelerationStructureUses::from_bits(0x08).is_none());
    assert_eq!(AccelerationStructureUses::all().bits(), 0x07);
}

#[test]
fn set_operations_follow_the_bits() {
    let a = BufferUses::from_bits_retain(0b0110);
    let b = BufferUses::from_bits_retain(0b1100);
    assert_eq!(a.union(b).bits(), 0b1110);
    assert_eq!(a.intersection(b).bits(), 0b0100);
    assert_eq!(a.difference(b).bits(), 0b0010);
    assert_eq!(a.symmetric_difference(b).bits(), 0b1010);
    assert_eq!(a.complement().bits(), 0x3fff & !0b0110);
    assert!(a.intersects(b));
    assert!(!a.contains(b));
    assert!(a.union(b).contains(a));
    assert!(BufferUses::all().is_all());
    assert!(!a.is_all());
    assert!(BufferUses::empty().is_empty());
    let mut c = a;
    c.insert(b);
    assert_eq!(c.bits(), 0b1110);
    c.remove(a);
    assert_eq!(c.bits(), 0b1000);
    c.toggle(b);
    assert_eq!(c.bits(), 0b0100);
    c.set(a, true);
    assert_eq!(c.bits(), 0b0110);
    c.set(a, false);
    assert_eq!(c.bits(), 0);
}

#[test]
fn acceleration_structure_uses_are_three_flags() {
    assert_eq!(AccelerationStructureUses::BUILD_INPUT, 1);
    assert_eq!(AccelerationStructureUses::BUILD_OUTPUT, 2);
    assert_eq!(AccelerationStructureUses::SHADER_INPUT, 4);
    let input = AccelerationStructureUses::from_bits_retain(AccelerationStructureUses::BUILD_INPUT);
    let output =
        AccelerationStructureUses::from_bits_retain(AccelerationStructureUses::BUILD_OUTPUT);
    assert!(!input.intersects(output));
    assert_eq!(input.union(output).bits(), 3);
}

#[test]
fn a_barrier_is_needed_unless_an_ordered_usage_stays() {
    let raw = RawHandle { device: DeviceId { adapter: 0, serial: 0 }, index: 0 };
    let vertex = BufferUses::from_bits_retain(BufferUses::VERTEX);
    let copy_dst = BufferUses::from_bits_retain(BufferUses::COPY_DST);
    let buffer = Buffer { raw };
    assert!(!BufferBarrier { buffer, usage: vertex..vertex }.is_needed());
    assert!(BufferBarrier { buffer, usage: vertex..copy_dst }.is_needed());
    assert!(BufferBarrier { buffer, usage: copy_dst..copy_dst }.is_needed());
    let range = ImageSubresourceRange {
        aspect: TextureAspect::All,
        base_mip_level: 0,
        mip_level_count: None,
        base_array_layer: 0,
        array_layer_count: None,
    };
    let texture = Texture { raw, surface: None };
    let target = TextureUses::from_bits_retain(TextureUses::COLOR_TARGET);
    let present = TextureUses::from_bits_retain(TextureUses::PRESENT);
    assert!(!TextureBarrier { texture, range, usage: target..target }.is_needed());
    assert!(TextureBarrier { texture, range, usage: target..present }.is_needed());
    assert!(TextureBarrier { texture, range, usage: present..present }.is_needed());
}
