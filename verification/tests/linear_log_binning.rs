use narcissus::linear_log_binning::Bin;

pub const LINEAR_REGION_LOG2: u32 = 7;
pub const SUB_BIN_COUNT_LOG2: u32 = 5;
pub const SUB_BIN_COUNT: u32 = 1 << SUB_BIN_COUNT_LOG2;

fn make_bin(
    rounded_size: u32,
    bin: u32,
    sub_bin: u32,
) -> (u32, Bin<LINEAR_REGION_LOG2, SUB_BIN_COUNT_LOG2>) {
    (
        rounded_size,
        Bin {
            index: bin * SUB_BIN_COUNT + sub_bin,
        },
    )
}

#[test]
fn bin_from_size_round_up() {
    // Cases up to end of linear region.
    assert_eq!(Bin::from_size_round_up(0), make_bin(0, 0, 0));

    assert_eq!(Bin::from_size_round_up(1), make_bin(4, 0, 1));
    assert_eq!(Bin::from_size_round_up(2), make_bin(4, 0, 1));
    assert_eq!(Bin::from_size_round_up(3), make_bin(4, 0, 1));
    assert_eq!(Bin::from_size_round_up(4), make_bin(4, 0, 1));

    assert_eq!(Bin::from_size_round_up(5), make_bin(8, 0, 2));
    assert_eq!(Bin::from_size_round_up(6), make_bin(8, 0, 2));
    assert_eq!(Bin::from_size_round_up(7), make_bin(8, 0, 2));
    assert_eq!(Bin::from_size_round_up(8), make_bin(8, 0, 2));

    assert_eq!(Bin::from_size_round_up(121), make_bin(124, 0, 31));
    assert_eq!(Bin::from_size_round_up(122), make_bin(124, 0, 31));
    assert_eq!(Bin::from_size_round_up(123), make_bin(124, 0, 31));
    assert_eq!(Bin::from_size_round_up(124), make_bin(124, 0, 31));

    assert_eq!(Bin::from_size_round_up(125), make_bin(128, 1, 0));
    assert_eq!(Bin::from_size_round_up(126), make_bin(128, 1, 0));
    assert_eq!(Bin::from_size_round_up(127), make_bin(128, 1, 0));
    assert_eq!(Bin::from_size_round_up(128), make_bin(128, 1, 0));

    // Check all bin thresholds.
    for i in 0..32 - LINEAR_REGION_LOG2 - 1 {
        let bin = i + 1;
        let base = 1 << i + LINEAR_REGION_LOG2;
        let step = base >> SUB_BIN_COUNT_LOG2;
        for sub_bin in 0..SUB_BIN_COUNT as u32 {
            let size = base + sub_bin * step;
            assert_eq!(Bin::from_size_round_up(size), make_bin(size, bin, sub_bin));
            assert_eq!(make_bin(size, bin, sub_bin), (size, Bin::new(bin, sub_bin)));

            let next_size = base + (sub_bin + 1) * step;
            let next_bin = bin + (sub_bin == SUB_BIN_COUNT as u32 - 1) as u32;
            let next_sub_bin = (sub_bin + 1) % SUB_BIN_COUNT as u32;
            assert_eq!(
                Bin::from_size_round_up(size + 1),
                make_bin(next_size, next_bin, next_sub_bin)
            );
        }
    }
}

#[test]
fn bin_from_size_round_down() {
    // Cases up to end of linear region.
    assert_eq!(Bin::from_size_round_down(0), make_bin(0, 0, 0));
    assert_eq!(Bin::from_size_round_down(1), make_bin(0, 0, 0));
    assert_eq!(Bin::from_size_round_down(2), make_bin(0, 0, 0));
    assert_eq!(Bin::from_size_round_down(3), make_bin(0, 0, 0));

    assert_eq!(Bin::from_size_round_down(4), make_bin(4, 0, 1));
    assert_eq!(Bin::from_size_round_down(5), make_bin(4, 0, 1));
    assert_eq!(Bin::from_size_round_down(6), make_bin(4, 0, 1));
    assert_eq!(Bin::from_size_round_down(7), make_bin(4, 0, 1));

    assert_eq!(Bin::from_size_round_down(124), make_bin(124, 0, 31));
    assert_eq!(Bin::from_size_round_down(125), make_bin(124, 0, 31));
    assert_eq!(Bin::from_size_round_down(126), make_bin(124, 0, 31));
    assert_eq!(Bin::from_size_round_down(127), make_bin(124, 0, 31));

    assert_eq!(Bin::from_size_round_down(128), make_bin(128, 1, 0));
    assert_eq!(Bin::from_size_round_down(129), make_bin(128, 1, 0));
    assert_eq!(Bin::from_size_round_down(130), make_bin(128, 1, 0));
    assert_eq!(Bin::from_size_round_down(131), make_bin(128, 1, 0));
}

#[test]
fn bin_doc_examples() {
    type B = Bin<7, 5>;
    assert_eq!(B::from_size_round_up(130), (132, B::new(1, 1)));
    assert_eq!(B::from_size_round_down(130), (128, B::new(1, 0)));
}

#[test]
fn bin_parts_round_trip() {
    type B = Bin<7, 5>;
    let b = B::new(3, 17);
    assert_eq!(b.bin(), 3);
    assert_eq!(b.sub_bin(), 17);
    assert_eq!(b.index(), 3 * 32 + 17);
}

#[test]
fn bin_round_up_of_boundary_matches_round_down() {
    type B = Bin<7, 5>;
    for size in [0u32, 4, 128, 132, 256, 264, 1 << 20] {
        assert_eq!(B::from_size_round_up(size), B::from_size_round_down(size));
    }
    // Just past a boundary, rounding up moves to the next sub-bin.
    let (down, bin_down) = B::from_size_round_down(129);
    let (up, bin_up) = B::from_size_round_up(129);
    assert_eq!(down, 128);
    assert_eq!(up, 132);
    assert_eq!(bin_up.index(), bin_down.index() + 1);
}

#[test]
fn bin_largest_sizes() {
    type B = Bin<7, 5>;
    let max = i32::MAX as u32;
    let (down, bin_down) = B::from_size_round_down(max);
    assert_eq!(down, (1u32 << 31) - (1u32 << 25));
    assert_eq!(bin_down.bin(), 30 - 7 + 1);
    assert_eq!(bin_down.sub_bin(), 31);
    let (up, bin_up) = B::from_size_round_up(max);
    assert_eq!(up, 1u32 << 31);
    assert_eq!(bin_up.index(), bin_down.index() + 1);
}

type B = Bin<LINEAR_REGION_LOG2, SUB_BIN_COUNT_LOG2>;

#[test]
fn round_up_is_least_boundary_scan() {
    for size in 0..5000u32 {
        let (r, b) = B::from_size_round_up(size);
        assert!(r >= size);
        assert_eq!(B::from_size_round_down(r), (r, b));
        if r > 0 {
            assert!(B::from_size_round_down(r - 1).0 < size);
        }
    }
    let (r, b) = B::from_size_round_up(255);
    assert_eq!(r, 256);
    assert_eq!(B::from_size_round_down(256), (256, b));
}

#[test]
fn round_down_is_greatest_boundary_scan() {
    let mut previous_index = 0;
    for size in 0..5000u32 {
        let (r, b) = B::from_size_round_down(size);
        assert!(r <= size);
        assert_eq!(B::from_size_round_down(r), (r, b));
        assert!(B::from_size_round_up(r + 1).0 > size);
        assert!(b.index >= previous_index);
        previous_index = b.index;
    }
}
