use narcissus::mod_inverse::{mod_inverse_u32, mod_inverse_u64};

#[test]
fn test_mod_inverse_u64() {
    // Chosen by fair dice roll. (very large dice)
    {
        let x = 16594110198632835723_u64;
        assert_eq!(x.wrapping_mul(mod_inverse_u64(x)), 1);
    }
    {
        let x = 528604400148778217_u64;
        assert_eq!(x.wrapping_mul(mod_inverse_u64(x)), 1);
    }
    {
        let x = 3300434641321711815_u64;
        assert_eq!(x.wrapping_mul(mod_inverse_u64(x)), 1);
    }
    {
        let x = 7154793095758979941_u64;
        assert_eq!(x.wrapping_mul(mod_inverse_u64(x)), 1);
    }
    {
        let x = 8737695847511607165_u64;
        assert_eq!(x.wrapping_mul(mod_inverse_u64(x)), 1);
    }
}

#[test]
fn mod_inverse_u32_sampled() {
    // A strided sweep over the odd values stands in for the exhaustive check.
    let mut x = 1_u32;
    loop {
        let inv_x = mod_inverse_u32(x);
        assert_eq!(x.wrapping_mul(inv_x), 1);
        if x == 1 || x == 2147483647 || x == 2147483649 || x == 4294967295 {
            // The square roots of unity modulo 2^32 are their own inverses.
            assert_eq!(inv_x, x);
        }
        match x.checked_add(65538) {
            Some(next) => x = next,
            None => break,
        }
    }
    for x in [2147483647_u32, 2147483649, 4294967295] {
        assert_eq!(mod_inverse_u32(x), x);
    }
}

#[test]
fn mod_inverse_small_values() {
    assert_eq!(mod_inverse_u64(1), 1);
    assert_eq!(mod_inverse_u64(3), 0xaaaa_aaaa_aaaa_aaab);
    assert_eq!(mod_inverse_u32(3), 0xaaaa_aaab);
    assert_eq!(mod_inverse_u64(u64::MAX), u64::MAX);
}
