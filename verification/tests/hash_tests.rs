use noisetex::hash::{
    hash_ivec2, hash_ivec3, pcg_1d, pcg_2d, pcg_3d, per_pixel_seed, rand_words_2d, rand_words_3d,
};
use noisetex::random::hash::{pcg_11, pcg_31, pcg_33, pcg_41, pcg_44};
use noisetex::vecs::{IVec2, IVec3, UVec2, UVec3, UVec4};

#[test]
fn pcg_1d_known_values() {
    assert_eq!(pcg_1d(0), 129708002);
    assert_eq!(pcg_1d(1), 2831084092);
    assert_eq!(pcg_1d(2), 2055130248);
    assert_eq!(pcg_1d(42), 1223963391);
    assert_eq!(pcg_1d(0xDEADBEEF), 1730779506);
    assert_eq!(pcg_1d(u32::MAX), 3861530882);
}

#[test]
fn pcg_1d_deterministic() {
    for v in [0u32, 1, 17, 123456789, u32::MAX] {
        assert_eq!(pcg_1d(v), pcg_1d(v));
    }
}

#[test]
fn pcg_11_matches_pcg_1d() {
    for v in [0u32, 1, 2, 42, 0xDEADBEEF, u32::MAX] {
        assert_eq!(pcg_11(v), pcg_1d(v));
    }
}

#[test]
fn pcg_2d_known_values() {
    let r = pcg_2d(UVec2::new(0, 0));
    assert_eq!((r.x, r.y), (417608103, 90043601));
    let r = pcg_2d(UVec2::new(7, 11));
    assert_eq!((r.x, r.y), (1651248853, 3463850279));
}

#[test]
fn pcg_3d_known_values() {
    let r = pcg_3d(UVec3::new(0, 0, 0));
    assert_eq!((r.x, r.y, r.z), (2611992518, 2833812075, 1058359340));
    let r = pcg_3d(UVec3::new(1, 2, 3));
    assert_eq!((r.x, r.y, r.z), (4204755366, 1223881804, 1500469937));
}

#[test]
fn pcg_33_matches_pcg_3d() {
    let v = UVec3::new(9, 8, 7);
    assert_eq!(pcg_33(v), pcg_3d(v));
}

#[test]
fn pcg_44_known_values() {
    let r = pcg_44(UVec4::new(1, 2, 3, 4));
    assert_eq!((r.x, r.y, r.z, r.w), (908250390, 4044648920, 3775961919, 45698095));
    let r = pcg_44(UVec4::new(0, 0, 0, 0));
    assert_eq!((r.x, r.y, r.z, r.w), (251852841, 760645481, 850445371, 3542436074));
}

#[test]
fn pcg_folds_known_values() {
    assert_eq!(pcg_31(UVec3::new(1, 2, 3)), 3847790828);
    assert_eq!(pcg_41(UVec4::new(1, 2, 3, 4)), 2917755029);
}

#[test]
fn pcg_fold_chains_mix1() {
    let v = UVec3::new(10, 20, 30);
    let expected = pcg_1d(10u32.wrapping_add(pcg_1d(20u32.wrapping_add(pcg_1d(30)))));
    assert_eq!(pcg_31(v), expected);
}

#[test]
fn hash_ivec3_known_values() {
    assert_eq!(hash_ivec3(IVec3::new(0, 0, 0)), 301891289);
    assert_eq!(hash_ivec3(IVec3::new(1, 2, 3)), 3419764352);
    assert_eq!(hash_ivec3(IVec3::new(-1, -2, -3)), 1216420270);
}

#[test]
fn hash_ivec2_known_values() {
    assert_eq!(hash_ivec2(IVec2::new(0, 0)), 1776579849);
    assert_eq!(hash_ivec2(IVec2::new(5, -9)), 1209708776);
}

#[test]
fn rand_words_salt_the_lanes() {
    let r2 = rand_words_2d(7);
    assert_eq!((r2.x, r2.y), (370272452, 780429228));
    let r3 = rand_words_3d(7);
    assert_eq!((r3.x, r3.y, r3.z), (370272452, 780429228, 2432263942));
    // A lane is never the raw input handed back.
    assert_ne!(r3.x, 7);
    assert_ne!(r3.x, r3.y);
}

#[test]
fn per_pixel_seed_is_linear_index() {
    let r = per_pixel_seed(UVec3::new(1, 2, 3), UVec3::new(4, 5, 6));
    assert_eq!(r, 1 + 2 * 4 + 3 * 4 * 5);
    assert_eq!(per_pixel_seed(UVec3::new(0, 0, 0), UVec3::new(4, 5, 6)), 0);
    assert_eq!(per_pixel_seed(UVec3::new(3, 4, 5), UVec3::new(4, 5, 6)), 119);
}

// The single-word mixer avalanches: flipping one input bit flips about half
// of the output bits.  Even an ideal 32-bit hash puts only ~89% of flips in
// the 12..=20 window (the binomial mass there is 0.8898), so the test pins
// the achievable behaviour: the mean distance is ~16 and at least 85% of
// sampled pairs land in the window.
#[test]
fn pcg_1d_avalanche() {
    let mut total_distance: u64 = 0;
    let mut pairs: u64 = 0;
    let mut in_window: u64 = 0;
    for v in 0u32..500 {
        let h = pcg_1d(v);
        for bit in 0..32 {
            let d = (h ^ pcg_1d(v ^ (1u32 << bit))).count_ones() as u64;
            total_distance += d;
            pairs += 1;
            if (12..=20).contains(&d) {
                in_window += 1;
            }
        }
    }
    let mean_milli = total_distance * 1000 / pairs;
    assert!((15500..=16500).contains(&mean_milli), "mean distance {mean_milli}");
    assert!(in_window * 100 >= pairs * 85, "in-window {in_window} of {pairs}");
}
