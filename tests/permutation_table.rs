use pumpkin_noise::permutation::{low_byte, shuffle_draw_bound, PermutationTable, TABLE_SIZE};

/// Seeded xoroshiro128++ source with the seed expansion and draw methods of
/// the world generator's random source, so that tables built here match the
/// generator for the same seed.
struct Xoroshiro {
    lo: u64,
    hi: u64,
}

fn mix_stafford_13(z: u64) -> u64 {
    let z = (z ^ (z >> 30)).wrapping_mul(0xBF58476D1CE4E5B9);
    let z = (z ^ (z >> 27)).wrapping_mul(0x94D049BB133111EB);
    z ^ (z >> 31)
}

impl Xoroshiro {
    fn from_seed(seed: u64) -> Self {
        let l = seed ^ 0x6A09E667F3BCC909;
        let m = l.wrapping_add(0x9E3779B97F4A7C15);
        Xoroshiro {
            lo: mix_stafford_13(l),
            hi: mix_stafford_13(m),
        }
    }

    fn next_u64(&mut self) -> u64 {
        let l = self.lo;
        let m = self.hi;
        let n = l.wrapping_add(m).rotate_left(17).wrapping_add(l);
        let m = m ^ l;
        self.lo = l.rotate_left(49) ^ m ^ (m << 21);
        self.hi = m.rotate_left(28);
        n
    }

    fn next_i32(&mut self) -> i32 {
        self.next_u64() as i32
    }

    fn next_f64(&mut self) -> f64 {
        (self.next_u64() >> 11) as f64 * 1.110223E-16f32 as f64
    }

    fn next_bounded_i32(&mut self, bound: i32) -> i32 {
        let bound = bound as u64;
        let mut m = (self.next_u64() & 0xFFFF_FFFF) * bound;
        let mut n = m & 0xFFFF_FFFF;
        if n < bound {
            let floor = (bound.wrapping_neg() & 0xFFFF_FFFF) % bound;
            while n < floor {
                m = (self.next_u64() & 0xFFFF_FFFF) * bound;
                n = m & 0xFFFF_FFFF;
            }
        }
        (m >> 32) as i32
    }
}

/// Draws the three origin offsets and the shuffle, in the order a sampler's
/// construction consumes them.
fn sampler_parts(rand: &mut Xoroshiro) -> ([f64; 3], PermutationTable) {
    let origin = [
        rand.next_f64() * 256f64,
        rand.next_f64() * 256f64,
        rand.next_f64() * 256f64,
    ];
    let mut draws = Vec::new();
    for step in 0..TABLE_SIZE {
        draws.push(rand.next_bounded_i32(shuffle_draw_bound(step)));
    }
    let table = PermutationTable::from_draws(&draws).expect("draws lie within their bounds");
    (origin, table)
}

const SEED_111_TABLE: [u8; 256] = [
    159, 113, 41, 143, 203, 123, 95, 177, 25, 79, 229, 219, 194, 60, 130, 14,
    83, 99, 24, 202, 207, 232, 167, 152, 220, 201, 29, 235, 87, 147, 74, 160,
    155, 97, 111, 31, 85, 205, 115, 50, 13, 171, 77, 237, 149, 116, 209, 174,
    169, 109, 221, 9, 166, 84, 54, 216, 121, 106, 211, 16, 69, 244, 65, 192,
    183, 146, 124, 37, 56, 45, 193, 158, 126, 217, 36, 255, 162, 163, 230, 103,
    63, 90, 191, 214, 20, 138, 32, 39, 238, 67, 64, 105, 250, 140, 148, 114,
    68, 75, 200, 161, 239, 125, 227, 199, 101, 61, 175, 107, 129, 240, 170, 51,
    139, 86, 186, 145, 212, 178, 30, 251, 89, 226, 120, 153, 47, 141, 233, 2,
    179, 236, 1, 19, 98, 21, 164, 108, 11, 23, 91, 204, 119, 88, 165, 195,
    168, 26, 48, 206, 128, 6, 52, 118, 110, 180, 197, 231, 117, 7, 3, 135,
    224, 58, 82, 78, 4, 59, 222, 18, 72, 57, 150, 43, 246, 100, 122, 112,
    53, 133, 93, 17, 27, 210, 142, 234, 245, 80, 22, 46, 185, 172, 71, 248,
    33, 173, 76, 35, 40, 92, 228, 127, 254, 70, 42, 208, 73, 104, 187, 62,
    154, 243, 189, 241, 34, 66, 249, 94, 8, 12, 134, 132, 102, 242, 196, 218,
    181, 28, 38, 15, 151, 157, 247, 223, 198, 55, 188, 96, 0, 182, 49, 190,
    156, 10, 215, 252, 131, 137, 184, 176, 136, 81, 44, 213, 253, 144, 225, 5,
];

#[test]
fn test_create() {
    let mut rand = Xoroshiro::from_seed(111);
    assert_eq!(rand.next_i32(), -1467508761);
    let (origin, table) = sampler_parts(&mut rand);
    assert_eq!(origin[0], 48.58072036717974f64);
    assert_eq!(origin[1], 110.73235882678037f64);
    assert_eq!(origin[2], 65.26438852860176f64);
    assert_eq!(table.entries(), SEED_111_TABLE.to_vec());
}

#[test]
fn noise_test_create() {
    let mut rand = Xoroshiro::from_seed(111);
    assert_eq!(rand.next_i32(), -1467508761);
    let (origin, table) = sampler_parts(&mut rand);
    assert_eq!(origin[0], 48.58072036717974);
    assert_eq!(origin[1], 110.73235882678037);
    assert_eq!(origin[2], 65.26438852860176);
    assert_eq!(table.entries(), SEED_111_TABLE.to_vec());
}

#[test]
fn same_seed_gives_identical_table() {
    let (origin_a, a) = sampler_parts(&mut Xoroshiro::from_seed(42));
    let (origin_b, b) = sampler_parts(&mut Xoroshiro::from_seed(42));
    assert_eq!(a.entries(), b.entries());
    assert_eq!(origin_a[0].to_bits(), origin_b[0].to_bits());
    let (_, c) = sampler_parts(&mut Xoroshiro::from_seed(43));
    assert_ne!(a.entries(), c.entries());
}

#[test]
fn tables_are_permutations_for_many_seeds() {
    for seed in [0u64, 1, 111, 12345, u64::MAX] {
        let (_, table) = sampler_parts(&mut Xoroshiro::from_seed(seed));
        let mut entries = table.entries();
        assert_eq!(entries.len(), 256);
        entries.sort();
        let expected: Vec<u8> = (0..=255).collect();
        assert_eq!(entries, expected);
    }
}

#[test]
fn zero_draws_keep_identity() {
    let table = PermutationTable::from_draws(&vec![0; 256]).unwrap();
    let expected: Vec<u8> = (0..=255).collect();
    assert_eq!(table.entries(), expected);
}

#[test]
fn mirrored_draws_reverse_table() {
    let draws: Vec<i32> = (0..256).map(|i| if i < 128 { 255 - 2 * i } else { 0 }).collect();
    let table = PermutationTable::from_draws(&draws).unwrap();
    let expected: Vec<u8> = (0..=255).rev().collect();
    assert_eq!(table.entries(), expected);
}

#[test]
fn largest_draws_rotate_table() {
    // Draw i is its largest allowed value 255 - i: every step swaps entry i
    // with the last entry.
    let draws: Vec<i32> = (0..256).map(|i| 255 - i).collect();
    let table = PermutationTable::from_draws(&draws).unwrap();
    let mut expected: Vec<u8> = vec![255];
    expected.extend(0..=254u8);
    assert_eq!(table.entries(), expected);
}

#[test]
fn out_of_bound_draws_are_rejected() {
    let mut draws = vec![0; 256];
    draws[0] = 256;
    assert!(PermutationTable::from_draws(&draws).is_none());
    let mut draws = vec![0; 256];
    draws[255] = 1;
    assert!(PermutationTable::from_draws(&draws).is_none());
    let mut draws = vec![0; 256];
    draws[10] = -1;
    assert!(PermutationTable::from_draws(&draws).is_none());
    assert!(PermutationTable::from_draws(&vec![0; 255]).is_none());
    assert!(PermutationTable::from_draws(&vec![0; 257]).is_none());
    assert!(PermutationTable::from_draws(&Vec::new()).is_none());
}

#[test]
fn draw_bounds_shrink_by_one() {
    assert_eq!(shuffle_draw_bound(0), 256);
    assert_eq!(shuffle_draw_bound(100), 156);
    assert_eq!(shuffle_draw_bound(255), 1);
}

#[test]
fn low_byte_is_residue_mod_256() {
    assert_eq!(low_byte(0), 0);
    assert_eq!(low_byte(300), 44);
    assert_eq!(low_byte(-1), 255);
    assert_eq!(low_byte(-256), 0);
    assert_eq!(low_byte(-257), 255);
    assert_eq!(low_byte(i32::MIN), 0);
    assert_eq!(low_byte(i32::MAX), 255);
}

#[test]
fn map_masks_its_index() {
    let mut rand = Xoroshiro::from_seed(111);
    rand.next_i32();
    let (_, table) = sampler_parts(&mut rand);
    assert_eq!(table.map(0), 159);
    assert_eq!(table.map(1), 113);
    assert_eq!(table.map(256), 159);
    assert_eq!(table.map(-255), 113);
    assert_eq!(table.map(-1), 5);
    assert_eq!(table.map(i32::MAX), 5);
    assert_eq!(table.map(i32::MIN), 159);
}
