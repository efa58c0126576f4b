//! Terrain generation: determinism, the ice border, classification cutoffs
//! and yields.

use civlike::map::{classify_height, tile_blocks, yield_of, HEIGHT_SCALE};
use civlike::{xy_idx, TileType, WorldMap, Yields};
use bracket_noise::prelude::{FastNoise, FractalType, NoiseType};

fn flat_heights(w: i32, h: i32, v: i32) -> Vec<i32> {
    vec![v; (w * h) as usize]
}

#[test]
fn heightmap_noise_is_deterministic_per_seed() {
    // The noise source used at startup must give bit-identical values for a
    // fixed seed.
    let mut a = FastNoise::seeded(424242);
    let mut b = FastNoise::seeded(424242);
    for n in [&mut a, &mut b] {
        n.set_noise_type(NoiseType::PerlinFractal);
        n.set_fractal_type(FractalType::FBM);
        n.set_fractal_octaves(8);
        n.set_fractal_gain(1.0);
        n.set_fractal_lacunarity(3.0);
        n.set_frequency(3.0);
    }
    let mut some_nonzero = false;
    for y in 0..60 {
        for x in 0..80 {
            let va = a.get_noise(x as f32 / 160.0, y as f32 / 100.0);
            let vb = b.get_noise(x as f32 / 160.0, y as f32 / 100.0);
            assert_eq!(va.to_bits(), vb.to_bits());
            if va != 0.0 {
                some_nonzero = true;
            }
        }
    }
    assert!(some_nonzero);
}

#[test]
fn heightmap_noise_differs_across_seeds() {
    let mut a = FastNoise::seeded(1);
    let mut b = FastNoise::seeded(2);
    for n in [&mut a, &mut b] {
        n.set_noise_type(NoiseType::PerlinFractal);
        n.set_fractal_type(FractalType::FBM);
        n.set_fractal_octaves(8);
        n.set_fractal_gain(1.0);
        n.set_fractal_lacunarity(3.0);
        n.set_frequency(3.0);
    }
    let mut differs = false;
    for y in 0..40 {
        for x in 0..40 {
            if a.get_noise(x as f32 / 160.0, y as f32 / 100.0)
                != b.get_noise(x as f32 / 160.0, y as f32 / 100.0)
            {
                differs = true;
            }
        }
    }
    assert!(differs);
}

#[test]
fn map_generation_is_deterministic() {
    // Same heightmap in, bit-identical classification out.
    let mut heights = flat_heights(10, 9, 5);
    heights[xy_idx(10, 4, 4)] = 100;
    heights[xy_idx(10, 5, 4)] = -20;
    let m1 = WorldMap::new_map(10, 9, &heights);
    let m2 = WorldMap::new_map(10, 9, &heights);
    assert_eq!(m1.tiles, m2.tiles);
    assert_eq!(m1.yields, m2.yields);
    assert_eq!(m1.claimed_tiles, m2.claimed_tiles);
}

#[test]
fn border_tiles_are_always_ice() {
    // Even with mountain-high values everywhere, the border is forced to ice.
    let m = WorldMap::new_map(8, 6, &flat_heights(8, 6, 100));
    for x in 0..8 {
        for y in 0..6 {
            let idx = xy_idx(8, x, y);
            if x == 0 || x == 7 || y == 0 || y == 5 {
                assert_eq!(m.tiles[idx], TileType::Ice);
            } else {
                assert_eq!(m.tiles[idx], TileType::Mountain);
            }
        }
    }
}

#[test]
fn classification_follows_the_five_cutoffs() {
    // The fixed-point scale maps 1.0 to HEIGHT_SCALE units.
    assert_eq!(HEIGHT_SCALE, 120);
    // Above 1/6.
    assert_eq!(classify_height(21), TileType::Mountain);
    assert_eq!(classify_height(120), TileType::Mountain);
    // Above 0, at most 1/6.
    assert_eq!(classify_height(20), TileType::Forest);
    assert_eq!(classify_height(1), TileType::Forest);
    // Above -1/10, at most 0.
    assert_eq!(classify_height(0), TileType::Grasslands);
    assert_eq!(classify_height(-11), TileType::Grasslands);
    // Above -1/8, at most -1/10.
    assert_eq!(classify_height(-12), TileType::Coast);
    assert_eq!(classify_height(-14), TileType::Coast);
    // At most -1/8.
    assert_eq!(classify_height(-15), TileType::Water);
    assert_eq!(classify_height(-120), TileType::Water);
}

#[test]
fn generated_tiles_carry_their_yields() {
    let mut heights = flat_heights(8, 8, 5);
    heights[xy_idx(8, 3, 3)] = 100; // mountain
    heights[xy_idx(8, 4, 3)] = -20; // water
    let m = WorldMap::new_map(8, 8, &heights);
    let none = Yields { food: 0, prod: 0, gold: 0 };
    let base = Yields { food: 1, prod: 1, gold: 1 };
    assert_eq!(m.yields[xy_idx(8, 3, 3)], none); // mountain
    assert_eq!(m.yields[xy_idx(8, 0, 0)], none); // border ice
    assert_eq!(m.yields[xy_idx(8, 4, 3)], base); // water still yields
    assert_eq!(m.yields[xy_idx(8, 2, 2)], base); // forest
    assert_eq!(yield_of(TileType::Ice), none);
    assert_eq!(yield_of(TileType::Grasslands), base);
}

#[test]
fn terrain_blocking_and_opacity() {
    let mut heights = flat_heights(8, 8, 5);
    heights[xy_idx(8, 4, 3)] = -20; // water
    let m = WorldMap::new_map(8, 8, &heights);
    assert!(tile_blocks(TileType::Mountain));
    assert!(tile_blocks(TileType::Water));
    assert!(tile_blocks(TileType::Ice));
    assert!(!tile_blocks(TileType::Forest));
    assert!(!tile_blocks(TileType::Grasslands));
    assert!(!tile_blocks(TileType::Coast));
    // Only ice is opaque to sight.
    assert!(m.is_opaque(xy_idx(8, 0, 0)));
    assert!(!m.is_opaque(xy_idx(8, 4, 3))); // water is transparent
    assert!(!m.is_opaque(xy_idx(8, 2, 2)));
}

#[test]
fn xy_idx_is_row_major() {
    assert_eq!(xy_idx(400, 0, 0), 0);
    assert_eq!(xy_idx(400, 5, 0), 5);
    assert_eq!(xy_idx(400, 0, 1), 400);
    assert_eq!(xy_idx(400, 7, 3), 3 * 400 + 7);
    let m = WorldMap::new_map(8, 6, &flat_heights(8, 6, 0));
    assert_eq!(m.dimensions(), (8, 6));
    assert_eq!(m.idx(3, 2), 19);
}
