use rtrs::{gcd_u32, Config, Size, TextureFormat};

fn fixed(width: u32, height: u32) -> Config {
    Config {
        format: TextureFormat::Rgba8Unorm,
        resolution: Ok(Size { width, height }),
        fps: 15,
        canvas_raw_handle: 2024,
    }
}

fn tile(n: u32) -> Config {
    Config {
        format: TextureFormat::Rgba8Unorm,
        resolution: Err(n),
        fps: 15,
        canvas_raw_handle: 2024,
    }
}

#[test]
fn default_config_values() {
    let c = Config::default();
    assert_eq!(c.format, TextureFormat::Rgba8Unorm);
    assert_eq!(c.resolution, Err(16));
    assert_eq!(c.fps, 15);
    assert_eq!(c.canvas_raw_handle, 2024);
}

#[test]
fn gcd_of_pairs() {
    assert_eq!(gcd_u32(640, 480), 160);
    assert_eq!(gcd_u32(12, 18), 6);
    assert_eq!(gcd_u32(7, 0), 7);
    assert_eq!(gcd_u32(0, 9), 9);
    assert_eq!(gcd_u32(0, 0), 0);
    assert_eq!(gcd_u32(17, 5), 1);
}

#[test]
fn workgroup_dim_clamps_large_gcd() {
    // gcd(640, 480) = 160, and 160 * 160 > 256
    assert_eq!(fixed(640, 480).wg_dim(), 16);
    assert_eq!(fixed(256, 256).wg_dim(), 16);
}

#[test]
fn workgroup_dim_keeps_small_gcd() {
    assert_eq!(fixed(12, 18).wg_dim(), 6);
    assert_eq!(fixed(32, 48).wg_dim(), 16);
    assert_eq!(fixed(641, 480).wg_dim(), 1);
}

#[test]
fn workgroup_dim_square_within_limit() {
    for (w, h) in [(1u32, 1u32), (3, 5), (640, 480), (1920, 1080), (u32::MAX, u32::MAX), (100, 75)] {
        let d = fixed(w, h).wg_dim();
        assert!(d > 0);
        assert!((d as u64) * (d as u64) <= 256);
        if gcd_u32(w, h) as u64 * gcd_u32(w, h) as u64 <= 256 {
            assert_eq!(w % d, 0);
            assert_eq!(h % d, 0);
        }
    }
}

#[test]
fn workgroup_dim_from_tile() {
    assert_eq!(tile(16).wg_dim(), 16);
    assert_eq!(tile(8).wg_dim(), 8);
    assert_eq!(tile(17).wg_dim(), 16);
    assert_eq!(tile(70000).wg_dim(), 16);
    assert_eq!(Config::default().wg_dim(), 16);
}

#[test]
fn resolve_follows_policy() {
    let window = Size { width: 800, height: 600 };
    assert_eq!(fixed(256, 256).resolve(window), Size { width: 256, height: 256 });
    assert_eq!(tile(16).resolve(window), window);
}

#[test]
fn dispatch_counts_round_down() {
    let window = Size { width: 100, height: 50 };
    assert_eq!(tile(16).dispatch_counts(window), (6, 3));
    assert_eq!(fixed(640, 480).dispatch_counts(window), (40, 30));
    assert_eq!(fixed(12, 18).dispatch_counts(window), (2, 3));
}

#[test]
fn srgb_suffix() {
    assert_eq!(TextureFormat::Rgba8Unorm.add_srgb_suffix(), TextureFormat::Rgba8UnormSrgb);
    assert_eq!(TextureFormat::Rgba8UnormSrgb.add_srgb_suffix(), TextureFormat::Rgba8UnormSrgb);
}

#[test]
fn drawable_needs_both_sides() {
    assert!(Size { width: 1, height: 1 }.is_drawable());
    assert!(!Size { width: 0, height: 5 }.is_drawable());
    assert!(!Size { width: 5, height: 0 }.is_drawable());
}
