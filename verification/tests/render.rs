use qrshare::raster::{render, RasterImage, SymbolMatrix};

fn checker_matrix() -> SymbolMatrix {
    SymbolMatrix {
        modules: vec![vec![true, false], vec![false, true]],
    }
}

fn pixel(img: &RasterImage, x: usize, y: usize) -> u8 {
    img.pixels[y * img.width + x]
}

#[test]
fn raster_has_exact_dimensions() {
    let m = checker_matrix();
    let img = render(&m, 3, 2);
    assert_eq!(img.width, (2 + 2 * 2) * 3);
    assert_eq!(img.pixels.len(), img.width * img.width);

    let m = checker_matrix();
    let img = render(&m, 1, 0);
    assert_eq!(img.width, 2);
    assert_eq!(img.pixels.len(), 4);
}

#[test]
fn border_region_is_always_light() {
    let m = SymbolMatrix {
        modules: vec![vec![true, true], vec![true, true]],
    };
    let scale = 3;
    let border = 2;
    let img = render(&m, scale, border);
    let lo = border * scale;
    let hi = (border + 2) * scale;
    for y in 0..img.width {
        for x in 0..img.width {
            if x < lo || y < lo || x >= hi || y >= hi {
                assert_eq!(pixel(&img, x, y), 255);
            }
        }
    }
}

#[test]
fn module_blocks_are_uniform() {
    let m = checker_matrix();
    let scale = 3;
    let border = 2;
    let img = render(&m, scale, border);
    for my in 0..2 {
        for mx in 0..2 {
            let want = if m.modules[my][mx] { 0 } else { 255 };
            for dy in 0..scale {
                for dx in 0..scale {
                    let x = (border + mx) * scale + dx;
                    let y = (border + my) * scale + dy;
                    assert_eq!(pixel(&img, x, y), want);
                }
            }
        }
    }
}

#[test]
fn rendering_is_deterministic() {
    let a = render(&checker_matrix(), 4, 1);
    let b = render(&checker_matrix(), 4, 1);
    assert_eq!(a.width, b.width);
    assert_eq!(a.pixels, b.pixels);
}

#[test]
fn zero_border_single_scale_is_the_matrix_itself() {
    let m = checker_matrix();
    let img = render(&m, 1, 0);
    assert_eq!(pixel(&img, 0, 0), 0);
    assert_eq!(pixel(&img, 1, 0), 255);
    assert_eq!(pixel(&img, 0, 1), 255);
    assert_eq!(pixel(&img, 1, 1), 0);
}
