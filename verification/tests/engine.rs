use image::GenericImageView;
use simulations::birds::BirdSimulationParameters;
use simulations::complex::Complex;
use simulations::fixed::Fixed;
use simulations::julia_sets_simulation::JuliaSetParameters;
use simulations::raster::Rgba;

fn julia_config(width: u32, height: u32, max_iter: u32) -> JuliaSetParameters {
    JuliaSetParameters {
        width,
        height,
        c_real: Fixed::from_int(0),
        c_imaginary: Fixed::from_int(0),
        max_iter,
        escape_radius: Fixed::from_int(2),
    }
}

#[test]
fn render_dimensions() {
    let cfg = julia_config(16, 9, 25);
    let raster = cfg.render();
    assert_eq!(raster.width, 16);
    assert_eq!(raster.height, 9);
    assert_eq!(raster.pixels.len(), 144);
}

#[test]
fn render_two_by_two_fixture() {
    // width 2, height 2, max_iter 10, escape radius 2, c = (0, 0).
    // Column 0 maps to plane x = -1.5, column 1 to 0; row 0 maps to
    // plane y = -1, row 1 to 0. The points (-1.5, -1) and (-1.5, 0)
    // escape after one squaring; (0, -1) and (0, 0) never escape.
    // One step of ten rounds to r = 26, g = 230.
    let cfg = julia_config(2, 2, 10);
    let raster = cfg.render();
    let escaped = Rgba { r: 26, g: 230, b: 0, a: 255 };
    let inside = Rgba { r: 0, g: 0, b: 0, a: 0 };
    assert_eq!(raster.pixels[0], escaped);
    assert_eq!(raster.pixels[1], inside);
    assert_eq!(raster.pixels[2], escaped);
    assert_eq!(raster.pixels[3], inside);
}

#[test]
fn render_zero_max_iter() {
    // A zero iteration cap classifies every pixel as escaped with a
    // ratio of zero: full green, opaque, and never an undefined value.
    let cfg = julia_config(2, 2, 0);
    let raster = cfg.render();
    for p in &raster.pixels {
        assert_eq!(*p, Rgba { r: 0, g: 255, b: 0, a: 255 });
    }
}

#[test]
fn origin_pixel_never_escapes() {
    // With c = (0, 0) the center pixel of an even grid maps to the
    // plane origin, which stays at magnitude zero for all iterations.
    let cfg = julia_config(4, 4, 50);
    let raster = cfg.render();
    assert_eq!(raster.pixel_at(2, 2), Rgba { r: 0, g: 0, b: 0, a: 0 });
}

#[test]
fn origin_pixel_odd_dimensions() {
    // On an odd grid the center pixel maps close to the origin; its
    // magnitude stays below one, so it never escapes either.
    let cfg = julia_config(3, 3, 50);
    let raster = cfg.render();
    assert_eq!(raster.pixel_at(1, 1), Rgba { r: 0, g: 0, b: 0, a: 0 });
}

#[test]
fn julia_run_image_matches_raster() {
    let cfg = julia_config(2, 2, 10);
    let img = cfg.run();
    assert_eq!(img.width(), 2);
    assert_eq!(img.height(), 2);
    // The RGB image stores the three color channels; reading an RGB
    // pixel back yields an opaque alpha.
    assert_eq!(img.get_pixel(0, 0), image::Rgba([26, 230, 0, 255]));
    assert_eq!(img.get_pixel(1, 0), image::Rgba([0, 0, 0, 255]));
    assert_eq!(img.get_pixel(0, 1), image::Rgba([26, 230, 0, 255]));
    assert_eq!(img.get_pixel(1, 1), image::Rgba([0, 0, 0, 255]));
}

#[test]
fn bird_run_blank_image() {
    let cfg = BirdSimulationParameters {
        width: 3,
        height: 2,
        max_iter: 10,
        n_birds: 5,
        n_iter: 10,
    };
    let raster = cfg.render();
    assert_eq!(raster.pixels.len(), 6);
    for p in &raster.pixels {
        assert_eq!(*p, Rgba { r: 0, g: 0, b: 0, a: 0 });
    }
    let img = cfg.run();
    assert_eq!(img.width(), 3);
    assert_eq!(img.height(), 2);
    assert_eq!(img.get_pixel(1, 1), image::Rgba([0, 0, 0, 255]));
}

#[test]
fn complex_multiply_exact() {
    let a = Complex::new(Fixed::from_int(1), Fixed::from_int(2));
    let b = Complex::new(Fixed::from_int(3), Fixed::from_int(4));
    let p = a.multiply(b);
    assert_eq!(p.real, Fixed::from_int(-5));
    assert_eq!(p.imag, Fixed::from_int(10));
}

#[test]
fn complex_square_matches_multiply() {
    let a = Complex::new(Fixed::from_int(-2), Fixed::from_int(3));
    assert_eq!(a.square(), a.multiply(a));
}

#[test]
fn complex_add_componentwise() {
    let a = Complex::new(Fixed::from_int(1), Fixed::from_int(-2));
    let b = Complex::new(Fixed::from_int(5), Fixed::from_int(7));
    let s = a.add(b);
    assert_eq!(s.real, Fixed::from_int(6));
    assert_eq!(s.imag, Fixed::from_int(5));
}

#[test]
fn complex_norm_squared_exact() {
    let a = Complex::new(Fixed::from_int(3), Fixed::from_int(4));
    assert_eq!(a.norm_squared(), Fixed::from_int(25));
}

#[test]
fn fixed_mul_exact_and_truncating() {
    // 1.5 * 1.5 = 2.25, exactly representable.
    let three_halves = Fixed::from_bits(0x1_8000_0000);
    assert_eq!(three_halves.mul(three_halves), Fixed::from_bits(0x2_4000_0000));
    // The smallest positive value squared truncates to zero.
    let eps = Fixed::from_bits(1);
    assert_eq!(eps.mul(eps), Fixed::from_bits(0));
    // Truncation is toward zero for negative products.
    assert_eq!(Fixed::from_bits(-1).mul(Fixed::from_bits(1)), Fixed::from_bits(0));
}

#[test]
fn fixed_saturates_at_the_range_ends() {
    let big = Fixed::from_bits(i64::MAX);
    assert_eq!(big.mul(Fixed::from_int(2)), Fixed::from_bits(i64::MAX));
    assert_eq!(big.add(big), Fixed::from_bits(i64::MAX));
    let low = Fixed::from_bits(i64::MIN);
    assert_eq!(low.add(low), Fixed::from_bits(i64::MIN));
}
