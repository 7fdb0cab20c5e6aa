use fractal_viewer::context::FractalContext;
use fractal_viewer::fractal::Fractal;
use fractal_viewer::geometry::screen_offset;
use fractal_viewer::tally::EscapeTally;
use num_complex::Complex;

fn point_of(index: usize, dimensions: (usize, usize), pan: (f64, f64), scale: f64) -> Complex<f64> {
    let doubled = screen_offset(index, dimensions.0, dimensions.1);
    let x = doubled.0 as f64 / 2.0;
    let y = doubled.1 as f64 / 2.0;
    Complex::new(x / scale + pan.0, y / scale + pan.1)
}

fn escape_count(fractal: &Fractal, c: Complex<f64>) -> usize {
    let mut tally = EscapeTally::new(fractal.max_iterations());
    let mut z = Complex::new(0.0, 0.0);
    while !tally.is_done() {
        z = match fractal {
            Fractal::Mandelbrot(_) => z * z + c,
            Fractal::BurningShip(_) => {
                let folded = Complex::new(z.re.abs(), z.im.abs());
                folded * folded + c
            }
        };
        tally.record(z.norm_sqr() > 4.0);
    }
    tally.escaped()
}

fn frame_of(fractal: &Fractal, dimensions: (usize, usize), pan: (f64, f64), scale: f64) -> Vec<u32> {
    let mut ctx = FractalContext::new();
    ctx.resize(dimensions.0, dimensions.1);
    let counts: Vec<usize> = (0..dimensions.0 * dimensions.1)
        .map(|index| escape_count(fractal, point_of(index, dimensions, pan, scale)))
        .collect();
    assert!(fractal.can_render(&ctx, &counts));
    fractal.render(&mut ctx, &counts);
    ctx.pixels
}

#[test]
fn pixel_beside_the_centre_is_inside_the_mandelbrot_set() {
    let fractal = Fractal::Mandelbrot(30);
    let index = 319 + 179 * 640;
    let c = point_of(index, (640, 360), (0.0, 0.0), 100.0);
    assert!((c.re + 0.01).abs() < 1e-12);
    assert!((c.im + 0.01).abs() < 1e-12);
    assert_eq!(escape_count(&fractal, c), 0);
    let frame = frame_of(&fractal, (640, 360), (0.0, 0.0), 100.0);
    assert_eq!(frame.len(), 640 * 360);
    assert_eq!(frame[index], 0);
    assert_eq!(frame[320 + 180 * 640], 0xFF0000);
}

#[test]
fn far_corner_counts_until_the_orbit_leaves_the_numbers() {
    // Outside from the first step; after ten steps the orbit is no number
    // any more, and compares as not outside.
    let fractal = Fractal::Mandelbrot(30);
    let c = point_of(0, (640, 360), (0.0, 0.0), 100.0);
    assert_eq!(c, Complex::new(-3.2, -1.8));
    assert_eq!(escape_count(&fractal, c), 10);
    let frame = frame_of(&fractal, (64, 36), (0.0, 0.0), 10.0);
    // 255 * sqrt(10 / 30) = 147.2...
    assert_eq!(frame[0], 0x939393);
}

#[test]
fn slow_escape_counts_the_steps_after_it() {
    // c = 1: z runs 1, 2, 5, 26, 677, ...; outside from the third step on.
    let c = Complex::new(1.0, 0.0);
    assert_eq!(escape_count(&Fractal::Mandelbrot(5), c), 3);
    assert_eq!(escape_count(&Fractal::BurningShip(5), c), 3);
}

#[test]
fn burning_ship_differs_from_mandelbrot() {
    let mandelbrot = frame_of(&Fractal::Mandelbrot(30), (160, 90), (0.0, 0.0), 25.0);
    let burning_ship = frame_of(&Fractal::BurningShip(30), (160, 90), (0.0, 0.0), 25.0);
    assert_eq!(mandelbrot.len(), burning_ship.len());
    assert_ne!(mandelbrot, burning_ship);
    assert_eq!(mandelbrot[80 + 45 * 160], 0xFF0000);
    assert_eq!(burning_ship[80 + 45 * 160], 0xFF0000);
}

#[test]
fn kernels_agree_on_the_real_axis_right_of_the_origin() {
    for step in 0..40 {
        let c = Complex::new(step as f64 * 0.05, 0.0);
        assert_eq!(
            escape_count(&Fractal::Mandelbrot(30), c),
            escape_count(&Fractal::BurningShip(30), c)
        );
    }
}

#[test]
fn same_view_gives_the_same_frame() {
    let first = frame_of(&Fractal::BurningShip(40), (80, 60), (-0.5, -0.5), 30.0);
    let second = frame_of(&Fractal::BurningShip(40), (80, 60), (-0.5, -0.5), 30.0);
    assert_eq!(first, second);
}

#[test]
fn offsets_match_the_floating_point_mapping() {
    for (width, height) in [(640usize, 360usize), (5, 3), (1, 1), (7, 4)] {
        for index in 0..width * height {
            let doubled = screen_offset(index, width, height);
            let x = (index % width) as f64 - (width as f64 / 2.0);
            let y = (index / width) as f64 - (height as f64 / 2.0);
            assert_eq!(doubled.0 as f64 / 2.0, x);
            assert_eq!(doubled.1 as f64 / 2.0, y);
        }
    }
}
