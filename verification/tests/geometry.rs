use moonshine::binary64::{nearest_even, product, quotient, scale_side};
use moonshine::geometry::{aspect_fit_rect, max_one, source_offsets, to_signed, BlitRect, FrameTransform, Offset3D};

#[test]
fn aspect_fit_rect_preserves_portrait_capture_in_landscape_stream() {
    assert_eq!(
        aspect_fit_rect(400, 640, 1920, 1080),
        BlitRect {
            x: 622,
            y: 0,
            width: 675,
            height: 1080,
        }
    );
}

#[test]
fn aspect_fit_rect_uses_full_stream_for_matching_aspect_ratio() {
    assert_eq!(
        aspect_fit_rect(1920, 1080, 1280, 720),
        BlitRect {
            x: 0,
            y: 0,
            width: 1280,
            height: 720,
        }
    );
}

#[test]
fn source_offsets_apply_180_degree_flip() {
    let offsets = source_offsets(
        1920,
        1080,
        FrameTransform {
            flip_x: true,
            flip_y: true,
        },
    );

    assert_eq!((offsets[0].x, offsets[0].y), (1920, 1080));
    assert_eq!((offsets[1].x, offsets[1].y), (0, 0));
}

/// The same rectangle computed with the floating point unit.
fn float_fit(source_width: u32, source_height: u32, output_width: u32, output_height: u32) -> BlitRect {
    let source_width = source_width.max(1) as f64;
    let source_height = source_height.max(1) as f64;
    let output_width = output_width.max(1);
    let output_height = output_height.max(1);
    let scale = (output_width as f64 / source_width).min(output_height as f64 / source_height);
    let width = (source_width * scale).round().max(1.0).min(output_width as f64) as u32;
    let height = (source_height * scale).round().max(1.0).min(output_height as f64) as u32;
    BlitRect {
        x: (output_width - width) / 2,
        y: (output_height - height) / 2,
        width,
        height,
    }
}

struct Random(u64);

impl Random {
    fn next(&mut self) -> u32 {
        self.0 = self.0.wrapping_mul(6364136223846793005).wrapping_add(1442695040888963407);
        (self.0 >> 33) as u32
    }
}

#[test]
fn aspect_fit_rect_agrees_with_the_floating_point_unit() {
    let mut random = Random(7);
    for round in 0..200_000u32 {
        let bits = 1 + round % 31;
        let mask = ((1u64 << bits) - 1) as u32;
        let (a, b) = (random.next() & mask, random.next() & mask);
        let (c, d) = (random.next() & mask, random.next() & mask);
        assert_eq!(aspect_fit_rect(a, b, c, d), float_fit(a, b, c, d), "{a} {b} {c} {d}");
    }
    for a in 0..24u32 {
        for b in 0..24u32 {
            for c in 0..24u32 {
                for d in 0..24u32 {
                    assert_eq!(aspect_fit_rect(a, b, c, d), float_fit(a, b, c, d), "{a} {b} {c} {d}");
                }
            }
        }
    }
    let edges = [0, 1, 2, 3, 5, 7, 1 << 16, (1 << 31) - 1, 1 << 31, u32::MAX - 1, u32::MAX];
    for a in edges {
        for b in edges {
            for c in edges {
                for d in edges {
                    assert_eq!(aspect_fit_rect(a, b, c, d), float_fit(a, b, c, d), "{a} {b} {c} {d}");
                }
            }
        }
    }
}

#[test]
fn fitted_image_is_centred_and_spans_one_direction() {
    let rect = aspect_fit_rect(1000, 10, 640, 480);
    assert_eq!(rect, BlitRect { x: 0, y: 237, width: 640, height: 6 });
    let rect = aspect_fit_rect(10, 1000, 640, 480);
    assert_eq!(rect, BlitRect { x: 317, y: 0, width: 5, height: 480 });
}

#[test]
fn fitted_image_keeps_at_least_one_pixel() {
    assert_eq!(
        aspect_fit_rect(100_000, 1, 640, 480),
        BlitRect { x: 0, y: 239, width: 640, height: 1 }
    );
    assert_eq!(aspect_fit_rect(1000, 1, 500, 480).height, 1);
    assert_eq!(aspect_fit_rect(1000, 1, 1499, 480).height, 1);
    assert_eq!(aspect_fit_rect(1000, 1, 1500, 480).height, 2);
}

#[test]
fn empty_sides_count_as_one_pixel() {
    assert_eq!(aspect_fit_rect(0, 0, 0, 0), BlitRect { x: 0, y: 0, width: 1, height: 1 });
    assert_eq!(aspect_fit_rect(0, 0, 30, 20), BlitRect { x: 5, y: 0, width: 20, height: 20 });
    assert_eq!(max_one(0), 1);
    assert_eq!(max_one(9), 9);
}

#[test]
fn each_flip_swaps_its_own_axis() {
    let plain = source_offsets(4, 3, FrameTransform { flip_x: false, flip_y: false });
    assert_eq!(plain, [Offset3D { x: 0, y: 0, z: 0 }, Offset3D { x: 4, y: 3, z: 1 }]);
    let mirrored = source_offsets(4, 3, FrameTransform { flip_x: true, flip_y: false });
    assert_eq!(mirrored, [Offset3D { x: 4, y: 0, z: 0 }, Offset3D { x: 0, y: 3, z: 1 }]);
    let upended = source_offsets(4, 3, FrameTransform { flip_x: false, flip_y: true });
    assert_eq!(upended, [Offset3D { x: 0, y: 3, z: 0 }, Offset3D { x: 4, y: 0, z: 1 }]);
}

#[test]
fn coordinates_wrap_like_a_cast() {
    for value in [0, 1, 0x7fff_ffff, 0x8000_0000, 0xffff_fffe, u32::MAX] {
        assert_eq!(to_signed(value), value as i32);
    }
}

#[test]
fn quotients_agree_with_the_floating_point_unit() {
    let mut random = Random(11);
    for _ in 0..50_000 {
        let (num, den, side) = (random.next().max(1), random.next().max(1), random.next() % 1000 + 1);
        let exact = quotient(num, den);
        let value = exact.mantissa as f64 / 2f64.powi(exact.shift as i32);
        assert_eq!(value, num as f64 / den as f64);
        if value < 1.0 {
            let scaled = product(side, exact);
            assert_eq!(
                scaled.mantissa as f64 / 2f64.powi(scaled.shift as i32),
                side as f64 * value
            );
            assert_eq!(scale_side(side, exact) as f64, (side as f64 * value).round());
        }
    }
}

#[test]
fn halves_go_to_the_even_neighbour() {
    assert_eq!(nearest_even(5, 2), 2);
    assert_eq!(nearest_even(7, 2), 4);
    assert_eq!(nearest_even(8, 3), 3);
    assert_eq!(nearest_even(7, 3), 2);
}
