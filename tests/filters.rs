use rsvg_internals::composite::{Composite, Operator};
use rsvg_internals::context::{
    CoordUnits, FilterContext, FilterNode, FilterOutput, FilterResult, Input,
};
use rsvg_internals::error::FilterError;
use rsvg_internals::fixed::FIXED_ONE;
use rsvg_internals::geometry::{Matrix, Rectangle};
use rsvg_internals::length::{dash_list, DrawingParams, LengthDir, LengthUnit, RsvgLength};
use rsvg_internals::lighting::{Lighting, Shade};
use rsvg_internals::rect::IRect;
use rsvg_internals::srgb::{linearize, linearize_surface, unlinearize, unlinearize_surface};
use rsvg_internals::surface::{ImageSurface, Pixel, SurfaceType};

fn px(r: u8, g: u8, b: u8, a: u8) -> Pixel {
    Pixel { r, g, b, a }
}

fn filled(w: i32, h: i32, p: Pixel) -> ImageSurface {
    let mut s = ImageSurface::create(w, h, SurfaceType::SRgb).unwrap();
    for y in 0..h {
        for x in 0..w {
            s.set_pixel(x as u32, y as u32, p);
        }
    }
    s
}

fn user(v: i64) -> RsvgLength {
    RsvgLength::new(v * FIXED_ONE, LengthUnit::Default, LengthDir::Both)
}

fn params() -> DrawingParams {
    DrawingParams {
        vbox_width: 100 * FIXED_ONE,
        vbox_height: 100 * FIXED_ONE,
        font_size: 12 * FIXED_ONE,
        dpi_x: 90 * FIXED_ONE,
        dpi_y: 90 * FIXED_ONE,
    }
}

fn node(x: i64, y: i64, w: i64, h: i64) -> FilterNode {
    FilterNode {
        x: user(x),
        y: user(y),
        width: user(w),
        height: user(h),
        filterunits: CoordUnits::UserSpaceOnUse,
        primitiveunits: CoordUnits::UserSpaceOnUse,
    }
}

fn context(source: ImageSurface, n: FilterNode) -> FilterContext {
    let bbox = Rectangle { x: 0, y: 0, width: FIXED_ONE, height: FIXED_ONE };
    FilterContext::new(&n, source, &Matrix::identity(), &bbox, &params())
}

#[test]
fn region_larger_than_surface_is_clipped_to_it() {
    let ctx = context(filled(10, 8, px(0, 0, 0, 255)), node(-5, -5, 100, 100));
    let b = ctx.compute_bounds(None, None, None, None);
    assert_eq!(b, IRect { x0: 0, y0: 0, x1: 10, y1: 8 });
    assert_eq!(ctx.last_result().bounds, b);
}

#[test]
fn subregion_outside_region_is_empty() {
    let ctx = context(filled(10, 10, px(0, 0, 0, 255)), node(0, 0, 5, 5));
    let b = ctx.compute_bounds(Some(user(7)), Some(user(7)), Some(user(2)), Some(user(2)));
    assert_eq!(b, IRect { x0: 0, y0: 0, x1: 0, y1: 0 });
    let inside = ctx.compute_bounds(Some(user(1)), Some(user(2)), Some(user(2)), None);
    assert_eq!(inside, IRect { x0: 1, y0: 2, x1: 3, y1: 5 });
}

#[test]
fn fractional_region_rounds_outward() {
    let n = FilterNode {
        x: RsvgLength::new(FIXED_ONE / 2, LengthUnit::Default, LengthDir::Horizontal),
        y: RsvgLength::new(FIXED_ONE / 4, LengthUnit::Default, LengthDir::Vertical),
        width: RsvgLength::new(2 * FIXED_ONE, LengthUnit::Default, LengthDir::Horizontal),
        height: RsvgLength::new(FIXED_ONE, LengthUnit::Default, LengthDir::Vertical),
        filterunits: CoordUnits::UserSpaceOnUse,
        primitiveunits: CoordUnits::UserSpaceOnUse,
    };
    let ctx = context(filled(10, 10, px(0, 0, 0, 255)), n);
    assert_eq!(
        ctx.compute_bounds(None, None, None, None),
        IRect { x0: 0, y0: 0, x1: 3, y1: 2 }
    );
}

#[test]
fn bounding_box_units_scale_the_region() {
    let n = FilterNode {
        x: RsvgLength::new(0, LengthUnit::Percent, LengthDir::Horizontal),
        y: RsvgLength::new(0, LengthUnit::Percent, LengthDir::Vertical),
        width: RsvgLength::new(FIXED_ONE / 2, LengthUnit::Percent, LengthDir::Horizontal),
        height: RsvgLength::new(FIXED_ONE, LengthUnit::Percent, LengthDir::Vertical),
        filterunits: CoordUnits::ObjectBoundingBox,
        primitiveunits: CoordUnits::UserSpaceOnUse,
    };
    let bbox = Rectangle { x: 2 * FIXED_ONE, y: FIXED_ONE, width: 6 * FIXED_ONE, height: 4 * FIXED_ONE };
    let ctx = FilterContext::new(&n, filled(20, 20, px(0, 0, 0, 0)), &Matrix::identity(), &bbox, &params());
    assert_eq!(
        ctx.compute_bounds(None, None, None, None),
        IRect { x0: 2, y0: 1, x1: 5, y1: 5 }
    );
}

#[test]
fn named_result_is_visible_only_after_store() {
    let mut ctx = context(filled(4, 4, px(10, 20, 30, 255)), node(0, 0, 4, 4));
    let mut c = Composite::new();
    c.in2 = Some(Input::FilterOutput("x".to_string()));
    assert_eq!(c.render(&ctx).err(), Some(FilterError::InputSurfaceUnavailable));
    assert!(ctx.get_input(Some(&Input::FilterOutput("x".to_string()))).is_none());

    let stored = filled(4, 4, px(1, 2, 3, 4));
    ctx.store_result(FilterResult {
        name: Some("x".to_string()),
        output: FilterOutput { surface: stored, bounds: IRect { x0: 0, y0: 0, x1: 2, y1: 2 } },
    });
    let got = ctx.get_input(Some(&Input::FilterOutput("x".to_string()))).unwrap();
    assert_eq!(got.bounds, IRect { x0: 0, y0: 0, x1: 2, y1: 2 });
    assert_eq!(got.surface.get_pixel(3, 3), px(1, 2, 3, 4));
    assert!(c.render(&ctx).is_ok());
    assert!(ctx.filter_output("y").is_none());
}

#[test]
fn unnamed_result_becomes_last_result_only() {
    let mut ctx = context(filled(2, 2, px(0, 0, 0, 255)), node(0, 0, 2, 2));
    ctx.store_result(FilterResult {
        name: None,
        output: FilterOutput {
            surface: filled(2, 2, px(9, 9, 9, 9)),
            bounds: IRect { x0: 0, y0: 0, x1: 1, y1: 1 },
        },
    });
    let last = ctx.get_input(None).unwrap();
    assert_eq!(last.surface.get_pixel(0, 0), px(9, 9, 9, 9));
    let src = ctx.get_input(Some(&Input::SourceGraphic)).unwrap();
    assert_eq!(src.surface.get_pixel(1, 1), px(0, 0, 0, 255));
    assert_eq!(src.bounds, IRect { x0: 0, y0: 0, x1: 2, y1: 2 });
    assert!(ctx.get_input(Some(&Input::BackgroundImage)).is_none());
    assert_eq!(ctx.into_output().get_pixel(1, 0), px(9, 9, 9, 9));
}

#[test]
fn empty_chain_outputs_source() {
    let ctx = context(filled(3, 3, px(5, 6, 7, 8)), node(0, 0, 3, 3));
    let out = ctx.into_output();
    assert_eq!(out.get_pixel(2, 2), px(5, 6, 7, 8));
}

#[test]
fn linearize_known_values() {
    assert_eq!(linearize(128), 55);
    assert_eq!(unlinearize(55), 128);
    assert_eq!(linearize(0), 0);
    assert_eq!(linearize(255), 255);
    let s = filled(2, 1, px(100, 50, 0, 200));
    let l = linearize_surface(&s, IRect { x0: 0, y0: 0, x1: 1, y1: 1 });
    assert_eq!(l.get_pixel(0, 0), px(43, 10, 0, 200));
    assert_eq!(l.get_pixel(1, 0), px(0, 0, 0, 0));
    assert_eq!(l.surface_type(), SurfaceType::LinearRgb);
}

#[test]
fn color_space_round_trip_on_gradient() {
    let mut s = ImageSurface::create(16, 16, SurfaceType::SRgb).unwrap();
    for y in 0..16u32 {
        for x in 0..16u32 {
            let c = (x * 16 + y) as u8;
            s.set_pixel(x, y, px(c, 255 - c, c / 2 + 100, 255));
        }
    }
    let all = IRect { x0: 0, y0: 0, x1: 16, y1: 16 };
    let back = unlinearize_surface(&linearize_surface(&s, all), all);
    for y in 0..16u32 {
        for x in 0..16u32 {
            let a = s.get_pixel(x, y);
            let b = back.get_pixel(x, y);
            for (u, v) in [(a.r, b.r), (a.g, b.g), (a.b, b.b)] {
                assert!((u as i32 - v as i32).abs() <= 6);
                if u >= 124 {
                    assert_eq!(u, v);
                }
            }
            assert_eq!(a.a, b.a);
        }
    }
}

fn arithmetic(k1: i64, k2: i64, k3: i64, k4: i64) -> Composite {
    let mut c = Composite::new();
    c.operator = Operator::Arithmetic;
    c.in2 = Some(Input::FilterOutput("b".to_string()));
    c.k1 = k1;
    c.k2 = k2;
    c.k3 = k3;
    c.k4 = k4;
    c
}

fn two_inputs(a: Pixel, b: Pixel) -> FilterContext {
    let mut ctx = context(filled(3, 3, a), node(0, 0, 3, 3));
    ctx.store_result(FilterResult {
        name: Some("b".to_string()),
        output: FilterOutput { surface: filled(3, 3, b), bounds: IRect { x0: 0, y0: 0, x1: 3, y1: 3 } },
    });
    let a_again = ctx.get_input(Some(&Input::SourceGraphic)).unwrap();
    ctx.store_result(FilterResult { name: None, output: FilterOutput { surface: a_again.surface, bounds: IRect { x0: 0, y0: 0, x1: 3, y1: 3 } } });
    ctx
}

#[test]
fn arithmetic_identity_gives_back_inputs() {
    let a = px(200, 150, 130, 255);
    let b = px(240, 180, 125, 255);
    let ctx = two_inputs(a, b);
    let out = arithmetic(0, FIXED_ONE, 0, 0).render(&ctx).unwrap();
    assert_eq!(out.output.surface.get_pixel(1, 1), a);
    let out = arithmetic(0, 0, FIXED_ONE, 0).render(&ctx).unwrap();
    assert_eq!(out.output.surface.get_pixel(2, 0), b);
    assert_eq!(out.output.bounds, IRect { x0: 0, y0: 0, x1: 3, y1: 3 });
}

#[test]
fn arithmetic_alpha_is_clamped() {
    let ctx = two_inputs(px(10, 20, 30, 255), px(40, 50, 60, 255));
    let out = arithmetic(0, 0, 0, 2 * FIXED_ONE).render(&ctx).unwrap();
    let p = out.output.surface.get_pixel(0, 0);
    assert_eq!(p, px(255, 255, 255, 255));
    let out = arithmetic(FIXED_ONE, FIXED_ONE, FIXED_ONE, -4 * FIXED_ONE).render(&ctx).unwrap();
    assert_eq!(out.output.surface.get_pixel(0, 0), px(0, 0, 0, 0));
}

#[test]
fn arithmetic_half_sum() {
    // Linear-light values: 255 and 0 average to 128 (rounded), which is 188 in sRGB.
    let ctx = two_inputs(px(255, 0, 255, 255), px(0, 0, 255, 255));
    let out = arithmetic(0, FIXED_ONE / 2, FIXED_ONE / 2, 0).render(&ctx).unwrap();
    assert_eq!(out.output.surface.get_pixel(0, 0), px(unlinearize(128), 0, 255, 255));
}

#[test]
fn porter_duff_operators() {
    let ctx = two_inputs(px(200, 150, 130, 255), px(240, 180, 125, 255));
    let mut c = Composite::new();
    c.in2 = Some(Input::FilterOutput("b".to_string()));
    c.operator = Operator::Over;
    assert_eq!(c.render(&ctx).unwrap().output.surface.get_pixel(0, 0), px(200, 150, 130, 255));
    c.operator = Operator::Out;
    assert_eq!(c.render(&ctx).unwrap().output.surface.get_pixel(0, 0), px(0, 0, 0, 0));
    c.operator = Operator::Xor;
    assert_eq!(c.render(&ctx).unwrap().output.surface.get_pixel(0, 0), px(0, 0, 0, 0));
    c.operator = Operator::In;
    assert_eq!(c.render(&ctx).unwrap().output.surface.get_pixel(0, 0), px(200, 150, 130, 255));
    c.operator = Operator::Atop;
    assert_eq!(c.render(&ctx).unwrap().output.surface.get_pixel(0, 0), px(200, 150, 130, 255));
}

#[test]
fn over_transparent_source_keeps_destination() {
    let ctx = two_inputs(px(0, 0, 0, 0), px(240, 180, 125, 255));
    let mut c = Composite::new();
    c.in2 = Some(Input::FilterOutput("b".to_string()));
    assert_eq!(c.render(&ctx).unwrap().output.surface.get_pixel(1, 2), px(240, 180, 125, 255));
}

#[test]
fn operator_keywords() {
    assert_eq!(Operator::parse("over"), Ok(Operator::Over));
    assert_eq!(Operator::parse("in"), Ok(Operator::In));
    assert_eq!(Operator::parse("out"), Ok(Operator::Out));
    assert_eq!(Operator::parse("atop"), Ok(Operator::Atop));
    assert_eq!(Operator::parse("xor"), Ok(Operator::Xor));
    assert_eq!(Operator::parse("arithmetic"), Ok(Operator::Arithmetic));
    assert_eq!(Operator::parse("Over"), Err(FilterError::InvalidConfiguration));
    assert_eq!(Operator::parse(""), Err(FilterError::InvalidConfiguration));
}

#[test]
fn lighting_flat_surface() {
    let ctx = context(filled(4, 4, px(0, 0, 0, 128)), node(0, 0, 4, 4));
    let mut l = Lighting::new_diffuse();
    l.set_diffuse_constant(FIXED_ONE / 2).unwrap();
    let li = l.prepare(&ctx, 1).unwrap();
    assert_eq!(li.bounds, IRect { x0: 0, y0: 0, x1: 4, y1: 4 });
    for row in li.normals.iter() {
        for n in row.iter() {
            assert_eq!((n.nx, n.ny), (0, 0));
            assert_eq!(l.slope(*n), (0, 0));
        }
    }
    let shade = Shade { light: FIXED_ONE, red: 200, green: 100, blue: 51 };
    let shades = vec![vec![shade; 4]; 4];
    let out = l.render_output(4, 4, li.bounds, &shades, SurfaceType::SRgb);
    assert_eq!(out.output.surface.get_pixel(2, 1), px(100, 50, 26, 255));
}

#[test]
fn lighting_too_small_input() {
    let ctx = context(filled(1, 2, px(0, 0, 0, 255)), node(0, 0, 1, 2));
    assert_eq!(Lighting::new_diffuse().prepare(&ctx, 1).err(), Some(FilterError::InputTooSmall));
    let ctx = context(filled(2, 1, px(0, 0, 0, 255)), node(0, 0, 2, 1));
    assert_eq!(Lighting::new_specular().prepare(&ctx, 1).err(), Some(FilterError::InputTooSmall));
    let ctx = context(filled(2, 2, px(0, 0, 0, 255)), node(0, 0, 2, 2));
    let li = Lighting::new_diffuse().prepare(&ctx, 1).unwrap();
    assert_eq!(li.normals.len(), 2);
    assert_eq!(li.normals[0].len(), 2);
    assert_eq!(li.normals[0][0].factor_x_num, 2);
    assert_eq!(li.normals[0][0].factor_x_den, 3);
}

#[test]
fn lighting_light_source_count() {
    let ctx = context(filled(3, 3, px(0, 0, 0, 255)), node(0, 0, 3, 3));
    let l = Lighting::new_diffuse();
    assert_eq!(l.prepare(&ctx, 2).err(), Some(FilterError::InvalidLightSourceCount));
    assert_eq!(l.prepare(&ctx, 0).err(), Some(FilterError::InvalidLightSourceCount));
    assert!(l.prepare(&ctx, 1).is_ok());
}

#[test]
fn lighting_normal_of_a_step() {
    let mut s = filled(3, 3, px(0, 0, 0, 0));
    for y in 0..3u32 {
        s.set_pixel(2, y, px(0, 0, 0, 255));
    }
    let ctx = context(s, node(0, 0, 3, 3));
    let li = Lighting::new_diffuse().prepare(&ctx, 1).unwrap();
    let n = li.normals[1][1];
    assert_eq!((n.factor_x_num, n.factor_x_den, n.nx, n.ny), (1, 4, 1020, 0));
    let corner = li.normals[0][0];
    assert_eq!((corner.nx, corner.ny), (0, 0));
    assert_eq!(Lighting::new_diffuse().slope(n), (-FIXED_ONE, 0));
}

#[test]
fn specular_alpha_is_brightest_channel() {
    let l = Lighting::new_specular();
    let shades = vec![vec![Shade { light: FIXED_ONE / 2, red: 100, green: 200, blue: 0 }; 2]; 2];
    let out = l.render_output(3, 3, IRect { x0: 1, y0: 1, x1: 3, y1: 3 }, &shades, SurfaceType::LinearRgb);
    assert_eq!(out.output.surface.get_pixel(1, 1), px(50, 100, 0, 100));
    assert_eq!(out.output.surface.get_pixel(0, 0), px(0, 0, 0, 0));
}

#[test]
fn lighting_parameter_validation() {
    let mut l = Lighting::new_specular();
    assert_eq!(l.set_specular_exponent(129 * FIXED_ONE), Err(FilterError::InvalidConfiguration));
    assert_eq!(l.set_specular_exponent(FIXED_ONE / 2), Err(FilterError::InvalidConfiguration));
    assert!(l.set_specular_exponent(128 * FIXED_ONE).is_ok());
    assert_eq!(l.set_specular_constant(-1), Err(FilterError::InvalidConfiguration));
    assert_eq!(l.set_kernel_unit_length(0, FIXED_ONE), Err(FilterError::InvalidConfiguration));
    assert!(l.set_kernel_unit_length(FIXED_ONE, 2 * FIXED_ONE).is_ok());
    assert_eq!(l.kernel_unit_length(), Some((FIXED_ONE, 2 * FIXED_ONE)));
    let mut d = Lighting::new_diffuse();
    assert_eq!(d.set_diffuse_constant(-FIXED_ONE), Err(FilterError::InvalidConfiguration));
    assert!(d.set_specular_exponent(500 * FIXED_ONE).is_ok());
}

#[test]
fn length_normalization() {
    let p = DrawingParams {
        vbox_width: 200 * FIXED_ONE,
        vbox_height: 100 * FIXED_ONE,
        font_size: 10 * FIXED_ONE,
        dpi_x: 90 * FIXED_ONE,
        dpi_y: 72 * FIXED_ONE,
    };
    let half = FIXED_ONE / 2;
    assert_eq!(RsvgLength::new(half, LengthUnit::Percent, LengthDir::Horizontal).normalize(&p), 100 * FIXED_ONE);
    assert_eq!(RsvgLength::new(half, LengthUnit::Percent, LengthDir::Vertical).normalize(&p), 50 * FIXED_ONE);
    assert_eq!(RsvgLength::new(2 * FIXED_ONE, LengthUnit::FontEm, LengthDir::Both).normalize(&p), 20 * FIXED_ONE);
    assert_eq!(RsvgLength::new(2 * FIXED_ONE, LengthUnit::FontEx, LengthDir::Both).normalize(&p), 10 * FIXED_ONE);
    assert_eq!(RsvgLength::new(FIXED_ONE, LengthUnit::Inch, LengthDir::Vertical).normalize(&p), 72 * FIXED_ONE);
    assert_eq!(RsvgLength::new(FIXED_ONE, LengthUnit::RelativeLarger, LengthDir::Both).normalize(&p), 0);
    let q = DrawingParams { vbox_width: 3 * FIXED_ONE, vbox_height: 4 * FIXED_ONE, ..p };
    assert_eq!(RsvgLength::new(half, LengthUnit::Percent, LengthDir::Both).normalize(&q), 115852);
    assert_eq!(
        RsvgLength::new(3 * FIXED_ONE, LengthUnit::Percent, LengthDir::Both).hand_normalize(0, 10 * FIXED_ONE, 0),
        30 * FIXED_ONE
    );
    assert!(RsvgLength::new(-1, LengthUnit::Default, LengthDir::Both).check_nonnegative().is_err());
    assert!(RsvgLength::new(0, LengthUnit::Default, LengthDir::Both).check_nonnegative().is_ok());
}

#[test]
fn matrix_multiply_and_transform() {
    let scale = Matrix { xx: 2 * FIXED_ONE, yx: 0, xy: 0, yy: 3 * FIXED_ONE, x0: FIXED_ONE, y0: 0 };
    let shift = Matrix { xx: FIXED_ONE, yx: 0, xy: 0, yy: FIXED_ONE, x0: 5 * FIXED_ONE, y0: 7 * FIXED_ONE };
    let m = Matrix::multiply(&scale, &shift);
    assert_eq!(m.transform_point(FIXED_ONE, FIXED_ONE), (8 * FIXED_ONE, 10 * FIXED_ONE));
    assert_eq!(m.transform_distance(FIXED_ONE, FIXED_ONE), (2 * FIXED_ONE, 3 * FIXED_ONE));
}

#[test]
fn surface_creation_limits() {
    assert_eq!(ImageSurface::create(-1, 4, SurfaceType::SRgb).err(), Some(FilterError::OutputAllocationFailed));
    assert_eq!(ImageSurface::create(40000, 4, SurfaceType::SRgb).err(), Some(FilterError::OutputAllocationFailed));
    let s = ImageSurface::create(0, 0, SurfaceType::SRgb).unwrap();
    assert_eq!((s.width(), s.height()), (0, 0));
}

#[test]
fn dash_list_repeats_odd_lists_and_refuses_zero_sums() {
    let a = user(5);
    let b = RsvgLength::new(3 * FIXED_ONE + FIXED_ONE / 2, LengthUnit::Inch, LengthDir::Both);
    let c = user(20);
    assert_eq!(dash_list(vec![a, b]), Ok(vec![a, b]));
    assert_eq!(dash_list(vec![a, b, c]), Ok(vec![a, b, c, a, b, c]));
    assert_eq!(dash_list(vec![]), Err(FilterError::InvalidConfiguration));
    assert_eq!(dash_list(vec![user(0)]), Err(FilterError::InvalidConfiguration));
    assert_eq!(dash_list(vec![user(15), user(-10), user(-5)]), Err(FilterError::InvalidConfiguration));
    let tiny = RsvgLength::new(FIXED_ONE / 2, LengthUnit::Default, LengthDir::Both);
    assert_eq!(dash_list(vec![tiny, tiny]), Err(FilterError::InvalidConfiguration));
}

#[test]
fn missing_subregion_size_is_the_viewport() {
    let p = DrawingParams { vbox_width: 4 * FIXED_ONE, vbox_height: 4 * FIXED_ONE, ..params() };
    let bbox = Rectangle { x: 0, y: 0, width: FIXED_ONE, height: FIXED_ONE };
    let ctx = FilterContext::new(&node(0, 0, 8, 8), filled(10, 10, px(0, 0, 0, 0)), &Matrix::identity(), &bbox, &p);
    assert_eq!(ctx.compute_bounds(None, None, None, None), IRect { x0: 0, y0: 0, x1: 8, y1: 8 });
    assert_eq!(ctx.compute_bounds(Some(user(0)), None, None, None), IRect { x0: 0, y0: 0, x1: 4, y1: 4 });
    assert_eq!(ctx.compute_bounds(None, Some(user(1)), Some(user(2)), None), IRect { x0: 0, y0: 1, x1: 2, y1: 5 });
}

#[test]
fn color_space_round_trip_with_alpha_gradient() {
    let mut s = ImageSurface::create(16, 16, SurfaceType::SRgb).unwrap();
    for y in 0..16u32 {
        for x in 0..16u32 {
            let a = (x * 16 + y + 1).min(255) as u8;
            let c = ((y * 17) as u32 * a as u32 / 255) as u8;
            s.set_pixel(x, y, px(c, a - c, a / 2, a));
        }
    }
    let all = IRect { x0: 0, y0: 0, x1: 16, y1: 16 };
    let back = unlinearize_surface(&linearize_surface(&s, all), all);
    for y in 0..16u32 {
        for x in 0..16u32 {
            let a = s.get_pixel(x, y);
            let b = back.get_pixel(x, y);
            for (u, v) in [(a.r, b.r), (a.g, b.g), (a.b, b.b)] {
                assert!((u as i32 - v as i32).abs() <= 20);
            }
            assert_eq!(a.a, b.a);
        }
    }
}
