use terra::data::{Color, GlobalData, PerObject, Viewport};
use terra::fixed::{Fx, FX_HALF, FX_ONE};
use terra::mat::Mat4Q;

#[test]
fn fixed_point_constructors() {
    assert_eq!(Fx::one().raw(), FX_ONE);
    assert_eq!(Fx::zero().raw(), 0);
    assert_eq!(Fx::from_int(-3).raw(), -3 * FX_ONE);
    assert_eq!(Fx::from_raw(FX_HALF).raw(), FX_HALF);
    assert_eq!(2 * FX_HALF, FX_ONE);
}

#[test]
fn color_channels_update_independently() {
    let mut c = Color::new();
    assert_eq!(c.get(), (Fx::one(), Fx::one(), Fx::one()));
    c.set_red(Fx::zero());
    assert_eq!(c.get(), (Fx::zero(), Fx::one(), Fx::one()));
    c.set_green(Fx::from_raw(FX_HALF));
    c.set_blue(Fx::zero());
    assert_eq!(c.get(), (Fx::zero(), Fx::from_raw(FX_HALF), Fx::zero()));
    c.set(Fx::one(), Fx::zero(), Fx::one());
    assert_eq!(c.get(), (Fx::one(), Fx::zero(), Fx::one()));
    assert_eq!(Color::black().get(), (Fx::zero(), Fx::zero(), Fx::zero()));
}

#[test]
fn per_object_fixes_alpha_at_one() {
    let mut tint = Color::black();
    tint.set(Fx::one(), Fx::from_raw(FX_HALF), Fx::zero());
    let per = PerObject::new(Mat4Q::identity(), &tint);
    assert_eq!(per.color, [Fx::one(), Fx::from_raw(FX_HALF), Fx::zero(), Fx::one()]);
    assert_eq!(per.model, Mat4Q::identity());
}

#[test]
fn global_data_identity_has_unit_matrices() {
    let g = GlobalData::identity();
    assert_eq!(g.projection, Mat4Q::identity());
    assert_eq!(g.view, Mat4Q::identity());
    assert_eq!(g.projection.d, 1);
    assert_eq!(g.projection.n[0], 1);
    assert_eq!(g.projection.n[1], 0);
    assert_eq!(g.projection.n[15], 1);
}

#[test]
fn default_viewport_is_the_unit_square() {
    let v = Viewport::default();
    assert_eq!(v.x.raw(), 0);
    assert_eq!(v.y.raw(), 0);
    assert_eq!(v.width.raw(), FX_ONE);
    assert_eq!(v.height.raw(), FX_ONE);
    let w = Viewport::new(Fx::zero(), Fx::zero(), Fx::from_int(2), Fx::from_int(2));
    assert_eq!(w.width.raw(), 2 * FX_ONE);
}
