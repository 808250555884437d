use dialog_core::{DimensionRequest, Margins, SizeRequest, Vec2};

#[test]
fn saturating_sub_clamps_at_zero() {
    let a = Vec2::new(3, 1);
    let b = Vec2::new(5, 1);
    assert_eq!(a.saturating_sub(b), Vec2::new(0, 0));
    assert_eq!(b.saturating_sub(a), Vec2::new(2, 0));
}

#[test]
fn saturating_add_clamps_at_max() {
    let a = Vec2::new(usize::MAX - 1, 2);
    let b = Vec2::new(5, 7);
    assert_eq!(a.saturating_add(b), Vec2::new(usize::MAX, 9));
}

#[test]
fn component_max_takes_each_axis() {
    let a = Vec2::new(3, 9);
    let b = Vec2::new(5, 1);
    assert_eq!(a.component_max(b), Vec2::new(5, 9));
}

#[test]
fn margins_split_into_corners() {
    let m = Margins::new(1, 2, 3, 4);
    assert_eq!(m.combined(), Vec2::new(3, 7));
    assert_eq!(m.top_left(), Vec2::new(1, 3));
    assert_eq!(m.bot_right(), Vec2::new(2, 4));
}

#[test]
fn dimension_request_reduced() {
    assert_eq!(DimensionRequest::Fixed(10).reduced(3), DimensionRequest::Fixed(7));
    assert_eq!(DimensionRequest::AtMost(2).reduced(5), DimensionRequest::AtMost(0));
    assert_eq!(DimensionRequest::Unlimited.reduced(9), DimensionRequest::Unlimited);
}

#[test]
fn size_request_reduced_by_margins() {
    let req = SizeRequest { w: DimensionRequest::AtMost(10), h: DimensionRequest::Fixed(4) };
    let r = req.reduced(Vec2::new(3, 1));
    assert_eq!(r.w, DimensionRequest::AtMost(7));
    assert_eq!(r.h, DimensionRequest::Fixed(3));
}

#[test]
fn unlimited_request_is_unbounded_on_both_axes() {
    let r = SizeRequest::unlimited();
    assert_eq!(r.w, DimensionRequest::Unlimited);
    assert_eq!(r.h, DimensionRequest::Unlimited);
}
