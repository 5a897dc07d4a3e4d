use std::cmp::Ordering;
use sierra::dimensions::{minimal_extent, Extent1, Extent2, Extent3, MinimalExtent, Offset2, Offset3};
use sierra::image::ImageExtent;

#[test]
fn extent_components() {
    let e = Extent3::new(4, 5, 6);
    assert_eq!((e.width(), e.height(), e.depth()), (4, 5, 6));
    let n = e.as_width_height_depth();
    assert_eq!((n.width, n.height, n.depth), (4, 5, 6));
    assert_eq!(e.component(1), 5);
    assert_eq!(Extent2::new(7, 8).as_width_height().height, 8);
    assert_eq!(Extent1::new(9).as_width().width, 9);
}

#[test]
fn extent_dimension_changes() {
    assert_eq!(Extent1::new(3).into_2d(), Extent2::new(3, 1));
    assert_eq!(Extent1::new(3).into_3d(), Extent3::new(3, 1, 1));
    assert_eq!(Extent2::new(3, 4).into_1d(), Extent1::new(3));
    assert_eq!(Extent2::new(3, 4).into_3d(), Extent3::new(3, 4, 1));
    assert_eq!(Extent3::new(3, 4, 5).into_2d(), Extent2::new(3, 4));
    assert_eq!(Extent3::new(3, 4, 5).into_1d(), Extent1::new(3));
    assert_eq!(Extent3::new(3, 4, 5).into_3d(), Extent3::new(3, 4, 5));
}

#[test]
fn extent_min_max_pick() {
    let a = Extent3::new(1, 8, 3);
    let b = Extent3::new(4, 2, 3);
    assert_eq!(a.min(b), Extent3::new(1, 2, 3));
    assert_eq!(a.max(b), Extent3::new(4, 8, 3));
    assert_eq!(a.min(b), b.min(a));
    assert_eq!(a.max(a), a);
    assert_eq!(a.pick(b, |x, y| x.wrapping_add(y)), Extent3::new(5, 10, 6));
    assert_eq!(Extent2::ones(), Extent2::new(1, 1));
    assert_eq!(Extent2::zeros(), Extent2::new(0, 0));
}

#[test]
fn extent_min_is_lower_bound() {
    let a = Extent2::new(5, 1);
    let b = Extent2::new(2, 6);
    let m = a.min(b);
    assert!(m <= a && m <= b);
    let x = a.max(b);
    assert!(a <= x && b <= x);
}

#[test]
fn extent_partial_order() {
    let a = Extent2::new(1, 2);
    let b = Extent2::new(3, 4);
    let c = Extent2::new(0, 5);
    assert_eq!(a.partial_cmp(&b), Some(Ordering::Less));
    assert_eq!(b.partial_cmp(&a), Some(Ordering::Greater));
    assert_eq!(a.partial_cmp(&a), Some(Ordering::Equal));
    assert_eq!(a.partial_cmp(&c), None);
    assert_eq!(Extent2::new(1, 4).partial_cmp(&b), Some(Ordering::Less));
    assert!(!(a < c) && !(c < a));
    assert!(a < b && a <= b);
}

#[test]
fn minimal_extent_tracks_minimum() {
    let mut m: MinimalExtent<2> = minimal_extent();
    m.add(Extent2::new(10, 3));
    m.add(Extent2::new(4, 7));
    m.add(Extent2::new(6, 5));
    assert_eq!(m.get(), Extent2::new(4, 3));
}

#[test]
fn minimal_extent_defaults() {
    let m: MinimalExtent<3> = MinimalExtent::new();
    assert_eq!(m.get(), Extent3::new(1, 1, 1));
    let m: MinimalExtent<2> = MinimalExtent::new();
    assert_eq!(m.get_or(Extent2::new(9, 9)), Extent2::new(9, 9));
    let mut m: MinimalExtent<2> = MinimalExtent::new();
    m.add(Extent2::new(2, 3));
    assert_eq!(m.get_or(Extent2::new(9, 9)), Extent2::new(2, 3));
}

#[test]
fn offset_from_extent() {
    let o = Offset3::from_extent(Extent3::new(1, 2, 3)).unwrap();
    let xyz = o.as_xyz();
    assert_eq!((xyz.x, xyz.y, xyz.z), (1, 2, 3));
    assert!(Offset2::from_extent(Extent2::new(1, u32::MAX)).is_err());
    assert!(Offset2::from_extent(Extent2::new(i32::MAX as u32 + 1, 0)).is_err());
    let edge = Offset2::from_extent(Extent2::new(i32::MAX as u32, 0)).unwrap().as_xy();
    assert_eq!((edge.x, edge.y), (i32::MAX, 0));
    let z = Offset2::zeros().as_xy();
    assert_eq!((z.x, z.y), (0, 0));
    assert_eq!(Offset2::new(-1, 2).as_xy().x, -1);
}

#[test]
fn image_extent_dimensions() {
    let d1 = ImageExtent::D1 { width: 8 };
    let d2 = ImageExtent::D2 { width: 8, height: 4 };
    let d3 = ImageExtent::D3 { width: 8, height: 4, depth: 2 };
    assert_eq!(d1.into_2d(), Extent2::new(8, 1));
    assert_eq!(d1.into_3d(), Extent3::new(8, 1, 1));
    assert_eq!(d2.into_3d(), Extent3::new(8, 4, 1));
    assert_eq!(d3.into_2d(), Extent2::new(8, 4));
    assert_eq!(d3.into_3d(), Extent3::new(8, 4, 2));
    assert_eq!(ImageExtent::from(Extent2::new(3, 5)), ImageExtent::D2 { width: 3, height: 5 });
}

#[test]
fn minimal_extent_order_independent() {
    let extents = [Extent2::new(10, 3), Extent2::new(4, 7), Extent2::new(6, 5)];
    let orders = [[0, 1, 2], [2, 1, 0], [1, 2, 0]];
    for order in orders {
        let mut m: MinimalExtent<2> = MinimalExtent::new();
        for i in order {
            m.add(extents[i]);
        }
        assert_eq!(m.get_or(Extent2::new(99, 99)), Extent2::new(4, 3));
    }
}
