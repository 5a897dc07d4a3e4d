use vstd::prelude::*;

verus! {

/// Image size is defined to `u32` which is standard for graphics API of today.
pub type ImageSize = u32;

/// Image offset is defined to `i32` which is standard for graphics API today.
pub type ImageOffset = i32;

/// Multidimensional size.
#[derive(Clone, Copy, Debug, PartialEq, Eq, Hash)]
pub struct Extent<const D: usize> {
    values: [ImageSize; D],
}

pub type Extent1 = Extent<1>;

pub type Extent2 = Extent<2>;

pub type Extent3 = Extent<3>;

/// Two-dimensional image extent.
pub type Extent2d = Extent2;

/// Three-dimensional image extent.
pub type Extent3d = Extent3;

/// Named view of a one-dimensional extent.
#[derive(Clone, Copy, Debug)]
pub struct Width<T> {
    pub width: T,
}

/// Named view of a two-dimensional extent.
#[derive(Clone, Copy, Debug)]
pub struct WidthHeight<T> {
    pub width: T,
    pub height: T,
}

/// Named view of a three-dimensional extent.
#[derive(Clone, Copy, Debug)]
pub struct WidthHeightDepth<T> {
    pub width: T,
    pub height: T,
    pub depth: T,
}

impl<const D: usize> View for Extent<D> {
    type V = Seq<ImageSize>;

    closed spec fn view(&self) -> Seq<ImageSize> {
        self.values@
    }
}

/// Every component of `a` is at most the matching component of `b`.
pub open spec fn all_le(a: Seq<ImageSize>, b: Seq<ImageSize>) -> bool {
    a.len() == b.len() && forall|i: int| 0 <= i < a.len() ==> #[trigger] a[i] <= #[trigger] b[i]
}

/// The first `n` components of `s`.
pub open spec fn prefix(s: Seq<ImageSize>, n: usize) -> Seq<ImageSize> {
    s.take(n as int)
}

/// How `all_le` on prefixes changes when one more component is taken.
pub proof fn lemma_all_le_step(a: Seq<ImageSize>, b: Seq<ImageSize>, n: usize)
    requires
        a.len() == b.len(),
        n < a.len(),
        n < usize::MAX,
    ensures
        all_le(prefix(a, (n + 1) as usize), prefix(b, (n + 1) as usize)) <==> (all_le(prefix(a, n), prefix(b, n)) && a[n as int] <= b[n as int]),
        all_le(prefix(b, (n + 1) as usize), prefix(a, (n + 1) as usize)) <==> (all_le(prefix(b, n), prefix(a, n)) && b[n as int] <= a[n as int]),
{
    let pa = prefix(a, n);
    let pb = prefix(b, n);
    let pa2 = prefix(a, (n + 1) as usize);
    let pb2 = prefix(b, (n + 1) as usize);
    assert(pa2 =~= pa.push(a[n as int]));
    assert(pb2 =~= pb.push(b[n as int]));
    assert forall|j: int| 0 <= j < pa.len() implies pa2[j] == #[trigger] pa[j] && pb2[j] == pb[j] by {}
    if all_le(pa2, pb2) {
        assert forall|j: int| 0 <= j < pa.len() implies #[trigger] pa[j] <= #[trigger] pb[j] by {
            assert(pa2[j] <= pb2[j]);
        }
        assert(pa2[n as int] <= pb2[n as int]);
    }
    if all_le(pb2, pa2) {
        assert forall|j: int| 0 <= j < pa.len() implies #[trigger] pb[j] <= #[trigger] pa[j] by {
            assert(pb2[j] <= pa2[j]);
        }
        assert(pb2[n as int] <= pa2[n as int]);
    }
    if all_le(pa, pb) && a[n as int] <= b[n as int] {
        assert forall|j: int| 0 <= j < pa2.len() implies #[trigger] pa2[j] <= #[trigger] pb2[j] by {
            if j < n {
                assert(pa[j] <= pb[j]);
            }
        }
    }
    if all_le(pb, pa) && b[n as int] <= a[n as int] {
        assert forall|j: int| 0 <= j < pa2.len() implies #[trigger] pb2[j] <= #[trigger] pa2[j] by {
            if j < n {
                assert(pb[j] <= pa[j]);
            }
        }
    }
}

/// Taking all components of `s` gives `s` back.
pub proof fn lemma_prefix_full(s: Seq<ImageSize>, n: usize)
    requires
        s.len() == n,
    ensures
        prefix(s, n) == s,
{
    assert(s.take(n as int) =~= s);
}

/// An order relation on prefixes that fails stays failed on the whole sequences.
pub proof fn lemma_all_le_prefix(a: Seq<ImageSize>, b: Seq<ImageSize>, n: usize)
    requires
        a.len() == b.len(),
        n <= a.len(),
        all_le(a, b),
    ensures
        all_le(prefix(a, n), prefix(b, n)),
{
    let pa = prefix(a, n);
    let pb = prefix(b, n);
    assert forall|i: int| 0 <= i < pa.len() implies #[trigger] pa[i] <= #[trigger] pb[i] by {
        assert(a[i] <= b[i]);
    }
}

/// Componentwise minimum of two sequences of the same length.
pub open spec fn seq_min(a: Seq<ImageSize>, b: Seq<ImageSize>) -> Seq<ImageSize> {
    Seq::new(a.len(), |i: int| if a[i] <= b[i] { a[i] } else { b[i] })
}

/// Componentwise maximum of two sequences of the same length.
pub open spec fn seq_max(a: Seq<ImageSize>, b: Seq<ImageSize>) -> Seq<ImageSize> {
    Seq::new(a.len(), |i: int| if a[i] >= b[i] { a[i] } else { b[i] })
}

impl Extent<1> {
    pub fn new(width: ImageSize) -> (r: Self)
        ensures
            r@ == seq![width],
    {
        let r = Extent { values: [width] };
        assert(r@ =~= seq![width]);
        r
    }

    /// The width of the extent.
    pub fn width(&self) -> (r: ImageSize)
        ensures
            r == self@[0],
    {
        self.values[0]
    }

    /// The extent as a named struct.
    pub fn as_width(&self) -> (r: Width<ImageSize>)
        ensures
            r.width == self@[0],
    {
        Width { width: self.values[0] }
    }

    pub fn into_1d(self) -> (r: Extent<1>)
        ensures
            r == self,
    {
        self
    }

    pub fn into_2d(self) -> (r: Extent<2>)
        ensures
            r@ == seq![self@[0], 1u32],
    {
        let r = Extent { values: [self.values[0], 1] };
        assert(r@ =~= seq![self@[0], 1u32]);
        r
    }

    pub fn into_3d(self) -> (r: Extent<3>)
        ensures
            r@ == seq![self@[0], 1u32, 1u32],
    {
        let r = Extent { values: [self.values[0], 1, 1] };
        assert(r@ =~= seq![self@[0], 1u32, 1u32]);
        r
    }
}

impl Extent<2> {
    pub fn new(width: ImageSize, height: ImageSize) -> (r: Self)
        ensures
            r@ == seq![width, height],
    {
        let r = Extent { values: [width, height] };
        assert(r@ =~= seq![width, height]);
        r
    }

    /// The width of the extent.
    pub fn width(&self) -> (r: ImageSize)
        ensures
            r == self@[0],
    {
        self.values[0]
    }

    /// The height of the extent.
    pub fn height(&self) -> (r: ImageSize)
        ensures
            r == self@[1],
    {
        self.values[1]
    }

    /// The extent as a named struct.
    pub fn as_width_height(&self) -> (r: WidthHeight<ImageSize>)
        ensures
            r.width == self@[0],
            r.height == self@[1],
    {
        WidthHeight { width: self.values[0], height: self.values[1] }
    }

    pub fn into_1d(self) -> (r: Extent<1>)
        ensures
            r@ == seq![self@[0]],
    {
        let r = Extent { values: [self.values[0]] };
        assert(r@ =~= seq![self@[0]]);
        r
    }

    pub fn into_2d(self) -> (r: Extent<2>)
        ensures
            r == self,
    {
        self
    }

    pub fn into_3d(self) -> (r: Extent<3>)
        ensures
            r@ == seq![self@[0], self@[1], 1u32],
    {
        let r = Extent { values: [self.values[0], self.values[1], 1] };
        assert(r@ =~= seq![self@[0], self@[1], 1u32]);
        r
    }
}

impl Extent<3> {
    pub fn new(width: ImageSize, height: ImageSize, depth: ImageSize) -> (r: Self)
        ensures
            r@ == seq![width, height, depth],
    {
        let r = Extent { values: [width, height, depth] };
        assert(r@ =~= seq![width, height, depth]);
        r
    }

    /// The width of the extent.
    pub fn width(&self) -> (r: ImageSize)
        ensures
            r == self@[0],
    {
        self.values[0]
    }

    /// The height of the extent.
    pub fn height(&self) -> (r: ImageSize)
        ensures
            r == self@[1],
    {
        self.values[1]
    }

    /// The depth of the extent.
    pub fn depth(&self) -> (r: ImageSize)
        ensures
            r == self@[2],
    {
        self.values[2]
    }

    /// The extent as a named struct.
    pub fn as_width_height_depth(&self) -> (r: WidthHeightDepth<ImageSize>)
        ensures
            r.width == self@[0],
            r.height == self@[1],
            r.depth == self@[2],
    {
        WidthHeightDepth { width: self.values[0], height: self.values[1], depth: self.values[2] }
    }

    pub fn into_1d(self) -> (r: Extent<1>)
        ensures
            r@ == seq![self@[0]],
    {
        let r = Extent { values: [self.values[0]] };
        assert(r@ =~= seq![self@[0]]);
        r
    }

    pub fn into_2d(self) -> (r: Extent<2>)
        ensures
            r@ == seq![self@[0], self@[1]],
    {
        let r = Extent { values: [self.values[0], self.values[1]] };
        assert(r@ =~= seq![self@[0], self@[1]]);
        r
    }

    pub fn into_3d(self) -> (r: Extent<3>)
        ensures
            r == self,
    {
        self
    }
}

impl<const D: usize> Extent<D> {
    /// An extent has exactly `D` components.
    pub proof fn lemma_len(&self)
        ensures
            self@.len() == D,
    {
    }

    /// The component of the extent along axis `i`.
    pub fn component(&self, i: usize) -> (r: ImageSize)
        requires
            i < D,
        ensures
            r == self@[i as int],
    {
        self.values[i]
    }

    /// Combines two extents component by component with `picker`.
    pub fn pick<F: Fn(ImageSize, ImageSize) -> ImageSize>(self, rhs: Self, picker: F) -> (r: Self)
        requires
            forall|a: ImageSize, b: ImageSize| call_requires(picker, (a, b)),
        ensures
            r@.len() == D,
            forall|i: int| 0 <= i < D ==> call_ensures(picker, (self@[i], rhs@[i]), #[trigger] r@[i]),
    {
        let mut values = self.values;
        let mut i: usize = 0;
        while i < D
            invariant
                i <= D,
                values@.len() == D,
                forall|a: ImageSize, b: ImageSize| call_requires(picker, (a, b)),
                forall|j: int| 0 <= j < i ==> call_ensures(picker, (self@[j], rhs@[j]), #[trigger] values@[j]),
                forall|j: int| i <= j < D ==> #[trigger] values@[j] == self@[j],
            decreases D - i,
        {
            let v = picker(self.values[i], rhs.values[i]);
            values[i] = v;
            i = i + 1;
        }
        Extent { values }
    }

    /// Componentwise minimum.
    pub fn min(self, rhs: Self) -> (r: Self)
        ensures
            r@ == seq_min(self@, rhs@),
    {
        let mut values = self.values;
        let mut i: usize = 0;
        while i < D
            invariant
                i <= D,
                values@.len() == D,
                self@.len() == D,
                rhs@.len() == D,
                forall|j: int| 0 <= j < i ==> #[trigger] values@[j] == seq_min(self@, rhs@)[j],
                forall|j: int| i <= j < D ==> #[trigger] values@[j] == self@[j],
            decreases D - i,
        {
            if rhs.values[i] < self.values[i] {
                values[i] = rhs.values[i];
            }
            i = i + 1;
        }
        let r = Extent { values };
        assert(r@ =~= seq_min(self@, rhs@));
        r
    }

    /// Componentwise maximum.
    pub fn max(self, rhs: Self) -> (r: Self)
        ensures
            r@ == seq_max(self@, rhs@),
    {
        let mut values = self.values;
        let mut i: usize = 0;
        while i < D
            invariant
                i <= D,
                values@.len() == D,
                self@.len() == D,
                rhs@.len() == D,
                forall|j: int| 0 <= j < i ==> #[trigger] values@[j] == seq_max(self@, rhs@)[j],
                forall|j: int| i <= j < D ==> #[trigger] values@[j] == self@[j],
            decreases D - i,
        {
            if rhs.values[i] > self.values[i] {
                values[i] = rhs.values[i];
            }
            i = i + 1;
        }
        let r = Extent { values };
        assert(r@ =~= seq_max(self@, rhs@));
        r
    }

    /// Extent with every component equal to one.
    pub fn ones() -> (r: Self)
        ensures
            r@ == Seq::new(D as nat, |i: int| 1u32),
    {
        let r = Extent { values: [1u32; D] };
        assert(r@ =~= Seq::new(D as nat, |i: int| 1u32));
        r
    }

    /// Extent with every component equal to zero.
    pub fn zeros() -> (r: Self)
        ensures
            r@ == Seq::new(D as nat, |i: int| 0u32),
    {
        let r = Extent { values: [0u32; D] };
        assert(r@ =~= Seq::new(D as nat, |i: int| 0u32));
        r
    }

}

/// Multidimensional offset.
#[derive(Clone, Copy, Debug, PartialEq, Eq, Hash)]
pub struct Offset<const D: usize> {
    values: [ImageOffset; D],
}

pub type Offset1 = Offset<1>;

pub type Offset2 = Offset<2>;

pub type Offset3 = Offset<3>;

/// Two-dimensional image offset.
pub type Offset2d = Offset2;

/// Three-dimensional image offset.
pub type Offset3d = Offset3;

/// Named view of a one-dimensional offset.
#[derive(Clone, Copy, Debug)]
pub struct X<T> {
    /// Width offset.
    pub x: T,
}

/// Named view of a two-dimensional offset.
#[derive(Clone, Copy, Debug)]
pub struct XY<T> {
    /// Width offset.
    pub x: T,
    /// Height offset.
    pub y: T,
}

/// Named view of a three-dimensional offset.
#[derive(Clone, Copy, Debug)]
pub struct XYZ<T> {
    /// Width offset.
    pub x: T,
    /// Height offset.
    pub y: T,
    /// Depth offset.
    pub z: T,
}

impl<const D: usize> View for Offset<D> {
    type V = Seq<ImageOffset>;

    closed spec fn view(&self) -> Seq<ImageOffset> {
        self.values@
    }
}

impl Offset<1> {
    pub fn new(x: ImageOffset) -> (r: Self)
        ensures
            r@ == seq![x],
    {
        let r = Offset { values: [x] };
        assert(r@ =~= seq![x]);
        r
    }

    /// The offset as a named struct.
    pub fn as_x(&self) -> (r: X<ImageOffset>)
        ensures
            r.x == self@[0],
    {
        X { x: self.values[0] }
    }
}

impl Offset<2> {
    pub fn new(x: ImageOffset, y: ImageOffset) -> (r: Self)
        ensures
            r@ == seq![x, y],
    {
        let r = Offset { values: [x, y] };
        assert(r@ =~= seq![x, y]);
        r
    }

    /// The offset as a named struct.
    pub fn as_xy(&self) -> (r: XY<ImageOffset>)
        ensures
            r.x == self@[0],
            r.y == self@[1],
    {
        XY { x: self.values[0], y: self.values[1] }
    }
}

impl Offset<3> {
    pub fn new(x: ImageOffset, y: ImageOffset, z: ImageOffset) -> (r: Self)
        ensures
            r@ == seq![x, y, z],
    {
        let r = Offset { values: [x, y, z] };
        assert(r@ =~= seq![x, y, z]);
        r
    }

    /// The offset as a named struct.
    pub fn as_xyz(&self) -> (r: XYZ<ImageOffset>)
        ensures
            r.x == self@[0],
            r.y == self@[1],
            r.z == self@[2],
    {
        XYZ { x: self.values[0], y: self.values[1], z: self.values[2] }
    }
}

impl<const D: usize> Offset<D> {
    /// An offset has exactly `D` components.
    pub proof fn lemma_len(&self)
        ensures
            self@.len() == D,
    {
    }

    /// Offset with every component equal to zero.
    pub fn zeros() -> (r: Self)
        ensures
            r@ == Seq::new(D as nat, |i: int| 0i32),
    {
        let r = Offset { values: [0i32; D] };
        assert(r@ =~= Seq::new(D as nat, |i: int| 0i32));
        r
    }

    /// The offset with the same components as `extent`; fails when a component does not
    /// fit in an offset.
    pub fn from_extent(extent: Extent<D>) -> (r: Result<Self, std::num::TryFromIntError>)
        ensures
            r is Ok <==> forall|i: int| 0 <= i < D ==> #[trigger] extent@[i] <= i32::MAX,
            r matches Ok(o) ==> o@.len() == D && forall|i: int|
                0 <= i < D ==> #[trigger] o@[i] == extent@[i],
    {
        proof {
            extent.lemma_len();
        }
        let mut values = [0i32; D];
        let mut i: usize = 0;
        while i < D
            invariant
                i <= D,
                values@.len() == D,
                extent@.len() == D,
                forall|j: int| 0 <= j < i ==> #[trigger] values@[j] == extent@[j],
                forall|j: int| 0 <= j < i ==> #[trigger] extent@[j] <= i32::MAX,
            decreases D - i,
        {
            let component = extent.component(i);
            match i32::try_from(component as u64) {
                Ok(v) => {
                    values[i] = v;
                },
                Err(e) => {
                    return Err(e);
                },
            }
            i = i + 1;
        }
        Ok(Offset { values })
    }
}

/// Accumulates the componentwise minimum of the extents added to it.
pub struct MinimalExtent<const D: usize> {
    values: Option<[ImageSize; D]>,
}

impl<const D: usize> MinimalExtent<D> {
    /// The minimum so far, or `None` before the first extent is added.
    pub closed spec fn current(&self) -> Option<Seq<ImageSize>> {
        match self.values {
            None => None,
            Some(v) => Some(v@),
        }
    }

    pub fn new() -> (r: Self)
        ensures
            r.current() is None,
    {
        MinimalExtent { values: None }
    }

    /// Lowers the minimum to include `extent`.
    pub fn add(&mut self, extent: Extent<D>)
        ensures
            final(self).current() == Some(
                match old(self).current() {
                    None => extent@,
                    Some(v) => seq_min(v, extent@),
                },
            ),
    {
        match self.values {
            None => {
                self.values = Some(extent.values);
            },
            Some(values) => {
                let e = Extent { values };
                let m = e.min(extent);
                self.values = Some(m.values);
            },
        }
    }

    /// The minimum of the extents added so far, or ones if none was added.
    pub fn get(self) -> (r: Extent<D>)
        ensures
            r@ == match self.current() {
                None => Seq::new(D as nat, |i: int| 1u32),
                Some(v) => v,
            },
    {
        self.get_or(Extent::ones())
    }

    /// The minimum of the extents added so far, or `default` if none was added.
    pub fn get_or(self, default: Extent<D>) -> (r: Extent<D>)
        ensures
            r@ == match self.current() {
                None => default@,
                Some(v) => v,
            },
    {
        match self.values {
            None => default,
            Some(values) => Extent { values },
        }
    }
}

pub fn minimal_extent<const D: usize>() -> (r: MinimalExtent<D>)
    ensures
        r.current() is None,
{
    MinimalExtent::new()
}

/// The componentwise minimum is the greatest lower bound of two extents in the product
/// order, and the maximum the least upper bound.
pub proof fn lemma_min_max_bounds(a: Seq<ImageSize>, b: Seq<ImageSize>, c: Seq<ImageSize>)
    requires
        a.len() == b.len(),
        b.len() == c.len(),
    ensures
        all_le(seq_min(a, b), a),
        all_le(seq_min(a, b), b),
        all_le(c, a) && all_le(c, b) ==> all_le(c, seq_min(a, b)),
        all_le(a, seq_max(a, b)),
        all_le(b, seq_max(a, b)),
        all_le(a, c) && all_le(b, c) ==> all_le(seq_max(a, b), c),
{
    assert forall|i: int| 0 <= i < a.len() implies #[trigger] seq_min(a, b)[i] <= #[trigger] a[i]
        && seq_min(a, b)[i] <= b[i] && a[i] <= seq_max(a, b)[i] && b[i] <= seq_max(a, b)[i] by {}
    if all_le(c, a) && all_le(c, b) {
        assert forall|i: int| 0 <= i < c.len() implies #[trigger] c[i] <= #[trigger] seq_min(a, b)[i] by {
            assert(c[i] <= a[i] && c[i] <= b[i]);
        }
    }
    if all_le(a, c) && all_le(b, c) {
        assert forall|i: int| 0 <= i < c.len() implies #[trigger] seq_max(a, b)[i] <= #[trigger] c[i] by {
            assert(a[i] <= c[i] && b[i] <= c[i]);
        }
    }
}

/// Minimum and maximum do not depend on the order of their arguments, and leave an extent
/// combined with itself unchanged.
pub proof fn lemma_min_max_symmetric(a: Seq<ImageSize>, b: Seq<ImageSize>)
    requires
        a.len() == b.len(),
    ensures
        seq_min(a, b) == seq_min(b, a),
        seq_max(a, b) == seq_max(b, a),
        seq_min(a, a) == a,
        seq_max(a, a) == a,
{
    assert(seq_min(a, b) =~= seq_min(b, a));
    assert(seq_max(a, b) =~= seq_max(b, a));
    assert(seq_min(a, a) =~= a);
    assert(seq_max(a, a) =~= a);
}

/// The product order on extents is a partial order: reflexive, antisymmetric and transitive.
pub proof fn lemma_all_le_partial_order(a: Seq<ImageSize>, b: Seq<ImageSize>, c: Seq<ImageSize>)
    ensures
        all_le(a, a),
        all_le(a, b) && all_le(b, a) ==> a == b,
        all_le(a, b) && all_le(b, c) ==> all_le(a, c),
{
    assert forall|i: int| 0 <= i < a.len() implies #[trigger] a[i] <= #[trigger] a[i] by {}
    if all_le(a, b) && all_le(b, a) {
        assert forall|i: int| 0 <= i < a.len() implies a[i] == b[i] by {
            assert(a[i] <= b[i] && b[i] <= a[i]);
        }
        assert(a =~= b);
    }
    if all_le(a, b) && all_le(b, c) {
        assert forall|i: int| 0 <= i < a.len() implies #[trigger] a[i] <= #[trigger] c[i] by {
            assert(a[i] <= b[i] && b[i] <= c[i]);
        }
    }
}

/// The minimum kept by a `MinimalExtent` lies below every extent added to it: adding an extent
/// to a minimum `m` of earlier extents gives a bound of both `m`'s extents and the new one.
pub proof fn lemma_minimal_extent_below_added(m: Seq<ImageSize>, earlier: Seq<ImageSize>, added: Seq<ImageSize>)
    requires
        m.len() == added.len(),
        all_le(m, earlier),
    ensures
        all_le(seq_min(m, added), earlier),
        all_le(seq_min(m, added), added),
{
    lemma_min_max_bounds(m, added, m);
    lemma_all_le_partial_order(seq_min(m, added), m, earlier);
}


/// The componentwise minimum of `extents` as `MinimalExtent` accumulates it: `None` for no
/// extents, else the minimum of the earlier ones lowered to include the last.
pub open spec fn folded_min(extents: Seq<Seq<ImageSize>>) -> Option<Seq<ImageSize>>
    decreases extents.len(),
{
    if extents.len() == 0 {
        None
    } else {
        Some(
            match folded_min(extents.drop_last()) {
                None => extents.last(),
                Some(v) => seq_min(v, extents.last()),
            },
        )
    }
}

/// Adding `extent` to a `MinimalExtent` that holds the minimum of `extents` gives the
/// minimum of `extents` followed by `extent`.
pub proof fn lemma_add_extends_folded_min(extents: Seq<Seq<ImageSize>>, extent: Seq<ImageSize>)
    ensures
        folded_min(extents.push(extent)) == Some(
            match folded_min(extents) {
                None => extent,
                Some(v) => seq_min(v, extent),
            },
        ),
{
    assert(extents.push(extent).drop_last() =~= extents);
}

/// After adding extents of `d` components, each component of the minimum is the least of
/// that component over all the extents added.
pub proof fn lemma_folded_min_is_componentwise_minimum(extents: Seq<Seq<ImageSize>>, d: nat)
    requires
        extents.len() >= 1,
        forall|k: int| 0 <= k < extents.len() ==> (#[trigger] extents[k]).len() == d,
    ensures
        folded_min(extents) is Some,
        folded_min(extents)->0.len() == d,
        forall|i: int, k: int|
            0 <= i < d && 0 <= k < extents.len() ==> folded_min(extents)->0[i] <= #[trigger] extents[k][i],
        forall|i: int|
            0 <= i < d ==> exists|k: int|
                0 <= k < extents.len() && #[trigger] folded_min(extents)->0[i] == extents[k][i],
    decreases extents.len(),
{
    let rest = extents.drop_last();
    let last = extents.last();
    assert(last == extents[extents.len() - 1]);
    if rest.len() == 0 {
        assert forall|i: int| 0 <= i < d implies exists|k: int|
            0 <= k < extents.len() && #[trigger] folded_min(extents)->0[i] == extents[k][i] by {
            assert(folded_min(extents)->0[i] == extents[0][i]);
        }
    } else {
        assert forall|k: int| 0 <= k < rest.len() implies (#[trigger] rest[k]).len() == d by {
            assert(rest[k] == extents[k]);
        }
        lemma_folded_min_is_componentwise_minimum(rest, d);
        let v = folded_min(rest)->0;
        let m = folded_min(extents)->0;
        assert(m == seq_min(v, last));
        assert forall|i: int, k: int| 0 <= i < d && 0 <= k < extents.len() implies m[i]
            <= #[trigger] extents[k][i] by {
            if k < rest.len() {
                assert(rest[k] == extents[k]);
                assert(v[i] <= rest[k][i]);
            }
        }
        assert forall|i: int| 0 <= i < d implies exists|k: int|
            0 <= k < extents.len() && #[trigger] m[i] == extents[k][i] by {
            if v[i] <= last[i] {
                let k = choose|k: int| 0 <= k < rest.len() && #[trigger] v[i] == rest[k][i];
                assert(rest[k] == extents[k]);
                assert(m[i] == extents[k][i]);
            } else {
                assert(m[i] == extents[extents.len() - 1][i]);
            }
        }
    }
}

/// The minimum does not depend on the order in which the extents were added.
pub proof fn lemma_folded_min_order_independent(a: Seq<Seq<ImageSize>>, b: Seq<Seq<ImageSize>>, d: nat)
    requires
        a.to_multiset() == b.to_multiset(),
        forall|k: int| 0 <= k < a.len() ==> (#[trigger] a[k]).len() == d,
    ensures
        folded_min(a) == folded_min(b),
{
    broadcast use {
        vstd::seq_lib::to_multiset_contains,
        vstd::seq_lib::to_multiset_len,
    };

    if a.len() == 0 {
        assert(b.to_multiset().len() == 0);
        assert(b.len() == 0);
    } else {
        assert(b.len() == a.len()) by {
            assert(a.to_multiset().len() == a.len());
            assert(b.to_multiset().len() == b.len());
        }
        assert forall|k: int| 0 <= k < b.len() implies (#[trigger] b[k]).len() == d by {
            assert(b.contains(b[k]));
            assert(b.to_multiset().count(b[k]) > 0);
            assert(a.contains(b[k]));
        }
        lemma_folded_min_is_componentwise_minimum(a, d);
        lemma_folded_min_is_componentwise_minimum(b, d);
        let ma = folded_min(a)->0;
        let mb = folded_min(b)->0;
        assert forall|i: int| 0 <= i < d implies ma[i] == mb[i] by {
            let ka = choose|k: int| 0 <= k < a.len() && #[trigger] ma[i] == a[k][i];
            let kb = choose|k: int| 0 <= k < b.len() && #[trigger] mb[i] == b[k][i];
            assert(a.contains(a[ka]));
            assert(a.to_multiset().count(a[ka]) > 0);
            assert(b.contains(a[ka]));
            let jb = choose|j: int| 0 <= j < b.len() && b[j] == a[ka];
            assert(mb[i] <= b[jb][i]);
            assert(b.contains(b[kb]));
            assert(b.to_multiset().count(b[kb]) > 0);
            assert(a.contains(b[kb]));
            let ja = choose|j: int| 0 <= j < a.len() && a[j] == b[kb];
            assert(ma[i] <= a[ja][i]);
        }
        assert(ma =~= mb);
    }
}

} // verus!
