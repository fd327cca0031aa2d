//! Element types and tensor shapes, as the backend reads them.
use vstd::prelude::*;

verus! {

/// The element type of a tensor.
#[derive(Clone, Copy, Debug, PartialEq, Eq, Structural)]
pub enum DType {
    U8,
    U32,
    I64,
    BF16,
    F16,
    F32,
    F64,
    F8E4M3,
    F8E5M2,
}

/// Size of one element of `d`, in bytes.
pub open spec fn dtype_size(d: DType) -> nat {
    match d {
        DType::U8 | DType::F8E4M3 | DType::F8E5M2 => 1,
        DType::BF16 | DType::F16 => 2,
        DType::U32 | DType::F32 => 4,
        DType::I64 | DType::F64 => 8,
    }
}

impl DType {
    /// Size of one element, in bytes.
    pub fn size_in_bytes(&self) -> (r: usize)
        ensures
            r == dtype_size(*self),
    {
        match self {
            DType::U8 | DType::F8E4M3 | DType::F8E5M2 => 1,
            DType::BF16 | DType::F16 => 2,
            DType::U32 | DType::F32 => 4,
            DType::I64 | DType::F64 => 8,
        }
    }
}

/// The number of elements of a tensor with these dimensions.
pub open spec fn dims_product(dims: Seq<usize>) -> nat
    decreases dims.len(),
{
    if dims.len() == 0 {
        1
    } else {
        dims_product(dims.drop_last()) * (dims.last() as nat)
    }
}

/// Every partial product of the dimensions, taken left to right, fits in a `usize`.
pub open spec fn product_fits(dims: Seq<usize>) -> bool {
    forall|k: int| 0 <= k <= dims.len() ==> #[trigger] dims_product(dims.take(k)) <= usize::MAX
}

/// The dimensions of a tensor.
#[derive(Debug, PartialEq, Eq)]
pub struct Shape {
    dims: Vec<usize>,
}

impl Clone for Shape {
    /// A shape with the same dimensions.
    fn clone(&self) -> (r: Self)
        ensures
            r@ == self@,
    {
        Shape { dims: self.dims.clone() }
    }
}

impl View for Shape {
    type V = Seq<usize>;

    closed spec fn view(&self) -> Seq<usize> {
        self.dims@
    }
}

impl Shape {
    /// A shape with these dimensions.
    pub fn from_dims(dims: Vec<usize>) -> (r: Shape)
        ensures
            r@ == dims@,
    {
        Shape { dims }
    }

    /// The dimensions.
    pub fn dims(&self) -> (r: &[usize])
        ensures
            r@ == self@,
    {
        self.dims.as_slice()
    }

    /// Number of dimensions.
    pub fn rank(&self) -> (r: usize)
        ensures
            r == self@.len(),
    {
        self.dims.len()
    }

    /// The number of elements: the product of the dimensions (1 for no dimension).
    /// The product is taken left to right; every partial product must fit in a `usize`.
    pub fn elem_count(&self) -> (r: usize)
        requires
            product_fits(self@),
        ensures
            r == dims_product(self@),
    {
        let mut acc: usize = 1;
        let mut i: usize = 0;
        while i < self.dims.len()
            invariant
                i <= self@.len(),
                product_fits(self@),
                acc == dims_product(self@.take(i as int)),
            decreases self@.len() - i,
        {
            proof {
                assert(self@.take(i + 1).drop_last() =~= self@.take(i as int));
                assert(dims_product(self@.take(i + 1)) <= usize::MAX);
            }
            acc = acc * self.dims[i];
            i = i + 1;
        }
        proof {
            assert(self@.take(i as int) =~= self@);
        }
        acc
    }
}

impl Shape {
    /// A shape of two dimensions.
    pub fn from_pair(d: (usize, usize)) -> (r: Shape)
        ensures
            r@ == seq![d.0, d.1],
    {
        Shape { dims: vec![d.0, d.1] }
    }
}

impl From<(usize, usize)> for Shape {
    fn from(d: (usize, usize)) -> (r: Shape)
        ensures
            r@ == seq![d.0, d.1],
    {
        Shape::from_pair(d)
    }
}

impl vstd::std_specs::convert::FromSpecImpl<(usize, usize)> for Shape {
    open spec fn obeys_from_spec() -> bool {
        false
    }

    open spec fn from_spec(d: (usize, usize)) -> Shape {
        choose|s: Shape| #[trigger] s.view() == seq![d.0, d.1]
    }
}

} // verus!
