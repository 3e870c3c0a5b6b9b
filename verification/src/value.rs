use vstd::prelude::*;

verus! {

/// One shaped array of the boundary: a flat run of cells, the dimension
/// sizes, and the optional display name and map keys.
#[derive(Debug)]
pub struct UiuaArray<T> {
    pub data: Vec<T>,
    pub shape: Vec<usize>,
    pub label: Option<String>,
    pub keys: Option<Box<UiuaValue>>,
}

/// A tagged array value. Doubles are carried as their IEEE-754 bit patterns,
/// a complex cell as the pair (real, imaginary) of such patterns.
#[derive(Debug)]
pub enum UiuaValue {
    Byte(UiuaArray<u8>),
    Num(UiuaArray<u64>),
    Char(UiuaArray<char>),
    Complex(UiuaArray<(u64, u64)>),
    Box(UiuaArray<Box<UiuaValue>>),
}

/// The cells of a tagged array value, by kind.
pub enum Cells {
    Byte(Seq<u8>),
    Num(Seq<u64>),
    Char(Seq<char>),
    Complex(Seq<(u64, u64)>),
    Box(Seq<Tagged>),
}

/// The mathematical model of a [`UiuaValue`].
pub struct Tagged {
    pub cells: Cells,
    pub shape: Seq<usize>,
    pub label: Option<Seq<char>>,
    pub keys: Option<Box<Tagged>>,
}

/// The product of the dimension sizes; 1 for a scalar.
pub open spec fn shape_product(shape: Seq<usize>) -> nat
    decreases shape.len(),
{
    if shape.len() == 0 {
        1
    } else {
        (shape.last() as nat) * shape_product(shape.drop_last())
    }
}

impl Cells {
    /// How many cells there are.
    pub open spec fn len(self) -> nat {
        match self {
            Cells::Byte(s) => s.len(),
            Cells::Num(s) => s.len(),
            Cells::Char(s) => s.len(),
            Cells::Complex(s) => s.len(),
            Cells::Box(s) => s.len(),
        }
    }
}

impl Tagged {
    /// The shape accounts for every cell, here, in each boxed cell and in
    /// the keys.
    pub open spec fn wf(self) -> bool
        decreases self,
    {
        &&& shape_product(self.shape) == self.cells.len()
        &&& match self.keys {
            Some(k) => (*k).wf(),
            None => true,
        }
        &&& match self.cells {
            Cells::Box(s) => forall|i: int| 0 <= i < s.len() ==> (#[trigger] s[i]).wf(),
            _ => true,
        }
    }
}

pub open spec fn label_view(label: Option<String>) -> Option<Seq<char>> {
    match label {
        Some(s) => Some(s@),
        None => None,
    }
}

/// The model of optional map keys.
pub open spec fn keys_model(keys: Option<Box<UiuaValue>>) -> Option<Box<Tagged>>
    decreases keys,
{
    match keys {
        Some(k) => Some(Box::new(value_model(*k))),
        None => None,
    }
}

/// The model of a value: its cells by kind, with boxed cells as models.
pub open spec fn value_model(v: UiuaValue) -> Tagged
    decreases v,
{
    match v {
        UiuaValue::Byte(a) => Tagged {
            cells: Cells::Byte(a.data@),
            shape: a.shape@,
            label: label_view(a.label),
            keys: keys_model(a.keys),
        },
        UiuaValue::Num(a) => Tagged {
            cells: Cells::Num(a.data@),
            shape: a.shape@,
            label: label_view(a.label),
            keys: keys_model(a.keys),
        },
        UiuaValue::Char(a) => Tagged {
            cells: Cells::Char(a.data@),
            shape: a.shape@,
            label: label_view(a.label),
            keys: keys_model(a.keys),
        },
        UiuaValue::Complex(a) => Tagged {
            cells: Cells::Complex(a.data@),
            shape: a.shape@,
            label: label_view(a.label),
            keys: keys_model(a.keys),
        },
        UiuaValue::Box(a) => Tagged {
            cells: Cells::Box(
                Seq::new(
                    a.data@.len(),
                    |i: int|
                        if 0 <= i < a.data@.len() {
                            value_model(*a.data@[i])
                        } else {
                            arbitrary()
                        },
                ),
            ),
            shape: a.shape@,
            label: label_view(a.label),
            keys: keys_model(a.keys),
        },
    }
}

impl View for UiuaValue {
    type V = Tagged;

    open spec fn view(&self) -> Tagged {
        value_model(*self)
    }
}

/// The models of boxed cells, in order.
pub open spec fn boxes_view(cells: Seq<Box<UiuaValue>>) -> Seq<Tagged> {
    Seq::new(cells.len(), |i: int| (*cells[i])@)
}

/// A box array's cells are the models of its boxed values.
pub proof fn lemma_box_view(a: UiuaArray<Box<UiuaValue>>)
    ensures
        UiuaValue::Box(a)@.cells == Cells::Box(boxes_view(a.data@)),
        UiuaValue::Box(a)@.shape == a.shape@,
        UiuaValue::Box(a)@.label == label_view(a.label),
        UiuaValue::Box(a)@.keys == keys_model(a.keys),
{
    assert(UiuaValue::Box(a)@.cells->Box_0 =~= boxes_view(a.data@));
}

/// A shape with a dimension of size zero has no cells.
pub proof fn lemma_product_zero(shape: Seq<usize>, at: int)
    requires
        0 <= at < shape.len(),
        shape[at] == 0,
    ensures
        shape_product(shape) == 0,
    decreases shape.len(),
{
    if at == shape.len() - 1 {
        assert(shape.last() == 0);
    } else {
        lemma_product_zero(shape.drop_last(), at);
        assert(shape_product(shape.drop_last()) == 0);
        assert((shape.last() as nat) * 0 == 0) by (nonlinear_arith);
    }
}

/// Where no dimension is zero, a longer prefix has no smaller a product.
pub proof fn lemma_product_grows(shape: Seq<usize>, n: int)
    requires
        0 <= n <= shape.len(),
        forall|i: int| 0 <= i < shape.len() ==> shape[i] >= 1,
    ensures
        shape_product(shape.take(n)) <= shape_product(shape),
        shape_product(shape) >= 1,
    decreases shape.len(),
{
    if shape.len() == 0 {
        assert(shape.take(n) =~= shape);
    } else if n == shape.len() {
        assert(shape.take(n) =~= shape);
        lemma_product_grows(shape.drop_last(), 0);
        let p = shape_product(shape.drop_last());
        let d = shape.last() as nat;
        assert(d * p >= 1) by (nonlinear_arith)
            requires
                d >= 1,
                p >= 1,
        ;
    } else {
        lemma_product_grows(shape.drop_last(), n);
        assert(shape.drop_last().take(n) =~= shape.take(n));
        let p = shape_product(shape.drop_last());
        let d = shape.last() as nat;
        assert(d * p >= p && d * p >= 1) by (nonlinear_arith)
            requires
                d >= 1,
                p >= 1,
        ;
    }
}

/// Whether a shape accounts for exactly `len` cells.
pub fn shape_matches(shape: &Vec<usize>, len: usize) -> (r: bool)
    ensures
        r == (shape_product(shape@) == len),
{
    let n = shape.len();
    let mut z: usize = 0;
    while z < n
        invariant
            z <= n,
            n == shape@.len(),
            forall|i: int| 0 <= i < z ==> shape@[i] >= 1,
        decreases n - z,
    {
        if shape[z] == 0 {
            proof {
                lemma_product_zero(shape@, z as int);
            }
            return len == 0;
        }
        z += 1;
    }
    let mut acc: usize = 1;
    let mut i: usize = 0;
    assert(shape@.take(0) =~= Seq::<usize>::empty());
    while i < n
        invariant
            i <= n,
            n == shape@.len(),
            forall|k: int| 0 <= k < n ==> shape@[k] >= 1,
            acc == shape_product(shape@.take(i as int)),
            acc >= 1,
        decreases n - i,
    {
        let d = shape[i];
        proof {
            assert(shape@.take(i + 1).last() == d);
            assert(shape@.take(i + 1).drop_last() =~= shape@.take(i as int));
            assert(shape_product(shape@.take(i + 1)) == (d as nat) * (acc as nat));
            assert((d as nat) * (acc as nat) == acc * d) by (nonlinear_arith);
            lemma_product_grows(shape@, i + 1);
        }
        if acc > len / d {
            assert(acc * d > len) by (nonlinear_arith)
                requires
                    acc > len / d,
                    d >= 1,
            ;
            return false;
        }
        assert(acc * d <= len && acc * d >= 1) by (nonlinear_arith)
            requires
                acc <= len / d,
                acc >= 1,
                d >= 1,
        ;
        acc = acc * d;
        i += 1;
    }
    assert(shape@.take(n as int) =~= shape@);
    acc == len
}

/// Whether optional keys are well formed; keys that are absent are.
fn keys_well_formed(keys: &Option<Box<UiuaValue>>) -> (r: bool)
    ensures
        r == match keys_model(*keys) {
            Some(k) => (*k).wf(),
            None => true,
        },
    decreases keys, 0int,
{
    match keys {
        Some(k) => k.is_well_formed(),
        None => true,
    }
}

impl UiuaValue {
    /// Whether the shape accounts for every cell, here, in each boxed cell
    /// and in the keys.
    pub fn is_well_formed(&self) -> (r: bool)
        ensures
            r == self@.wf(),
        decreases self, 1int,
    {
        match self {
            UiuaValue::Byte(a) => shape_matches(&a.shape, a.data.len()) && keys_well_formed(
                &a.keys,
            ),
            UiuaValue::Num(a) => shape_matches(&a.shape, a.data.len()) && keys_well_formed(
                &a.keys,
            ),
            UiuaValue::Char(a) => shape_matches(&a.shape, a.data.len()) && keys_well_formed(
                &a.keys,
            ),
            UiuaValue::Complex(a) => shape_matches(&a.shape, a.data.len()) && keys_well_formed(
                &a.keys,
            ),
            UiuaValue::Box(a) => {
                proof {
                    lemma_box_view(*a);
                }
                if !shape_matches(&a.shape, a.data.len()) || !keys_well_formed(&a.keys) {
                    return false;
                }
                let mut i: usize = 0;
                while i < a.data.len()
                    invariant
                        i <= a.data@.len(),
                        *self == UiuaValue::Box(*a),
                        self@.cells == Cells::Box(boxes_view(a.data@)),
                        forall|k: int| 0 <= k < i ==> (#[trigger] boxes_view(a.data@)[k]).wf(),
                    decreases a.data@.len() - i,
                {
                    assert(*a == self->Box_0);
                    assert(boxes_view(a.data@)[i as int] == (*a.data@[i as int])@);
                    if !a.data[i].is_well_formed() {
                        return false;
                    }
                    i += 1;
                }
                true
            },
        }
    }
}

} // verus!
