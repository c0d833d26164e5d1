use vstd::prelude::*;
use vstd::std_specs::cmp::PartialEqSpec;

verus! {

/// A singly linked list: each node owns the rest of the list.
pub enum List<T> {
    Cons(T, Box<List<T>>),
    Nil,
}

impl<T> List<T> {
    /// The elements of the list, head first.
    pub open spec fn items(self) -> Seq<T>
        decreases self,
    {
        match self {
            List::Cons(x, rest) => seq![x].add(rest.items()),
            List::Nil => Seq::empty(),
        }
    }
}

impl<T> View for List<T> {
    type V = Seq<T>;

    open spec fn view(&self) -> Seq<T> {
        self.items()
    }
}

/// The list with no elements.
pub fn empty<T>() -> (r: List<T>)
    ensures
        r@ == Seq::<T>::empty(),
{
    List::Nil
}

/// A new list whose head is `value` and whose tail is `xs`.
pub fn prepend<T>(xs: List<T>, value: T) -> (r: List<T>)
    ensures
        r@ == seq![value] + xs@,
{
    List::Cons(value, Box::new(xs))
}

/// `copy` holds, position by position, a clone of each element of `orig`.
pub open spec fn duplicate_of<T: Clone>(orig: Seq<T>, copy: Seq<T>) -> bool {
    &&& copy.len() == orig.len()
    &&& forall|i: int| 0 <= i < orig.len() ==> #[trigger] cloned(orig[i], copy[i])
}

/// The two sequences have the same length and are equal position by position,
/// as the element type's `==` decides.
pub open spec fn elementwise_equal<T: PartialEq>(a: Seq<T>, b: Seq<T>) -> bool {
    &&& a.len() == b.len()
    &&& forall|i: int| 0 <= i < a.len() ==> #[trigger] a[i].eq_spec(&b[i])
}

/// The element type's `==` is exactly value equality.
pub open spec fn concrete_eq<T: PartialEq>() -> bool {
    &&& T::obeys_eq_spec()
    &&& forall|x: T, y: T| #[trigger] x.eq_spec(&y) <==> x == y
}

/// The element type's `clone` returns a value equal to its argument.
pub open spec fn copying_clone<T: Clone>() -> bool {
    forall|x: T, y: T| #[trigger] cloned(x, y) ==> x == y
}

/// A deep copy of `xs`: a new spine, each element cloned.
pub fn duplicate<T: Clone>(xs: &List<T>) -> (r: List<T>)
    ensures
        duplicate_of(xs@, r@),
    decreases xs,
{
    match xs {
        List::Cons(x, rest) => {
            let tail = duplicate(rest);
            let head = x.clone();
            let r = List::Cons(head, Box::new(tail));
            assert forall|i: int| 0 <= i < xs@.len() implies #[trigger] cloned(xs@[i], r@[i]) by {
                if i > 0 {
                    assert(cloned(rest@[i - 1], tail@[i - 1]));
                }
            }
            r
        },
        List::Nil => List::Nil,
    }
}

/// Compares two lists element by element, head first, and stops at the first
/// pair that differs.
pub fn equals<T: PartialEq>(xs: &List<T>, ys: &List<T>) -> (r: bool)
    ensures
        xs@.len() != ys@.len() ==> !r,
        xs@.len() == 0 && ys@.len() == 0 ==> r,
        T::obeys_eq_spec() ==> (r == elementwise_equal(xs@, ys@)),
    decreases xs,
{
    match (xs, ys) {
        (List::Nil, List::Nil) => true,
        (List::Cons(x, next_xs), List::Cons(y, next_ys)) => {
            if *x == *y {
                let r = equals(next_xs, next_ys);
                proof {
                    if T::obeys_eq_spec() {
                        if elementwise_equal(next_xs@, next_ys@) {
                            assert forall|i: int| 0 <= i < xs@.len() implies
                                #[trigger] xs@[i].eq_spec(&ys@[i]) by {
                                if i > 0 {
                                    assert(next_xs@[i - 1].eq_spec(&next_ys@[i - 1]));
                                }
                            }
                        }
                        if elementwise_equal(xs@, ys@) {
                            assert forall|i: int| 0 <= i < next_xs@.len() implies
                                #[trigger] next_xs@[i].eq_spec(&next_ys@[i]) by {
                                assert(xs@[i + 1].eq_spec(&ys@[i + 1]));
                            }
                        }
                    }
                }
                r
            } else {
                proof {
                    if T::obeys_eq_spec() && elementwise_equal(xs@, ys@) {
                        assert(xs@[0].eq_spec(&ys@[0]));
                    }
                }
                false
            }
        },
        _ => false,
    }
}

/// `u64` compares by value and clones by copying.
pub proof fn lemma_u64_is_plain()
    ensures
        concrete_eq::<u64>(),
        copying_clone::<u64>(),
{
}

/// Two empty lists are equal.
pub proof fn lemma_empty_equals_empty<T: PartialEq>()
    ensures
        elementwise_equal(Seq::<T>::empty(), Seq::<T>::empty()),
{
}

/// The empty list never equals a list of one element, in either order.
pub proof fn lemma_empty_differs_from_single<T: PartialEq>(v: T)
    ensures
        !elementwise_equal(Seq::<T>::empty(), seq![v] + Seq::<T>::empty()),
        !elementwise_equal(seq![v] + Seq::<T>::empty(), Seq::<T>::empty()),
{
}

/// Where `==` is value equality and `clone` copies, every list equals each of its duplicates.
pub proof fn lemma_equals_duplicate<T: PartialEq + Clone>(l: Seq<T>, d: Seq<T>)
    requires
        concrete_eq::<T>(),
        copying_clone::<T>(),
        duplicate_of(l, d),
    ensures
        elementwise_equal(l, d),
{
    assert forall|i: int| 0 <= i < l.len() implies #[trigger] l[i].eq_spec(&d[i]) by {
        assert(cloned(l[i], d[i]));
    }
}

/// Prepending two distinct values in the two orders gives lists that are not equal.
pub proof fn lemma_prepend_order_matters<T: PartialEq>(a: T, b: T)
    requires
        concrete_eq::<T>(),
        a != b,
    ensures
        !elementwise_equal(
            seq![b] + (seq![a] + Seq::<T>::empty()),
            seq![a] + (seq![b] + Seq::<T>::empty()),
        ),
{
    let x = seq![b] + (seq![a] + Seq::<T>::empty());
    let y = seq![a] + (seq![b] + Seq::<T>::empty());
    assert(x[0] == b && y[0] == a);
    assert(!x[0].eq_spec(&y[0]));
}

/// A duplicate is a list of its own: rebinding it to a longer list leaves the
/// original equal to what the duplicate held, and unequal to what it holds now.
pub proof fn lemma_duplicate_independent<T: PartialEq + Clone>(l: Seq<T>, d: Seq<T>, v: T)
    requires
        concrete_eq::<T>(),
        copying_clone::<T>(),
        duplicate_of(l, d),
    ensures
        elementwise_equal(l, (seq![v] + d).drop_first()),
        !elementwise_equal(l, seq![v] + d),
{
    lemma_equals_duplicate(l, d);
    assert((seq![v] + d).drop_first() =~= d);
}

/// A list of two elements never equals a list of three that starts with the same two.
pub proof fn lemma_shorter_list_differs<T: PartialEq>(a: T, b: T, c: T)
    ensures
        !elementwise_equal(
            seq![a] + (seq![b] + Seq::<T>::empty()),
            seq![a] + (seq![b] + (seq![c] + Seq::<T>::empty())),
        ),
{
}

impl<T: Clone> Clone for List<T> {
    /// Same as [`duplicate`].
    fn clone(&self) -> (r: Self)
        ensures
            duplicate_of(self@, r@),
    {
        duplicate(self)
    }
}

impl<T: PartialEq> PartialEq for List<T> {
    /// Same as [`equals`].
    fn eq(&self, other: &Self) -> (r: bool) {
        equals(self, other)
    }
}

impl<T: PartialEq> vstd::std_specs::cmp::PartialEqSpecImpl for List<T> {
    open spec fn obeys_eq_spec() -> bool {
        T::obeys_eq_spec()
    }

    open spec fn eq_spec(&self, other: &List<T>) -> bool {
        elementwise_equal(self@, other@)
    }
}

} // verus!
