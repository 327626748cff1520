//! The numerical functions a network is built from.
//!
//! The network code is generic over its scalar type `T`; every scalar
//! computation (arithmetic, activations, the cost derivative, the input
//! normalization and the weight initialization) is supplied by a value that
//! implements [`NetworkFunctions`]. The contracts of the network speak of the
//! spec functions of this trait, so they pin down which values flow into which
//! computation without depending on what the scalar type is.

use vstd::prelude::*;

verus! {

/// Whether an activation function maps each neuron on its own, or the whole
/// layer at once (softmax, for instance).
#[derive(Clone, Copy, PartialEq, Eq, Structural, Debug)]
pub enum FuncElementWiseDependency {
    Independent,
    Dependent,
}

/// The scalar toolkit of a network.
///
/// Every exec method is tied to a spec function, except `init_weight`, whose
/// outcome may be random and is only described by `init_outcome`.
pub trait NetworkFunctions<T>: Sized {
    /// All functions may be called, and each deterministic one returns what its
    /// spec function says.
    spec fn valid(&self) -> bool;

    spec fn zero(&self) -> T;

    spec fn add_result(&self, a: T, b: T) -> T;

    spec fn sub_result(&self, a: T, b: T) -> T;

    spec fn mul_result(&self, a: T, b: T) -> T;

    /// `a` divided by the count `n`.
    spec fn div_result(&self, a: T, n: usize) -> T;

    /// The element-wise activation of layer `layer`.
    spec fn activate_result(&self, layer: usize, z: T) -> T;

    /// The derivative of the element-wise activation of layer `layer`.
    spec fn derivative_result(&self, layer: usize, z: T) -> T;

    /// The whole-layer activation of layer `layer`.
    spec fn activate_vec_result(&self, layer: usize, z: Seq<T>) -> Seq<T>;

    /// The Jacobian of the whole-layer activation of layer `layer`:
    /// row `i`, column `j` is the derivative of output `i` by input `j`.
    spec fn jacobian_result(&self, layer: usize, z: Seq<T>) -> Seq<Seq<T>>;

    /// The derivative of the cost by a predicted value `a`, given the
    /// expected value `y`.
    spec fn cost_derivative_result(&self, a: T, y: T) -> T;

    spec fn normalize_result(&self, x: Seq<T>) -> Seq<T>;

    /// `a` comes no later than `b` in the order used to pick the highest
    /// output.
    spec fn at_most_result(&self, a: T, b: T) -> bool;

    /// `w` is a value that the weight initializer of layer `layer` may return
    /// for a neuron with `fan_in` inputs.
    spec fn init_outcome(&self, layer: usize, fan_in: usize, w: T) -> bool;

    fn zero_value(&self) -> (r: T)
        requires
            self.valid(),
        ensures
            r == self.zero(),
    ;

    fn add(&self, a: T, b: T) -> (r: T)
        requires
            self.valid(),
        ensures
            r == self.add_result(a, b),
    ;

    fn sub(&self, a: T, b: T) -> (r: T)
        requires
            self.valid(),
        ensures
            r == self.sub_result(a, b),
    ;

    fn mul(&self, a: T, b: T) -> (r: T)
        requires
            self.valid(),
        ensures
            r == self.mul_result(a, b),
    ;

    fn div_count(&self, a: T, n: usize) -> (r: T)
        requires
            self.valid(),
        ensures
            r == self.div_result(a, n),
    ;

    fn activate(&self, layer: usize, z: T) -> (r: T)
        requires
            self.valid(),
        ensures
            r == self.activate_result(layer, z),
    ;

    fn activate_derivative(&self, layer: usize, z: T) -> (r: T)
        requires
            self.valid(),
        ensures
            r == self.derivative_result(layer, z),
    ;

    fn activate_vec(&self, layer: usize, z: &Vec<T>) -> (r: Vec<T>)
        requires
            self.valid(),
        ensures
            r@ == self.activate_vec_result(layer, z@),
            r.len() == z.len(),
    ;

    fn jacobian(&self, layer: usize, z: &Vec<T>) -> (r: Vec<Vec<T>>)
        requires
            self.valid(),
        ensures
            r.len() == z.len(),
            forall|i: int| 0 <= i < r.len() ==> (#[trigger] r[i]).len() == z.len(),
            view2(r) == self.jacobian_result(layer, z@),
    ;

    fn cost_derivative(&self, a: T, y: T) -> (r: T)
        requires
            self.valid(),
        ensures
            r == self.cost_derivative_result(a, y),
    ;

    fn normalize(&self, x: &Vec<T>) -> (r: Vec<T>)
        requires
            self.valid(),
        ensures
            r@ == self.normalize_result(x@),
            r.len() == x.len(),
    ;

    fn at_most(&self, a: T, b: T) -> (r: bool)
        requires
            self.valid(),
        ensures
            r == self.at_most_result(a, b),
    ;

    fn init_weight(&self, layer: usize, fan_in: usize) -> (r: T)
        requires
            self.valid(),
        ensures
            self.init_outcome(layer, fan_in, r),
    ;
}

/// A toolkit made of closures, one per function.
///
/// The deterministic closures are required to be functions of their
/// arguments (`valid`); the initializer may return any value.
#[verifier::reject_recursive_types(T)]
pub struct Functions<
    T,
    Add: Fn(T, T) -> T,
    Sub: Fn(T, T) -> T,
    Mul: Fn(T, T) -> T,
    Div: Fn(T, usize) -> T,
    Act: Fn(usize, T) -> T,
    ActD: Fn(usize, T) -> T,
    VecAct: Fn(usize, &Vec<T>) -> Vec<T>,
    Jac: Fn(usize, &Vec<T>) -> Vec<Vec<T>>,
    Cost: Fn(T, T) -> T,
    Norm: Fn(&Vec<T>) -> Vec<T>,
    AtMost: Fn(T, T) -> bool,
    Init: Fn(usize, usize) -> T,
> {
    pub zero: T,
    pub add: Add,
    pub sub: Sub,
    pub mul: Mul,
    pub div_count: Div,
    pub activate: Act,
    pub activate_derivative: ActD,
    pub activate_vec: VecAct,
    pub jacobian: Jac,
    pub cost_derivative: Cost,
    pub normalize: Norm,
    pub at_most: AtMost,
    pub init: Init,
}

/// The nested view of a matrix stored as a vector of rows.
pub open spec fn view2<T>(m: Vec<Vec<T>>) -> Seq<Seq<T>> {
    Seq::new(m.len() as nat, |i: int| m[i]@)
}

impl<
    T: Copy,
    Add: Fn(T, T) -> T,
    Sub: Fn(T, T) -> T,
    Mul: Fn(T, T) -> T,
    Div: Fn(T, usize) -> T,
    Act: Fn(usize, T) -> T,
    ActD: Fn(usize, T) -> T,
    VecAct: Fn(usize, &Vec<T>) -> Vec<T>,
    Jac: Fn(usize, &Vec<T>) -> Vec<Vec<T>>,
    Cost: Fn(T, T) -> T,
    Norm: Fn(&Vec<T>) -> Vec<T>,
    AtMost: Fn(T, T) -> bool,
    Init: Fn(usize, usize) -> T,
> NetworkFunctions<T> for Functions<T, Add, Sub, Mul, Div, Act, ActD, VecAct, Jac, Cost, Norm, AtMost, Init> {
    open spec fn valid(&self) -> bool {
        &&& forall|a: T, b: T| call_requires(self.add, (a, b))
        &&& forall|a: T, b: T, r: T|
            call_ensures(self.add, (a, b), r) ==> r == self.add_result(a, b)
        &&& forall|a: T, b: T| call_requires(self.sub, (a, b))
        &&& forall|a: T, b: T, r: T|
            call_ensures(self.sub, (a, b), r) ==> r == self.sub_result(a, b)
        &&& forall|a: T, b: T| call_requires(self.mul, (a, b))
        &&& forall|a: T, b: T, r: T|
            call_ensures(self.mul, (a, b), r) ==> r == self.mul_result(a, b)
        &&& forall|a: T, n: usize| call_requires(self.div_count, (a, n))
        &&& forall|a: T, n: usize, r: T|
            call_ensures(self.div_count, (a, n), r) ==> r == self.div_result(a, n)
        &&& forall|l: usize, z: T| call_requires(self.activate, (l, z))
        &&& forall|l: usize, z: T, r: T|
            call_ensures(self.activate, (l, z), r) ==> r == self.activate_result(l, z)
        &&& forall|l: usize, z: T| call_requires(self.activate_derivative, (l, z))
        &&& forall|l: usize, z: T, r: T|
            call_ensures(self.activate_derivative, (l, z), r) ==> r == self.derivative_result(
                l,
                z,
            )
        &&& forall|l: usize, z: &Vec<T>| call_requires(self.activate_vec, (l, z))
        &&& forall|l: usize, z: &Vec<T>, r: Vec<T>|
            call_ensures(self.activate_vec, (l, z), r) ==> r@ == self.activate_vec_result(l, z@)
                && r.len() == z.len()
        &&& forall|l: usize, z: &Vec<T>| call_requires(self.jacobian, (l, z))
        &&& forall|l: usize, z: &Vec<T>, r: Vec<Vec<T>>|
            call_ensures(self.jacobian, (l, z), r) ==> view2(r) == self.jacobian_result(l, z@)
                && r.len() == z.len() && (forall|i: int|
                0 <= i < r.len() ==> (#[trigger] r[i]).len() == z.len())
        &&& forall|a: T, y: T| call_requires(self.cost_derivative, (a, y))
        &&& forall|a: T, y: T, r: T|
            call_ensures(self.cost_derivative, (a, y), r) ==> r == self.cost_derivative_result(
                a,
                y,
            )
        &&& forall|x: &Vec<T>| call_requires(self.normalize, (x,))
        &&& forall|x: &Vec<T>, r: Vec<T>|
            call_ensures(self.normalize, (x,), r) ==> r@ == self.normalize_result(x@) && r.len()
                == x.len()
        &&& forall|a: T, b: T| call_requires(self.at_most, (a, b))
        &&& forall|a: T, b: T, r: bool|
            call_ensures(self.at_most, (a, b), r) ==> r == self.at_most_result(a, b)
        &&& forall|l: usize, n: usize| call_requires(self.init, (l, n))
    }

    open spec fn zero(&self) -> T {
        self.zero
    }

    open spec fn add_result(&self, a: T, b: T) -> T {
        choose|r: T| call_ensures(self.add, (a, b), r)
    }

    open spec fn sub_result(&self, a: T, b: T) -> T {
        choose|r: T| call_ensures(self.sub, (a, b), r)
    }

    open spec fn mul_result(&self, a: T, b: T) -> T {
        choose|r: T| call_ensures(self.mul, (a, b), r)
    }

    open spec fn div_result(&self, a: T, n: usize) -> T {
        choose|r: T| call_ensures(self.div_count, (a, n), r)
    }

    open spec fn activate_result(&self, layer: usize, z: T) -> T {
        choose|r: T| call_ensures(self.activate, (layer, z), r)
    }

    open spec fn derivative_result(&self, layer: usize, z: T) -> T {
        choose|r: T| call_ensures(self.activate_derivative, (layer, z), r)
    }

    open spec fn activate_vec_result(&self, layer: usize, z: Seq<T>) -> Seq<T> {
        (choose|v: Vec<T>, r: Vec<T>| v@ == z && call_ensures(self.activate_vec, (layer, &v), r)).1@
    }

    open spec fn jacobian_result(&self, layer: usize, z: Seq<T>) -> Seq<Seq<T>> {
        view2(
            (choose|v: Vec<T>, r: Vec<Vec<T>>|
                v@ == z && call_ensures(self.jacobian, (layer, &v), r)).1,
        )
    }

    open spec fn cost_derivative_result(&self, a: T, y: T) -> T {
        choose|r: T| call_ensures(self.cost_derivative, (a, y), r)
    }

    open spec fn normalize_result(&self, x: Seq<T>) -> Seq<T> {
        (choose|v: Vec<T>, r: Vec<T>| v@ == x && call_ensures(self.normalize, (&v,), r)).1@
    }

    open spec fn at_most_result(&self, a: T, b: T) -> bool {
        choose|r: bool| call_ensures(self.at_most, (a, b), r)
    }

    open spec fn init_outcome(&self, layer: usize, fan_in: usize, w: T) -> bool {
        call_ensures(self.init, (layer, fan_in), w)
    }

    fn zero_value(&self) -> (r: T) {
        self.zero
    }

    fn add(&self, a: T, b: T) -> (r: T) {
        (self.add)(a, b)
    }

    fn sub(&self, a: T, b: T) -> (r: T) {
        (self.sub)(a, b)
    }

    fn mul(&self, a: T, b: T) -> (r: T) {
        (self.mul)(a, b)
    }

    fn div_count(&self, a: T, n: usize) -> (r: T) {
        (self.div_count)(a, n)
    }

    fn activate(&self, layer: usize, z: T) -> (r: T) {
        (self.activate)(layer, z)
    }

    fn activate_derivative(&self, layer: usize, z: T) -> (r: T) {
        (self.activate_derivative)(layer, z)
    }

    fn activate_vec(&self, layer: usize, z: &Vec<T>) -> (r: Vec<T>) {
        (self.activate_vec)(layer, z)
    }

    fn jacobian(&self, layer: usize, z: &Vec<T>) -> (r: Vec<Vec<T>>) {
        (self.jacobian)(layer, z)
    }

    fn cost_derivative(&self, a: T, y: T) -> (r: T) {
        (self.cost_derivative)(a, y)
    }

    fn normalize(&self, x: &Vec<T>) -> (r: Vec<T>) {
        (self.normalize)(x)
    }

    fn at_most(&self, a: T, b: T) -> (r: bool) {
        (self.at_most)(a, b)
    }

    fn init_weight(&self, layer: usize, fan_in: usize) -> (r: T) {
        (self.init)(layer, fan_in)
    }
}

} // verus!
