//! Registers of qubits: one amplitude for every classical bit pattern.
use crate::complex::Complex;
use crate::error::QuantumError;
use crate::qubit::Qubit;
use crate::random::{random_unit, unit_req, UNIT_STEPS};
use crate::registers::classical::ClassicalRegister;
use crate::scalar::{
    approx_eq, approx_eq_req, approx_eq_spec, distinct_units, dyadic_spec, exact_units, greater,
    less, obeys_scalar_specs, same, small, zero_is_neutral, Scalar,
};
use vstd::prelude::*;
use vstd::std_specs::ops::{AddSpec, MulSpec, RemSpec};

verus! {

/// The largest number of basis states a register can have: one for every
/// pattern of a classical register.
pub const MAX_STATES: usize = 256;

/// Whether a register can have `n` basis states: `n` is two to the number
/// of its qubits, which are eight at most.
pub open spec fn is_state_count(n: usize) -> bool {
    n == 1 || n == 2 || n == 4 || n == 8 || n == 16 || n == 32 || n == 64 || n == 128 || n == 256
}

/// Whether a register can have `n` basis states.
pub fn state_count_is_valid(n: usize) -> (r: bool)
    ensures
        r == is_state_count(n),
        r ==> n <= MAX_STATES,
{
    n == 1 || n == 2 || n == 4 || n == 8 || n == 16 || n == 32 || n == 64 || n == 128 || n == 256
}

/// Whether `T` can add up the probabilities of the first `n` amplitudes.
pub open spec fn mass_req<T: Scalar>(amps: Seq<Complex<T>>, n: nat) -> bool
    decreases n,
{
    if n == 0 {
        true
    } else {
        let before = (n - 1) as nat;
        &&& mass_req(amps, before)
        &&& amps[before as int].mag_square_req()
        &&& mass_spec(amps, before).add_req(amps[before as int].mag_square_spec())
    }
}

/// The probabilities of the first `n` amplitudes, added up from zero in the
/// order of the indices.
pub open spec fn mass_spec<T: Scalar>(amps: Seq<Complex<T>>, n: nat) -> T
    decreases n,
{
    if n == 0 {
        small::<T>(0)
    } else {
        let before = (n - 1) as nat;
        mass_spec(amps, before).add_spec(amps[before as int].mag_square_spec())
    }
}

/// Whether `T` can decide if the amplitudes are normalized.
pub open spec fn valid_req<T: Scalar>(amps: Seq<Complex<T>>) -> bool {
    &&& mass_req(amps, amps.len())
    &&& approx_eq_req(mass_spec(amps, amps.len()), small::<T>(1))
}

/// The probabilities of all amplitudes sum to one within the tolerance.
pub open spec fn valid_spec<T: Scalar>(amps: Seq<Complex<T>>) -> bool {
    approx_eq_spec(mass_spec(amps, amps.len()), small::<T>(1))
}

/// The amplitudes of the basis state `k` among `n` states: one at `k`, zero
/// elsewhere.
pub open spec fn basis_spec<T: Scalar>(n: nat, k: int) -> Seq<Complex<T>> {
    Seq::new(
        n,
        |i: int|
            if i == k {
                Complex::<T>::one_spec()
            } else {
                Complex::<T>::zero_spec()
            },
    )
}

/// Whether `T` can reduce `target` into `[0, 1)`.
pub open spec fn reduced_req<T: Scalar>(target: T) -> bool {
    let r = target.rem_spec(small::<T>(1));
    &&& target.rem_req(small::<T>(1))
    &&& less(r, small::<T>(0)) ==> r.add_req(small::<T>(1))
}

/// The variate that the scan compares with: `target` reduced into
/// `[0, 1)`. The remainder of a division by one has the sign of `target`,
/// so one is added where it is below zero. Where the scalar type rounds, a
/// remainder just below zero may come out as one itself; the scan then
/// finds no sum above it and falls back on the last state with a
/// probability.
pub open spec fn reduced_spec<T: Scalar>(target: T) -> T {
    let r = target.rem_spec(small::<T>(1));
    if less(r, small::<T>(0)) {
        r.add_spec(small::<T>(1))
    } else {
        r
    }
}

/// Reduces `target` into `[0, 1)`: its remainder modulo one, plus one
/// where the remainder is below zero.
pub fn reduced<T: Scalar>(target: T) -> (t: T)
    requires
        obeys_scalar_specs::<T>(),
        reduced_req(target),
    ensures
        t == reduced_spec(target),
{
    let r = target % T::from(1i8);
    if r < T::from(0i8) {
        r + T::from(1i8)
    } else {
        r
    }
}

/// The running sum of the probabilities, state `i` included, is above `t`.
pub open spec fn exceeds<T: Scalar>(amps: Seq<Complex<T>>, i: int, t: T) -> bool {
    greater(mass_spec(amps, (i + 1) as nat), t)
}

/// State `i` has a probability other than zero.
pub open spec fn has_mass<T: Scalar>(amps: Seq<Complex<T>>, i: int) -> bool {
    !same(amps[i].mag_square_spec(), small::<T>(0))
}

/// The scan gets as far as state `i`: no running sum before it is above
/// `t`.
pub open spec fn reaches<T: Scalar>(amps: Seq<Complex<T>>, i: int, t: T) -> bool {
    forall|j: int| 0 <= j < i ==> !#[trigger] exceeds(amps, j, t)
}

/// Whether `T` can take the running sum as far as the scan gets.
pub open spec fn collapse_req<T: Scalar>(amps: Seq<Complex<T>>, t: T) -> bool {
    forall|i: int|
        0 <= i < amps.len() && #[trigger] reaches(amps, i, t) ==> {
            &&& amps[i].mag_square_req()
            &&& mass_spec(amps, i as nat).add_req(amps[i].mag_square_spec())
        }
}

/// What a collapse with the reduced variate `t` gives: the first state
/// whose running sum is above `t`; where there is none, the last state with
/// a probability other than zero; and nothing where there is none either.
pub open spec fn collapse_spec<T: Scalar>(amps: Seq<Complex<T>>, t: T, outcome: Option<int>) -> bool {
    match outcome {
        Some(k) => {
            &&& 0 <= k < amps.len()
            &&& reaches(amps, k, t)
            &&& {
                ||| exceeds(amps, k, t)
                ||| {
                    &&& reaches(amps, amps.len() as int, t)
                    &&& has_mass(amps, k)
                    &&& forall|j: int| k < j < amps.len() ==> !#[trigger] has_mass(amps, j)
                }
            }
        },
        None => {
            &&& reaches(amps, amps.len() as int, t)
            &&& forall|j: int| 0 <= j < amps.len() ==> !#[trigger] has_mass(amps, j)
        },
    }
}

/// Whether `T` can multiply the amplitudes of two qubits pairwise.
pub open spec fn tensor_req<T: Scalar>(
    a: (Complex<T>, Complex<T>),
    b: (Complex<T>, Complex<T>),
) -> bool {
    &&& a.0.mul_req(b.0)
    &&& a.0.mul_req(b.1)
    &&& a.1.mul_req(b.0)
    &&& a.1.mul_req(b.1)
}

/// The amplitudes of the joint state of two independent qubits: the one of
/// `|ab>` is that of `a` in the first times that of `b` in the second, the
/// first qubit being the more significant bit.
pub open spec fn tensor_spec<T: Scalar>(
    a: (Complex<T>, Complex<T>),
    b: (Complex<T>, Complex<T>),
) -> Seq<Complex<T>> {
    seq![a.0.mul_spec(b.0), a.0.mul_spec(b.1), a.1.mul_spec(b.0), a.1.mul_spec(b.1)]
}

/// A register of qubits with `N` basis states, `N` being two to the number
/// of qubits: amplitude `i` belongs to the classical bit pattern `i`.
#[derive(Debug, PartialEq)]
pub struct QuantumRegister<T: Scalar, const N: usize> {
    qubits: Vec<Complex<T>>,
}

impl<T: Scalar, const N: usize> View for QuantumRegister<T, N> {
    type V = Seq<Complex<T>>;

    /// The amplitudes, in the order of the bit patterns.
    closed spec fn view(&self) -> Seq<Complex<T>> {
        self.qubits@
    }
}

impl<T: Scalar, const N: usize> Clone for QuantumRegister<T, N> {
    fn clone(&self) -> (r: Self)
        ensures
            r@ == self@,
    {
        proof {
            use_type_invariant(self);
        }
        let mut qubits: Vec<Complex<T>> = Vec::new();
        let mut i: usize = 0;
        while i < N
            invariant
                i <= N,
                self.qubits@.len() == N,
                qubits@ == self.qubits@.subrange(0, i as int),
            decreases N - i,
        {
            qubits.push(self.qubits[i]);
            i = i + 1;
            assert(qubits@ =~= self.qubits@.subrange(0, i as int));
        }
        assert(qubits@ =~= self.qubits@);
        QuantumRegister { qubits }
    }
}

impl<T: Scalar, const N: usize> QuantumRegister<T, N> {
    #[verifier::type_invariant]
    spec fn well_formed(self) -> bool {
        self.qubits@.len() == N && is_state_count(N)
    }

    /// The register with the given amplitudes, whatever their norm.
    ///
    /// It exists only if there are `N` of them, and `N` is the number of
    /// states of up to eight qubits.
    pub fn from_vector(qubits: Vec<Complex<T>>) -> (r: Result<Self, QuantumError>)
        ensures
            (qubits@.len() == N && is_state_count(N)) <==> r is Ok,
            r matches Ok(reg) ==> reg@ == qubits@,
            r matches Err(e) ==> e == QuantumError::DimensionMismatch,
    {
        if qubits.len() == N && state_count_is_valid(N) {
            Ok(QuantumRegister { qubits })
        } else {
            Err(QuantumError::DimensionMismatch)
        }
    }

    /// The amplitudes of the register.
    pub fn into_vector(self) -> (r: Vec<Complex<T>>)
        ensures
            r@ == self@,
            r@.len() == N,
    {
        proof {
            use_type_invariant(&self);
        }
        self.qubits
    }

    /// The amplitude of the bit pattern `index`.
    pub fn amplitude(&self, index: usize) -> (r: Complex<T>)
        requires
            index < N,
        ensures
            r == self@[index as int],
            self@.len() == N,
    {
        proof {
            use_type_invariant(self);
        }
        self.qubits[index]
    }

    /// Whether the register is normalized: the probabilities of its basis
    /// states sum to one within the tolerance.
    pub fn is_valid(&self) -> (r: bool)
        requires
            obeys_scalar_specs::<T>(),
            valid_req(self@),
        ensures
            r == valid_spec(self@),
            self@.len() == N,
    {
        proof {
            use_type_invariant(self);
        }
        let mut acc = T::from(0i8);
        let mut i: usize = 0;
        while i < N
            invariant
                i <= N,
                self.qubits@.len() == N,
                obeys_scalar_specs::<T>(),
                mass_req(self.qubits@, N as nat),
                acc == mass_spec(self.qubits@, i as nat),
            decreases N - i,
        {
            proof {
                lemma_mass_req_prefix(self.qubits@, (i + 1) as nat, N as nat);
            }
            acc = acc + self.qubits[i].mag_square();
            i = i + 1;
        }
        approx_eq(acc, T::from(1i8))
    }

    /// The register that is in the basis state of the bit pattern `cr`
    /// with certainty: amplitude one there and zero elsewhere.
    ///
    /// It exists only if `N` is the number of states of up to eight qubits,
    /// the pattern is one of them, and the amplitudes are normalized.
    pub fn from_classical(cr: ClassicalRegister) -> (r: Result<Self, QuantumError>)
        requires
            obeys_scalar_specs::<T>(),
            cr.bits < N && is_state_count(N) ==> valid_req(
                basis_spec::<T>(N as nat, cr.bits as int),
            ),
        ensures
            (cr.bits < N && is_state_count(N) && valid_spec(
                basis_spec::<T>(N as nat, cr.bits as int),
            )) <==> r is Ok,
            r matches Ok(reg) ==> reg@ == basis_spec::<T>(N as nat, cr.bits as int) && valid_spec(
                reg@,
            ),
            r matches Err(e) ==> e == (if cr.bits < N && is_state_count(N) {
                QuantumError::NotNormalized
            } else {
                QuantumError::DimensionMismatch
            }),
    {
        let at = cr.bits as usize;
        if !state_count_is_valid(N) || at >= N {
            return Err(QuantumError::DimensionMismatch);
        }
        let mut qubits: Vec<Complex<T>> = Vec::new();
        let mut i: usize = 0;
        while i < N
            invariant
                i <= N,
                obeys_scalar_specs::<T>(),
                qubits@ == basis_spec::<T>(i as nat, at as int),
            decreases N - i,
        {
            if i == at {
                qubits.push(Complex::one());
            } else {
                qubits.push(Complex::zero());
            }
            i = i + 1;
            assert(qubits@ =~= basis_spec::<T>(i as nat, at as int));
        }
        let reg = QuantumRegister { qubits };
        if reg.is_valid() {
            Ok(reg)
        } else {
            Err(QuantumError::NotNormalized)
        }
    }

    /// Measures the register for the variate `target`, which stands for a
    /// draw from `[0, 1)`.
    ///
    /// A target outside `[0, 1)` is first reduced into it. Then the basis
    /// states are walked in the order of their indices while the
    /// probabilities are added up. The outcome is the first state at which
    /// the sum is above the reduced target. Where rounding keeps the sum
    /// from ever getting there, it is the last state with a probability
    /// other than zero; only a register without any such state has no
    /// outcome. The outcome is never a state without probability, as long
    /// as the reduced target is not below zero and adding zero changes
    /// nothing in `T`.
    pub fn collapse_with_target(&self, target: T) -> (r: Option<ClassicalRegister>)
        requires
            obeys_scalar_specs::<T>(),
            reduced_req(target),
            collapse_req(self@, reduced_spec(target)),
        ensures
            collapse_spec(
                self@,
                reduced_spec(target),
                match r {
                    Some(c) => Some(c.bits as int),
                    None => None,
                },
            ),
            self@.len() == N,
            !greater(small::<T>(0), reduced_spec(target)) && zero_is_neutral::<T>() ==> (r matches Some(
                c,
            ) ==> has_mass(self@, c.bits as int)),
    {
        let r = self.scan(reduced(target));
        proof {
            if !greater(small::<T>(0), reduced_spec(target)) && zero_is_neutral::<T>() {
                if let Some(c) = r {
                    lemma_outcome_has_mass(self@, reduced_spec(target), c.bits as int);
                }
            }
        }
        r
    }

    /// Walks the running sum of the probabilities for the reduced variate
    /// `t`.
    fn scan(&self, t: T) -> (r: Option<ClassicalRegister>)
        requires
            obeys_scalar_specs::<T>(),
            collapse_req(self@, t),
        ensures
            collapse_spec(
                self@,
                t,
                match r {
                    Some(c) => Some(c.bits as int),
                    None => None,
                },
            ),
            self@.len() == N,
    {
        proof {
            use_type_invariant(self);
        }
        let mut current = T::from(0i8);
        let mut reserve: Option<u8> = None;
        let mut i: usize = 0;
        while i < N
            invariant
                i <= N <= MAX_STATES,
                self.qubits@.len() == N,
                obeys_scalar_specs::<T>(),
                collapse_req(self.qubits@, t),
                current == mass_spec(self.qubits@, i as nat),
                reaches(self.qubits@, i as int, t),
                match reserve {
                    Some(k) => {
                        &&& k < i
                        &&& has_mass(self.qubits@, k as int)
                        &&& forall|j: int| k < j < i ==> !#[trigger] has_mass(self.qubits@, j)
                    },
                    None => forall|j: int| 0 <= j < i ==> !#[trigger] has_mass(self.qubits@, j),
                },
            decreases N - i,
        {
            let prob = self.qubits[i].mag_square();
            current = current + prob;
            assert(current == mass_spec(self.qubits@, (i + 1) as nat));
            if current > t {
                assert(exceeds(self.qubits@, i as int, t));
                return Some(ClassicalRegister { bits: i as u8 });
            } else if prob != T::from(0i8) {
                reserve = Some(i as u8);
            }
            assert(!exceeds(self.qubits@, i as int, t));
            i = i + 1;
        }
        match reserve {
            Some(k) => Some(ClassicalRegister { bits: k }),
            None => None,
        }
    }

    /// Measures the register: draws a uniform variate from `[0, 1)` and
    /// collapses with it. Whatever is drawn, the outcome is what
    /// `collapse_with_target` gives for one of the `2^24` variates.
    pub fn collapse(&self) -> (r: Option<ClassicalRegister>)
        requires
            obeys_scalar_specs::<T>(),
            unit_req::<T>(),
            forall|numerator: u32|
                numerator < UNIT_STEPS ==> {
                    &&& reduced_req(#[trigger] dyadic_spec::<T>(numerator))
                    &&& collapse_req(self@, reduced_spec(dyadic_spec::<T>(numerator)))
                },
        ensures
            exists|numerator: u32|
                {
                    &&& numerator < UNIT_STEPS
                    &&& collapse_spec(
                        self@,
                        reduced_spec(#[trigger] dyadic_spec::<T>(numerator)),
                        match r {
                            Some(c) => Some(c.bits as int),
                            None => None,
                        },
                    )
                    &&& !greater(small::<T>(0), reduced_spec(dyadic_spec::<T>(numerator)))
                        && zero_is_neutral::<T>() ==> (r matches Some(c) ==> has_mass(
                        self@,
                        c.bits as int,
                    ))
                },
    {
        let target = random_unit::<T>();
        self.collapse_with_target(target)
    }
}

impl<T: Scalar> QuantumRegister<T, 2> {
    /// The register of the one qubit `q`.
    pub fn from_qubit(q: Qubit<T>) -> (r: Self)
        ensures
            r@ == seq![q@.0, q@.1],
    {
        let mut qubits: Vec<Complex<T>> = Vec::new();
        qubits.push(q.p_0());
        qubits.push(q.p_1());
        assert(qubits@ =~= seq![q@.0, q@.1]);
        QuantumRegister { qubits }
    }
}

impl<T: Scalar> QuantumRegister<T, 4> {
    /// The register of two independent qubits, `qa` being the more
    /// significant bit: the amplitude of `|ab>` is the product of the
    /// amplitude of `a` in `qa` and that of `b` in `qb`.
    pub fn from_2_qubits(qa: Qubit<T>, qb: Qubit<T>) -> (r: Self)
        requires
            obeys_scalar_specs::<T>(),
            tensor_req(qa@, qb@),
        ensures
            r@ == tensor_spec(qa@, qb@),
    {
        let qa_0 = qa.p_0();
        let qa_1 = qa.p_1();
        let qb_0 = qb.p_0();
        let qb_1 = qb.p_1();
        let mut qubits: Vec<Complex<T>> = Vec::new();
        qubits.push(qa_0 * qb_0);
        qubits.push(qa_0 * qb_1);
        qubits.push(qa_1 * qb_0);
        qubits.push(qa_1 * qb_1);
        assert(qubits@ =~= tensor_spec(qa@, qb@));
        QuantumRegister { qubits }
    }
}

/// Where `T` can add up the first `n` probabilities, it can add up the
/// first `m` of them, for `m` up to `n`.
pub proof fn lemma_mass_req_prefix<T: Scalar>(amps: Seq<Complex<T>>, m: nat, n: nat)
    requires
        m <= n,
        mass_req(amps, n),
    ensures
        mass_req(amps, m),
    decreases n,
{
    if m < n {
        lemma_mass_req_prefix(amps, m, (n - 1) as nat);
    }
}

/// In a basis state, the probabilities before the state's own add up to
/// zero, and those up to it and beyond to one.
pub proof fn lemma_basis_mass<T: Scalar>(n: nat, k: int, i: nat)
    requires
        0 <= k < n,
        i <= n,
        exact_units::<T>(),
    ensures
        mass_spec(basis_spec::<T>(n, k), i) == (if i <= k {
            small::<T>(0)
        } else {
            small::<T>(1)
        }),
    decreases i,
{
    if i > 0 {
        lemma_basis_mass::<T>(n, k, (i - 1) as nat);
    }
}

/// A register built from the classical pattern `k` collapses to `k`, and
/// to nothing else, for every reduced variate that is not below zero: all
/// its probability is at `k`. Below one the running sum gets above the
/// variate at `k`; from one on it never does, and `k` is the last state
/// with a probability.
///
/// This holds in every scalar type in which zero and one are exact and
/// compare as different.
pub proof fn lemma_basis_collapses_to_itself<T: Scalar>(n: nat, k: int, t: T, outcome: Option<int>)
    requires
        0 <= k < n,
        exact_units::<T>(),
        distinct_units::<T>(),
        !greater(small::<T>(0), t),
    ensures
        collapse_spec(basis_spec::<T>(n, k), t, Some(k)),
        collapse_spec(basis_spec::<T>(n, k), t, outcome) ==> outcome == Some(k),
{
    let amps = basis_spec::<T>(n, k);
    assert forall|j: int| 0 <= j < n implies #[trigger] exceeds(amps, j, t) == (j >= k && greater(
        small::<T>(1),
        t,
    )) by {
        lemma_basis_mass::<T>(n, k, (j + 1) as nat);
    }
    assert forall|j: int| 0 <= j < n implies #[trigger] has_mass(amps, j) == (j == k) by {
        assert(amps[j] == (if j == k {
            Complex::<T>::one_spec()
        } else {
            Complex::<T>::zero_spec()
        }));
    }
    assert(collapse_spec(amps, t, Some(k)));
    if collapse_spec(amps, t, outcome) {
        lemma_collapse_is_determined(amps, t, Some(k), outcome);
    }
}

/// A collapse has one outcome only: the amplitudes and the variate
/// determine it.
pub proof fn lemma_collapse_is_determined<T: Scalar>(
    amps: Seq<Complex<T>>,
    t: T,
    first: Option<int>,
    second: Option<int>,
)
    requires
        collapse_spec(amps, t, first),
        collapse_spec(amps, t, second),
    ensures
        first == second,
{
    match (first, second) {
        (Some(k), Some(l)) => {
            if k < l {
                assert(!exceeds(amps, k, t));
                assert(!has_mass(amps, l));
            }
            if l < k {
                assert(!exceeds(amps, l, t));
                assert(!has_mass(amps, k));
            }
        },
        (Some(k), None) => {
            assert(!exceeds(amps, k, t));
            assert(!has_mass(amps, k));
        },
        (None, Some(l)) => {
            assert(!exceeds(amps, l, t));
            assert(!has_mass(amps, l));
        },
        (None, None) => {},
    }
}

/// A collapse never lands on a state without probability: where the
/// variate is not below zero and adding zero changes nothing, every outcome
/// has a probability other than zero.
pub proof fn lemma_outcome_has_mass<T: Scalar>(amps: Seq<Complex<T>>, t: T, k: int)
    requires
        collapse_spec(amps, t, Some(k)),
        !greater(small::<T>(0), t),
        zero_is_neutral::<T>(),
    ensures
        has_mass(amps, k),
{
    if !has_mass(amps, k) {
        let p = amps[k].mag_square_spec();
        assert(mass_spec(amps, (k + 1) as nat) == mass_spec(amps, k as nat).add_spec(p));
        assert(mass_spec(amps, (k + 1) as nat) == mass_spec(amps, k as nat));
        assert(exceeds(amps, k, t));
        if k > 0 {
            assert(!exceeds(amps, k - 1, t));
        }
    }
}

/// A collapse has an outcome as soon as one state has a probability other
/// than zero.
pub proof fn lemma_mass_gives_outcome<T: Scalar>(amps: Seq<Complex<T>>, t: T, i: int)
    requires
        0 <= i < amps.len(),
        has_mass(amps, i),
    ensures
        !collapse_spec(amps, t, None),
{
}

} // verus!
