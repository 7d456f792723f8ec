//! The usual gates on two qubits.
use crate::error::QuantumError;
use crate::gates::binary::{lift_req, lift_spec, unitary_req, unitary_spec, BinaryGate};
use crate::matrix4::Matrix4x4;
use crate::scalar::{obeys_scalar_specs, Scalar};
use vstd::prelude::*;

verus! {

/// The matrix that exchanges `|10>` and `|11>`.
pub open spec fn cnot_matrix() -> Seq<Seq<u8>> {
    seq![seq![1u8, 0u8, 0u8, 0u8], seq![0u8, 1u8, 0u8, 0u8], seq![0u8, 0u8, 0u8, 1u8], seq![0u8, 0u8, 1u8, 0u8]]
}

/// The matrix that exchanges `|01>` and `|10>`.
pub open spec fn swap_matrix() -> Seq<Seq<u8>> {
    seq![seq![1u8, 0u8, 0u8, 0u8], seq![0u8, 0u8, 1u8, 0u8], seq![0u8, 1u8, 0u8, 0u8], seq![0u8, 0u8, 0u8, 1u8]]
}

/// The controlled NOT gate: the first qubit, the more significant bit, is
/// the control, and the second is negated where the control is set.
///
/// ```text
/// |A> ---●--- |A>
///        |
/// |B> ---⊕--- |A ⊕ B>
/// ```
pub fn cnot<T: Scalar>() -> (r: Result<BinaryGate<T>, QuantumError>)
    requires
        obeys_scalar_specs::<T>(),
        lift_req::<T>(cnot_matrix()),
        unitary_req(lift_spec::<T>(cnot_matrix())),
    ensures
        unitary_spec(lift_spec::<T>(cnot_matrix())) <==> r is Ok,
        r matches Ok(gate) ==> gate@ == lift_spec::<T>(cnot_matrix()),
        r matches Err(e) ==> e == QuantumError::NotUnitary,
{
    let mat = Matrix4x4::new([[1u8, 0, 0, 0], [0, 1, 0, 0], [0, 0, 0, 1], [0, 0, 1, 0]]);
    assert(mat@ =~~= cnot_matrix());
    BinaryGate::new_u8(mat)
}

/// A gate that exchanges the two qubits.
pub fn swap<T: Scalar>() -> (r: Result<BinaryGate<T>, QuantumError>)
    requires
        obeys_scalar_specs::<T>(),
        lift_req::<T>(swap_matrix()),
        unitary_req(lift_spec::<T>(swap_matrix())),
    ensures
        unitary_spec(lift_spec::<T>(swap_matrix())) <==> r is Ok,
        r matches Ok(gate) ==> gate@ == lift_spec::<T>(swap_matrix()),
        r matches Err(e) ==> e == QuantumError::NotUnitary,
{
    let mat = Matrix4x4::new([[1u8, 0, 0, 0], [0, 0, 1, 0], [0, 1, 0, 0], [0, 0, 0, 1]]);
    assert(mat@ =~~= swap_matrix());
    BinaryGate::new_u8(mat)
}

} // verus!
