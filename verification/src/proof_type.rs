//! Circuit types as the orchestration framework names them, and proof types as
//! the proving platform names them.
use vstd::prelude::*;
use crate::text::same_text;

verus! {

/// The category of circuit that a task proves.
///
/// `Undefined` is a sentinel: it stands for "not known" in responses that
/// report a failure, and is never sent to the proving platform.
#[derive(Clone, Copy, Debug, PartialEq, Eq, Structural)]
pub enum CircuitType {
    Undefined,
    Chunk,
    Batch,
    Bundle,
}

impl CircuitType {
    /// The number that stands for this circuit type in request paths and in
    /// JSON payloads.
    pub open spec fn code(self) -> nat {
        match self {
            CircuitType::Undefined => 0,
            CircuitType::Chunk => 1,
            CircuitType::Batch => 2,
            CircuitType::Bundle => 3,
        }
    }

    /// The circuit type that a number stands for. Every number without a
    /// circuit type of its own reads as `Undefined`.
    pub open spec fn of_code(code: nat) -> CircuitType {
        if code == 1 {
            CircuitType::Chunk
        } else if code == 2 {
            CircuitType::Batch
        } else if code == 3 {
            CircuitType::Bundle
        } else {
            CircuitType::Undefined
        }
    }

    /// Whether this is one of the three circuit types that can be proved.
    pub open spec fn is_defined(self) -> bool {
        self != CircuitType::Undefined
    }

    pub fn to_u8(self) -> (r: u8)
        ensures
            r == self.code(),
    {
        match self {
            CircuitType::Undefined => 0,
            CircuitType::Chunk => 1,
            CircuitType::Batch => 2,
            CircuitType::Bundle => 3,
        }
    }

    pub fn from_u8(v: u8) -> (r: CircuitType)
        ensures
            r == CircuitType::of_code(v as nat),
    {
        if v == 1 {
            CircuitType::Chunk
        } else if v == 2 {
            CircuitType::Batch
        } else if v == 3 {
            CircuitType::Bundle
        } else {
            CircuitType::Undefined
        }
    }
}

/// The tag by which the proving platform tells the kinds of proof apart.
#[derive(Clone, Copy, Debug, PartialEq, Eq, Structural)]
pub enum SnarkifyProofType {
    Chunk,
    Batch,
    Bundle,
}

impl SnarkifyProofType {
    /// The proof type that belongs to a circuit type; `Undefined` has none.
    pub open spec fn of_circuit(circuit_type: CircuitType) -> Option<SnarkifyProofType> {
        match circuit_type {
            CircuitType::Chunk => Some(SnarkifyProofType::Chunk),
            CircuitType::Batch => Some(SnarkifyProofType::Batch),
            CircuitType::Bundle => Some(SnarkifyProofType::Bundle),
            CircuitType::Undefined => None,
        }
    }

    /// The position of this proof type in the order Chunk, Batch, Bundle.
    pub open spec fn ordinal(self) -> nat {
        match self {
            SnarkifyProofType::Chunk => 0,
            SnarkifyProofType::Batch => 1,
            SnarkifyProofType::Bundle => 2,
        }
    }

    /// The circuit type that this proof type belongs to.
    pub open spec fn spec_circuit_type(self) -> CircuitType {
        match self {
            SnarkifyProofType::Chunk => CircuitType::Chunk,
            SnarkifyProofType::Batch => CircuitType::Batch,
            SnarkifyProofType::Bundle => CircuitType::Bundle,
        }
    }

    /// The upper-cased name under which this proof type travels in JSON.
    pub open spec fn spec_wire_name(self) -> Seq<char> {
        match self {
            SnarkifyProofType::Chunk => "CHUNK"@,
            SnarkifyProofType::Batch => "BATCH"@,
            SnarkifyProofType::Bundle => "BUNDLE"@,
        }
    }

    /// The proof type that a name read from JSON stands for, if any.
    pub open spec fn spec_from_wire_name(name: Seq<char>) -> Option<SnarkifyProofType> {
        if name == "CHUNK"@ {
            Some(SnarkifyProofType::Chunk)
        } else if name == "BATCH"@ {
            Some(SnarkifyProofType::Batch)
        } else if name == "BUNDLE"@ {
            Some(SnarkifyProofType::Bundle)
        } else {
            None
        }
    }

    /// The proof type of a circuit type that can be proved.
    ///
    /// `Undefined` has no proof type and must not be passed; see
    /// [`SnarkifyProofType::try_from_circuit_type`] for a caller that cannot
    /// rule it out.
    pub fn from_circuit_type(circuit_type: CircuitType) -> (r: SnarkifyProofType)
        requires
            circuit_type.is_defined(),
        ensures
            SnarkifyProofType::of_circuit(circuit_type) == Some(r),
    {
        match circuit_type {
            CircuitType::Chunk => SnarkifyProofType::Chunk,
            CircuitType::Batch => SnarkifyProofType::Batch,
            CircuitType::Bundle => SnarkifyProofType::Bundle,
            CircuitType::Undefined => unreached(),
        }
    }

    /// The proof type of a circuit type, or `None` for
    /// `Undefined`.
    pub fn try_from_circuit_type(circuit_type: CircuitType) -> (r: Option<SnarkifyProofType>)
        ensures
            r == SnarkifyProofType::of_circuit(circuit_type),
    {
        match circuit_type {
            CircuitType::Undefined => None,
            _ => Some(SnarkifyProofType::from_circuit_type(circuit_type)),
        }
    }

    pub fn circuit_type(self) -> (r: CircuitType)
        ensures
            r == self.spec_circuit_type(),
    {
        match self {
            SnarkifyProofType::Chunk => CircuitType::Chunk,
            SnarkifyProofType::Batch => CircuitType::Batch,
            SnarkifyProofType::Bundle => CircuitType::Bundle,
        }
    }

    pub fn wire_name(self) -> (r: &'static str)
        ensures
            r@ == self.spec_wire_name(),
    {
        match self {
            SnarkifyProofType::Chunk => "CHUNK",
            SnarkifyProofType::Batch => "BATCH",
            SnarkifyProofType::Bundle => "BUNDLE",
        }
    }

    pub fn from_wire_name(name: &str) -> (r: Option<SnarkifyProofType>)
        ensures
            r == SnarkifyProofType::spec_from_wire_name(name@),
    {
        if same_text(name, "CHUNK") {
            Some(SnarkifyProofType::Chunk)
        } else if same_text(name, "BATCH") {
            Some(SnarkifyProofType::Batch)
        } else if same_text(name, "BUNDLE") {
            Some(SnarkifyProofType::Bundle)
        } else {
            None
        }
    }
}

/// A circuit type has a proof type exactly where it can be proved.
pub proof fn lemma_proof_type_total(circuit_type: CircuitType)
    ensures
        SnarkifyProofType::of_circuit(circuit_type).is_some() <==> circuit_type.is_defined(),
{
}

/// Two circuit types with the same proof type are the same circuit type.
pub proof fn lemma_proof_type_injective(a: CircuitType, b: CircuitType)
    requires
        a.is_defined(),
        b.is_defined(),
        SnarkifyProofType::of_circuit(a) == SnarkifyProofType::of_circuit(b),
    ensures
        a == b,
{
}

/// Every proof type is the proof type of a circuit type that can be proved,
/// namely of the one it belongs to.
pub proof fn lemma_proof_type_surjective(proof_type: SnarkifyProofType)
    ensures
        proof_type.spec_circuit_type().is_defined(),
        SnarkifyProofType::of_circuit(proof_type.spec_circuit_type()) == Some(proof_type),
{
}

/// Going from a circuit type to its proof type and back gives the circuit
/// type.
pub proof fn lemma_proof_type_round_trip(circuit_type: CircuitType)
    requires
        circuit_type.is_defined(),
    ensures
        SnarkifyProofType::of_circuit(circuit_type).unwrap().spec_circuit_type() == circuit_type,
{
}

/// The order is kept: of two circuit types that can be proved, the one with
/// the smaller code has the proof type that comes first.
pub proof fn lemma_proof_type_keeps_order(a: CircuitType, b: CircuitType)
    requires
        a.is_defined(),
        b.is_defined(),
    ensures
        a.code() < b.code() <==> SnarkifyProofType::of_circuit(a).unwrap().ordinal()
            < SnarkifyProofType::of_circuit(b).unwrap().ordinal(),
{
}

/// A circuit type is found again from its code.
pub proof fn lemma_code_round_trip(circuit_type: CircuitType)
    ensures
        CircuitType::of_code(circuit_type.code()) == circuit_type,
{
}

/// A proof type is found again from the name it travels under.
pub proof fn lemma_wire_name_round_trip(proof_type: SnarkifyProofType)
    ensures
        SnarkifyProofType::spec_from_wire_name(proof_type.spec_wire_name()) == Some(proof_type),
{
    reveal_strlit("CHUNK");
    reveal_strlit("BATCH");
    reveal_strlit("BUNDLE");
    assert("CHUNK"@.len() == 5);
    assert("BATCH"@.len() == 5);
    assert("BUNDLE"@.len() == 6);
    assert("CHUNK"@[0] == 'C');
    assert("BATCH"@[0] == 'B');
}

} // verus!
