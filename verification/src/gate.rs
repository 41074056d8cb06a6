use vstd::prelude::*;

verus! {

/// The kinds of logic gate that can be placed in a circuit.
#[derive(Clone, Copy, Debug, PartialEq, Eq, Structural)]
pub enum GateType {
    NAND,
    NOR,
    AND,
    OR,
    NOT,
    XOR,
    XNOR,
}

/// A gate placed in a circuit.
///
/// `id` is the identifier by which the circuit finds it again;
/// `value` is the number of inputs it takes.
#[derive(Clone, Copy, Debug, PartialEq, Eq, Structural)]
pub struct Gate {
    pub id: i32,
    pub gate_type: GateType,
    pub value: usize,
}

impl Gate {
    /// What `Gate::new` builds: identifier 0, the given kind and input count.
    pub open spec fn spec_new(gate_type: GateType, value: usize) -> Gate {
        Gate { id: 0, gate_type, value }
    }

    /// A gate of the given kind with `value` inputs; it starts with identifier 0.
    /// So every gate that `Circuit::add_gate` places has identifier 0, and
    /// `Circuit::remove_gate(0)` takes out the earliest of them that is still
    /// in the list (unless a gate with identifier 0 set by hand comes first).
    pub fn new(gate_type: GateType, value: usize) -> (g: Gate)
        ensures
            g == Gate::spec_new(gate_type, value),
            g.id == 0,
            g.gate_type == gate_type,
            g.value == value,
    {
        Gate { id: 0, gate_type, value }
    }
}

/// A made gate has identifier 0 and keeps the kind and the input count it
/// was asked for.
pub proof fn law_new_gate_keeps_kind_and_inputs(gate_type: GateType, value: usize)
    ensures
        Gate::spec_new(gate_type, value).id == 0,
        Gate::spec_new(gate_type, value).gate_type == gate_type,
        Gate::spec_new(gate_type, value).value == value,
{
}

} // verus!
