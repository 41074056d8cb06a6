use ferroforge::circuit::Circuit;
use ferroforge::gate::{Gate, GateType};

fn gate(id: i32, gate_type: GateType, value: usize) -> Gate {
    Gate { id, gate_type, value }
}

#[test]
fn new_circuit_has_blank_square_matrix() {
    let c = Circuit::new(3, 4);
    assert_eq!(c.num_inputs, 3);
    assert!(c.gates.is_empty());
    assert_eq!(c.graph.len(), 4);
    for row in &c.graph {
        assert_eq!(row, &vec![None; 4]);
    }
}

#[test]
fn new_circuit_of_size_zero_is_empty() {
    let c = Circuit::new(0, 0);
    assert!(c.gates.is_empty());
    assert!(c.graph.is_empty());
}

#[test]
fn gate_new_starts_with_id_zero() {
    let g = Gate::new(GateType::XOR, 2);
    assert_eq!(g, gate(0, GateType::XOR, 2));
}

#[test]
fn add_gate_sets_input_count_by_kind() {
    let mut c = Circuit::new(1, 0);
    c.add_gate(GateType::NOT);
    c.add_gate(GateType::NAND);
    c.add_gate(GateType::XNOR);
    assert_eq!(c.gates[0], gate(0, GateType::NOT, 1));
    assert_eq!(c.gates[1], gate(0, GateType::NAND, 2));
    assert_eq!(c.gates[2], gate(0, GateType::XNOR, 2));
    assert_eq!(c.num_inputs, 1);
}

#[test]
fn add_gate_keeps_matrix_square_from_empty() {
    let mut c = Circuit::new(2, 0);
    for _ in 0..3 {
        c.add_gate(GateType::AND);
    }
    assert_eq!(c.graph.len(), 3);
    for row in &c.graph {
        assert_eq!(row, &vec![None; 3]);
    }
}

#[test]
fn add_gate_on_sized_circuit_adds_blank_row_and_column() {
    let mut c = Circuit::new(1, 2);
    c.add_gate(GateType::NAND);
    assert_eq!(c.gates.len(), 1);
    assert_eq!(c.graph, vec![vec![None; 3]; 3]);
    assert_eq!(c.num_inputs, 1);
}

#[test]
fn add_gate_keeps_existing_connections() {
    let mut c = Circuit::new(0, 0);
    c.add_gate(GateType::AND);
    c.add_gate(GateType::OR);
    c.graph[0][1] = Some(5);
    c.add_gate(GateType::NOT);
    assert_eq!(c.graph[0], vec![None, Some(5), None]);
    assert_eq!(c.graph[1], vec![None, None, None]);
    assert_eq!(c.graph[2], vec![None, None, None]);
}

#[test]
fn remove_gate_takes_first_with_id() {
    let mut c = Circuit::new(0, 2);
    c.gates.push(gate(4, GateType::AND, 2));
    c.gates.push(gate(7, GateType::OR, 2));
    c.gates.push(gate(7, GateType::NOT, 1));
    let graph = c.graph.clone();
    c.remove_gate(7);
    assert_eq!(c.gates, vec![gate(4, GateType::AND, 2), gate(7, GateType::NOT, 1)]);
    assert_eq!(c.graph, graph);
}

#[test]
fn remove_gate_absent_id_changes_nothing() {
    let mut c = Circuit::new(5, 1);
    c.gates.push(gate(1, GateType::AND, 2));
    c.gates.push(gate(2, GateType::OR, 2));
    c.remove_gate(9);
    assert_eq!(c.gates, vec![gate(1, GateType::AND, 2), gate(2, GateType::OR, 2)]);
    assert_eq!(c.graph, vec![vec![None]]);
    assert_eq!(c.num_inputs, 5);
}

#[test]
fn remove_gate_on_empty_circuit() {
    let mut c = Circuit::new(0, 0);
    c.remove_gate(0);
    assert!(c.gates.is_empty());
}

#[test]
fn remove_undoes_add_on_gate_list() {
    let mut c = Circuit::new(0, 0);
    c.gates.push(gate(3, GateType::AND, 2));
    c.graph.push(vec![None]);
    let before = c.gates.clone();
    c.add_gate(GateType::NOR);
    c.remove_gate(0);
    assert_eq!(c.gates, before);
    assert_eq!(c.graph.len(), 2);
}

#[test]
fn connect_gates_changes_nothing() {
    let mut c = Circuit::new(1, 0);
    c.add_gate(GateType::AND);
    c.add_gate(GateType::OR);
    let gates = c.gates.clone();
    let graph = c.graph.clone();
    c.connect_gates(gates[0], gates[1]);
    assert_eq!(c.gates, gates);
    assert_eq!(c.graph, graph);
    assert_eq!(c.num_inputs, 1);
}
