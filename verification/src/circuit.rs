use vstd::prelude::*;

use crate::gate::{Gate, GateType};

verus! {

/// A circuit: the gates placed in it and the matrix through which they are
/// wired (`graph[i][j]` holds the connection from gate `i` to gate `j`, if any).
pub struct Circuit {
    pub gates: Vec<Gate>,
    pub graph: Vec<Vec<Option<usize>>>,
    pub num_inputs: u32,
}

/// A row of `n` empty cells.
pub open spec fn blank_row(n: nat) -> Seq<Option<usize>> {
    Seq::new(n, |i: int| None::<usize>)
}

/// The number of inputs that a gate of the given kind takes: one for NOT, two otherwise.
pub open spec fn input_count(gate_type: GateType) -> usize {
    match gate_type {
        GateType::NOT => 1,
        _ => 2,
    }
}

/// `k` is the first position in `gates` of a gate with identifier `id`.
pub open spec fn is_first_with_id(gates: Seq<Gate>, id: i32, k: int) -> bool {
    &&& 0 <= k < gates.len()
    &&& gates[k].id == id
    &&& forall|j: int| 0 <= j < k ==> gates[j].id != id
}

/// The gates that remain once the first gate with identifier `id` is taken
/// out; all of them where no gate has that identifier.
pub open spec fn gates_without_id(gates: Seq<Gate>, id: i32) -> Seq<Gate> {
    if exists|k: int| is_first_with_id(gates, id, k) {
        gates.remove(choose|k: int| is_first_with_id(gates, id, k))
    } else {
        gates
    }
}

/// The list of gates after `add_gate(gate_type)`.
pub open spec fn gates_with_new(gates: Seq<Gate>, gate_type: GateType) -> Seq<Gate> {
    gates.push(Gate::spec_new(gate_type, input_count(gate_type)))
}

/// `after` is what `add_gate(gate_type)` makes of `before`: the new gate is
/// appended, every row gains an empty cell (a blank column), and a blank row
/// as wide as the widened matrix is appended; the input count stays.
pub open spec fn is_add_gate_step(before: Circuit, after: Circuit, gate_type: GateType) -> bool {
    &&& after.gates@ == gates_with_new(before.gates@, gate_type)
    &&& after.num_inputs == before.num_inputs
    &&& after.graph@.len() == before.graph@.len() + 1
    &&& forall|i: int|
        0 <= i < before.graph@.len() ==> #[trigger] after.graph@[i]@ == before.graph@[i]@.push(None)
    &&& after.graph@[before.graph@.len() as int]@ == blank_row(before.graph@.len() + 1)
}

/// `after` is what `remove_gate(id)` makes of `before`: the first gate with
/// that identifier is gone, and nothing else changed.
pub open spec fn is_remove_gate_step(before: Circuit, after: Circuit, id: i32) -> bool {
    &&& after.gates@ == gates_without_id(before.gates@, id)
    &&& after.graph == before.graph
    &&& after.num_inputs == before.num_inputs
}

impl Circuit {
    /// The matrix has one row per gate and one column per gate.
    pub open spec fn is_square_over_gates(&self) -> bool {
        &&& self.graph@.len() == self.gates@.len()
        &&& forall|i: int| 0 <= i < self.graph@.len() ==> #[trigger] self.graph@[i]@.len() == self.gates@.len()
    }

    /// A circuit with no gates, `num_inputs` inputs, and a `size` by `size`
    /// matrix with no connection in it.
    pub fn new(num_inputs: u32, size: usize) -> (c: Self)
        ensures
            c.gates@.len() == 0,
            c.num_inputs == num_inputs,
            c.graph@.len() == size,
            forall|i: int| 0 <= i < size ==> #[trigger] c.graph@[i]@ == blank_row(size as nat),
    {
        let gates: Vec<Gate> = Vec::with_capacity(size);
        let mut graph: Vec<Vec<Option<usize>>> = Vec::new();
        let mut k: usize = 0;
        while k < size
            invariant
                k <= size,
                graph@.len() == k,
                forall|i: int| 0 <= i < k ==> #[trigger] graph@[i]@ == blank_row(size as nat),
            decreases size - k,
        {
            graph.push(new_blank_row(size));
            k = k + 1;
        }
        Circuit { gates, graph, num_inputs }
    }

    /// Places a new gate of the given kind at the end of the list of gates (one
    /// input for NOT, two for the others), appends an empty cell to every row
    /// of the matrix (a blank column), and appends a blank row as wide as the
    /// widened matrix.
    pub fn add_gate(&mut self, gate_type: GateType)
        ensures
            is_add_gate_step(*old(self), *final(self), gate_type),
            final(self).gates@.len() == old(self).gates@.len() + 1,
            forall|i: int|
                0 <= i < old(self).gates@.len() ==> #[trigger] final(self).gates@[i] == old(
                    self,
                ).gates@[i],
            final(self).gates@.last().id == 0,
            final(self).gates@.last().gate_type == gate_type,
            final(self).gates@.last().value == (if gate_type == GateType::NOT {
                1usize
            } else {
                2usize
            }),
            forall|i: int, j: int|
                0 <= i < final(self).graph@.len() && 0 <= j < final(self).graph@[i]@.len()
                    && !(i < old(self).graph@.len() && j < old(self).graph@[i]@.len())
                    ==> #[trigger] final(self).graph@[i]@[j] == None::<usize>,
            final(self).graph@[old(self).graph@.len() as int]@.len() == old(self).graph@.len() + 1,
    {
        let value: usize = match gate_type {
            GateType::NOT => 1,
            _ => 2,
        };
        let insert = Gate::new(gate_type, value);
        self.gates.push(insert);

        let ghost before = self.graph@;
        let ghost gates_now = self.gates@;
        let ghost inputs = self.num_inputs;
        let n = self.graph.len();
        let mut k: usize = 0;
        while k < n
            invariant
                k <= n,
                n == before.len(),
                self.graph@.len() == n,
                self.gates@ == gates_now,
                self.num_inputs == inputs,
                forall|i: int| 0 <= i < k ==> #[trigger] self.graph@[i]@ == before[i]@.push(None),
                forall|i: int| k <= i < n ==> #[trigger] self.graph@[i] == before[i],
            decreases n - k,
        {
            let mut row: Vec<Option<usize>> = Vec::new();
            self.graph.set_and_swap(k, &mut row);
            row.push(None);
            self.graph.set_and_swap(k, &mut row);
            k = k + 1;
        }
        self.graph.push(Vec::new());
        let width = self.graph.len();
        let row = new_blank_row(width);
        self.graph.set(width - 1, row);
    }

    /// Takes the first gate whose identifier is `get_id` out of the list of
    /// gates; leaves the list as it is when no gate has that identifier. The
    /// matrix is not touched.
    pub fn remove_gate(&mut self, get_id: i32)
        ensures
            is_remove_gate_step(*old(self), *final(self), get_id),
            final(self).graph == old(self).graph,
            final(self).num_inputs == old(self).num_inputs,
            (forall|j: int| 0 <= j < old(self).gates@.len() ==> #[trigger] old(self).gates@[j].id != get_id)
                ==> final(self).gates@ == old(self).gates@,
    {
        let mut index: usize = 0;
        let mut found = false;
        let n = self.gates.len();
        let mut i: usize = 0;
        while i < n
            invariant_except_break
                i <= n,
                n == self.gates@.len(),
                !found,
                forall|j: int| 0 <= j < i ==> self.gates@[j].id != get_id,
            ensures
                n == self.gates@.len(),
                found ==> is_first_with_id(self.gates@, get_id, index as int),
                !found ==> forall|j: int| 0 <= j < n ==> self.gates@[j].id != get_id,
            decreases n - i,
        {
            if self.gates[i].id == get_id {
                index = i;
                found = true;
                break;
            }
            i = i + 1;
        }
        proof {
            let g = self.gates@;
            if found {
                lemma_first_with_id_unique(g, get_id, index as int);
            } else {
                assert(!exists|k: int| is_first_with_id(g, get_id, k));
            }
        }
        if found {
            self.gates.remove(index);
        }
    }

    /// Wiring one gate to another: the circuit is left as it is.
    pub fn connect_gates(&mut self, from: Gate, to: Gate)
        ensures
            *final(self) == *old(self),
    {
    }
}

/// An executable row of `n` empty cells.
fn new_blank_row(n: usize) -> (row: Vec<Option<usize>>)
    ensures
        row@ == blank_row(n as nat),
{
    let mut row: Vec<Option<usize>> = Vec::new();
    let mut k: usize = 0;
    while k < n
        invariant
            k <= n,
            row@ == blank_row(k as nat),
        decreases n - k,
    {
        row.push(None);
        k = k + 1;
    }
    row
}

/// There is one first position of a given identifier, and `gates_without_id`
/// takes out the one there.
proof fn lemma_first_with_id_unique(gates: Seq<Gate>, id: i32, k: int)
    requires
        is_first_with_id(gates, id, k),
    ensures
        gates_without_id(gates, id) == gates.remove(k),
{
    let c = choose|m: int| is_first_with_id(gates, id, m);
    assert(is_first_with_id(gates, id, c));
    if c < k {
        assert(gates[c].id != id);
    } else if k < c {
        assert(gates[k].id != id);
    }
}

/// A circuit whose matrix is square over its gates (one row and one column
/// per gate) stays so through `add_gate`: the new gate gets a blank row and a
/// blank column.
pub proof fn law_add_gate_keeps_square(before: Circuit, after: Circuit, gate_type: GateType)
    requires
        before.is_square_over_gates(),
        is_add_gate_step(before, after, gate_type),
    ensures
        after.is_square_over_gates(),
        after.gates@.len() == before.gates@.len() + 1,
{
    assert forall|i: int| 0 <= i < after.graph@.len() implies #[trigger] after.graph@[i]@.len()
        == after.gates@.len() by {
        if i < before.graph@.len() {
            assert(after.graph@[i]@ == before.graph@[i]@.push(None));
        }
    }
}

/// The matrix is `n` by `n` for some `n`.
pub open spec fn is_square(graph: Seq<Vec<Option<usize>>>) -> bool {
    forall|i: int| 0 <= i < graph.len() ==> #[trigger] graph[i]@.len() == graph.len()
}

/// `add_gate` turns an `n` by `n` matrix into an `n + 1` by `n + 1` one: one
/// blank row and one blank column are added, whatever the number of gates.
pub proof fn law_add_gate_grows_square_matrix(before: Circuit, after: Circuit, gate_type: GateType)
    requires
        is_square(before.graph@),
        is_add_gate_step(before, after, gate_type),
    ensures
        is_square(after.graph@),
        after.graph@.len() == before.graph@.len() + 1,
{
    assert forall|i: int| 0 <= i < after.graph@.len() implies #[trigger] after.graph@[i]@.len()
        == after.graph@.len() by {
        if i < before.graph@.len() {
            assert(after.graph@[i]@ == before.graph@[i]@.push(None));
        }
    }
}

/// A fresh circuit with an empty matrix is square over its (no) gates.
pub proof fn law_new_empty_is_square(c: Circuit)
    requires
        c.gates@.len() == 0,
        c.graph@.len() == 0,
    ensures
        c.is_square_over_gates(),
{
}

/// Removing by an identifier that no gate has changes nothing.
pub proof fn law_remove_absent_id(before: Circuit, after: Circuit, id: i32)
    requires
        forall|j: int| 0 <= j < before.gates@.len() ==> #[trigger] before.gates@[j].id != id,
        is_remove_gate_step(before, after, id),
    ensures
        after.gates@ == before.gates@,
        after.graph == before.graph,
        after.num_inputs == before.num_inputs,
{
}

/// Removing by an identifier that some gate has takes out exactly one gate,
/// the first with that identifier, and keeps the others in their order.
pub proof fn law_remove_present_id(before: Circuit, after: Circuit, id: i32, k: int)
    requires
        0 <= k < before.gates@.len(),
        before.gates@[k].id == id,
        is_remove_gate_step(before, after, id),
    ensures
        after.gates@.len() == before.gates@.len() - 1,
        exists|m: int|
            0 <= m <= k && #[trigger] is_first_with_id(before.gates@, id, m) && after.gates@
                == before.gates@.remove(m),
{
    let g = before.gates@;
    let m = first_with_id_at_most(g, id, k);
    lemma_first_with_id_unique(g, id, m);
}

/// The first gate with a given identifier, found at or before a known one.
proof fn first_with_id_at_most(gates: Seq<Gate>, id: i32, k: int) -> (m: int)
    requires
        0 <= k < gates.len(),
        gates[k].id == id,
    ensures
        0 <= m <= k,
        is_first_with_id(gates, id, m),
    decreases k,
{
    if exists|j: int| 0 <= j < k && gates[j].id == id {
        let j = choose|j: int| 0 <= j < k && gates[j].id == id;
        first_with_id_at_most(gates, id, j)
    } else {
        k
    }
}

/// Adding a gate and then removing by identifier 0, in a circuit where no
/// gate had identifier 0, gives back the list of gates as it was; the matrix
/// keeps the row and the column that the added gate got.
pub proof fn law_remove_undoes_add(
    c0: Circuit,
    c1: Circuit,
    c2: Circuit,
    gate_type: GateType,
)
    requires
        forall|j: int| 0 <= j < c0.gates@.len() ==> #[trigger] c0.gates@[j].id != 0,
        is_add_gate_step(c0, c1, gate_type),
        is_remove_gate_step(c1, c2, 0),
    ensures
        c2.gates@ == c0.gates@,
        c2.graph == c1.graph,
        c2.num_inputs == c0.num_inputs,
{
    let g = c1.gates@;
    let n = c0.gates@.len() as int;
    assert(g[n].id == 0);
    assert forall|j: int| 0 <= j < n implies g[j].id != 0 by {
        assert(g[j] == c0.gates@[j]);
    }
    assert(is_first_with_id(g, 0, n));
    lemma_first_with_id_unique(g, 0, n);
    assert(g.remove(n) =~= c0.gates@);
}

/// What `add_gate(t)` places: every gate already there stays where it was,
/// and one gate is appended with identifier 0, kind `t`, one input when `t` is
/// NOT and two inputs otherwise.
pub proof fn law_add_gate_appends_gate_of_kind(before: Circuit, after: Circuit, gate_type: GateType)
    requires
        is_add_gate_step(before, after, gate_type),
    ensures
        after.gates@.len() == before.gates@.len() + 1,
        forall|i: int| 0 <= i < before.gates@.len() ==> #[trigger] after.gates@[i] == before.gates@[i],
        after.gates@[before.gates@.len() as int].id == 0,
        after.gates@[before.gates@.len() as int].gate_type == gate_type,
        gate_type == GateType::NOT ==> after.gates@[before.gates@.len() as int].value == 1,
        gate_type != GateType::NOT ==> after.gates@[before.gates@.len() as int].value == 2,
{
}

/// How `add_gate` grows the matrix: old cells keep their contents, every row
/// gets exactly one more cell, one row is appended that is one cell wider
/// than the old matrix was tall, and every new cell is empty.
pub proof fn law_add_gate_adds_blank_row_and_column(before: Circuit, after: Circuit, gate_type: GateType)
    requires
        is_add_gate_step(before, after, gate_type),
    ensures
        after.graph@.len() == before.graph@.len() + 1,
        forall|i: int| 0 <= i < before.graph@.len() ==> #[trigger] after.graph@[i]@.len() == before.graph@[i]@.len() + 1,
        after.graph@[before.graph@.len() as int]@.len() == before.graph@.len() + 1,
        forall|i: int, j: int|
            0 <= i < before.graph@.len() && 0 <= j < before.graph@[i]@.len() ==> #[trigger] after.graph@[i]@[j]
                == before.graph@[i]@[j],
        forall|i: int, j: int|
            0 <= i < after.graph@.len() && 0 <= j < after.graph@[i]@.len() && !(i < before.graph@.len() && j
                < before.graph@[i]@.len()) ==> #[trigger] after.graph@[i]@[j] == None::<usize>,
{
    assert forall|i: int, j: int|
        0 <= i < before.graph@.len() && 0 <= j < before.graph@[i]@.len() implies #[trigger] after.graph@[i]@[j]
            == before.graph@[i]@[j] by {
        assert(after.graph@[i]@ == before.graph@[i]@.push(None));
    }
    assert forall|i: int, j: int|
        0 <= i < after.graph@.len() && 0 <= j < after.graph@[i]@.len() && !(i < before.graph@.len() && j
            < before.graph@[i]@.len()) implies #[trigger] after.graph@[i]@[j] == None::<usize> by {
        if i < before.graph@.len() {
            assert(after.graph@[i]@ == before.graph@[i]@.push(None));
        }
    }
}

/// A fresh circuit has no gates and a `size` by `size` matrix whose every cell is empty.
pub proof fn law_new_matrix_is_blank(c: Circuit, size: usize)
    requires
        c.graph@.len() == size,
        forall|i: int| 0 <= i < size ==> #[trigger] c.graph@[i]@ == blank_row(size as nat),
    ensures
        forall|i: int| 0 <= i < size ==> #[trigger] c.graph@[i]@.len() == size,
        forall|i: int, j: int| 0 <= i < size && 0 <= j < size ==> #[trigger] c.graph@[i]@[j] == None::<usize>,
{
    assert forall|i: int, j: int| 0 <= i < size && 0 <= j < size implies #[trigger] c.graph@[i]@[j]
        == None::<usize> by {
        assert(c.graph@[i]@ == blank_row(size as nat));
    }
}

/// What `remove_gate(id)` takes out, written out position by position: when
/// the entry at `m` has that identifier and none before it has, the result
/// keeps the gates before `m` and shifts the ones after `m` down by one.
pub proof fn law_remove_gate_takes_first_match(before: Circuit, after: Circuit, id: i32, m: int)
    requires
        0 <= m < before.gates@.len(),
        before.gates@[m].id == id,
        forall|j: int| 0 <= j < m ==> #[trigger] before.gates@[j].id != id,
        is_remove_gate_step(before, after, id),
    ensures
        after.gates@.len() == before.gates@.len() - 1,
        forall|j: int| 0 <= j < m ==> #[trigger] after.gates@[j] == before.gates@[j],
        forall|j: int| m <= j < after.gates@.len() ==> #[trigger] after.gates@[j] == before.gates@[j + 1],
        after.graph == before.graph,
        after.num_inputs == before.num_inputs,
{
    lemma_first_with_id_unique(before.gates@, id, m);
}

} // verus!
