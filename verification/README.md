# ferroforge

The logic of a logic-gate circuit editor, with its contracts and laws proved.

- `src/gate.rs`: the kinds of gate and the record of a placed gate.
- `src/circuit.rs`: a circuit (its gates and connection matrix), adding and
  removing gates, and the laws that relate them.
- `src/menu.rs`: the editor's screens and what a click on a menu button, or on
  the input button, does.
- `src/pick.rs`: which of the entities under the pointer is picked.
- `app/main.rs`: the bevy/egui program around the library (window, drawing,
  pointer positions, floating-point geometry).
