//! Logic of a logic-gate circuit editor: the gates, the circuit that holds
//! them with its connection matrix, and the decisions of the editor's menus
//! and input button.

pub mod circuit;
pub mod gate;
pub mod menu;
pub mod pick;
