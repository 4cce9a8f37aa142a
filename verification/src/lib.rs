//! Cable routing puzzle engine: the cable algebra, the board, the step-wise
//! router and the editing state machine.

pub mod board;
pub mod controls;
pub mod floodfill;
pub mod grid;
pub mod layout;
pub mod playing;
pub mod simulating;
pub mod solutions;
pub mod transport;
