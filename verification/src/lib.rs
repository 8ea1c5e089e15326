//! Text-world runtime core: the world data model, the text marshaling used at
//! the boundary to the embedded scripting engine, the registry of engine
//! instances, and the per-connection dispatch state machine.

pub mod builders;
pub mod data;
pub mod dispatch;
pub mod engine;
pub mod marshal;
pub mod scripting;
