//! Configuration of NVIDIA GPU operating parameters: clock offsets, power
//! limit, locked clock ranges and the fan target temperature.
pub mod text;
pub mod settings;
pub mod port;
pub mod applier;
pub mod batch;
pub mod privilege;
pub mod threshold;
pub mod report;
