pub mod address;
pub mod audit;
pub mod curve;
pub mod guarantees;
pub mod history;
pub mod ids;
pub mod instruction;
pub mod keys;
pub mod laws;
pub mod lemmas;
pub mod logs;
pub mod market;
pub mod math;
pub mod model;
pub mod outside;
pub mod params;
pub mod polling;
pub mod pubkey;
pub mod rehearsal;
pub mod spl;
