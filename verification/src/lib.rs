//! Hollow Earth: the integer and enum logic of a survival game set on the
//! inside of a hollow sphere, with contracts checked by Verus.

pub mod protocol;
pub mod world;
pub mod creatures;
pub mod ai;
pub mod stations;
pub mod hud;
pub mod sync;
pub mod gear;
pub mod tether;
pub mod tether_status;
pub mod weapons;
