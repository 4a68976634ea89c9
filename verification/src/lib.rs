pub mod screenshot;
pub mod supervisor;
pub mod timefmt;
