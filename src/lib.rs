pub mod cpu;
pub mod flags;
pub mod lemmas;
