pub mod atari;
pub mod channel;
pub mod collect;
pub mod error;
pub mod frame;
pub mod lifecycle;
pub mod pool;
pub mod report;
pub mod rom;
pub mod rom_laws;
pub mod sampling;
pub mod slot;
pub mod vec_atari;

pub use crate::atari::Atari;
pub use crate::rom::BundledRom;
pub use crate::rom::LoggerMode;
pub use crate::vec_atari::VecAtari;
