pub mod codec;
pub mod engine;
pub mod format;
pub mod replay;
pub mod sniff;
pub mod watchdog;

pub use codec::TranscodeError;
pub use engine::Context;
pub use format::CompressionType;
pub use format::Flags;
