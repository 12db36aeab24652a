//! Driver core for a 128x128 dot-matrix display controller with 4-bit
//! grayscale, spoken to over a byte-oriented command/data bus.
//!
//! The crate owns the packed framebuffer, the command encoder and the
//! fixed initialization and reset sequences. The bus itself, the reset
//! line and the delay primitive are capabilities supplied by the host
//! platform through the traits in [`interface`].

pub mod command;
pub mod display;
pub mod gray;
pub mod interface;
pub mod recorder;

pub use command::Command;
pub use display::Pixel;
pub use display::Ssd1327;
pub use gray::GrayValue;
pub use interface::Delay;
pub use interface::DisplayError;
pub use interface::OutputLine;
pub use interface::Transport;
