//! Driver logic for a microcontroller's bulk-memory-movement (DMA) block,
//! verified against a register-level software model of the hardware.
//!
//! The crate models one transfer channel of the block as plain register
//! state ([`dma::Channel`]), and proves the driver logic that runs on top of
//! it: double-buffered circular capture ([`dma::CircBuffer`]), one-shot
//! transfers with pause/restart ([`dma::Transfer`]), the channel-set
//! allocator, and the serial (USART) entry points that arm such transfers.
//! The autonomous engine's side of the protocol — decrementing the count
//! register and raising completion flags — is modelled by explicit methods
//! on [`dma::Channel`], so every property is stated and checked over the
//! same state the hardware exposes through its registers.
//!
//! Memory-mapped register access itself needs raw pointers and therefore
//! lives outside the verified library, in an ordinary-Rust shell that
//! mirrors this model onto the real block.

pub mod dma;
pub mod gpio;
pub mod rcc;
pub mod serial;
