//! Core of a GPU mesh-instancing renderer: many visually distinct copies of
//! one mesh are drawn with a single draw call by packing per-copy attributes
//! (position, scale, color) into one per-instance vertex buffer.
//!
//! The library holds the per-frame logic: extracting the simulation-side
//! records, aggregating them into a tightly packed instance buffer, selecting
//! a specialized render pipeline for the current view and mesh flags,
//! preparing the GPU-visible bytes, and sequencing the draw commands.
//! Floating-point attribute components are carried as 32-bit IEEE-754 bit
//! patterns: the core never computes on them, it only lays them out and
//! routes them, so their bit words are the exact currency of the binary
//! shader contract.
pub mod aggregate;
pub mod buffer;
pub mod draw;
pub mod extract;
pub mod key;
pub mod pipeline;
pub mod queue;
pub mod record;
