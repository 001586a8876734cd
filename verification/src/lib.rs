//! Acquisition of the symbolic-mathematics dataset: where it is kept, how it is
//! fetched and persisted, and how the persisted archive is unpacked.
//!
//! Every decision of the pipeline is taken here, on plain values, and proved
//! against its contract. Performing the requested file and network operations is
//! left to the host program.

pub mod data_retrieve;
