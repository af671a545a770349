//! A user-space dynamic loader for 64-bit little-endian AMD64 ELF images.
//!
//! The library holds the loader's logic: decoding ELF images from their bytes,
//! reading the system's library cache, ordering dependencies, keeping the global
//! symbol tables, and planning each image's mappings and relocations. The
//! memory operations that carry a plan out belong to the program around it.
pub mod bytes;
pub mod cache;
pub mod dynamic;
pub mod elf;
pub mod layout;
pub mod ld_path_loader;
pub mod loader;
pub mod resolver;
pub mod string_tables;
pub mod symbols;
