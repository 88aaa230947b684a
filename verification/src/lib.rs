//! A streaming reader for OpenStreetMap PBF data.
//!
//! A PBF stream is a run of length-prefixed frames. Each frame holds a blob
//! header and a blob; a blob carries, raw or compressed, either the header
//! block of the file or a block of primitives (nodes, ways, relations and
//! changesets). This crate cuts a byte stream into frames, decodes the blobs
//! and walks the primitives of each block.
//!
//! - `blob`: frames, blobs and the cursor over the blobs of a stream;
//!   `framing`: what holds of a walk over a stream written frame by frame.
//! - `data`: blocks of primitives, the walk over them, and the views of
//!   nodes, ways, relations and their tags.
//! - `header`: the header block.
//! - `pbf`: the messages of the schema as plain records; `wire`: the protobuf
//!   decoder that fills them; `codec`: the codecs of compressed blobs.
//! - `pool`: the pool of buffers; `error`: the errors.
pub mod blob;
pub mod codec;
pub mod data;
pub mod error;
pub mod framing;
pub mod header;
pub mod pbf;
pub mod pool;
pub mod wire;
