//! Decoding of fixed-layout binary tag records from asset archives, the
//! registry and reference resolution over decoded tags, and the semantic
//! post-processing (shader classification, category trees, documents) built
//! on top of them.
pub mod bytes;
pub mod category;
pub mod codec_laws;
pub mod customization;
pub mod decode;
pub mod enums;
pub mod forge;
pub mod keyed;
pub mod material;
pub mod material_layout;
pub mod registry;
pub mod resolve;
pub mod schema;
pub mod strings;
pub mod styles;
pub mod theme;
