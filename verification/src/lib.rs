//! Verified core of the Beans engine: glTF document model, validation and
//! decoding rules, geometry index handling and renderer decisions.
pub mod enums;
pub mod text;
pub mod error;
pub mod float;
pub mod document;
pub mod validate;
pub mod rules;
pub mod version;
pub mod iri;
pub mod deserialize;
pub mod buffer_source;
pub mod geometry;
pub mod mesh_data;
pub mod input;
pub mod vulkan;
pub mod texture;
pub mod primitive;
pub mod scene;
pub mod format_codes;
