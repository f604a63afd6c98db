//! A type-erased content registry for a voxel world.
//!
//! Every content type (stone, experience orb, ...) may offer a block form, an
//! entity form and an item form. The registry lists what each content type
//! offers, and the opaque value containers hold a payload of any registered
//! content type behind one handle, encoding, decoding and releasing it through
//! the registry.
pub mod dynamic_types;
