//! Composites three raster layers into one image: a solid-colour background
//! sized to a fixed overlay, a resizable product image painted at a
//! caller-chosen position, and the overlay painted centred on top.
//!
//! The positioning arithmetic, the resize-dimension arithmetic, the canvas
//! construction and the alpha-aware painting are verified here.  Decoding,
//! encoding and the resampling filter are delegated to the `image` crate
//! behind trusted wrappers in [`codec`].

pub mod codec;
pub mod compose;
pub mod laws;
pub mod modes;
pub mod num;
pub mod raster;

use vstd::prelude::*;

verus! {

/// The failure classes a composition can surface.
#[derive(Clone, Copy, Debug, PartialEq, Eq, Structural)]
pub enum CompositeError {
    /// An input byte buffer could not be decoded as a raster image.
    DecodeError,
    /// A caller-supplied argument was malformed: a background colour that is
    /// not exactly four bytes, an unrecognised mode tag, or a mode object
    /// missing its value.
    InvalidArgument,
    /// The composed image could not be encoded (or, at the caller's side,
    /// written out).
    EncodeOrWriteError,
}

impl CompositeError {
    /// A short human-readable account of which stage or argument failed.
    pub fn describe(&self) -> (r: &'static str)
        ensures
            *self is DecodeError ==> r@ == "could not decode an input image buffer"@,
            *self is InvalidArgument ==> r@ == "invalid argument: background colour or mode descriptor"@,
            *self is EncodeOrWriteError ==> r@ == "could not encode or write the composed image"@,
    {
        match self {
            CompositeError::DecodeError => "could not decode an input image buffer",
            CompositeError::InvalidArgument => "invalid argument: background colour or mode descriptor",
            CompositeError::EncodeOrWriteError => "could not encode or write the composed image",
        }
    }
}

/// Adds two machine integers; kept as part of the public surface.
pub fn sum(a: i32, b: i32) -> (r: i32)
    requires
        i32::MIN <= a + b <= i32::MAX,
    ensures
        r == a + b,
{
    a + b
}

} // verus!
