//! Conversion options: the value object read from the presentation layer at
//! the moment a conversion is triggered.

use vstd::prelude::*;

verus! {

/// Compression mode accepted by the external converter.
#[derive(Clone, Copy, Debug, PartialEq, Eq, Structural)]
pub enum Compression {
    Lossless,
    Uncompressed,
}

/// Crop mode accepted by the external converter.
#[derive(Clone, Copy, Debug, PartialEq, Eq, Structural)]
pub enum Crop {
    Auto,
    Best,
    NoCrop,
}

/// The five conversion options of one run, constructed once at trigger time
/// and threaded through unchanged.
#[derive(Clone, Copy, Debug, PartialEq, Eq, Structural)]
pub struct ConversionOptions {
    pub compression: Compression,
    pub crop: Crop,
    pub embed_raw: bool,
    pub overwrite: bool,
    pub recursive: bool,
}

/// The command-line token of a compression mode.
pub open spec fn spec_compression_token(c: Compression) -> Seq<char> {
    match c {
        Compression::Lossless => "lossless"@,
        Compression::Uncompressed => "uncompressed"@,
    }
}

/// The command-line token of a crop mode.
pub open spec fn spec_crop_token(c: Crop) -> Seq<char> {
    match c {
        Crop::Auto => "auto"@,
        Crop::Best => "best"@,
        Crop::NoCrop => "none"@,
    }
}

/// The command-line token of a boolean option value.
pub open spec fn spec_bool_token(b: bool) -> Seq<char> {
    if b {
        "true"@
    } else {
        "false"@
    }
}

impl Compression {
    /// The token handed to the external converter after `--compression`.
    pub fn token(&self) -> (r: String)
        ensures
            r@ == spec_compression_token(*self),
    {
        match self {
            Compression::Lossless => "lossless".to_owned(),
            Compression::Uncompressed => "uncompressed".to_owned(),
        }
    }
}

impl Crop {
    /// The token handed to the external converter after `--crop`.
    pub fn token(&self) -> (r: String)
        ensures
            r@ == spec_crop_token(*self),
    {
        match self {
            Crop::Auto => "auto".to_owned(),
            Crop::Best => "best".to_owned(),
            Crop::NoCrop => "none".to_owned(),
        }
    }
}

/// The token handed to the external converter after `--embed-raw`.
pub fn bool_token(b: bool) -> (r: String)
    ensures
        r@ == spec_bool_token(b),
{
    if b {
        "true".to_owned()
    } else {
        "false".to_owned()
    }
}

} // verus!
