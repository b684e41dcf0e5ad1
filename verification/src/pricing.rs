//! What generated images and generated speech cost.
//!
//! Like all money in this library, prices are counted in whole micro-dollars.

use vstd::prelude::*;
use vstd::utf8::encode_utf8;

verus! {

/// The image generators on offer.
#[derive(Clone, Copy, Debug, PartialEq, Eq, Structural)]
pub enum Model {
    DallE2,
    DallE3,
}

/// The quality at which an image is generated.
#[derive(Clone, Copy, Debug, PartialEq, Eq, Structural)]
pub enum Quality {
    Standard,
    Hd,
}

/// The size at which an image is generated, width by height.
#[derive(Clone, Copy, Debug, PartialEq, Eq, Structural)]
pub enum Size {
    Size256x256,
    Size512x512,
    Size1024x1024,
    Size1792x1024,
    Size1024x1792,
}

/// The price of one character of speech, in micro-dollars.
pub const SPEECH_PRICE_PER_CHARACTER: u64 = 15;

/// The price in micro-dollars of one image, where the generator offers the
/// size at the quality.
///
/// The newer generator needs a quality and offers the square size and the
/// two long sizes; the older one takes no notice of the quality and offers
/// the three square sizes.
pub open spec fn image_price(model: Model, quality: Option<Quality>, size: Size) -> Option<int> {
    match model {
        Model::DallE3 => match quality {
            Some(Quality::Standard) => match size {
                Size::Size1024x1024 => Some(40_000int),
                Size::Size1024x1792 => Some(80_000int),
                Size::Size1792x1024 => Some(80_000int),
                _ => None,
            },
            Some(Quality::Hd) => match size {
                Size::Size1024x1024 => Some(80_000int),
                Size::Size1024x1792 => Some(120_000int),
                Size::Size1792x1024 => Some(120_000int),
                _ => None,
            },
            None => None,
        },
        Model::DallE2 => match size {
            Size::Size1024x1024 => Some(20_000int),
            Size::Size512x512 => Some(18_000int),
            Size::Size256x256 => Some(16_000int),
            _ => None,
        },
    }
}

/// The price in micro-dollars of one image, or `None` where the generator
/// does not offer the size at the quality.
pub fn price_per_image(model: Model, quality: Option<Quality>, resolution: Size) -> (r: Option<u64>)
    ensures
        r matches Some(price) ==> image_price(model, quality, resolution) == Some(price as int),
        r is None <==> image_price(model, quality, resolution) is None,
{
    match model {
        Model::DallE3 => match quality {
            Some(Quality::Standard) => match resolution {
                Size::Size1024x1024 => Some(40_000),
                Size::Size1024x1792 => Some(80_000),
                Size::Size1792x1024 => Some(80_000),
                _ => None,
            },
            Some(Quality::Hd) => match resolution {
                Size::Size1024x1024 => Some(80_000),
                Size::Size1024x1792 => Some(120_000),
                Size::Size1792x1024 => Some(120_000),
                _ => None,
            },
            None => None,
        },
        Model::DallE2 => match resolution {
            Size::Size1024x1024 => Some(20_000),
            Size::Size512x512 => Some(18_000),
            Size::Size256x256 => Some(16_000),
            _ => None,
        },
    }
}

/// The price in micro-dollars of `number_of_images` images.
///
/// The generator has to offer the size at the quality: see
/// [`price_per_image`].
pub fn calculate_cost(
    model: Model,
    quality: Option<Quality>,
    resolution: Size,
    number_of_images: u32,
) -> (r: u64)
    requires
        image_price(model, quality, resolution) is Some,
    ensures
        r == image_price(model, quality, resolution)->0 * number_of_images,
{
    match price_per_image(model, quality, resolution) {
        Some(price) => {
            assert(price <= 120_000);
            assert(price * number_of_images <= 120_000 * 0xffff_ffff) by (nonlinear_arith)
                requires
                    0 <= price <= 120_000,
                    0 <= number_of_images <= 0xffff_ffff,
            ;
            price * (number_of_images as u64)
        },
        None => vstd::pervasive::unreached(),
    }
}

/// The name under which a generator at a quality is shown to users.
pub fn model_friendly_name(model: Model, quality: Quality) -> (r: &'static str)
    ensures
        r@ == match model {
            Model::DallE2 => "DALL·E 2"@,
            Model::DallE3 => match quality {
                Quality::Standard => "DALL·E 3"@,
                Quality::Hd => "DALL·E 3 HD"@,
            },
        },
{
    match model {
        Model::DallE2 => "DALL·E 2",
        Model::DallE3 => match quality {
            Quality::Standard => "DALL·E 3",
            Quality::Hd => "DALL·E 3 HD",
        },
    }
}

/// The price in micro-dollars of speaking a message of `length` bytes.
pub open spec fn speech_price(length: int) -> int {
    length * SPEECH_PRICE_PER_CHARACTER
}

/// The price in micro-dollars of speaking `message`:
/// [`SPEECH_PRICE_PER_CHARACTER`] for each byte of its UTF-8 encoding.
pub fn calculate_speech_cost(message: &str) -> (r: u128)
    ensures
        r == speech_price(encode_utf8(message@).len() as int),
{
    let length: usize = message.as_bytes().len();
    (length as u128) * (SPEECH_PRICE_PER_CHARACTER as u128)
}

} // verus!
