//! Which messages are answered, and by what.

use vstd::prelude::*;
use crate::pricing::{Model, Quality};

verus! {

/// The channels of the service, by their identifiers.
///
/// Each voice has a channel of its own, each detail level at which images
/// are described has one, and each image generator has one.
#[derive(Clone, Copy, Debug, PartialEq, Eq, Structural)]
pub struct Channels {
    pub alloy: u64,
    pub echo: u64,
    pub fable: u64,
    pub onyx: u64,
    pub nova: u64,
    pub shimmer: u64,
    pub low_quality: u64,
    pub high_quality: u64,
    pub dalle2: u64,
    pub dalle3: u64,
    pub dalle3_hd: u64,
}

/// The voices in which a message can be spoken.
#[derive(Clone, Copy, Debug, PartialEq, Eq, Structural)]
pub enum Voice {
    Alloy,
    Echo,
    Fable,
    Onyx,
    Nova,
    Shimmer,
}

/// The detail levels at which an image can be described.
#[derive(Clone, Copy, Debug, PartialEq, Eq, Structural)]
pub enum Detail {
    Low,
    High,
}

/// What answers a message.
#[derive(Clone, Copy, Debug, PartialEq, Eq, Structural)]
pub enum Route {
    /// The message is spoken in this voice.
    Speech(Voice),
    /// The image attached to the message is described at this detail level.
    Vision(Detail),
    /// An image is generated from the message, by this generator at this
    /// quality.
    Image(Model, Quality),
    /// The message is not answered.
    Ignored,
}

/// The voice of a channel, where the channel is that of a voice. Where
/// several voices share a channel, the first in the order of [`Voice`] has it.
pub open spec fn voice_of_channel(channels: Channels, channel_id: u64) -> Option<Voice> {
    if channel_id == channels.alloy {
        Some(Voice::Alloy)
    } else if channel_id == channels.echo {
        Some(Voice::Echo)
    } else if channel_id == channels.fable {
        Some(Voice::Fable)
    } else if channel_id == channels.onyx {
        Some(Voice::Onyx)
    } else if channel_id == channels.nova {
        Some(Voice::Nova)
    } else if channel_id == channels.shimmer {
        Some(Voice::Shimmer)
    } else {
        None
    }
}

/// The detail level of a channel, where images are described in it.
pub open spec fn detail_of_channel(channels: Channels, channel_id: u64) -> Option<Detail> {
    if channel_id == channels.low_quality {
        Some(Detail::Low)
    } else if channel_id == channels.high_quality {
        Some(Detail::High)
    } else {
        None
    }
}

/// The generator and quality of a channel, where images are generated in it.
///
/// The generator is that of the first channel that matches, in the order
/// older, newer, newer at high quality. The quality is high exactly in the
/// channel of the newer generator at high quality, also where that channel
/// is another generator's as well.
pub open spec fn generator_of_channel(channels: Channels, channel_id: u64) -> Option<
    (Model, Quality),
> {
    let quality = if channel_id == channels.dalle3_hd {
        Quality::Hd
    } else {
        Quality::Standard
    };
    if channel_id == channels.dalle2 {
        Some((Model::DallE2, quality))
    } else if channel_id == channels.dalle3 || channel_id == channels.dalle3_hd {
        Some((Model::DallE3, quality))
    } else {
        None
    }
}

/// What answers a message in a channel: speech comes before description,
/// and description before generation, where a channel is listed for several.
pub open spec fn route_of_channel(channels: Channels, channel_id: u64) -> Route {
    match voice_of_channel(channels, channel_id) {
        Some(voice) => Route::Speech(voice),
        None => match detail_of_channel(channels, channel_id) {
            Some(detail) => Route::Vision(detail),
            None => match generator_of_channel(channels, channel_id) {
                Some((model, quality)) => Route::Image(model, quality),
                None => Route::Ignored,
            },
        },
    }
}

impl Voice {
    /// The name by which the speech service knows the voice.
    pub fn name(&self) -> (r: &'static str)
        ensures
            r@ == match *self {
                Voice::Alloy => "alloy"@,
                Voice::Echo => "echo"@,
                Voice::Fable => "fable"@,
                Voice::Onyx => "onyx"@,
                Voice::Nova => "nova"@,
                Voice::Shimmer => "shimmer"@,
            },
    {
        match self {
            Voice::Alloy => "alloy",
            Voice::Echo => "echo",
            Voice::Fable => "fable",
            Voice::Onyx => "onyx",
            Voice::Nova => "nova",
            Voice::Shimmer => "shimmer",
        }
    }
}

impl Detail {
    /// The name of the detail level, as the usage accounting takes it.
    pub fn name(&self) -> (r: &'static str)
        ensures
            r@ == match *self {
                Detail::Low => "low"@,
                Detail::High => "high"@,
            },
    {
        match self {
            Detail::Low => "low",
            Detail::High => "high",
        }
    }
}

/// The voice in which messages in the channel are spoken, if it is the
/// channel of a voice.
pub fn get_tts_voice_from_channel_id(channels: &Channels, channel_id: u64) -> (r: Option<Voice>)
    ensures
        r == voice_of_channel(*channels, channel_id),
{
    if channel_id == channels.alloy {
        Some(Voice::Alloy)
    } else if channel_id == channels.echo {
        Some(Voice::Echo)
    } else if channel_id == channels.fable {
        Some(Voice::Fable)
    } else if channel_id == channels.onyx {
        Some(Voice::Onyx)
    } else if channel_id == channels.nova {
        Some(Voice::Nova)
    } else if channel_id == channels.shimmer {
        Some(Voice::Shimmer)
    } else {
        None
    }
}

/// Whether images are described in the channel.
pub fn is_vision_channel(channels: &Channels, channel_id: u64) -> (r: bool)
    ensures
        r == detail_of_channel(*channels, channel_id).is_some(),
{
    channel_id == channels.low_quality || channel_id == channels.high_quality
}

/// Whether images are generated in the channel.
pub fn is_image_channel(channels: &Channels, channel_id: u64) -> (r: bool)
    ensures
        r == generator_of_channel(*channels, channel_id).is_some(),
{
    channel_id == channels.dalle3 || channel_id == channels.dalle2 || channel_id
        == channels.dalle3_hd
}

/// What answers a message in the channel.
pub fn route(channels: &Channels, channel_id: u64) -> (r: Route)
    ensures
        r == route_of_channel(*channels, channel_id),
{
    if let Some(voice) = get_tts_voice_from_channel_id(channels, channel_id) {
        return Route::Speech(voice);
    }
    if channel_id == channels.low_quality {
        return Route::Vision(Detail::Low);
    }
    if channel_id == channels.high_quality {
        return Route::Vision(Detail::High);
    }
    let quality = if channel_id == channels.dalle3_hd {
        Quality::Hd
    } else {
        Quality::Standard
    };
    if channel_id == channels.dalle2 {
        return Route::Image(Model::DallE2, quality);
    }
    if channel_id == channels.dalle3 || channel_id == channels.dalle3_hd {
        return Route::Image(Model::DallE3, quality);
    }
    Route::Ignored
}

/// Whether a message is looked at: it was written by a person, it is an
/// ordinary message, and its author holds the role that the service asks
/// for.
pub fn should_handle(author_is_bot: bool, is_regular: bool, author_has_role: bool) -> (r: bool)
    ensures
        r == (!author_is_bot && is_regular && author_has_role),
{
    !author_is_bot && is_regular && author_has_role
}

} // verus!
