use duckgpt::pricing::{Model, Quality};
use duckgpt::routing::{
    get_tts_voice_from_channel_id, is_image_channel, is_vision_channel, route, should_handle,
    Channels, Detail, Route, Voice,
};

fn channels() -> Channels {
    Channels {
        alloy: 1,
        echo: 2,
        fable: 3,
        onyx: 4,
        nova: 5,
        shimmer: 6,
        low_quality: 7,
        high_quality: 8,
        dalle2: 9,
        dalle3: 10,
        dalle3_hd: 11,
    }
}

#[test]
fn each_voice_has_its_channel() {
    let c = channels();
    assert_eq!(get_tts_voice_from_channel_id(&c, 1), Some(Voice::Alloy));
    assert_eq!(get_tts_voice_from_channel_id(&c, 2), Some(Voice::Echo));
    assert_eq!(get_tts_voice_from_channel_id(&c, 3), Some(Voice::Fable));
    assert_eq!(get_tts_voice_from_channel_id(&c, 4), Some(Voice::Onyx));
    assert_eq!(get_tts_voice_from_channel_id(&c, 5), Some(Voice::Nova));
    assert_eq!(get_tts_voice_from_channel_id(&c, 6), Some(Voice::Shimmer));
    assert_eq!(get_tts_voice_from_channel_id(&c, 7), None);
    assert_eq!(get_tts_voice_from_channel_id(&c, 0), None);
}

#[test]
fn voice_and_detail_names() {
    assert_eq!(Voice::Alloy.name(), "alloy");
    assert_eq!(Voice::Echo.name(), "echo");
    assert_eq!(Voice::Fable.name(), "fable");
    assert_eq!(Voice::Onyx.name(), "onyx");
    assert_eq!(Voice::Nova.name(), "nova");
    assert_eq!(Voice::Shimmer.name(), "shimmer");
    assert_eq!(Detail::Low.name(), "low");
    assert_eq!(Detail::High.name(), "high");
}

#[test]
fn channels_are_told_apart() {
    let c = channels();
    assert!(is_vision_channel(&c, 7));
    assert!(is_vision_channel(&c, 8));
    assert!(!is_vision_channel(&c, 9));
    assert!(is_image_channel(&c, 9));
    assert!(is_image_channel(&c, 10));
    assert!(is_image_channel(&c, 11));
    assert!(!is_image_channel(&c, 8));
    assert!(!is_image_channel(&c, 12));
}

#[test]
fn messages_are_routed_by_channel() {
    let c = channels();
    assert_eq!(route(&c, 3), Route::Speech(Voice::Fable));
    assert_eq!(route(&c, 7), Route::Vision(Detail::Low));
    assert_eq!(route(&c, 8), Route::Vision(Detail::High));
    assert_eq!(route(&c, 9), Route::Image(Model::DallE2, Quality::Standard));
    assert_eq!(route(&c, 10), Route::Image(Model::DallE3, Quality::Standard));
    assert_eq!(route(&c, 11), Route::Image(Model::DallE3, Quality::Hd));
    assert_eq!(route(&c, 12), Route::Ignored);
}

#[test]
fn speech_comes_first_where_a_channel_is_listed_twice() {
    let mut c = channels();
    c.low_quality = 1;
    c.dalle2 = 1;
    assert_eq!(route(&c, 1), Route::Speech(Voice::Alloy));
    c.alloy = 100;
    assert_eq!(route(&c, 1), Route::Vision(Detail::Low));
    c.echo = 100;
    assert_eq!(route(&c, 100), Route::Speech(Voice::Alloy));
}

#[test]
fn high_quality_channel_decides_the_quality_alone() {
    let mut c = channels();
    c.dalle3_hd = c.dalle2;
    assert_eq!(route(&c, 9), Route::Image(Model::DallE2, Quality::Hd));
    assert!(is_image_channel(&c, 9));
    let mut c = channels();
    c.dalle3_hd = c.dalle3;
    assert_eq!(route(&c, 10), Route::Image(Model::DallE3, Quality::Hd));
    assert_eq!(route(&c, 9), Route::Image(Model::DallE2, Quality::Standard));
    assert_eq!(route(&c, 11), Route::Ignored);
}

#[test]
fn only_ordinary_messages_of_members_are_handled() {
    assert!(should_handle(false, true, true));
    assert!(!should_handle(true, true, true));
    assert!(!should_handle(false, false, true));
    assert!(!should_handle(false, true, false));
    assert!(!should_handle(true, false, false));
}
