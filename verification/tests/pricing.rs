use duckgpt::pricing::{
    calculate_cost, calculate_speech_cost, model_friendly_name, price_per_image, Model, Quality,
    Size, SPEECH_PRICE_PER_CHARACTER,
};

#[test]
fn newer_generator_prices() {
    let q = Some(Quality::Standard);
    assert_eq!(calculate_cost(Model::DallE3, q, Size::Size1024x1024, 1), 40_000);
    assert_eq!(calculate_cost(Model::DallE3, q, Size::Size1024x1792, 1), 80_000);
    assert_eq!(calculate_cost(Model::DallE3, q, Size::Size1792x1024, 1), 80_000);
    let q = Some(Quality::Hd);
    assert_eq!(calculate_cost(Model::DallE3, q, Size::Size1024x1024, 1), 80_000);
    assert_eq!(calculate_cost(Model::DallE3, q, Size::Size1024x1792, 1), 120_000);
    assert_eq!(calculate_cost(Model::DallE3, q, Size::Size1792x1024, 3), 360_000);
}

#[test]
fn older_generator_prices() {
    for q in [None, Some(Quality::Standard), Some(Quality::Hd)] {
        assert_eq!(calculate_cost(Model::DallE2, q, Size::Size1024x1024, 1), 20_000);
        assert_eq!(calculate_cost(Model::DallE2, q, Size::Size512x512, 2), 36_000);
        assert_eq!(calculate_cost(Model::DallE2, q, Size::Size256x256, 1), 16_000);
    }
}

#[test]
fn sizes_that_are_not_offered_have_no_price() {
    assert_eq!(price_per_image(Model::DallE3, Some(Quality::Hd), Size::Size512x512), None);
    assert_eq!(price_per_image(Model::DallE3, Some(Quality::Hd), Size::Size256x256), None);
    assert_eq!(price_per_image(Model::DallE3, Some(Quality::Standard), Size::Size256x256), None);
    assert_eq!(price_per_image(Model::DallE3, Some(Quality::Standard), Size::Size512x512), None);
    for size in [
        Size::Size256x256,
        Size::Size512x512,
        Size::Size1024x1024,
        Size::Size1792x1024,
        Size::Size1024x1792,
    ] {
        assert_eq!(price_per_image(Model::DallE3, None, size), None);
    }
    for q in [None, Some(Quality::Standard), Some(Quality::Hd)] {
        assert_eq!(price_per_image(Model::DallE2, q, Size::Size1792x1024), None);
        assert_eq!(price_per_image(Model::DallE2, q, Size::Size1024x1792), None);
    }
}

#[test]
fn sizes_that_are_offered_have_the_price_of_one_image() {
    assert_eq!(
        price_per_image(Model::DallE3, Some(Quality::Standard), Size::Size1024x1024),
        Some(40_000)
    );
    assert_eq!(
        price_per_image(Model::DallE3, Some(Quality::Hd), Size::Size1792x1024),
        Some(120_000)
    );
    assert_eq!(price_per_image(Model::DallE2, None, Size::Size512x512), Some(18_000));
    assert_eq!(price_per_image(Model::DallE2, Some(Quality::Hd), Size::Size256x256), Some(16_000));
}

#[test]
fn price_of_many_images_fits() {
    assert_eq!(
        calculate_cost(Model::DallE3, Some(Quality::Hd), Size::Size1024x1792, u32::MAX),
        120_000 * u32::MAX as u64
    );
    assert_eq!(calculate_cost(Model::DallE2, None, Size::Size512x512, 0), 0);
}

#[test]
fn friendly_names() {
    assert_eq!(model_friendly_name(Model::DallE2, Quality::Standard), "DALL·E 2");
    assert_eq!(model_friendly_name(Model::DallE2, Quality::Hd), "DALL·E 2");
    assert_eq!(model_friendly_name(Model::DallE3, Quality::Standard), "DALL·E 3");
    assert_eq!(model_friendly_name(Model::DallE3, Quality::Hd), "DALL·E 3 HD");
}

#[test]
fn speech_is_priced_by_the_byte() {
    assert_eq!(SPEECH_PRICE_PER_CHARACTER, 15);
    assert_eq!(calculate_speech_cost(""), 0);
    assert_eq!(calculate_speech_cost("hello"), 75);
    assert_eq!(calculate_speech_cost("é"), 30);
    assert_eq!(calculate_speech_cost(&"x".repeat(1000)), 15_000);
}
