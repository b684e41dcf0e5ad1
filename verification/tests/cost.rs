use duckgpt::cost::{
    calculate_image_token_cost, convert_tokens_to_cost, ADDITIONAL_COST,
    HIGH_DETAIL_COST_PER_TILE, INPUT_TOKEN_PRICE, LOW_DETAIL_COST, OUTPUT_TOKEN_PRICE,
};
use duckgpt::error::ClientError;

#[test]
fn square_image_at_high_detail_takes_four_tiles() {
    assert_eq!(calculate_image_token_cost(1024, 1024, "high"), Ok(765));
}

#[test]
fn wide_image_over_the_bound_takes_six_tiles() {
    assert_eq!(calculate_image_token_cost(4096, 2048, "high"), Ok(1105));
}

#[test]
fn unknown_detail_level_is_refused() {
    assert_eq!(calculate_image_token_cost(100, 100, "medium"), Err(ClientError::InvalidInput));
    assert_eq!(calculate_image_token_cost(100, 100, ""), Err(ClientError::InvalidInput));
    assert_eq!(calculate_image_token_cost(100, 100, "High"), Err(ClientError::InvalidInput));
}

#[test]
fn low_detail_costs_the_same_for_every_size() {
    let sizes: [(u32, u32); 7] =
        [(0, 0), (1, 1), (100, 100), (4096, 2048), (1, 5000), (u32::MAX, u32::MAX), (0, 17)];
    for (w, h) in sizes {
        assert_eq!(calculate_image_token_cost(w, h, "low"), Ok(LOW_DETAIL_COST));
    }
    assert_eq!(LOW_DETAIL_COST, 85);
}

#[test]
fn high_detail_cost_is_tiles_times_rate_plus_base() {
    assert_eq!(HIGH_DETAIL_COST_PER_TILE, 170);
    assert_eq!(ADDITIONAL_COST, 85);
    // 3:2, scaled to 1152 x 768: three tiles by two.
    assert_eq!(calculate_image_token_cost(3, 2, "high"), Ok(6 * 170 + 85));
    // 4000 x 3000 shrinks to 2048 x 1536, then scales to 1024 x 768.
    assert_eq!(calculate_image_token_cost(4000, 3000, "high"), Ok(4 * 170 + 85));
    // tall images are treated like wide ones
    assert_eq!(calculate_image_token_cost(2048, 4096, "high"), Ok(1105));
}

#[test]
fn image_with_a_side_of_zero_is_costed_at_the_longest_side() {
    // 2 tiles along the side of 768 pixels, 8388608 along the longest side
    let longest: u32 = 2 * 8_388_608 * 170 + 85;
    assert_eq!(longest, 2_852_126_805);
    assert_eq!(calculate_image_token_cost(0, 100, "high"), Ok(longest));
    assert_eq!(calculate_image_token_cost(100, 0, "high"), Ok(longest));
    assert_eq!(calculate_image_token_cost(0, 5000, "high"), Ok(longest));
    assert_eq!(calculate_image_token_cost(5000, 0, "high"), Ok(longest));
    assert_eq!(calculate_image_token_cost(u32::MAX, 0, "high"), Ok(longest));
}

#[test]
fn image_without_any_extent_costs_the_base_only() {
    assert_eq!(calculate_image_token_cost(0, 0, "high"), Ok(85));
}

#[test]
fn image_too_thin_to_shrink_is_costed_at_the_longest_side() {
    assert_eq!(calculate_image_token_cost(4096, 1, "high"), Ok(1_044_565));
    assert_eq!(calculate_image_token_cost(4097, 1, "high"), Ok(2_852_126_805));
    assert_eq!(calculate_image_token_cost(1, 4096, "high"), Ok(1_044_565));
    assert_eq!(calculate_image_token_cost(1, 4097, "high"), Ok(2_852_126_805));
    assert_eq!(calculate_image_token_cost(1, 5000, "high"), Ok(2_852_126_805));
    assert_eq!(calculate_image_token_cost(u32::MAX, 1, "high"), Ok(2_852_126_805));
    assert_eq!(calculate_image_token_cost(u32::MAX, u32::MAX, "high"), Ok(765));
}

#[test]
fn every_size_has_a_cost_at_both_levels() {
    let sides: [u32; 9] = [0, 1, 2, 767, 768, 2048, 2049, 1_000_000, u32::MAX];
    for w in sides {
        for h in sides {
            assert_eq!(calculate_image_token_cost(w, h, "low"), Ok(85));
            let high = calculate_image_token_cost(w, h, "high").unwrap();
            if w >= 1 && h >= 1 {
                assert!(high >= 765, "{}x{}", w, h);
                assert_eq!((high - 85) % 340, 0, "{}x{}", w, h);
            }
            assert!(convert_tokens_to_cost(u32::MAX, u32::MAX, w, h, "high").is_ok());
        }
    }
}

#[test]
fn images_of_the_same_proportions_cost_the_same_within_the_bound() {
    let base = calculate_image_token_cost(3, 2, "high");
    for k in [2u32, 5, 100, 600] {
        assert_eq!(calculate_image_token_cost(3 * k, 2 * k, "high"), base);
    }
}

#[test]
fn larger_image_of_the_same_proportions_costs_no_less_when_it_shrinks_exactly() {
    let small = calculate_image_token_cost(1024, 512, "high").unwrap();
    let large = calculate_image_token_cost(4096, 2048, "high").unwrap();
    assert!(small <= large);
}

#[test]
fn rounding_of_the_shrink_can_cost_a_tile() {
    assert_eq!(calculate_image_token_cost(1870, 701, "high"), Ok(1785));
    assert_eq!(calculate_image_token_cost(3740, 1402, "high"), Ok(1445));
}

#[test]
fn request_cost_adds_the_three_parts() {
    assert_eq!(INPUT_TOKEN_PRICE, 10);
    assert_eq!(OUTPUT_TOKEN_PRICE, 30);
    assert_eq!(
        convert_tokens_to_cost(1000, 500, 1024, 1024, "high"),
        Ok(1000 * 10 + (500 + 765) * 30)
    );
    assert_eq!(convert_tokens_to_cost(0, 0, 7, 9, "low"), Ok(85 * 30));
}

#[test]
fn request_cost_is_linear_in_each_token_count() {
    let base = convert_tokens_to_cost(100, 200, 800, 600, "high").unwrap();
    assert_eq!(convert_tokens_to_cost(100 + 41, 200, 800, 600, "high"), Ok(base + 41 * 10));
    assert_eq!(convert_tokens_to_cost(100, 200 + 41, 800, 600, "high"), Ok(base + 41 * 30));
}

#[test]
fn request_cost_fits_for_the_largest_counts() {
    let image: u64 = 2_852_126_805;
    assert_eq!(
        convert_tokens_to_cost(u32::MAX, u32::MAX, 4097, 1, "high"),
        Ok(u32::MAX as u64 * 10 + (u32::MAX as u64 + image) * 30)
    );
}

#[test]
fn request_cost_refuses_an_unknown_detail_level() {
    assert_eq!(
        convert_tokens_to_cost(1, 1, 100, 100, "medium"),
        Err(ClientError::InvalidInput)
    );
    assert_eq!(convert_tokens_to_cost(1, 1, 0, 100, "high"), Ok(10 + (1 + 2_852_126_805) * 30));
}
