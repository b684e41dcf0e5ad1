use duckgpt::models::{ImageModels, LLMModels, Slot};

#[test]
fn language_models_have_their_names() {
    assert_eq!(LLMModels::Mistral.model_name(), "dolphin-mistral");
    assert_eq!(LLMModels::Caveman.model_name(), "caveman-mistral");
    assert_eq!(LLMModels::Racist.model_name(), "racist-mistral");
    assert_eq!(LLMModels::Lobotomy.model_name(), "qwen:0.5b-chat-v1.5-q2_K");
    assert_eq!(LLMModels::Greentext.model_name(), "greentext-mistral");
    assert_eq!(LLMModels::Mistral.choice_name(), "mistral");
    assert_eq!(LLMModels::Caveman.choice_name(), "caveman");
    assert_eq!(LLMModels::Racist.choice_name(), "racist");
    assert_eq!(LLMModels::Lobotomy.choice_name(), "lobotomy");
    assert_eq!(LLMModels::Greentext.choice_name(), "greentext");
}

#[test]
fn image_models_have_their_names() {
    assert_eq!(ImageModels::SDXLTurbo.model_name(), "SDXL Turbo");
    assert_eq!(ImageModels::StableCascade.model_name(), "Stable Cascade");
    assert_eq!(ImageModels::SDXLTurbo.choice_name(), "SDXLTurbo");
    assert_eq!(ImageModels::StableCascade.choice_name(), "StableCascade (SLOW)");
}

#[test]
fn image_models_have_their_slots() {
    let prompt = Slot { node: "6", input: "text" };
    assert_eq!(ImageModels::SDXLTurbo.prompt_slot(), prompt);
    assert_eq!(ImageModels::StableCascade.prompt_slot(), prompt);
    assert_eq!(
        ImageModels::SDXLTurbo.seed_slots(),
        vec![Slot { node: "13", input: "noise_seed" }]
    );
    assert_eq!(
        ImageModels::StableCascade.seed_slots(),
        vec![Slot { node: "3", input: "seed" }, Slot { node: "33", input: "seed" }]
    );
}
