//! The models that a user can choose between.

use vstd::prelude::*;

verus! {

/// The language models on offer.
#[derive(Clone, Copy, Debug, PartialEq, Eq, Structural)]
pub enum LLMModels {
    Mistral,
    Caveman,
    Racist,
    Lobotomy,
    Greentext,
}

/// The image models on offer.
#[derive(Clone, Copy, Debug, PartialEq, Eq, Structural)]
pub enum ImageModels {
    SDXLTurbo,
    StableCascade,
}

/// A place in a generation graph: the input `input` of the node `node`.
#[derive(Clone, Copy, Debug, PartialEq, Eq)]
pub struct Slot {
    pub node: &'static str,
    pub input: &'static str,
}

/// What a [`Slot`] holds, as plain values.
pub struct SlotView {
    pub node: Seq<char>,
    pub input: Seq<char>,
}

impl View for Slot {
    type V = SlotView;

    open spec fn view(&self) -> SlotView {
        SlotView { node: self.node@, input: self.input@ }
    }
}

/// The places in the graph of an image model that take a fresh random seed
/// for each job.
pub open spec fn seed_slots_of(model: ImageModels) -> Seq<SlotView> {
    match model {
        ImageModels::SDXLTurbo => seq![SlotView { node: "13"@, input: "noise_seed"@ }],
        ImageModels::StableCascade => seq![
            SlotView { node: "3"@, input: "seed"@ },
            SlotView { node: "33"@, input: "seed"@ },
        ],
    }
}

impl LLMModels {
    /// The name under which the model is offered for choice.
    pub fn choice_name(&self) -> (r: &'static str)
        ensures
            r@ == match *self {
                LLMModels::Mistral => "mistral"@,
                LLMModels::Caveman => "caveman"@,
                LLMModels::Racist => "racist"@,
                LLMModels::Lobotomy => "lobotomy"@,
                LLMModels::Greentext => "greentext"@,
            },
    {
        match self {
            LLMModels::Mistral => "mistral",
            LLMModels::Caveman => "caveman",
            LLMModels::Racist => "racist",
            LLMModels::Lobotomy => "lobotomy",
            LLMModels::Greentext => "greentext",
        }
    }

    /// The name by which the model server knows the model.
    pub fn model_name(&self) -> (r: &'static str)
        ensures
            r@ == match *self {
                LLMModels::Mistral => "dolphin-mistral"@,
                LLMModels::Caveman => "caveman-mistral"@,
                LLMModels::Racist => "racist-mistral"@,
                LLMModels::Lobotomy => "qwen:0.5b-chat-v1.5-q2_K"@,
                LLMModels::Greentext => "greentext-mistral"@,
            },
    {
        match self {
            LLMModels::Mistral => "dolphin-mistral",
            LLMModels::Caveman => "caveman-mistral",
            LLMModels::Racist => "racist-mistral",
            LLMModels::Lobotomy => "qwen:0.5b-chat-v1.5-q2_K",
            LLMModels::Greentext => "greentext-mistral",
        }
    }
}

impl ImageModels {
    /// The name under which the model is offered for choice.
    pub fn choice_name(&self) -> (r: &'static str)
        ensures
            r@ == match *self {
                ImageModels::SDXLTurbo => "SDXLTurbo"@,
                ImageModels::StableCascade => "StableCascade (SLOW)"@,
            },
    {
        match self {
            ImageModels::SDXLTurbo => "SDXLTurbo",
            ImageModels::StableCascade => "StableCascade (SLOW)",
        }
    }

    /// The name under which the model is shown to users.
    pub fn model_name(&self) -> (r: &'static str)
        ensures
            r@ == match *self {
                ImageModels::SDXLTurbo => "SDXL Turbo"@,
                ImageModels::StableCascade => "Stable Cascade"@,
            },
    {
        match self {
            ImageModels::SDXLTurbo => "SDXL Turbo",
            ImageModels::StableCascade => "Stable Cascade",
        }
    }

    /// The place in the model's graph that takes the user's prompt.
    pub fn prompt_slot(&self) -> (r: Slot)
        ensures
            r@ == (SlotView { node: "6"@, input: "text"@ }),
    {
        Slot { node: "6", input: "text" }
    }

    /// The places in the model's graph that take a fresh random seed.
    pub fn seed_slots(&self) -> (r: Vec<Slot>)
        ensures
            r@.map_values(|slot: Slot| slot@) == seed_slots_of(*self),
    {
        let mut slots: Vec<Slot> = Vec::new();
        match self {
            ImageModels::SDXLTurbo => {
                slots.push(Slot { node: "13", input: "noise_seed" });
            },
            ImageModels::StableCascade => {
                slots.push(Slot { node: "3", input: "seed" });
                slots.push(Slot { node: "33", input: "seed" });
            },
        }
        assert(slots@.map_values(|slot: Slot| slot@) =~= seed_slots_of(*self));
        slots
    }
}

} // verus!
