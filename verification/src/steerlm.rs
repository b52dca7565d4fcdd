//! Steering attributes: sliders that bias the style of a completion.

use vstd::prelude::*;

verus! {

/// The steering attributes sent alongside a completion request.
#[derive(Default, Debug, Clone, PartialEq, Eq)]
pub struct SteerLM {
    pub quality: i64,
    pub toxicity: i64,
    pub humor: i64,
    pub creativity: i64,
    pub violence: i64,
    pub helpfulness: i64,
    pub not_appropriate: i64,
    pub hate_speech: i64,
    pub sexual_content: i64,
    pub fails_task: i64,
    pub political_content: i64,
    pub moral_judgement: i64,
    pub lang: String,
}

/// The mathematical content of a [`SteerLM`].
pub struct SteerLMView {
    pub quality: i64,
    pub toxicity: i64,
    pub humor: i64,
    pub creativity: i64,
    pub violence: i64,
    pub helpfulness: i64,
    pub not_appropriate: i64,
    pub hate_speech: i64,
    pub sexual_content: i64,
    pub fails_task: i64,
    pub political_content: i64,
    pub moral_judgement: i64,
    pub lang: Seq<char>,
}

impl View for SteerLM {
    type V = SteerLMView;

    open spec fn view(&self) -> SteerLMView {
        SteerLMView {
            quality: self.quality,
            toxicity: self.toxicity,
            humor: self.humor,
            creativity: self.creativity,
            violence: self.violence,
            helpfulness: self.helpfulness,
            not_appropriate: self.not_appropriate,
            hate_speech: self.hate_speech,
            sexual_content: self.sexual_content,
            fails_task: self.fails_task,
            political_content: self.political_content,
            moral_judgement: self.moral_judgement,
            lang: self.lang@,
        }
    }
}

} // verus!
