//! The wire form of a generation configuration.
//!
//! On the wire a configuration is an object: a list of named fields. A field
//! that is optional and absent is left out of the object; it is never sent as
//! a null. Reading an object back accepts a null for an optional field, as a
//! peer may send one. Turning the object into text and back is the carrier's
//! business; which fields there are, what they are called, and when one is
//! left out is decided here.

use crate::completion::{CompletionConfig, CompletionConfigView};
use crate::error::{ClientError, ClientErrorView};
use crate::number::Float64;
use crate::steerlm::{SteerLM, SteerLMView};
use vstd::prelude::*;
use vstd::string::*;

verus! {

/// What is reported for an object that is no configuration.
pub const NOT_A_CONFIGURATION: &'static str = "object is not a generation configuration";

/// The fields of a configuration.
#[derive(Debug, Clone, Copy, PartialEq, Eq, Structural)]
pub enum ConfigKey {
    TokensToGenerate,
    LeftSpaceTrim,
    Logprobs,
    Temperature,
    TopP,
    TopK,
    Stop,
    RandomSeed,
    RepetitionPenalty,
    BeamSearchDiversityRate,
    BeamWidth,
    LengthPenalty,
    Guardrail,
    SteerLm,
}

/// The value of one field.
#[derive(Debug, Clone, PartialEq, Eq)]
pub enum WireValue {
    Null,
    Bool(bool),
    Integer(i64),
    Number(Float64),
    Text(String),
    Texts(Vec<String>),
    Steering(SteerLM),
}

/// One field of an object.
#[derive(Debug, Clone, PartialEq, Eq)]
pub struct WireField {
    pub key: ConfigKey,
    pub value: WireValue,
}

/// The mathematical content of a [`WireValue`].
pub enum WireValueView {
    Null,
    Bool(bool),
    Integer(i64),
    Number(Float64),
    Text(Seq<char>),
    Texts(Seq<Seq<char>>),
    Steering(SteerLMView),
}

/// The mathematical content of a [`WireField`].
pub struct WireFieldView {
    pub key: ConfigKey,
    pub value: WireValueView,
}

impl View for WireValue {
    type V = WireValueView;

    open spec fn view(&self) -> WireValueView {
        match *self {
            WireValue::Null => WireValueView::Null,
            WireValue::Bool(b) => WireValueView::Bool(b),
            WireValue::Integer(i) => WireValueView::Integer(i),
            WireValue::Number(x) => WireValueView::Number(x),
            WireValue::Text(s) => WireValueView::Text(s@),
            WireValue::Texts(v) => WireValueView::Texts(v@.map_values(|s: String| s@)),
            WireValue::Steering(s) => WireValueView::Steering(s@),
        }
    }
}

impl View for WireField {
    type V = WireFieldView;

    open spec fn view(&self) -> WireFieldView {
        WireFieldView { key: self.key, value: self.value@ }
    }
}

/// The fields of an object, each by its view.
pub open spec fn fields_view(fields: Seq<WireField>) -> Seq<WireFieldView> {
    fields.map_values(|f: WireField| f@)
}

/// The name of a field on the wire.
pub open spec fn key_name(key: ConfigKey) -> Seq<char> {
    match key {
        ConfigKey::TokensToGenerate => "tokens_to_generate"@,
        ConfigKey::LeftSpaceTrim => "left_space_trim"@,
        ConfigKey::Logprobs => "logprobs"@,
        ConfigKey::Temperature => "temperature"@,
        ConfigKey::TopP => "top_p"@,
        ConfigKey::TopK => "top_k"@,
        ConfigKey::Stop => "stop"@,
        ConfigKey::RandomSeed => "random_seed"@,
        ConfigKey::RepetitionPenalty => "repetition_penalty"@,
        ConfigKey::BeamSearchDiversityRate => "beam_search_diversity_rate"@,
        ConfigKey::BeamWidth => "beam_width"@,
        ConfigKey::LengthPenalty => "length_penalty"@,
        ConfigKey::Guardrail => "guardrail"@,
        ConfigKey::SteerLm => "steer_lm"@,
    }
}

/// The field that is called `name` on the wire, if there is one.
pub open spec fn key_named(name: Seq<char>) -> Option<ConfigKey> {
    if name == "tokens_to_generate"@ {
        Some(ConfigKey::TokensToGenerate)
    } else if name == "left_space_trim"@ {
        Some(ConfigKey::LeftSpaceTrim)
    } else if name == "logprobs"@ {
        Some(ConfigKey::Logprobs)
    } else if name == "temperature"@ {
        Some(ConfigKey::Temperature)
    } else if name == "top_p"@ {
        Some(ConfigKey::TopP)
    } else if name == "top_k"@ {
        Some(ConfigKey::TopK)
    } else if name == "stop"@ {
        Some(ConfigKey::Stop)
    } else if name == "random_seed"@ {
        Some(ConfigKey::RandomSeed)
    } else if name == "repetition_penalty"@ {
        Some(ConfigKey::RepetitionPenalty)
    } else if name == "beam_search_diversity_rate"@ {
        Some(ConfigKey::BeamSearchDiversityRate)
    } else if name == "beam_width"@ {
        Some(ConfigKey::BeamWidth)
    } else if name == "length_penalty"@ {
        Some(ConfigKey::LengthPenalty)
    } else if name == "guardrail"@ {
        Some(ConfigKey::Guardrail)
    } else if name == "steer_lm"@ {
        Some(ConfigKey::SteerLm)
    } else {
        None
    }
}

impl ConfigKey {
    /// The name of this field on the wire.
    pub fn name(&self) -> (name: &'static str)
        ensures
            name@ == key_name(*self),
    {
        match self {
            ConfigKey::TokensToGenerate => "tokens_to_generate",
            ConfigKey::LeftSpaceTrim => "left_space_trim",
            ConfigKey::Logprobs => "logprobs",
            ConfigKey::Temperature => "temperature",
            ConfigKey::TopP => "top_p",
            ConfigKey::TopK => "top_k",
            ConfigKey::Stop => "stop",
            ConfigKey::RandomSeed => "random_seed",
            ConfigKey::RepetitionPenalty => "repetition_penalty",
            ConfigKey::BeamSearchDiversityRate => "beam_search_diversity_rate",
            ConfigKey::BeamWidth => "beam_width",
            ConfigKey::LengthPenalty => "length_penalty",
            ConfigKey::Guardrail => "guardrail",
            ConfigKey::SteerLm => "steer_lm",
        }
    }

    /// The field that is called `name` on the wire, if there is one.
    pub fn from_name(name: &str) -> (key: Option<ConfigKey>)
        ensures
            key == key_named(name@),
    {
        let name = String::from_str(name);
        if name == String::from_str("tokens_to_generate") {
            Some(ConfigKey::TokensToGenerate)
        } else if name == String::from_str("left_space_trim") {
            Some(ConfigKey::LeftSpaceTrim)
        } else if name == String::from_str("logprobs") {
            Some(ConfigKey::Logprobs)
        } else if name == String::from_str("temperature") {
            Some(ConfigKey::Temperature)
        } else if name == String::from_str("top_p") {
            Some(ConfigKey::TopP)
        } else if name == String::from_str("top_k") {
            Some(ConfigKey::TopK)
        } else if name == String::from_str("stop") {
            Some(ConfigKey::Stop)
        } else if name == String::from_str("random_seed") {
            Some(ConfigKey::RandomSeed)
        } else if name == String::from_str("repetition_penalty") {
            Some(ConfigKey::RepetitionPenalty)
        } else if name == String::from_str("beam_search_diversity_rate") {
            Some(ConfigKey::BeamSearchDiversityRate)
        } else if name == String::from_str("beam_width") {
            Some(ConfigKey::BeamWidth)
        } else if name == String::from_str("length_penalty") {
            Some(ConfigKey::LengthPenalty)
        } else if name == String::from_str("guardrail") {
            Some(ConfigKey::Guardrail)
        } else if name == String::from_str("steer_lm") {
            Some(ConfigKey::SteerLm)
        } else {
            None
        }
    }
}

/// No two fields share a name: the field called by the name of `key` is
/// `key`.
pub proof fn law_names_tell_fields_apart(key: ConfigKey)
    ensures
        key_named(key_name(key)) == Some(key),
{
    reveal_strlit("tokens_to_generate");
    reveal_strlit("left_space_trim");
    reveal_strlit("logprobs");
    reveal_strlit("temperature");
    reveal_strlit("top_p");
    reveal_strlit("top_k");
    reveal_strlit("stop");
    reveal_strlit("random_seed");
    reveal_strlit("repetition_penalty");
    reveal_strlit("beam_search_diversity_rate");
    reveal_strlit("beam_width");
    reveal_strlit("length_penalty");
    reveal_strlit("guardrail");
    reveal_strlit("steer_lm");
    // Names of one length differ in a letter; all others differ in length.
    assert("tokens_to_generate"@.len() == 18);
    assert("left_space_trim"@.len() == 15);
    assert("logprobs"@.len() == 8);
    assert("temperature"@.len() == 11);
    assert("top_p"@.len() == 5);
    assert("top_k"@.len() == 5);
    assert("stop"@.len() == 4);
    assert("random_seed"@.len() == 11);
    assert("repetition_penalty"@.len() == 18);
    assert("beam_search_diversity_rate"@.len() == 26);
    assert("beam_width"@.len() == 10);
    assert("length_penalty"@.len() == 14);
    assert("guardrail"@.len() == 9);
    assert("steer_lm"@.len() == 8);
    assert("tokens_to_generate"@[0] != "repetition_penalty"@[0]);
    assert("logprobs"@[0] != "steer_lm"@[0]);
    assert("temperature"@[0] != "random_seed"@[0]);
    assert("top_p"@[4] != "top_k"@[4]);
}

/// The field `key` with `value`, if there is a value.
pub open spec fn optional_field(key: ConfigKey, value: Option<WireValueView>) -> Seq<
    WireFieldView,
> {
    match value {
        Some(v) => seq![WireFieldView { key, value: v }],
        None => Seq::empty(),
    }
}

/// The fields that are always sent.
pub open spec fn required_fields(c: CompletionConfigView) -> Seq<WireFieldView> {
    seq![
        WireFieldView { key: ConfigKey::LeftSpaceTrim, value: WireValueView::Bool(c.left_space_trim) },
        WireFieldView { key: ConfigKey::Logprobs, value: WireValueView::Bool(c.logprobs) },
        WireFieldView { key: ConfigKey::Temperature, value: WireValueView::Number(c.temperature) },
        WireFieldView { key: ConfigKey::TopP, value: WireValueView::Number(c.top_p) },
        WireFieldView { key: ConfigKey::TopK, value: WireValueView::Integer(c.top_k) },
        WireFieldView { key: ConfigKey::Stop, value: WireValueView::Texts(c.stop) },
        WireFieldView { key: ConfigKey::RandomSeed, value: WireValueView::Integer(c.random_seed) },
        WireFieldView {
            key: ConfigKey::RepetitionPenalty,
            value: WireValueView::Number(c.repetition_penalty),
        },
        WireFieldView {
            key: ConfigKey::BeamSearchDiversityRate,
            value: WireValueView::Number(c.beam_search_diversity_rate),
        },
        WireFieldView { key: ConfigKey::BeamWidth, value: WireValueView::Integer(c.beam_width) },
        WireFieldView {
            key: ConfigKey::LengthPenalty,
            value: WireValueView::Number(c.length_penalty),
        },
    ]
}

/// The object that a configuration is sent as: its fields in the order in
/// which the configuration declares them, without those that are absent.
pub open spec fn wire_of(c: CompletionConfigView) -> Seq<WireFieldView> {
    optional_field(
        ConfigKey::TokensToGenerate,
        match c.tokens_to_generate {
            Some(n) => Some(WireValueView::Integer(n)),
            None => None,
        },
    ) + required_fields(c) + optional_field(
        ConfigKey::Guardrail,
        match c.guardrail {
            Some(g) => Some(WireValueView::Text(g)),
            None => None,
        },
    ) + optional_field(
        ConfigKey::SteerLm,
        match c.steer_lm {
            Some(s) => Some(WireValueView::Steering(s)),
            None => None,
        },
    )
}

/// The value of the first field of `fields` with the key `key`.
pub open spec fn find(fields: Seq<WireFieldView>, key: ConfigKey) -> Option<WireValueView>
    decreases fields.len(),
{
    if fields.len() == 0 {
        None
    } else if fields[0].key == key {
        Some(fields[0].value)
    } else {
        find(fields.drop_first(), key)
    }
}

/// A truth value that must be there.
pub open spec fn as_bool(v: Option<WireValueView>) -> Option<bool> {
    match v {
        Some(WireValueView::Bool(b)) => Some(b),
        _ => None,
    }
}

/// A whole number that must be there.
pub open spec fn as_integer(v: Option<WireValueView>) -> Option<i64> {
    match v {
        Some(WireValueView::Integer(i)) => Some(i),
        _ => None,
    }
}

/// A number that must be there.
pub open spec fn as_number(v: Option<WireValueView>) -> Option<Float64> {
    match v {
        Some(WireValueView::Number(x)) => Some(x),
        _ => None,
    }
}

/// A list of texts that must be there.
pub open spec fn as_texts(v: Option<WireValueView>) -> Option<Seq<Seq<char>>> {
    match v {
        Some(WireValueView::Texts(t)) => Some(t),
        _ => None,
    }
}

/// A whole number that may be missing or null. The outer `None` is for a
/// value of another kind.
pub open spec fn as_optional_integer(v: Option<WireValueView>) -> Option<Option<i64>> {
    match v {
        None => Some(None),
        Some(WireValueView::Null) => Some(None),
        Some(WireValueView::Integer(i)) => Some(Some(i)),
        _ => None,
    }
}

/// A text that may be missing or null.
pub open spec fn as_optional_text(v: Option<WireValueView>) -> Option<Option<Seq<char>>> {
    match v {
        None => Some(None),
        Some(WireValueView::Null) => Some(None),
        Some(WireValueView::Text(t)) => Some(Some(t)),
        _ => None,
    }
}

/// Steering attributes that may be missing or null.
pub open spec fn as_optional_steering(v: Option<WireValueView>) -> Option<Option<SteerLMView>> {
    match v {
        None => Some(None),
        Some(WireValueView::Null) => Some(None),
        Some(WireValueView::Steering(s)) => Some(Some(s)),
        _ => None,
    }
}

/// Whether `fields` holds every field that must be there, and each field it
/// holds is of its kind.
pub open spec fn well_typed(fields: Seq<WireFieldView>) -> bool {
    &&& as_optional_integer(find(fields, ConfigKey::TokensToGenerate)) is Some
    &&& as_bool(find(fields, ConfigKey::LeftSpaceTrim)) is Some
    &&& as_bool(find(fields, ConfigKey::Logprobs)) is Some
    &&& as_number(find(fields, ConfigKey::Temperature)) is Some
    &&& as_number(find(fields, ConfigKey::TopP)) is Some
    &&& as_integer(find(fields, ConfigKey::TopK)) is Some
    &&& as_texts(find(fields, ConfigKey::Stop)) is Some
    &&& as_integer(find(fields, ConfigKey::RandomSeed)) is Some
    &&& as_number(find(fields, ConfigKey::RepetitionPenalty)) is Some
    &&& as_number(find(fields, ConfigKey::BeamSearchDiversityRate)) is Some
    &&& as_integer(find(fields, ConfigKey::BeamWidth)) is Some
    &&& as_number(find(fields, ConfigKey::LengthPenalty)) is Some
    &&& as_optional_text(find(fields, ConfigKey::Guardrail)) is Some
    &&& as_optional_steering(find(fields, ConfigKey::SteerLm)) is Some
}

/// The configuration that a well-typed object stands for.
pub open spec fn config_of(fields: Seq<WireFieldView>) -> CompletionConfigView {
    CompletionConfigView {
        tokens_to_generate: as_optional_integer(find(fields, ConfigKey::TokensToGenerate))->0,
        left_space_trim: as_bool(find(fields, ConfigKey::LeftSpaceTrim))->0,
        logprobs: as_bool(find(fields, ConfigKey::Logprobs))->0,
        temperature: as_number(find(fields, ConfigKey::Temperature))->0,
        top_p: as_number(find(fields, ConfigKey::TopP))->0,
        top_k: as_integer(find(fields, ConfigKey::TopK))->0,
        stop: as_texts(find(fields, ConfigKey::Stop))->0,
        random_seed: as_integer(find(fields, ConfigKey::RandomSeed))->0,
        repetition_penalty: as_number(find(fields, ConfigKey::RepetitionPenalty))->0,
        beam_search_diversity_rate: as_number(
            find(fields, ConfigKey::BeamSearchDiversityRate),
        )->0,
        beam_width: as_integer(find(fields, ConfigKey::BeamWidth))->0,
        length_penalty: as_number(find(fields, ConfigKey::LengthPenalty))->0,
        guardrail: as_optional_text(find(fields, ConfigKey::Guardrail))->0,
        steer_lm: as_optional_steering(find(fields, ConfigKey::SteerLm))->0,
    }
}

/// A field is found in the first part of an object if it is there, else in
/// the second.
pub proof fn law_find_in_parts(
    first: Seq<WireFieldView>,
    second: Seq<WireFieldView>,
    key: ConfigKey,
)
    ensures
        find(first + second, key) == match find(first, key) {
            Some(v) => Some(v),
            None => find(second, key),
        },
    decreases first.len(),
{
    if first.len() == 0 {
        assert(first + second =~= second);
    } else {
        assert((first + second)[0] == first[0]);
        assert((first + second).drop_first() =~= first.drop_first() + second);
        law_find_in_parts(first.drop_first(), second, key);
    }
}

/// What is found in the object of a configuration: each field that is
/// always sent, and an optional field exactly when it is present.
pub proof fn law_wire_holds_each_field(c: CompletionConfigView, key: ConfigKey)
    ensures
        find(wire_of(c), key) == match key {
            ConfigKey::TokensToGenerate => match c.tokens_to_generate {
                Some(n) => Some(WireValueView::Integer(n)),
                None => None,
            },
            ConfigKey::LeftSpaceTrim => Some(WireValueView::Bool(c.left_space_trim)),
            ConfigKey::Logprobs => Some(WireValueView::Bool(c.logprobs)),
            ConfigKey::Temperature => Some(WireValueView::Number(c.temperature)),
            ConfigKey::TopP => Some(WireValueView::Number(c.top_p)),
            ConfigKey::TopK => Some(WireValueView::Integer(c.top_k)),
            ConfigKey::Stop => Some(WireValueView::Texts(c.stop)),
            ConfigKey::RandomSeed => Some(WireValueView::Integer(c.random_seed)),
            ConfigKey::RepetitionPenalty => Some(WireValueView::Number(c.repetition_penalty)),
            ConfigKey::BeamSearchDiversityRate => Some(
                WireValueView::Number(c.beam_search_diversity_rate),
            ),
            ConfigKey::BeamWidth => Some(WireValueView::Integer(c.beam_width)),
            ConfigKey::LengthPenalty => Some(WireValueView::Number(c.length_penalty)),
            ConfigKey::Guardrail => match c.guardrail {
                Some(g) => Some(WireValueView::Text(g)),
                None => None,
            },
            ConfigKey::SteerLm => match c.steer_lm {
                Some(s) => Some(WireValueView::Steering(s)),
                None => None,
            },
        },
{
    let a = optional_field(
        ConfigKey::TokensToGenerate,
        match c.tokens_to_generate {
            Some(n) => Some(WireValueView::Integer(n)),
            None => None,
        },
    );
    let b = required_fields(c);
    let g = optional_field(
        ConfigKey::Guardrail,
        match c.guardrail {
            Some(g) => Some(WireValueView::Text(g)),
            None => None,
        },
    );
    let s = optional_field(
        ConfigKey::SteerLm,
        match c.steer_lm {
            Some(s) => Some(WireValueView::Steering(s)),
            None => None,
        },
    );
    law_find_in_parts(a + b + g, s, key);
    law_find_in_parts(a + b, g, key);
    law_find_in_parts(a, b, key);
    lemma_find_in_one(a, key);
    lemma_find_in_one(g, key);
    lemma_find_in_one(s, key);
    lemma_find_required(c, key);
}

proof fn lemma_find_in_one(fields: Seq<WireFieldView>, key: ConfigKey)
    requires
        fields.len() <= 1,
    ensures
        find(fields, key) == if fields.len() == 1 && fields[0].key == key {
            Some(fields[0].value)
        } else {
            None
        },
{
    reveal_with_fuel(find, 2);
    if fields.len() == 1 {
        assert(fields.drop_first().len() == 0);
    }
}

proof fn lemma_find_required(c: CompletionConfigView, key: ConfigKey)
    ensures
        find(required_fields(c), key) == match key {
            ConfigKey::LeftSpaceTrim => Some(WireValueView::Bool(c.left_space_trim)),
            ConfigKey::Logprobs => Some(WireValueView::Bool(c.logprobs)),
            ConfigKey::Temperature => Some(WireValueView::Number(c.temperature)),
            ConfigKey::TopP => Some(WireValueView::Number(c.top_p)),
            ConfigKey::TopK => Some(WireValueView::Integer(c.top_k)),
            ConfigKey::Stop => Some(WireValueView::Texts(c.stop)),
            ConfigKey::RandomSeed => Some(WireValueView::Integer(c.random_seed)),
            ConfigKey::RepetitionPenalty => Some(WireValueView::Number(c.repetition_penalty)),
            ConfigKey::BeamSearchDiversityRate => Some(
                WireValueView::Number(c.beam_search_diversity_rate),
            ),
            ConfigKey::BeamWidth => Some(WireValueView::Integer(c.beam_width)),
            ConfigKey::LengthPenalty => Some(WireValueView::Number(c.length_penalty)),
            _ => None,
        },
{
    let f = required_fields(c);
    lemma_find_from(f, key, 0);
    reveal_with_fuel(find_from, 12);
    assert(f.len() == 11);
}

/// The first field with the key `key` at or after place `from`.
spec fn find_from(fields: Seq<WireFieldView>, key: ConfigKey, from: int) -> Option<WireValueView>
    decreases fields.len() - from,
{
    if from < 0 || from >= fields.len() {
        None
    } else if fields[from].key == key {
        Some(fields[from].value)
    } else {
        find_from(fields, key, from + 1)
    }
}

proof fn lemma_find_from(fields: Seq<WireFieldView>, key: ConfigKey, from: int)
    requires
        0 <= from <= fields.len(),
    ensures
        find(fields.skip(from), key) == find_from(fields, key, from),
        from == 0 ==> find(fields, key) == find_from(fields, key, 0),
    decreases fields.len() - from,
{
    assert(fields.skip(0) =~= fields);
    if from < fields.len() {
        assert(fields.skip(from)[0] == fields[from]);
        assert(fields.skip(from).drop_first() =~= fields.skip(from + 1));
        lemma_find_from(fields, key, from + 1);
    }
}

/// Round trip: a configuration that is sent and read back is the same
/// configuration, field for field.
pub proof fn law_wire_round_trip(c: CompletionConfigView)
    ensures
        well_typed(wire_of(c)),
        config_of(wire_of(c)) == c,
{
    law_wire_holds_each_field(c, ConfigKey::TokensToGenerate);
    law_wire_holds_each_field(c, ConfigKey::LeftSpaceTrim);
    law_wire_holds_each_field(c, ConfigKey::Logprobs);
    law_wire_holds_each_field(c, ConfigKey::Temperature);
    law_wire_holds_each_field(c, ConfigKey::TopP);
    law_wire_holds_each_field(c, ConfigKey::TopK);
    law_wire_holds_each_field(c, ConfigKey::Stop);
    law_wire_holds_each_field(c, ConfigKey::RandomSeed);
    law_wire_holds_each_field(c, ConfigKey::RepetitionPenalty);
    law_wire_holds_each_field(c, ConfigKey::BeamSearchDiversityRate);
    law_wire_holds_each_field(c, ConfigKey::BeamWidth);
    law_wire_holds_each_field(c, ConfigKey::LengthPenalty);
    law_wire_holds_each_field(c, ConfigKey::Guardrail);
    law_wire_holds_each_field(c, ConfigKey::SteerLm);
}

/// An absent optional field is left out of the object, and no field of the
/// object is a null: what is absent never comes back as present-but-null.
pub proof fn law_absent_fields_are_omitted(c: CompletionConfigView)
    ensures
        c.tokens_to_generate is None <==> find(wire_of(c), ConfigKey::TokensToGenerate) is None,
        c.guardrail is None <==> find(wire_of(c), ConfigKey::Guardrail) is None,
        c.steer_lm is None <==> find(wire_of(c), ConfigKey::SteerLm) is None,
        forall|i: int| 0 <= i < wire_of(c).len() ==> !((#[trigger] wire_of(c)[i]).value is Null),
{
    law_wire_holds_each_field(c, ConfigKey::TokensToGenerate);
    law_wire_holds_each_field(c, ConfigKey::Guardrail);
    law_wire_holds_each_field(c, ConfigKey::SteerLm);
}

/// The texts of a list of strings.
pub open spec fn texts_view(texts: Seq<String>) -> Seq<Seq<char>> {
    texts.map_values(|s: String| s@)
}

fn copy_texts(texts: &Vec<String>) -> (copy: Vec<String>)
    ensures
        texts_view(copy@) == texts_view(texts@),
{
    let mut copy: Vec<String> = Vec::new();
    let mut i: usize = 0;
    while i < texts.len()
        invariant
            i <= texts.len(),
            copy.len() == i,
            forall|k: int| 0 <= k < i ==> copy[k]@ == texts[k]@,
        decreases texts.len() - i,
    {
        copy.push(texts[i].clone());
        i += 1;
    }
    assert(texts_view(copy@) =~= texts_view(texts@));
    copy
}

fn copy_steering(s: &SteerLM) -> (copy: SteerLM)
    ensures
        copy@ == s@,
{
    SteerLM {
        quality: s.quality,
        toxicity: s.toxicity,
        humor: s.humor,
        creativity: s.creativity,
        violence: s.violence,
        helpfulness: s.helpfulness,
        not_appropriate: s.not_appropriate,
        hate_speech: s.hate_speech,
        sexual_content: s.sexual_content,
        fails_task: s.fails_task,
        political_content: s.political_content,
        moral_judgement: s.moral_judgement,
        lang: s.lang.clone(),
    }
}

fn push_field(fields: &mut Vec<WireField>, key: ConfigKey, value: WireValue)
    ensures
        fields_view(final(fields)@) == fields_view(old(fields)@).push(
            WireFieldView { key, value: value@ },
        ),
{
    fields.push(WireField { key, value });
    assert(fields_view(fields@) =~= fields_view(old(fields)@).push(
        WireFieldView { key, value: value@ },
    ));
}

/// Writes a configuration as the object it is sent as.
pub fn encode_config(config: &CompletionConfig) -> (fields: Vec<WireField>)
    ensures
        fields_view(fields@) == wire_of(config@),
{
    let mut fields: Vec<WireField> = Vec::new();
    assert(fields_view(fields@) =~= Seq::empty());
    if let Some(n) = config.tokens_to_generate {
        push_field(&mut fields, ConfigKey::TokensToGenerate, WireValue::Integer(n));
    }
    push_field(&mut fields, ConfigKey::LeftSpaceTrim, WireValue::Bool(config.left_space_trim));
    push_field(&mut fields, ConfigKey::Logprobs, WireValue::Bool(config.logprobs));
    push_field(&mut fields, ConfigKey::Temperature, WireValue::Number(config.temperature));
    push_field(&mut fields, ConfigKey::TopP, WireValue::Number(config.top_p));
    push_field(&mut fields, ConfigKey::TopK, WireValue::Integer(config.top_k));
    let stop = copy_texts(&config.stop);
    push_field(&mut fields, ConfigKey::Stop, WireValue::Texts(stop));
    push_field(&mut fields, ConfigKey::RandomSeed, WireValue::Integer(config.random_seed));
    push_field(
        &mut fields,
        ConfigKey::RepetitionPenalty,
        WireValue::Number(config.repetition_penalty),
    );
    push_field(
        &mut fields,
        ConfigKey::BeamSearchDiversityRate,
        WireValue::Number(config.beam_search_diversity_rate),
    );
    push_field(&mut fields, ConfigKey::BeamWidth, WireValue::Integer(config.beam_width));
    push_field(&mut fields, ConfigKey::LengthPenalty, WireValue::Number(config.length_penalty));
    if let Some(g) = &config.guardrail {
        push_field(&mut fields, ConfigKey::Guardrail, WireValue::Text(g.clone()));
    }
    if let Some(s) = &config.steer_lm {
        push_field(&mut fields, ConfigKey::SteerLm, WireValue::Steering(copy_steering(s)));
    }
    assert(fields_view(fields@) =~= wire_of(config@));
    fields
}

fn lookup<'a>(fields: &'a Vec<WireField>, key: ConfigKey) -> (value: Option<&'a WireValue>)
    ensures
        match find(fields_view(fields@), key) {
            Some(v) => value matches Some(x) && x@ == v,
            None => value is None,
        },
{
    let ghost all = fields_view(fields@);
    let mut i: usize = 0;
    assert(all.skip(0) =~= all);
    while i < fields.len()
        invariant
            i <= fields.len(),
            all == fields_view(fields@),
            find(all.skip(i as int), key) == find(all, key),
        decreases fields.len() - i,
    {
        assert(all.skip(i as int)[0] == fields@[i as int]@);
        assert(all.skip(i as int).drop_first() =~= all.skip(i + 1));
        if fields[i].key == key {
            return Some(&fields[i].value);
        }
        i += 1;
    }
    assert(all.skip(i as int).len() == 0);
    None
}

fn get_bool(fields: &Vec<WireField>, key: ConfigKey) -> (value: Option<bool>)
    ensures
        value == as_bool(find(fields_view(fields@), key)),
{
    match lookup(fields, key) {
        Some(WireValue::Bool(b)) => Some(*b),
        _ => None,
    }
}

fn get_integer(fields: &Vec<WireField>, key: ConfigKey) -> (value: Option<i64>)
    ensures
        value == as_integer(find(fields_view(fields@), key)),
{
    match lookup(fields, key) {
        Some(WireValue::Integer(i)) => Some(*i),
        _ => None,
    }
}

fn get_number(fields: &Vec<WireField>, key: ConfigKey) -> (value: Option<Float64>)
    ensures
        value == as_number(find(fields_view(fields@), key)),
{
    match lookup(fields, key) {
        Some(WireValue::Number(x)) => Some(*x),
        _ => None,
    }
}

fn get_texts(fields: &Vec<WireField>, key: ConfigKey) -> (value: Option<Vec<String>>)
    ensures
        match as_texts(find(fields_view(fields@), key)) {
            Some(t) => value matches Some(v) && texts_view(v@) == t,
            None => value is None,
        },
{
    match lookup(fields, key) {
        Some(WireValue::Texts(t)) => Some(copy_texts(t)),
        _ => None,
    }
}

fn get_optional_integer(fields: &Vec<WireField>, key: ConfigKey) -> (value: Option<Option<i64>>)
    ensures
        value == as_optional_integer(find(fields_view(fields@), key)),
{
    match lookup(fields, key) {
        None => Some(None),
        Some(WireValue::Null) => Some(None),
        Some(WireValue::Integer(i)) => Some(Some(*i)),
        _ => None,
    }
}

fn get_optional_text(fields: &Vec<WireField>, key: ConfigKey) -> (value: Option<Option<String>>)
    ensures
        match as_optional_text(find(fields_view(fields@), key)) {
            Some(Some(t)) => value matches Some(Some(s)) && s@ == t,
            Some(None) => value == Some(None::<String>),
            None => value is None,
        },
{
    match lookup(fields, key) {
        None => Some(None),
        Some(WireValue::Null) => Some(None),
        Some(WireValue::Text(t)) => Some(Some(t.clone())),
        _ => None,
    }
}

fn get_optional_steering(fields: &Vec<WireField>, key: ConfigKey) -> (value: Option<
    Option<SteerLM>,
>)
    ensures
        match as_optional_steering(find(fields_view(fields@), key)) {
            Some(Some(t)) => value matches Some(Some(s)) && s@ == t,
            Some(None) => value == Some(None::<SteerLM>),
            None => value is None,
        },
{
    match lookup(fields, key) {
        None => Some(None),
        Some(WireValue::Null) => Some(None),
        Some(WireValue::Steering(s)) => Some(Some(copy_steering(s))),
        _ => None,
    }
}

fn not_a_configuration() -> (e: ClientError)
    ensures
        e@ == (ClientErrorView::Transport { detail: NOT_A_CONFIGURATION@ }),
{
    ClientError::Transport { detail: String::from_str(NOT_A_CONFIGURATION) }
}

/// Reads a configuration back from an object. Of two fields with one key
/// the first counts. An object that lacks a field that is always sent, or
/// holds a field of the wrong kind, is refused.
pub fn decode_config(fields: &Vec<WireField>) -> (r: Result<CompletionConfig, ClientError>)
    ensures
        well_typed(fields_view(fields@)) ==> (r matches Ok(c) && c@ == config_of(
            fields_view(fields@),
        )),
        !well_typed(fields_view(fields@)) ==> (r matches Err(e) && e@ == (
        ClientErrorView::Transport { detail: NOT_A_CONFIGURATION@ })),
{
    let tokens_to_generate = match get_optional_integer(fields, ConfigKey::TokensToGenerate) {
        Some(v) => v,
        None => {
            return Err(not_a_configuration());
        },
    };
    let left_space_trim = match get_bool(fields, ConfigKey::LeftSpaceTrim) {
        Some(v) => v,
        None => {
            return Err(not_a_configuration());
        },
    };
    let logprobs = match get_bool(fields, ConfigKey::Logprobs) {
        Some(v) => v,
        None => {
            return Err(not_a_configuration());
        },
    };
    let temperature = match get_number(fields, ConfigKey::Temperature) {
        Some(v) => v,
        None => {
            return Err(not_a_configuration());
        },
    };
    let top_p = match get_number(fields, ConfigKey::TopP) {
        Some(v) => v,
        None => {
            return Err(not_a_configuration());
        },
    };
    let top_k = match get_integer(fields, ConfigKey::TopK) {
        Some(v) => v,
        None => {
            return Err(not_a_configuration());
        },
    };
    let stop = match get_texts(fields, ConfigKey::Stop) {
        Some(v) => v,
        None => {
            return Err(not_a_configuration());
        },
    };
    let random_seed = match get_integer(fields, ConfigKey::RandomSeed) {
        Some(v) => v,
        None => {
            return Err(not_a_configuration());
        },
    };
    let repetition_penalty = match get_number(fields, ConfigKey::RepetitionPenalty) {
        Some(v) => v,
        None => {
            return Err(not_a_configuration());
        },
    };
    let beam_search_diversity_rate = match get_number(
        fields,
        ConfigKey::BeamSearchDiversityRate,
    ) {
        Some(v) => v,
        None => {
            return Err(not_a_configuration());
        },
    };
    let beam_width = match get_integer(fields, ConfigKey::BeamWidth) {
        Some(v) => v,
        None => {
            return Err(not_a_configuration());
        },
    };
    let length_penalty = match get_number(fields, ConfigKey::LengthPenalty) {
        Some(v) => v,
        None => {
            return Err(not_a_configuration());
        },
    };
    let guardrail = match get_optional_text(fields, ConfigKey::Guardrail) {
        Some(v) => v,
        None => {
            return Err(not_a_configuration());
        },
    };
    let steer_lm = match get_optional_steering(fields, ConfigKey::SteerLm) {
        Some(v) => v,
        None => {
            return Err(not_a_configuration());
        },
    };
    Ok(
        CompletionConfig {
            tokens_to_generate,
            left_space_trim,
            logprobs,
            temperature,
            top_p,
            top_k,
            stop,
            random_seed,
            repetition_penalty,
            beam_search_diversity_rate,
            beam_width,
            length_penalty,
            guardrail,
            steer_lm,
        },
    )
}

} // verus!
