use nemollm::completion::CompletionConfig;
use nemollm::error::ClientError;
use nemollm::number::Float64;
use nemollm::steerlm::SteerLM;
use nemollm::wire::{
    decode_config, encode_config, ConfigKey, WireField, WireValue, NOT_A_CONFIGURATION,
};

const ALL_KEYS: [ConfigKey; 14] = [
    ConfigKey::TokensToGenerate,
    ConfigKey::LeftSpaceTrim,
    ConfigKey::Logprobs,
    ConfigKey::Temperature,
    ConfigKey::TopP,
    ConfigKey::TopK,
    ConfigKey::Stop,
    ConfigKey::RandomSeed,
    ConfigKey::RepetitionPenalty,
    ConfigKey::BeamSearchDiversityRate,
    ConfigKey::BeamWidth,
    ConfigKey::LengthPenalty,
    ConfigKey::Guardrail,
    ConfigKey::SteerLm,
];

fn refused() -> ClientError {
    ClientError::Transport { detail: NOT_A_CONFIGURATION.to_string() }
}

fn full_config() -> CompletionConfig {
    CompletionConfig {
        tokens_to_generate: Some(128),
        left_space_trim: false,
        logprobs: true,
        temperature: Float64::from_bits(0.35f64.to_bits()),
        top_p: Float64::from_bits(0.9f64.to_bits()),
        top_k: 40,
        stop: vec!["\n\n".to_string(), "Q:".to_string()],
        random_seed: -7,
        repetition_penalty: Float64::from_bits(1.2f64.to_bits()),
        beam_search_diversity_rate: Float64::from_bits(0.5f64.to_bits()),
        beam_width: 4,
        length_penalty: Float64::from_bits((-1.0f64).to_bits()),
        guardrail: Some("strict".to_string()),
        steer_lm: Some(SteerLM { quality: 9, humor: 3, lang: "en".to_string(), ..Default::default() }),
    }
}

#[test]
fn configuration_survives_the_round_trip() {
    for config in [CompletionConfig::default(), full_config()] {
        assert_eq!(decode_config(&encode_config(&config)), Ok(config));
    }
    let mut partly = full_config();
    partly.guardrail = None;
    assert_eq!(decode_config(&encode_config(&partly)), Ok(partly));
}

#[test]
fn absent_fields_are_left_out_not_sent_as_null() {
    let fields = encode_config(&CompletionConfig::default());
    let keys: Vec<ConfigKey> = fields.iter().map(|f| f.key).collect();
    assert_eq!(keys, ALL_KEYS[1..12].to_vec());
    assert!(fields.iter().all(|f| f.value != WireValue::Null));

    let fields = encode_config(&full_config());
    let keys: Vec<ConfigKey> = fields.iter().map(|f| f.key).collect();
    assert_eq!(keys, ALL_KEYS.to_vec());
    assert!(fields.iter().all(|f| f.value != WireValue::Null));
}

#[test]
fn encoded_values_are_those_of_the_configuration() {
    let fields = encode_config(&full_config());
    assert_eq!(fields[0], WireField { key: ConfigKey::TokensToGenerate, value: WireValue::Integer(128) });
    assert_eq!(fields[1], WireField { key: ConfigKey::LeftSpaceTrim, value: WireValue::Bool(false) });
    assert_eq!(
        fields[3],
        WireField {
            key: ConfigKey::Temperature,
            value: WireValue::Number(Float64::from_bits(0.35f64.to_bits()))
        }
    );
    assert_eq!(
        fields[6],
        WireField {
            key: ConfigKey::Stop,
            value: WireValue::Texts(vec!["\n\n".to_string(), "Q:".to_string()])
        }
    );
    assert_eq!(
        fields[12],
        WireField { key: ConfigKey::Guardrail, value: WireValue::Text("strict".to_string()) }
    );
}

#[test]
fn field_names_are_those_of_the_wire() {
    let names: Vec<&str> = ALL_KEYS.iter().map(|k| k.name()).collect();
    assert_eq!(
        names,
        vec![
            "tokens_to_generate",
            "left_space_trim",
            "logprobs",
            "temperature",
            "top_p",
            "top_k",
            "stop",
            "random_seed",
            "repetition_penalty",
            "beam_search_diversity_rate",
            "beam_width",
            "length_penalty",
            "guardrail",
            "steer_lm",
        ]
    );
    for key in ALL_KEYS {
        assert_eq!(ConfigKey::from_name(key.name()), Some(key));
    }
    assert_eq!(ConfigKey::from_name("prompt"), None);
    assert_eq!(ConfigKey::from_name("Top_k"), None);
    assert_eq!(ConfigKey::from_name(""), None);
}

#[test]
fn a_null_optional_field_reads_as_absent() {
    let mut fields = encode_config(&CompletionConfig::default());
    fields.push(WireField { key: ConfigKey::Guardrail, value: WireValue::Null });
    fields.push(WireField { key: ConfigKey::TokensToGenerate, value: WireValue::Null });
    fields.push(WireField { key: ConfigKey::SteerLm, value: WireValue::Null });
    assert_eq!(decode_config(&fields), Ok(CompletionConfig::default()));
}

#[test]
fn an_object_without_a_required_field_is_refused() {
    for missing in 0..11 {
        let mut fields = encode_config(&CompletionConfig::default());
        fields.remove(missing);
        assert_eq!(decode_config(&fields), Err(refused()));
    }
    assert_eq!(decode_config(&vec![]), Err(refused()));
}

#[test]
fn a_field_of_the_wrong_kind_is_refused() {
    for key in ALL_KEYS {
        let mut fields = vec![WireField { key, value: WireValue::Texts(vec![]) }];
        fields.extend(encode_config(&full_config()));
        if key == ConfigKey::Stop {
            let mut expected = full_config();
            expected.stop = vec![];
            assert_eq!(decode_config(&fields), Ok(expected));
        } else {
            assert_eq!(decode_config(&fields), Err(refused()));
        }
    }
    let mut fields = encode_config(&CompletionConfig::default());
    fields[4] = WireField { key: ConfigKey::TopK, value: WireValue::Null };
    assert_eq!(decode_config(&fields), Err(refused()));
}

#[test]
fn of_two_fields_with_one_key_the_first_counts() {
    let mut fields = vec![WireField { key: ConfigKey::TopK, value: WireValue::Integer(99) }];
    fields.extend(encode_config(&CompletionConfig::default()));
    let config = decode_config(&fields).unwrap();
    assert_eq!(config.top_k, 99);
}
