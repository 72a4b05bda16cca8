use openai_ask::config::{
    join_words, Configuration, GivenNumber, GivenText, Settings, DEFAULT_MAX_TOKENS,
    DEFAULT_MODEL, DEFAULT_PROMPT, DEFAULT_TEMPERATURE,
};
use openai_ask::error::AskError;

fn words(items: &[&str]) -> Vec<String> {
    items.iter().map(|w| w.to_string()).collect()
}

fn flag(value: &str) -> GivenText {
    GivenText::new(Some(value.to_string()), None)
}

fn env(value: &str) -> GivenText {
    GivenText::new(None, Some(value.to_string()))
}

fn both(flag: &str, env: &str) -> GivenText {
    GivenText::new(Some(flag.to_string()), Some(env.to_string()))
}

fn absent() -> GivenText {
    GivenText::new(None, None)
}

fn only_key(input: &[&str]) -> Settings {
    Settings {
        key: flag("sk-test"),
        model: absent(),
        prompt: absent(),
        temperature: absent(),
        max_tokens: GivenNumber::new(None, None),
        input: words(input),
    }
}

#[test]
fn flag_counts_before_environment() {
    assert_eq!(both("f", "e").pick(), Some("f".to_string()));
    assert_eq!(flag("f").pick(), Some("f".to_string()));
    assert_eq!(env("e").pick(), Some("e".to_string()));
    assert_eq!(absent().pick(), None);
    assert_eq!(GivenNumber::new(Some(1), Some(2)).pick(), Some(1));
    assert_eq!(GivenNumber::new(None, Some(2)).pick(), Some(2));
    assert_eq!(GivenNumber::new(Some(1), None).pick(), Some(1));
    assert_eq!(GivenNumber::new(None, None).pick(), None);
}

#[test]
fn default_counts_last() {
    assert_eq!(both("f", "e").choose_or("d"), "f");
    assert_eq!(env("e").choose_or("d"), "e");
    assert_eq!(absent().choose_or("d"), "d");
    assert_eq!(flag("").choose_or("d"), "");
    assert_eq!(GivenNumber::new(None, Some(0)).choose_or(100), 0);
    assert_eq!(GivenNumber::new(None, None).choose_or(100), 100);
}

#[test]
fn resolve_takes_each_parameter_from_the_environment() {
    let settings = Settings {
        key: env("sk-env"),
        model: env("gpt-env"),
        prompt: env("prompt-env"),
        temperature: env("1.5"),
        max_tokens: GivenNumber::new(None, Some(256)),
        input: words(&["hello"]),
    };
    assert_eq!(
        settings.resolve(),
        Ok(Configuration {
            api_key: "sk-env".to_string(),
            model: "gpt-env".to_string(),
            system_prompt: "prompt-env".to_string(),
            temperature: "1.5".to_string(),
            max_tokens: 256,
            user_input: "hello".to_string(),
        })
    );
}

#[test]
fn resolve_lets_flags_override_the_environment() {
    let settings = Settings {
        key: both("sk-flag", "sk-env"),
        model: both("gpt-flag", "gpt-env"),
        prompt: both("prompt-flag", "prompt-env"),
        temperature: both("0.1", "1.5"),
        max_tokens: GivenNumber::new(Some(8), Some(256)),
        input: words(&["hello"]),
    };
    assert_eq!(
        settings.resolve(),
        Ok(Configuration {
            api_key: "sk-flag".to_string(),
            model: "gpt-flag".to_string(),
            system_prompt: "prompt-flag".to_string(),
            temperature: "0.1".to_string(),
            max_tokens: 8,
            user_input: "hello".to_string(),
        })
    );
}

#[test]
fn defaults_are_the_documented_ones() {
    assert_eq!(DEFAULT_MODEL, "gpt-4o-mini");
    assert_eq!(DEFAULT_PROMPT, "You are a friendly assistant.");
    assert_eq!(DEFAULT_TEMPERATURE, "0.75");
    assert_eq!(DEFAULT_MAX_TOKENS, 100);
}

#[test]
fn join_words_puts_one_space_between_words() {
    assert_eq!(join_words(&words(&["hello"])), "hello");
    assert_eq!(join_words(&words(&["what", "is", "rust?"])), "what is rust?");
    assert_eq!(join_words(&words(&["a b", "c"])), "a b c");
}

#[test]
fn join_words_of_nothing_is_empty() {
    assert_eq!(join_words(&words(&[])), "");
    assert_eq!(join_words(&words(&[""])), "");
}

#[test]
fn join_words_keeps_empty_words_apart() {
    assert_eq!(join_words(&words(&["", ""])), " ");
    assert_eq!(join_words(&words(&["a", "", "b"])), "a  b");
    assert_eq!(join_words(&words(&["", "x"])), " x");
}

#[test]
fn join_words_agrees_with_the_standard_library() {
    let cases: Vec<Vec<String>> = vec![
        words(&[]),
        words(&["one"]),
        words(&["one", "two"]),
        words(&["", "", ""]),
        words(&["\u{e9}t\u{e9}", "\u{1F600}", " "]),
    ];
    for case in cases {
        assert_eq!(join_words(&case), case.join(" "));
    }
}

#[test]
fn resolve_fills_in_every_default() {
    assert_eq!(
        only_key(&["hello", "world"]).resolve(),
        Ok(Configuration {
            api_key: "sk-test".to_string(),
            model: "gpt-4o-mini".to_string(),
            system_prompt: "You are a friendly assistant.".to_string(),
            temperature: "0.75".to_string(),
            max_tokens: 100,
            user_input: "hello world".to_string(),
        })
    );
}

#[test]
fn resolve_prefers_what_was_given() {
    let settings = Settings {
        key: flag("sk-other"),
        model: flag("gpt-4o"),
        prompt: flag("Hi"),
        temperature: flag("0.2"),
        max_tokens: GivenNumber::new(Some(7), None),
        input: words(&["hello"]),
    };
    assert_eq!(
        settings.resolve(),
        Ok(Configuration {
            api_key: "sk-other".to_string(),
            model: "gpt-4o".to_string(),
            system_prompt: "Hi".to_string(),
            temperature: "0.2".to_string(),
            max_tokens: 7,
            user_input: "hello".to_string(),
        })
    );
}

#[test]
fn resolve_keeps_given_values_that_are_empty_or_zero() {
    let settings = Settings {
        key: env(""),
        model: flag(""),
        prompt: env(""),
        temperature: flag(""),
        max_tokens: GivenNumber::new(Some(0), None),
        input: words(&[]),
    };
    assert_eq!(
        settings.resolve(),
        Ok(Configuration {
            api_key: String::new(),
            model: String::new(),
            system_prompt: String::new(),
            temperature: String::new(),
            max_tokens: 0,
            user_input: String::new(),
        })
    );
}

#[test]
fn resolve_without_key_is_a_configuration_error() {
    let mut settings = only_key(&["hello"]);
    settings.key = absent();
    assert_eq!(settings.resolve(), Err(AskError::Configuration));
}

#[test]
fn resolve_without_key_fails_whatever_else_is_given() {
    let settings = Settings {
        key: absent(),
        model: flag("gpt-4o"),
        prompt: env("Hi"),
        temperature: flag("0.2"),
        max_tokens: GivenNumber::new(Some(7), Some(9)),
        input: words(&[]),
    };
    assert_eq!(settings.resolve(), Err(AskError::Configuration));
}
