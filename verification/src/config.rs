//! The configuration of an invocation, resolved from what the command line
//! and the environment gave.

use vstd::prelude::*;
use crate::error::AskError;

verus! {

/// The model that is asked where none is named.
pub const DEFAULT_MODEL: &'static str = "gpt-4o-mini";

/// The system prompt where none is given.
pub const DEFAULT_PROMPT: &'static str = "You are a friendly assistant.";

/// The sampling temperature where none is given.
pub const DEFAULT_TEMPERATURE: &'static str = "0.75";

/// The token budget of the reply where none is given.
pub const DEFAULT_MAX_TOKENS: usize = 100;

/// A text parameter as it was given: by its flag on the command line, by its
/// environment variable, by both or by neither.
#[derive(Debug, PartialEq, Eq)]
pub struct GivenText {
    pub flag: Option<String>,
    pub env: Option<String>,
}

/// A numeric parameter as it was given.
#[derive(Debug, PartialEq, Eq)]
pub struct GivenNumber {
    pub flag: Option<usize>,
    pub env: Option<usize>,
}

/// A parameter as mathematics sees it.
pub struct Given<T> {
    pub flag: Option<T>,
    pub env: Option<T>,
}

/// The characters of a text that may be missing.
pub open spec fn text_view(text: Option<String>) -> Option<Seq<char>> {
    match text {
        Some(t) => Some(t@),
        None => None,
    }
}

/// The number that may be missing.
pub open spec fn number_view(number: Option<usize>) -> Option<nat> {
    match number {
        Some(n) => Some(n as nat),
        None => None,
    }
}

impl View for GivenText {
    type V = Given<Seq<char>>;

    open spec fn view(&self) -> Given<Seq<char>> {
        Given { flag: text_view(self.flag), env: text_view(self.env) }
    }
}

impl View for GivenNumber {
    type V = Given<nat>;

    open spec fn view(&self) -> Given<nat> {
        Given { flag: number_view(self.flag), env: number_view(self.env) }
    }
}

impl<T> Given<T> {
    /// The value that counts: the flag's where the flag was given, else the
    /// environment's, else none.
    pub open spec fn chosen(self) -> Option<T> {
        match self.flag {
            Some(value) => Some(value),
            None => self.env,
        }
    }
}

/// What was given for an invocation: each parameter, and the trailing
/// arguments in order.
#[derive(Debug, PartialEq, Eq)]
pub struct Settings {
    pub key: GivenText,
    pub model: GivenText,
    pub prompt: GivenText,
    /// The sampling temperature, as the decimal text it was given in.
    pub temperature: GivenText,
    pub max_tokens: GivenNumber,
    pub input: Vec<String>,
}

/// Settings as mathematics sees them.
pub struct SettingsView {
    pub key: Given<Seq<char>>,
    pub model: Given<Seq<char>>,
    pub prompt: Given<Seq<char>>,
    pub temperature: Given<Seq<char>>,
    pub max_tokens: Given<nat>,
    pub input: Seq<Seq<char>>,
}

/// The characters of each word, in order.
pub open spec fn word_views(words: Seq<String>) -> Seq<Seq<char>> {
    words.map_values(|w: String| w@)
}

impl View for Settings {
    type V = SettingsView;

    open spec fn view(&self) -> SettingsView {
        SettingsView {
            key: self.key@,
            model: self.model@,
            prompt: self.prompt@,
            temperature: self.temperature@,
            max_tokens: self.max_tokens@,
            input: word_views(self.input@),
        }
    }
}

/// The configuration of one invocation. It is made once and never changed.
#[derive(Debug, PartialEq, Eq)]
pub struct Configuration {
    pub api_key: String,
    pub model: String,
    pub system_prompt: String,
    /// The sampling temperature, as the decimal text it was given in. It is
    /// accepted and kept, and no request carries it.
    pub temperature: String,
    pub max_tokens: usize,
    pub user_input: String,
}

/// A configuration as mathematics sees it.
pub struct ConfigurationView {
    pub api_key: Seq<char>,
    pub model: Seq<char>,
    pub system_prompt: Seq<char>,
    pub temperature: Seq<char>,
    pub max_tokens: nat,
    pub user_input: Seq<char>,
}

impl View for Configuration {
    type V = ConfigurationView;

    open spec fn view(&self) -> ConfigurationView {
        ConfigurationView {
            api_key: self.api_key@,
            model: self.model@,
            system_prompt: self.system_prompt@,
            temperature: self.temperature@,
            max_tokens: self.max_tokens as nat,
            user_input: self.user_input@,
        }
    }
}

/// The words with one space between each two.
pub open spec fn joined(words: Seq<Seq<char>>) -> Seq<char>
    decreases words.len(),
{
    if words.len() == 0 {
        Seq::empty()
    } else if words.len() == 1 {
        words[0]
    } else {
        joined(words.drop_last()) + " "@ + words.last()
    }
}

/// What was given, or else the default.
pub open spec fn given_or<T>(given: Option<T>, default: T) -> T {
    match given {
        Some(value) => value,
        None => default,
    }
}

/// The configuration that settings resolve to. For each parameter the flag
/// counts before the environment. The key has no default: where neither gave
/// it there is no configuration. Every other parameter falls back to its
/// default, and the trailing arguments are joined into the user's input.
pub open spec fn resolved(settings: SettingsView) -> Result<ConfigurationView, AskError> {
    match settings.key.chosen() {
        None => Err(AskError::Configuration),
        Some(key) => Ok(
            ConfigurationView {
                api_key: key,
                model: given_or(settings.model.chosen(), DEFAULT_MODEL@),
                system_prompt: given_or(settings.prompt.chosen(), DEFAULT_PROMPT@),
                temperature: given_or(settings.temperature.chosen(), DEFAULT_TEMPERATURE@),
                max_tokens: given_or(settings.max_tokens.chosen(), DEFAULT_MAX_TOKENS as nat),
                user_input: joined(settings.input),
            },
        ),
    }
}

/// Joined words are empty exactly where there is no word, or one word that
/// is itself empty: a space between two words already makes an input.
pub proof fn lemma_joined_is_empty(words: Seq<Seq<char>>)
    ensures
        joined(words).len() == 0 <==> (words.len() == 0 || (words.len() == 1 && words[0].len()
            == 0)),
{
    reveal_strlit(" ");
    if words.len() >= 2 {
        assert(joined(words) == joined(words.drop_last()) + " "@ + words.last());
        assert(joined(words).len() >= 1);
    }
}

/// Joins the words with single spaces.
pub fn join_words(words: &Vec<String>) -> (text: String)
    ensures
        text@ == joined(word_views(words@)),
{
    let ghost all = word_views(words@);
    let mut text = String::new();
    let mut i: usize = 0;
    assert(all.take(0) =~= Seq::<Seq<char>>::empty());
    while i < words.len()
        invariant
            i <= words.len(),
            all == word_views(words@),
            text@ == joined(all.take(i as int)),
        decreases words.len() - i,
    {
        if i > 0 {
            text.append(" ");
        }
        text.append(words[i].as_str());
        proof {
            let before = all.take(i as int);
            let after = all.take(i + 1);
            assert(after.drop_last() =~= before);
            assert(after.last() == words@[i as int]@);
            assert(text@ =~= joined(after));
        }
        i += 1;
    }
    assert(all.take(i as int) =~= all);
    text
}

impl GivenText {
    /// A parameter that was given by its flag, by its environment variable,
    /// by both or by neither.
    pub fn new(flag: Option<String>, env: Option<String>) -> (given: GivenText)
        ensures
            given@ == (Given { flag: text_view(flag), env: text_view(env) }),
    {
        GivenText { flag, env }
    }

    /// The value that counts, as [`Given::chosen`] defines it.
    pub fn pick(self) -> (value: Option<String>)
        ensures
            text_view(value) == self@.chosen(),
    {
        match self.flag {
            Some(value) => Some(value),
            None => self.env,
        }
    }

    /// The value that counts, or else the default.
    pub fn choose_or(self, default: &str) -> (value: String)
        ensures
            value@ == given_or(self@.chosen(), default@),
    {
        match self.pick() {
            Some(value) => value,
            None => default.to_owned(),
        }
    }
}

impl GivenNumber {
    /// A parameter that was given by its flag, by its environment variable,
    /// by both or by neither.
    pub fn new(flag: Option<usize>, env: Option<usize>) -> (given: GivenNumber)
        ensures
            given@ == (Given { flag: number_view(flag), env: number_view(env) }),
    {
        GivenNumber { flag, env }
    }

    /// The value that counts, as [`Given::chosen`] defines it.
    pub fn pick(self) -> (value: Option<usize>)
        ensures
            number_view(value) == self@.chosen(),
    {
        match self.flag {
            Some(value) => Some(value),
            None => self.env,
        }
    }

    /// The value that counts, or else the default.
    pub fn choose_or(self, default: usize) -> (value: usize)
        ensures
            value as nat == given_or(self@.chosen(), default as nat),
    {
        match self.pick() {
            Some(value) => value,
            None => default,
        }
    }
}

impl Settings {
    /// Resolves the settings into a configuration, or fails with
    /// [`AskError::Configuration`] where no key was given.
    pub fn resolve(self) -> (config: Result<Configuration, AskError>)
        ensures
            match config {
                Ok(c) => resolved(self@) == Ok::<ConfigurationView, AskError>(c@),
                Err(e) => resolved(self@) == Err::<ConfigurationView, AskError>(e),
            },
    {
        let user_input = join_words(&self.input);
        match self.key.pick() {
            None => Err(AskError::Configuration),
            Some(api_key) => Ok(
                Configuration {
                    api_key,
                    model: self.model.choose_or(DEFAULT_MODEL),
                    system_prompt: self.prompt.choose_or(DEFAULT_PROMPT),
                    temperature: self.temperature.choose_or(DEFAULT_TEMPERATURE),
                    max_tokens: self.max_tokens.choose_or(DEFAULT_MAX_TOKENS),
                    user_input,
                },
            ),
        }
    }
}

} // verus!
