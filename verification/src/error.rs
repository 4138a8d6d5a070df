//! What can be wrong with the attributes of a declaration.

use vstd::prelude::*;

verus! {

/// A form in which an attribute can be asked for.
#[derive(Debug, Clone, Copy, PartialEq, Eq, Hash)]
pub enum ExpectedForm {
    /// `#[name = "something"]`
    NameValue,
    /// `#[name(something)]`
    List,
}

/// An attribute that is there, but not as it must be. No error stands for an
/// attribute that is absent where it may be absent.
#[derive(Debug, PartialEq, Eq, Hash)]
pub enum ConfigError {
    /// The value of `name` has not the form that was asked for.
    MalformedAnnotationShape { name: String, expected: ExpectedForm },
    /// The list of `name` does not hold exactly one identifier.
    AmbiguousOrMissingIdentifier { name: String },
    /// The options hold none named `name`, which is required.
    MissingRequiredOption { name: String },
    /// `options` is no list, or an entry of the list is a literal.
    MalformedOptionsGroup,
}

/// The value of a [`ConfigError`].
pub enum ConfigErrorView {
    MalformedAnnotationShape { name: Seq<char>, expected: ExpectedForm },
    AmbiguousOrMissingIdentifier { name: Seq<char> },
    MissingRequiredOption { name: Seq<char> },
    MalformedOptionsGroup,
}

impl View for ConfigError {
    type V = ConfigErrorView;

    open spec fn view(&self) -> ConfigErrorView {
        match self {
            ConfigError::MalformedAnnotationShape { name, expected } => {
                ConfigErrorView::MalformedAnnotationShape { name: name@, expected: *expected }
            },
            ConfigError::AmbiguousOrMissingIdentifier { name } => {
                ConfigErrorView::AmbiguousOrMissingIdentifier { name: name@ }
            },
            ConfigError::MissingRequiredOption { name } => {
                ConfigErrorView::MissingRequiredOption { name: name@ }
            },
            ConfigError::MalformedOptionsGroup => ConfigErrorView::MalformedOptionsGroup,
        }
    }
}

/// The value of an answer: the value of what was found, or that of the
/// error.
pub open spec fn answer<T: DeepView>(value: Result<T, ConfigError>) -> Result<
    T::V,
    ConfigErrorView,
> {
    match value {
        Ok(found) => Ok(found.deep_view()),
        Err(e) => Err(e@),
    }
}

/// The sentence that tells a user how `name` must be written:
/// `` `name` must be in the form `#[name="something"]` `` for a name with a
/// value, `` `name` must be in the form `#[name(something)]` `` for a list.
pub open spec fn must_be_in_form(name: Seq<char>, expected: ExpectedForm) -> Seq<char> {
    "`"@ + name + "` must be in the form `#["@ + name + match expected {
        ExpectedForm::NameValue => "=\"something\"]`"@,
        ExpectedForm::List => "(something)]`"@,
    }
}

impl ConfigErrorView {
    /// The sentence for an error about the form of one attribute. The other
    /// errors have none: the caller words them, who knows where in the source
    /// the declaration stands.
    pub open spec fn message(self) -> Option<Seq<char>> {
        match self {
            ConfigErrorView::MalformedAnnotationShape { name, expected } => Some(
                must_be_in_form(name, expected),
            ),
            ConfigErrorView::AmbiguousOrMissingIdentifier { name } => Some(
                must_be_in_form(name, ExpectedForm::List),
            ),
            ConfigErrorView::MissingRequiredOption { name } => None,
            ConfigErrorView::MalformedOptionsGroup => None,
        }
    }
}

/// Writes out [`must_be_in_form`].
fn form_sentence(name: &str, expected: ExpectedForm) -> (text: String)
    ensures
        text@ == must_be_in_form(name@, expected),
{
    let mut text = "`".to_owned();
    text.append(name);
    text.append("` must be in the form `#[");
    text.append(name);
    match expected {
        ExpectedForm::NameValue => text.append("=\"something\"]`"),
        ExpectedForm::List => text.append("(something)]`"),
    }
    text
}

impl ConfigError {
    /// The sentence with which to report the error, where it has one.
    pub fn message(&self) -> (text: Option<String>)
        ensures
            match text {
                Some(t) => self@.message() == Some(t@),
                None => self@.message() is None,
            },
    {
        match self {
            ConfigError::MalformedAnnotationShape { name, expected } => Some(
                form_sentence(name.as_str(), *expected),
            ),
            ConfigError::AmbiguousOrMissingIdentifier { name } => Some(
                form_sentence(name.as_str(), ExpectedForm::List),
            ),
            ConfigError::MissingRequiredOption { name } => None,
            ConfigError::MalformedOptionsGroup => None,
        }
    }
}

impl Clone for ConfigError {
    fn clone(&self) -> (copy: ConfigError)
        ensures
            copy@ == self@,
    {
        match self {
            ConfigError::MalformedAnnotationShape { name, expected } => {
                ConfigError::MalformedAnnotationShape { name: name.clone(), expected: *expected }
            },
            ConfigError::AmbiguousOrMissingIdentifier { name } => {
                ConfigError::AmbiguousOrMissingIdentifier { name: name.clone() }
            },
            ConfigError::MissingRequiredOption { name } => {
                ConfigError::MissingRequiredOption { name: name.clone() }
            },
            ConfigError::MalformedOptionsGroup => ConfigError::MalformedOptionsGroup,
        }
    }
}

} // verus!
