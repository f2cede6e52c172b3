//! Message catalogs, one per language, and messages with named parameters.

use crate::json::{entry_map, json_texts, parse_texts};
use crate::text::{join3, replace_all, replaced, same_text, starts_with};
use vstd::prelude::*;

verus! {

/// The messages of one language by their keys.
#[derive(Debug)]
pub struct MessageCatalog {
    entries: Vec<(String, String)>,
}

impl View for MessageCatalog {
    type V = Map<Seq<char>, Seq<char>>;

    closed spec fn view(&self) -> Map<Seq<char>, Seq<char>> {
        entry_map(self.entries@)
    }
}

impl MessageCatalog {
    /// Reads a catalog from a JSON object of texts. Anything else is no catalog.
    pub fn parse(source: &str) -> (catalog: Option<MessageCatalog>)
        ensures
            match catalog {
                Some(catalog) => json_texts(source@) == Some(catalog@),
                None => json_texts(source@) is None,
            },
    {
        match parse_texts(source) {
            Ok(entries) => Some(MessageCatalog::from_entries(entries)),
            Err(_) => None,
        }
    }

    /// A catalog of the given entries. Where a key occurs twice the later entry counts.
    pub fn from_entries(entries: Vec<(String, String)>) -> (catalog: MessageCatalog)
        ensures
            catalog@ == entry_map(entries@),
    {
        MessageCatalog { entries }
    }

    /// The message with a given key.
    pub fn message(&self, key: &str) -> (message: Option<String>)
        ensures
            match message {
                Some(message) => self@.dom().contains(key@) && self@[key@] == message@,
                None => !self@.dom().contains(key@),
            },
    {
        let mut remaining: usize = self.entries.len();
        assert(self.entries@.take(remaining as int) == self.entries@);
        while remaining > 0
            invariant
                remaining <= self.entries@.len(),
                entry_map(self.entries@.take(remaining as int)).dom().contains(key@)
                    == self@.dom().contains(key@),
                self@.dom().contains(key@) ==> entry_map(
                    self.entries@.take(remaining as int),
                )[key@] == self@[key@],
            decreases remaining,
        {
            assert(self.entries@.take(remaining as int).drop_last() == self.entries@.take(
                remaining - 1,
            ));
            let entry = &self.entries[remaining - 1];
            if same_text(entry.0.as_str(), key) {
                return Some(entry.1.clone());
            }
            remaining -= 1;
        }
        None
    }
}

/// The catalogs of both languages.
#[derive(Debug)]
pub struct MessageCatalogs {
    pub english: MessageCatalog,
    pub traditional_chinese: MessageCatalog,
}

impl MessageCatalogs {
    /// The messages of one language.
    pub open spec fn catalog_spec(&self, traditional_chinese: bool) -> Map<Seq<char>, Seq<char>> {
        if traditional_chinese {
            self.traditional_chinese@
        } else {
            self.english@
        }
    }

    /// The catalog of one language.
    pub fn catalog(&self, traditional_chinese: bool) -> (catalog: &MessageCatalog)
        ensures
            catalog@ == self.catalog_spec(traditional_chinese),
    {
        if traditional_chinese {
            &self.traditional_chinese
        } else {
            &self.english
        }
    }
}

/// The message that is shown for a key: in the language asked for, else in English, else the
/// key itself.
pub open spec fn shown_message(
    catalogs: MessageCatalogs,
    traditional_chinese: bool,
    key: Seq<char>,
) -> Seq<char> {
    if catalogs.catalog_spec(traditional_chinese).dom().contains(key) {
        catalogs.catalog_spec(traditional_chinese)[key]
    } else if catalogs.english@.dom().contains(key) {
        catalogs.english@[key]
    } else {
        key
    }
}

/// Looks up a message.
pub fn get(catalogs: &MessageCatalogs, traditional_chinese: bool, key: &str) -> (message: String)
    ensures
        message@ == shown_message(*catalogs, traditional_chinese, key@),
{
    match catalogs.catalog(traditional_chinese).message(key) {
        Some(message) => message,
        None => match catalogs.catalog(false).message(key) {
            Some(message) => message,
            None => key.to_owned(),
        },
    }
}

/// How a parameter is written in a template: its name in braces.
pub open spec fn placeholder(name: Seq<char>) -> Seq<char> {
    "{"@ + name + "}"@
}

/// `template` with the parameters filled in, one after the other.
pub open spec fn rendered(template: Seq<char>, parameters: Seq<(&str, &str)>) -> Seq<char>
    decreases parameters.len(),
{
    if parameters.len() == 0 {
        template
    } else {
        let (name, value) = parameters.last();
        replace_all(rendered(template, parameters.drop_last()), placeholder(name@), value@)
    }
}

/// Fills the parameters into a template.
pub fn render(template: &str, parameters: &[(&str, &str)]) -> (message: String)
    ensures
        message@ == rendered(template@, parameters@),
{
    let mut message = template.to_owned();
    let mut i: usize = 0;
    while i < parameters.len()
        invariant
            i <= parameters@.len(),
            message@ == rendered(template@, parameters@.take(i as int)),
        decreases parameters@.len() - i,
    {
        assert(parameters@.take(i + 1).drop_last() == parameters@.take(i as int));
        let (name, value) = parameters[i];
        let pattern = join3("{", name, "}");
        proof {
            reveal_strlit("{");
        }
        message = replaced(message.as_str(), pattern.as_str(), value);
        i += 1;
    }
    assert(parameters@.take(i as int) == parameters@);
    message
}

/// Whether `pattern` occurs in `text`.
pub open spec fn occurs(pattern: Seq<char>, text: Seq<char>) -> bool {
    exists|i: int| 0 <= i <= text.len() && #[trigger] starts_with(text.skip(i), pattern)
}

/// The first occurrence of a placeholder is replaced by the value, and what follows it is treated
/// likewise.
pub proof fn first_placeholder_is_filled_in(
    before: Seq<char>,
    pattern: Seq<char>,
    after: Seq<char>,
    value: Seq<char>,
)
    requires
        pattern.len() > 0,
        forall|i: int|
            0 <= i < before.len() ==> !#[trigger] starts_with(
                (before + pattern + after).skip(i),
                pattern,
            ),
    ensures
        replace_all(before + pattern + after, pattern, value) == before + value + replace_all(
            after,
            pattern,
            value,
        ),
    decreases before.len(),
{
    let text = before + pattern + after;
    assert(text.skip(0) == text);
    if before.len() == 0 {
        assert(text.take(pattern.len() as int) == pattern);
        assert(text.skip(pattern.len() as int) == after);
        assert(before + value == value);
    } else {
        let rest = before.skip(1);
        let rest_text = rest + pattern + after;
        assert(!starts_with(text.skip(0), pattern));
        assert(text.skip(1) == rest_text);
        assert forall|i: int| 0 <= i < rest.len() implies !#[trigger] starts_with(
            rest_text.skip(i),
            pattern,
        ) by {
            assert(rest_text.skip(i) == text.skip(i + 1));
        }
        first_placeholder_is_filled_in(rest, pattern, after, value);
        assert(seq![text[0]] + (rest + value + replace_all(after, pattern, value)) == before + value
            + replace_all(after, pattern, value));
    }
}

/// A text in which a placeholder does not occur is left as it is.
pub proof fn text_without_placeholder_is_kept(
    text: Seq<char>,
    pattern: Seq<char>,
    value: Seq<char>,
)
    requires
        !occurs(pattern, text),
    ensures
        replace_all(text, pattern, value) == text,
    decreases text.len(),
{
    if text.len() > 0 && pattern.len() > 0 {
        assert(text.skip(0) == text);
        assert(!starts_with(text.skip(0), pattern));
        assert forall|i: int| 0 <= i <= text.skip(1).len() implies !#[trigger] starts_with(
            text.skip(1).skip(i),
            pattern,
        ) by {
            assert(text.skip(1).skip(i) == text.skip(i + 1));
        }
        text_without_placeholder_is_kept(text.skip(1), pattern, value);
        assert(seq![text[0]] + text.skip(1) == text);
    }
}

/// A key that no catalog has is shown as it is, in either language.
pub proof fn unknown_key_is_shown(catalogs: MessageCatalogs, traditional_chinese: bool, key: Seq<char>)
    requires
        !catalogs.english@.dom().contains(key),
        !catalogs.traditional_chinese@.dom().contains(key),
    ensures
        shown_message(catalogs, traditional_chinese, key) == key,
{
}

} // verus!
