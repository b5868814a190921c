//! Reading the arguments of a call out of a JSON object.
//!
//! A member that is absent or `null` is no value for an optional argument and
//! a fault for a required one. A member of another type than the argument
//! asks for is a fault. Members that no argument asks for are passed over.

use vstd::prelude::*;
use vstd::string::StringExecFns;
use crate::json::{items_view, lemma_array_view, Json, JsonNumber, JsonNumberView, JsonView};
use crate::strings::{optional_text_view, optional_texts_view, texts_view};

verus! {

/// The fault reported for a required argument that is absent.
pub open spec fn missing_field(key: Seq<char>) -> Seq<char> {
    "missing field `"@ + key + "`"@
}

/// The fault reported for an argument of the wrong type.
pub open spec fn invalid_field(key: Seq<char>, expected: Seq<char>) -> Seq<char> {
    "invalid type for field `"@ + key + "`, expected "@ + expected
}

/// The texts of an array of strings, and nothing where an item is no string.
pub open spec fn texts_of(items: Seq<JsonView>) -> Option<Seq<Seq<char>>> {
    if forall|i: int| 0 <= i < items.len() ==> #[trigger] items[i] is Str {
        Some(Seq::new(items.len(), |i: int| items[i]->Str_0))
    } else {
        None
    }
}

impl JsonView {
    pub open spec fn required_text(self, key: Seq<char>) -> Result<Seq<char>, Seq<char>> {
        match self.member(key) {
            Some(JsonView::Str(text)) => Ok(text),
            Some(_) => Err(invalid_field(key, "a string"@)),
            None => Err(missing_field(key)),
        }
    }

    pub open spec fn optional_text(self, key: Seq<char>) -> Result<Option<Seq<char>>, Seq<char>> {
        match self.member(key) {
            Some(JsonView::Str(text)) => Ok(Some(text)),
            Some(JsonView::Null) => Ok(None),
            Some(_) => Err(invalid_field(key, "a string"@)),
            None => Ok(None),
        }
    }

    pub open spec fn optional_u64(self, key: Seq<char>) -> Result<Option<u64>, Seq<char>> {
        match self.member(key) {
            Some(JsonView::Number(JsonNumberView::PosInt(n))) => Ok(Some(n)),
            Some(JsonView::Null) => Ok(None),
            Some(_) => Err(invalid_field(key, "a whole number that is not negative"@)),
            None => Ok(None),
        }
    }

    pub open spec fn optional_u32(self, key: Seq<char>) -> Result<Option<u32>, Seq<char>> {
        match self.member(key) {
            Some(JsonView::Number(JsonNumberView::PosInt(n))) => if n <= u32::MAX {
                Ok(Some(n as u32))
            } else {
                Err(invalid_field(key, "a whole number of 32 bits"@))
            },
            Some(JsonView::Null) => Ok(None),
            Some(_) => Err(invalid_field(key, "a whole number of 32 bits"@)),
            None => Ok(None),
        }
    }

    pub open spec fn optional_bool(self, key: Seq<char>) -> Result<Option<bool>, Seq<char>> {
        match self.member(key) {
            Some(JsonView::Bool(flag)) => Ok(Some(flag)),
            Some(JsonView::Null) => Ok(None),
            Some(_) => Err(invalid_field(key, "a boolean"@)),
            None => Ok(None),
        }
    }

    pub open spec fn required_texts(self, key: Seq<char>) -> Result<Seq<Seq<char>>, Seq<char>> {
        match self.member(key) {
            Some(JsonView::Array(items)) => match texts_of(items) {
                Some(texts) => Ok(texts),
                None => Err(invalid_field(key, "an array of strings"@)),
            },
            Some(_) => Err(invalid_field(key, "an array of strings"@)),
            None => Err(missing_field(key)),
        }
    }

    pub open spec fn optional_texts(self, key: Seq<char>) -> Result<
        Option<Seq<Seq<char>>>,
        Seq<char>,
    > {
        match self.member(key) {
            Some(JsonView::Array(items)) => match texts_of(items) {
                Some(texts) => Ok(Some(texts)),
                None => Err(invalid_field(key, "an array of strings"@)),
            },
            Some(JsonView::Null) => Ok(None),
            Some(_) => Err(invalid_field(key, "an array of strings"@)),
            None => Ok(None),
        }
    }
}

/// The characters of a text that was read, or of the fault.
pub open spec fn read_text(read: Result<String, String>) -> Result<Seq<char>, Seq<char>> {
    match read {
        Ok(text) => Ok(text@),
        Err(fault) => Err(fault@),
    }
}

/// The characters of an optional text that was read, or of the fault.
pub open spec fn read_optional_text(read: Result<Option<String>, String>) -> Result<
    Option<Seq<char>>,
    Seq<char>,
> {
    match read {
        Ok(text) => Ok(optional_text_view(text)),
        Err(fault) => Err(fault@),
    }
}

/// The number or flag that was read, or the characters of the fault.
pub open spec fn read_plain<T>(read: Result<Option<T>, String>) -> Result<Option<T>, Seq<char>> {
    match read {
        Ok(value) => Ok(value),
        Err(fault) => Err(fault@),
    }
}

/// The characters of the texts that were read, or of the fault.
pub open spec fn read_texts(read: Result<Vec<String>, String>) -> Result<
    Seq<Seq<char>>,
    Seq<char>,
> {
    match read {
        Ok(texts) => Ok(texts_view(texts@)),
        Err(fault) => Err(fault@),
    }
}

/// The characters of the optional texts that were read, or of the fault.
pub open spec fn read_optional_texts(read: Result<Option<Vec<String>>, String>) -> Result<
    Option<Seq<Seq<char>>>,
    Seq<char>,
> {
    match read {
        Ok(texts) => Ok(optional_texts_view(texts)),
        Err(fault) => Err(fault@),
    }
}

fn fault_missing(key: &str) -> (fault: String)
    ensures
        fault@ == missing_field(key@),
{
    String::from_str("missing field `").concat(key).concat("`")
}

fn fault_invalid(key: &str, expected: &str) -> (fault: String)
    ensures
        fault@ == invalid_field(key@, expected@),
{
    String::from_str("invalid type for field `").concat(key).concat("`, expected ").concat(
        expected,
    )
}

fn strings_of(items: &Vec<Json>) -> (texts: Option<Vec<String>>)
    ensures
        match texts {
            Some(t) => texts_of(items_view(items@)) == Some(texts_view(t@)),
            None => texts_of(items_view(items@)) is None,
        },
{
    let mut texts: Vec<String> = Vec::new();
    let mut i: usize = 0;
    while i < items.len()
        invariant
            i <= items.len(),
            texts@.len() == i,
            forall|k: int| 0 <= k < i ==> #[trigger] items_view(items@)[k] is Str,
            forall|k: int| 0 <= k < i ==> (#[trigger] texts@[k])@ == items_view(items@)[k]->Str_0,
        decreases items.len() - i,
    {
        match &items[i] {
            Json::Str(text) => {
                texts.push(text.clone());
            },
            _ => {
                assert(!(items_view(items@)[i as int] is Str));
                return None;
            },
        }
        i = i + 1;
    }
    assert(texts_of(items_view(items@))->Some_0 =~= texts_view(texts@));
    Some(texts)
}

impl Json {
    /// The text that a required argument holds.
    pub fn required_text(&self, key: &str) -> (read: Result<String, String>)
        ensures
            read_text(read) == self@.required_text(key@),
    {
        match self.get(key) {
            Some(Json::Str(text)) => Ok(text.clone()),
            Some(_) => Err(fault_invalid(key, "a string")),
            None => Err(fault_missing(key)),
        }
    }

    /// The text that an optional argument holds.
    pub fn optional_text(&self, key: &str) -> (read: Result<Option<String>, String>)
        ensures
            read_optional_text(read) == self@.optional_text(key@),
    {
        match self.get(key) {
            Some(Json::Str(text)) => Ok(Some(text.clone())),
            Some(Json::Null) => Ok(None),
            Some(_) => Err(fault_invalid(key, "a string")),
            None => Ok(None),
        }
    }

    /// The number that an optional argument holds.
    pub fn optional_u64(&self, key: &str) -> (read: Result<Option<u64>, String>)
        ensures
            read_plain(read) == self@.optional_u64(key@),
    {
        match self.get(key) {
            Some(Json::Number(JsonNumber::PosInt(n))) => Ok(Some(*n)),
            Some(Json::Null) => Ok(None),
            Some(_) => Err(fault_invalid(key, "a whole number that is not negative")),
            None => Ok(None),
        }
    }

    /// The number that an optional argument holds.
    pub fn optional_u32(&self, key: &str) -> (read: Result<Option<u32>, String>)
        ensures
            read_plain(read) == self@.optional_u32(key@),
    {
        match self.get(key) {
            Some(Json::Number(JsonNumber::PosInt(n))) => {
                if *n <= u32::MAX as u64 {
                    Ok(Some(*n as u32))
                } else {
                    Err(fault_invalid(key, "a whole number of 32 bits"))
                }
            },
            Some(Json::Null) => Ok(None),
            Some(_) => Err(fault_invalid(key, "a whole number of 32 bits")),
            None => Ok(None),
        }
    }

    /// The flag that an optional argument holds.
    pub fn optional_bool(&self, key: &str) -> (read: Result<Option<bool>, String>)
        ensures
            read_plain(read) == self@.optional_bool(key@),
    {
        match self.get(key) {
            Some(Json::Bool(flag)) => Ok(Some(*flag)),
            Some(Json::Null) => Ok(None),
            Some(_) => Err(fault_invalid(key, "a boolean")),
            None => Ok(None),
        }
    }

    /// The texts that a required argument holds.
    pub fn required_texts(&self, key: &str) -> (read: Result<Vec<String>, String>)
        ensures
            read_texts(read) == self@.required_texts(key@),
    {
        match self.get(key) {
            Some(Json::Array(items)) => {
                proof {
                    lemma_array_view(*items);
                }
                match strings_of(items) {
                    Some(texts) => Ok(texts),
                    None => Err(fault_invalid(key, "an array of strings")),
                }
            },
            Some(_) => Err(fault_invalid(key, "an array of strings")),
            None => Err(fault_missing(key)),
        }
    }

    /// The texts that an optional argument holds.
    pub fn optional_texts(&self, key: &str) -> (read: Result<Option<Vec<String>>, String>)
        ensures
            read_optional_texts(read) == self@.optional_texts(key@),
    {
        match self.get(key) {
            Some(Json::Array(items)) => {
                proof {
                    lemma_array_view(*items);
                }
                match strings_of(items) {
                    Some(texts) => Ok(Some(texts)),
                    None => Err(fault_invalid(key, "an array of strings")),
                }
            },
            Some(Json::Null) => Ok(None),
            Some(_) => Err(fault_invalid(key, "an array of strings")),
            None => Ok(None),
        }
    }
}

} // verus!
