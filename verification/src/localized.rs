//! `LocalizedText` — a text in its source language plus an optional
//! translation.
use vstd::prelude::*;

verus! {

/// A text as found in the source (`src`) and its translation
/// (`translated`); `""` marks either as absent, and a text with both absent
/// is empty.
#[derive(Debug, PartialEq, Eq, Hash)]
pub struct LocalizedText {
    src: String,
    translated: String,
}

impl LocalizedText {
    /// The source-language text.
    pub closed spec fn spec_src(self) -> Seq<char> {
        self.src@
    }

    /// The translation.
    pub closed spec fn spec_translated(self) -> Seq<char> {
        self.translated@
    }

    /// True iff both the source text and the translation are absent.
    pub open spec fn spec_is_empty(self) -> bool {
        self.spec_src().len() == 0 && self.spec_translated().len() == 0
    }

    /// The empty text.
    pub fn new() -> (r: Self)
        ensures
            r.spec_src() == Seq::<char>::empty(),
            r.spec_translated() == Seq::<char>::empty(),
    {
        LocalizedText { src: String::new(), translated: String::new() }
    }

    /// A source-language text with no translation.
    pub fn from_src(src: &str) -> (r: Self)
        ensures
            r.spec_src() == src@,
            r.spec_translated() == Seq::<char>::empty(),
    {
        LocalizedText { src: src.to_owned(), translated: String::new() }
    }

    /// A source-language text with its translation.
    pub fn from_src_translated(src: &str, translated: &str) -> (r: Self)
        ensures
            r.spec_src() == src@,
            r.spec_translated() == translated@,
    {
        LocalizedText { src: src.to_owned(), translated: translated.to_owned() }
    }

    /// The source-language text (`""` = absent).
    pub fn src(&self) -> (r: &str)
        ensures
            r@ == self.spec_src(),
    {
        self.src.as_str()
    }

    /// The translation (`""` = absent).
    pub fn translated(&self) -> (r: &str)
        ensures
            r@ == self.spec_translated(),
    {
        self.translated.as_str()
    }

    /// True iff both the source text and the translation are absent.
    pub fn is_empty(&self) -> (r: bool)
        ensures
            r == self.spec_is_empty(),
    {
        self.src.as_str().is_empty() && self.translated.as_str().is_empty()
    }
}

impl Clone for LocalizedText {
    /// A copy holding the same two strings.
    fn clone(&self) -> (r: Self)
        ensures
            r == *self,
    {
        LocalizedText { src: self.src.clone(), translated: self.translated.clone() }
    }
}

impl Default for LocalizedText {
    /// The empty text.
    fn default() -> (r: Self)
        ensures
            r.spec_src() == Seq::<char>::empty(),
            r.spec_translated() == Seq::<char>::empty(),
    {
        LocalizedText::new()
    }
}

} // verus!
