//! `Provenance` — which model and indexer produced an analysis run.
use vstd::prelude::*;

verus! {

/// Reproducibility record of an analysis run: the model's name and
/// version, the prompt version and the indexer version (`""` = absent).
#[derive(Debug, PartialEq, Eq, Hash)]
pub struct Provenance {
    model_name: String,
    model_version: String,
    prompt_version: String,
    indexer_version: String,
}

impl Provenance {
    /// Model name.
    pub closed spec fn spec_model_name(self) -> Seq<char> {
        self.model_name@
    }

    /// Model version.
    pub closed spec fn spec_model_version(self) -> Seq<char> {
        self.model_version@
    }

    /// Prompt version.
    pub closed spec fn spec_prompt_version(self) -> Seq<char> {
        self.prompt_version@
    }

    /// Indexer version.
    pub closed spec fn spec_indexer_version(self) -> Seq<char> {
        self.indexer_version@
    }

    /// True iff every part is absent.
    pub open spec fn spec_is_empty(self) -> bool {
        self.spec_model_name().len() == 0 && self.spec_model_version().len() == 0
            && self.spec_prompt_version().len() == 0 && self.spec_indexer_version().len() == 0
    }

    /// The empty record.
    pub fn new() -> (r: Self)
        ensures
            r.spec_model_name() == Seq::<char>::empty(),
            r.spec_model_version() == Seq::<char>::empty(),
            r.spec_prompt_version() == Seq::<char>::empty(),
            r.spec_indexer_version() == Seq::<char>::empty(),
    {
        Provenance {
            model_name: String::new(),
            model_version: String::new(),
            prompt_version: String::new(),
            indexer_version: String::new(),
        }
    }

    /// A record from its four parts.
    pub fn from_parts(model_name: &str, model_version: &str, prompt_version: &str, indexer_version: &str) -> (r:
        Self)
        ensures
            r.spec_model_name() == model_name@,
            r.spec_model_version() == model_version@,
            r.spec_prompt_version() == prompt_version@,
            r.spec_indexer_version() == indexer_version@,
    {
        Provenance {
            model_name: model_name.to_owned(),
            model_version: model_version.to_owned(),
            prompt_version: prompt_version.to_owned(),
            indexer_version: indexer_version.to_owned(),
        }
    }

    /// Model name (`""` = absent).
    pub fn model_name(&self) -> (r: &str)
        ensures
            r@ == self.spec_model_name(),
    {
        self.model_name.as_str()
    }

    /// Model version (`""` = absent).
    pub fn model_version(&self) -> (r: &str)
        ensures
            r@ == self.spec_model_version(),
    {
        self.model_version.as_str()
    }

    /// Prompt version (`""` = absent).
    pub fn prompt_version(&self) -> (r: &str)
        ensures
            r@ == self.spec_prompt_version(),
    {
        self.prompt_version.as_str()
    }

    /// Indexer version (`""` = absent).
    pub fn indexer_version(&self) -> (r: &str)
        ensures
            r@ == self.spec_indexer_version(),
    {
        self.indexer_version.as_str()
    }

    /// True iff every part is absent.
    pub fn is_empty(&self) -> (r: bool)
        ensures
            r == self.spec_is_empty(),
    {
        self.model_name.as_str().is_empty() && self.model_version.as_str().is_empty()
            && self.prompt_version.as_str().is_empty() && self.indexer_version.as_str().is_empty()
    }
}

impl Clone for Provenance {
    /// A copy holding the same four parts.
    fn clone(&self) -> (r: Self)
        ensures
            r == *self,
    {
        Provenance {
            model_name: self.model_name.clone(),
            model_version: self.model_version.clone(),
            prompt_version: self.prompt_version.clone(),
            indexer_version: self.indexer_version.clone(),
        }
    }
}

} // verus!
