//! The closed set of inference models and their download coordinates.

use vstd::prelude::*;
use crate::text::same_text;

verus! {

/// Supported transcription models.
#[derive(Debug, Clone, Copy, PartialEq, Eq, Structural)]
pub enum Model {
    /// The default model: base.en
    BaseEn,
    /// The tiny.en model
    TinyEn,
    /// The small.en model
    SmallEn,
}

/// The user-facing identifier of a model.
pub open spec fn model_name(m: Model) -> Seq<char> {
    match m {
        Model::BaseEn => "base.en"@,
        Model::TinyEn => "tiny.en"@,
        Model::SmallEn => "small.en"@,
    }
}

/// The artifact file name of a model inside the cache root.
pub open spec fn model_file_name(m: Model) -> Seq<char> {
    match m {
        Model::BaseEn => "ggml-base.en.bin"@,
        Model::TinyEn => "ggml-tiny.en.bin"@,
        Model::SmallEn => "ggml-small.en.bin"@,
    }
}

/// The address the artifact of a model is fetched from.
pub open spec fn model_url(m: Model) -> Seq<char> {
    match m {
        Model::BaseEn => "https://huggingface.co/ggerganov/whisper.cpp/resolve/main/ggml-base.en.bin"@,
        Model::TinyEn => "https://huggingface.co/ggerganov/whisper.cpp/resolve/main/ggml-tiny.en.bin"@,
        Model::SmallEn => "https://huggingface.co/ggerganov/whisper.cpp/resolve/main/ggml-small.en.bin"@,
    }
}

/// Every supported model, in listing order.
pub open spec fn all_models() -> Seq<Model> {
    seq![Model::BaseEn, Model::TinyEn, Model::SmallEn]
}

/// No two models share a name.
pub proof fn names_are_distinct()
    ensures
        forall|a: Model, b: Model| #[trigger] model_name(a) == #[trigger] model_name(b) ==> a == b,
{
    reveal_strlit("base.en");
    reveal_strlit("tiny.en");
    reveal_strlit("small.en");
    assert forall|a: Model, b: Model| #[trigger] model_name(a) == #[trigger] model_name(b) implies a == b by {
        if a != b {
            assert(model_name(a)[0] != model_name(b)[0]);
        }
    }
}

impl Model {
    /// Returns the user-facing name for this model (e.g., "base.en").
    pub fn name(&self) -> (r: &'static str)
        ensures
            r@ == model_name(*self),
    {
        match self {
            Model::BaseEn => "base.en",
            Model::TinyEn => "tiny.en",
            Model::SmallEn => "small.en",
        }
    }

    /// Returns the model file name (e.g., "ggml-base.en.bin").
    pub fn file_name(&self) -> (r: &'static str)
        ensures
            r@ == model_file_name(*self),
    {
        match self {
            Model::BaseEn => "ggml-base.en.bin",
            Model::TinyEn => "ggml-tiny.en.bin",
            Model::SmallEn => "ggml-small.en.bin",
        }
    }

    /// Returns the model download URL.
    pub fn url(&self) -> (r: &'static str)
        ensures
            r@ == model_url(*self),
    {
        match self {
            Model::BaseEn => "https://huggingface.co/ggerganov/whisper.cpp/resolve/main/ggml-base.en.bin",
            Model::TinyEn => "https://huggingface.co/ggerganov/whisper.cpp/resolve/main/ggml-tiny.en.bin",
            Model::SmallEn => "https://huggingface.co/ggerganov/whisper.cpp/resolve/main/ggml-small.en.bin",
        }
    }

    /// Returns all supported models.
    pub fn list() -> (r: Vec<Model>)
        ensures
            r@ == all_models(),
    {
        let r = vec![Model::BaseEn, Model::TinyEn, Model::SmallEn];
        assert(r@ =~= all_models());
        r
    }

    /// Looks a model up by its user-facing name; an unknown name gives `None`.
    pub fn parse(s: &str) -> (r: Option<Model>)
        ensures
            forall|m: Model| #[trigger] model_name(m) == s@ <==> r == Some(m),
    {
        proof {
            names_are_distinct();
        }
        if same_text(s, "base.en") {
            assert(model_name(Model::BaseEn) == s@);
            Some(Model::BaseEn)
        } else if same_text(s, "tiny.en") {
            assert(model_name(Model::TinyEn) == s@);
            Some(Model::TinyEn)
        } else if same_text(s, "small.en") {
            assert(model_name(Model::SmallEn) == s@);
            Some(Model::SmallEn)
        } else {
            proof {
                assert forall|m: Model| model_name(m) != s@ by {
                    match m {
                        Model::BaseEn => {},
                        Model::TinyEn => {},
                        Model::SmallEn => {},
                    }
                }
            }
            None
        }
    }
}

impl std::str::FromStr for Model {
    type Err = ();

    /// Looks a model up by its user-facing name; an unknown name gives `Err(())`.
    fn from_str(s: &str) -> (r: Result<Self, Self::Err>)
        ensures
            forall|m: Model| #[trigger] model_name(m) == s@ <==> r == Ok::<Model, ()>(m),
    {
        match Model::parse(s) {
            Some(m) => Ok(m),
            None => Err(()),
        }
    }
}

} // verus!
