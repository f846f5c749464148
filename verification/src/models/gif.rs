use crate::db::{current_timestamp, fresh_object_id, key_text, object_id_hex, timestamp_text};
use crate::db::{StoreKey, Timestamp};
use crate::models::{DocumentConvertable, ObjectConvertable};
use vstd::prelude::*;

verus! {

/// The animation attached to a recipe step: where the upload was persisted,
/// and what was probed from its bytes.
#[derive(Debug, PartialEq, Eq)]
pub struct Gif {
    pub path: String,
    pub width: i32,
    pub height: i32,
    pub title: String,
}

pub struct GifView {
    pub path: Seq<char>,
    pub width: int,
    pub height: int,
    pub title: Seq<char>,
}

impl View for Gif {
    type V = GifView;

    open spec fn view(&self) -> GifView {
        GifView {
            path: self.path@,
            width: self.width as int,
            height: self.height as int,
            title: self.title@,
        }
    }
}

impl Clone for Gif {
    fn clone(&self) -> (r: Self)
        ensures
            r == *self,
    {
        Gif {
            path: self.path.clone(),
            width: self.width,
            height: self.height,
            title: self.title.clone(),
        }
    }
}

/// A recipe step as clients see it.
#[derive(Debug, PartialEq, Eq)]
pub struct RecipeStep {
    pub _id: String,
    pub description: String,
    pub gif: Gif,
    pub created_at: String,
}

pub struct RecipeStepView {
    pub id: Seq<char>,
    pub description: Seq<char>,
    pub gif: GifView,
    pub created_at: Seq<char>,
}

impl View for RecipeStep {
    type V = RecipeStepView;

    open spec fn view(&self) -> RecipeStepView {
        RecipeStepView {
            id: self._id@,
            description: self.description@,
            gif: self.gif@,
            created_at: self.created_at@,
        }
    }
}

impl Clone for RecipeStep {
    fn clone(&self) -> (r: Self)
        ensures
            r == *self,
    {
        RecipeStep {
            _id: self._id.clone(),
            description: self.description.clone(),
            gif: self.gif.clone(),
            created_at: self.created_at.clone(),
        }
    }
}

/// A recipe step as the store keeps it.
#[derive(Debug, PartialEq, Eq)]
pub struct RecipeStepDocument {
    pub _id: Option<StoreKey>,
    pub description: String,
    pub gif: Gif,
    pub created_at: Timestamp,
}

pub struct RecipeStepDocumentView {
    pub id: Option<Seq<u8>>,
    pub description: Seq<char>,
    pub gif: GifView,
    pub created_at: int,
}

impl View for RecipeStepDocument {
    type V = RecipeStepDocumentView;

    open spec fn view(&self) -> RecipeStepDocumentView {
        RecipeStepDocumentView {
            id: match self._id {
                Some(k) => Some(k@),
                None => None,
            },
            description: self.description@,
            gif: self.gif@,
            created_at: self.created_at@,
        }
    }
}

impl Clone for RecipeStepDocument {
    fn clone(&self) -> (r: Self)
        ensures
            r == *self,
    {
        RecipeStepDocument {
            _id: self._id,
            description: self.description.clone(),
            gif: self.gif.clone(),
            created_at: self.created_at,
        }
    }
}

impl RecipeStepView {
    /// The document for a step created at `at`: no identifier yet, the rest as given.
    pub open spec fn document_at(self, at: int) -> RecipeStepDocumentView {
        RecipeStepDocumentView {
            id: None,
            description: self.description,
            gif: self.gif,
            created_at: at,
        }
    }
}

impl RecipeStepDocumentView {
    /// The step handed to clients: the identifier (or `fallback` where the
    /// document has none) in text form, an empty description, the animation
    /// as stored, and the creation time printed.
    pub open spec fn object_with(self, fallback: Seq<u8>) -> RecipeStepView {
        RecipeStepView {
            id: key_text(
                match self.id {
                    Some(k) => k,
                    None => fallback,
                },
            ),
            description: Seq::empty(),
            gif: self.gif,
            created_at: timestamp_text(self.created_at),
        }
    }
}

impl RecipeStep {
    /// The document that stands for this step when it was created at `created_at`.
    pub fn to_document_at(&self, created_at: Timestamp) -> (d: RecipeStepDocument)
        ensures
            d@ == self@.document_at(created_at@),
    {
        RecipeStepDocument {
            _id: None,
            description: self.description.clone(),
            gif: Gif {
                path: self.gif.path.clone(),
                width: self.gif.width,
                height: self.gif.height,
                title: self.gif.title.clone(),
            },
            created_at,
        }
    }
}

impl DocumentConvertable<RecipeStepDocument> for RecipeStep {
    /// The document for this step, stamped with the current time.
    open spec fn documented_as(&self, document: RecipeStepDocument) -> bool {
        document@ == self@.document_at(document.created_at@)
    }

    fn to_document(&self) -> (d: RecipeStepDocument) {
        let now = current_timestamp();
        self.to_document_at(now)
    }
}

impl RecipeStepDocument {
    /// The step for this document, with `fallback` standing in for a missing identifier.
    pub fn to_object_with(&self, fallback: StoreKey) -> (s: RecipeStep)
        ensures
            s@ == self@.object_with(fallback@),
    {
        let key = match self._id {
            Some(k) => k,
            None => fallback,
        };
        RecipeStep {
            _id: object_id_hex(&key),
            description: String::new(),
            gif: Gif {
                path: self.gif.path.clone(),
                width: self.gif.width,
                height: self.gif.height,
                title: self.gif.title.clone(),
            },
            created_at: crate::db::timestamp_to_string(&self.created_at),
        }
    }
}

impl ObjectConvertable<RecipeStep> for RecipeStepDocument {
    /// The step for this document; a document without an identifier gets a
    /// freshly generated one.
    open spec fn converted_to(&self, object: RecipeStep) -> bool {
        exists|fallback: Seq<u8>|
            fallback.len() == 12 && object@ == #[trigger] self@.object_with(fallback)
    }

    fn to_object(&self) -> (s: RecipeStep) {
        let fallback = match self._id {
            Some(key) => key,
            None => fresh_object_id(),
        };
        let s = self.to_object_with(fallback);
        assert(fallback@.len() == 12);
        s
    }
}

} // verus!
