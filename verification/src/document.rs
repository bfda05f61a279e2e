//! The document that a render script describes and the transport displays.

use vstd::prelude::*;

verus! {

/// A structured display document. Every part is optional; a document with no
/// part set is valid.
#[derive(Debug, PartialEq, Eq)]
pub struct RenderDocument {
    pub title: Option<String>,
    pub color: Option<i64>,
    pub url: Option<String>,
    pub thumbnail: Option<String>,
    /// One field entry: its header and its body.
    pub field: Option<(String, String)>,
    pub footer: Option<String>,
}

/// What a [`RenderDocument`] holds, as character sequences and integers.
pub struct RenderDocumentView {
    pub title: Option<Seq<char>>,
    pub color: Option<int>,
    pub url: Option<Seq<char>>,
    pub thumbnail: Option<Seq<char>>,
    pub field: Option<(Seq<char>, Seq<char>)>,
    pub footer: Option<Seq<char>>,
}

/// The characters of an optional string.
pub open spec fn text_view(text: Option<String>) -> Option<Seq<char>> {
    match text {
        Some(s) => Some(s@),
        None => None,
    }
}

impl View for RenderDocument {
    type V = RenderDocumentView;

    open spec fn view(&self) -> RenderDocumentView {
        RenderDocumentView {
            title: text_view(self.title),
            color: match self.color {
                Some(c) => Some(c as int),
                None => None,
            },
            url: text_view(self.url),
            thumbnail: text_view(self.thumbnail),
            field: match self.field {
                Some((header, body)) => Some((header@, body@)),
                None => None,
            },
            footer: text_view(self.footer),
        }
    }
}

impl RenderDocumentView {
    /// The document with no part set.
    pub open spec fn empty() -> RenderDocumentView {
        RenderDocumentView {
            title: None,
            color: None,
            url: None,
            thumbnail: None,
            field: None,
            footer: None,
        }
    }
}

impl RenderDocument {
    /// The document with no part set.
    pub fn empty() -> (doc: RenderDocument)
        ensures
            doc@ == RenderDocumentView::empty(),
    {
        RenderDocument {
            title: None,
            color: None,
            url: None,
            thumbnail: None,
            field: None,
            footer: None,
        }
    }

    /// Whether no part of the document is set.
    pub fn is_empty(&self) -> (r: bool)
        ensures
            r == (self@ == RenderDocumentView::empty()),
    {
        self.title.is_none() && self.color.is_none() && self.url.is_none()
            && self.thumbnail.is_none() && self.field.is_none() && self.footer.is_none()
    }
}

impl Clone for RenderDocument {
    fn clone(&self) -> (r: Self)
        ensures
            r == *self,
    {
        RenderDocument {
            title: self.title.clone(),
            color: self.color,
            url: self.url.clone(),
            thumbnail: self.thumbnail.clone(),
            field: match &self.field {
                Some((header, body)) => Some((header.clone(), body.clone())),
                None => None,
            },
            footer: self.footer.clone(),
        }
    }
}

} // verus!
