//! The metadata record of a collectible.

use vstd::prelude::*;

verus! {

/// What describes a collectible. Every field is optional.
///
/// The proxy carries a record from the caller to the target service as it is:
/// it neither reads nor changes any field.
#[derive(Debug, PartialEq, Eq)]
pub struct Metadata {
    /// The collectible's title.
    pub title: Option<String>,
    /// A free-form description.
    pub description: Option<String>,
    /// Where the associated media is found.
    pub media: Option<String>,
    /// The integrity hash of the media.
    pub media_hash: Option<String>,
    /// How many copies exist.
    pub copies: Option<i32>,
    /// When the collectible expires.
    pub expires_at: Option<i64>,
    /// When the collectible starts to be valid.
    pub starts_at: Option<i64>,
    /// Free-form extension data.
    pub extra: Option<String>,
    /// Where further data about the collectible is found.
    pub reference: Option<String>,
    /// The integrity hash of the referenced data.
    pub reference_hash: Option<String>,
}

/// The mathematical value of a [`Metadata`] record.
pub struct MetadataView {
    pub title: Option<Seq<char>>,
    pub description: Option<Seq<char>>,
    pub media: Option<Seq<char>>,
    pub media_hash: Option<Seq<char>>,
    pub copies: Option<int>,
    pub expires_at: Option<int>,
    pub starts_at: Option<int>,
    pub extra: Option<Seq<char>>,
    pub reference: Option<Seq<char>>,
    pub reference_hash: Option<Seq<char>>,
}

impl MetadataView {
    /// The record in which no field is present.
    pub open spec fn empty() -> MetadataView {
        MetadataView {
            title: None,
            description: None,
            media: None,
            media_hash: None,
            copies: None,
            expires_at: None,
            starts_at: None,
            extra: None,
            reference: None,
            reference_hash: None,
        }
    }
}

impl View for Metadata {
    type V = MetadataView;

    open spec fn view(&self) -> MetadataView {
        MetadataView {
            title: self.title.deep_view(),
            description: self.description.deep_view(),
            media: self.media.deep_view(),
            media_hash: self.media_hash.deep_view(),
            copies: match self.copies {
                Some(n) => Some(n as int),
                None => None,
            },
            expires_at: match self.expires_at {
                Some(n) => Some(n as int),
                None => None,
            },
            starts_at: match self.starts_at {
                Some(n) => Some(n as int),
                None => None,
            },
            extra: self.extra.deep_view(),
            reference: self.reference.deep_view(),
            reference_hash: self.reference_hash.deep_view(),
        }
    }
}

impl Default for Metadata {
    /// The record in which no field is present.
    fn default() -> (metadata: Self)
        ensures
            metadata@ == MetadataView::empty(),
    {
        Metadata {
            title: None,
            description: None,
            media: None,
            media_hash: None,
            copies: None,
            expires_at: None,
            starts_at: None,
            extra: None,
            reference: None,
            reference_hash: None,
        }
    }
}

} // verus!
