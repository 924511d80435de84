//! Where an item was written: a span in a source text, or nowhere when the
//! item was generated.

use crate::names::SourceFileName;
use vstd::prelude::*;

verus! {

/// A range of bytes in a text, from `start` up to `end`.
#[derive(Clone, Copy, Debug, PartialEq, Eq, Structural, Hash, PartialOrd, Ord)]
pub struct Span {
    pub start: u32,
    pub end: u32,
}

impl Span {
    pub fn new(start: u32, end: u32) -> (span: Span)
        ensures
            span == (Span { start, end }),
    {
        Span { start, end }
    }

    /// The span given to items that no text holds.
    pub open spec fn spec_generated() -> Span {
        Span { start: 0, end: 0 }
    }

    /// The span given to items that no text holds.
    #[verifier::when_used_as_spec(spec_generated)]
    pub fn generated() -> (span: Span)
        ensures
            span == Span::spec_generated(),
    {
        Span { start: 0, end: 0 }
    }
}

/// A source file, or the part of it that holds one literal.
#[derive(Debug, PartialEq, Eq, Hash, PartialOrd, Ord)]
pub struct TextSource {
    pub path: SourceFileName,
    pub span: Option<Span>,
}

impl Clone for TextSource {
    fn clone(&self) -> (copy: Self)
        ensures
            copy == *self,
    {
        TextSource { path: self.path.clone(), span: self.span }
    }
}

/// A span within a text source.
#[derive(Debug, PartialEq, Eq, Hash, PartialOrd, Ord)]
pub struct EmbeddedLocation {
    pub text_source: TextSource,
    pub span: Span,
}

impl Clone for EmbeddedLocation {
    fn clone(&self) -> (copy: Self)
        ensures
            copy == *self,
    {
        EmbeddedLocation { text_source: self.text_source.clone(), span: self.span }
    }
}

/// Where an item comes from: a place in a source text that a user wrote, or
/// the compiler itself.
#[derive(Debug, PartialEq, Eq, Hash, PartialOrd, Ord)]
pub enum Location {
    Embedded(EmbeddedLocation),
    Generated,
}

impl Clone for Location {
    fn clone(&self) -> (copy: Self)
        ensures
            copy == *self,
    {
        match self {
            Location::Embedded(embedded) => Location::Embedded(embedded.clone()),
            Location::Generated => Location::Generated,
        }
    }
}

impl Location {
    /// The location of items that the compiler made.
    pub fn generated() -> (location: Location)
        ensures
            location == Location::Generated,
    {
        Location::Generated
    }

    pub fn new(text_source: TextSource, span: Span) -> (location: Location)
        ensures
            location == Location::Embedded(EmbeddedLocation { text_source, span }),
    {
        Location::Embedded(EmbeddedLocation { text_source, span })
    }

    /// Whether the compiler made the item, rather than a user.
    pub fn is_generated(&self) -> (generated: bool)
        ensures
            generated == (*self is Generated),
    {
        match self {
            Location::Embedded(_) => false,
            Location::Generated => true,
        }
    }
}

/// An item together with the place it comes from.
#[derive(Debug, PartialEq, Eq, Hash, PartialOrd, Ord)]
pub struct WithLocation<T> {
    pub location: Location,
    pub item: T,
}

impl<T: Clone> Clone for WithLocation<T> {
    fn clone(&self) -> (copy: Self)
        ensures
            copy.location == self.location,
            cloned(self.item, copy.item),
    {
        WithLocation { location: self.location.clone(), item: self.item.clone() }
    }
}

impl<T> WithLocation<T> {
    pub fn new(item: T, location: Location) -> (located: WithLocation<T>)
        ensures
            located == (WithLocation { location, item }),
    {
        WithLocation { location, item }
    }

    /// Drops the location and keeps a span, empty where the item was generated.
    pub fn to_with_span(self) -> (spanned: WithSpan<T>)
        ensures
            spanned.item == self.item,
            spanned.span == match self.location {
                Location::Embedded(embedded) => embedded.span,
                Location::Generated => Span::spec_generated(),
            },
    {
        let span = match self.location {
            Location::Embedded(embedded) => embedded.span,
            Location::Generated => Span::generated(),
        };
        WithSpan { item: self.item, span }
    }
}

/// An item together with the span that holds it in its text.
#[derive(Debug, PartialEq, Eq, Hash, PartialOrd, Ord)]
pub struct WithSpan<T> {
    pub item: T,
    pub span: Span,
}

impl<T: Clone> Clone for WithSpan<T> {
    fn clone(&self) -> (copy: Self)
        ensures
            copy.span == self.span,
            cloned(self.item, copy.item),
    {
        WithSpan { item: self.item.clone(), span: self.span }
    }
}

impl<T> WithSpan<T> {
    pub fn new(item: T, span: Span) -> (spanned: WithSpan<T>)
        ensures
            spanned == (WithSpan { item, span }),
    {
        WithSpan { item, span }
    }

    /// Places the item in a text source.
    pub fn to_with_location(self, text_source: TextSource) -> (located: WithLocation<T>)
        ensures
            located.item == self.item,
            located.location == Location::Embedded(
                EmbeddedLocation { text_source, span: self.span },
            ),
    {
        WithLocation {
            location: Location::Embedded(EmbeddedLocation { text_source, span: self.span }),
            item: self.item,
        }
    }
}

} // verus!
