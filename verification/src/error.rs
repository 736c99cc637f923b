//! The ways in which a query can fail.

use crate::text::{decimal, decimal_text};
use vstd::prelude::*;

verus! {

/// A kind of entity that a query can ask for.
#[derive(Debug, Clone, Copy, PartialEq, Eq, Structural)]
pub enum EntityKind {
    Team,
    League,
    Player,
}

impl EntityKind {
    /// The name of the kind as messages write it.
    pub open spec fn spec_name(&self) -> &'static str {
        match self {
            EntityKind::Team => "Team",
            EntityKind::League => "League",
            EntityKind::Player => "Player",
        }
    }

    /// The name of the kind as messages write it.
    #[verifier::when_used_as_spec(spec_name)]
    pub fn name(&self) -> (name: &'static str)
        ensures
            name == self.spec_name(),
    {
        match self {
            EntityKind::Team => "Team",
            EntityKind::League => "League",
            EntityKind::Player => "Player",
        }
    }
}

/// What a query named an entity by.
#[derive(Debug, Clone, PartialEq, Eq)]
pub enum Identifier {
    Slug(String),
    Id(u32),
}

/// An identifier with its text as a sequence of characters.
pub enum IdentifierView {
    Slug(Seq<char>),
    Id(u32),
}

impl View for Identifier {
    type V = IdentifierView;

    open spec fn view(&self) -> IdentifierView {
        match self {
            Identifier::Slug(slug) => IdentifierView::Slug(slug@),
            Identifier::Id(id) => IdentifierView::Id(*id),
        }
    }
}

/// Why a query gave no answer.
#[derive(Debug, Clone, PartialEq, Eq)]
pub enum QueryError {
    /// No snapshot has been loaded yet.
    NotLoaded,
    /// The snapshot has no slug index.
    IndexUnavailable,
    /// Nothing of the kind `entity` goes by `identifier`.
    NotFound { entity: EntityKind, identifier: Identifier },
    /// The text of a request does not have the form that is asked for.
    MalformedInput { input: String },
}

/// A query error with its text as a sequence of characters.
pub enum QueryErrorView {
    NotLoaded,
    IndexUnavailable,
    NotFound { entity: EntityKind, identifier: IdentifierView },
    MalformedInput { input: Seq<char> },
}

impl View for QueryError {
    type V = QueryErrorView;

    open spec fn view(&self) -> QueryErrorView {
        match self {
            QueryError::NotLoaded => QueryErrorView::NotLoaded,
            QueryError::IndexUnavailable => QueryErrorView::IndexUnavailable,
            QueryError::NotFound { entity, identifier } => QueryErrorView::NotFound {
                entity: *entity,
                identifier: identifier@,
            },
            QueryError::MalformedInput { input } => QueryErrorView::MalformedInput { input: input@ },
        }
    }
}

/// The error for a slug that names nothing of the kind `entity`.
pub open spec fn slug_not_found(entity: EntityKind, slug: Seq<char>) -> QueryErrorView {
    QueryErrorView::NotFound { entity, identifier: IdentifierView::Slug(slug) }
}

/// The error for an id that names nothing of the kind `entity`.
pub open spec fn id_not_found(entity: EntityKind, id: u32) -> QueryErrorView {
    QueryErrorView::NotFound { entity, identifier: IdentifierView::Id(id) }
}

/// An answer to a query with its texts as sequences of characters.
pub open spec fn answer_view<T: View>(answer: Result<T, QueryError>) -> Result<T::V, QueryErrorView> {
    match answer {
        Ok(value) => Ok(value@),
        Err(error) => Err(error@),
    }
}

/// The message of an error: one fixed sentence for each kind of failure,
/// with the kind of entity and the identifier where one was not found.
pub open spec fn message_text(error: QueryErrorView) -> Seq<char> {
    match error {
        QueryErrorView::NotLoaded => "Simulator data not loaded"@,
        QueryErrorView::IndexUnavailable => "Indexes not available"@,
        QueryErrorView::NotFound { entity, identifier } => match identifier {
            IdentifierView::Slug(slug) => entity.name()@ + " '"@ + slug + "' not found"@,
            IdentifierView::Id(id) => entity.name()@ + " with ID "@ + decimal_text(id as nat)
                + " not found"@,
        },
        QueryErrorView::MalformedInput { input } => "Malformed input '"@ + input + "'"@,
    }
}

impl QueryError {
    /// The message of this error.
    pub fn message(&self) -> (message: String)
        ensures
            message@ == message_text(self@),
    {
        match self {
            QueryError::NotLoaded => "Simulator data not loaded".to_owned(),
            QueryError::IndexUnavailable => "Indexes not available".to_owned(),
            QueryError::NotFound { entity, identifier } => {
                let mut message: String = entity.name().to_owned();
                match identifier {
                    Identifier::Slug(slug) => {
                        message.append(" '");
                        message.append(slug.as_str());
                        message.append("' not found");
                    },
                    Identifier::Id(id) => {
                        message.append(" with ID ");
                        let digits = decimal(*id);
                        message.append(digits.as_str());
                        message.append(" not found");
                    },
                }
                message
            },
            QueryError::MalformedInput { input } => {
                let mut message: String = "Malformed input '".to_owned();
                message.append(input.as_str());
                message.append("'");
                message
            },
        }
    }

    /// The error for a text that does not have the form that is asked for.
    pub fn malformed(input: &str) -> (error: QueryError)
        ensures
            error@ == (QueryErrorView::MalformedInput { input: input@ }),
    {
        QueryError::MalformedInput { input: input.to_owned() }
    }

    /// The error for a slug that names nothing of the kind `entity`.
    pub fn no_such_slug(entity: EntityKind, slug: &str) -> (error: QueryError)
        ensures
            error@ == slug_not_found(entity, slug@),
    {
        QueryError::NotFound { entity, identifier: Identifier::Slug(slug.to_owned()) }
    }

    /// The error for an id that names nothing of the kind `entity`.
    pub fn no_such_id(entity: EntityKind, id: u32) -> (error: QueryError)
        ensures
            error@ == id_not_found(entity, id),
    {
        QueryError::NotFound { entity, identifier: Identifier::Id(id) }
    }
}

} // verus!
