//! Response correlation: the static association between the operation that
//! produced a request descriptor and the shape its response body decodes to.
//! Generic envelope shapes are reused across the per-domain item shapes.

use vstd::prelude::*;

verus! {

/// The operation a descriptor was built by. Every endpoint builder stamps
/// exactly one of these tags on its output; the tag is fixed at design time,
/// never computed from input.
#[derive(Debug, Clone, Copy, PartialEq, Eq, Structural)]
pub enum OperationKind {
    AccountCreate,
    CharacterCreate,
    CharacterList,
    CharacterGet,
    EventList,
    GrandExchangeList,
    GrandExchangeGet,
    ItemList,
    ItemGet,
    MapList,
    MapGet,
    MonsterList,
    MonsterGet,
    ResourceList,
    ResourceGet,
    ServerStatus,
    TokenGenerate,
}

/// The per-domain item shapes that the envelopes wrap.
#[derive(Debug, Clone, Copy, PartialEq, Eq, Structural)]
pub enum DataShape {
    Character,
    Item,
    Monster,
    Resource,
    GameMap,
    GrandExchangeItem,
}

/// The shape a successful decode of a response body takes.
#[derive(Debug, Clone, Copy, PartialEq, Eq, Structural)]
pub enum ResponseShape {
    /// The single-item envelope `{data: T}` around one item shape.
    Single(DataShape),
    /// The paginated envelope `{data: [T], total, page, size, pages}`.
    Paginated(DataShape),
    /// A bare message payload, as account creation returns.
    Message,
    /// A bearer-token payload, as the token exchange returns.
    Token,
}

/// The association from operation to response shape. It is total over every
/// operation that expects a response body; the liveness probe and the event
/// list carry no association.
pub open spec fn spec_response_shape(kind: OperationKind) -> Option<ResponseShape> {
    match kind {
        OperationKind::AccountCreate => Some(ResponseShape::Message),
        OperationKind::CharacterCreate => Some(ResponseShape::Single(DataShape::Character)),
        OperationKind::CharacterList => Some(ResponseShape::Paginated(DataShape::Character)),
        OperationKind::CharacterGet => Some(ResponseShape::Single(DataShape::Character)),
        OperationKind::EventList => None,
        OperationKind::GrandExchangeList => Some(
            ResponseShape::Paginated(DataShape::GrandExchangeItem),
        ),
        OperationKind::GrandExchangeGet => Some(
            ResponseShape::Single(DataShape::GrandExchangeItem),
        ),
        OperationKind::ItemList => Some(ResponseShape::Paginated(DataShape::Item)),
        OperationKind::ItemGet => Some(ResponseShape::Single(DataShape::Item)),
        OperationKind::MapList => Some(ResponseShape::Paginated(DataShape::GameMap)),
        OperationKind::MapGet => Some(ResponseShape::Single(DataShape::GameMap)),
        OperationKind::MonsterList => Some(ResponseShape::Paginated(DataShape::Monster)),
        OperationKind::MonsterGet => Some(ResponseShape::Single(DataShape::Monster)),
        OperationKind::ResourceList => Some(ResponseShape::Paginated(DataShape::Resource)),
        OperationKind::ResourceGet => Some(ResponseShape::Single(DataShape::Resource)),
        OperationKind::ServerStatus => None,
        OperationKind::TokenGenerate => Some(ResponseShape::Token),
    }
}

/// Resolve the response shape for an operation. The result depends on the
/// operation tag alone, so a caller holding a descriptor from a specific
/// builder can select the right decoder without re-stating the shape.
pub fn response_shape(kind: OperationKind) -> (r: Option<ResponseShape>)
    ensures
        r == spec_response_shape(kind),
{
    match kind {
        OperationKind::AccountCreate => Some(ResponseShape::Message),
        OperationKind::CharacterCreate => Some(ResponseShape::Single(DataShape::Character)),
        OperationKind::CharacterList => Some(ResponseShape::Paginated(DataShape::Character)),
        OperationKind::CharacterGet => Some(ResponseShape::Single(DataShape::Character)),
        OperationKind::EventList => None,
        OperationKind::GrandExchangeList => Some(
            ResponseShape::Paginated(DataShape::GrandExchangeItem),
        ),
        OperationKind::GrandExchangeGet => Some(
            ResponseShape::Single(DataShape::GrandExchangeItem),
        ),
        OperationKind::ItemList => Some(ResponseShape::Paginated(DataShape::Item)),
        OperationKind::ItemGet => Some(ResponseShape::Single(DataShape::Item)),
        OperationKind::MapList => Some(ResponseShape::Paginated(DataShape::GameMap)),
        OperationKind::MapGet => Some(ResponseShape::Single(DataShape::GameMap)),
        OperationKind::MonsterList => Some(ResponseShape::Paginated(DataShape::Monster)),
        OperationKind::MonsterGet => Some(ResponseShape::Single(DataShape::Monster)),
        OperationKind::ResourceList => Some(ResponseShape::Paginated(DataShape::Resource)),
        OperationKind::ResourceGet => Some(ResponseShape::Single(DataShape::Resource)),
        OperationKind::ServerStatus => None,
        OperationKind::TokenGenerate => Some(ResponseShape::Token),
    }
}

} // verus!
