//! Structural descriptions of the payloads a decoder produces: the single-item
//! and paginated envelopes, and the per-domain item shapes. These are passive
//! data; the two enums also render their query-string form.

use vstd::prelude::*;

use crate::chars::{all_name_chars, spec_name_char};

verus! {

/// The single-item envelope: `{data: T}`.
#[derive(Debug, Clone, PartialEq, Eq)]
pub struct ResponseSchema<T> {
    pub data: T,
}

/// The paginated envelope: `{data: [T], total, page, size, pages}`.
#[derive(Debug, Clone, PartialEq, Eq)]
pub struct PaginatedResponseSchema<T> {
    pub data: Vec<T>,
    pub total: u32,
    pub page: u32,
    pub size: u32,
    pub pages: u32,
}

/// A bearer token as issued by the token endpoint.
#[derive(Debug, Clone, PartialEq, Eq)]
pub struct BearerToken(pub String);

/// Payload of a successful token exchange.
#[derive(Debug, Clone, PartialEq, Eq)]
pub struct TokenSchema {
    pub token: BearerToken,
}

/// A server announcement. The creation time is kept as an opaque string; its
/// format is not fixed by this crate.
#[derive(Debug, Clone, PartialEq, Eq)]
pub struct AnnouncementSchema {
    pub message: String,
    pub created_at: String,
}

/// The server status payload. The two wipe fields are date-like but their
/// format is undocumented upstream, so they stay opaque strings.
#[derive(Debug, Clone, PartialEq, Eq)]
pub struct StatusSchema {
    pub status: String,
    pub version: String,
    pub characters_online: u32,
    pub announcements: Vec<AnnouncementSchema>,
    pub last_wipe: String,
    pub next_wipe: String,
}

/// A gathering skill.
#[derive(Debug, Clone, Copy, PartialEq, Eq, Structural)]
pub enum SkillSchema {
    Mining,
    Woodcutting,
    Fishing,
}

impl SkillSchema {
    /// The snake_case form this skill takes in a query string.
    pub open spec fn spec_query_str(self) -> Seq<char> {
        match self {
            SkillSchema::Mining => "mining"@,
            SkillSchema::Woodcutting => "woodcutting"@,
            SkillSchema::Fishing => "fishing"@,
        }
    }

    pub fn query_str(&self) -> (r: &'static str)
        ensures
            r@ == self.spec_query_str(),
    {
        match self {
            SkillSchema::Mining => "mining",
            SkillSchema::Woodcutting => "woodcutting",
            SkillSchema::Fishing => "fishing",
        }
    }
}

/// The kind of content a map square can carry, as used by the map filters.
#[derive(Debug, Clone, Copy, PartialEq, Eq, Structural)]
pub enum MapContentTypeSchema {
    Monster,
    Resource,
    Workshop,
    Bank,
    GrandExchange,
    TasksMaster,
}

impl MapContentTypeSchema {
    /// The snake_case form this content type takes in a query string.
    pub open spec fn spec_query_str(self) -> Seq<char> {
        match self {
            MapContentTypeSchema::Monster => "monster"@,
            MapContentTypeSchema::Resource => "resource"@,
            MapContentTypeSchema::Workshop => "workshop"@,
            MapContentTypeSchema::Bank => "bank"@,
            MapContentTypeSchema::GrandExchange => "grand_exchange"@,
            MapContentTypeSchema::TasksMaster => "tasks_master"@,
        }
    }

    pub fn query_str(&self) -> (r: &'static str)
        ensures
            r@ == self.spec_query_str(),
    {
        match self {
            MapContentTypeSchema::Monster => "monster",
            MapContentTypeSchema::Resource => "resource",
            MapContentTypeSchema::Workshop => "workshop",
            MapContentTypeSchema::Bank => "bank",
            MapContentTypeSchema::GrandExchange => "grand_exchange",
            MapContentTypeSchema::TasksMaster => "tasks_master",
        }
    }
}

/// A skill's query form is short and made of name characters.
pub proof fn lemma_skill_query_chars(s: SkillSchema)
    ensures
        all_name_chars(s.spec_query_str()),
        1 <= s.spec_query_str().len() <= 11,
{
    reveal_strlit("mining");
    reveal_strlit("woodcutting");
    reveal_strlit("fishing");
    match s {
        SkillSchema::Mining => {
            assert forall|i: int| 0 <= i < "mining"@.len() implies spec_name_char(
                "mining"@[i],
            ) by {}
        },
        SkillSchema::Woodcutting => {
            assert forall|i: int| 0 <= i < "woodcutting"@.len() implies spec_name_char(
                "woodcutting"@[i],
            ) by {}
        },
        SkillSchema::Fishing => {
            assert forall|i: int| 0 <= i < "fishing"@.len() implies spec_name_char(
                "fishing"@[i],
            ) by {}
        },
    }
}

/// A content type's query form is short and made of name characters.
pub proof fn lemma_content_type_query_chars(t: MapContentTypeSchema)
    ensures
        all_name_chars(t.spec_query_str()),
        1 <= t.spec_query_str().len() <= 14,
{
    reveal_strlit("monster");
    reveal_strlit("resource");
    reveal_strlit("workshop");
    reveal_strlit("bank");
    reveal_strlit("grand_exchange");
    reveal_strlit("tasks_master");
    match t {
        MapContentTypeSchema::Monster => {
            assert forall|i: int| 0 <= i < "monster"@.len() implies spec_name_char(
                "monster"@[i],
            ) by {}
        },
        MapContentTypeSchema::Resource => {
            assert forall|i: int| 0 <= i < "resource"@.len() implies spec_name_char(
                "resource"@[i],
            ) by {}
        },
        MapContentTypeSchema::Workshop => {
            assert forall|i: int| 0 <= i < "workshop"@.len() implies spec_name_char(
                "workshop"@[i],
            ) by {}
        },
        MapContentTypeSchema::Bank => {
            assert forall|i: int| 0 <= i < "bank"@.len() implies spec_name_char("bank"@[i]) by {}
        },
        MapContentTypeSchema::GrandExchange => {
            assert forall|i: int| 0 <= i < "grand_exchange"@.len() implies spec_name_char(
                "grand_exchange"@[i],
            ) by {}
        },
        MapContentTypeSchema::TasksMaster => {
            assert forall|i: int| 0 <= i < "tasks_master"@.len() implies spec_name_char(
                "tasks_master"@[i],
            ) by {}
        },
    }
}

/// An item reference with a quantity, as used inside a craft recipe.
#[derive(Debug, Clone, PartialEq, Eq)]
pub struct SimpleItemSchema {
    pub code: String,
    pub quantity: u32,
}

/// How an item is crafted.
#[derive(Debug, Clone, PartialEq, Eq)]
pub struct CraftSchema {
    pub skill: SkillSchema,
    pub level: u32,
    pub items: Vec<SimpleItemSchema>,
    pub quantity: u32,
}

/// One effect an item carries.
#[derive(Debug, Clone, PartialEq, Eq)]
pub struct ItemEffectSchema {
    pub name: String,
    pub value: i64,
}

/// An item of the game.
#[derive(Debug, Clone, PartialEq, Eq)]
pub struct ItemSchema {
    pub name: String,
    pub code: String,
    pub level: u32,
    pub item_type: String,
    pub subtype: String,
    pub description: String,
    pub effects: Vec<ItemEffectSchema>,
    pub craft: Option<CraftSchema>,
}

/// One grand-exchange listing.
#[derive(Debug, Clone, PartialEq, Eq)]
pub struct GEItemSchema {
    pub code: String,
    pub stock: u32,
    pub sell_price: u32,
    pub buy_price: u32,
}

/// The paginated grand-exchange envelope.
#[derive(Debug, Clone, PartialEq, Eq)]
pub struct GEItemResponse {
    pub data: Vec<GEItemSchema>,
    pub total: u32,
    pub page: u32,
    pub size: u32,
    pub pages: u32,
}

/// A playable character.
#[derive(Debug, Clone, PartialEq, Eq)]
pub struct CharacterSchema {
    pub name: String,
    pub skin: String,
    pub level: u32,
}

/// A monster.
#[derive(Debug, Clone, PartialEq, Eq)]
pub struct MonsterSchema {
    pub name: String,
    pub code: String,
    pub level: u32,
    pub hp: u32,
}

/// A gatherable resource.
#[derive(Debug, Clone, PartialEq, Eq)]
pub struct ResourceSchema {
    pub name: String,
    pub code: String,
    pub skill: SkillSchema,
    pub level: u32,
}

/// What stands on one map square.
#[derive(Debug, Clone, PartialEq, Eq)]
pub struct MapContentSchema {
    pub content_type: MapContentTypeSchema,
    pub code: String,
}

/// One map square.
#[derive(Debug, Clone, PartialEq, Eq)]
pub struct MapSchema {
    pub name: String,
    pub x: u32,
    pub y: u32,
    pub content: Option<MapContentSchema>,
}

} // verus!
