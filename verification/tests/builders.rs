use artifacts_mmo_api::correlate::{response_shape, DataShape, OperationKind, ResponseShape};
use artifacts_mmo_api::endpoints::characters::{
    get_all_characters, get_character, GetAllCharactersRequest, GetCharacterRequest,
};
use artifacts_mmo_api::endpoints::events::get_all_events;
use artifacts_mmo_api::endpoints::grand_exchange::{get_all_ge_items, get_ge_item};
use artifacts_mmo_api::endpoints::items::{get_all_items, get_item, GetAllItemsRequest, GetItemRequest};
use artifacts_mmo_api::endpoints::maps::{get_all_maps, get_map, GetAllMapsRequest, GetMapRequest};
use artifacts_mmo_api::endpoints::monsters::{
    get_all_monsters, get_monster, GetAllMonstersRequest, GetMonsterRequest,
};
use artifacts_mmo_api::endpoints::resources::{get_all_resources, get_resource};
use artifacts_mmo_api::endpoints::server::get_status;
use artifacts_mmo_api::rate_limits::LimitPer;
use artifacts_mmo_api::request::{HeaderName, Method};
use artifacts_mmo_api::schemas::{MapContentTypeSchema, SkillSchema};
use artifacts_mmo_api::Error;

#[test]
fn events_list_query_is_exact() {
    let req = get_all_events(2, 30).unwrap();
    assert_eq!(req.path, "/events/?page=2&size=30");
    assert_eq!(req.method, Method::Get);
    assert_eq!(req.headers.len(), 1);
    assert_eq!(req.headers[0].0, HeaderName::Accept);
    assert_eq!(req.headers[0].1, "application/json");
    assert!(req.content.is_empty());
    assert_eq!(req.rate_limit.id, "DATA");
    assert_eq!(
        req.rate_limit.requests_limits,
        vec![LimitPer::Seconds(20), LimitPer::Hours(7200)]
    );
    assert_eq!(req.kind, OperationKind::EventList);
}

#[test]
fn every_paginated_builder_succeeds_on_valid_page_and_size() {
    assert!(get_all_events(1, 1).is_ok());
    assert!(get_all_events(u32::MAX, 100).is_ok());
    assert!(get_all_ge_items(7, 99).is_ok());
    assert!(get_all_characters(GetAllCharactersRequest { page: 3, size: 42, sort: None }).is_ok());
    assert!(get_all_items(GetAllItemsRequest::new()).is_ok());
    assert!(get_all_monsters(GetAllMonstersRequest::new()).is_ok());
    assert!(get_all_maps(GetAllMapsRequest::new()).is_ok());
    assert!(get_all_resources(None, None, None, 1, 100).is_ok());
}

#[test]
fn every_paginated_builder_rejects_bad_page_or_size() {
    for (page, size) in [(0u32, 50u32), (1, 0), (1, 101), (0, 0), (5, 40000)] {
        let valid = page >= 1 && (1..=100).contains(&size);
        if valid {
            continue;
        }
        assert!(matches!(get_all_events(page, size), Err(Error::InvalidInput(_))));
        assert!(matches!(get_all_ge_items(page, size), Err(Error::InvalidInput(_))));
        assert!(matches!(
            get_all_characters(GetAllCharactersRequest { page, size, sort: None }),
            Err(Error::InvalidInput(_))
        ));
        let items_req = GetAllItemsRequest { page, size, drop: None, max_level: None, min_level: None };
        assert!(matches!(get_all_items(items_req), Err(Error::InvalidInput(_))));
        let monsters_req =
            GetAllMonstersRequest { page, size, drop: None, max_level: None, min_level: None };
        assert!(matches!(get_all_monsters(monsters_req), Err(Error::InvalidInput(_))));
        let maps_req =
            GetAllMapsRequest { page, size, content_code: None, content_type: None };
        assert!(matches!(get_all_maps(maps_req), Err(Error::InvalidInput(_))));
        assert!(matches!(
            get_all_resources(None, None, None, page, size),
            Err(Error::InvalidInput(_))
        ));
    }
}

#[test]
fn default_list_requests_use_page_one_size_fifty() {
    let req = get_all_items(GetAllItemsRequest::new()).unwrap();
    assert_eq!(req.path, "/items/?page=1&size=50");
    let req = get_all_maps(GetAllMapsRequest::new()).unwrap();
    assert_eq!(req.path, "/maps/?page=1&size=50");
    let req = get_all_characters(GetAllCharactersRequest::new()).unwrap();
    assert_eq!(req.path, "/characters/?page=1&size=50");
}

#[test]
fn items_filters_appear_only_when_supplied() {
    let req = get_all_items(GetAllItemsRequest {
        page: 1,
        size: 50,
        drop: Some("wood".to_string()),
        max_level: Some(10),
        min_level: Some(2),
    })
    .unwrap();
    assert_eq!(req.path, "/items/?page=1&size=50&drop=wood&max_level=10&min_level=2");
    let req = get_all_items(GetAllItemsRequest {
        page: 1,
        size: 50,
        drop: None,
        max_level: Some(10),
        min_level: None,
    })
    .unwrap();
    assert_eq!(req.path, "/items/?page=1&size=50&max_level=10");
}

#[test]
fn items_drop_filter_is_validated() {
    let req = GetAllItemsRequest {
        page: 1,
        size: 50,
        drop: Some("no spaces".to_string()),
        max_level: None,
        min_level: None,
    };
    assert!(matches!(get_all_items(req), Err(Error::InvalidInput(_))));
}

#[test]
fn monsters_list_and_get_paths() {
    let req = get_all_monsters(GetAllMonstersRequest {
        page: 2,
        size: 10,
        drop: Some("hide".to_string()),
        max_level: None,
        min_level: Some(5),
    })
    .unwrap();
    assert_eq!(req.path, "/monsters/?page=2&size=10&drop=hide&min_level=5");
    assert_eq!(req.kind, OperationKind::MonsterList);
    let req = get_monster(GetMonsterRequest { code: "red_slime".to_string() }).unwrap();
    assert_eq!(req.path, "/monsters/red_slime");
    assert_eq!(req.kind, OperationKind::MonsterGet);
}

#[test]
fn maps_filters_and_coordinates() {
    let req = get_all_maps(GetAllMapsRequest {
        page: 1,
        size: 50,
        content_code: Some("bank".to_string()),
        content_type: Some(MapContentTypeSchema::Bank),
    })
    .unwrap();
    assert_eq!(req.path, "/maps/?page=1&size=50&content_code=bank&content_type=bank");
    let req = get_map(GetMapRequest { x: 5, y: 17 }).unwrap();
    assert_eq!(req.path, "/maps/5/17");
    assert_eq!(req.kind, OperationKind::MapGet);
}

#[test]
fn resources_filters_in_order() {
    let req =
        get_all_resources(Some(30), Some(1), Some(SkillSchema::Woodcutting), 1, 50).unwrap();
    assert_eq!(
        req.path,
        "/resources/?page=1&size=50&max_level=30&min_level=1&skill=woodcutting"
    );
    let req = get_resource("ash_tree").unwrap();
    assert_eq!(req.path, "/resources/ash_tree");
}

#[test]
fn characters_sort_filter() {
    let req = get_all_characters(GetAllCharactersRequest {
        page: 1,
        size: 50,
        sort: Some(SkillSchema::Mining),
    })
    .unwrap();
    assert_eq!(req.path, "/characters/?page=1&size=50&sort=mining");
    let req = get_character(GetCharacterRequest { name: "Hero_1".to_string() }).unwrap();
    assert_eq!(req.path, "/characters/Hero_1");
}

#[test]
fn by_code_lookups_reject_bad_codes() {
    assert!(matches!(
        get_item(GetItemRequest { code: "".to_string() }),
        Err(Error::InvalidInput(_))
    ));
    assert!(matches!(
        get_monster(GetMonsterRequest { code: "a b".to_string() }),
        Err(Error::InvalidInput(_))
    ));
    assert!(matches!(get_resource("dot.dot"), Err(Error::InvalidInput(_))));
    assert!(matches!(get_ge_item("\u{dc}"), Err(Error::InvalidInput(_))));
    assert!(matches!(
        get_character(GetCharacterRequest { name: "a/b".to_string() }),
        Err(Error::InvalidInput(_))
    ));
}

#[test]
fn ge_item_path_is_exact() {
    let req = get_ge_item("copper_ore").unwrap();
    assert_eq!(req.path, "/ge/copper_ore");
    assert_eq!(req.kind, OperationKind::GrandExchangeGet);
    let req = get_all_ge_items(4, 25).unwrap();
    assert_eq!(req.path, "/ge/?page=4&size=25");
    assert_eq!(req.kind, OperationKind::GrandExchangeList);
}

#[test]
fn oversized_code_is_an_encoding_error() {
    let huge = "a".repeat(70_000);
    assert!(matches!(get_item(GetItemRequest { code: huge }), Err(Error::EncodingError(_))));
}

#[test]
fn status_probe_shape() {
    let req = get_status();
    assert_eq!(req.path, "/");
    assert_eq!(req.method, Method::Get);
    assert!(req.content.is_empty());
    assert_eq!(req.rate_limit.id, "NO_LIMIT");
    assert!(req.rate_limit.requests_limits.is_empty());
    assert_eq!(req.kind, OperationKind::ServerStatus);
}

#[test]
fn same_input_gives_identical_descriptors() {
    let a = get_all_events(9, 33).unwrap();
    let b = get_all_events(9, 33).unwrap();
    assert_eq!(a, b);
    let a = get_item(GetItemRequest { code: "iron_sword".to_string() }).unwrap();
    let b = get_item(GetItemRequest { code: "iron_sword".to_string() }).unwrap();
    assert_eq!(a, b);
}

#[test]
fn response_shapes_are_fixed_per_operation() {
    assert_eq!(response_shape(OperationKind::AccountCreate), Some(ResponseShape::Message));
    assert_eq!(
        response_shape(OperationKind::CharacterCreate),
        Some(ResponseShape::Single(DataShape::Character))
    );
    assert_eq!(
        response_shape(OperationKind::CharacterList),
        Some(ResponseShape::Paginated(DataShape::Character))
    );
    assert_eq!(
        response_shape(OperationKind::ItemGet),
        Some(ResponseShape::Single(DataShape::Item))
    );
    assert_eq!(
        response_shape(OperationKind::MapList),
        Some(ResponseShape::Paginated(DataShape::GameMap))
    );
    assert_eq!(
        response_shape(OperationKind::GrandExchangeList),
        Some(ResponseShape::Paginated(DataShape::GrandExchangeItem))
    );
    assert_eq!(response_shape(OperationKind::TokenGenerate), Some(ResponseShape::Token));
    assert_eq!(response_shape(OperationKind::ServerStatus), None);
    assert_eq!(response_shape(OperationKind::EventList), None);
}

#[test]
fn rate_limit_registry_values() {
    let r = artifacts_mmo_api::rate_limits::account_creation_rate_limit();
    assert_eq!(r.id, "ACCOUNT_CREATION");
    assert_eq!(r.requests_limits, vec![LimitPer::Hours(50)]);
    let r = artifacts_mmo_api::rate_limits::token_rate_limit();
    assert_eq!(r.id, "TOKEN");
    assert_eq!(r.requests_limits, vec![LimitPer::Hours(50)]);
    let r = artifacts_mmo_api::rate_limits::data_rate_limit();
    assert_eq!(r.id, "DATA");
    assert_eq!(r.requests_limits, vec![LimitPer::Seconds(20), LimitPer::Hours(7200)]);
    let r = artifacts_mmo_api::rate_limits::actions_rate_limit();
    assert_eq!(r.id, "ACTIONS");
    assert_eq!(r.requests_limits, vec![LimitPer::Seconds(5), LimitPer::Hours(7200)]);
}
