use daummap::address::{
    AddressResponse, RawAddressDocument, RawAddressResponse, RawLandLotAddress, RawRoadAddress,
};
use daummap::category::{
    place_from_raw, CategoryGroup, CategoryResponse, ParseCategoryGroup, RawCategoryResponse,
};
use daummap::coord::{
    coord_addresses_from_raw, regions_from_raw, RawCoordAddressResponse, RawCoordDocument,
    RawCoordLandLot, RawCoordRoad, RawRegion, RawRegionResponse,
};
use daummap::keyword::{KeywordResponse, Place, RawKeywordResponse};
use daummap::text::{parse_usize, usize_to_dec};
use daummap::Meta;

#[test]
fn decimal_rendering() {
    assert_eq!(usize_to_dec(0), "0");
    assert_eq!(usize_to_dec(7), "7");
    assert_eq!(usize_to_dec(10), "10");
    assert_eq!(usize_to_dec(123), "123");
    assert_eq!(usize_to_dec(usize::MAX), format!("{}", usize::MAX));
}

#[test]
fn decimal_parsing() {
    assert_eq!(parse_usize("123"), Some(123));
    assert_eq!(parse_usize("+123"), Some(123));
    assert_eq!(parse_usize("00123"), Some(123));
    assert_eq!(parse_usize("0"), Some(0));
    assert_eq!(parse_usize(""), None);
    assert_eq!(parse_usize("+"), None);
    assert_eq!(parse_usize("12a"), None);
    assert_eq!(parse_usize("a12"), None);
    assert_eq!(parse_usize("-1"), None);
    assert_eq!(parse_usize(" 1"), None);
    assert_eq!(parse_usize("99999999999999999999999999999999"), None);
    assert_eq!(parse_usize(&format!("{}", usize::MAX)), Some(usize::MAX));
    assert_eq!(parse_usize(&format!("{}", usize::MAX as u128 + 1)), None);
}

#[test]
fn category_codes_round_trip() {
    let groups = [
        (CategoryGroup::Mart, "MT1"),
        (CategoryGroup::ConvStore, "CS2"),
        (CategoryGroup::Kindergarten, "PS3"),
        (CategoryGroup::School, "SC4"),
        (CategoryGroup::Academy, "AC5"),
        (CategoryGroup::Parking, "PK6"),
        (CategoryGroup::Oil, "OL7"),
        (CategoryGroup::Station, "SW8"),
        (CategoryGroup::Bank, "BK9"),
        (CategoryGroup::Culture, "CT1"),
        (CategoryGroup::Agency, "AG2"),
        (CategoryGroup::PubOffice, "PO3"),
        (CategoryGroup::Tour, "AT4"),
        (CategoryGroup::Accommodation, "AD5"),
        (CategoryGroup::Food, "FD6"),
        (CategoryGroup::Cafe, "CE7"),
        (CategoryGroup::Hospital, "HP8"),
        (CategoryGroup::Pharmacy, "PM9"),
    ];
    for (g, code) in groups {
        assert_eq!(g.to_code(), code);
        assert_eq!(CategoryGroup::from_code(code).unwrap(), g);
    }
}

#[test]
fn unknown_category_code_is_an_error() {
    let e: ParseCategoryGroup = CategoryGroup::from_code("XXX").unwrap_err();
    assert_eq!(e.0, "XXX");
    assert_eq!(e.message(), "Cannot parse category group from XXX");
    assert!(CategoryGroup::from_code("").is_err());
    assert!(CategoryGroup::from_code("mt1").is_err());
}

fn sample_land_lot() -> RawLandLotAddress {
    RawLandLotAddress {
        address_name: "전북 익산시 부송동 100".to_string(),
        region_1depth_name: "전북".to_string(),
        region_2depth_name: "익산시".to_string(),
        region_3depth_name: "부송동".to_string(),
        region_3depth_h_name: "삼성동".to_string(),
        h_code: "4514069000".to_string(),
        b_code: "4514013400".to_string(),
        mountain_yn: "N".to_string(),
        main_address_no: "100".to_string(),
        sub_address_no: "".to_string(),
        zip_code: "570972".to_string(),
        x: "126.99597295767953".to_string(),
        y: "35.97664845766847".to_string(),
    }
}

fn sample_road() -> RawRoadAddress {
    RawRoadAddress {
        address_name: "전북 익산시 망산길 11-17".to_string(),
        region_1depth_name: "전북".to_string(),
        region_2depth_name: "익산시".to_string(),
        region_3depth_name: "부송동".to_string(),
        road_name: "망산길".to_string(),
        underground_yn: "N".to_string(),
        main_building_no: "11".to_string(),
        sub_building_no: "17".to_string(),
        building_name: "".to_string(),
        zone_no: "54547".to_string(),
        x: "126.99599512792346".to_string(),
        y: "35.976749396987046".to_string(),
    }
}

#[test]
fn test_address() {
    let raw = RawAddressResponse {
        documents: vec![RawAddressDocument {
            address_name: Some("전북 익산시 부송동 100".to_string()),
            address: Some(sample_land_lot()),
            road_address: Some(sample_road()),
        }],
        meta: Meta { total_count: 4, pageable_count: 4, is_end: true },
    };
    let resp = AddressResponse::from_raw(raw);
    assert_eq!(resp.total_count, 4);
    assert_eq!(resp.pageable_count, 4);
    assert_eq!(resp.is_end, true);
    assert_eq!(resp.addresses.len(), 1);

    let address = &resp.addresses[0];
    assert_eq!(address.address, Some("전북 익산시 부송동 100".to_string()));

    let land_lot = address.land_lot.as_ref().unwrap();
    assert_eq!(land_lot.address, "전북 익산시 부송동 100");
    assert_eq!(land_lot.province, "전북");
    assert_eq!(land_lot.city, "익산시");
    assert_eq!(land_lot.town, "부송동");
    assert_eq!(land_lot.neighborhood, Some("삼성동".to_string()));
    assert_eq!(land_lot.h_code, Some(4514069000));
    assert_eq!(land_lot.b_code, Some(4514013400));
    assert_eq!(land_lot.is_mountain, Some(false));
    assert_eq!(land_lot.main_address_number, Some(100));
    assert_eq!(land_lot.sub_address_number, None);
    assert_eq!(land_lot.zip_code, Some(570972));
    assert_eq!(land_lot.longitude, Some("126.99597295767953".to_string()));
    assert_eq!(land_lot.latitude, Some("35.97664845766847".to_string()));

    let road = address.road.as_ref().unwrap();
    assert_eq!(road.address, "전북 익산시 망산길 11-17");
    assert_eq!(road.road_name, "망산길");
    assert_eq!(road.is_underground, false);
    assert_eq!(road.main_building_number, Some(11));
    assert_eq!(road.sub_building_number, Some(17));
    assert_eq!(road.building_name, "");
    assert_eq!(road.post_code, Some(54547));
}

#[test]
fn documents_without_any_rendering_are_dropped() {
    let raw = RawAddressResponse {
        documents: vec![
            RawAddressDocument {
                address_name: Some("bare line".to_string()),
                address: None,
                road_address: None,
            },
            RawAddressDocument {
                address_name: None,
                address: Some(sample_land_lot()),
                road_address: None,
            },
        ],
        meta: Meta { total_count: 2, pageable_count: 2, is_end: true },
    };
    let resp = AddressResponse::from_raw(raw);
    assert_eq!(resp.addresses.len(), 1);
    assert!(resp.addresses[0].land_lot.is_some());
    assert!(resp.addresses[0].road.is_none());
    assert_eq!(resp.addresses[0].address, None);
}

#[test]
fn empty_optional_fields_stay_absent() {
    let mut raw = sample_land_lot();
    raw.region_3depth_h_name = "".to_string();
    raw.mountain_yn = "".to_string();
    raw.h_code = "".to_string();
    let a = daummap::address::LandLotAddress::from_raw(raw);
    assert_eq!(a.neighborhood, None);
    assert_eq!(a.is_mountain, None);
    assert_eq!(a.h_code, None);

    let mut raw2 = sample_land_lot();
    raw2.mountain_yn = "Y".to_string();
    let a2 = daummap::address::LandLotAddress::from_raw(raw2);
    assert_eq!(a2.is_mountain, Some(true));
}

#[test]
fn test_coord2region() {
    let raw = RawRegionResponse {
        documents: vec![
            RawRegion {
                address_name: "경기도 성남시 분당구 삼평동".to_string(),
                region_1depth_name: "경기도".to_string(),
                region_2depth_name: "성남시 분당구".to_string(),
                region_3depth_name: "삼평동".to_string(),
                region_4depth_name: "".to_string(),
                code: "4113510900".to_string(),
                x: "127.10459896729914".to_string(),
                y: "37.40269721785548".to_string(),
            },
            RawRegion {
                address_name: "경기도 성남시 분당구 삼평동".to_string(),
                region_1depth_name: "경기도".to_string(),
                region_2depth_name: "성남시 분당구".to_string(),
                region_3depth_name: "삼평동".to_string(),
                region_4depth_name: "".to_string(),
                code: "4113565500".to_string(),
                x: "127.1163593869371".to_string(),
                y: "37.40612091848614".to_string(),
            },
        ],
    };
    let regions = regions_from_raw(raw);
    assert_eq!(regions.len(), 2);
    assert_eq!(regions[0].address, "경기도 성남시 분당구 삼평동");
    assert_eq!(regions[0].code, Some(4113510900));
    assert_eq!(regions[0].province, "경기도");
    assert_eq!(regions[0].neighborhood, "");
    assert_eq!(regions[0].longitude, Some("127.10459896729914".to_string()));
    assert_eq!(regions[1].address, "경기도 성남시 분당구 삼평동");
    assert_eq!(regions[1].code, Some(4113565500));
}

#[test]
fn test_coord2address() {
    let raw = RawCoordAddressResponse {
        documents: vec![RawCoordDocument {
            address: Some(RawCoordLandLot {
                address_name: "경기 안성시 죽산면 죽산리 343-1".to_string(),
                region_1depth_name: "경기".to_string(),
                region_2depth_name: "안성시".to_string(),
                region_3depth_name: "죽산면 죽산리".to_string(),
                mountain_yn: "N".to_string(),
                main_address_no: "343".to_string(),
                sub_address_no: "1".to_string(),
                zip_code: "456894".to_string(),
            }),
            road_address: Some(RawCoordRoad {
                address_name: "경기도 안성시 죽산면 죽산초교길 69-4".to_string(),
                region_1depth_name: "경기".to_string(),
                region_2depth_name: "안성시".to_string(),
                region_3depth_name: "죽산면".to_string(),
                road_name: "죽산초교길".to_string(),
                underground_yn: "N".to_string(),
                main_building_no: "69".to_string(),
                sub_building_no: "4".to_string(),
                building_name: "무지개아파트".to_string(),
                zone_no: "17519".to_string(),
            }),
        }],
    };
    let addresses = coord_addresses_from_raw(raw);
    assert_eq!(addresses.len(), 1);

    let address = &addresses[0];
    assert_eq!(address.address, None);

    let land_lot = address.land_lot.as_ref().unwrap();
    assert_eq!(land_lot.address, "경기 안성시 죽산면 죽산리 343-1");
    assert_eq!(land_lot.main_address_number, Some(343));
    assert_eq!(land_lot.sub_address_number, Some(1));
    assert_eq!(land_lot.zip_code, Some(456894));
    assert_eq!(land_lot.neighborhood, None);
    assert_eq!(land_lot.h_code, None);
    assert_eq!(land_lot.longitude, None);

    let road = address.road.as_ref().unwrap();
    assert_eq!(road.address, "경기도 안성시 죽산면 죽산초교길 69-4");
    assert_eq!(road.building_name, "무지개아파트");
    assert_eq!(road.post_code, Some(17519));
    assert_eq!(road.is_underground, false);
    assert_eq!(road.longitude, None);
}

#[test]
fn test_keyword() {
    let raw = RawKeywordResponse {
        documents: vec![daummap::keyword::RawPlace {
            id: "26338954".to_string(),
            place_name: "카카오프렌즈 코엑스점".to_string(),
            category_group_name: "".to_string(),
            category_group_code: "".to_string(),
            phone: "02-6002-1880".to_string(),
            address_name: "서울 강남구 삼성동 159".to_string(),
            road_address_name: "서울 강남구 영동대로 513".to_string(),
            x: "127.05902969025047".to_string(),
            y: "37.51207412593136".to_string(),
            place_url: "http://place.map.daum.net/26338954".to_string(),
            distance: "418".to_string(),
        }],
        meta: Meta { total_count: 14, pageable_count: 14, is_end: true },
    };
    let resp = KeywordResponse::from_raw(raw);
    assert_eq!(resp.total_count, 14);
    assert_eq!(resp.pageable_count, 14);
    assert_eq!(resp.is_end, true);
    assert_eq!(resp.places.len(), 1);

    let place: &Place = &resp.places[0];
    assert_eq!(place.name, "카카오프렌즈 코엑스점");
    assert_eq!(place.id, Some(26338954));
    assert_eq!(place.category_group, None);
    assert_eq!(place.distance, Some(418));
    assert_eq!(place.longitude, Some("127.05902969025047".to_string()));
    assert_eq!(place.url, "http://place.map.daum.net/26338954");
}

#[test]
fn test_category() {
    let raw = RawCategoryResponse {
        documents: vec![daummap::category::RawPlace {
            id: "16618597".to_string(),
            place_name: "장생당약국".to_string(),
            category_name: "의료,건강 > 약국".to_string(),
            category_group_code: "PM9".to_string(),
            phone: "02-558-5476".to_string(),
            address_name: "서울 강남구 대치동 943-16".to_string(),
            road_address_name: "서울 강남구 테헤란로84길 17".to_string(),
            x: "127.05897078335246".to_string(),
            y: "37.506051888130386".to_string(),
            place_url: "http://place.map.daum.net/16618597".to_string(),
            distance: "".to_string(),
        }],
        meta: Meta { total_count: 11, pageable_count: 11, is_end: true },
    };
    let resp = CategoryResponse::from_raw(raw);
    assert_eq!(resp.total_count, 11);
    assert_eq!(resp.pageable_count, 11);
    assert_eq!(resp.is_end, true);
    assert_eq!(resp.places.len(), 1);

    let place = &resp.places[0];
    assert_eq!(place.name, "장생당약국");
    assert_eq!(place.id, Some(16618597));
    assert_eq!(place.category, "의료,건강 > 약국");
    assert_eq!(place.category_group, Some(CategoryGroup::Pharmacy));
    assert_eq!(place.distance, None);
}

#[test]
fn keyword_place_with_unknown_group_keeps_the_item() {
    let raw = daummap::keyword::RawPlace {
        id: "notanumber".to_string(),
        place_name: "P".to_string(),
        category_group_name: "C".to_string(),
        category_group_code: "ZZZ".to_string(),
        phone: "".to_string(),
        address_name: "".to_string(),
        road_address_name: "".to_string(),
        x: "".to_string(),
        y: "".to_string(),
        place_url: "".to_string(),
        distance: "".to_string(),
    };
    let place = Place::from_raw(raw);
    assert_eq!(place.name, "P");
    assert_eq!(place.id, None);
    assert_eq!(place.category_group, None);
    assert_eq!(place.distance, None);
}
