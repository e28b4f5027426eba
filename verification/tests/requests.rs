use daummap::address::AddressRequest;
use daummap::category::{CategoryGroup, CategoryRequest};
use daummap::coord::CoordRequest;
use daummap::keyword::KeywordRequest;
use daummap::{
    auth_header_value, default_base_url, normalize_base_url, normalize_path, rect_text,
    RectBounds, Sort,
};

fn pairs(v: &[(&str, &str)]) -> Vec<(String, String)> {
    v.iter().map(|(k, val)| (k.to_string(), val.to_string())).collect()
}

#[test]
fn test_address_request() {
    let req = AddressRequest::new("key", "address")
        .base_url("http://localhost:12121")
        .page(2)
        .size(5);
    let parts = req.request_parts();
    assert_eq!(parts.base_url, "http://localhost:12121/");
    assert_eq!(parts.path, "search/address.json");
    assert_eq!(
        parts.params,
        pairs(&[("query", "address"), ("page", "2"), ("size", "5")])
    );
    assert_eq!(parts.auth, "KakaoAK key");
}

#[test]
fn test_coord2region_request() {
    let req = CoordRequest::new("key", "123.123", "456.456")
        .base_url("http://localhost:12122")
        .page(2);
    let parts = req.region_request_parts();
    assert_eq!(parts.base_url, "http://localhost:12122/");
    assert_eq!(parts.path, "geo/coord2regioncode.json");
    assert_eq!(
        parts.params,
        pairs(&[("page", "2"), ("x", "123.123"), ("y", "456.456")])
    );
    assert_eq!(parts.auth, "KakaoAK key");
}

#[test]
fn test_coord2address_request() {
    let req = CoordRequest::new("key", "123.123", "456.456")
        .base_url("http://localhost:12123")
        .page(2);
    let parts = req.address_request_parts();
    assert_eq!(parts.base_url, "http://localhost:12123/");
    assert_eq!(parts.path, "geo/coord2address.json");
    assert_eq!(
        parts.params,
        pairs(&[("page", "2"), ("x", "123.123"), ("y", "456.456")])
    );
    assert_eq!(parts.auth, "KakaoAK key");
}

#[test]
fn test_keyword_request() {
    let req = KeywordRequest::new("key", "keyword")
        .base_url("http://localhost:12124")
        .coord("123.123", "456.456")
        .radius(1234)
        .page(2)
        .size(5);
    let parts = req.request_parts();
    assert_eq!(parts.base_url, "http://localhost:12124/");
    assert_eq!(parts.path, "search/keyword.json");
    assert_eq!(
        parts.params,
        pairs(&[
            ("query", "keyword"),
            ("page", "2"),
            ("size", "5"),
            ("sort", "accuracy"),
            ("x", "123.123"),
            ("y", "456.456"),
            ("radius", "1234"),
        ])
    );
    assert_eq!(parts.auth, "KakaoAK key");
}

#[test]
fn test_category_request() {
    let req = CategoryRequest::rect(
        "key",
        CategoryGroup::Pharmacy,
        RectBounds {
            x1: "123.123".to_string(),
            y1: "456.456".to_string(),
            x2: "321.321".to_string(),
            y2: "654.654".to_string(),
        },
    )
    .base_url("http://localhost:12125")
    .page(2)
    .size(5);
    let parts = req.request_parts();
    assert_eq!(parts.base_url, "http://localhost:12125/");
    assert_eq!(parts.path, "search/category.json");
    assert_eq!(
        parts.params,
        pairs(&[
            ("category_group_code", "PM9"),
            ("page", "2"),
            ("size", "5"),
            ("sort", "accuracy"),
            ("rect", "123.123,456.456,321.321,654.654"),
        ])
    );
    assert_eq!(parts.auth, "KakaoAK key");
}

#[test]
fn category_circle_request_params() {
    let req = CategoryRequest::circle("key", CategoryGroup::Cafe, "127.0", "37.5", 500).sort(
        Sort::Distance,
    );
    let parts = req.request_parts();
    assert_eq!(parts.base_url, "https://dapi.kakao.com/v2/local/");
    assert_eq!(
        parts.params,
        pairs(&[
            ("category_group_code", "CE7"),
            ("page", "1"),
            ("size", "15"),
            ("sort", "distance"),
            ("x", "127.0"),
            ("y", "37.5"),
            ("radius", "500"),
        ])
    );
}

#[test]
fn keyword_request_defaults_and_category_filter() {
    let req = KeywordRequest::new("key", "q").category_group(CategoryGroup::Bank);
    let parts = req.request_parts();
    assert_eq!(parts.base_url, "https://dapi.kakao.com/v2/local/");
    assert_eq!(
        parts.params,
        pairs(&[
            ("query", "q"),
            ("page", "1"),
            ("size", "15"),
            ("sort", "accuracy"),
            ("category_group_code", "BK9"),
        ])
    );
}

#[test]
fn default_base_url_value() {
    assert_eq!(default_base_url(), "https://dapi.kakao.com/v2/local");
}

#[test]
fn base_url_normalization() {
    assert_eq!(normalize_base_url("http://a/b"), "http://a/b/");
    assert_eq!(normalize_base_url("http://a/b/"), "http://a/b/");
    assert_eq!(normalize_base_url(""), "/");
}

#[test]
fn path_normalization() {
    assert_eq!(normalize_path("/x/y.json"), "x/y.json");
    assert_eq!(normalize_path("///x"), "x");
    assert_eq!(normalize_path("x/y"), "x/y");
    assert_eq!(normalize_path(""), "");
}

#[test]
fn auth_header_carries_the_key() {
    assert_eq!(auth_header_value("key"), "KakaoAK key");
    assert_eq!(auth_header_value(""), "KakaoAK ");
}

#[test]
fn sort_wire_values() {
    assert_eq!(Sort::Distance.to_string(), "distance");
    assert_eq!(Sort::Accuracy.to_string(), "accuracy");
}

#[test]
fn rect_text_joins_with_commas() {
    let r = RectBounds {
        x1: "1".to_string(),
        y1: "2".to_string(),
        x2: "3".to_string(),
        y2: "4".to_string(),
    };
    assert_eq!(rect_text(&r), "1,2,3,4");
}
