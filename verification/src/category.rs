//! Category search: the category-group code table, the request builder, and
//! the mapping from wire records.

use vstd::prelude::*;
use crate::keyword::Place;
use crate::text::{parse_usize, parse_usize_spec, str_eq, usize_to_dec, dec_digits};
use crate::{
    Meta, RectBounds, RequestParts, Sort, auth_header_value, default_base_url, normalize_base_url,
    normalize_path, pair_views, rect_text, spec_default_base_url, spec_normalized_base,
    spec_rect_text, spec_sort_text, spec_trimmed_path,
};

verus! {

/// The category groups the service can filter by.
#[derive(Debug, Clone, Copy, PartialEq, Eq, Structural)]
pub enum CategoryGroup {
    Mart,
    ConvStore,
    Kindergarten,
    School,
    Academy,
    Parking,
    Oil,
    Station,
    Bank,
    Culture,
    Agency,
    PubOffice,
    Tour,
    Accommodation,
    Food,
    Cafe,
    Hospital,
    Pharmacy,
}

/// The wire code of a category group.
pub open spec fn spec_group_code(g: CategoryGroup) -> Seq<char> {
    match g {
        CategoryGroup::Mart => "MT1"@,
        CategoryGroup::ConvStore => "CS2"@,
        CategoryGroup::Kindergarten => "PS3"@,
        CategoryGroup::School => "SC4"@,
        CategoryGroup::Academy => "AC5"@,
        CategoryGroup::Parking => "PK6"@,
        CategoryGroup::Oil => "OL7"@,
        CategoryGroup::Station => "SW8"@,
        CategoryGroup::Bank => "BK9"@,
        CategoryGroup::Culture => "CT1"@,
        CategoryGroup::Agency => "AG2"@,
        CategoryGroup::PubOffice => "PO3"@,
        CategoryGroup::Tour => "AT4"@,
        CategoryGroup::Accommodation => "AD5"@,
        CategoryGroup::Food => "FD6"@,
        CategoryGroup::Cafe => "CE7"@,
        CategoryGroup::Hospital => "HP8"@,
        CategoryGroup::Pharmacy => "PM9"@,
    }
}

/// The category group a wire code stands for, if any.
pub open spec fn spec_code_group(s: Seq<char>) -> Option<CategoryGroup> {
    if s == "MT1"@ {
        Some(CategoryGroup::Mart)
    } else if s == "CS2"@ {
        Some(CategoryGroup::ConvStore)
    } else if s == "PS3"@ {
        Some(CategoryGroup::Kindergarten)
    } else if s == "SC4"@ {
        Some(CategoryGroup::School)
    } else if s == "AC5"@ {
        Some(CategoryGroup::Academy)
    } else if s == "PK6"@ {
        Some(CategoryGroup::Parking)
    } else if s == "OL7"@ {
        Some(CategoryGroup::Oil)
    } else if s == "SW8"@ {
        Some(CategoryGroup::Station)
    } else if s == "BK9"@ {
        Some(CategoryGroup::Bank)
    } else if s == "CT1"@ {
        Some(CategoryGroup::Culture)
    } else if s == "AG2"@ {
        Some(CategoryGroup::Agency)
    } else if s == "PO3"@ {
        Some(CategoryGroup::PubOffice)
    } else if s == "AT4"@ {
        Some(CategoryGroup::Tour)
    } else if s == "AD5"@ {
        Some(CategoryGroup::Accommodation)
    } else if s == "FD6"@ {
        Some(CategoryGroup::Food)
    } else if s == "CE7"@ {
        Some(CategoryGroup::Cafe)
    } else if s == "HP8"@ {
        Some(CategoryGroup::Hospital)
    } else if s == "PM9"@ {
        Some(CategoryGroup::Pharmacy)
    } else {
        None
    }
}

/// An unrecognized category-group code, kept verbatim.
#[derive(Debug)]
pub struct ParseCategoryGroup(pub String);

impl ParseCategoryGroup {
    /// A human-readable account of the failure.
    pub fn message(&self) -> (r: String)
        ensures
            r@ == "Cannot parse category group from "@ + self.0@,
    {
        "Cannot parse category group from ".to_owned().concat(self.0.as_str())
    }
}

impl CategoryGroup {
    /// The wire code of this category group.
    pub fn to_code(&self) -> (r: &'static str)
        ensures
            r@ == spec_group_code(*self),
    {
        match self {
            CategoryGroup::Mart => "MT1",
            CategoryGroup::ConvStore => "CS2",
            CategoryGroup::Kindergarten => "PS3",
            CategoryGroup::School => "SC4",
            CategoryGroup::Academy => "AC5",
            CategoryGroup::Parking => "PK6",
            CategoryGroup::Oil => "OL7",
            CategoryGroup::Station => "SW8",
            CategoryGroup::Bank => "BK9",
            CategoryGroup::Culture => "CT1",
            CategoryGroup::Agency => "AG2",
            CategoryGroup::PubOffice => "PO3",
            CategoryGroup::Tour => "AT4",
            CategoryGroup::Accommodation => "AD5",
            CategoryGroup::Food => "FD6",
            CategoryGroup::Cafe => "CE7",
            CategoryGroup::Hospital => "HP8",
            CategoryGroup::Pharmacy => "PM9",
        }
    }

    /// Reads a wire code; exactly the eighteen known codes are accepted, and
    /// an unknown code is returned verbatim in the error.
    pub fn from_code(code: &str) -> (r: Result<CategoryGroup, ParseCategoryGroup>)
        ensures
            (r is Ok) == (spec_code_group(code@) is Some),
            (match r {
                Ok(g) => spec_code_group(code@) == Some(g),
                Err(e) => e.0@ == code@,
            }),
    {
        if str_eq(code, "MT1") {
            Ok(CategoryGroup::Mart)
        } else if str_eq(code, "CS2") {
            Ok(CategoryGroup::ConvStore)
        } else if str_eq(code, "PS3") {
            Ok(CategoryGroup::Kindergarten)
        } else if str_eq(code, "SC4") {
            Ok(CategoryGroup::School)
        } else if str_eq(code, "AC5") {
            Ok(CategoryGroup::Academy)
        } else if str_eq(code, "PK6") {
            Ok(CategoryGroup::Parking)
        } else if str_eq(code, "OL7") {
            Ok(CategoryGroup::Oil)
        } else if str_eq(code, "SW8") {
            Ok(CategoryGroup::Station)
        } else if str_eq(code, "BK9") {
            Ok(CategoryGroup::Bank)
        } else if str_eq(code, "CT1") {
            Ok(CategoryGroup::Culture)
        } else if str_eq(code, "AG2") {
            Ok(CategoryGroup::Agency)
        } else if str_eq(code, "PO3") {
            Ok(CategoryGroup::PubOffice)
        } else if str_eq(code, "AT4") {
            Ok(CategoryGroup::Tour)
        } else if str_eq(code, "AD5") {
            Ok(CategoryGroup::Accommodation)
        } else if str_eq(code, "FD6") {
            Ok(CategoryGroup::Food)
        } else if str_eq(code, "CE7") {
            Ok(CategoryGroup::Cafe)
        } else if str_eq(code, "HP8") {
            Ok(CategoryGroup::Hospital)
        } else if str_eq(code, "PM9") {
            Ok(CategoryGroup::Pharmacy)
        } else {
            Err(ParseCategoryGroup(code.to_owned()))
        }
    }
}

/// Reads a wire code, absorbing an unknown code as an absent group — a
/// failure on one item's category never drops the item.
pub fn from_code_opt(code: &str) -> (r: Option<CategoryGroup>)
    ensures
        r == spec_code_group(code@),
{
    match CategoryGroup::from_code(code) {
        Ok(g) => Some(g),
        Err(_) => None,
    }
}

/// The place record of a category search as decoded from the wire, every
/// field still text. Unlike the keyword variant, it carries the full
/// category name.
#[derive(Debug, Clone)]
pub struct RawPlace {
    pub id: String,
    pub place_name: String,
    pub category_name: String,
    pub category_group_code: String,
    pub phone: String,
    pub address_name: String,
    pub road_address_name: String,
    pub x: String,
    pub y: String,
    pub place_url: String,
    pub distance: String,
}

/// A decoded category-search response body.
#[derive(Debug, Clone)]
pub struct RawCategoryResponse {
    pub documents: Vec<RawPlace>,
    pub meta: Meta,
}

/// The typed place a category-search wire record maps to.
pub open spec fn spec_category_place(r: RawPlace) -> Place {
    Place {
        id: parse_usize_spec(r.id@),
        name: r.place_name,
        category: r.category_name,
        category_group: spec_code_group(r.category_group_code@),
        phone: r.phone,
        address: r.address_name,
        road_address: r.road_address_name,
        longitude: Some(r.x),
        latitude: Some(r.y),
        url: r.place_url,
        distance: parse_usize_spec(r.distance@),
    }
}

/// Builds the typed place from its category-search wire record.
pub fn place_from_raw(r: RawPlace) -> (p: Place)
    ensures
        p == spec_category_place(r),
{
    Place {
        id: parse_usize(r.id.as_str()),
        name: r.place_name,
        category: r.category_name,
        category_group: from_code_opt(r.category_group_code.as_str()),
        phone: r.phone,
        address: r.address_name,
        road_address: r.road_address_name,
        longitude: Some(r.x),
        latitude: Some(r.y),
        url: r.place_url,
        distance: parse_usize(r.distance.as_str()),
    }
}

/// A decoded category-search response: the places in order and the paging
/// summary.
#[derive(Debug, Clone)]
pub struct CategoryResponse {
    pub places: Vec<Place>,
    pub total_count: usize,
    pub pageable_count: usize,
    pub is_end: bool,
}

impl CategoryResponse {
    /// Maps the wire response: each document becomes a typed place, in
    /// order.
    pub fn from_raw(raw: RawCategoryResponse) -> (resp: CategoryResponse)
        ensures
            resp.places@ == raw.documents@.map_values(|d: RawPlace| spec_category_place(d)),
            resp.total_count == raw.meta.total_count,
            resp.pageable_count == raw.meta.pageable_count,
            resp.is_end == raw.meta.is_end,
    {
        let mut docs = raw.documents;
        let ghost docs0 = docs@;
        let ghost mut i: int = 0;
        let mut out: Vec<Place> = Vec::new();
        while docs.len() > 0
            invariant
                0 <= i <= docs0.len(),
                docs@ == docs0.skip(i),
                out@ == docs0.take(i).map_values(|d: RawPlace| spec_category_place(d)),
            decreases docs@.len(),
        {
            let d = docs.remove(0);
            proof {
                assert(docs@ =~= docs0.skip(i + 1));
                assert(d == docs0[i]);
            }
            let p = place_from_raw(d);
            out.push(p);
            proof {
                assert(out@ =~= docs0.take(i + 1).map_values(
                    |dd: RawPlace| spec_category_place(dd),
                ));
                i = i + 1;
            }
        }
        proof {
            assert(docs0.take(i) =~= docs0);
        }
        CategoryResponse {
            places: out,
            total_count: raw.meta.total_count,
            pageable_count: raw.meta.pageable_count,
            is_end: raw.meta.is_end,
        }
    }
}

/// A category-search request: fixed endpoint parameters, set once. Either a
/// circle (center and radius) or a rectangle bounds the search.
#[derive(Debug, Clone)]
pub struct CategoryRequest {
    pub base_url: String,
    pub app_key: String,
    pub category_group: CategoryGroup,
    pub longitude: Option<String>,
    pub latitude: Option<String>,
    pub radius: Option<usize>,
    pub rect: Option<RectBounds>,
    pub page: usize,
    pub size: usize,
    pub sort: Sort,
}

/// The query parameters of a category search, in wire order: the fixed four,
/// then each bound that is set.
pub open spec fn spec_category_params(r: CategoryRequest) -> Seq<(Seq<char>, Seq<char>)> {
    let base = seq![
        ("category_group_code"@, spec_group_code(r.category_group)),
        ("page"@, dec_digits(r.page as nat)),
        ("size"@, dec_digits(r.size as nat)),
        ("sort"@, spec_sort_text(r.sort)),
    ];
    let x = match r.longitude {
        Some(s) => seq![("x"@, s@)],
        None => Seq::<(Seq<char>, Seq<char>)>::empty(),
    };
    let y = match r.latitude {
        Some(s) => seq![("y"@, s@)],
        None => Seq::<(Seq<char>, Seq<char>)>::empty(),
    };
    let rad = match r.radius {
        Some(n) => seq![("radius"@, dec_digits(n as nat))],
        None => Seq::<(Seq<char>, Seq<char>)>::empty(),
    };
    let rc = match r.rect {
        Some(b) => seq![("rect"@, spec_rect_text(b))],
        None => Seq::<(Seq<char>, Seq<char>)>::empty(),
    };
    base + x + y + rad + rc
}

impl CategoryRequest {
    /// A request bounded by a circle: center coordinate text and a radius in
    /// meters. First page, fifteen hits a page, ordered by accuracy.
    pub fn circle(
        app_key: &str,
        category_group: CategoryGroup,
        longitude: &str,
        latitude: &str,
        radius: usize,
    ) -> (r: CategoryRequest)
        ensures
            r.base_url@ == spec_default_base_url(),
            r.app_key@ == app_key@,
            r.category_group == category_group,
            r.longitude matches Some(s) && s@ == longitude@,
            r.latitude matches Some(s) && s@ == latitude@,
            r.radius == Some(radius),
            r.rect is None,
            r.page == 1usize,
            r.size == 15usize,
            r.sort == Sort::Accuracy,
    {
        CategoryRequest {
            base_url: default_base_url(),
            app_key: app_key.to_owned(),
            category_group,
            longitude: Some(longitude.to_owned()),
            latitude: Some(latitude.to_owned()),
            radius: Some(radius),
            rect: None,
            page: 1,
            size: 15,
            sort: Sort::Accuracy,
        }
    }

    /// A request bounded by a rectangle of coordinate text. First page,
    /// fifteen hits a page, ordered by accuracy.
    pub fn rect(app_key: &str, category_group: CategoryGroup, bounds: RectBounds) -> (r:
        CategoryRequest)
        ensures
            r.base_url@ == spec_default_base_url(),
            r.app_key@ == app_key@,
            r.category_group == category_group,
            r.longitude is None,
            r.latitude is None,
            r.radius is None,
            r.rect == Some(bounds),
            r.page == 1usize,
            r.size == 15usize,
            r.sort == Sort::Accuracy,
    {
        CategoryRequest {
            base_url: default_base_url(),
            app_key: app_key.to_owned(),
            category_group,
            longitude: None,
            latitude: None,
            radius: None,
            rect: Some(bounds),
            page: 1,
            size: 15,
            sort: Sort::Accuracy,
        }
    }

    /// The same request against another base URL.
    pub fn base_url(self, base_url: &str) -> (r: CategoryRequest)
        ensures
            r.base_url@ == base_url@,
            r == (CategoryRequest { base_url: r.base_url, ..self }),
    {
        CategoryRequest { base_url: base_url.to_owned(), ..self }
    }

    /// The same request for another page.
    pub fn page(self, page: usize) -> (r: CategoryRequest)
        ensures
            r.page == page,
            r == (CategoryRequest { page: r.page, ..self }),
    {
        CategoryRequest { page, ..self }
    }

    /// The same request with another page size.
    pub fn size(self, size: usize) -> (r: CategoryRequest)
        ensures
            r.size == size,
            r == (CategoryRequest { size: r.size, ..self }),
    {
        CategoryRequest { size, ..self }
    }

    /// The same request with another result ordering.
    pub fn sort(self, sort: Sort) -> (r: CategoryRequest)
        ensures
            r.sort == sort,
            r == (CategoryRequest { sort: r.sort, ..self }),
    {
        CategoryRequest { sort, ..self }
    }

    /// The query parameters of this request, in wire order.
    pub fn params(&self) -> (v: Vec<(String, String)>)
        ensures
            pair_views(v@) == spec_category_params(*self),
    {
        let mut v: Vec<(String, String)> = Vec::new();
        v.push(("category_group_code".to_owned(), self.category_group.to_code().to_owned()));
        v.push(("page".to_owned(), usize_to_dec(self.page)));
        v.push(("size".to_owned(), usize_to_dec(self.size)));
        v.push(("sort".to_owned(), self.sort.to_string()));
        match &self.longitude {
            Some(s) => {
                v.push(("x".to_owned(), s.clone()));
            },
            None => {},
        }
        match &self.latitude {
            Some(s) => {
                v.push(("y".to_owned(), s.clone()));
            },
            None => {},
        }
        match &self.radius {
            Some(n) => {
                v.push(("radius".to_owned(), usize_to_dec(*n)));
            },
            None => {},
        }
        match &self.rect {
            Some(b) => {
                v.push(("rect".to_owned(), rect_text(b)));
            },
            None => {},
        }
        proof {
            assert(pair_views(v@) =~~= spec_category_params(*self));
        }
        v
    }

    /// The complete description of the GET call this request stands for.
    pub fn request_parts(&self) -> (r: RequestParts)
        ensures
            r.base_url@ == spec_normalized_base(self.base_url@),
            r.path@ == spec_trimmed_path("/search/category.json"@),
            pair_views(r.params@) == spec_category_params(*self),
            r.auth@ == "KakaoAK "@ + self.app_key@,
    {
        RequestParts {
            base_url: normalize_base_url(self.base_url.as_str()),
            path: normalize_path("/search/category.json"),
            params: self.params(),
            auth: auth_header_value(self.app_key.as_str()),
        }
    }
}

} // verus!
