//! Keyword search: the request builder, the place struct shared with the
//! category search, and the mapping from wire records.

use vstd::prelude::*;
use crate::category::{CategoryGroup, spec_group_code, spec_code_group, from_code_opt};
use crate::stream::DedupIdent;
use crate::text::{parse_usize, parse_usize_spec, str_eq, usize_to_dec, dec_digits};
use crate::{
    Meta, RectBounds, RequestParts, Sort, auth_header_value, clone_opt_string, default_base_url,
    normalize_base_url, normalize_path, opt_usize_eq, pair_views, rect_text, spec_default_base_url,
    spec_normalized_base, spec_rect_text, spec_sort_text, spec_trimmed_path,
};

verus! {

/// One place hit of a keyword or category search. Coordinate fields keep the
/// raw text the service returned.
#[derive(Debug, Clone)]
pub struct Place {
    pub id: Option<usize>,
    pub name: String,
    pub category: String,
    pub category_group: Option<CategoryGroup>,
    pub phone: String,
    pub address: String,
    pub road_address: String,
    pub longitude: Option<String>,
    pub latitude: Option<String>,
    pub url: String,
    pub distance: Option<usize>,
}

impl DedupIdent for Place {
    /// Two places are the same entity when their numeric id and name agree.
    open spec fn same_ident(self, other: Self) -> bool {
        self.id == other.id && self.name@ == other.name@
    }

    proof fn lemma_same_ident_symmetric(x: Self, y: Self) {
    }

    fn is_duplicate(&self, other: &Self) -> (r: bool) {
        opt_usize_eq(&self.id, &other.id) && str_eq(self.name.as_str(), other.name.as_str())
    }

    fn duplicate(&self) -> (r: Self) {
        Place {
            id: self.id,
            name: self.name.clone(),
            category: self.category.clone(),
            category_group: self.category_group,
            phone: self.phone.clone(),
            address: self.address.clone(),
            road_address: self.road_address.clone(),
            longitude: clone_opt_string(&self.longitude),
            latitude: clone_opt_string(&self.latitude),
            url: self.url.clone(),
            distance: self.distance,
        }
    }
}

/// The place record of a keyword search as decoded from the wire, every
/// field still text.
#[derive(Debug, Clone)]
pub struct RawPlace {
    pub id: String,
    pub place_name: String,
    pub category_group_name: String,
    pub category_group_code: String,
    pub phone: String,
    pub address_name: String,
    pub road_address_name: String,
    pub x: String,
    pub y: String,
    pub place_url: String,
    pub distance: String,
}

/// A decoded keyword-search response body.
#[derive(Debug, Clone)]
pub struct RawKeywordResponse {
    pub documents: Vec<RawPlace>,
    pub meta: Meta,
}

/// The typed place a keyword-search wire record maps to: numeric fields are
/// read in decimal, an unrecognized category group code becomes an absent
/// group rather than an error.
pub open spec fn spec_place(r: RawPlace) -> Place {
    Place {
        id: parse_usize_spec(r.id@),
        name: r.place_name,
        category: r.category_group_name,
        category_group: spec_code_group(r.category_group_code@),
        phone: r.phone,
        address: r.address_name,
        road_address: r.road_address_name,
        longitude: Some(r.x),
        latitude: Some(r.y),
        url: r.place_url,
        distance: parse_usize_spec(r.distance@),
    }
}

impl Place {
    /// Builds the typed place from its keyword-search wire record.
    pub fn from_raw(r: RawPlace) -> (p: Place)
        ensures
            p == spec_place(r),
    {
        Place {
            id: parse_usize(r.id.as_str()),
            name: r.place_name,
            category: r.category_group_name,
            category_group: from_code_opt(r.category_group_code.as_str()),
            phone: r.phone,
            address: r.address_name,
            road_address: r.road_address_name,
            longitude: Some(r.x),
            latitude: Some(r.y),
            url: r.place_url,
            distance: parse_usize(r.distance.as_str()),
        }
    }
}

/// A decoded keyword-search response: the places in order and the paging
/// summary.
#[derive(Debug, Clone)]
pub struct KeywordResponse {
    pub places: Vec<Place>,
    pub total_count: usize,
    pub pageable_count: usize,
    pub is_end: bool,
}

impl KeywordResponse {
    /// Maps the wire response: each document becomes a typed place, in
    /// order.
    pub fn from_raw(raw: RawKeywordResponse) -> (resp: KeywordResponse)
        ensures
            resp.places@ == raw.documents@.map_values(|d: RawPlace| spec_place(d)),
            resp.total_count == raw.meta.total_count,
            resp.pageable_count == raw.meta.pageable_count,
            resp.is_end == raw.meta.is_end,
    {
        let mut docs = raw.documents;
        let ghost docs0 = docs@;
        let ghost mut i: int = 0;
        let mut out: Vec<Place> = Vec::new();
        while docs.len() > 0
            invariant
                0 <= i <= docs0.len(),
                docs@ == docs0.skip(i),
                out@ == docs0.take(i).map_values(|d: RawPlace| spec_place(d)),
            decreases docs@.len(),
        {
            let d = docs.remove(0);
            proof {
                assert(docs@ =~= docs0.skip(i + 1));
                assert(d == docs0[i]);
            }
            let p = Place::from_raw(d);
            out.push(p);
            proof {
                assert(out@ =~= docs0.take(i + 1).map_values(|dd: RawPlace| spec_place(dd)));
                i = i + 1;
            }
        }
        proof {
            assert(docs0.take(i) =~= docs0);
        }
        KeywordResponse {
            places: out,
            total_count: raw.meta.total_count,
            pageable_count: raw.meta.pageable_count,
            is_end: raw.meta.is_end,
        }
    }
}

/// A keyword-search request: fixed endpoint parameters, set once.
#[derive(Debug, Clone)]
pub struct KeywordRequest {
    pub base_url: String,
    pub app_key: String,
    pub query: String,
    pub category_group: Option<CategoryGroup>,
    pub longitude: Option<String>,
    pub latitude: Option<String>,
    pub radius: Option<usize>,
    pub rect: Option<RectBounds>,
    pub page: usize,
    pub size: usize,
    pub sort: Sort,
}

/// The query parameters of a keyword search, in wire order: the fixed four,
/// then each optional restriction that is set.
pub open spec fn spec_keyword_params(r: KeywordRequest) -> Seq<(Seq<char>, Seq<char>)> {
    let base = seq![
        ("query"@, r.query@),
        ("page"@, dec_digits(r.page as nat)),
        ("size"@, dec_digits(r.size as nat)),
        ("sort"@, spec_sort_text(r.sort)),
    ];
    let c = match r.category_group {
        Some(g) => seq![("category_group_code"@, spec_group_code(g))],
        None => Seq::<(Seq<char>, Seq<char>)>::empty(),
    };
    let x = match r.longitude {
        Some(s) => seq![("x"@, s@)],
        None => Seq::<(Seq<char>, Seq<char>)>::empty(),
    };
    let y = match r.latitude {
        Some(s) => seq![("y"@, s@)],
        None => Seq::<(Seq<char>, Seq<char>)>::empty(),
    };
    let rad = match r.radius {
        Some(n) => seq![("radius"@, dec_digits(n as nat))],
        None => Seq::<(Seq<char>, Seq<char>)>::empty(),
    };
    let rc = match r.rect {
        Some(b) => seq![("rect"@, spec_rect_text(b))],
        None => Seq::<(Seq<char>, Seq<char>)>::empty(),
    };
    base + c + x + y + rad + rc
}

impl KeywordRequest {
    /// A request against the default service URL, first page, fifteen hits a
    /// page, ordered by accuracy, with no restriction set.
    pub fn new(app_key: &str, query: &str) -> (r: KeywordRequest)
        ensures
            r.base_url@ == spec_default_base_url(),
            r.app_key@ == app_key@,
            r.query@ == query@,
            r.category_group is None,
            r.longitude is None,
            r.latitude is None,
            r.radius is None,
            r.rect is None,
            r.page == 1usize,
            r.size == 15usize,
            r.sort == Sort::Accuracy,
    {
        KeywordRequest {
            base_url: default_base_url(),
            app_key: app_key.to_owned(),
            query: query.to_owned(),
            category_group: None,
            longitude: None,
            latitude: None,
            radius: None,
            rect: None,
            page: 1,
            size: 15,
            sort: Sort::Accuracy,
        }
    }

    /// The same request against another base URL.
    pub fn base_url(self, base_url: &str) -> (r: KeywordRequest)
        ensures
            r.base_url@ == base_url@,
            r == (KeywordRequest { base_url: r.base_url, ..self }),
    {
        KeywordRequest { base_url: base_url.to_owned(), ..self }
    }

    /// The same request restricted to one category group.
    pub fn category_group(self, group: CategoryGroup) -> (r: KeywordRequest)
        ensures
            r.category_group == Some(group),
            r == (KeywordRequest { category_group: r.category_group, ..self }),
    {
        KeywordRequest { category_group: Some(group), ..self }
    }

    /// The same request with the longitude restriction set to this
    /// coordinate text.
    pub fn longitude(self, x: &str) -> (r: KeywordRequest)
        ensures
            r.longitude matches Some(s) && s@ == x@,
            r == (KeywordRequest { longitude: r.longitude, ..self }),
    {
        KeywordRequest { longitude: Some(x.to_owned()), ..self }
    }

    /// The same request with the latitude restriction set to this coordinate
    /// text.
    pub fn latitude(self, y: &str) -> (r: KeywordRequest)
        ensures
            r.latitude matches Some(s) && s@ == y@,
            r == (KeywordRequest { latitude: r.latitude, ..self }),
    {
        KeywordRequest { latitude: Some(y.to_owned()), ..self }
    }

    /// The same request centered on this coordinate text.
    pub fn coord(self, longitude: &str, latitude: &str) -> (r: KeywordRequest)
        ensures
            r.longitude matches Some(s) && s@ == longitude@,
            r.latitude matches Some(s) && s@ == latitude@,
            r == (KeywordRequest { longitude: r.longitude, latitude: r.latitude, ..self }),
    {
        KeywordRequest { longitude: Some(longitude.to_owned()), latitude: Some(latitude.to_owned()), ..self }
    }

    /// The same request restricted to a radius in meters.
    pub fn radius(self, r0: usize) -> (r: KeywordRequest)
        ensures
            r.radius == Some(r0),
            r == (KeywordRequest { radius: r.radius, ..self }),
    {
        KeywordRequest { radius: Some(r0), ..self }
    }

    /// The same request restricted to a rectangle.
    pub fn rect(self, bounds: RectBounds) -> (r: KeywordRequest)
        ensures
            r.rect == Some(bounds),
            r == (KeywordRequest { rect: r.rect, ..self }),
    {
        KeywordRequest { rect: Some(bounds), ..self }
    }

    /// The same request for another page.
    pub fn page(self, page: usize) -> (r: KeywordRequest)
        ensures
            r.page == page,
            r == (KeywordRequest { page: r.page, ..self }),
    {
        KeywordRequest { page, ..self }
    }

    /// The same request with another page size.
    pub fn size(self, size: usize) -> (r: KeywordRequest)
        ensures
            r.size == size,
            r == (KeywordRequest { size: r.size, ..self }),
    {
        KeywordRequest { size, ..self }
    }

    /// The same request with another result ordering.
    pub fn sort(self, sort: Sort) -> (r: KeywordRequest)
        ensures
            r.sort == sort,
            r == (KeywordRequest { sort: r.sort, ..self }),
    {
        KeywordRequest { sort, ..self }
    }

    /// The query parameters of this request, in wire order.
    pub fn params(&self) -> (v: Vec<(String, String)>)
        ensures
            pair_views(v@) == spec_keyword_params(*self),
    {
        let mut v: Vec<(String, String)> = Vec::new();
        v.push(("query".to_owned(), self.query.clone()));
        v.push(("page".to_owned(), usize_to_dec(self.page)));
        v.push(("size".to_owned(), usize_to_dec(self.size)));
        v.push(("sort".to_owned(), self.sort.to_string()));
        match &self.category_group {
            Some(g) => {
                v.push(("category_group_code".to_owned(), g.to_code().to_owned()));
            },
            None => {},
        }
        match &self.longitude {
            Some(s) => {
                v.push(("x".to_owned(), s.clone()));
            },
            None => {},
        }
        match &self.latitude {
            Some(s) => {
                v.push(("y".to_owned(), s.clone()));
            },
            None => {},
        }
        match &self.radius {
            Some(n) => {
                v.push(("radius".to_owned(), usize_to_dec(*n)));
            },
            None => {},
        }
        match &self.rect {
            Some(b) => {
                v.push(("rect".to_owned(), rect_text(b)));
            },
            None => {},
        }
        proof {
            assert(pair_views(v@) =~~= spec_keyword_params(*self));
        }
        v
    }

    /// The complete description of the GET call this request stands for.
    pub fn request_parts(&self) -> (r: RequestParts)
        ensures
            r.base_url@ == spec_normalized_base(self.base_url@),
            r.path@ == spec_trimmed_path("/search/keyword.json"@),
            pair_views(r.params@) == spec_keyword_params(*self),
            r.auth@ == "KakaoAK "@ + self.app_key@,
    {
        RequestParts {
            base_url: normalize_base_url(self.base_url.as_str()),
            path: normalize_path("/search/keyword.json"),
            params: self.params(),
            auth: auth_header_value(self.app_key.as_str()),
        }
    }
}

} // verus!
