//! Address search: the request builder, the typed result structs, and the
//! mapping from the wire records the service answers with.

use vstd::prelude::*;
use crate::stream::DedupIdent;
use crate::text::{parse_usize, parse_usize_spec, str_eq, usize_to_dec, dec_digits};
use crate::{
    Meta, RequestParts, auth_header_value, clone_opt_string, normalize_base_url, normalize_path,
    opt_usize_eq, pair_views, spec_normalized_base, spec_trimmed_path, spec_default_base_url,
    default_base_url,
};

verus! {

/// One search hit: the free-form address line and its land-lot and road
/// renderings, of which at least one is present.
#[derive(Debug, Clone)]
pub struct Address {
    pub address: Option<String>,
    pub land_lot: Option<LandLotAddress>,
    pub road: Option<RoadAddress>,
}

/// A land-lot (parcel) address. Coordinate fields keep the raw text the
/// service returned; their numeric reading is left to the caller.
#[derive(Debug, Clone)]
pub struct LandLotAddress {
    pub address: String,
    pub province: String,
    pub city: String,
    pub town: String,
    pub neighborhood: Option<String>,
    pub h_code: Option<usize>,
    pub b_code: Option<usize>,
    pub is_mountain: Option<bool>,
    pub main_address_number: Option<usize>,
    pub sub_address_number: Option<usize>,
    pub zip_code: Option<usize>,
    pub longitude: Option<String>,
    pub latitude: Option<String>,
}

/// A road-name address. Coordinate fields keep the raw text the service
/// returned; their numeric reading is left to the caller.
#[derive(Debug, Clone)]
pub struct RoadAddress {
    pub address: String,
    pub province: String,
    pub city: String,
    pub town: String,
    pub road_name: String,
    pub is_underground: bool,
    pub main_building_number: Option<usize>,
    pub sub_building_number: Option<usize>,
    pub building_name: String,
    pub post_code: Option<usize>,
    pub longitude: Option<String>,
    pub latitude: Option<String>,
}

/// The land-lot record as decoded from the wire, every field still text.
#[derive(Debug, Clone)]
pub struct RawLandLotAddress {
    pub address_name: String,
    pub region_1depth_name: String,
    pub region_2depth_name: String,
    pub region_3depth_name: String,
    pub region_3depth_h_name: String,
    pub h_code: String,
    pub b_code: String,
    pub mountain_yn: String,
    pub main_address_no: String,
    pub sub_address_no: String,
    pub zip_code: String,
    pub x: String,
    pub y: String,
}

/// The road-address record as decoded from the wire, every field still text.
#[derive(Debug, Clone)]
pub struct RawRoadAddress {
    pub address_name: String,
    pub region_1depth_name: String,
    pub region_2depth_name: String,
    pub region_3depth_name: String,
    pub road_name: String,
    pub underground_yn: String,
    pub main_building_no: String,
    pub sub_building_no: String,
    pub building_name: String,
    pub zone_no: String,
    pub x: String,
    pub y: String,
}

/// One document of an address-search response.
#[derive(Debug, Clone)]
pub struct RawAddressDocument {
    pub address_name: Option<String>,
    pub address: Option<RawLandLotAddress>,
    pub road_address: Option<RawRoadAddress>,
}

/// A decoded address-search response body.
#[derive(Debug, Clone)]
pub struct RawAddressResponse {
    pub documents: Vec<RawAddressDocument>,
    pub meta: Meta,
}

/// The typed land-lot address a wire record maps to: empty optional fields
/// become absent, numeric fields are read in decimal, the mountain flag is
/// the letter `Y`.
pub open spec fn spec_land_lot(r: RawLandLotAddress) -> LandLotAddress {
    LandLotAddress {
        address: r.address_name,
        province: r.region_1depth_name,
        city: r.region_2depth_name,
        town: r.region_3depth_name,
        neighborhood: if r.region_3depth_h_name@.len() == 0 {
            None
        } else {
            Some(r.region_3depth_h_name)
        },
        h_code: parse_usize_spec(r.h_code@),
        b_code: parse_usize_spec(r.b_code@),
        is_mountain: if r.mountain_yn@.len() == 0 {
            None
        } else {
            Some(r.mountain_yn@ == "Y"@)
        },
        main_address_number: parse_usize_spec(r.main_address_no@),
        sub_address_number: parse_usize_spec(r.sub_address_no@),
        zip_code: parse_usize_spec(r.zip_code@),
        longitude: Some(r.x),
        latitude: Some(r.y),
    }
}

/// The typed road address a wire record maps to.
pub open spec fn spec_road(r: RawRoadAddress) -> RoadAddress {
    RoadAddress {
        address: r.address_name,
        province: r.region_1depth_name,
        city: r.region_2depth_name,
        town: r.region_3depth_name,
        road_name: r.road_name,
        is_underground: r.underground_yn@ == "Y"@,
        main_building_number: parse_usize_spec(r.main_building_no@),
        sub_building_number: parse_usize_spec(r.sub_building_no@),
        building_name: r.building_name,
        post_code: parse_usize_spec(r.zone_no@),
        longitude: Some(r.x),
        latitude: Some(r.y),
    }
}

/// The typed address one response document maps to.
pub open spec fn spec_address_doc(d: RawAddressDocument) -> Address {
    Address {
        address: d.address_name,
        land_lot: match d.address {
            Some(r) => Some(spec_land_lot(r)),
            None => None,
        },
        road: match d.road_address {
            Some(r) => Some(spec_road(r)),
            None => None,
        },
    }
}

/// The addresses of a response, in document order, keeping only documents
/// that carry a land-lot or a road rendering.
pub open spec fn spec_addresses(docs: Seq<RawAddressDocument>) -> Seq<Address>
    decreases docs.len(),
{
    if docs.len() == 0 {
        Seq::empty()
    } else {
        let a = spec_address_doc(docs[0]);
        let rest = spec_addresses(docs.skip(1));
        if a.land_lot is Some || a.road is Some {
            seq![a] + rest
        } else {
            rest
        }
    }
}

impl LandLotAddress {
    /// Builds the typed land-lot address from its wire record.
    pub fn from_raw(r: RawLandLotAddress) -> (a: LandLotAddress)
        ensures
            a == spec_land_lot(r),
    {
        let neighborhood = if r.region_3depth_h_name.as_str().is_empty() {
            None
        } else {
            Some(r.region_3depth_h_name)
        };
        let is_mountain = if r.mountain_yn.as_str().is_empty() {
            None
        } else {
            Some(str_eq(r.mountain_yn.as_str(), "Y"))
        };
        LandLotAddress {
            address: r.address_name,
            province: r.region_1depth_name,
            city: r.region_2depth_name,
            town: r.region_3depth_name,
            neighborhood,
            h_code: parse_usize(r.h_code.as_str()),
            b_code: parse_usize(r.b_code.as_str()),
            is_mountain,
            main_address_number: parse_usize(r.main_address_no.as_str()),
            sub_address_number: parse_usize(r.sub_address_no.as_str()),
            zip_code: parse_usize(r.zip_code.as_str()),
            longitude: Some(r.x),
            latitude: Some(r.y),
        }
    }

    /// An exact copy.
    pub fn duplicate(&self) -> (r: LandLotAddress)
        ensures
            r == *self,
    {
        LandLotAddress {
            address: self.address.clone(),
            province: self.province.clone(),
            city: self.city.clone(),
            town: self.town.clone(),
            neighborhood: clone_opt_string(&self.neighborhood),
            h_code: self.h_code,
            b_code: self.b_code,
            is_mountain: self.is_mountain,
            main_address_number: self.main_address_number,
            sub_address_number: self.sub_address_number,
            zip_code: self.zip_code,
            longitude: clone_opt_string(&self.longitude),
            latitude: clone_opt_string(&self.latitude),
        }
    }
}

impl RoadAddress {
    /// Builds the typed road address from its wire record.
    pub fn from_raw(r: RawRoadAddress) -> (a: RoadAddress)
        ensures
            a == spec_road(r),
    {
        let is_underground = str_eq(r.underground_yn.as_str(), "Y");
        RoadAddress {
            address: r.address_name,
            province: r.region_1depth_name,
            city: r.region_2depth_name,
            town: r.region_3depth_name,
            road_name: r.road_name,
            is_underground,
            main_building_number: parse_usize(r.main_building_no.as_str()),
            sub_building_number: parse_usize(r.sub_building_no.as_str()),
            building_name: r.building_name,
            post_code: parse_usize(r.zone_no.as_str()),
            longitude: Some(r.x),
            latitude: Some(r.y),
        }
    }

    /// An exact copy.
    pub fn duplicate(&self) -> (r: RoadAddress)
        ensures
            r == *self,
    {
        RoadAddress {
            address: self.address.clone(),
            province: self.province.clone(),
            city: self.city.clone(),
            town: self.town.clone(),
            road_name: self.road_name.clone(),
            is_underground: self.is_underground,
            main_building_number: self.main_building_number,
            sub_building_number: self.sub_building_number,
            building_name: self.building_name.clone(),
            post_code: self.post_code,
            longitude: clone_opt_string(&self.longitude),
            latitude: clone_opt_string(&self.latitude),
        }
    }
}

impl Address {
    /// Builds the typed address from one response document.
    pub fn from_doc(d: RawAddressDocument) -> (a: Address)
        ensures
            a == spec_address_doc(d),
    {
        let land_lot = match d.address {
            Some(r) => Some(LandLotAddress::from_raw(r)),
            None => None,
        };
        let road = match d.road_address {
            Some(r) => Some(RoadAddress::from_raw(r)),
            None => None,
        };
        Address { address: d.address_name, land_lot, road }
    }
}

/// The street text an address is identified by: the road rendering when
/// present, else the land-lot rendering, else the free-form line.
pub open spec fn spec_address_text(a: Address) -> Seq<char> {
    match a.road {
        Some(r) => r.address@,
        None => match a.land_lot {
            Some(l) => l.address@,
            None => match a.address {
                Some(s) => s@,
                None => Seq::empty(),
            },
        },
    }
}

/// The postal code an address is identified by: the road rendering's post
/// code when present, else the land-lot zip code.
pub open spec fn spec_address_post(a: Address) -> Option<usize> {
    match a.road {
        Some(r) => r.post_code,
        None => match a.land_lot {
            Some(l) => l.zip_code,
            None => None,
        },
    }
}

impl Address {
    /// The street text of the dedup identity.
    fn ident_text(&self) -> (r: &str)
        ensures
            r@ == spec_address_text(*self),
    {
        proof {
            reveal_strlit("");
            assert(""@ =~= Seq::<char>::empty());
        }
        match &self.road {
            Some(r) => r.address.as_str(),
            None => match &self.land_lot {
                Some(l) => l.address.as_str(),
                None => match &self.address {
                    Some(s) => s.as_str(),
                    None => "",
                },
            },
        }
    }

    /// The postal code of the dedup identity.
    fn ident_post(&self) -> (r: Option<usize>)
        ensures
            r == spec_address_post(*self),
    {
        match &self.road {
            Some(r) => r.post_code,
            None => match &self.land_lot {
                Some(l) => l.zip_code,
                None => None,
            },
        }
    }
}

impl DedupIdent for Address {
    /// Two addresses are the same entity when their street text and postal
    /// code agree.
    open spec fn same_ident(self, other: Self) -> bool {
        spec_address_text(self) == spec_address_text(other) && spec_address_post(self)
            == spec_address_post(other)
    }

    proof fn lemma_same_ident_symmetric(x: Self, y: Self) {
    }

    fn is_duplicate(&self, other: &Self) -> (r: bool) {
        str_eq(self.ident_text(), other.ident_text()) && opt_usize_eq(
            &self.ident_post(),
            &other.ident_post(),
        )
    }

    fn duplicate(&self) -> (r: Self) {
        let land_lot = match &self.land_lot {
            Some(l) => Some(l.duplicate()),
            None => None,
        };
        let road = match &self.road {
            Some(r) => Some(r.duplicate()),
            None => None,
        };
        Address { address: clone_opt_string(&self.address), land_lot, road }
    }
}

/// A decoded address-search response: the kept documents in order and the
/// paging summary.
#[derive(Debug, Clone)]
pub struct AddressResponse {
    pub addresses: Vec<Address>,
    pub total_count: usize,
    pub pageable_count: usize,
    pub is_end: bool,
}

impl AddressResponse {
    /// Maps the wire response: each document becomes a typed address, in
    /// order, and documents with neither a land-lot nor a road rendering are
    /// dropped.
    pub fn from_raw(raw: RawAddressResponse) -> (resp: AddressResponse)
        ensures
            resp.addresses@ == spec_addresses(raw.documents@),
            resp.total_count == raw.meta.total_count,
            resp.pageable_count == raw.meta.pageable_count,
            resp.is_end == raw.meta.is_end,
    {
        let mut docs = raw.documents;
        let ghost docs0 = docs@;
        let mut out: Vec<Address> = Vec::new();
        while docs.len() > 0
            invariant
                spec_addresses(docs0) == out@ + spec_addresses(docs@),
            decreases docs@.len(),
        {
            let ghost pre = docs@;
            let d = docs.remove(0);
            proof {
                assert(docs@ =~= pre.skip(1));
            }
            let a = Address::from_doc(d);
            if a.land_lot.is_some() || a.road.is_some() {
                proof {
                    assert(out@ + (seq![a] + spec_addresses(docs@)) =~= out@.push(a)
                        + spec_addresses(docs@));
                }
                out.push(a);
            }
        }
        proof {
            assert(spec_addresses(docs@) =~= Seq::<Address>::empty());
            assert(out@ + spec_addresses(docs@) =~= out@);
        }
        AddressResponse {
            addresses: out,
            total_count: raw.meta.total_count,
            pageable_count: raw.meta.pageable_count,
            is_end: raw.meta.is_end,
        }
    }
}

/// An address-search request: fixed endpoint parameters, set once.
#[derive(Debug, Clone)]
pub struct AddressRequest {
    pub base_url: String,
    pub app_key: String,
    pub query: String,
    pub page: usize,
    pub size: usize,
}

/// The query parameters of an address search, in wire order.
pub open spec fn spec_address_params(r: AddressRequest) -> Seq<(Seq<char>, Seq<char>)> {
    seq![
        ("query"@, r.query@),
        ("page"@, dec_digits(r.page as nat)),
        ("size"@, dec_digits(r.size as nat)),
    ]
}

impl AddressRequest {
    /// A request against the default service URL, first page, fifteen hits a
    /// page.
    pub fn new(app_key: &str, query: &str) -> (r: AddressRequest)
        ensures
            r.base_url@ == spec_default_base_url(),
            r.app_key@ == app_key@,
            r.query@ == query@,
            r.page == 1usize,
            r.size == 15usize,
    {
        AddressRequest {
            base_url: default_base_url(),
            app_key: app_key.to_owned(),
            query: query.to_owned(),
            page: 1,
            size: 15,
        }
    }

    /// The same request against another base URL.
    pub fn base_url(self, base_url: &str) -> (r: AddressRequest)
        ensures
            r.base_url@ == base_url@,
            r.app_key == self.app_key,
            r.query == self.query,
            r.page == self.page,
            r.size == self.size,
    {
        AddressRequest { base_url: base_url.to_owned(), ..self }
    }

    /// The same request for another page.
    pub fn page(self, page: usize) -> (r: AddressRequest)
        ensures
            r.page == page,
            r.base_url == self.base_url,
            r.app_key == self.app_key,
            r.query == self.query,
            r.size == self.size,
    {
        AddressRequest { page, ..self }
    }

    /// The same request with another page size.
    pub fn size(self, size: usize) -> (r: AddressRequest)
        ensures
            r.size == size,
            r.base_url == self.base_url,
            r.app_key == self.app_key,
            r.query == self.query,
            r.page == self.page,
    {
        AddressRequest { size, ..self }
    }

    /// The query parameters of this request, in wire order.
    pub fn params(&self) -> (v: Vec<(String, String)>)
        ensures
            pair_views(v@) == spec_address_params(*self),
    {
        let mut v: Vec<(String, String)> = Vec::new();
        v.push(("query".to_owned(), self.query.clone()));
        v.push(("page".to_owned(), usize_to_dec(self.page)));
        v.push(("size".to_owned(), usize_to_dec(self.size)));
        proof {
            assert(pair_views(v@) =~~= spec_address_params(*self));
        }
        v
    }

    /// The complete description of the GET call this request stands for.
    pub fn request_parts(&self) -> (r: RequestParts)
        ensures
            r.base_url@ == spec_normalized_base(self.base_url@),
            r.path@ == spec_trimmed_path("/search/address.json"@),
            pair_views(r.params@) == spec_address_params(*self),
            r.auth@ == "KakaoAK "@ + self.app_key@,
    {
        RequestParts {
            base_url: normalize_base_url(self.base_url.as_str()),
            path: normalize_path("/search/address.json"),
            params: self.params(),
            auth: auth_header_value(self.app_key.as_str()),
        }
    }
}

} // verus!
