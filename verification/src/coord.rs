//! Coordinate lookup: the request builder shared by the region and address
//! lookups, the region struct, and the mapping from wire records.

use vstd::prelude::*;
use crate::address::{Address, LandLotAddress, RoadAddress};
use crate::stream::DedupIdent;
use crate::text::{parse_usize, parse_usize_spec, str_eq, usize_to_dec, dec_digits};
use crate::{
    RequestParts, auth_header_value, clone_opt_string, default_base_url, normalize_base_url,
    normalize_path, opt_usize_eq, pair_views, spec_default_base_url, spec_normalized_base,
    spec_trimmed_path,
};

verus! {

/// An administrative region a coordinate falls in. Coordinate fields keep
/// the raw text the service returned.
#[derive(Debug, Clone)]
pub struct Region {
    pub address: String,
    pub province: String,
    pub city: String,
    pub town: String,
    pub neighborhood: String,
    pub code: Option<usize>,
    pub longitude: Option<String>,
    pub latitude: Option<String>,
}

impl DedupIdent for Region {
    /// Two regions are the same entity when their region code and address
    /// text agree.
    open spec fn same_ident(self, other: Self) -> bool {
        self.code == other.code && self.address@ == other.address@
    }

    proof fn lemma_same_ident_symmetric(x: Self, y: Self) {
    }

    fn is_duplicate(&self, other: &Self) -> (r: bool) {
        opt_usize_eq(&self.code, &other.code) && str_eq(
            self.address.as_str(),
            other.address.as_str(),
        )
    }

    fn duplicate(&self) -> (r: Self) {
        Region {
            address: self.address.clone(),
            province: self.province.clone(),
            city: self.city.clone(),
            town: self.town.clone(),
            neighborhood: self.neighborhood.clone(),
            code: self.code,
            longitude: clone_opt_string(&self.longitude),
            latitude: clone_opt_string(&self.latitude),
        }
    }
}

/// The region record as decoded from the wire, every field still text.
#[derive(Debug, Clone)]
pub struct RawRegion {
    pub address_name: String,
    pub region_1depth_name: String,
    pub region_2depth_name: String,
    pub region_3depth_name: String,
    pub region_4depth_name: String,
    pub code: String,
    pub x: String,
    pub y: String,
}

/// A decoded coordinate-to-region response body.
#[derive(Debug, Clone)]
pub struct RawRegionResponse {
    pub documents: Vec<RawRegion>,
}

/// The land-lot record of a coordinate-to-address response. It is smaller
/// than the address-search variant: no neighborhood, no region codes, no
/// coordinates.
#[derive(Debug, Clone)]
pub struct RawCoordLandLot {
    pub address_name: String,
    pub region_1depth_name: String,
    pub region_2depth_name: String,
    pub region_3depth_name: String,
    pub mountain_yn: String,
    pub main_address_no: String,
    pub sub_address_no: String,
    pub zip_code: String,
}

/// The road-address record of a coordinate-to-address response: no
/// coordinates.
#[derive(Debug, Clone)]
pub struct RawCoordRoad {
    pub address_name: String,
    pub region_1depth_name: String,
    pub region_2depth_name: String,
    pub region_3depth_name: String,
    pub road_name: String,
    pub underground_yn: String,
    pub main_building_no: String,
    pub sub_building_no: String,
    pub building_name: String,
    pub zone_no: String,
}

/// One document of a coordinate-to-address response.
#[derive(Debug, Clone)]
pub struct RawCoordDocument {
    pub address: Option<RawCoordLandLot>,
    pub road_address: Option<RawCoordRoad>,
}

/// A decoded coordinate-to-address response body.
#[derive(Debug, Clone)]
pub struct RawCoordAddressResponse {
    pub documents: Vec<RawCoordDocument>,
}

/// The typed region a wire record maps to.
pub open spec fn spec_region(r: RawRegion) -> Region {
    Region {
        address: r.address_name,
        province: r.region_1depth_name,
        city: r.region_2depth_name,
        town: r.region_3depth_name,
        neighborhood: r.region_4depth_name,
        code: parse_usize_spec(r.code@),
        longitude: Some(r.x),
        latitude: Some(r.y),
    }
}

/// The typed land-lot address a coordinate-lookup wire record maps to: the
/// fields the record does not carry stay absent.
pub open spec fn spec_coord_land_lot(r: RawCoordLandLot) -> LandLotAddress {
    LandLotAddress {
        address: r.address_name,
        province: r.region_1depth_name,
        city: r.region_2depth_name,
        town: r.region_3depth_name,
        neighborhood: None,
        h_code: None,
        b_code: None,
        is_mountain: if r.mountain_yn@.len() == 0 {
            None
        } else {
            Some(r.mountain_yn@ == "Y"@)
        },
        main_address_number: parse_usize_spec(r.main_address_no@),
        sub_address_number: parse_usize_spec(r.sub_address_no@),
        zip_code: parse_usize_spec(r.zip_code@),
        longitude: None,
        latitude: None,
    }
}

/// The typed road address a coordinate-lookup wire record maps to.
pub open spec fn spec_coord_road(r: RawCoordRoad) -> RoadAddress {
    RoadAddress {
        address: r.address_name,
        province: r.region_1depth_name,
        city: r.region_2depth_name,
        town: r.region_3depth_name,
        road_name: r.road_name,
        is_underground: r.underground_yn@ == "Y"@,
        main_building_number: parse_usize_spec(r.main_building_no@),
        sub_building_number: parse_usize_spec(r.sub_building_no@),
        building_name: r.building_name,
        post_code: parse_usize_spec(r.zone_no@),
        longitude: None,
        latitude: None,
    }
}

/// The typed address one coordinate-lookup document maps to; it never
/// carries a free-form address line.
pub open spec fn spec_coord_address(d: RawCoordDocument) -> Address {
    Address {
        address: None,
        land_lot: match d.address {
            Some(r) => Some(spec_coord_land_lot(r)),
            None => None,
        },
        road: match d.road_address {
            Some(r) => Some(spec_coord_road(r)),
            None => None,
        },
    }
}

impl Region {
    /// Builds the typed region from its wire record.
    pub fn from_raw(r: RawRegion) -> (reg: Region)
        ensures
            reg == spec_region(r),
    {
        Region {
            address: r.address_name,
            province: r.region_1depth_name,
            city: r.region_2depth_name,
            town: r.region_3depth_name,
            neighborhood: r.region_4depth_name,
            code: parse_usize(r.code.as_str()),
            longitude: Some(r.x),
            latitude: Some(r.y),
        }
    }
}

/// Builds the typed land-lot address from its coordinate-lookup wire record.
pub fn coord_land_lot_from_raw(r: RawCoordLandLot) -> (a: LandLotAddress)
    ensures
        a == spec_coord_land_lot(r),
{
    let is_mountain = if r.mountain_yn.as_str().is_empty() {
        None
    } else {
        Some(str_eq(r.mountain_yn.as_str(), "Y"))
    };
    LandLotAddress {
        address: r.address_name,
        province: r.region_1depth_name,
        city: r.region_2depth_name,
        town: r.region_3depth_name,
        neighborhood: None,
        h_code: None,
        b_code: None,
        is_mountain,
        main_address_number: parse_usize(r.main_address_no.as_str()),
        sub_address_number: parse_usize(r.sub_address_no.as_str()),
        zip_code: parse_usize(r.zip_code.as_str()),
        longitude: None,
        latitude: None,
    }
}

/// Builds the typed road address from its coordinate-lookup wire record.
pub fn coord_road_from_raw(r: RawCoordRoad) -> (a: RoadAddress)
    ensures
        a == spec_coord_road(r),
{
    let is_underground = str_eq(r.underground_yn.as_str(), "Y");
    RoadAddress {
        address: r.address_name,
        province: r.region_1depth_name,
        city: r.region_2depth_name,
        town: r.region_3depth_name,
        road_name: r.road_name,
        is_underground,
        main_building_number: parse_usize(r.main_building_no.as_str()),
        sub_building_number: parse_usize(r.sub_building_no.as_str()),
        building_name: r.building_name,
        post_code: parse_usize(r.zone_no.as_str()),
        longitude: None,
        latitude: None,
    }
}

/// Builds the typed address from one coordinate-lookup document.
pub fn coord_address_from_doc(d: RawCoordDocument) -> (a: Address)
    ensures
        a == spec_coord_address(d),
{
    let land_lot = match d.address {
        Some(r) => Some(coord_land_lot_from_raw(r)),
        None => None,
    };
    let road = match d.road_address {
        Some(r) => Some(coord_road_from_raw(r)),
        None => None,
    };
    Address { address: None, land_lot, road }
}

/// Maps a coordinate-to-region response: each document becomes a typed
/// region, in order.
pub fn regions_from_raw(raw: RawRegionResponse) -> (out: Vec<Region>)
    ensures
        out@ == raw.documents@.map_values(|d: RawRegion| spec_region(d)),
{
    let mut docs = raw.documents;
    let ghost docs0 = docs@;
    let ghost mut i: int = 0;
    let mut out: Vec<Region> = Vec::new();
    while docs.len() > 0
        invariant
            0 <= i <= docs0.len(),
            docs@ == docs0.skip(i),
            out@ == docs0.take(i).map_values(|d: RawRegion| spec_region(d)),
        decreases docs@.len(),
    {
        let d = docs.remove(0);
        proof {
            assert(docs@ =~= docs0.skip(i + 1));
            assert(d == docs0[i]);
        }
        let reg = Region::from_raw(d);
        out.push(reg);
        proof {
            assert(out@ =~= docs0.take(i + 1).map_values(|dd: RawRegion| spec_region(dd)));
            i = i + 1;
        }
    }
    proof {
        assert(docs0.take(i) =~= docs0);
    }
    out
}

/// Maps a coordinate-to-address response: each document becomes a typed
/// address, in order.
pub fn coord_addresses_from_raw(raw: RawCoordAddressResponse) -> (out: Vec<Address>)
    ensures
        out@ == raw.documents@.map_values(|d: RawCoordDocument| spec_coord_address(d)),
{
    let mut docs = raw.documents;
    let ghost docs0 = docs@;
    let ghost mut i: int = 0;
    let mut out: Vec<Address> = Vec::new();
    while docs.len() > 0
        invariant
            0 <= i <= docs0.len(),
            docs@ == docs0.skip(i),
            out@ == docs0.take(i).map_values(|d: RawCoordDocument| spec_coord_address(d)),
        decreases docs@.len(),
    {
        let d = docs.remove(0);
        proof {
            assert(docs@ =~= docs0.skip(i + 1));
            assert(d == docs0[i]);
        }
        let a = coord_address_from_doc(d);
        out.push(a);
        proof {
            assert(out@ =~= docs0.take(i + 1).map_values(
                |dd: RawCoordDocument| spec_coord_address(dd),
            ));
            i = i + 1;
        }
    }
    proof {
        assert(docs0.take(i) =~= docs0);
    }
    out
}

/// A coordinate-lookup request: fixed endpoint parameters, set once. The
/// same request serves the region lookup and the address lookup.
#[derive(Debug, Clone)]
pub struct CoordRequest {
    pub base_url: String,
    pub app_key: String,
    pub page: usize,
    pub longitude: String,
    pub latitude: String,
}

/// The query parameters of a coordinate lookup, in wire order.
pub open spec fn spec_coord_params(r: CoordRequest) -> Seq<(Seq<char>, Seq<char>)> {
    seq![
        ("page"@, dec_digits(r.page as nat)),
        ("x"@, r.longitude@),
        ("y"@, r.latitude@),
    ]
}

impl CoordRequest {
    /// A request against the default service URL, first page, for this
    /// coordinate text.
    pub fn new(app_key: &str, longitude: &str, latitude: &str) -> (r: CoordRequest)
        ensures
            r.base_url@ == spec_default_base_url(),
            r.app_key@ == app_key@,
            r.page == 1usize,
            r.longitude@ == longitude@,
            r.latitude@ == latitude@,
    {
        CoordRequest {
            base_url: default_base_url(),
            app_key: app_key.to_owned(),
            page: 1,
            longitude: longitude.to_owned(),
            latitude: latitude.to_owned(),
        }
    }

    /// The same request against another base URL.
    pub fn base_url(self, base_url: &str) -> (r: CoordRequest)
        ensures
            r.base_url@ == base_url@,
            r.app_key == self.app_key,
            r.page == self.page,
            r.longitude == self.longitude,
            r.latitude == self.latitude,
    {
        CoordRequest { base_url: base_url.to_owned(), ..self }
    }

    /// The same request for another page.
    pub fn page(self, page: usize) -> (r: CoordRequest)
        ensures
            r.page == page,
            r.base_url == self.base_url,
            r.app_key == self.app_key,
            r.longitude == self.longitude,
            r.latitude == self.latitude,
    {
        CoordRequest { page, ..self }
    }

    /// The query parameters of this request, in wire order.
    pub fn params(&self) -> (v: Vec<(String, String)>)
        ensures
            pair_views(v@) == spec_coord_params(*self),
    {
        let mut v: Vec<(String, String)> = Vec::new();
        v.push(("page".to_owned(), usize_to_dec(self.page)));
        v.push(("x".to_owned(), self.longitude.clone()));
        v.push(("y".to_owned(), self.latitude.clone()));
        proof {
            assert(pair_views(v@) =~~= spec_coord_params(*self));
        }
        v
    }

    /// The complete description of the region-lookup GET call.
    pub fn region_request_parts(&self) -> (r: RequestParts)
        ensures
            r.base_url@ == spec_normalized_base(self.base_url@),
            r.path@ == spec_trimmed_path("/geo/coord2regioncode.json"@),
            pair_views(r.params@) == spec_coord_params(*self),
            r.auth@ == "KakaoAK "@ + self.app_key@,
    {
        RequestParts {
            base_url: normalize_base_url(self.base_url.as_str()),
            path: normalize_path("/geo/coord2regioncode.json"),
            params: self.params(),
            auth: auth_header_value(self.app_key.as_str()),
        }
    }

    /// The complete description of the address-lookup GET call.
    pub fn address_request_parts(&self) -> (r: RequestParts)
        ensures
            r.base_url@ == spec_normalized_base(self.base_url@),
            r.path@ == spec_trimmed_path("/geo/coord2address.json"@),
            pair_views(r.params@) == spec_coord_params(*self),
            r.auth@ == "KakaoAK "@ + self.app_key@,
    {
        RequestParts {
            base_url: normalize_base_url(self.base_url.as_str()),
            path: normalize_path("/geo/coord2address.json"),
            params: self.params(),
            auth: auth_header_value(self.app_key.as_str()),
        }
    }
}

} // verus!
