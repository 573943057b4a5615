//! Writing a listing: how the texts that a caller sends are normalised
//! before they are stored, and how the site path is made from them.

use crate::properties::enumerates::{PurchaseStatus, SoldStatus};
use crate::text::{lowercase, optional_text, slug, slug_of, to_lowercase, trim, trimmed};
use vstd::prelude::*;

verus! {

/// The site path of a listing: its offer, building type, province, regency
/// and street, each as a path segment behind a slash.
pub open spec fn site_path_of(
    offer: PurchaseStatus,
    building_type: Seq<char>,
    province: Seq<char>,
    regency: Seq<char>,
    street: Seq<char>,
) -> Seq<char> {
    "/"@ + offer.slug() + "/"@ + slug_of(building_type) + "/"@ + slug_of(province) + "/"@
        + slug_of(regency) + "/"@ + slug_of(street)
}

/// Makes the site path of a listing from the fields that place it.
pub fn site_path(
    offer: PurchaseStatus,
    building_type: &str,
    province: &str,
    regency: &str,
    street: &str,
) -> (path: String)
    ensures
        path@ == site_path_of(offer, building_type@, province@, regency@, street@),
{
    let mut path = String::from_str("/");
    path.append(offer.to_slug().as_str());
    path.append("/");
    path.append(slug(building_type).as_str());
    path.append("/");
    path.append(slug(province).as_str());
    path.append("/");
    path.append(slug(regency).as_str());
    path.append("/");
    path.append(slug(street).as_str());
    path
}

/// The form in which a place name is stored: trimmed and lowercased.
pub open spec fn place_of(text: Seq<char>) -> Seq<char> {
    lowercase(trimmed(text))
}

/// Brings a place name into the form in which it is stored.
pub fn place(text: &str) -> (stored: String)
    ensures
        stored@ == place_of(text@),
{
    to_lowercase(trim(text))
}

/// What a caller sends to create or update a listing, as far as it is
/// normalised on the way to the store.
#[derive(Clone, Debug, PartialEq, Eq)]
pub struct CreateUpdatePropertyApiPayload {
    pub title: String,
    pub description: String,
    pub province: String,
    pub regency: String,
    pub street: String,
    pub gmap_iframe: Option<String>,
    pub price: i64,
    pub purchase_status: PurchaseStatus,
    pub sold_status: Option<SoldStatus>,
    pub building_type: String,
    pub building_certificate: Option<String>,
    pub description_seo: Option<String>,
    pub price_down_payment: Option<i64>,
    pub developer_id: Option<i32>,
    pub bank_id: Option<i32>,
}

/// What is written to the store for a listing.
#[derive(Clone, Debug, PartialEq, Eq)]
pub struct CreateUpdatePropertySqlPayload {
    pub site_path: String,
    pub title: String,
    pub description: String,
    pub province: String,
    pub regency: String,
    pub street: String,
    pub gmap_iframe: Option<String>,
    pub price: i64,
    pub purchase_status: PurchaseStatus,
    pub sold_status: Option<SoldStatus>,
    pub building_type: String,
    pub building_certificate: Option<String>,
    pub description_seo: Option<String>,
    pub price_down_payment: Option<i64>,
    pub developer_id: Option<i32>,
    pub bank_id: Option<i32>,
}

/// The mathematical content of a [`CreateUpdatePropertyApiPayload`].
pub struct ApiPayloadView {
    pub title: Seq<char>,
    pub description: Seq<char>,
    pub province: Seq<char>,
    pub regency: Seq<char>,
    pub street: Seq<char>,
    pub gmap_iframe: Option<Seq<char>>,
    pub price: i64,
    pub purchase_status: PurchaseStatus,
    pub sold_status: Option<SoldStatus>,
    pub building_type: Seq<char>,
    pub building_certificate: Option<Seq<char>>,
    pub description_seo: Option<Seq<char>>,
    pub price_down_payment: Option<i64>,
    pub developer_id: Option<i32>,
    pub bank_id: Option<i32>,
}

/// The mathematical content of a [`CreateUpdatePropertySqlPayload`].
pub struct SqlPayloadView {
    pub site_path: Seq<char>,
    pub title: Seq<char>,
    pub description: Seq<char>,
    pub province: Seq<char>,
    pub regency: Seq<char>,
    pub street: Seq<char>,
    pub gmap_iframe: Option<Seq<char>>,
    pub price: i64,
    pub purchase_status: PurchaseStatus,
    pub sold_status: Option<SoldStatus>,
    pub building_type: Seq<char>,
    pub building_certificate: Option<Seq<char>>,
    pub description_seo: Option<Seq<char>>,
    pub price_down_payment: Option<i64>,
    pub developer_id: Option<i32>,
    pub bank_id: Option<i32>,
}

impl View for CreateUpdatePropertyApiPayload {
    type V = ApiPayloadView;

    open spec fn view(&self) -> ApiPayloadView {
        ApiPayloadView {
            title: self.title@,
            description: self.description@,
            province: self.province@,
            regency: self.regency@,
            street: self.street@,
            gmap_iframe: optional_text(self.gmap_iframe),
            price: self.price,
            purchase_status: self.purchase_status,
            sold_status: self.sold_status,
            building_type: self.building_type@,
            building_certificate: optional_text(self.building_certificate),
            description_seo: optional_text(self.description_seo),
            price_down_payment: self.price_down_payment,
            developer_id: self.developer_id,
            bank_id: self.bank_id,
        }
    }
}

impl View for CreateUpdatePropertySqlPayload {
    type V = SqlPayloadView;

    open spec fn view(&self) -> SqlPayloadView {
        SqlPayloadView {
            site_path: self.site_path@,
            title: self.title@,
            description: self.description@,
            province: self.province@,
            regency: self.regency@,
            street: self.street@,
            gmap_iframe: optional_text(self.gmap_iframe),
            price: self.price,
            purchase_status: self.purchase_status,
            sold_status: self.sold_status,
            building_type: self.building_type@,
            building_certificate: optional_text(self.building_certificate),
            description_seo: optional_text(self.description_seo),
            price_down_payment: self.price_down_payment,
            developer_id: self.developer_id,
            bank_id: self.bank_id,
        }
    }
}

impl ApiPayloadView {
    /// What is stored for a payload: the site path made from offer,
    /// building type and place; province, regency and street trimmed and
    /// lowercased; building type and certificate lowercased; everything
    /// else as it was sent.
    pub open spec fn stored(self) -> SqlPayloadView {
        SqlPayloadView {
            site_path: site_path_of(
                self.purchase_status,
                self.building_type,
                self.province,
                self.regency,
                self.street,
            ),
            title: self.title,
            description: self.description,
            province: place_of(self.province),
            regency: place_of(self.regency),
            street: place_of(self.street),
            gmap_iframe: self.gmap_iframe,
            price: self.price,
            purchase_status: self.purchase_status,
            sold_status: self.sold_status,
            building_type: lowercase(self.building_type),
            building_certificate: match self.building_certificate {
                Some(certificate) => Some(lowercase(certificate)),
                None => None,
            },
            description_seo: self.description_seo,
            price_down_payment: self.price_down_payment,
            developer_id: self.developer_id,
            bank_id: self.bank_id,
        }
    }
}

impl CreateUpdatePropertyApiPayload {
    /// Normalises what a caller sent into what is stored.
    pub fn to_sql_payload(self) -> (payload: CreateUpdatePropertySqlPayload)
        ensures
            payload@ == self@.stored(),
    {
        let site_path = site_path(
            self.purchase_status,
            self.building_type.as_str(),
            self.province.as_str(),
            self.regency.as_str(),
            self.street.as_str(),
        );
        let province = place(self.province.as_str());
        let regency = place(self.regency.as_str());
        let street = place(self.street.as_str());
        let building_type = to_lowercase(self.building_type.as_str());
        let building_certificate = match &self.building_certificate {
            Some(certificate) => Some(to_lowercase(certificate.as_str())),
            None => None,
        };
        CreateUpdatePropertySqlPayload {
            site_path,
            title: self.title,
            description: self.description,
            province,
            regency,
            street,
            gmap_iframe: self.gmap_iframe,
            price: self.price,
            purchase_status: self.purchase_status,
            sold_status: self.sold_status,
            building_type,
            building_certificate,
            description_seo: self.description_seo,
            price_down_payment: self.price_down_payment,
            developer_id: self.developer_id,
            bank_id: self.bank_id,
        }
    }
}

} // verus!
