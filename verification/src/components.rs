//! Descriptive component data that can be attached to an organization:
//! contact details, addresses, classifications, financial ranges, social
//! profiles and partnerships. These are plain records with no behaviour of
//! their own; dates are carried as day numbers and timestamps as
//! milliseconds since the epoch.

use vstd::prelude::*;
use crate::value_objects::{Address, PhoneNumber};

verus! {

/// Organization contact information.
#[derive(Debug, Clone, PartialEq, Eq)]
pub struct ContactComponentData {
    pub contact_type: ContactType,
    pub phone: PhoneNumber,
    pub extension: Option<String>,
    pub department: Option<String>,
    pub hours_of_operation: Option<String>,
    pub is_primary: bool,
}

/// Kinds of contact points.
#[derive(Debug, Clone, Copy, PartialEq, Eq, Structural)]
pub enum ContactType {
    Main,
    Sales,
    Support,
    Billing,
    Emergency,
    Other,
}

/// An organization address.
#[derive(Debug, Clone, PartialEq, Eq)]
pub struct AddressComponentData {
    pub address_type: AddressType,
    pub address: Address,
    pub is_primary: bool,
    pub is_billing_address: bool,
    pub is_shipping_address: bool,
}

/// Kinds of addresses.
#[derive(Debug, Clone, Copy, PartialEq, Eq, Structural)]
pub enum AddressType {
    Headquarters,
    Branch,
    Warehouse,
    Manufacturing,
    Mailing,
    Registered,
    Other,
}

/// Certifications and accreditations, dated by day number.
#[derive(Debug, Clone, PartialEq, Eq)]
pub struct CertificationComponentData {
    pub certification_type: CertificationType,
    pub name: String,
    pub issuing_body: String,
    pub certification_number: Option<String>,
    pub issue_day: u64,
    pub expiry_day: Option<u64>,
    pub status: CertificationStatus,
    pub scope: Option<String>,
}

/// Kinds of certifications.
#[derive(Debug, Clone, Copy, PartialEq, Eq, Structural)]
pub enum CertificationType {
    ISO9001,
    ISO14001,
    ISO27001,
    SOC2,
    PciDss,
    License,
    Accreditation,
    Other,
}

/// Lifecycle of a certification.
#[derive(Debug, Clone, Copy, PartialEq, Eq, Structural)]
pub enum CertificationStatus {
    Active,
    Expired,
    Suspended,
    Revoked,
    Pending,
}

/// Industry classification.
#[derive(Debug, Clone, PartialEq, Eq)]
pub struct IndustryComponentData {
    pub classification_system: ClassificationSystem,
    pub code: String,
    pub description: String,
    pub is_primary: bool,
}

/// Industry classification systems.
#[derive(Debug, Clone, Copy, PartialEq, Eq, Structural)]
pub enum ClassificationSystem {
    NAICS,
    SIC,
    ISIC,
    NACE,
    Other,
}

/// Financial information, in coarse ranges.
#[derive(Debug, Clone, PartialEq, Eq)]
pub struct FinancialComponentData {
    pub fiscal_year_end: Option<String>,
    pub revenue_range: Option<RevenueRange>,
    pub employee_count_range: Option<EmployeeRange>,
    pub credit_rating: Option<String>,
    pub duns_number: Option<String>,
    pub tax_id: Option<String>,
}

/// Coarse revenue ranges.
#[derive(Debug, Clone, Copy, PartialEq, Eq, Structural)]
pub enum RevenueRange {
    Under1M,
    From1MTo10M,
    From10MTo50M,
    From50MTo100M,
    From100MTo500M,
    From500MTo1B,
    Over1B,
}

/// Coarse employee count ranges.
#[derive(Debug, Clone, Copy, PartialEq, Eq, Structural)]
pub enum EmployeeRange {
    Under10,
    From10To50,
    From50To100,
    From100To500,
    From500To1000,
    From1000To5000,
    Over5000,
}

/// An organization's social media profile.
#[derive(Debug, Clone, PartialEq, Eq)]
pub struct SocialMediaComponentData {
    pub platform: SocialPlatform,
    pub profile_url: String,
    pub handle: String,
    pub is_verified: bool,
    pub follower_count: Option<u64>,
}

/// Social media platforms.
#[derive(Debug, Clone, Copy, PartialEq, Eq, Structural)]
pub enum SocialPlatform {
    LinkedIn,
    Twitter,
    Facebook,
    Instagram,
    YouTube,
    GitHub,
    Other,
}

/// A partnership or affiliation, dated by day number.
#[derive(Debug, Clone, PartialEq, Eq)]
pub struct PartnershipComponentData {
    pub partner_organization_id: Option<u128>,
    pub partner_name: String,
    pub partnership_type: PartnershipType,
    pub start_day: u64,
    pub end_day: Option<u64>,
    pub is_active: bool,
    pub description: Option<String>,
}

/// Kinds of partnerships.
#[derive(Debug, Clone, Copy, PartialEq, Eq, Structural)]
pub enum PartnershipType {
    Strategic,
    Technology,
    Channel,
    Supplier,
    Customer,
    Affiliate,
    Other,
}

/// Changes to a contact component.
#[derive(Debug, Clone, PartialEq, Eq)]
pub struct ContactChanges {
    pub phone: Option<PhoneNumber>,
    pub extension: Option<String>,
    pub department: Option<String>,
    pub hours_of_operation: Option<String>,
    pub is_primary: Option<bool>,
}

/// Changes to an address component.
#[derive(Debug, Clone, PartialEq, Eq)]
pub struct AddressChanges {
    pub address: Option<Address>,
    pub address_type: Option<AddressType>,
    pub is_primary: Option<bool>,
    pub is_billing_address: Option<bool>,
    pub is_shipping_address: Option<bool>,
}

/// Changes to a social profile component.
#[derive(Debug, Clone, PartialEq, Eq)]
pub struct SocialProfileChanges {
    pub profile_url: Option<String>,
    pub handle: Option<String>,
    pub is_verified: Option<bool>,
    pub follower_count: Option<u64>,
}

} // verus!
