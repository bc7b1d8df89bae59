use vstd::prelude::*;

verus! {

/// The fields a caller supplies to open a customer profile.
pub struct CustomerParams {
    pub account_id: String,
    pub first_name: String,
    pub last_name: String,
}

/// The fields a caller supplies to open a retailer profile.
pub struct RetailerParams {
    pub account_id: String,
}

/// The fields a caller supplies to attach a partner to a retailer.
pub struct RetailerPartnerParams {
    pub partner_id: String,
}

} // verus!
