use vstd::prelude::*;

verus! {

/// The shopper's browser environment, collected for 3-D Secure device
/// fingerprinting and sent along with card payments.
#[derive(Clone, Debug, PartialEq)]
pub struct BrowserInfo {
    pub user_agent: String,
    pub accept_header: String,
    pub language: String,
    pub color_depth: u32,
    pub screen_height: u32,
    pub screen_width: u32,
    pub time_zone_offset: i32,
    pub java_enabled: bool,
}

} // verus!
