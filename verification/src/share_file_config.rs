//! Payloads of the share endpoints.

use vstd::prelude::*;

verus! {

/// For how long a share link stays open.
#[derive(Debug, Clone, Copy, PartialEq, Eq, Structural)]
pub enum ShareExpireDays {
    OneDay,
    SevenDays,
    ThirtyDays,
    /// The link never closes.
    Permanent,
}

impl ShareExpireDays {
    /// The number of days that the platform is told: 0 stands for a link
    /// that never closes.
    pub open spec fn spec_days(self) -> u8 {
        match self {
            ShareExpireDays::OneDay => 1,
            ShareExpireDays::SevenDays => 7,
            ShareExpireDays::ThirtyDays => 30,
            ShareExpireDays::Permanent => 0,
        }
    }

    /// The number of days that the platform is told.
    pub fn days(&self) -> (r: u8)
        ensures
            r == self.spec_days(),
    {
        match self {
            ShareExpireDays::OneDay => 1,
            ShareExpireDays::SevenDays => 7,
            ShareExpireDays::ThirtyDays => 30,
            ShareExpireDays::Permanent => 0,
        }
    }
}

/// The request to share files.
#[derive(Debug, Clone)]
pub struct ShareItem {
    pub share_name: String,
    pub share_expire: ShareExpireDays,
    /// The identifiers of the shared files, separated by commas.
    pub file_id_list: String,
    pub share_pwd: Option<String>,
    pub traffic_switch: Option<u8>,
    pub traffic_limit_switch: Option<u8>,
    pub traffic_limit: Option<u64>,
}

/// The share that was created.
#[derive(Debug, Clone)]
pub struct SharedData {
    pub share_id: u64,
    pub share_key: String,
}

/// The query of a page of shares.
#[derive(Debug, Clone)]
pub struct ShareQuery {
    pub last_share_id: Option<i64>,
    pub limit: u8,
}

/// The request to change the traffic settings of some shares.
#[derive(Debug, Clone)]
pub struct ShareLinkItem {
    pub share_id_list: Vec<u64>,
    pub traffic_switch: Option<i32>,
    pub traffic_limit_switch: Option<i32>,
    pub traffic_limit: Option<i64>,
}

/// The request to create a paid share.
#[derive(Debug, Clone)]
pub struct PayLinkItem {
    pub share_name: String,
    pub file_id_list: String,
    pub pay_amount: u32,
    pub is_reward: Option<u8>,
    pub resource_desc: Option<String>,
    pub traffic_switch: Option<u8>,
    pub traffic_limit_switch: Option<u8>,
    pub traffic_limit: Option<i64>,
}

} // verus!
