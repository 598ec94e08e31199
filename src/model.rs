//! Request bodies, user records and entitlement data.
use vstd::prelude::*;
use crate::text::same_text;

verus! {

/// Body of a registration request.
pub struct UserRegisterRequest {
    pub email: String,
    pub username: String,
    pub full_name: String,
    pub password: String,
}

/// Body of a login request.
pub struct UserLoginRequest {
    pub email: String,
    pub password: String,
}

/// A stored user. Timestamps are Unix seconds.
pub struct User {
    pub id: u128,
    pub email: String,
    pub username: String,
    pub first_name: Option<String>,
    pub last_name: Option<String>,
    pub profile_picture_url: Option<String>,
    pub password_hash: String,
    pub email_verified: bool,
    pub created_at: i64,
    pub updated_at: i64,
}

/// A subscription plan tier.
#[derive(Clone, Copy, Debug, PartialEq, Eq, Structural)]
pub enum SubscriptionPlan {
    Free,
    Pro,
    Hacker,
}

/// The plan a stored name stands for (`free`, `pro`, `hacker`).
pub open spec fn plan_named(name: Seq<char>) -> Option<SubscriptionPlan> {
    if name == "free"@ {
        Some(SubscriptionPlan::Free)
    } else if name == "pro"@ {
        Some(SubscriptionPlan::Pro)
    } else if name == "hacker"@ {
        Some(SubscriptionPlan::Hacker)
    } else {
        None
    }
}

impl SubscriptionPlan {
    /// Reads a stored plan name.
    pub fn from_name(name: &str) -> (r: Option<SubscriptionPlan>)
        ensures
            r == plan_named(name@),
    {
        if same_text(name, "free") {
            Some(SubscriptionPlan::Free)
        } else if same_text(name, "pro") {
            Some(SubscriptionPlan::Pro)
        } else if same_text(name, "hacker") {
            Some(SubscriptionPlan::Hacker)
        } else {
            None
        }
    }
}

/// The state of a subscription.
#[derive(Clone, Copy, Debug, PartialEq, Eq, Structural)]
pub enum SubscriptionStatus {
    Active,
    Canceled,
    Incomplete,
    PastDue,
    Unpaid,
}

/// The status a stored name stands for (`active`, `canceled`,
/// `incomplete`, `past_due`, `unpaid`).
pub open spec fn status_named(name: Seq<char>) -> Option<SubscriptionStatus> {
    if name == "active"@ {
        Some(SubscriptionStatus::Active)
    } else if name == "canceled"@ {
        Some(SubscriptionStatus::Canceled)
    } else if name == "incomplete"@ {
        Some(SubscriptionStatus::Incomplete)
    } else if name == "past_due"@ {
        Some(SubscriptionStatus::PastDue)
    } else if name == "unpaid"@ {
        Some(SubscriptionStatus::Unpaid)
    } else {
        None
    }
}

impl SubscriptionStatus {
    /// Reads a stored status name.
    pub fn from_name(name: &str) -> (r: Option<SubscriptionStatus>)
        ensures
            r == status_named(name@),
    {
        if same_text(name, "active") {
            Some(SubscriptionStatus::Active)
        } else if same_text(name, "canceled") {
            Some(SubscriptionStatus::Canceled)
        } else if same_text(name, "incomplete") {
            Some(SubscriptionStatus::Incomplete)
        } else if same_text(name, "past_due") {
            Some(SubscriptionStatus::PastDue)
        } else if same_text(name, "unpaid") {
            Some(SubscriptionStatus::Unpaid)
        } else {
            None
        }
    }
}

/// A user's entitlement, resolved per request: plan, status, and when it
/// ends (Unix seconds), if it does.
#[derive(Clone, Copy, Debug, PartialEq, Eq, Structural)]
pub struct SubscriptionData {
    pub plan: SubscriptionPlan,
    pub status: SubscriptionStatus,
    pub ends_at: Option<i64>,
}

/// A stored subscription row. Timestamps are Unix seconds.
pub struct Subscription {
    pub id: u128,
    pub user_id: u128,
    pub plan: SubscriptionPlan,
    pub stripe_customer_id: Option<String>,
    pub stripe_subscription_id: Option<String>,
    pub starts_at: i64,
    pub ends_at: Option<i64>,
    pub status: Option<SubscriptionStatus>,
    pub created_at: i64,
    pub updated_at: i64,
}

} // verus!
