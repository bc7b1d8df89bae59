use vstd::prelude::*;

use crate::crypto::eq_strings_fixed_scan;

verus! {

/// The authorization tags an account may hold. The gateway collaborator
/// makes access decisions from these; this crate only stores and
/// reports them.
#[derive(Clone, Copy, Debug, PartialEq, Eq, Structural, Hash)]
pub enum ScopeKind {
    Public,
    Customer,
    Retailer,
    Partner,
    Admin,
}

/// The wire ordinal of each scope.
pub open spec fn scope_code_of(k: ScopeKind) -> i32 {
    match k {
        ScopeKind::Public => 0,
        ScopeKind::Customer => 1,
        ScopeKind::Retailer => 2,
        ScopeKind::Partner => 3,
        ScopeKind::Admin => 4,
    }
}

/// The text each scope is stored under.
pub open spec fn scope_label_of(k: ScopeKind) -> Seq<char> {
    match k {
        ScopeKind::Public => "Public"@,
        ScopeKind::Customer => "Customer"@,
        ScopeKind::Retailer => "Retailer"@,
        ScopeKind::Partner => "Partner"@,
        ScopeKind::Admin => "Admin"@,
    }
}

/// The scope a stored label denotes, if any.
pub open spec fn scope_of_label(s: Seq<char>) -> Option<ScopeKind> {
    if s == "Public"@ {
        Some(ScopeKind::Public)
    } else if s == "Customer"@ {
        Some(ScopeKind::Customer)
    } else if s == "Retailer"@ {
        Some(ScopeKind::Retailer)
    } else if s == "Partner"@ {
        Some(ScopeKind::Partner)
    } else if s == "Admin"@ {
        Some(ScopeKind::Admin)
    } else {
        None
    }
}

impl ScopeKind {
    /// The scope's numeric wire code.
    pub fn code(&self) -> (c: i32)
        ensures
            c == scope_code_of(*self),
    {
        match self {
            ScopeKind::Public => 0,
            ScopeKind::Customer => 1,
            ScopeKind::Retailer => 2,
            ScopeKind::Partner => 3,
            ScopeKind::Admin => 4,
        }
    }

    /// The text the scope is stored under.
    pub fn label(&self) -> (l: &'static str)
        ensures
            l@ == scope_label_of(*self),
    {
        match self {
            ScopeKind::Public => "Public",
            ScopeKind::Customer => "Customer",
            ScopeKind::Retailer => "Retailer",
            ScopeKind::Partner => "Partner",
            ScopeKind::Admin => "Admin",
        }
    }

    /// Reads a stored label back; unrecognized text is refused.
    pub fn from_label(s: &str) -> (r: Option<ScopeKind>)
        ensures
            r == scope_of_label(s@),
    {
        if eq_strings_fixed_scan(s, "Public") {
            Some(ScopeKind::Public)
        } else if eq_strings_fixed_scan(s, "Customer") {
            Some(ScopeKind::Customer)
        } else if eq_strings_fixed_scan(s, "Retailer") {
            Some(ScopeKind::Retailer)
        } else if eq_strings_fixed_scan(s, "Partner") {
            Some(ScopeKind::Partner)
        } else if eq_strings_fixed_scan(s, "Admin") {
            Some(ScopeKind::Admin)
        } else {
            None
        }
    }
}

/// Know-your-customer verification levels.
#[derive(Clone, Copy, Debug, PartialEq, Eq, Structural)]
pub enum KycLevel {
    Level0,
    Level1,
    Level2,
    Level3,
}

/// The wire ordinal of each verification level.
pub open spec fn kyc_level_code_of(k: KycLevel) -> u8 {
    match k {
        KycLevel::Level0 => 0,
        KycLevel::Level1 => 1,
        KycLevel::Level2 => 2,
        KycLevel::Level3 => 3,
    }
}

/// The text each verification level is stored under.
pub open spec fn kyc_level_label_of(k: KycLevel) -> Seq<char> {
    match k {
        KycLevel::Level0 => "Level0"@,
        KycLevel::Level1 => "Level1"@,
        KycLevel::Level2 => "Level2"@,
        KycLevel::Level3 => "Level3"@,
    }
}

/// The verification level a stored label denotes, if any.
pub open spec fn kyc_level_of_label(s: Seq<char>) -> Option<KycLevel> {
    if s == "Level0"@ {
        Some(KycLevel::Level0)
    } else if s == "Level1"@ {
        Some(KycLevel::Level1)
    } else if s == "Level2"@ {
        Some(KycLevel::Level2)
    } else if s == "Level3"@ {
        Some(KycLevel::Level3)
    } else {
        None
    }
}

impl KycLevel {
    /// The level's numeric wire code.
    pub fn code(&self) -> (c: u8)
        ensures
            c == kyc_level_code_of(*self),
    {
        match self {
            KycLevel::Level0 => 0,
            KycLevel::Level1 => 1,
            KycLevel::Level2 => 2,
            KycLevel::Level3 => 3,
        }
    }

    /// The text the level is stored under.
    pub fn label(&self) -> (l: &'static str)
        ensures
            l@ == kyc_level_label_of(*self),
    {
        match self {
            KycLevel::Level0 => "Level0",
            KycLevel::Level1 => "Level1",
            KycLevel::Level2 => "Level2",
            KycLevel::Level3 => "Level3",
        }
    }

    /// Reads a stored label back; unrecognized text is refused.
    pub fn from_label(s: &str) -> (r: Option<KycLevel>)
        ensures
            r == kyc_level_of_label(s@),
    {
        if eq_strings_fixed_scan(s, "Level0") {
            Some(KycLevel::Level0)
        } else if eq_strings_fixed_scan(s, "Level1") {
            Some(KycLevel::Level1)
        } else if eq_strings_fixed_scan(s, "Level2") {
            Some(KycLevel::Level2)
        } else if eq_strings_fixed_scan(s, "Level3") {
            Some(KycLevel::Level3)
        } else {
            None
        }
    }
}

/// The review state of a customer or retailer profile.
#[derive(Clone, Copy, Debug, PartialEq, Eq, Structural)]
pub enum Approval {
    OnHold,
    Approved,
    Rejected,
}

/// The wire ordinal of each review state.
pub open spec fn approval_code_of(a: Approval) -> u8 {
    match a {
        Approval::OnHold => 0,
        Approval::Approved => 1,
        Approval::Rejected => 2,
    }
}

/// The text each review state is stored under.
pub open spec fn approval_label_of(a: Approval) -> Seq<char> {
    match a {
        Approval::OnHold => "OnHold"@,
        Approval::Approved => "Approved"@,
        Approval::Rejected => "Rejected"@,
    }
}

/// The review state a stored label denotes, if any.
pub open spec fn approval_of_label(s: Seq<char>) -> Option<Approval> {
    if s == "OnHold"@ {
        Some(Approval::OnHold)
    } else if s == "Approved"@ {
        Some(Approval::Approved)
    } else if s == "Rejected"@ {
        Some(Approval::Rejected)
    } else {
        None
    }
}

/// The review state a wire ordinal denotes, if any.
pub open spec fn approval_of_code(c: u8) -> Option<Approval> {
    if c == 0 {
        Some(Approval::OnHold)
    } else if c == 1 {
        Some(Approval::Approved)
    } else if c == 2 {
        Some(Approval::Rejected)
    } else {
        None
    }
}

impl Approval {
    /// The review state's numeric wire code.
    pub fn code(&self) -> (c: u8)
        ensures
            c == approval_code_of(*self),
    {
        match self {
            Approval::OnHold => 0,
            Approval::Approved => 1,
            Approval::Rejected => 2,
        }
    }

    /// Reads a wire code back; out-of-range codes are refused.
    pub fn from_code(c: u8) -> (r: Option<Approval>)
        ensures
            r == approval_of_code(c),
    {
        if c == 0 {
            Some(Approval::OnHold)
        } else if c == 1 {
            Some(Approval::Approved)
        } else if c == 2 {
            Some(Approval::Rejected)
        } else {
            None
        }
    }

    /// The text the review state is stored under.
    pub fn label(&self) -> (l: &'static str)
        ensures
            l@ == approval_label_of(*self),
    {
        match self {
            Approval::OnHold => "OnHold",
            Approval::Approved => "Approved",
            Approval::Rejected => "Rejected",
        }
    }

    /// Reads a stored label back; unrecognized text is refused.
    pub fn from_label(s: &str) -> (r: Option<Approval>)
        ensures
            r == approval_of_label(s@),
    {
        if eq_strings_fixed_scan(s, "OnHold") {
            Some(Approval::OnHold)
        } else if eq_strings_fixed_scan(s, "Approved") {
            Some(Approval::Approved)
        } else if eq_strings_fixed_scan(s, "Rejected") {
            Some(Approval::Rejected)
        } else {
            None
        }
    }
}

/// Which verification tier a spending limit applies to, or all of them.
#[derive(Clone, Copy, Debug, PartialEq, Eq, Structural)]
pub enum LimitLevel {
    KycLevel0,
    KycLevel1,
    KycLevel2,
    KycLevel3,
    Overall,
}

/// The wire ordinal of each limit level.
pub open spec fn limit_level_code_of(l: LimitLevel) -> u8 {
    match l {
        LimitLevel::KycLevel0 => 0,
        LimitLevel::KycLevel1 => 1,
        LimitLevel::KycLevel2 => 2,
        LimitLevel::KycLevel3 => 3,
        LimitLevel::Overall => 4,
    }
}

/// The limit level a wire ordinal denotes, if any.
pub open spec fn limit_level_of_code(c: u8) -> Option<LimitLevel> {
    if c == 0 {
        Some(LimitLevel::KycLevel0)
    } else if c == 1 {
        Some(LimitLevel::KycLevel1)
    } else if c == 2 {
        Some(LimitLevel::KycLevel2)
    } else if c == 3 {
        Some(LimitLevel::KycLevel3)
    } else if c == 4 {
        Some(LimitLevel::Overall)
    } else {
        None
    }
}

/// The text each limit level is stored under.
pub open spec fn limit_level_label_of(l: LimitLevel) -> Seq<char> {
    match l {
        LimitLevel::KycLevel0 => "KycLevel0"@,
        LimitLevel::KycLevel1 => "KycLevel1"@,
        LimitLevel::KycLevel2 => "KycLevel2"@,
        LimitLevel::KycLevel3 => "KycLevel3"@,
        LimitLevel::Overall => "Overall"@,
    }
}

/// The limit level a stored label denotes, if any.
pub open spec fn limit_level_of_label(s: Seq<char>) -> Option<LimitLevel> {
    if s == "KycLevel0"@ {
        Some(LimitLevel::KycLevel0)
    } else if s == "KycLevel1"@ {
        Some(LimitLevel::KycLevel1)
    } else if s == "KycLevel2"@ {
        Some(LimitLevel::KycLevel2)
    } else if s == "KycLevel3"@ {
        Some(LimitLevel::KycLevel3)
    } else if s == "Overall"@ {
        Some(LimitLevel::Overall)
    } else {
        None
    }
}

impl LimitLevel {
    /// The limit level's numeric wire code.
    pub fn code(&self) -> (c: u8)
        ensures
            c == limit_level_code_of(*self),
    {
        match self {
            LimitLevel::KycLevel0 => 0,
            LimitLevel::KycLevel1 => 1,
            LimitLevel::KycLevel2 => 2,
            LimitLevel::KycLevel3 => 3,
            LimitLevel::Overall => 4,
        }
    }

    /// Reads a wire code back; out-of-range codes are refused.
    pub fn from_code(c: u8) -> (r: Option<LimitLevel>)
        ensures
            r == limit_level_of_code(c),
    {
        if c == 0 {
            Some(LimitLevel::KycLevel0)
        } else if c == 1 {
            Some(LimitLevel::KycLevel1)
        } else if c == 2 {
            Some(LimitLevel::KycLevel2)
        } else if c == 3 {
            Some(LimitLevel::KycLevel3)
        } else if c == 4 {
            Some(LimitLevel::Overall)
        } else {
            None
        }
    }

    /// The text the limit level is stored under.
    pub fn label(&self) -> (l: &'static str)
        ensures
            l@ == limit_level_label_of(*self),
    {
        match self {
            LimitLevel::KycLevel0 => "KycLevel0",
            LimitLevel::KycLevel1 => "KycLevel1",
            LimitLevel::KycLevel2 => "KycLevel2",
            LimitLevel::KycLevel3 => "KycLevel3",
            LimitLevel::Overall => "Overall",
        }
    }

    /// Reads a stored label back; unrecognized text is refused.
    pub fn from_label(s: &str) -> (r: Option<LimitLevel>)
        ensures
            r == limit_level_of_label(s@),
    {
        if eq_strings_fixed_scan(s, "KycLevel0") {
            Some(LimitLevel::KycLevel0)
        } else if eq_strings_fixed_scan(s, "KycLevel1") {
            Some(LimitLevel::KycLevel1)
        } else if eq_strings_fixed_scan(s, "KycLevel2") {
            Some(LimitLevel::KycLevel2)
        } else if eq_strings_fixed_scan(s, "KycLevel3") {
            Some(LimitLevel::KycLevel3)
        } else if eq_strings_fixed_scan(s, "Overall") {
            Some(LimitLevel::Overall)
        } else {
            None
        }
    }
}

/// How often a spending limit resets.
#[derive(Clone, Copy, Debug, PartialEq, Eq, Structural)]
pub enum LimitPeriod {
    Daily,
    Weekly,
    Monthly,
}

/// The wire ordinal of each limit period.
pub open spec fn limit_period_code_of(p: LimitPeriod) -> u8 {
    match p {
        LimitPeriod::Daily => 0,
        LimitPeriod::Weekly => 1,
        LimitPeriod::Monthly => 2,
    }
}

/// The limit period a wire ordinal denotes, if any.
pub open spec fn limit_period_of_code(c: u8) -> Option<LimitPeriod> {
    if c == 0 {
        Some(LimitPeriod::Daily)
    } else if c == 1 {
        Some(LimitPeriod::Weekly)
    } else if c == 2 {
        Some(LimitPeriod::Monthly)
    } else {
        None
    }
}

/// The text each limit period is stored under.
pub open spec fn limit_period_label_of(p: LimitPeriod) -> Seq<char> {
    match p {
        LimitPeriod::Daily => "Daily"@,
        LimitPeriod::Weekly => "Weekly"@,
        LimitPeriod::Monthly => "Monthly"@,
    }
}

/// The limit period a stored label denotes, if any.
pub open spec fn limit_period_of_label(s: Seq<char>) -> Option<LimitPeriod> {
    if s == "Daily"@ {
        Some(LimitPeriod::Daily)
    } else if s == "Weekly"@ {
        Some(LimitPeriod::Weekly)
    } else if s == "Monthly"@ {
        Some(LimitPeriod::Monthly)
    } else {
        None
    }
}

impl LimitPeriod {
    /// The limit period's numeric wire code.
    pub fn code(&self) -> (c: u8)
        ensures
            c == limit_period_code_of(*self),
    {
        match self {
            LimitPeriod::Daily => 0,
            LimitPeriod::Weekly => 1,
            LimitPeriod::Monthly => 2,
        }
    }

    /// Reads a wire code back; out-of-range codes are refused.
    pub fn from_code(c: u8) -> (r: Option<LimitPeriod>)
        ensures
            r == limit_period_of_code(c),
    {
        if c == 0 {
            Some(LimitPeriod::Daily)
        } else if c == 1 {
            Some(LimitPeriod::Weekly)
        } else if c == 2 {
            Some(LimitPeriod::Monthly)
        } else {
            None
        }
    }

    /// The text the limit period is stored under.
    pub fn label(&self) -> (l: &'static str)
        ensures
            l@ == limit_period_label_of(*self),
    {
        match self {
            LimitPeriod::Daily => "Daily",
            LimitPeriod::Weekly => "Weekly",
            LimitPeriod::Monthly => "Monthly",
        }
    }

    /// Reads a stored label back; unrecognized text is refused.
    pub fn from_label(s: &str) -> (r: Option<LimitPeriod>)
        ensures
            r == limit_period_of_label(s@),
    {
        if eq_strings_fixed_scan(s, "Daily") {
            Some(LimitPeriod::Daily)
        } else if eq_strings_fixed_scan(s, "Weekly") {
            Some(LimitPeriod::Weekly)
        } else if eq_strings_fixed_scan(s, "Monthly") {
            Some(LimitPeriod::Monthly)
        } else {
            None
        }
    }
}

/// Which of a customer's profile slots a document belongs to.
#[derive(Clone, Copy, Debug, PartialEq, Eq, Structural)]
pub enum ProfileIndex {
    Zero,
    One,
    Two,
}

/// The text each profile slot is stored under.
pub open spec fn profile_index_label_of(p: ProfileIndex) -> Seq<char> {
    match p {
        ProfileIndex::Zero => "0"@,
        ProfileIndex::One => "1"@,
        ProfileIndex::Two => "2"@,
    }
}

/// The profile slot a stored label denotes, if any.
pub open spec fn profile_index_of_label(s: Seq<char>) -> Option<ProfileIndex> {
    if s == "0"@ {
        Some(ProfileIndex::Zero)
    } else if s == "1"@ {
        Some(ProfileIndex::One)
    } else if s == "2"@ {
        Some(ProfileIndex::Two)
    } else {
        None
    }
}

/// The profile slot a position denotes, if any.
pub open spec fn profile_index_of_position(v: usize) -> Option<ProfileIndex> {
    if v == 0 {
        Some(ProfileIndex::Zero)
    } else if v == 1 {
        Some(ProfileIndex::One)
    } else if v == 2 {
        Some(ProfileIndex::Two)
    } else {
        None
    }
}

impl ProfileIndex {
    /// The text the profile slot is stored under.
    pub fn label(&self) -> (l: &'static str)
        ensures
            l@ == profile_index_label_of(*self),
    {
        match self {
            ProfileIndex::Zero => "0",
            ProfileIndex::One => "1",
            ProfileIndex::Two => "2",
        }
    }

    /// Reads a stored label back; unrecognized text is refused.
    pub fn from_label(s: &str) -> (r: Option<ProfileIndex>)
        ensures
            r == profile_index_of_label(s@),
    {
        if eq_strings_fixed_scan(s, "0") {
            Some(ProfileIndex::Zero)
        } else if eq_strings_fixed_scan(s, "1") {
            Some(ProfileIndex::One)
        } else if eq_strings_fixed_scan(s, "2") {
            Some(ProfileIndex::Two)
        } else {
            None
        }
    }

    /// The profile slot sitting at a position, where one does.
    pub fn try_from_index(v: usize) -> (r: Option<ProfileIndex>)
        ensures
            r == profile_index_of_position(v),
    {
        if v == 0 {
            Some(ProfileIndex::Zero)
        } else if v == 1 {
            Some(ProfileIndex::One)
        } else if v == 2 {
            Some(ProfileIndex::Two)
        } else {
            None
        }
    }
}

/// The services this system is made of.
#[derive(Clone, Copy, Debug, PartialEq, Eq, Structural, Hash)]
pub enum Microservice {
    Auth,
    Account,
    Storage,
    Email,
}

/// The loopback address each service listens on.
pub open spec fn microservice_addr_of(m: Microservice) -> Seq<char> {
    match m {
        Microservice::Auth => "[::1]:50051"@,
        Microservice::Account => "[::1]:50052"@,
        Microservice::Storage => "[::1]:50053"@,
        Microservice::Email => "[::1]:50054"@,
    }
}

impl Microservice {
    /// The loopback address the service listens on.
    pub fn addr(&self) -> (a: &'static str)
        ensures
            a@ == microservice_addr_of(*self),
    {
        match self {
            Microservice::Auth => "[::1]:50051",
            Microservice::Account => "[::1]:50052",
            Microservice::Storage => "[::1]:50053",
            Microservice::Email => "[::1]:50054",
        }
    }
}

} // verus!
