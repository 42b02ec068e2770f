//! Data types of the contract registry and of its security self-audits.
//!
//! Identifiers are held as 128-bit integers and instants as milliseconds since
//! the Unix epoch; scores are held in hundredths of a percent (0 to 10000).
use vstd::prelude::*;

verus! {

/// A smart contract in the registry.
pub struct Contract {
    pub id: u128,
    pub contract_id: String,
    pub wasm_hash: String,
    pub name: String,
    pub description: Option<String>,
    pub publisher_id: u128,
    pub network: Network,
    pub is_verified: bool,
    pub category: Option<String>,
    pub tags: Vec<String>,
    pub created_at: i64,
    pub updated_at: i64,
}

/// Network where a contract is deployed.
#[derive(Debug, Clone, Copy, PartialEq, Eq, Structural)]
pub enum Network {
    Mainnet,
    Testnet,
    Futurenet,
}

/// One published version of a contract.
pub struct ContractVersion {
    pub id: u128,
    pub contract_id: u128,
    pub version: String,
    pub wasm_hash: String,
    pub source_url: Option<String>,
    pub commit_hash: Option<String>,
    pub release_notes: Option<String>,
    pub created_at: i64,
}

/// Source verification of a contract.
pub struct Verification {
    pub id: u128,
    pub contract_id: u128,
    pub status: VerificationStatus,
    pub source_code: Option<String>,
    /// Build parameters, as JSON text.
    pub build_params: Option<String>,
    pub compiler_version: Option<String>,
    pub verified_at: Option<i64>,
    pub error_message: Option<String>,
    pub created_at: i64,
}

/// State of a source verification.
#[derive(Debug, Clone, Copy, PartialEq, Eq, Structural)]
pub enum VerificationStatus {
    Pending,
    Verified,
    Failed,
}

/// A publisher of contracts.
pub struct Publisher {
    pub id: u128,
    pub stellar_address: String,
    pub username: Option<String>,
    pub email: Option<String>,
    pub github_url: Option<String>,
    pub website: Option<String>,
    pub created_at: i64,
}

/// Interaction statistics of a contract.
pub struct ContractStats {
    pub contract_id: u128,
    pub total_deployments: i64,
    pub total_interactions: i64,
    pub unique_users: i64,
    pub last_interaction: Option<i64>,
}

/// Request to publish a new contract.
pub struct PublishRequest {
    pub contract_id: String,
    pub name: String,
    pub description: Option<String>,
    pub network: Network,
    pub category: Option<String>,
    pub tags: Vec<String>,
    pub source_url: Option<String>,
    pub publisher_address: String,
}

/// Request to verify a contract.
pub struct VerifyRequest {
    pub contract_id: String,
    pub source_code: String,
    /// Build parameters, as JSON text.
    pub build_params: String,
    pub compiler_version: String,
}

/// Search and filter parameters for contracts.
pub struct ContractSearchParams {
    pub query: Option<String>,
    pub network: Option<Network>,
    pub verified_only: Option<bool>,
    pub category: Option<String>,
    pub tags: Option<Vec<String>>,
    pub page: Option<i64>,
    pub page_size: Option<i64>,
}

/// Smallest integer at or above `a / b`, for a nonzero `b`.
pub open spec fn ceil_div(a: int, b: int) -> int {
    let (n, d) = if b < 0 { (-a, -b) } else { (a, b) };
    if n >= 0 { (n + d - 1) / d } else { -((-n) / d) }
}

/// Number of pages of `page_size` items needed for `total` items, as the
/// ceiling of the real quotient saturated to the range of `i64`; with a page
/// size of zero it is the saturated sign of `total`.
pub open spec fn page_count(total: int, page_size: int) -> int {
    let q = if page_size == 0 {
        if total > 0 { i64::MAX as int } else if total < 0 { i64::MIN as int } else { 0 }
    } else {
        ceil_div(total, page_size)
    };
    if q > i64::MAX { i64::MAX as int } else if q < i64::MIN { i64::MIN as int } else { q }
}

/// One page of results.
pub struct PaginatedResponse<T> {
    pub items: Vec<T>,
    pub total: i64,
    pub page: i64,
    pub page_size: i64,
    pub total_pages: i64,
}

impl<T> PaginatedResponse<T> {
    pub fn new(items: Vec<T>, total: i64, page: i64, page_size: i64) -> (r: Self)
        ensures
            r.items == items,
            r.total == total,
            r.page == page,
            r.page_size == page_size,
            r.total_pages == page_count(total as int, page_size as int),
    {
        let q: i128;
        if page_size == 0 {
            q = if total > 0 { i64::MAX as i128 } else if total < 0 { i64::MIN as i128 } else { 0 };
        } else {
            let (n, d): (i128, i128) = if page_size < 0 {
                (-(total as i128), -(page_size as i128))
            } else {
                (total as i128, page_size as i128)
            };
            if n >= 0 {
                let nn = n as u128;
                let dd = d as u128;
                q = ((nn + dd - 1) / dd) as i128;
            } else {
                let nn = (-n) as u128;
                let dd = d as u128;
                q = -((nn / dd) as i128);
            }
        }
        let total_pages: i64 = if q > i64::MAX as i128 {
            i64::MAX
        } else if q < i64::MIN as i128 {
            i64::MIN
        } else {
            q as i64
        };
        PaginatedResponse { items, total, page, page_size, total_pages }
    }
}

/// Category of a security checklist item.
#[derive(Debug, Clone, Copy, PartialEq, Eq, Hash, Structural)]
pub enum CheckCategory {
    InputValidation,
    StateManagement,
    AccessControl,
    Reentrancy,
    NumericalSafety,
    AuthenticationAuthorization,
    DataSerialization,
    ErrorHandling,
    StoragePatterns,
    TokenSafety,
    EventLogging,
    Upgradeability,
    CrossContractCalls,
    ResourceLimits,
}

/// Number of checklist categories.
pub const CATEGORY_COUNT: usize = 14;

/// The categories in their fixed reporting order.
pub open spec fn category_at(i: int) -> CheckCategory {
    if i <= 0 {
        CheckCategory::InputValidation
    } else if i == 1 {
        CheckCategory::StateManagement
    } else if i == 2 {
        CheckCategory::AccessControl
    } else if i == 3 {
        CheckCategory::Reentrancy
    } else if i == 4 {
        CheckCategory::NumericalSafety
    } else if i == 5 {
        CheckCategory::AuthenticationAuthorization
    } else if i == 6 {
        CheckCategory::DataSerialization
    } else if i == 7 {
        CheckCategory::ErrorHandling
    } else if i == 8 {
        CheckCategory::StoragePatterns
    } else if i == 9 {
        CheckCategory::TokenSafety
    } else if i == 10 {
        CheckCategory::EventLogging
    } else if i == 11 {
        CheckCategory::Upgradeability
    } else if i == 12 {
        CheckCategory::CrossContractCalls
    } else {
        CheckCategory::ResourceLimits
    }
}

/// Display name of a category.
pub open spec fn category_label(c: CheckCategory) -> Seq<char> {
    match c {
        CheckCategory::InputValidation => "Input Validation"@,
        CheckCategory::StateManagement => "State Management"@,
        CheckCategory::AccessControl => "Access Control"@,
        CheckCategory::Reentrancy => "Reentrancy"@,
        CheckCategory::NumericalSafety => "Numerical Safety"@,
        CheckCategory::AuthenticationAuthorization => "Authentication & Authorization"@,
        CheckCategory::DataSerialization => "Data Serialization"@,
        CheckCategory::ErrorHandling => "Error Handling"@,
        CheckCategory::StoragePatterns => "Storage Patterns"@,
        CheckCategory::TokenSafety => "Token Safety"@,
        CheckCategory::EventLogging => "Event Logging"@,
        CheckCategory::Upgradeability => "Upgradeability"@,
        CheckCategory::CrossContractCalls => "Cross-Contract Calls"@,
        CheckCategory::ResourceLimits => "Resource Limits"@,
    }
}

impl CheckCategory {
    /// The category at position `i` of the reporting order.
    pub fn at(i: usize) -> (r: CheckCategory)
        requires
            i < CATEGORY_COUNT,
        ensures
            r == category_at(i as int),
    {
        match i {
            0 => CheckCategory::InputValidation,
            1 => CheckCategory::StateManagement,
            2 => CheckCategory::AccessControl,
            3 => CheckCategory::Reentrancy,
            4 => CheckCategory::NumericalSafety,
            5 => CheckCategory::AuthenticationAuthorization,
            6 => CheckCategory::DataSerialization,
            7 => CheckCategory::ErrorHandling,
            8 => CheckCategory::StoragePatterns,
            9 => CheckCategory::TokenSafety,
            10 => CheckCategory::EventLogging,
            11 => CheckCategory::Upgradeability,
            12 => CheckCategory::CrossContractCalls,
            _ => CheckCategory::ResourceLimits,
        }
    }

    /// Display name of the category.
    pub fn label(&self) -> (r: String)
        ensures
            r@ == category_label(*self),
    {
        let s = match self {
            CheckCategory::InputValidation => "Input Validation",
            CheckCategory::StateManagement => "State Management",
            CheckCategory::AccessControl => "Access Control",
            CheckCategory::Reentrancy => "Reentrancy",
            CheckCategory::NumericalSafety => "Numerical Safety",
            CheckCategory::AuthenticationAuthorization => "Authentication & Authorization",
            CheckCategory::DataSerialization => "Data Serialization",
            CheckCategory::ErrorHandling => "Error Handling",
            CheckCategory::StoragePatterns => "Storage Patterns",
            CheckCategory::TokenSafety => "Token Safety",
            CheckCategory::EventLogging => "Event Logging",
            CheckCategory::Upgradeability => "Upgradeability",
            CheckCategory::CrossContractCalls => "Cross-Contract Calls",
            CheckCategory::ResourceLimits => "Resource Limits",
        };
        String::from_str(s)
    }
}

/// Severity of a security finding, from least to most serious.
#[derive(Debug, Clone, Copy, PartialEq, Eq, PartialOrd, Ord, Hash, Structural)]
pub enum Severity {
    Info,
    Low,
    Medium,
    High,
    Critical,
}

/// Position of a severity in the order Info < Low < Medium < High < Critical.
pub open spec fn severity_rank(s: Severity) -> nat {
    match s {
        Severity::Info => 0,
        Severity::Low => 1,
        Severity::Medium => 2,
        Severity::High => 3,
        Severity::Critical => 4,
    }
}

/// Weight of a severity in the score: Info 1, Low 2, Medium 3, High 5,
/// Critical 8. It grows strictly with the severity.
pub open spec fn weight_of(s: Severity) -> nat {
    match s {
        Severity::Info => 1,
        Severity::Low => 2,
        Severity::Medium => 3,
        Severity::High => 5,
        Severity::Critical => 8,
    }
}

/// Name of a severity.
pub open spec fn severity_name(s: Severity) -> Seq<char> {
    match s {
        Severity::Info => "Info"@,
        Severity::Low => "Low"@,
        Severity::Medium => "Medium"@,
        Severity::High => "High"@,
        Severity::Critical => "Critical"@,
    }
}

impl Severity {
    /// Weight of the severity in the score.
    pub fn weight(&self) -> (r: u64)
        ensures
            r == weight_of(*self),
    {
        match self {
            Severity::Info => 1,
            Severity::Low => 2,
            Severity::Medium => 3,
            Severity::High => 5,
            Severity::Critical => 8,
        }
    }

    /// Name of the severity.
    pub fn name(&self) -> (r: String)
        ensures
            r@ == severity_name(*self),
    {
        let s = match self {
            Severity::Info => "Info",
            Severity::Low => "Low",
            Severity::Medium => "Medium",
            Severity::High => "High",
            Severity::Critical => "Critical",
        };
        String::from_str(s)
    }
}

/// A heavier severity never weighs less.
pub proof fn lemma_weight_monotonic(a: Severity, b: Severity)
    requires
        severity_rank(a) <= severity_rank(b),
    ensures
        weight_of(a) <= weight_of(b),
{
}

/// How a checklist item is detected.
pub enum DetectionMethod {
    /// Detected by the presence of any of the patterns in the source.
    Automatic { patterns: Vec<String> },
    /// Reviewed by a human auditor only.
    Manual,
    /// Patterns flag a likely finding, which a human confirms.
    SemiAutomatic { patterns: Vec<String> },
}

/// Patterns of a detection method; none for a manual one.
pub open spec fn patterns_of(d: DetectionMethod) -> Seq<String> {
    match d {
        DetectionMethod::Automatic { patterns } => patterns@,
        DetectionMethod::Manual => Seq::empty(),
        DetectionMethod::SemiAutomatic { patterns } => patterns@,
    }
}

/// Tag of a detection method.
pub open spec fn detection_tag(d: DetectionMethod) -> Seq<char> {
    match d {
        DetectionMethod::Automatic { .. } => "automatic"@,
        DetectionMethod::Manual => "manual"@,
        DetectionMethod::SemiAutomatic { .. } => "semi_automatic"@,
    }
}

impl DetectionMethod {
    /// Tag of the detection method.
    pub fn tag(&self) -> (r: String)
        ensures
            r@ == detection_tag(*self),
    {
        let s = match self {
            DetectionMethod::Automatic { .. } => "automatic",
            DetectionMethod::Manual => "manual",
            DetectionMethod::SemiAutomatic { .. } => "semi_automatic",
        };
        String::from_str(s)
    }
}

/// One item of the security checklist.
pub struct ChecklistItem {
    pub id: String,
    pub category: CheckCategory,
    pub title: String,
    pub description: String,
    pub severity: Severity,
    pub detection: DetectionMethod,
    pub remediation: String,
    pub references: Vec<String>,
}

/// State of one checklist item within an audit.
#[derive(Debug, Clone, Copy, PartialEq, Eq, Structural)]
pub enum CheckStatus {
    Passed,
    Failed,
    NotApplicable,
    Pending,
}

impl Default for CheckStatus {
    fn default() -> (r: CheckStatus)
        ensures
            r == CheckStatus::Pending,
    {
        CheckStatus::Pending
    }
}

/// The state of one checklist item within one audit.
pub struct AuditCheckRow {
    pub id: u128,
    pub audit_id: u128,
    pub check_id: String,
    pub status: CheckStatus,
    pub notes: Option<String>,
    /// Whether the status was last set by pattern detection.
    pub auto_detected: bool,
    /// The pattern that detection matched.
    pub evidence: Option<String>,
    pub updated_at: i64,
}

/// One audit run over a contract.
pub struct AuditRecord {
    pub id: u128,
    pub contract_id: u128,
    /// The source text that detection ran on.
    pub contract_source: Option<String>,
    pub auditor: String,
    pub audit_date: i64,
    /// Weight of the passed checks when the audit last changed.
    pub overall_earned: u128,
    /// Weight of the applicable checks when the audit last changed; the
    /// overall score is `100 * overall_earned / overall_possible` percent,
    /// and 100 where this is zero.
    pub overall_possible: u128,
    /// The overall score for display, in hundredths of a percent, rounded down.
    pub overall_score: u64,
    pub summary: Option<String>,
    pub created_at: i64,
    pub updated_at: i64,
}

/// Request to start an audit.
pub struct CreateAuditRequest {
    pub auditor: String,
    pub source_code: Option<String>,
}

/// Request to set the state of one check.
pub struct UpdateCheckRequest {
    pub status: CheckStatus,
    pub notes: Option<String>,
}

/// A whole audit as reported: checklist metadata merged with the live state.
pub struct AuditResponse {
    pub audit: AuditRecord,
    pub checks: Vec<CheckWithStatus>,
    pub category_scores: Vec<CategoryScore>,
    pub auto_detected_count: usize,
}

/// A checklist item merged with its state in one audit.
pub struct CheckWithStatus {
    pub id: String,
    pub category: CheckCategory,
    pub title: String,
    pub description: String,
    pub severity: Severity,
    pub detection_type: String,
    pub auto_patterns: Vec<String>,
    pub remediation: String,
    pub references: Vec<String>,
    pub status: CheckStatus,
    pub notes: Option<String>,
    pub auto_detected: bool,
    pub evidence: Option<String>,
}

/// Score of one category of an audit.
#[derive(Debug, Clone, Copy, PartialEq, Eq, Structural)]
pub struct CategoryScore {
    pub category: CheckCategory,
    /// Weight of the passed checks of the category.
    pub earned: u128,
    /// Weight of the applicable checks of the category; the score is
    /// `100 * earned / possible` percent, and 100 where this is zero.
    pub possible: u128,
    /// The score for display, in hundredths of a percent, rounded down.
    pub score: u64,
    pub passed: usize,
    /// Checks of the category that are not marked not applicable.
    pub total: usize,
    pub failed_critical: usize,
    pub failed_high: usize,
}

/// Short score summary of a contract's audit.
pub struct ContractSecuritySummary {
    pub audit_id: u128,
    pub audit_date: i64,
    pub auditor: String,
    pub overall_score: u64,
    pub score_badge: String,
}

/// Options of the text export.
pub struct ExportRequest {
    pub include_descriptions: bool,
    pub failures_only: bool,
}

/// Default of `include_descriptions`.
pub fn default_true() -> (r: bool)
    ensures
        r,
{
    true
}

impl Default for ExportRequest {
    fn default() -> (r: ExportRequest)
        ensures
            r.include_descriptions,
            !r.failures_only,
    {
        ExportRequest { include_descriptions: default_true(), failures_only: false }
    }
}

} // verus!
