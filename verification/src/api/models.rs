//! Records of the public interface.
use vstd::prelude::*;

verus! {

/// Request to scan a repository.
pub struct CreateScanRequest {
    pub git_url: String,
    pub branch: Option<String>,
    pub git_token: Option<String>,
}

/// What a caller is told about a scan.
pub struct ScanResponse {
    pub scan_id: String,
    pub status: String,
    pub created_at: String,
    pub git_url: String,
    pub fossology_status: String,
    pub semgrep_status: String,
    pub risk_score: Option<i32>,
    pub risk_level: Option<String>,
}

/// The outcome of risk scoring: a score from 0 to 100, its level, and the
/// factors that explain it, in the order in which the signals are examined.
pub struct RiskAssessment {
    pub score: i32,
    pub level: String,
    pub factors: Vec<RiskFactor>,
}

/// One explanation of a part of the score.
pub struct RiskFactor {
    pub category: String,
    pub severity: String,
    pub description: String,
    pub affected_count: i32,
    pub details: Vec<String>,
}

/// Mathematical value of a [`RiskFactor`].
pub struct RiskFactorView {
    pub category: Seq<char>,
    pub severity: Seq<char>,
    pub description: Seq<char>,
    pub affected_count: int,
    pub details: Seq<Seq<char>>,
}

/// Mathematical value of a [`RiskAssessment`].
pub struct RiskAssessmentView {
    pub score: int,
    pub level: Seq<char>,
    pub factors: Seq<RiskFactorView>,
}

impl View for RiskFactor {
    type V = RiskFactorView;

    open spec fn view(&self) -> RiskFactorView {
        RiskFactorView {
            category: self.category@,
            severity: self.severity@,
            description: self.description@,
            affected_count: self.affected_count as int,
            details: self.details.deep_view(),
        }
    }
}

impl DeepView for RiskFactor {
    type V = RiskFactorView;

    open spec fn deep_view(&self) -> RiskFactorView {
        self@
    }
}

impl View for RiskAssessment {
    type V = RiskAssessmentView;

    open spec fn view(&self) -> RiskAssessmentView {
        RiskAssessmentView {
            score: self.score as int,
            level: self.level@,
            factors: self.factors.deep_view(),
        }
    }
}

impl DeepView for RiskAssessment {
    type V = RiskAssessmentView;

    open spec fn deep_view(&self) -> RiskAssessmentView {
        self@
    }
}

/// Request to create an API key.
pub struct CreateApiKeyRequest {
    pub name: String,
}

/// Answer to the creation of an API key; the only time the key itself is shown.
pub struct CreateApiKeyResponse {
    pub id: String,
    pub name: String,
    pub key: String,
    pub created_at: String,
    pub message: String,
}

} // verus!
