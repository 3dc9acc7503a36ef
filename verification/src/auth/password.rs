//! Passwords: how strong they are, and what a password check means.
//!
//! Strength is estimated with zxcvbn. Hashing and checking passwords with
//! Argon2 is done by the caller; `verification_outcome` decides on what the
//! check gave.
use vstd::prelude::*;
use vstd::string::*;
use crate::auth::error::{Error, PasswordError};

verus! {

/// The warning and the suggestions of an estimate, as text.
pub struct PasswordFeedback {
    pub warning: Option<String>,
    pub suggestions: Vec<String>,
}

/// An estimate of a password's strength: a score from 0 (weakest) up, and
/// feedback for weak passwords.
pub struct PasswordAnalysis {
    pub score: u8,
    pub feedback: Option<PasswordFeedback>,
}

/// The texts of a list of strings.
pub open spec fn texts(strings: Seq<String>) -> Seq<Seq<char>> {
    strings.map_values(|s: String| s@)
}

/// Feedback as plain values: the warning and the suggestions.
pub type FeedbackView = (Option<Seq<char>>, Seq<Seq<char>>);

/// An estimate as plain values: the score and the feedback.
pub type AnalysisView = (u8, Option<FeedbackView>);

impl View for PasswordFeedback {
    type V = FeedbackView;

    open spec fn view(&self) -> FeedbackView {
        (
            match self.warning {
                Some(w) => Some(w@),
                None => None,
            },
            texts(self.suggestions@),
        )
    }
}

impl View for PasswordAnalysis {
    type V = AnalysisView;

    open spec fn view(&self) -> AnalysisView {
        (
            self.score,
            match self.feedback {
                Some(f) => Some(f@),
                None => None,
            },
        )
    }
}

/// The score, from 0 up, that zxcvbn gives `password` with these user
/// inputs.
pub uninterp spec fn zxcvbn_score(password: Seq<char>, user_inputs: Seq<Seq<char>>) -> u8;

/// Estimates the strength of `password` with `zxcvbn::zxcvbn`, the user's
/// name and email as the user inputs, and turns the warning and suggestions
/// into their text. Claimed: an empty password is refused as blank and only
/// an empty one is; the score of an estimate is determined by the password
/// and the user inputs, and is at most 4. Otherwise the estimate, or a clock
/// error, comes back. The feedback is not named: zxcvbn walks hash maps
/// seeded per process, so among equally good matches the one whose warning
/// and suggestions come back may differ from one process to the next.
#[verifier::external_body]
fn estimate(password: &str, name: &str, email: &str) -> (analysis: Result<PasswordAnalysis, PasswordError>)
    ensures
        (analysis matches Err(e) && e is BlankPassword) == (password@.len() == 0),
        analysis matches Ok(a) ==> a.score == zxcvbn_score(password@, seq![name@, email@]) && a.score <= 4,
{
    match zxcvbn::zxcvbn(password, &[name, email]) {
        Ok(entropy) => Ok(PasswordAnalysis {
            score: entropy.score(),
            feedback: entropy.feedback().as_ref().map(|f| PasswordFeedback {
                warning: f.warning().map(|w| w.to_string()),
                suggestions: f.suggestions().iter().map(|s| s.to_string()).collect(),
            }),
        }),
        Err(zxcvbn::ZxcvbnError::BlankPassword) => Err(PasswordError::BlankPassword),
        Err(zxcvbn::ZxcvbnError::DurationOutOfRange) => Err(PasswordError::DurationOutOfRange),
    }
}

/// Why a password is too weak: a fixed message, the estimate's warning, and
/// its suggestions.
#[derive(Clone, Debug, PartialEq, Eq)]
pub struct PasswordIssues {
    pub message: String,
    pub warning: Option<String>,
    pub suggestions: Vec<String>,
}

/// Issues as plain values.
pub type IssuesView = (Seq<char>, Option<Seq<char>>, Seq<Seq<char>>);

impl View for PasswordIssues {
    type V = IssuesView;

    open spec fn view(&self) -> IssuesView {
        (
            self.message@,
            match self.warning {
                Some(w) => Some(w@),
                None => None,
            },
            texts(self.suggestions@),
        )
    }
}

/// The message of every weak-password report.
pub const WEAK_PASSWORD_MESSAGE: &'static str = "Password is not strong enough";

/// The report for a weak password with this feedback: the warning and the
/// suggestions where there is feedback, none otherwise.
pub open spec fn weak_issues(feedback: Option<FeedbackView>) -> IssuesView {
    match feedback {
        Some(f) => (WEAK_PASSWORD_MESSAGE@, f.0, f.1),
        None => (WEAK_PASSWORD_MESSAGE@, None, Seq::empty()),
    }
}

/// How strong a password is.
#[derive(Clone, Debug, PartialEq, Eq)]
pub enum Strength {
    Strong,
    Moderate,
    Weak(PasswordIssues),
}

/// `strength` is what an estimate calls for: a score of 2 or less is weak,
/// reported with the estimate's feedback; 3 is moderate; more is strong.
pub open spec fn strength_fits(analysis: AnalysisView, strength: Strength) -> bool {
    if analysis.0 <= 2 {
        strength matches Strength::Weak(issues) && issues@ == weak_issues(analysis.1)
    } else if analysis.0 == 3 {
        strength is Moderate
    } else {
        strength is Strong
    }
}

/// The text of a strength.
pub open spec fn strength_text(strength: Strength) -> Seq<char> {
    match strength {
        Strength::Strong => "Password strength is strong"@,
        Strength::Moderate => "Password strength is moderate"@,
        Strength::Weak(_) => "Password strength is weak"@,
    }
}

impl Strength {
    /// The text of the strength.
    pub fn to_string(&self) -> (text: String)
        ensures
            text@ == strength_text(*self),
    {
        String::from_str(
            match self {
                Strength::Strong => "Password strength is strong",
                Strength::Moderate => "Password strength is moderate",
                Strength::Weak(_) => "Password strength is weak",
            },
        )
    }
}

/// The strength that an estimate calls for.
pub fn strength_from_analysis(analysis: PasswordAnalysis) -> (strength: Strength)
    ensures
        strength_fits(analysis@, strength),
{
    let ghost view = analysis@;
    if analysis.score <= 2 {
        let issues = match analysis.feedback {
            Some(feedback) => PasswordIssues {
                message: String::from_str(WEAK_PASSWORD_MESSAGE),
                warning: feedback.warning,
                suggestions: feedback.suggestions,
            },
            None => PasswordIssues {
                message: String::from_str(WEAK_PASSWORD_MESSAGE),
                warning: None,
                suggestions: Vec::new(),
            },
        };
        proof {
            assert(issues@ =~= weak_issues(view.1));
        }
        Strength::Weak(issues)
    } else if analysis.score == 3 {
        Strength::Moderate
    } else {
        Strength::Strong
    }
}

/// What estimating `password` with these user inputs can give: an error
/// exactly blank for an empty password (otherwise a clock error), or, for a
/// password that is not empty, the strength that zxcvbn's score calls for,
/// weak with the feedback of some estimate.
pub open spec fn estimated_strength(
    password: Seq<char>,
    user_inputs: Seq<Seq<char>>,
    strength: Result<Strength, Error>,
) -> bool {
    match strength {
        Ok(s) => password.len() > 0 && exists|a: AnalysisView|
            a.0 == zxcvbn_score(password, user_inputs) && a.0 <= 4 && #[trigger] strength_fits(a, s),
        Err(e) => e matches Error::PasswordError(p) && (p is BlankPassword <==> password.len() == 0),
    }
}

/// How strong `password` is, the user's name and email taken into account:
/// the strength that zxcvbn's estimate calls for (see
/// `strength_from_analysis`): weak for a score of 2 or less, moderate for 3,
/// strong above. An empty password cannot be estimated.
pub fn strength(name: &str, email: &str, password: &str) -> (strength: Result<Strength, Error>)
    ensures
        estimated_strength(password@, seq![name@, email@], strength),
        strength matches Ok(s) ==> ({
            let score = zxcvbn_score(password@, seq![name@, email@]);
            &&& (s is Weak) <==> score <= 2
            &&& (s is Moderate) <==> score == 3
            &&& (s is Strong) <==> score >= 4
        }),
{
    match estimate(password, name, email) {
        Ok(analysis) => {
            let ghost view = analysis@;
            let s = strength_from_analysis(analysis);
            assert(view.0 == zxcvbn_score(password@, seq![name@, email@]) && view.0 <= 4 && strength_fits(view, s));
            Ok(s)
        },
        Err(e) => Err(Error::PasswordError(e)),
    }
}

/// Why a password check failed: the stored hash could not be decoded, or
/// another failure, with its description.
#[derive(Clone, Debug, PartialEq, Eq)]
pub enum VerifyFailure {
    HashDecode,
    Other(String),
}

/// What a password check means: its answer where it gave one; `false` for a
/// hash that cannot be decoded; an internal error, with the description,
/// for any other failure.
pub open spec fn verification_result(verified: Result<bool, VerifyFailure>) -> Result<bool, Error> {
    match verified {
        Ok(matches) => Ok(matches),
        Err(VerifyFailure::HashDecode) => Ok(false),
        Err(VerifyFailure::Other(description)) => Err(Error::InternalServerError(description)),
    }
}

/// Decides on what checking a password against a hash gave.
pub fn verification_outcome(verified: Result<bool, VerifyFailure>) -> (outcome: Result<bool, Error>)
    ensures
        outcome == verification_result(verified),
{
    match verified {
        Ok(matches) => Ok(matches),
        Err(VerifyFailure::HashDecode) => Ok(false),
        Err(VerifyFailure::Other(description)) => Err(Error::InternalServerError(description)),
    }
}

} // verus!
