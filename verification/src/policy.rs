//! The sensitivity policy: the single gate that decides whether the detail of
//! an error may be exposed in the running deployment.

use crate::app_error::AppError;
use vstd::prelude::*;

verus! {

/// What the policy knows of a deployment: the tier the code runs on and the
/// kind of build it comes from.
#[derive(Clone, Copy, Debug, PartialEq, Eq, Structural)]
pub struct Deployment {
    /// The code runs on the trusted, server tier.
    pub server_side: bool,
    /// The code comes from a development build.
    pub development: bool,
}

/// Detail may be shown on the server tier and in every development build,
/// and nowhere else.
pub open spec fn shows_sensitive(deployment: Deployment) -> bool {
    deployment.server_side || deployment.development
}

/// What crosses the boundary in the place of `detail`: `detail` itself where
/// the policy allows it, the opaque [`AppError::Hidden`] where it does not.
pub open spec fn collapsed(detail: AppError, deployment: Deployment) -> AppError {
    if shows_sensitive(deployment) {
        detail
    } else {
        AppError::Hidden
    }
}

impl AppError {
    /// Whether the detail of an error may be shown in `deployment`.
    pub fn should_show_sensitive_errors(deployment: Deployment) -> (r: bool)
        ensures
            r == shows_sensitive(deployment),
    {
        deployment.server_side || deployment.development
    }
}

/// A failure that never shows its detail cannot be told from any other: in
/// a deployment where the policy withholds detail, two failures collapse to
/// the same value, whatever they are.
pub proof fn lemma_hidden_failures_are_indistinguishable(
    first: AppError,
    second: AppError,
    deployment: Deployment,
)
    requires
        !shows_sensitive(deployment),
    ensures
        collapsed(first, deployment) == collapsed(second, deployment),
        collapsed(first, deployment) == AppError::Hidden,
{
}

/// Where the policy allows detail, collapsing changes nothing.
pub proof fn lemma_shown_failures_are_preserved(detail: AppError, deployment: Deployment)
    requires
        shows_sensitive(deployment),
    ensures
        collapsed(detail, deployment) == detail,
{
}

} // verus!
