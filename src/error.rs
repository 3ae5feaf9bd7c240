use crate::text::{contains_seq, contains_text};
use vstd::prelude::*;

verus! {

#[verifier::external_type_specification]
#[verifier::external_body]
pub struct ExGitError(git2::Error);

// git2's error class and code are declared with their variants visible, so
// that conflict classification can match on them.
#[verifier::external_type_specification]
pub struct ExErrorClass(git2::ErrorClass);

#[verifier::external_type_specification]
pub struct ExErrorCode(git2::ErrorCode);

/// Relies on git2's `Error::class`: the category libgit2 recorded for the error.
pub assume_specification[ git2::Error::class ](e: &git2::Error) -> git2::ErrorClass;

/// Relies on git2's `Error::code`: the code libgit2 recorded for the error.
pub assume_specification[ git2::Error::code ](e: &git2::Error) -> git2::ErrorCode;

/// Relies on git2's `Error::message`: the text libgit2 recorded for the error.
pub assume_specification[ git2::Error::message ](e: &git2::Error) -> &str;

/// Full Unicode lower-casing of a character sequence.
pub uninterp spec fn lower_of(s: Seq<char>) -> Seq<char>;

/// Relies on `str::to_lowercase`: the lower-cased text depends on the input alone.
#[verifier::external_body]
fn lowercase(s: &str) -> (r: String)
    ensures
        r@ == lower_of(s@),
{
    s.to_lowercase()
}

/// Guidance given in place of the engine's text when a rebase conflicts.
pub open spec fn conflict_guidance() -> Seq<char> {
    "There was a conflict during this squish, please retry using git rebase -i and resolve the conflicts"@
}

fn conflict_guidance_text() -> (r: String)
    ensures
        r@ == conflict_guidance(),
{
    String::from_str(
        "There was a conflict during this squish, please retry using git rebase -i and resolve the conflicts",
    )
}

/// What can go wrong while squashing a branch.
#[derive(Debug)]
pub enum SquishError {
    /// A failure reported by the repository engine; rebase conflicts carry
    /// resolution guidance in place of the engine's text.
    Git { message: String },
    /// A condition detected by this library itself.
    Other { message: String },
}

impl SquishError {
    /// The human-readable message carried by either kind.
    pub fn to_string(&self) -> (r: String)
        ensures
            r@ == self.message_view(),
    {
        match self {
            SquishError::Git { message } => message.clone(),
            SquishError::Other { message } => message.clone(),
        }
    }

    /// The message either kind carries.
    pub open spec fn message_view(&self) -> Seq<char> {
        match self {
            SquishError::Git { message } => message@,
            SquishError::Other { message } => message@,
        }
    }
}

/// The engine's structured class and code mark a merge or checkout conflict,
/// or an unmerged index.
pub open spec fn code_signals_conflict(class: git2::ErrorClass, code: git2::ErrorCode) -> bool {
    ||| class == git2::ErrorClass::Merge && code == git2::ErrorCode::Conflict
    ||| class == git2::ErrorClass::Merge && code == git2::ErrorCode::MergeConflict
    ||| class == git2::ErrorClass::Index && code == git2::ErrorCode::Unmerged
    ||| class == git2::ErrorClass::Checkout && code == git2::ErrorCode::Conflict
}

/// Lower-cased engine text that mentions "conflict", or both "merge" and "failed".
pub open spec fn text_signals_conflict(lowered: Seq<char>) -> bool {
    contains_seq(lowered, "conflict"@) || (contains_seq(lowered, "merge"@) && contains_seq(
        lowered,
        "failed"@,
    ))
}

/// The message a `Git` failure carries, given the engine's class, code, text,
/// and that text lower-cased.
pub open spec fn git_failure_text(
    class: git2::ErrorClass,
    code: git2::ErrorCode,
    message: Seq<char>,
    lowered: Seq<char>,
) -> Seq<char> {
    if code_signals_conflict(class, code) || text_signals_conflict(lowered) {
        conflict_guidance()
    } else {
        message
    }
}

/// Whether lower-cased engine text points at a conflict.
pub fn mentions_conflict(lowered: &str) -> (r: bool)
    ensures
        r == text_signals_conflict(lowered@),
{
    contains_text(lowered, "conflict") || (contains_text(lowered, "merge") && contains_text(
        lowered,
        "failed",
    ))
}

/// Whether the engine's structured class and code point at a conflict.
pub fn is_conflict_code(class: git2::ErrorClass, code: git2::ErrorCode) -> (r: bool)
    ensures
        r == code_signals_conflict(class, code),
{
    match (class, code) {
        (git2::ErrorClass::Merge, git2::ErrorCode::Conflict) => true,
        (git2::ErrorClass::Merge, git2::ErrorCode::MergeConflict) => true,
        (git2::ErrorClass::Index, git2::ErrorCode::Unmerged) => true,
        (git2::ErrorClass::Checkout, git2::ErrorCode::Conflict) => true,
        _ => false,
    }
}

/// The `Git` failure for an engine error, given its class, code, text and
/// that text lower-cased.
pub fn classify_lowered(
    class: git2::ErrorClass,
    code: git2::ErrorCode,
    message: &str,
    lowered: &str,
) -> (r: SquishError)
    ensures
        r matches SquishError::Git { message: m } && m@ == git_failure_text(
            class,
            code,
            message@,
            lowered@,
        ),
{
    let conflict = is_conflict_code(class, code) || mentions_conflict(lowered);
    if conflict {
        SquishError::Git { message: conflict_guidance_text() }
    } else {
        SquishError::Git { message: String::from_str(message) }
    }
}

/// The `Git` failure for an engine error with the given class, code and text:
/// conflicts are recognised by class and code, or by the lower-cased text.
pub fn classify_git_failure(class: git2::ErrorClass, code: git2::ErrorCode, message: &str) -> (r:
    SquishError)
    ensures
        r matches SquishError::Git { message: m } && m@ == git_failure_text(
            class,
            code,
            message@,
            lower_of(message@),
        ),
{
    let lowered = lowercase(message);
    classify_lowered(class, code, message, lowered.as_str())
}

/// The failure that an error reported by git2 becomes.
pub fn from_git_error(e: &git2::Error) -> (r: SquishError)
    ensures
        r is Git,
{
    classify_git_failure(e.class(), e.code(), e.message())
}

/// An engine result with its error turned into a `Git` failure.
pub fn engine_result<T>(r: Result<T, git2::Error>) -> (out: Result<T, SquishError>)
    ensures
        r is Ok <==> out is Ok,
        r matches Ok(v) ==> out == Ok::<T, SquishError>(v),
        out matches Err(e) ==> e is Git,
{
    match r {
        Ok(v) => Ok(v),
        Err(e) => Err(from_git_error(&e)),
    }
}

impl From<git2::Error> for SquishError {
    fn from(e: git2::Error) -> Self {
        from_git_error(&e)
    }
}

impl vstd::std_specs::convert::FromSpecImpl<git2::Error> for SquishError {
    /// What a git2 error becomes rests on its class, code and text, which the
    /// error does not expose to specifications; `from_git_error` states the
    /// rest.
    open spec fn obeys_from_spec() -> bool {
        false
    }

    open spec fn from_spec(e: git2::Error) -> SquishError {
        vstd::pervasive::arbitrary()
    }
}

} // verus!
