//! The sprint tools: the identifiers and issue keys they are called with.
use crate::error::JiraError;
use crate::tools::missing_parameter;
use vstd::prelude::*;

verus! {

/// An integer argument that must fit an `i32`: missing, too large, or its
/// value.
pub open spec fn i32_arg_ok(value: Option<i64>, name: Seq<char>, too_large: Seq<char>, r: Result<i32, JiraError>) -> bool {
    match value {
        None => r matches Err(JiraError::ApiError { message, error_codes: None }) && message@
            == "Missing required parameter: "@ + name,
        Some(v) => if i32::MIN <= v <= i32::MAX {
            r matches Ok(x) && x == v
        } else {
            r matches Err(JiraError::ApiError { message, error_codes: None }) && message@ == too_large
        },
    }
}

fn i32_arg(value: Option<i64>, name: &str, too_large: &str) -> (r: Result<i32, JiraError>)
    ensures
        i32_arg_ok(value, name@, too_large@, r),
{
    match value {
        None => Err(missing_parameter(name)),
        Some(v) => {
            if v < -2147483648i64 || v > 2147483647i64 {
                Err(JiraError::api_error(too_large))
            } else {
                Ok(v as i32)
            }
        },
    }
}

/// The sprint a sprint tool is called for.
pub fn sprint_id_arg(sprint_id: Option<i64>) -> (r: Result<i32, JiraError>)
    ensures
        i32_arg_ok(sprint_id, "sprint_id"@, "Sprint ID too large for i32"@, r),
{
    i32_arg(sprint_id, "sprint_id", "Sprint ID too large for i32")
}

/// The board a board tool is called for.
pub fn rapid_view_id_arg(rapid_view_id: Option<i64>) -> (r: Result<i32, JiraError>)
    ensures
        i32_arg_ok(rapid_view_id, "rapid_view_id"@, "Rapid view ID too large for i32"@, r),
{
    i32_arg(rapid_view_id, "rapid_view_id", "Rapid view ID too large for i32")
}

/// The issue keys to add to a sprint: the string entries of the `issues`
/// argument, which must be given and hold at least one.
pub fn sprint_issue_keys(issues: Option<Vec<String>>) -> (r: Result<Vec<String>, JiraError>)
    ensures
        match issues {
            None => r matches Err(JiraError::ApiError { message, error_codes: None }) && message@
                == "Missing required parameter: issues"@,
            Some(keys) => if keys@.len() == 0 {
                r matches Err(JiraError::ApiError { message, error_codes: None }) && message@
                    == "No valid issue keys provided"@
            } else {
                r matches Ok(k) && k@ == keys@
            },
        },
{
    match issues {
        None => {
            proof {
                reveal_strlit("issues");
                reveal_strlit("Missing required parameter: ");
                reveal_strlit("Missing required parameter: issues");
                assert("Missing required parameter: "@ + "issues"@ =~= "Missing required parameter: issues"@);
            }
            Err(missing_parameter("issues"))
        },
        Some(keys) => {
            if keys.len() == 0 {
                Err(JiraError::api_error("No valid issue keys provided"))
            } else {
                Ok(keys)
            }
        },
    }
}

} // verus!
