use vstd::prelude::*;
use vstd::string::StringExecFns;
use vstd::string::StringSliceAdditionalSpecFns;

verus! {

/// Checks a login attempt: the username must not be empty, and the
/// password must be at least eight bytes long. The first failed check
/// names the fault; otherwise the attempt is accepted.
pub fn validate_login(username: &str, password: &str) -> (r: Result<(), String>)
    ensures
        username@.len() == 0 ==> (r matches Err(m) && m@ == "Username is empty"@),
        username@.len() > 0 && password.spec_bytes().len() < 8 ==> (r matches Err(m) && m@
            == "Password is too short"@),
        username@.len() > 0 && password.spec_bytes().len() >= 8 ==> r is Ok,
{
    if username.is_empty() {
        return Err(String::from_str("Username is empty"));
    }
    if password.as_bytes().len() < 8 {
        return Err(String::from_str("Password is too short"));
    }
    Ok(())
}

} // verus!
