//! The request layer's value shapes and its response texts. Parsing and
//! serialising them, and the HTTP surface itself, live outside the
//! library; the texts a response carries are built here, exactly.

use vstd::prelude::*;

verus! {

/// The body of a set request: the value to store.
pub struct ValueRequest {
    pub value: String,
}

/// The body of a response that only reports what happened.
pub struct SuccessResponse {
    pub message: String,
}

/// The body of a response that carries a value out.
pub struct ValueResponse {
    pub value: String,
}

/// The message confirming a set.
pub fn set_success_message(key: &str) -> (m: String)
    ensures
        m@ == "Value for key '"@ + key@ + "' set successfully."@,
{
    let mut m = "Value for key '".to_owned();
    m.append(key);
    m.append("' set successfully.");
    proof {
        assert(m@ =~= "Value for key '"@ + key@ + "' set successfully."@);
    }
    m
}

/// The message confirming a delete.
pub fn delete_success_message(key: &str) -> (m: String)
    ensures
        m@ == "Key '"@ + key@ + "' deleted successfully."@,
{
    let mut m = "Key '".to_owned();
    m.append(key);
    m.append("' deleted successfully.");
    proof {
        assert(m@ =~= "Key '"@ + key@ + "' deleted successfully."@);
    }
    m
}

/// The message for a get whose key is absent.
pub fn not_found_message(key: &str) -> (m: String)
    ensures
        m@ == "Key '"@ + key@ + "' not found"@,
{
    let mut m = "Key '".to_owned();
    m.append(key);
    m.append("' not found");
    proof {
        assert(m@ =~= "Key '"@ + key@ + "' not found"@);
    }
    m
}

/// The message for a delete whose key was never there.
pub fn did_not_exist_message(key: &str) -> (m: String)
    ensures
        m@ == "Key '"@ + key@ + "' did not exist"@,
{
    let mut m = "Key '".to_owned();
    m.append(key);
    m.append("' did not exist");
    proof {
        assert(m@ =~= "Key '"@ + key@ + "' did not exist"@);
    }
    m
}

} // verus!
