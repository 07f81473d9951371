use vstd::prelude::*;

verus! {

/// What a store operation can fail with.
#[derive(Debug)]
pub enum ConfigError {
    /// The configuration directory could not be created.
    DirectoryError(String),
    /// A prompt that the operation needs is not in the collection.
    NotFound(String),
    /// The collection file is malformed, or the request breaks a rule of the
    /// collection (deleting the default prompt).
    DeserializeError(String),
    /// Reading or writing a file failed.
    FileError(String),
}

pub open spec fn not_found_message(id: Seq<char>) -> Seq<char> {
    "System prompt with ID "@ + id + " not found"@
}

pub open spec fn delete_default_message() -> Seq<char> {
    "Cannot delete the default system prompt. Set another prompt as default first."@
}

/// `e` is the not-found error for `id`.
pub open spec fn is_not_found(e: ConfigError, id: Seq<char>) -> bool {
    e matches ConfigError::NotFound(m) && m@ == not_found_message(id)
}

/// `e` is the error that refuses to delete the default prompt.
pub open spec fn is_delete_default(e: ConfigError) -> bool {
    e matches ConfigError::DeserializeError(m) && m@ == delete_default_message()
}

pub fn not_found(id: &str) -> (r: ConfigError)
    ensures
        is_not_found(r, id@),
{
    let m = String::from_str("System prompt with ID ").concat(id).concat(" not found");
    ConfigError::NotFound(m)
}

pub fn delete_default_refused() -> (r: ConfigError)
    ensures
        is_delete_default(r),
{
    ConfigError::DeserializeError(
        String::from_str("Cannot delete the default system prompt. Set another prompt as default first."),
    )
}

/// The HTTP status that reports `e`: 404 for a missing prompt, 400 for the
/// refused deletion of the default prompt, 500 for anything else.
pub open spec fn status_of(e: ConfigError) -> u16 {
    if e is NotFound {
        404
    } else if is_delete_default(e) {
        400
    } else {
        500
    }
}

impl ConfigError {
    /// The HTTP status code that reports this error.
    pub fn status_code(&self) -> (r: u16)
        ensures
            r == status_of(*self),
    {
        match self {
            ConfigError::NotFound(_) => 404,
            ConfigError::DeserializeError(m) => {
                let refused = delete_default_refused();
                match refused {
                    ConfigError::DeserializeError(expected) => {
                        if *m == expected {
                            400
                        } else {
                            500
                        }
                    },
                    _ => 500,
                }
            },
            _ => 500,
        }
    }
}

} // verus!
