//! Resource-path resolution and resource-text validation.
//!
//! Shader sources and image bytes are located relative to one root path.
//! Reading files and finding the executable's directory are I/O and live
//! with the caller; what lives here is the path arithmetic and the check
//! that loaded text can travel to the driver as a C string.

use vstd::prelude::*;

verus! {

/// Why a resource could not be loaded.
#[derive(Debug)]
pub enum Error {
    /// The underlying read failed; carries the I/O error's message.
    IO(String),
    /// The loaded bytes contain a zero byte and cannot form a C string.
    FileContainsNil,
    /// The executable's own path could not be determined.
    FailedToGetExePath,
}

impl Error {
    /// The text [`Error::message`] returns: the failure named, with the
    /// carried cause where the variant has one.
    pub open spec fn spec_message(self) -> Seq<char> {
        match self {
            Error::IO(m) => "failed to read the resource: "@ + m@,
            Error::FileContainsNil => "the resource contains a zero byte"@,
            Error::FailedToGetExePath => "failed to get the executable path"@,
        }
    }

    /// A human-readable description of the failure.
    pub fn message(&self) -> (r: String)
        ensures
            r@ == self.spec_message(),
            r@.len() > 0,
    {
        proof {
            reveal_strlit("failed to read the resource: ");
            reveal_strlit("the resource contains a zero byte");
            reveal_strlit("failed to get the executable path");
        }
        match self {
            Error::IO(m) => "failed to read the resource: ".to_owned().concat(m.as_str()),
            Error::FileContainsNil => "the resource contains a zero byte".to_owned(),
            Error::FailedToGetExePath => "failed to get the executable path".to_owned(),
        }
    }
}

/// Locates resources by name under one root path.
pub struct Resources {
    root_path: String,
}

impl Resources {
    /// Creates a resolver rooted at the given path.
    pub fn from_root(root_path: String) -> (r: Resources)
        ensures
            r.root() == root_path@,
    {
        Resources { root_path }
    }

    /// The root path resources are resolved under.
    pub closed spec fn root(self) -> Seq<char> {
        self.root_path@
    }

    /// Returns the root path resources are resolved under.
    pub fn get_root_path(&self) -> (r: &String)
        ensures
            r@ == self.root(),
    {
        &self.root_path
    }
}

/// Resolves a resource name to a path under the root directory: the
/// name's segments, already separated by slashes, are appended to the
/// root behind one more slash.
pub fn resource_name_to_path(root_dir: &str, location: &str) -> (r: String)
    ensures
        r@ == root_dir@ + "/"@ + location@,
{
    root_dir.to_owned().concat("/").concat(location)
}

/// Accepts loaded resource bytes as the content of a C string: they must
/// not contain a zero byte.  On success the bytes come back unchanged.
pub fn cstring_bytes(bytes: Vec<u8>) -> (r: Result<Vec<u8>, Error>)
    ensures
        (forall|i: int| 0 <= i < bytes@.len() ==> bytes@[i] != 0) <==> r is Ok,
        r matches Ok(v) ==> v == bytes,
        r matches Err(e) ==> e is FileContainsNil,
{
    let n = bytes.len();
    let mut i: usize = 0;
    while i < n
        invariant
            n == bytes@.len(),
            i <= n,
            forall|k: int| 0 <= k < i ==> bytes@[k] != 0,
        decreases n - i,
    {
        if bytes[i] == 0 {
            return Err(Error::FileContainsNil);
        }
        i += 1;
    }
    Ok(bytes)
}

} // verus!
