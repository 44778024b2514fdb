//! Where the engine's resources are found: a root directory, and resource
//! names whose parts are separated by `/` on every platform.
use crate::data_uri;
use crate::text::{split_chars, split_str};
use vstd::prelude::*;
use vstd::string::StringExecFns;
use vstd::string::StringSliceAdditionalSpecFns;
use vstd::utf8::{decode_utf8, valid_utf8};

verus! {

#[verifier::external_type_specification]
#[verifier::external_body]
pub struct ExIoError(std::io::Error);

#[verifier::external_type_specification]
#[verifier::external_body]
pub struct ExFromUtf8Error(std::string::FromUtf8Error);

/// Errors of loading a resource.
#[derive(Debug)]
pub enum Error {
    /// File system error
    Io(std::io::Error),
    /// Error encoding utf8
    UTF8(std::string::FromUtf8Error),
    /// Data Uri error
    DataUri(data_uri::Error),
    /// File loaded contains null byte
    FileContainsNil,
    /// Failed to load current executable path
    FailedToGetExePath,
    /// Failed to get path's parent
    Parent,
}

/// The text of an error up to where the text of an outside error it
/// carries begins; the whole text where it carries none.
pub open spec fn error_head(e: Error) -> Seq<char> {
    match e {
        Error::Io(_) => "File system error: "@,
        Error::UTF8(_) => "Error encoding utf8: "@,
        Error::DataUri(d) => "Data Uri error: "@ + data_uri::error_head(d),
        Error::FileContainsNil => "File loaded contains null byte"@,
        Error::FailedToGetExePath => "Failed to load current executable path"@,
        Error::Parent => "Failed to get path's parent"@,
    }
}

/// The error carries no outside error, so `error_head` is its whole text.
pub open spec fn error_whole(e: Error) -> bool {
    match e {
        Error::Io(_) => false,
        Error::UTF8(_) => false,
        Error::DataUri(d) => data_uri::error_whole(d),
        _ => true,
    }
}

/// Calls `to_string` (its `Display`) on a `std::io::Error`; the text comes
/// from the system and is not stated.
#[verifier::external_body]
fn io_error_text(e: &std::io::Error) -> String {
    e.to_string()
}

/// Calls `to_string` (its `Display`) on a `std::string::FromUtf8Error`; the
/// text is std's own and is not stated.
#[verifier::external_body]
fn from_utf8_error_text(e: &std::string::FromUtf8Error) -> String {
    e.to_string()
}

impl Error {
    /// The text of the error: `error_head`, then the text of the outside
    /// error it carries, if any.
    pub fn message(&self) -> (r: String)
        ensures
            r@.len() >= error_head(*self).len(),
            r@.subrange(0, error_head(*self).len() as int) == error_head(*self),
            error_whole(*self) ==> r@ == error_head(*self),
    {
        let mut s = String::new();
        match self {
            Error::Io(e) => {
                s.append("File system error: ");
                let t = io_error_text(e);
                s.append(t.as_str());
            },
            Error::UTF8(e) => {
                s.append("Error encoding utf8: ");
                let t = from_utf8_error_text(e);
                s.append(t.as_str());
            },
            Error::DataUri(e) => {
                s.append("Data Uri error: ");
                let t = e.message();
                s.append(t.as_str());
            },
            Error::FileContainsNil => s.append("File loaded contains null byte"),
            Error::FailedToGetExePath => s.append("Failed to load current executable path"),
            Error::Parent => s.append("Failed to get path's parent"),
        }
        proof {
            assert(s@.subrange(0, error_head(*self).len() as int) =~= error_head(*self));
        }
        s
    }
}

/// A resource loader rooted at a directory, given by its path.
#[derive(Debug, Clone)]
pub struct Resources {
    root_path: String,
}

/// What `Path::join` gives for a base path and a part, both as text.
pub uninterp spec fn joined_path(base: Seq<char>, part: Seq<char>) -> Seq<char>;

/// What `Path::parent` gives for a path, as text.
pub uninterp spec fn parent_path(path: Seq<char>) -> Option<Seq<char>>;

/// The parts of `s` between the slashes, as many as there are slashes and
/// one more.
pub open spec fn slash_parts(s: Seq<char>) -> Seq<Seq<char>> {
    split_chars(s, '/')
}

/// Calls `Path::join` on the path `base` and the part `part`; the result is
/// the text of the joined path, named by `joined_path`.
#[verifier::external_body]
fn path_join(base: &str, part: &str) -> (r: String)
    ensures
        r@ == joined_path(base@, part@),
{
    std::path::Path::new(base).join(part).to_string_lossy().into_owned()
}

/// Calls `Path::parent` on the path `path`; the result is the text of the
/// parent, named by `parent_path`.
#[verifier::external_body]
fn path_parent(path: &str) -> (r: Option<String>)
    ensures
        match r {
            Some(p) => parent_path(path@) == Some(p@),
            None => parent_path(path@) is None,
        },
{
    std::path::Path::new(path).parent().map(|p| p.to_string_lossy().into_owned())
}

/// The path of a resource: the root joined with each part of the name in
/// turn.
pub open spec fn spec_join_all(root: Seq<char>, parts: Seq<Seq<char>>) -> Seq<char>
    decreases parts.len(),
{
    if parts.len() == 0 {
        root
    } else {
        joined_path(spec_join_all(root, parts.drop_last()), parts.last())
    }
}

/// The path of a resource named `location` under `root`: the name is cut
/// at each `/` and the parts joined on in order, so that names read the
/// same on every platform.
pub open spec fn spec_resource_path(root: Seq<char>, location: Seq<char>) -> Seq<char> {
    spec_join_all(root, slash_parts(location))
}

/// The path of a resource named `location` under `root`.
pub fn resource_name_to_path(root: &str, location: &str) -> (r: String)
    ensures
        r@ == spec_resource_path(root@, location@),
{
    let parts = split_str(location, '/');
    let ghost pv = parts@.map_values(|p: String| p@);
    let mut path = root.to_owned();
    let n = parts.len();
    let mut i: usize = 0;
    while i < n
        invariant
            n == parts@.len(),
            pv == parts@.map_values(|p: String| p@),
            pv == slash_parts(location@),
            i <= n,
            path@ == spec_join_all(root@, pv.take(i as int)),
        decreases n - i,
    {
        proof {
            assert(pv.take(i + 1).drop_last() =~= pv.take(i as int));
            assert(pv.take(i + 1).last() == parts@[i as int]@);
        }
        path = path_join(path.as_str(), parts[i].as_str());
        i = i + 1;
    }
    proof {
        assert(pv.take(n as int) =~= pv);
    }
    path
}

impl Resources {
    /// A loader rooted at the directory `path`.
    pub fn new(path: String) -> (r: Resources)
        ensures
            r.root()@ == path@,
    {
        Resources { root_path: path }
    }

    /// A loader rooted at the directory `path`.
    pub fn from_path(path: &str) -> (r: Resources)
        ensures
            r.root()@ == path@,
    {
        Resources { root_path: path.to_owned() }
    }

    /// The root directory.
    pub closed spec fn root(&self) -> String {
        self.root_path
    }

    /// The root directory.
    pub fn root_path(&self) -> (r: &str)
        ensures
            r@ == self.root()@,
    {
        self.root_path.as_str()
    }

    /// The path of the resource named `name`.
    pub fn resource_path(&self, name: &str) -> (r: String)
        ensures
            r@ == spec_resource_path(self.root()@, name@),
    {
        resource_name_to_path(self.root_path.as_str(), name)
    }

    /// A loader rooted at the directory of the resource named `path`, if
    /// that resource's path has a parent.
    pub fn extend_file_root(&self, path: &str) -> (r: Option<Resources>)
        ensures
            match parent_path(spec_resource_path(self.root()@, path@)) {
                Some(p) => r matches Some(x) && x.root()@ == p,
                None => r is None,
            },
    {
        let full = resource_name_to_path(self.root_path.as_str(), path);
        match path_parent(full.as_str()) {
            Some(p) => Some(Resources { root_path: p }),
            None => None,
        }
    }
}

/// The name is a `data:` URI rather than a file name.
pub open spec fn names_data_uri(name: &str) -> bool {
    name.spec_bytes().len() >= 5 && name.spec_bytes().subrange(0, 5) == data_uri::data_prefix()
}

/// `r` is what loading the data URI `name` gives: the bytes its data stands
/// for, or the error of reading its header or its data.
pub open spec fn uri_outcome(name: &str, r: Result<Vec<u8>, Error>) -> bool {
    match data_uri::spec_parse(name.spec_bytes()) {
        Err(_) => r matches Err(Error::DataUri(e)) && (e is GetHeader || e is UriParameter),
        Ok(v) => match r {
            Ok(x) => data_uri::data_outcome(v, Ok(x)),
            Err(Error::DataUri(e)) => data_uri::data_outcome(v, Err(e)),
            Err(_) => false,
        },
    }
}

/// A data URI that can be read: its data fits in memory.
pub open spec fn uri_readable(name: &str) -> bool {
    name.spec_bytes().len() <= isize::MAX
}

/// Calls `String::from_utf8`: the bytes as a string where they are valid
/// UTF-8, and an error otherwise.
#[verifier::external_body]
fn string_from_utf8(bytes: Vec<u8>) -> (r: Result<String, std::string::FromUtf8Error>)
    ensures
        r is Ok <==> valid_utf8(bytes@),
        r matches Ok(s) ==> s@ == decode_utf8(bytes@),
{
    String::from_utf8(bytes)
}

/// The bytes contain a NUL.
pub open spec fn has_nul(b: Seq<u8>) -> bool {
    b.contains(0u8)
}

/// The position of the first NUL byte, if any.
fn find_nul(b: &Vec<u8>) -> (r: Option<usize>)
    ensures
        r is None <==> !has_nul(b@),
{
    let n = b.len();
    let mut i: usize = 0;
    while i < n
        invariant
            n == b@.len(),
            i <= n,
            forall|j: int| 0 <= j < i ==> b@[j] != 0u8,
        decreases n - i,
    {
        if b[i] == 0u8 {
            proof {
                assert(b@[i as int] == 0u8);
            }
            return Some(i);
        }
        i = i + 1;
    }
    None
}

impl Resources {
    /// The data URI `name`, read.
    fn load_uri(name: &str) -> (r: Result<Vec<u8>, Error>)
        requires
            names_data_uri(name),
            uri_readable(name),
        ensures
            uri_outcome(name, r),
    {
        proof {
            data_uri::lemma_data_prefix_header(name);
        }
        match data_uri::DataURI::new(name) {
            Err(e) => Err(Error::DataUri(e)),
            Ok(uri) => {
                proof {
                    data_uri::lemma_first_from_in_range(name.spec_bytes(), 44u8, 0);
                }
                match uri.get_data() {
                    Ok(d) => Ok(d),
                    Err(e) => Err(Error::DataUri(e)),
                }
            },
        }
    }

    /// Loads the resource `name`: a data URI is read in place, any other
    /// name is the file at its resource path, which `read` reads.
    pub fn load_bytes<R>(&self, name: &str, read: R) -> (r: Result<Vec<u8>, Error>) where
        R: FnOnce(&str) -> Result<Vec<u8>, std::io::Error>,

        requires
            names_data_uri(name) ==> uri_readable(name),
            forall|p: &str| call_requires(read, (p,)),
        ensures
            names_data_uri(name) ==> uri_outcome(name, r),
            !names_data_uri(name) ==> exists|p: &str, got: Result<Vec<u8>, std::io::Error>|
                #![trigger call_ensures(read, (p,), got)]
                p@ == spec_resource_path(self.root()@, name@) && call_ensures(read, (p,), got)
                    && match got {
                    Ok(b) => r matches Ok(x) && x@ == b@,
                    Err(e) => r matches Err(Error::Io(x)) && x == e,
                },
    {
        if data_uri::DataURI::is_data_uri(name) {
            Self::load_uri(name)
        } else {
            let path = self.resource_path(name);
            match read(path.as_str()) {
                Ok(b) => Ok(b),
                Err(e) => Err(Error::Io(e)),
            }
        }
    }

    /// Loads the resource `name` as text: a data URI is read in place and
    /// must be UTF-8, any other name is the file at its resource path,
    /// which `read` reads as text.
    pub fn load_string<R>(&self, name: &str, read: R) -> (r: Result<String, Error>) where
        R: FnOnce(&str) -> Result<String, std::io::Error>,

        requires
            names_data_uri(name) ==> uri_readable(name),
            forall|p: &str| call_requires(read, (p,)),
        ensures
            names_data_uri(name) ==> exists|b: Result<Vec<u8>, Error>|
                uri_outcome(name, b) && match b {
                    Ok(d) => if valid_utf8(d@) {
                        r matches Ok(s) && s@ == decode_utf8(d@)
                    } else {
                        r matches Err(e) && e is UTF8
                    },
                    Err(e) => r matches Err(x) && x == e,
                },
            !names_data_uri(name) ==> exists|p: &str, got: Result<String, std::io::Error>|
                #![trigger call_ensures(read, (p,), got)]
                p@ == spec_resource_path(self.root()@, name@) && call_ensures(read, (p,), got)
                    && match got {
                    Ok(s) => r matches Ok(x) && x@ == s@,
                    Err(e) => r matches Err(Error::Io(x)) && x == e,
                },
    {
        if data_uri::DataURI::is_data_uri(name) {
            match Self::load_uri(name) {
                Ok(d) => match string_from_utf8(d) {
                    Ok(s) => Ok(s),
                    Err(e) => Err(Error::UTF8(e)),
                },
                Err(e) => Err(e),
            }
        } else {
            let path = self.resource_path(name);
            match read(path.as_str()) {
                Ok(s) => Ok(s),
                Err(e) => Err(Error::Io(e)),
            }
        }
    }

    /// Loads the resource `name` as the bytes of a C string: they must hold
    /// no NUL.  See `load_bytes` for how it is found.
    pub fn load_cstring<R>(&self, name: &str, read: R) -> (r: Result<Vec<u8>, Error>) where
        R: FnOnce(&str) -> Result<Vec<u8>, std::io::Error>,

        requires
            names_data_uri(name) ==> uri_readable(name),
            forall|p: &str| call_requires(read, (p,)),
        ensures
            r matches Ok(b) ==> !has_nul(b@),
            names_data_uri(name) ==> exists|b: Result<Vec<u8>, Error>|
                uri_outcome(name, b) && nul_checked(b, r),
            !names_data_uri(name) ==> exists|p: &str, got: Result<Vec<u8>, std::io::Error>|
                #![trigger call_ensures(read, (p,), got)]
                p@ == spec_resource_path(self.root()@, name@) && call_ensures(read, (p,), got)
                    && match got {
                    Ok(b) => if has_nul(b@) {
                        r matches Err(e) && e is FileContainsNil
                    } else {
                        r matches Ok(x) && x@ == b@
                    },
                    Err(e) => r matches Err(Error::Io(x)) && x == e,
                },
    {
        let bytes = self.load_bytes(name, read)?;
        match find_nul(&bytes) {
            Some(_) => Err(Error::FileContainsNil),
            None => Ok(bytes),
        }
    }
}

/// `r` is `b` with a NUL byte refused.
pub open spec fn nul_checked(b: Result<Vec<u8>, Error>, r: Result<Vec<u8>, Error>) -> bool {
    match b {
        Ok(d) => if has_nul(d@) {
            r matches Err(e) && e is FileContainsNil
        } else {
            r matches Ok(x) && x@ == d@
        },
        Err(e) => r matches Err(x) && x == e,
    }
}

} // verus!
