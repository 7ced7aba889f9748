//! Validated value types of the directory: identifiers, display names,
//! avatars, and the uniform success marker.

use vstd::prelude::*;

verus! {

/// Unicode lowercasing of a character sequence, left abstract: the result
/// depends on the input characters alone.
pub uninterp spec fn lower_of(s: Seq<char>) -> Seq<char>;

/// Relies on `str::to_lowercase` from std: returns the Unicode lowercase
/// mapping of the input, a function of the input characters alone.
#[verifier::external_body]
fn to_lowercase_str(s: &str) -> (r: String)
    ensures
        r@ == lower_of(s@),
{
    s.to_lowercase()
}

/// Canonical identifier of a directory user.  The handle is case-normalized
/// once, at construction; two identifiers built from strings with the same
/// lowercase form are equal.
#[derive(Debug)]
pub struct UserId {
    pub name: String,
}

impl View for UserId {
    type V = Seq<char>;

    open spec fn view(&self) -> Seq<char> {
        self.name@
    }
}

impl UserId {
    pub fn new(name: &str) -> (r: Self)
        ensures
            r@ == lower_of(name@),
    {
        UserId { name: to_lowercase_str(name) }
    }

    pub fn as_str(&self) -> (r: &str)
        ensures
            r@ == self@,
    {
        self.name.as_str()
    }
}

impl Clone for UserId {
    fn clone(&self) -> (r: Self)
        ensures
            r@ == self@,
    {
        UserId { name: self.name.clone() }
    }
}

impl PartialEq for UserId {
    fn eq(&self, other: &Self) -> bool {
        self.name == other.name
    }
}

impl vstd::std_specs::cmp::PartialEqSpecImpl for UserId {
    open spec fn obeys_eq_spec() -> bool {
        true
    }

    open spec fn eq_spec(&self, other: &Self) -> bool {
        self@ == other@
    }
}

/// Canonical identifier of a group.  The value `1` is reserved for the
/// bootstrap administrators group and is permanently protected.
#[derive(Clone, Copy, PartialEq, Eq, Structural, Debug)]
pub struct GroupId(pub i32);

impl View for GroupId {
    type V = int;

    open spec fn view(&self) -> int {
        self.0 as int
    }
}

/// The reserved identifier of the bootstrap administrators group.
pub const ADMIN_GROUP_ID: i32 = 1;

/// True of the one group whose name and membership-as-entity no capability
/// may alter.
pub open spec fn spec_is_protected_group(id: int) -> bool {
    id == ADMIN_GROUP_ID as int
}

/// Protected-invariant rule: is this the permanently protected bootstrap
/// group?
pub fn is_protected_group(id: GroupId) -> (r: bool)
    ensures
        r == spec_is_protected_group(id@),
{
    id.0 == ADMIN_GROUP_ID
}

/// Human-readable label of a user or group; carries no uniqueness or
/// normalization requirement.
#[derive(Debug)]
pub struct DisplayName {
    pub name: String,
}

impl View for DisplayName {
    type V = Seq<char>;

    open spec fn view(&self) -> Seq<char> {
        self.name@
    }
}

impl DisplayName {
    pub fn new(name: &str) -> (r: Self)
        ensures
            r@ == name@,
    {
        DisplayName { name: name.to_owned() }
    }

    pub fn as_str(&self) -> (r: &str)
        ensures
            r@ == self@,
    {
        self.name.as_str()
    }
}

impl Clone for DisplayName {
    fn clone(&self) -> (r: Self)
        ensures
            r@ == self@,
    {
        DisplayName { name: self.name.clone() }
    }
}

/// Well-formedness of an avatar payload: it must carry the JPEG
/// start-of-image marker up front and the end-of-image marker at the end.
pub open spec fn is_jpeg(data: Seq<u8>) -> bool {
    &&& data.len() >= 4
    &&& data[0] == 0xffu8
    &&& data[1] == 0xd8u8
    &&& data[data.len() - 2] == 0xffu8
    &&& data[data.len() - 1] == 0xd9u8
}

/// A user avatar: a binary blob validated at construction, never stored
/// invalid.
#[derive(Debug)]
pub struct JpegPhoto {
    pub data: Vec<u8>,
}

impl View for JpegPhoto {
    type V = Seq<u8>;

    open spec fn view(&self) -> Seq<u8> {
        self.data@
    }
}

impl JpegPhoto {
    pub open spec fn wf(&self) -> bool {
        is_jpeg(self@)
    }

    /// Accepts the bytes exactly when they form a well-formed avatar
    /// payload; the accepted photo holds the input bytes unchanged.
    pub fn from_bytes(data: Vec<u8>) -> (r: Option<JpegPhoto>)
        ensures
            match r {
                Some(p) => is_jpeg(data@) && p@ == data@ && p.wf(),
                None => !is_jpeg(data@),
            },
    {
        let n = data.len();
        if n >= 4 && data[0] == 0xffu8 && data[1] == 0xd8u8 && data[n - 2] == 0xffu8 && data[n
            - 1] == 0xd9u8 {
            Some(JpegPhoto { data })
        } else {
            None
        }
    }

    pub fn bytes(&self) -> (r: &Vec<u8>)
        ensures
            r@ == self@,
    {
        &self.data
    }
}

/// The character sequence carried by an optional string.
pub open spec fn opt_str_view(o: Option<String>) -> Option<Seq<char>> {
    match o {
        Some(s) => Some(s@),
        None => None,
    }
}

/// The label carried by an optional display name.
pub open spec fn opt_name_view(o: Option<DisplayName>) -> Option<Seq<char>> {
    match o {
        Some(n) => Some(n@),
        None => None,
    }
}

/// The bytes carried by an optional avatar.
pub open spec fn opt_photo_view(o: Option<JpegPhoto>) -> Option<Seq<u8>> {
    match o {
        Some(p) => Some(p@),
        None => None,
    }
}

/// Uniform acknowledgment for commands with no richer return value; only
/// constructed on success paths.
#[derive(Clone, Copy, PartialEq, Eq, Structural, Debug)]
pub struct Success {
    pub ok: bool,
}

impl Success {
    pub fn new() -> (r: Self)
        ensures
            r.ok,
    {
        Success { ok: true }
    }
}

} // verus!
