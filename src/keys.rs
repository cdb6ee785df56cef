use vstd::prelude::*;
use vstd::string::StringSliceAdditionalSpecFns;
use vstd::utf8::encode_utf8;

verus! {

/// A caller-chosen identity that turns into the bytes a record is stored under.
///
/// `serialize` is deterministic: a key always gives the same bytes.
pub trait Key {
    /// The bytes of this key.
    spec fn key_bytes(&self) -> Seq<u8>;

    fn serialize(&self) -> (r: &[u8])
        ensures
            r@ == self.key_bytes(),
    ;
}

/// The empty key, for collections that hold a single record.
impl Key for () {
    open spec fn key_bytes(&self) -> Seq<u8> {
        Seq::empty()
    }

    fn serialize(&self) -> (r: &[u8]) {
        &[]
    }
}

/// A verbatim text key: the UTF-8 bytes of the text.
impl Key for str {
    open spec fn key_bytes(&self) -> Seq<u8> {
        self.spec_bytes()
    }

    fn serialize(&self) -> (r: &[u8]) {
        self.as_bytes()
    }
}

/// A verbatim text key held by value.
impl Key for String {
    open spec fn key_bytes(&self) -> Seq<u8> {
        encode_utf8(self@)
    }

    fn serialize(&self) -> (r: &[u8]) {
        self.as_str().as_bytes()
    }
}

/// What `str::to_lowercase` makes of a text.
pub uninterp spec fn lower_of(s: Seq<char>) -> Seq<char>;

/// Relies on `str::to_lowercase`: the lower-case form depends on the text alone,
/// and the empty text stays empty.
#[verifier::external_body]
fn lowercase(s: &str) -> (r: String)
    ensures
        r@ == lower_of(s@),
        s@.len() == 0 ==> r@.len() == 0,
{
    s.to_lowercase()
}

/// The bytes under which a case-insensitive key made from `s` is stored.
pub open spec fn case_insensitive_key_bytes(s: Seq<char>) -> Seq<u8> {
    encode_utf8(lower_of(s))
}

/// A text key that ignores case: it keeps the lower-case form of the text, so
/// texts that differ only in case name the same record.
pub struct CaseInsensitiveString(String);

impl View for CaseInsensitiveString {
    type V = Seq<char>;

    closed spec fn view(&self) -> Seq<char> {
        self.0@
    }
}

impl CaseInsensitiveString {
    pub fn new(s: &str) -> (r: CaseInsensitiveString)
        ensures
            r@ == lower_of(s@),
            r.key_bytes() == case_insensitive_key_bytes(s@),
    {
        CaseInsensitiveString(lowercase(s))
    }

    /// The stored, lower-case text.
    pub fn as_str(&self) -> (r: &str)
        ensures
            r@ == self@,
    {
        self.0.as_str()
    }
}

impl<'a> From<&'a str> for CaseInsensitiveString {
    fn from(s: &'a str) -> (r: CaseInsensitiveString)
        ensures
            r@ == lower_of(s@),
            r.key_bytes() == case_insensitive_key_bytes(s@),
    {
        CaseInsensitiveString::new(s)
    }
}

impl<'a> vstd::std_specs::convert::FromSpecImpl<&'a str> for CaseInsensitiveString {
    open spec fn obeys_from_spec() -> bool {
        false
    }

    open spec fn from_spec(s: &'a str) -> CaseInsensitiveString {
        arbitrary()
    }
}

impl Key for CaseInsensitiveString {
    open spec fn key_bytes(&self) -> Seq<u8> {
        encode_utf8(self@)
    }

    fn serialize(&self) -> (r: &[u8]) {
        self.0.as_str().as_bytes()
    }
}

/// Texts with the same lower-case form give case-insensitive keys with the same
/// bytes, so a record stored under one is read under the other.
pub proof fn lemma_case_insensitive_identity(a: Seq<char>, b: Seq<char>)
    requires
        lower_of(a) == lower_of(b),
    ensures
        case_insensitive_key_bytes(a) == case_insensitive_key_bytes(b),
{
}

} // verus!
