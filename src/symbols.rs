//! Names and descriptors that the generated boundary exports for an
//! interface: the symbols of its clone and free entry points, and the type
//! descriptor that binding generators read.
use vstd::prelude::*;
use vstd::string::StringSliceAdditionalSpecFns;

verus! {

/// `c` with an ASCII capital letter turned into its small letter.
pub open spec fn ascii_lower_char(c: char) -> char {
    if 'A' <= c && c <= 'Z' {
        ((c as u8) + 32u8) as char
    } else {
        c
    }
}

/// `s` with every ASCII capital letter turned into its small letter.
pub open spec fn ascii_lower(s: Seq<char>) -> Seq<char> {
    s.map_values(|c: char| ascii_lower_char(c))
}

/// The symbol of the clone entry point of interface `name` in `namespace`.
pub open spec fn clone_symbol(namespace: Seq<char>, name: Seq<char>) -> Seq<char> {
    "uniffi_"@ + namespace + "_fn_clone_"@ + ascii_lower(name)
}

/// The symbol of the free entry point of interface `name` in `namespace`.
pub open spec fn free_symbol(namespace: Seq<char>, name: Seq<char>) -> Seq<char> {
    "uniffi_"@ + namespace + "_fn_free_"@ + ascii_lower(name)
}

/// The type code that marks an interface in a type descriptor.
pub const TYPE_INTERFACE: u8 = 16;

/// The type descriptor of interface `name` declared in `mod_path`: the
/// interface code, each string as its byte length and its UTF-8 bytes, and
/// the flag that the interface may be implemented by a foreign caller.
pub open spec fn interface_type_meta(mod_path: Seq<u8>, name: Seq<u8>) -> Seq<u8> {
    seq![TYPE_INTERFACE, mod_path.len() as u8] + mod_path + seq![name.len() as u8] + name + seq![
        1u8,
    ]
}

/// Relies on `uniffi_meta::clone_fn_symbol_name`: `uniffi_`, the namespace,
/// `_fn_clone_`, and the name in ASCII lower case.
#[verifier::external_body]
pub(crate) fn clone_fn_symbol_name(namespace: &str, name: &str) -> (r: String)
    ensures
        r@ == clone_symbol(namespace@, name@),
{
    uniffi_meta::clone_fn_symbol_name(namespace, name)
}

/// Relies on `uniffi_meta::free_fn_symbol_name`: `uniffi_`, the namespace,
/// `_fn_free_`, and the name in ASCII lower case.
#[verifier::external_body]
pub(crate) fn free_fn_symbol_name(namespace: &str, name: &str) -> (r: String)
    ensures
        r@ == free_symbol(namespace@, name@),
{
    uniffi_meta::free_fn_symbol_name(namespace, name)
}

/// The byte buffer in which uniffi builds type descriptors.
#[verifier::external_type_specification]
#[verifier::external_body]
pub struct ExMetadataBuffer(uniffi::MetadataBuffer);

/// The bytes that a descriptor buffer holds so far.
pub uninterp spec fn meta_contents(b: uniffi::MetadataBuffer) -> Seq<u8>;

/// The capacity of a descriptor buffer, in bytes.
pub const META_CAPACITY: usize = 4096;

/// Relies on `uniffi::MetadataBuffer::from_code`: a buffer holding the one
/// byte `code`.
#[verifier::external_body]
fn meta_from_code(code: u8) -> (r: uniffi::MetadataBuffer)
    ensures
        meta_contents(r) == seq![code],
{
    uniffi::MetadataBuffer::from_code(code)
}

/// Relies on `uniffi::MetadataBuffer::concat_str`: it appends the byte
/// length of `s` as one byte, then the UTF-8 bytes of `s`; it panics on a
/// string of 256 bytes or more, or when the buffer would fill up.
#[verifier::external_body]
fn meta_concat_str(b: uniffi::MetadataBuffer, s: &str) -> (r: uniffi::MetadataBuffer)
    requires
        s.spec_bytes().len() < 256,
        meta_contents(b).len() + s.spec_bytes().len() < META_CAPACITY,
    ensures
        meta_contents(r) == meta_contents(b) + seq![s.spec_bytes().len() as u8]
            + s.spec_bytes(),
{
    b.concat_str(s)
}

/// Relies on `uniffi::MetadataBuffer::concat_bool`: it appends 1 for true
/// and 0 for false; it panics when the buffer is full.
#[verifier::external_body]
fn meta_concat_bool(b: uniffi::MetadataBuffer, v: bool) -> (r: uniffi::MetadataBuffer)
    requires
        meta_contents(b).len() < META_CAPACITY,
    ensures
        meta_contents(r) == meta_contents(b) + seq![if v { 1u8 } else { 0u8 }],
{
    b.concat_bool(v)
}

/// Relies on `AsRef<[u8]>` for `uniffi::MetadataBuffer`: the bytes written
/// so far.
#[verifier::external_body]
fn meta_bytes(b: &uniffi::MetadataBuffer) -> (r: Vec<u8>)
    ensures
        r@ == meta_contents(*b),
{
    AsRef::<[u8]>::as_ref(b).to_vec()
}

/// The type descriptor of interface `name` declared in `mod_path`.
pub(crate) fn interface_meta_buffer(mod_path: &str, name: &str) -> (r: Vec<u8>)
    requires
        mod_path.spec_bytes().len() < 256,
        name.spec_bytes().len() < 256,
    ensures
        r@ == interface_type_meta(mod_path.spec_bytes(), name.spec_bytes()),
{
    let b = meta_from_code(TYPE_INTERFACE);
    let b = meta_concat_str(b, mod_path);
    let b = meta_concat_str(b, name);
    let b = meta_concat_bool(b, true);
    let r = meta_bytes(&b);
    assert(r@ =~= interface_type_meta(mod_path.spec_bytes(), name.spec_bytes()));
    r
}

} // verus!
