//! The `ToBytes` and `FromBytes` derives, which serialize a type with wincode.
use vstd::prelude::*;

verus! {

/// The input of the `ToBytes` derive.
#[derive(Debug)]
pub struct ToBytesReceiver {
    pub ident: String,
}

/// The input of the `FromBytes` derive.
#[derive(Debug)]
pub struct FromBytesReceiver {
    pub ident: String,
}

/// The `ToBytes` implementation that serializes a type with wincode.
pub open spec fn to_bytes_impl_text(ident: Seq<char>) -> Seq<char> {
    "impl ::typelock::ToBytes for "@ + ident
        + " { fn to_bytes(&self) -> ::std::result::Result<::std::vec::Vec<u8>, ::typelock::Error> { ::typelock::wincode::serialize(self).map_err(|e| ::typelock::Error::Wincode(e.to_string())) } } "@
}

/// The `FromBytes` implementation that deserializes a type with wincode.
pub open spec fn from_bytes_impl_text(ident: Seq<char>) -> Seq<char> {
    "impl ::typelock::FromBytes for "@ + ident
        + " { fn from_bytes(bytes: &[u8]) -> ::std::result::Result<Self, ::typelock::Error> { ::typelock::wincode::deserialize(bytes).map_err(|e| ::typelock::Error::Wincode(e.to_string())) } } "@
}

/// The code that the `ToBytes` derive generates.
pub fn generate_to_bytes(input: &ToBytesReceiver) -> (r: Result<String, String>)
    ensures
        r matches Ok(code) && code@ == to_bytes_impl_text(input.ident@),
{
    let mut r = "impl ::typelock::ToBytes for ".to_owned();
    r.append(input.ident.as_str());
    r.append(
        " { fn to_bytes(&self) -> ::std::result::Result<::std::vec::Vec<u8>, ::typelock::Error> { ::typelock::wincode::serialize(self).map_err(|e| ::typelock::Error::Wincode(e.to_string())) } } ",
    );
    Ok(r)
}

/// The code that the `FromBytes` derive generates.
pub fn generate_from_bytes(input: &FromBytesReceiver) -> (r: Result<String, String>)
    ensures
        r matches Ok(code) && code@ == from_bytes_impl_text(input.ident@),
{
    let mut r = "impl ::typelock::FromBytes for ".to_owned();
    r.append(input.ident.as_str());
    r.append(
        " { fn from_bytes(bytes: &[u8]) -> ::std::result::Result<Self, ::typelock::Error> { ::typelock::wincode::deserialize(bytes).map_err(|e| ::typelock::Error::Wincode(e.to_string())) } } ",
    );
    Ok(r)
}

} // verus!
