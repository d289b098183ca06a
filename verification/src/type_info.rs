//! Type information for grammars.

use vstd::prelude::*;

use uuid::Uuid;

verus! {

/// The `Uuid` of the `uuid` crate, used as an opaque identifier.
#[verifier::external_type_specification]
#[verifier::external_body]
pub struct ExUuid(Uuid);

/// Type information.
#[derive(Clone, Debug)]
pub struct Type {
    /// A key uniquely identifying this concrete type at compile time.
    pub type_id: TypeId,
}

/// Unique identifier.
#[derive(Copy, Clone, Debug, Hash, PartialEq, Eq, PartialOrd, Ord)]
pub struct TypeId {
    /// A uuid generated when the type information was generated.
    pub id: Uuid,
}

/// Type information available statically.
pub trait StaticTypeInfo {
    /// The type information, as a constant.
    const TYPE: Type;
}

/// Type information available via a trait object.
pub trait DynamicTypeInfo {
    /// The type information of this value's type.
    fn get_type(&self) -> Type;
}

/// What `syn` makes of `input` as the declaration of a type being derived: the type's name, or
/// `None` where `input` does not parse as one.
pub uninterp spec fn derive_ident_name(input: Seq<char>) -> Option<Seq<char>>;

/// Whether `id`, read as a UUID, is a random one: version 4, RFC 4122 variant.
pub open spec fn is_random_uuid(id: u128) -> bool {
    &&& (id >> 76u128) & 0xfu128 == 4u128
    &&& (id >> 62u128) & 0x3u128 == 2u128
}

/// Calls `syn::parse_str::<syn::DeriveInput>`, and gives the name of the declared type. The result
/// is a function of `input` alone.
#[verifier::external_body]
fn parse_derive_ident(input: &str) -> (r: Option<String>)
    ensures
        match r {
            Some(name) => derive_ident_name(input@) == Some(name@),
            None => derive_ident_name(input@) is None,
        },
{
    match syn::parse_str::<syn::DeriveInput>(input) {
        Ok(declaration) => Some(declaration.ident.to_string()),
        Err(_) => None,
    }
}

/// Calls `Uuid::new_v4` and gives the UUID as a number. The number is random; what holds of every
/// outcome is that `new_v4` sets the version bits to 4 and the variant bits to RFC 4122.
#[verifier::external_body]
fn draw_type_id() -> (id: u128)
    ensures
        is_random_uuid(id),
{
    Uuid::new_v4().as_u128()
}

/// Work out the type information to generate for the type declared in `input`: the type's name
/// and a fresh random identifier, which both the static and the dynamic type information carry.
/// `None` where `input` does not declare a type.
pub fn derive_type_info(input: &str) -> (r: Option<(String, u128)>)
    ensures
        r is None <==> derive_ident_name(input@) is None,
        r matches Some((name, id)) ==> derive_ident_name(input@) == Some(name@) && is_random_uuid(
            id,
        ),
{
    match parse_derive_ident(input) {
        Some(name) => {
            let id = draw_type_id();
            Some((name, id))
        },
        None => None,
    }
}

} // verus!
