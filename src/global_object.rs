//! The descriptor built for every object that the registry announces.
use vstd::prelude::*;
use crate::object_type::{names_type, ObjectType, RegistryError};
use crate::permission::{valid_bits, Permission};

verus! {

/// One object announced by the registry, as it was announced. It is never
/// changed afterwards: a later removal of the same id leaves it as it is.
#[derive(Debug, Clone)]
pub struct GlobalObject {
    /// The object's id, unique among the objects the registry holds.
    pub id: u32,
    /// What this client may do with the object.
    pub permissions: Permission,
    /// The object's interface kind.
    pub type_: ObjectType,
    /// The protocol version the remote side reports for the object.
    pub version: u32,
    /// The object's properties, key and value, when the remote side sent any.
    pub props: Option<Vec<(String, String)>>,
}

/// `o` describes the announcement of object `id` with the permission mask
/// `permissions`, the interface name `type_`, `version` and `props`.
pub open spec fn describes(
    o: GlobalObject,
    id: u32,
    permissions: u32,
    type_: Seq<char>,
    version: u32,
    props: Option<Vec<(String, String)>>,
) -> bool {
    &&& o.id == id
    &&& o.permissions@ == permissions
    &&& names_type(type_, o.type_)
    &&& o.version == version
    &&& o.props == props
}

impl GlobalObject {
    /// Builds the descriptor of an announced object; `InvalidPermissions`
    /// when the permission mask has a bit outside the four flags.
    pub fn new(
        id: u32,
        permissions: u32,
        type_: &str,
        version: u32,
        props: Option<Vec<(String, String)>>,
    ) -> (r: Result<GlobalObject, RegistryError>)
        ensures
            r is Ok <==> valid_bits(permissions),
            r matches Ok(o) ==> describes(o, id, permissions, type_@, version, props),
            r matches Err(e) ==> e == RegistryError::InvalidPermissions,
    {
        let permissions = match Permission::from_bits(permissions) {
            Some(p) => p,
            None => return Err(RegistryError::InvalidPermissions),
        };
        let type_ = ObjectType::from_str(type_);
        Ok(GlobalObject { id, permissions, type_, version, props })
    }
}

} // verus!
