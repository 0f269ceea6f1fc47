use vstd::prelude::*;

verus! {

/// Defines which contract version a method call was meant for.
///
/// This helps dealing with smart contracts updates, especially when using
/// global contract code that will only gradually update shard by shard.
#[derive(Clone, Copy, Debug)]
pub struct MethodVersion {
    /// revision of the contract standard
    pub standard: u32,
    /// revision of the specific implementation
    pub contract: u32,
}

/// The versions that this initial implementation handles: only `(0, 0)`.
pub open spec fn version_supported(version: MethodVersion) -> bool {
    version.standard == 0 && version.contract == 0
}

/// The initial version, `(0, 0)`.
pub open spec fn version_zero() -> MethodVersion {
    MethodVersion { standard: 0, contract: 0 }
}

impl MethodVersion {
    /// The initial version, `(0, 0)`.
    pub fn v0() -> (v: Self)
        ensures
            v == version_zero(),
    {
        MethodVersion { standard: 0, contract: 0 }
    }

    /// Accepts the versions this implementation handles and refuses the rest
    /// with `UnsupportedVersion`.
    pub fn assert_v0(&self) -> (r: Result<(), crate::error::TokenError>)
        ensures
            r is Ok <==> version_supported(*self),
            r is Err ==> r == Err::<(), crate::error::TokenError>(crate::error::TokenError::UnsupportedVersion),
    {
        match (self.standard, self.contract) {
            // Initial version
            (0, 0) => Ok(()),
            // New versions may handle old and new versions but the initial
            // version can only handle (0,0).
            _ => Err(crate::error::TokenError::UnsupportedVersion),
        }
    }
}

} // verus!
