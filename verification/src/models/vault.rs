//! The vault record returned by the service.

use vstd::prelude::*;

verus! {

/// Defines a Vault object.
pub struct VaultData {
    /// The UUID of the vault.
    pub id: String,
    /// The name of the vault.
    pub name: String,
    /// The description of the vault.
    pub description: Option<String>,
    /// The version of the vault metadata.
    pub attribute_version: u32,
    /// The version of the vault contents.
    pub content_version: u32,
    /// The type of vault.
    pub vault_type: String,
    /// Date and time when the vault was created, as the service's timestamp text.
    pub created_at: Option<String>,
    /// Date and time when the vault or its contents were last changed, as text.
    pub updated_at: Option<String>,
}

/// The mathematical content of a vault record.
pub ghost struct VaultDataView {
    /// The UUID of the vault.
    pub id: Seq<char>,
    /// The name of the vault.
    pub name: Seq<char>,
    /// The description of the vault.
    pub description: Option<Seq<char>>,
    /// The version of the vault metadata.
    pub attribute_version: u32,
    /// The version of the vault contents.
    pub content_version: u32,
    /// The type of vault.
    pub vault_type: Seq<char>,
    /// When the vault was created, as timestamp text.
    pub created_at: Option<Seq<char>>,
    /// When the vault last changed, as timestamp text.
    pub updated_at: Option<Seq<char>>,
}

impl DeepView for VaultData {
    type V = VaultDataView;

    open spec fn deep_view(&self) -> VaultDataView {
        VaultDataView {
            id: self.id@,
            name: self.name@,
            description: self.description.deep_view(),
            attribute_version: self.attribute_version,
            content_version: self.content_version,
            vault_type: self.vault_type@,
            created_at: self.created_at.deep_view(),
            updated_at: self.updated_at.deep_view(),
        }
    }
}

} // verus!
