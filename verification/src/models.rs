//! Models

pub mod item;
pub mod vault;

use vstd::prelude::*;
use vstd::string::*;
use crate::models::item::{
    clone_opt_string, clone_opt_strings, clone_opt_urls, clone_sections, login_password_field,
    login_username_field, FieldObjectView, SectionID, SectionObject,
    SectionObjectView, UrlObject, UrlObjectView, VaultID, VaultIDView,
};
use crate::text::dec_rep;
use crate::text::u16_to_string;

verus! {

/// This is a wrapper to assist carrying a status code as text.
pub struct StatusWrapper {
    /// The status code of a failed call.
    pub status: u16,
}

impl StatusWrapper {
    /// The status code written out in decimal.
    pub fn to_text(&self) -> (s: String)
        ensures
            s@ == dec_rep(self.status as nat),
    {
        u16_to_string(self.status)
    }
}

/// A field of an item under construction; the same shape the service
/// receives as a field object.
pub struct ItemField {
    /// An object containing the UUID of a section in the item.
    pub section: Option<SectionID>,
    /// Use `purpose` for the username, password, and notes fields.
    pub purpose: Option<String>,
    /// Use `field_type` for all other fields.
    pub field_type: Option<String>,
    /// The value to save for the field.
    pub value: Option<String>,
    /// Generate a password and save it in the value for the field.
    pub generate: Option<bool>,
    /// Some optional text.
    pub label: Option<String>,
}

impl DeepView for ItemField {
    type V = FieldObjectView;

    open spec fn deep_view(&self) -> FieldObjectView {
        FieldObjectView {
            section: self.section.deep_view(),
            purpose: self.purpose.deep_view(),
            field_type: self.field_type.deep_view(),
            value: self.value.deep_view(),
            generate: self.generate,
            label: self.label.deep_view(),
        }
    }
}

/// A section of an item under construction.
pub struct ItemSection {}

/// An assembled item with an optional title, as the login builder yields it.
pub struct FullItem {
    /// The title of the item.
    pub title: Option<String>,
    /// An object containing an id property whose value is the UUID of the vault the item is in.
    pub vault: VaultID,
    /// The category of the item.
    pub category: Option<String>,
    /// Vector of URL objects containing URLs for the item.
    pub urls: Option<Vec<UrlObject>>,
    /// Whether the item is marked as a favourite.
    pub favorite: bool,
    /// A vector of strings of the tags assigned to the item.
    pub tags: Option<Vec<String>>,
    /// A vector of Field objects of the fields to include with the item.
    pub fields: Vec<ItemField>,
    /// A vector of Section objects of the sections to include with the item.
    pub sections: Vec<SectionObject>,
}

/// The mathematical content of an assembled item with an optional title.
pub ghost struct FullItemView {
    /// The title of the item.
    pub title: Option<Seq<char>>,
    /// The UUID of the vault the item is in.
    pub vault: VaultIDView,
    /// The category of the item.
    pub category: Option<Seq<char>>,
    /// The URLs of the item.
    pub urls: Option<Seq<UrlObjectView>>,
    /// Whether the item is marked as a favourite.
    pub favorite: bool,
    /// The tags assigned to the item.
    pub tags: Option<Seq<Seq<char>>>,
    /// The fields to include with the item.
    pub fields: Seq<FieldObjectView>,
    /// The sections to include with the item.
    pub sections: Seq<SectionObjectView>,
}

impl DeepView for FullItem {
    type V = FullItemView;

    open spec fn deep_view(&self) -> FullItemView {
        FullItemView {
            title: self.title.deep_view(),
            vault: self.vault.deep_view(),
            category: self.category.deep_view(),
            urls: self.urls.deep_view(),
            favorite: self.favorite,
            tags: self.tags.deep_view(),
            fields: self.fields.deep_view(),
            sections: self.sections.deep_view(),
        }
    }
}

/// An interface for assembling a login item's credential fields.
pub trait LoginItem: Sized {
    /// The item the builder has accumulated so far.
    spec fn state(&self) -> FullItemView;

    /// Specify the username.
    fn username(self, username: &str) -> (r: Self)
        ensures
            r.state() == (FullItemView {
                fields: self.state().fields.push(login_username_field(username@)),
                ..self.state()
            }),
    ;

    /// Specify the password; an empty one is generated by the service.
    fn password(self, password: &str) -> (r: Self)
        ensures
            r.state() == (FullItemView {
                fields: self.state().fields.push(login_password_field(password@)),
                ..self.state()
            }),
    ;
}

/// A builder for login items, started from the vault the item will live in.
pub struct LoginItemBuilder {
    /// The title of the item.
    pub title: Option<String>,
    /// An object containing an id property whose value is the UUID of the vault the item is in.
    pub vault: VaultID,
    /// The category of the item.
    pub category: Option<String>,
    /// Vector of URL objects containing URLs for the item.
    pub urls: Option<Vec<UrlObject>>,
    /// Whether the item is marked as a favourite.
    pub favorite: bool,
    /// A vector of strings of the tags assigned to the item.
    pub tags: Option<Vec<String>>,
    /// A vector of Field objects of the fields to include with the item.
    pub fields: Vec<ItemField>,
    /// A vector of Section objects of the sections to include with the item.
    pub sections: Vec<SectionObject>,
}

impl LoginItemBuilder {
    /// The item the builder has accumulated so far.
    pub open spec fn spec_state(&self) -> FullItemView {
        FullItemView {
            title: self.title.deep_view(),
            vault: self.vault.deep_view(),
            category: self.category.deep_view(),
            urls: self.urls.deep_view(),
            favorite: self.favorite,
            tags: self.tags.deep_view(),
            fields: self.fields.deep_view(),
            sections: self.sections.deep_view(),
        }
    }

    /// Create a new instance for the given vault.
    pub fn new(vault_id: &str) -> (r: Self)
        ensures
            r.spec_state() == (FullItemView {
                title: None,
                vault: VaultIDView { id: vault_id@ },
                category: Some("LOGIN"@),
                urls: None,
                favorite: false,
                tags: None,
                fields: Seq::<FieldObjectView>::empty(),
                sections: Seq::<SectionObjectView>::empty(),
            }),
    {
        let vault = VaultID { id: vault_id.to_owned() };
        let r = Self {
            vault,
            title: None,
            category: Some(String::from_str("LOGIN")),
            favorite: false,
            urls: None,
            tags: None,
            fields: Vec::new(),
            sections: Vec::new(),
        };
        proof {
            assert(r.fields.deep_view() =~= Seq::<FieldObjectView>::empty());
            assert(r.sections.deep_view() =~= Seq::<SectionObjectView>::empty());
        }
        r
    }

    /// Assemble the item as it stands.
    pub fn build(&self) -> (r: FullItem)
        ensures
            r.deep_view() == self.spec_state(),
    {
        FullItem {
            category: clone_opt_string(&self.category),
            favorite: self.favorite,
            fields: clone_item_fields(&self.fields),
            sections: clone_sections(&self.sections),
            tags: clone_opt_strings(&self.tags),
            title: clone_opt_string(&self.title),
            urls: clone_opt_urls(&self.urls),
            vault: VaultID { id: self.vault.id.clone() },
        }
    }
}

fn clone_item_fields(v: &Vec<ItemField>) -> (r: Vec<ItemField>)
    ensures
        r.deep_view() == v.deep_view(),
{
    let mut r: Vec<ItemField> = Vec::new();
    let mut i: usize = 0;
    while i < v.len()
        invariant
            i <= v@.len(),
            r.deep_view() == v.deep_view().take(i as int),
        decreases v@.len() - i,
    {
        let f = ItemField {
            section: match &v[i].section {
                Some(s) => Some(SectionID { id: s.id.clone() }),
                None => None,
            },
            purpose: clone_opt_string(&v[i].purpose),
            field_type: clone_opt_string(&v[i].field_type),
            value: clone_opt_string(&v[i].value),
            generate: v[i].generate,
            label: clone_opt_string(&v[i].label),
        };
        let ghost fv = f.deep_view();
        let ghost prev = r.deep_view();
        r.push(f);
        proof {
            assert(fv == v@[i as int].deep_view());
            assert(r.deep_view() =~= prev.push(fv));
            assert(r.deep_view() =~= v.deep_view().take(i + 1 as int));
        }
        i += 1;
    }
    proof {
        assert(v.deep_view().take(v@.len() as int) =~= v.deep_view());
    }
    r
}

impl LoginItem for LoginItemBuilder {
    open spec fn state(&self) -> FullItemView {
        self.spec_state()
    }

    fn username(self, username: &str) -> (r: Self) {
        let mut r = self;
        let field = ItemField {
            value: Some(username.to_owned()),
            purpose: Some(String::from_str("USERNAME")),
            generate: None,
            label: None,
            field_type: None,
            section: None,
        };
        let ghost fv = field.deep_view();
        let ghost prev = r.fields.deep_view();
        r.fields.push(field);
        proof {
            assert(r.fields.deep_view() =~= prev.push(fv));
        }
        r
    }

    fn password(self, password: &str) -> (r: Self) {
        let mut r = self;
        let empty = password.unicode_len() == 0;
        let field = ItemField {
            value: if empty {
                None
            } else {
                Some(password.to_owned())
            },
            purpose: Some(String::from_str("PASSWORD")),
            generate: if empty {
                Some(true)
            } else {
                None
            },
            label: None,
            field_type: None,
            section: None,
        };
        let ghost fv = field.deep_view();
        let ghost prev = r.fields.deep_view();
        r.fields.push(field);
        proof {
            assert(r.fields.deep_view() =~= prev.push(fv));
        }
        r
    }
}

} // verus!
