//! Item records, the field and section objects they carry, the builders
//! that assemble a new item, and the serializer that writes an item as the
//! JSON body of a create call.

use vstd::prelude::*;
use vstd::string::*;
use crate::error::{Error, Kind};
use crate::text::{lemma_join_push, push_char, spec_join};

verus! {

/// Defines an Item Object.
pub struct ItemData {
    /// The UUID of the item.
    pub id: String,
    /// The title of the item.
    pub title: String,
    /// An object containing an id property whose value is the UUID of the vault the item is in.
    pub vault: VaultID,
    /// The category of the item.
    pub category: Option<String>,
    /// Vector of URL objects containing URLs for the item.
    pub urls: Option<Vec<UrlObject>>,
    /// Whether the item is marked as a favourite.
    pub favorite: Option<bool>,
    /// A vector of strings of the tags assigned to the item.
    pub tags: Option<Vec<String>>,
    /// The state of the item.
    pub state: Option<String>,
    /// Date and time when the vault was created, as the service's timestamp text.
    pub created_at: Option<String>,
    /// Date and time when the vault or its contents were last changed, as text.
    pub updated_at: Option<String>,
}

/// The mathematical content of an item record.
pub ghost struct ItemDataView {
    /// The UUID of the item.
    pub id: Seq<char>,
    /// The title of the item.
    pub title: Seq<char>,
    /// The UUID of the vault the item is in.
    pub vault: VaultIDView,
    /// The category of the item.
    pub category: Option<Seq<char>>,
    /// The URLs of the item.
    pub urls: Option<Seq<UrlObjectView>>,
    /// Whether the item is marked as a favourite.
    pub favorite: Option<bool>,
    /// The tags assigned to the item.
    pub tags: Option<Seq<Seq<char>>>,
    /// The state of the item.
    pub state: Option<Seq<char>>,
    /// When the item was created, as timestamp text.
    pub created_at: Option<Seq<char>>,
    /// When the item last changed, as timestamp text.
    pub updated_at: Option<Seq<char>>,
}

impl DeepView for ItemData {
    type V = ItemDataView;

    open spec fn deep_view(&self) -> ItemDataView {
        ItemDataView {
            id: self.id@,
            title: self.title@,
            vault: self.vault.deep_view(),
            category: self.category.deep_view(),
            urls: self.urls.deep_view(),
            favorite: self.favorite,
            tags: self.tags.deep_view(),
            state: self.state.deep_view(),
            created_at: self.created_at.deep_view(),
            updated_at: self.updated_at.deep_view(),
        }
    }
}

/// Defines the Vault UUID via a record struct.
#[derive(Clone)]
pub struct VaultID {
    /// The UUID of the vault.
    pub id: String,
}

/// The content of a vault reference.
pub ghost struct VaultIDView {
    /// The UUID of the vault.
    pub id: Seq<char>,
}

impl DeepView for VaultID {
    type V = VaultIDView;

    open spec fn deep_view(&self) -> VaultIDView {
        VaultIDView { id: self.id@ }
    }
}

/// Defines a URL Object.
#[derive(Clone)]
pub struct UrlObject {
    /// The address.
    pub url: String,
    /// Whether this is the primary URL for the item.
    pub primary: bool,
}

/// The content of a URL object.
pub ghost struct UrlObjectView {
    /// The address.
    pub url: Seq<char>,
    /// Whether this is the primary URL for the item.
    pub primary: bool,
}

impl DeepView for UrlObject {
    type V = UrlObjectView;

    open spec fn deep_view(&self) -> UrlObjectView {
        UrlObjectView { url: self.url@, primary: self.primary }
    }
}

/// This is a Field Object.
#[derive(Clone)]
pub struct FieldObject {
    /// An object containing the UUID of a section in the item.
    pub section: Option<SectionID>,
    /// Use `purpose` for the username, password, and notes fields.
    pub purpose: Option<String>,
    /// Use `field_type` for all other fields.
    pub field_type: Option<String>,
    /// The value to save for the field. A `generate` field can stand in for
    /// `value` to have the service create a random value.
    pub value: Option<String>,
    /// Generate a password and save it in the value for the field.
    pub generate: Option<bool>,
    /// Some optional text.
    pub label: Option<String>,
}

/// The content of a field object.
pub ghost struct FieldObjectView {
    /// The UUID of the section the field sits in.
    pub section: Option<SectionIDView>,
    /// The purpose of the field.
    pub purpose: Option<Seq<char>>,
    /// The type of the field.
    pub field_type: Option<Seq<char>>,
    /// The value to save for the field.
    pub value: Option<Seq<char>>,
    /// Whether the service should generate the value.
    pub generate: Option<bool>,
    /// Some optional text.
    pub label: Option<Seq<char>>,
}

impl DeepView for FieldObject {
    type V = FieldObjectView;

    open spec fn deep_view(&self) -> FieldObjectView {
        FieldObjectView {
            section: self.section.deep_view(),
            purpose: self.purpose.deep_view(),
            field_type: self.field_type.deep_view(),
            value: self.value.deep_view(),
            generate: self.generate,
            label: self.label.deep_view(),
        }
    }
}

/// Used to specify the type of a Field Object.
pub enum FieldType {
    /// Item value will be concealed.
    Concealed,
}

impl FieldType {
    /// What `value` returns for each field type.
    pub open spec fn spec_value(self) -> Seq<char> {
        match self {
            FieldType::Concealed => "CONCEALED"@,
        }
    }

    /// The field type's name on the wire.
    pub fn value(&self) -> (s: String)
        ensures
            s@ == self.spec_value(),
    {
        match self {
            FieldType::Concealed => String::from_str("CONCEALED"),
        }
    }
}

/// This is a Section Object.
#[derive(Clone)]
pub struct SectionObject {
    /// The UUID of the section.
    pub id: String,
    /// Some optional text.
    pub label: Option<String>,
}

/// The content of a section object.
pub ghost struct SectionObjectView {
    /// The UUID of the section.
    pub id: Seq<char>,
    /// Some optional text.
    pub label: Option<Seq<char>>,
}

impl DeepView for SectionObject {
    type V = SectionObjectView;

    open spec fn deep_view(&self) -> SectionObjectView {
        SectionObjectView { id: self.id@, label: self.label.deep_view() }
    }
}

impl SectionObject {
    /// Create a new instance.
    pub fn new(id: &str, label: &str) -> (r: Self)
        ensures
            r.id@ == id@,
            r.label.deep_view() == Some(label@),
    {
        Self { id: id.to_owned(), label: Some(label.to_owned()) }
    }
}

/// This is a SectionID.
#[derive(Clone)]
pub struct SectionID {
    /// The UUID of the section.
    pub id: String,
}

/// The content of a section reference.
pub ghost struct SectionIDView {
    /// The UUID of the section.
    pub id: Seq<char>,
}

impl DeepView for SectionID {
    type V = SectionIDView;

    open spec fn deep_view(&self) -> SectionIDView {
        SectionIDView { id: self.id@ }
    }
}

/// Relies on uuid::Uuid::new_v4 and its hyphenated text form: the result is
/// random, and always 36 characters long.
#[verifier::external_body]
pub(crate) fn new_uuid_string() -> (r: String)
    ensures
        r@.len() == 36,
{
    uuid::Uuid::new_v4().to_string()
}

impl SectionID {
    /// Create a new instance with a fresh random UUID.
    pub fn new() -> (r: Self)
        ensures
            r.id@.len() == 36,
    {
        Self { id: new_uuid_string() }
    }
}

/// This is a FullItem: everything a create call sends to the service.
pub struct FullItem {
    /// The title of the item.
    pub title: String,
    /// An object containing an id property whose value is the UUID of the vault the item is in.
    pub vault: VaultID,
    /// The category of the item.
    pub category: Option<String>,
    /// Vector of URL objects containing URLs for the item.
    pub urls: Option<Vec<UrlObject>>,
    /// Whether the item is marked as a favourite.
    pub favorite: Option<bool>,
    /// A vector of strings of the tags assigned to the item.
    pub tags: Option<Vec<String>>,
    /// A vector of Field objects of the fields to include with the item.
    pub fields: Vec<FieldObject>,
    /// A vector of Section objects of the sections to include with the item.
    pub sections: Vec<SectionObject>,
}

/// The mathematical content of a full item.
pub ghost struct FullItemView {
    /// The title of the item.
    pub title: Seq<char>,
    /// The UUID of the vault the item is in.
    pub vault: VaultIDView,
    /// The category of the item.
    pub category: Option<Seq<char>>,
    /// The URLs of the item.
    pub urls: Option<Seq<UrlObjectView>>,
    /// Whether the item is marked as a favourite.
    pub favorite: Option<bool>,
    /// The tags assigned to the item.
    pub tags: Option<Seq<Seq<char>>>,
    /// The fields to include with the item.
    pub fields: Seq<FieldObjectView>,
    /// The sections to include with the item.
    pub sections: Seq<SectionObjectView>,
}

impl DeepView for FullItem {
    type V = FullItemView;

    open spec fn deep_view(&self) -> FullItemView {
        FullItemView {
            title: self.title@,
            vault: self.vault.deep_view(),
            category: self.category.deep_view(),
            urls: self.urls.deep_view(),
            favorite: self.favorite,
            tags: self.tags.deep_view(),
            fields: self.fields.deep_view(),
            sections: self.sections.deep_view(),
        }
    }
}

/// Defines a default interface: a builder that always yields its item.
pub trait DefaultItem {
    /// The item the builder has accumulated so far.
    spec fn state(&self) -> FullItemView;

    /// Execute the builder.
    fn build(&self) -> (r: Result<FullItem, Error>)
        ensures
            r is Ok,
            r->Ok_0.deep_view() == self.state(),
    ;
}

/// The field a login builder adds for a username.
pub open spec fn login_username_field(u: Seq<char>) -> FieldObjectView {
    FieldObjectView {
        section: None,
        purpose: Some("USERNAME"@),
        field_type: None,
        value: Some(u),
        generate: None,
        label: None,
    }
}

/// The field a login builder adds for a password: an empty password asks
/// the service to generate one.
pub open spec fn login_password_field(p: Seq<char>) -> FieldObjectView {
    FieldObjectView {
        section: None,
        purpose: Some("PASSWORD"@),
        field_type: None,
        value: if p.len() == 0 {
            None
        } else {
            Some(p)
        },
        generate: if p.len() == 0 {
            Some(true)
        } else {
            None
        },
        label: None,
    }
}

/// Defines an interface for a Login item: a builder that collects a title
/// and credential fields, and refuses to build without a title.
pub trait LoginItem: Sized {
    /// The item the builder has accumulated so far.
    spec fn state(&self) -> FullItemView;

    /// Specify the title.
    fn title(self, title: &str) -> (r: Self)
        ensures
            r.state() == (FullItemView { title: title@, ..self.state() }),
    ;

    /// Specify the username.
    fn username(self, username: &str) -> (r: Self)
        ensures
            r.state() == (FullItemView {
                fields: self.state().fields.push(login_username_field(username@)),
                ..self.state()
            }),
    ;

    /// Specify the password; an empty one is generated by the service.
    fn password(self, password: &str) -> (r: Self)
        ensures
            r.state() == (FullItemView {
                fields: self.state().fields.push(login_password_field(password@)),
                ..self.state()
            }),
    ;

    /// Execute the builder; a login item must have a title.
    fn build(&self) -> (r: Result<FullItem, Error>)
        ensures
            match r {
                Ok(item) => self.state().title.len() > 0 && item.deep_view() == self.state(),
                Err(e) => self.state().title.len() == 0 && e.kind is InternalError
                    && e.cause is Some,
            },
    ;
}

/// The concealed key field an API-credential builder adds, under the
/// section with the given identifier; an empty key is generated.
pub open spec fn api_key_field(section_id: Seq<char>, key: Seq<char>) -> FieldObjectView {
    FieldObjectView {
        section: Some(SectionIDView { id: section_id }),
        purpose: None,
        field_type: Some("CONCEALED"@),
        value: Some(key),
        generate: Some(key.len() == 0),
        label: None,
    }
}

/// Defines an interface for an Api Credential item.
pub trait ApiCredentialItem: Sized {
    /// The item the builder has accumulated so far.
    spec fn state(&self) -> FullItemView;

    /// Specify the API key and the item's title; the key lands in a fresh
    /// section of its own.
    fn api_key(self, key: &str, title: &str) -> (r: Self)
        ensures
            exists|sid: Seq<char>|
                #![auto]
                sid.len() == 36 && r.state() == (FullItemView {
                    title: title@,
                    fields: self.state().fields.push(api_key_field(sid, key@)),
                    sections: self.state().sections.push(
                        SectionObjectView { id: sid, label: Some("API Key"@) },
                    ),
                    ..self.state()
                }),
    ;

    /// Execute the builder.
    fn build(&self) -> (r: Result<FullItem, Error>)
        ensures
            r is Ok,
            r->Ok_0.deep_view() == self.state(),
    ;
}

/// Describes usable Item categories.
pub enum ItemCategory {
    /// API Credential
    ApiCredential,
    /// Login
    Login,
    /// Password
    Password,
}

impl ItemCategory {
    /// The category a builder starts from when none is chosen.
    pub fn default() -> (r: Self)
        ensures
            r is ApiCredential,
    {
        Self::ApiCredential
    }

    /// What `value` returns for each category.
    pub open spec fn spec_value(self) -> Seq<char> {
        match self {
            ItemCategory::ApiCredential => "API_CREDENTIAL"@,
            ItemCategory::Login => "LOGIN"@,
            ItemCategory::Password => "PASSWORD"@,
        }
    }

    /// The category's name on the wire.
    pub fn value(&self) -> (s: String)
        ensures
            s@ == self.spec_value(),
    {
        match self {
            ItemCategory::ApiCredential => String::from_str("API_CREDENTIAL"),
            ItemCategory::Login => String::from_str("LOGIN"),
            ItemCategory::Password => String::from_str("PASSWORD"),
        }
    }
}

/// This is an ItemBuilder: it accumulates the parts of a new item and
/// yields the full item to send.
pub struct ItemBuilder {
    /// The title of the item.
    pub title: String,
    /// An object containing an id property whose value is the UUID of the vault the item is in.
    pub vault: VaultID,
    /// The category of the item.
    pub category: Option<String>,
    /// Vector of URL objects containing URLs for the item.
    pub urls: Option<Vec<UrlObject>>,
    /// Whether the item is marked as a favourite.
    pub favorite: Option<bool>,
    /// A vector of strings of the tags assigned to the item.
    pub tags: Option<Vec<String>>,
    /// A vector of Field objects of the fields to include with the item.
    pub fields: Vec<FieldObject>,
    /// A vector of Section objects of the sections to include with the item.
    pub sections: Vec<SectionObject>,
}

impl ItemBuilder {
    /// The item the builder has accumulated so far.
    pub open spec fn spec_state(&self) -> FullItemView {
        FullItemView {
            title: self.title@,
            vault: self.vault.deep_view(),
            category: self.category.deep_view(),
            urls: self.urls.deep_view(),
            favorite: self.favorite,
            tags: self.tags.deep_view(),
            fields: self.fields.deep_view(),
            sections: self.sections.deep_view(),
        }
    }

    /// Create a new instance for the given vault and category.
    pub fn new(vault_id: &str, category: ItemCategory) -> (r: Self)
        ensures
            r.spec_state() == (FullItemView {
                title: Seq::<char>::empty(),
                vault: VaultIDView { id: vault_id@ },
                category: Some(category.spec_value()),
                urls: None,
                favorite: Some(false),
                tags: None,
                fields: Seq::<FieldObjectView>::empty(),
                sections: Seq::<SectionObjectView>::empty(),
            }),
    {
        let vault = VaultID { id: vault_id.to_owned() };
        let r = Self {
            vault,
            title: String::new(),
            category: Some(category.value()),
            favorite: Some(false),
            urls: None,
            tags: None,
            fields: Vec::new(),
            sections: Vec::new(),
        };
        proof {
            assert(r.fields.deep_view() =~= Seq::<FieldObjectView>::empty());
            assert(r.sections.deep_view() =~= Seq::<SectionObjectView>::empty());
        }
        r
    }

    /// Adds a one-time-password field, in a fresh section of its own.
    pub fn add_otp(self, secret: &str) -> (r: Self)
        ensures
            exists|sid: Seq<char>|
                #![auto]
                sid.len() == 36 && r.spec_state() == (FullItemView {
                    fields: self.spec_state().fields.push(
                        FieldObjectView {
                            section: Some(SectionIDView { id: sid }),
                            purpose: None,
                            field_type: Some("OTP"@),
                            value: Some(secret@),
                            generate: Some(true),
                            label: None,
                        },
                    ),
                    sections: self.spec_state().sections.push(
                        SectionObjectView { id: sid, label: Some("OTP"@) },
                    ),
                    ..self.spec_state()
                }),
    {
        let mut r = self;
        let section = SectionID::new();
        let ghost sid = section.id@;
        let section_obj = SectionObject::new(section.id.as_str(), "OTP");
        let ghost prev_sections = r.sections.deep_view();
        r.sections.push(section_obj);
        proof {
            assert(r.sections.deep_view() =~= prev_sections.push(
                SectionObjectView { id: sid, label: Some("OTP"@) },
            ));
        }
        let field_object = FieldObject {
            section: Some(section),
            label: None,
            purpose: None,
            field_type: Some(String::from_str("OTP")),
            generate: Some(true),
            value: Some(secret.to_owned()),
        };
        let ghost fv = field_object.deep_view();
        let ghost prev_fields = r.fields.deep_view();
        r.fields.push(field_object);
        proof {
            assert(r.fields.deep_view() =~= prev_fields.push(fv));
        }
        r
    }

    fn snapshot(&self) -> (r: FullItem)
        ensures
            r.deep_view() == self.spec_state(),
    {
        FullItem {
            title: self.title.clone(),
            category: clone_opt_string(&self.category),
            favorite: self.favorite,
            fields: clone_fields(&self.fields),
            sections: clone_sections(&self.sections),
            tags: clone_opt_strings(&self.tags),
            urls: clone_opt_urls(&self.urls),
            vault: VaultID { id: self.vault.id.clone() },
        }
    }
}

pub(crate) fn clone_opt_string(o: &Option<String>) -> (r: Option<String>)
    ensures
        r == *o,
{
    match o {
        Some(s) => Some(s.clone()),
        None => None,
    }
}

pub(crate) fn clone_strings(v: &Vec<String>) -> (r: Vec<String>)
    ensures
        r@ == v@,
{
    let mut r: Vec<String> = Vec::new();
    let mut i: usize = 0;
    while i < v.len()
        invariant
            i <= v@.len(),
            r@ == v@.take(i as int),
        decreases v@.len() - i,
    {
        r.push(v[i].clone());
        assert(r@ =~= v@.take(i + 1 as int));
        i += 1;
    }
    proof {
        assert(v@.take(v@.len() as int) =~= v@);
    }
    r
}

pub(crate) fn clone_opt_strings(o: &Option<Vec<String>>) -> (r: Option<Vec<String>>)
    ensures
        r.deep_view() == o.deep_view(),
{
    match o {
        Some(v) => Some(clone_strings(v)),
        None => None,
    }
}

pub(crate) fn clone_urls(v: &Vec<UrlObject>) -> (r: Vec<UrlObject>)
    ensures
        r@ == v@,
{
    let mut r: Vec<UrlObject> = Vec::new();
    let mut i: usize = 0;
    while i < v.len()
        invariant
            i <= v@.len(),
            r@ == v@.take(i as int),
        decreases v@.len() - i,
    {
        let u = UrlObject { url: v[i].url.clone(), primary: v[i].primary };
        r.push(u);
        assert(r@ =~= v@.take(i + 1 as int));
        i += 1;
    }
    proof {
        assert(v@.take(v@.len() as int) =~= v@);
    }
    r
}

pub(crate) fn clone_opt_urls(o: &Option<Vec<UrlObject>>) -> (r: Option<Vec<UrlObject>>)
    ensures
        r.deep_view() == o.deep_view(),
{
    match o {
        Some(v) => Some(clone_urls(v)),
        None => None,
    }
}

pub(crate) fn clone_field(f: &FieldObject) -> (r: FieldObject)
    ensures
        r == *f,
{
    FieldObject {
        section: match &f.section {
            Some(s) => Some(SectionID { id: s.id.clone() }),
            None => None,
        },
        purpose: clone_opt_string(&f.purpose),
        field_type: clone_opt_string(&f.field_type),
        value: clone_opt_string(&f.value),
        generate: f.generate,
        label: clone_opt_string(&f.label),
    }
}

pub(crate) fn clone_fields(v: &Vec<FieldObject>) -> (r: Vec<FieldObject>)
    ensures
        r@ == v@,
{
    let mut r: Vec<FieldObject> = Vec::new();
    let mut i: usize = 0;
    while i < v.len()
        invariant
            i <= v@.len(),
            r@ == v@.take(i as int),
        decreases v@.len() - i,
    {
        r.push(clone_field(&v[i]));
        assert(r@ =~= v@.take(i + 1 as int));
        i += 1;
    }
    proof {
        assert(v@.take(v@.len() as int) =~= v@);
    }
    r
}

pub(crate) fn clone_sections(v: &Vec<SectionObject>) -> (r: Vec<SectionObject>)
    ensures
        r@ == v@,
{
    let mut r: Vec<SectionObject> = Vec::new();
    let mut i: usize = 0;
    while i < v.len()
        invariant
            i <= v@.len(),
            r@ == v@.take(i as int),
        decreases v@.len() - i,
    {
        let s = SectionObject { id: v[i].id.clone(), label: clone_opt_string(&v[i].label) };
        r.push(s);
        assert(r@ =~= v@.take(i + 1 as int));
        i += 1;
    }
    proof {
        assert(v@.take(v@.len() as int) =~= v@);
    }
    r
}

impl DefaultItem for ItemBuilder {
    open spec fn state(&self) -> FullItemView {
        self.spec_state()
    }

    fn build(&self) -> (r: Result<FullItem, Error>) {
        Ok(self.snapshot())
    }
}

impl LoginItem for ItemBuilder {
    open spec fn state(&self) -> FullItemView {
        self.spec_state()
    }

    fn title(self, title: &str) -> (r: Self) {
        let mut r = self;
        r.title = title.to_owned();
        r
    }

    fn username(self, username: &str) -> (r: Self) {
        let mut r = self;
        let field = FieldObject {
            value: Some(username.to_owned()),
            purpose: Some(String::from_str("USERNAME")),
            generate: None,
            label: None,
            field_type: None,
            section: None,
        };
        let ghost fv = field.deep_view();
        let ghost prev = r.fields.deep_view();
        r.fields.push(field);
        proof {
            assert(r.fields.deep_view() =~= prev.push(fv));
        }
        r
    }

    fn password(self, password: &str) -> (r: Self) {
        let mut r = self;
        let empty = password.unicode_len() == 0;
        let field = FieldObject {
            value: if empty {
                None
            } else {
                Some(password.to_owned())
            },
            purpose: Some(String::from_str("PASSWORD")),
            generate: if empty {
                Some(true)
            } else {
                None
            },
            label: None,
            field_type: None,
            section: None,
        };
        let ghost fv = field.deep_view();
        let ghost prev = r.fields.deep_view();
        r.fields.push(field);
        proof {
            assert(r.fields.deep_view() =~= prev.push(fv));
        }
        r
    }

    fn build(&self) -> (r: Result<FullItem, Error>) {
        if self.title.as_str().unicode_len() == 0 {
            return Err(
                Error::new_internal_error().with(String::from_str("Title is required")),
            );
        }
        Ok(self.snapshot())
    }
}

impl ApiCredentialItem for ItemBuilder {
    open spec fn state(&self) -> FullItemView {
        self.spec_state()
    }

    fn api_key(self, key: &str, title: &str) -> (r: Self) {
        let mut r = self;
        let section = SectionID::new();
        let ghost sid = section.id@;
        let section_obj = SectionObject::new(section.id.as_str(), "API Key");
        let ghost prev_sections = r.sections.deep_view();
        r.sections.push(section_obj);
        proof {
            assert(r.sections.deep_view() =~= prev_sections.push(
                SectionObjectView { id: sid, label: Some("API Key"@) },
            ));
        }
        let empty = key.unicode_len() == 0;
        let field_object = FieldObject {
            section: Some(section),
            label: None,
            purpose: None,
            field_type: Some(FieldType::Concealed.value()),
            generate: Some(empty),
            value: Some(key.to_owned()),
        };
        let ghost fv = field_object.deep_view();
        let ghost prev_fields = r.fields.deep_view();
        r.fields.push(field_object);
        proof {
            assert(r.fields.deep_view() =~= prev_fields.push(fv));
            assert(fv == api_key_field(sid, key@));
        }
        r.title = title.to_owned();
        r
    }

    fn build(&self) -> (r: Result<FullItem, Error>) {
        Ok(self.snapshot())
    }
}

/// The hexadecimal digit for a value below sixteen, in lower case.
pub open spec fn spec_hex_digit(d: nat) -> char {
    if d < 10 {
        ((48 + d) as u8) as char
    } else {
        ((87 + d) as u8) as char
    }
}

/// How one character is written inside a JSON string literal.
pub open spec fn spec_jesc_char(c: char) -> Seq<char> {
    if c == '"' {
        seq!['\\', '"']
    } else if c == '\\' {
        seq!['\\', '\\']
    } else if c == '\n' {
        seq!['\\', 'n']
    } else if c == '\r' {
        seq!['\\', 'r']
    } else if c == '\t' {
        seq!['\\', 't']
    } else if (c as u32) < 32 {
        seq!['\\', 'u', '0', '0', spec_hex_digit((c as u32) as nat / 16), spec_hex_digit(
            (c as u32) as nat % 16,
        )]
    } else {
        seq![c]
    }
}

/// A whole text with each character escaped for a JSON string literal.
pub open spec fn spec_jesc(s: Seq<char>) -> Seq<char>
    decreases s.len(),
{
    if s.len() == 0 {
        Seq::empty()
    } else {
        spec_jesc_char(s[0]) + spec_jesc(s.drop_first())
    }
}

proof fn lemma_jesc_push(s: Seq<char>, c: char)
    ensures
        spec_jesc(s.push(c)) == spec_jesc(s) + spec_jesc_char(c),
    decreases s.len(),
{
    if s.len() == 0 {
        assert(s.push(c).drop_first() =~= Seq::<char>::empty());
        assert(spec_jesc(Seq::<char>::empty()) == Seq::<char>::empty());
        assert(s.push(c)[0] == c);
        assert(spec_jesc(s.push(c)) =~= spec_jesc_char(c));
        assert(spec_jesc(s) + spec_jesc_char(c) =~= spec_jesc_char(c));
    } else {
        lemma_jesc_push(s.drop_first(), c);
        assert(s.push(c).drop_first() =~= s.drop_first().push(c));
        assert(s.push(c)[0] == s[0]);
        assert(spec_jesc(s.push(c)) == spec_jesc_char(s[0]) + (spec_jesc(s.drop_first())
            + spec_jesc_char(c)));
        assert(spec_jesc_char(s[0]) + (spec_jesc(s.drop_first()) + spec_jesc_char(c)) =~= (
        spec_jesc_char(s[0]) + spec_jesc(s.drop_first())) + spec_jesc_char(c));
        assert(spec_jesc(s.push(c)) =~= spec_jesc(s) + spec_jesc_char(c));
    }
}

/// A JSON string literal: the escaped text between double quotes.
pub open spec fn spec_jstr(s: Seq<char>) -> Seq<char> {
    seq!['"'] + spec_jesc(s) + seq!['"']
}

/// An optional JSON string: `null` when absent.
pub open spec fn spec_jopt_str(o: Option<Seq<char>>) -> Seq<char> {
    match o {
        Some(s) => spec_jstr(s),
        None => seq!['n', 'u', 'l', 'l'],
    }
}

/// An optional JSON boolean: `null` when absent.
pub open spec fn spec_jopt_bool(o: Option<bool>) -> Seq<char> {
    match o {
        Some(true) => seq!['t', 'r', 'u', 'e'],
        Some(false) => seq!['f', 'a', 'l', 's', 'e'],
        None => seq!['n', 'u', 'l', 'l'],
    }
}

fn hex_digit(d: u8) -> (c: char)
    requires
        d < 16,
    ensures
        c == spec_hex_digit(d as nat),
{
    if d < 10 {
        (48 + d) as char
    } else {
        (87 + d) as char
    }
}

fn append_jesc_char(out: &mut String, c: char)
    ensures
        final(out)@ == old(out)@ + spec_jesc_char(c),
{
    if c == '"' {
        push_char(out, '\\');
        push_char(out, '"');
    } else if c == '\\' {
        push_char(out, '\\');
        push_char(out, '\\');
    } else if c == '\n' {
        push_char(out, '\\');
        push_char(out, 'n');
    } else if c == '\r' {
        push_char(out, '\\');
        push_char(out, 'r');
    } else if c == '\t' {
        push_char(out, '\\');
        push_char(out, 't');
    } else if (c as u32) < 32 {
        let d = c as u32;
        push_char(out, '\\');
        push_char(out, 'u');
        push_char(out, '0');
        push_char(out, '0');
        push_char(out, hex_digit((d / 16) as u8));
        push_char(out, hex_digit((d % 16) as u8));
        assert(final(out)@ =~= old(out)@ + spec_jesc_char(c));
    } else {
        push_char(out, c);
    }
    assert(final(out)@ =~= old(out)@ + spec_jesc_char(c));
}

fn append_jstr(out: &mut String, s: &str)
    ensures
        final(out)@ == old(out)@ + spec_jstr(s@),
{
    push_char(out, '"');
    let n = s.unicode_len();
    let mut i: usize = 0;
    while i < n
        invariant
            i <= n,
            n == s@.len(),
            out@ == old(out)@ + seq!['"'] + spec_jesc(s@.take(i as int)),
        decreases n - i,
    {
        let c = s.get_char(i);
        append_jesc_char(out, c);
        proof {
            lemma_jesc_push(s@.take(i as int), c);
            assert(s@.take(i + 1 as int) =~= s@.take(i as int).push(s@[i as int]));
        }
        i += 1;
    }
    push_char(out, '"');
    proof {
        assert(s@.take(n as int) =~= s@);
        assert(final(out)@ =~= old(out)@ + spec_jstr(s@));
    }
}

fn append_jopt_str(out: &mut String, o: &Option<String>)
    ensures
        final(out)@ == old(out)@ + spec_jopt_str(o.deep_view()),
{
    match o {
        Some(s) => append_jstr(out, s.as_str()),
        None => {
            push_char(out, 'n');
            push_char(out, 'u');
            push_char(out, 'l');
            push_char(out, 'l');
            assert(final(out)@ =~= old(out)@ + spec_jopt_str(o.deep_view()));
        },
    }
}

fn append_jopt_bool(out: &mut String, o: &Option<bool>)
    ensures
        final(out)@ == old(out)@ + spec_jopt_bool(*o),
{
    match o {
        Some(b) => {
            if *b {
                push_char(out, 't');
                push_char(out, 'r');
                push_char(out, 'u');
                push_char(out, 'e');
            } else {
                push_char(out, 'f');
                push_char(out, 'a');
                push_char(out, 'l');
                push_char(out, 's');
                push_char(out, 'e');
            }
        },
        None => {
            push_char(out, 'n');
            push_char(out, 'u');
            push_char(out, 'l');
            push_char(out, 'l');
        },
    }
    assert(final(out)@ =~= old(out)@ + spec_jopt_bool(*o));
}

/// The function that writes one tag.
pub open spec fn spec_jtag_fn() -> spec_fn(Seq<char>) -> Seq<char> {
    (|s: Seq<char>| spec_jstr(s))
}

/// The function that writes one URL object.
pub open spec fn spec_jurl_fn() -> spec_fn(UrlObjectView) -> Seq<char> {
    (|u: UrlObjectView| "{\"url\":"@ + spec_jstr(u.url) + ",\"primary\":"@ + spec_jopt_bool(
        Some(u.primary),
    ) + "}"@)
}

/// The function that writes one field object.
pub open spec fn spec_jfield_fn() -> spec_fn(FieldObjectView) -> Seq<char> {
    (|f: FieldObjectView| "{\"section\":"@ + (match f.section {
        Some(s) => "{\"id\":"@ + spec_jstr(s.id) + "}"@,
        None => seq!['n', 'u', 'l', 'l'],
    }) + ",\"purpose\":"@ + spec_jopt_str(f.purpose) + ",\"type\":"@ + spec_jopt_str(f.field_type)
        + ",\"value\":"@ + spec_jopt_str(f.value) + ",\"generate\":"@ + spec_jopt_bool(f.generate)
        + ",\"label\":"@ + spec_jopt_str(f.label) + "}"@)
}

/// The function that writes one section object.
pub open spec fn spec_jsection_fn() -> spec_fn(SectionObjectView) -> Seq<char> {
    (|s: SectionObjectView| "{\"id\":"@ + spec_jstr(s.id) + ",\"label\":"@ + spec_jopt_str(s.label)
        + "}"@)
}

/// An optional JSON array of strings: `null` when absent.
pub open spec fn spec_jopt_tags(o: Option<Seq<Seq<char>>>) -> Seq<char> {
    match o {
        Some(l) => seq!['['] + spec_join(l, spec_jtag_fn()) + seq![']'],
        None => seq!['n', 'u', 'l', 'l'],
    }
}

/// An optional JSON array of URL objects: `null` when absent.
pub open spec fn spec_jopt_urls(o: Option<Seq<UrlObjectView>>) -> Seq<char> {
    match o {
        Some(l) => seq!['['] + spec_join(l, spec_jurl_fn()) + seq![']'],
        None => seq!['n', 'u', 'l', 'l'],
    }
}

fn append_jopt_tags(out: &mut String, o: &Option<Vec<String>>)
    ensures
        final(out)@ == old(out)@ + spec_jopt_tags(o.deep_view()),
{
    match o {
        Some(l) => {
            push_char(out, '[');
            let mut i: usize = 0;
            while i < l.len()
                invariant
                    i <= l@.len(),
                    out@ == old(out)@ + seq!['['] + spec_join(
                        l.deep_view().take(i as int),
                        spec_jtag_fn(),
                    ),
                decreases l@.len() - i,
            {
                if i > 0 {
                    push_char(out, ',');
                }
                append_jstr(out, l[i].as_str());
                proof {
                    lemma_join_push(l.deep_view().take(i as int), l@[i as int]@, spec_jtag_fn());
                    assert(l.deep_view().take(i + 1 as int) =~= l.deep_view().take(i as int).push(
                        l@[i as int]@,
                    ));
                    assert(out@ =~= old(out)@ + seq!['['] + spec_join(
                        l.deep_view().take(i + 1 as int),
                        spec_jtag_fn(),
                    ));
                }
                i += 1;
            }
            push_char(out, ']');
            proof {
                assert(l.deep_view().take(l@.len() as int) =~= l.deep_view());
                assert(final(out)@ =~= old(out)@ + spec_jopt_tags(o.deep_view()));
            }
        },
        None => {
            push_char(out, 'n');
            push_char(out, 'u');
            push_char(out, 'l');
            push_char(out, 'l');
            assert(final(out)@ =~= old(out)@ + spec_jopt_tags(o.deep_view()));
        },
    }
}

fn append_jurl(out: &mut String, u: &UrlObject)
    ensures
        final(out)@ == old(out)@ + spec_jurl_fn()(u.deep_view()),
{
    out.append("{\"url\":");
    append_jstr(out, u.url.as_str());
    out.append(",\"primary\":");
    let p = Some(u.primary);
    append_jopt_bool(out, &p);
    out.append("}");
    assert(final(out)@ =~= old(out)@ + spec_jurl_fn()(u.deep_view()));
}

fn append_jopt_urls(out: &mut String, o: &Option<Vec<UrlObject>>)
    ensures
        final(out)@ == old(out)@ + spec_jopt_urls(o.deep_view()),
{
    match o {
        Some(l) => {
            push_char(out, '[');
            let mut i: usize = 0;
            while i < l.len()
                invariant
                    i <= l@.len(),
                    out@ == old(out)@ + seq!['['] + spec_join(
                        l.deep_view().take(i as int),
                        spec_jurl_fn(),
                    ),
                decreases l@.len() - i,
            {
                if i > 0 {
                    push_char(out, ',');
                }
                append_jurl(out, &l[i]);
                proof {
                    lemma_join_push(
                        l.deep_view().take(i as int),
                        l@[i as int].deep_view(),
                        spec_jurl_fn(),
                    );
                    assert(l.deep_view().take(i + 1 as int) =~= l.deep_view().take(i as int).push(
                        l@[i as int].deep_view(),
                    ));
                    assert(out@ =~= old(out)@ + seq!['['] + spec_join(
                        l.deep_view().take(i + 1 as int),
                        spec_jurl_fn(),
                    ));
                }
                i += 1;
            }
            push_char(out, ']');
            proof {
                assert(l.deep_view().take(l@.len() as int) =~= l.deep_view());
                assert(final(out)@ =~= old(out)@ + spec_jopt_urls(o.deep_view()));
            }
        },
        None => {
            push_char(out, 'n');
            push_char(out, 'u');
            push_char(out, 'l');
            push_char(out, 'l');
            assert(final(out)@ =~= old(out)@ + spec_jopt_urls(o.deep_view()));
        },
    }
}

#[verifier::rlimit(50)]
fn append_jfield(out: &mut String, f: &FieldObject)
    ensures
        final(out)@ == old(out)@ + spec_jfield_fn()(f.deep_view()),
{
    out.append("{\"section\":");
    match &f.section {
        Some(s) => {
            out.append("{\"id\":");
            append_jstr(out, s.id.as_str());
            out.append("}");
        },
        None => {
            push_char(out, 'n');
            push_char(out, 'u');
            push_char(out, 'l');
            push_char(out, 'l');
        },
    }
    out.append(",\"purpose\":");
    append_jopt_str(out, &f.purpose);
    out.append(",\"type\":");
    append_jopt_str(out, &f.field_type);
    out.append(",\"value\":");
    append_jopt_str(out, &f.value);
    out.append(",\"generate\":");
    append_jopt_bool(out, &f.generate);
    out.append(",\"label\":");
    append_jopt_str(out, &f.label);
    out.append("}");
    assert(final(out)@ =~= old(out)@ + spec_jfield_fn()(f.deep_view()));
}

fn append_jsection(out: &mut String, s: &SectionObject)
    ensures
        final(out)@ == old(out)@ + spec_jsection_fn()(s.deep_view()),
{
    out.append("{\"id\":");
    append_jstr(out, s.id.as_str());
    out.append(",\"label\":");
    append_jopt_str(out, &s.label);
    out.append("}");
    assert(final(out)@ =~= old(out)@ + spec_jsection_fn()(s.deep_view()));
}

/// The JSON text a full item is sent as: every member written in order,
/// absent optional members written as `null`.
pub open spec fn spec_full_item_json(v: FullItemView) -> Seq<char> {
    "{\"title\":"@ + spec_jstr(v.title) + ",\"vault\":{\"id\":"@ + spec_jstr(v.vault.id) + "}"@
        + ",\"category\":"@ + spec_jopt_str(v.category) + ",\"urls\":"@ + spec_jopt_urls(v.urls)
        + ",\"favorite\":"@ + spec_jopt_bool(v.favorite) + ",\"tags\":"@ + spec_jopt_tags(v.tags)
        + ",\"fields\":["@ + spec_join(v.fields, spec_jfield_fn()) + "],\"sections\":["@
        + spec_join(v.sections, spec_jsection_fn()) + "]}"@
}

impl FullItem {
    /// Writes the item as the JSON body of a create call.
    pub fn to_json(&self) -> (r: String)
        ensures
            r@ == spec_full_item_json(self.deep_view()),
    {
        let mut out = String::new();
        out.append("{\"title\":");
        append_jstr(&mut out, self.title.as_str());
        out.append(",\"vault\":{\"id\":");
        append_jstr(&mut out, self.vault.id.as_str());
        out.append("}");
        out.append(",\"category\":");
        append_jopt_str(&mut out, &self.category);
        out.append(",\"urls\":");
        append_jopt_urls(&mut out, &self.urls);
        out.append(",\"favorite\":");
        append_jopt_bool(&mut out, &self.favorite);
        out.append(",\"tags\":");
        append_jopt_tags(&mut out, &self.tags);
        out.append(",\"fields\":[");
        let mut i: usize = 0;
        while i < self.fields.len()
            invariant
                i <= self.fields@.len(),
                out@ == "{\"title\":"@ + spec_jstr(self.deep_view().title) + ",\"vault\":{\"id\":"@
                    + spec_jstr(self.deep_view().vault.id) + "}"@ + ",\"category\":"@
                    + spec_jopt_str(self.deep_view().category) + ",\"urls\":"@ + spec_jopt_urls(
                    self.deep_view().urls,
                ) + ",\"favorite\":"@ + spec_jopt_bool(self.deep_view().favorite) + ",\"tags\":"@
                    + spec_jopt_tags(self.deep_view().tags) + ",\"fields\":["@ + spec_join(
                    self.fields.deep_view().take(i as int),
                    spec_jfield_fn(),
                ),
            decreases self.fields@.len() - i,
        {
            if i > 0 {
                push_char(&mut out, ',');
            }
            append_jfield(&mut out, &self.fields[i]);
            proof {
                lemma_join_push(
                    self.fields.deep_view().take(i as int),
                    self.fields@[i as int].deep_view(),
                    spec_jfield_fn(),
                );
                assert(self.fields.deep_view().take(i + 1 as int)
                    =~= self.fields.deep_view().take(i as int).push(
                    self.fields@[i as int].deep_view(),
                ));
            }
            i += 1;
        }
        proof {
            assert(self.fields.deep_view().take(self.fields@.len() as int)
                =~= self.fields.deep_view());
        }
        out.append("],\"sections\":[");
        let mut j: usize = 0;
        while j < self.sections.len()
            invariant
                j <= self.sections@.len(),
                out@ == "{\"title\":"@ + spec_jstr(self.deep_view().title) + ",\"vault\":{\"id\":"@
                    + spec_jstr(self.deep_view().vault.id) + "}"@ + ",\"category\":"@
                    + spec_jopt_str(self.deep_view().category) + ",\"urls\":"@ + spec_jopt_urls(
                    self.deep_view().urls,
                ) + ",\"favorite\":"@ + spec_jopt_bool(self.deep_view().favorite) + ",\"tags\":"@
                    + spec_jopt_tags(self.deep_view().tags) + ",\"fields\":["@ + spec_join(
                    self.fields.deep_view(),
                    spec_jfield_fn(),
                ) + "],\"sections\":["@ + spec_join(
                    self.sections.deep_view().take(j as int),
                    spec_jsection_fn(),
                ),
            decreases self.sections@.len() - j,
        {
            if j > 0 {
                push_char(&mut out, ',');
            }
            append_jsection(&mut out, &self.sections[j]);
            proof {
                lemma_join_push(
                    self.sections.deep_view().take(j as int),
                    self.sections@[j as int].deep_view(),
                    spec_jsection_fn(),
                );
                assert(self.sections.deep_view().take(j + 1 as int)
                    =~= self.sections.deep_view().take(j as int).push(
                    self.sections@[j as int].deep_view(),
                ));
            }
            j += 1;
        }
        proof {
            assert(self.sections.deep_view().take(self.sections@.len() as int)
                =~= self.sections.deep_view());
        }
        out.append("]}");
        proof {
            assert(out@ =~= spec_full_item_json(self.deep_view()));
        }
        out
    }
}

} // verus!
