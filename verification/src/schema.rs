//! The schemas that the provider describes itself with: the attributes of
//! its own configuration and of the one resource it manages.

use crate::server::requires_replace_spec;
use vstd::prelude::*;

verus! {

/// How a description is to be rendered.
#[derive(Clone, Copy, Debug, PartialEq, Eq, Structural)]
pub enum StringKind {
    Plain,
    Markdown,
}

/// One attribute of a block.
#[derive(Debug)]
pub struct Attribute {
    pub name: String,
    /// The type of the attribute, as a JSON type expression.
    pub type_expr: String,
    pub description: String,
    pub description_kind: StringKind,
    pub required: bool,
    pub optional: bool,
    /// Whether the provider fills the attribute in.
    pub computed: bool,
    pub sensitive: bool,
    pub deprecated: bool,
}

/// An `Attribute` as specifications see it.
pub struct AttributeView {
    pub name: Seq<char>,
    pub type_expr: Seq<char>,
    pub description: Seq<char>,
    pub description_kind: StringKind,
    pub required: bool,
    pub optional: bool,
    pub computed: bool,
    pub sensitive: bool,
    pub deprecated: bool,
}

impl View for Attribute {
    type V = AttributeView;

    open spec fn view(&self) -> AttributeView {
        AttributeView {
            name: self.name@,
            type_expr: self.type_expr@,
            description: self.description@,
            description_kind: self.description_kind,
            required: self.required,
            optional: self.optional,
            computed: self.computed,
            sensitive: self.sensitive,
            deprecated: self.deprecated,
        }
    }
}

impl DeepView for Attribute {
    type V = AttributeView;

    open spec fn deep_view(&self) -> AttributeView {
        self@
    }
}

/// A block of attributes, without nested blocks.
#[derive(Debug)]
pub struct Block {
    pub version: i64,
    pub attributes: Vec<Attribute>,
    pub description: String,
    pub description_kind: StringKind,
    pub deprecated: bool,
}

/// A `Block` as specifications see it.
pub struct BlockView {
    pub version: i64,
    pub attributes: Seq<AttributeView>,
    pub description: Seq<char>,
    pub description_kind: StringKind,
    pub deprecated: bool,
}

impl View for Block {
    type V = BlockView;

    open spec fn view(&self) -> BlockView {
        BlockView {
            version: self.version,
            attributes: self.attributes.deep_view(),
            description: self.description@,
            description_kind: self.description_kind,
            deprecated: self.deprecated,
        }
    }
}

/// A schema: a block under a version.
#[derive(Debug)]
pub struct Schema {
    pub version: i64,
    pub block: Block,
}

/// A `Schema` as specifications see it.
pub struct SchemaView {
    pub version: i64,
    pub block: BlockView,
}

impl View for Schema {
    type V = SchemaView;

    open spec fn view(&self) -> SchemaView {
        SchemaView { version: self.version, block: self.block@ }
    }
}

/// What the provider answers when asked for its schemas. It has one
/// resource and no data source.
#[derive(Debug)]
pub struct ProviderSchema {
    /// The schema of the provider's own configuration.
    pub provider: Schema,
    /// The name of the resource type.
    pub resource_name: String,
    /// The schema of the resource type.
    pub resource: Schema,
    /// The schema of the provider's metadata.
    pub provider_meta: Schema,
}

/// A `ProviderSchema` as specifications see it.
pub struct ProviderSchemaView {
    pub provider: SchemaView,
    pub resource_name: Seq<char>,
    pub resource: SchemaView,
    pub provider_meta: SchemaView,
}

impl View for ProviderSchema {
    type V = ProviderSchemaView;

    open spec fn view(&self) -> ProviderSchemaView {
        ProviderSchemaView {
            provider: self.provider@,
            resource_name: self.resource_name@,
            resource: self.resource@,
            provider_meta: self.provider_meta@,
        }
    }
}

/// How an attribute gets its value.
#[derive(Clone, Copy, Debug, PartialEq, Eq, Structural)]
pub enum Presence {
    /// The configuration has to give it.
    Required,
    /// The configuration may give it.
    Optional,
    /// The provider fills it in where the configuration does not give it.
    Computed,
}

/// The attribute with the given name, type, description and presence. It
/// is not deprecated.
pub open spec fn attribute_spec(
    name: Seq<char>,
    type_expr: Seq<char>,
    description: Seq<char>,
    description_kind: StringKind,
    presence: Presence,
    sensitive: bool,
) -> AttributeView {
    AttributeView {
        name,
        type_expr,
        description,
        description_kind,
        required: presence == Presence::Required,
        optional: presence != Presence::Required,
        computed: presence == Presence::Computed,
        sensitive,
        deprecated: false,
    }
}

/// The attribute with the given name, type, description and presence.
fn attribute(
    name: &str,
    type_expr: &str,
    description: &str,
    description_kind: StringKind,
    presence: Presence,
    sensitive: bool,
) -> (attribute: Attribute)
    ensures
        attribute@ == attribute_spec(
            name@,
            type_expr@,
            description@,
            description_kind,
            presence,
            sensitive,
        ),
{
    Attribute {
        name: name.to_owned(),
        type_expr: type_expr.to_owned(),
        description: description.to_owned(),
        description_kind,
        required: match presence {
            Presence::Required => true,
            _ => false,
        },
        optional: match presence {
            Presence::Required => false,
            _ => true,
        },
        computed: match presence {
            Presence::Computed => true,
            _ => false,
        },
        sensitive,
        deprecated: false,
    }
}

/// The attributes of the provider's configuration: the account.
pub open spec fn provider_attributes_spec() -> Seq<AttributeView> {
    seq![
        attribute_spec(
            "email"@,
            "\"string\""@,
            "Email for Ubicloud account used to provision resources"@,
            StringKind::Plain,
            Presence::Required,
            true,
        ),
        attribute_spec(
            "password"@,
            "\"string\""@,
            "Password for Ubicloud account used to provision resources"@,
            StringKind::Plain,
            Presence::Required,
            true,
        ),
    ]
}

/// The attributes of a machine: those of its configuration, then those that
/// the provider computes.
pub open spec fn vm_attributes_spec() -> Seq<AttributeView> {
    seq![
        attribute_spec(
            "region"@,
            "\"string\""@,
            "Region where the VM will be created in. Current supported options are `hetzner-hel1` or `hetzner-fsn1`."@,
            StringKind::Markdown,
            Presence::Required,
            false,
        ),
        attribute_spec(
            "project_id"@,
            "\"string\""@,
            "Project where the VM will be created in."@,
            StringKind::Markdown,
            Presence::Required,
            false,
        ),
        attribute_spec(
            "name"@,
            "\"string\""@,
            "Friendly name of the resource (used to compute the real name)."@,
            StringKind::Plain,
            Presence::Required,
            false,
        ),
        attribute_spec(
            "size"@,
            "\"string\""@,
            "Size fo the VM. Current supported options are `standard-2`, `standard-4`, `standard-8` and `standard-16`."@,
            StringKind::Markdown,
            Presence::Required,
            false,
        ),
        attribute_spec(
            "image"@,
            "\"string\""@,
            "Image to use for the VM. Current supported options are `ubuntu-jammy` and `almalinux-9.1`."@,
            StringKind::Markdown,
            Presence::Required,
            false,
        ),
        attribute_spec(
            "user"@,
            "\"string\""@,
            "Linux user used when creating the VM."@,
            StringKind::Plain,
            Presence::Required,
            false,
        ),
        attribute_spec(
            "public_key"@,
            "\"string\""@,
            "SSH public key used when creating the VM."@,
            StringKind::Plain,
            Presence::Required,
            true,
        ),
        attribute_spec(
            "enable_public_ipv4"@,
            "\"bool\""@,
            "Whether to enable public IPv4 for the VM. Defaults to `true`."@,
            StringKind::Markdown,
            Presence::Optional,
            false,
        ),
        attribute_spec(
            "vm_name"@,
            "\"string\""@,
            "The real name of the VM in Ubicloud."@,
            StringKind::Plain,
            Presence::Computed,
            false,
        ),
        attribute_spec(
            "public_ipv4"@,
            "\"string\""@,
            "Public IPv4 address of the VM."@,
            StringKind::Plain,
            Presence::Computed,
            false,
        ),
        attribute_spec(
            "public_ipv6"@,
            "\"string\""@,
            "Public IPv6 address of the VM."@,
            StringKind::Plain,
            Presence::Computed,
            false,
        ),
    ]
}

/// The schema of version 1 around a block of version 1 that is not
/// deprecated.
pub open spec fn schema_spec(
    attributes: Seq<AttributeView>,
    description: Seq<char>,
    description_kind: StringKind,
) -> SchemaView {
    SchemaView {
        version: 1,
        block: BlockView { version: 1, attributes, description, description_kind, deprecated: false },
    }
}

/// The schema of version 1 around a block of version 1.
fn schema(attributes: Vec<Attribute>, description: &str, description_kind: StringKind) -> (schema:
    Schema)
    ensures
        schema@ == schema_spec(attributes.deep_view(), description@, description_kind),
{
    Schema {
        version: 1,
        block: Block {
            version: 1,
            attributes,
            description: description.to_owned(),
            description_kind,
            deprecated: false,
        },
    }
}

/// The schemas of the provider, of its one resource `ubicloud_vm`, and of
/// its metadata.
pub open spec fn provider_schema_spec() -> ProviderSchemaView {
    ProviderSchemaView {
        provider: schema_spec(provider_attributes_spec(), "Ubicloud provider"@, StringKind::Plain),
        resource_name: "ubicloud_vm"@,
        resource: schema_spec(vm_attributes_spec(), "Ubicloud Virtual Machine"@, StringKind::Plain),
        provider_meta: schema_spec(
            Seq::empty(),
            "Ubicloud terraform provider"@,
            StringKind::Markdown,
        ),
    }
}

/// The attributes of the provider's configuration.
fn provider_attributes() -> (attributes: Vec<Attribute>)
    ensures
        attributes.deep_view() == provider_attributes_spec(),
{
    let mut attributes: Vec<Attribute> = Vec::new();
    attributes.push(
        attribute(
            "email",
            "\"string\"",
            "Email for Ubicloud account used to provision resources",
            StringKind::Plain,
            Presence::Required,
            true,
        ),
    );
    attributes.push(
        attribute(
            "password",
            "\"string\"",
            "Password for Ubicloud account used to provision resources",
            StringKind::Plain,
            Presence::Required,
            true,
        ),
    );
    assert(attributes.deep_view() =~= provider_attributes_spec());
    attributes
}

/// The attributes of a machine.
fn vm_attributes() -> (attributes: Vec<Attribute>)
    ensures
        attributes.deep_view() == vm_attributes_spec(),
{
    let mut attributes: Vec<Attribute> = Vec::new();
    attributes.push(
        attribute(
            "region",
            "\"string\"",
            "Region where the VM will be created in. Current supported options are `hetzner-hel1` or `hetzner-fsn1`.",
            StringKind::Markdown,
            Presence::Required,
            false,
        ),
    );
    attributes.push(
        attribute(
            "project_id",
            "\"string\"",
            "Project where the VM will be created in.",
            StringKind::Markdown,
            Presence::Required,
            false,
        ),
    );
    attributes.push(
        attribute(
            "name",
            "\"string\"",
            "Friendly name of the resource (used to compute the real name).",
            StringKind::Plain,
            Presence::Required,
            false,
        ),
    );
    attributes.push(
        attribute(
            "size",
            "\"string\"",
            "Size fo the VM. Current supported options are `standard-2`, `standard-4`, `standard-8` and `standard-16`.",
            StringKind::Markdown,
            Presence::Required,
            false,
        ),
    );
    attributes.push(
        attribute(
            "image",
            "\"string\"",
            "Image to use for the VM. Current supported options are `ubuntu-jammy` and `almalinux-9.1`.",
            StringKind::Markdown,
            Presence::Required,
            false,
        ),
    );
    attributes.push(
        attribute(
            "user",
            "\"string\"",
            "Linux user used when creating the VM.",
            StringKind::Plain,
            Presence::Required,
            false,
        ),
    );
    attributes.push(
        attribute(
            "public_key",
            "\"string\"",
            "SSH public key used when creating the VM.",
            StringKind::Plain,
            Presence::Required,
            true,
        ),
    );
    attributes.push(
        attribute(
            "enable_public_ipv4",
            "\"bool\"",
            "Whether to enable public IPv4 for the VM. Defaults to `true`.",
            StringKind::Markdown,
            Presence::Optional,
            false,
        ),
    );
    attributes.push(
        attribute(
            "vm_name",
            "\"string\"",
            "The real name of the VM in Ubicloud.",
            StringKind::Plain,
            Presence::Computed,
            false,
        ),
    );
    attributes.push(
        attribute(
            "public_ipv4",
            "\"string\"",
            "Public IPv4 address of the VM.",
            StringKind::Plain,
            Presence::Computed,
            false,
        ),
    );
    attributes.push(
        attribute(
            "public_ipv6",
            "\"string\"",
            "Public IPv6 address of the VM.",
            StringKind::Plain,
            Presence::Computed,
            false,
        ),
    );
    assert(attributes.deep_view() =~= vm_attributes_spec());
    attributes
}

/// The schemas that the provider describes itself with.
pub fn provider_schema() -> (schema: ProviderSchema)
    ensures
        schema@ == provider_schema_spec(),
{
    let no_attributes: Vec<Attribute> = Vec::new();
    assert(no_attributes.deep_view() =~= Seq::<AttributeView>::empty());
    ProviderSchema {
        provider: schema(provider_attributes(), "Ubicloud provider", StringKind::Plain),
        resource_name: "ubicloud_vm".to_owned(),
        resource: schema(vm_attributes(), "Ubicloud Virtual Machine", StringKind::Plain),
        provider_meta: schema(no_attributes, "Ubicloud terraform provider", StringKind::Markdown),
    }
}

/// The attributes of a machine begin with those of its configuration, and
/// these are the attributes that force a replacement; the provider computes
/// the three that follow, and only those.
pub proof fn lemma_configured_attributes_force_replacement()
    ensures
        vm_attributes_spec().len() == requires_replace_spec().len() + 3,
        forall|k: int|
            0 <= k < requires_replace_spec().len() ==> (#[trigger] vm_attributes_spec()[k]).name
                == requires_replace_spec()[k] && !vm_attributes_spec()[k].computed,
        forall|k: int|
            requires_replace_spec().len() <= k < vm_attributes_spec().len() ==> (
            #[trigger] vm_attributes_spec()[k]).computed,
        vm_attributes_spec()[8].name == "vm_name"@,
        vm_attributes_spec()[9].name == "public_ipv4"@,
        vm_attributes_spec()[10].name == "public_ipv6"@,
{
    let attributes = vm_attributes_spec();
    let names = requires_replace_spec();
    assert(attributes.len() == 11);
    assert(names.len() == 8);
    assert(attributes[0].name == names[0] && !attributes[0].computed);
    assert(attributes[1].name == names[1] && !attributes[1].computed);
    assert(attributes[2].name == names[2] && !attributes[2].computed);
    assert(attributes[3].name == names[3] && !attributes[3].computed);
    assert(attributes[4].name == names[4] && !attributes[4].computed);
    assert(attributes[5].name == names[5] && !attributes[5].computed);
    assert(attributes[6].name == names[6] && !attributes[6].computed);
    assert(attributes[7].name == names[7] && !attributes[7].computed);
    assert(attributes[8].computed);
    assert(attributes[9].computed);
    assert(attributes[10].computed);
}

} // verus!
