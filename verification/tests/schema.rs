use terraform_provider_ubicloud::schema::{provider_schema, Attribute, StringKind};
use terraform_provider_ubicloud::server::{requires_replace, UbicloudProvider};

fn names(attributes: &[Attribute]) -> Vec<&str> {
    attributes.iter().map(|a| a.name.as_str()).collect()
}

#[test]
fn the_provider_is_configured_with_an_account() {
    let schema = provider_schema();
    assert_eq!(schema.provider.version, 1);
    assert_eq!(schema.provider.block.version, 1);
    assert_eq!(schema.provider.block.description, "Ubicloud provider");
    assert_eq!(schema.provider.block.description_kind, StringKind::Plain);
    assert_eq!(names(&schema.provider.block.attributes), ["email", "password"]);
    for attribute in &schema.provider.block.attributes {
        assert_eq!(attribute.type_expr, "\"string\"");
        assert!(attribute.required && !attribute.optional && !attribute.computed);
        assert!(attribute.sensitive);
        assert!(!attribute.deprecated);
        assert_eq!(attribute.description_kind, StringKind::Plain);
    }
    assert_eq!(
        schema.provider.block.attributes[0].description,
        "Email for Ubicloud account used to provision resources"
    );
}

#[test]
fn the_provider_has_one_resource() {
    let schema = UbicloudProvider::new().get_provider_schema();
    assert_eq!(schema.resource_name, "ubicloud_vm");
    assert_eq!(schema.resource.version, 1);
    assert_eq!(schema.resource.block.description, "Ubicloud Virtual Machine");
    assert_eq!(
        names(&schema.resource.block.attributes),
        [
            "region",
            "project_id",
            "name",
            "size",
            "image",
            "user",
            "public_key",
            "enable_public_ipv4",
            "vm_name",
            "public_ipv4",
            "public_ipv6"
        ]
    );
}

#[test]
fn the_configuration_is_required_and_the_rest_is_computed() {
    let schema = provider_schema();
    let attributes = &schema.resource.block.attributes;
    for attribute in &attributes[..7] {
        assert!(attribute.required && !attribute.optional && !attribute.computed);
        assert_eq!(attribute.type_expr, "\"string\"");
    }
    let flag = &attributes[7];
    assert!(!flag.required && flag.optional && !flag.computed);
    assert_eq!(flag.type_expr, "\"bool\"");
    for attribute in &attributes[8..] {
        assert!(!attribute.required && attribute.optional && attribute.computed);
        assert_eq!(attribute.type_expr, "\"string\"");
    }
    let sensitive: Vec<&str> =
        attributes.iter().filter(|a| a.sensitive).map(|a| a.name.as_str()).collect();
    assert_eq!(sensitive, ["public_key"]);
    assert!(attributes.iter().all(|a| !a.deprecated));
}

#[test]
fn descriptions_say_how_they_are_written() {
    let schema = provider_schema();
    let markdown: Vec<&str> = schema
        .resource
        .block
        .attributes
        .iter()
        .filter(|a| a.description_kind == StringKind::Markdown)
        .map(|a| a.name.as_str())
        .collect();
    assert_eq!(markdown, ["region", "project_id", "size", "image", "enable_public_ipv4"]);
    assert_eq!(
        schema.resource.block.attributes[7].description,
        "Whether to enable public IPv4 for the VM. Defaults to `true`."
    );
    assert_eq!(
        schema.resource.block.attributes[10].description,
        "Public IPv6 address of the VM."
    );
}

#[test]
fn the_metadata_has_no_attribute() {
    let schema = provider_schema();
    assert_eq!(schema.provider_meta.version, 1);
    assert!(schema.provider_meta.block.attributes.is_empty());
    assert_eq!(schema.provider_meta.block.description, "Ubicloud terraform provider");
    assert_eq!(schema.provider_meta.block.description_kind, StringKind::Markdown);
}

#[test]
fn what_is_configured_forces_replacement() {
    let schema = provider_schema();
    let configured: Vec<&str> = schema
        .resource
        .block
        .attributes
        .iter()
        .filter(|a| !a.computed)
        .map(|a| a.name.as_str())
        .collect();
    assert_eq!(requires_replace(), configured);
    assert_eq!(configured.len(), 8);
}
