//! DDS Security configuration: which plugins to load and where the
//! certificates, keys and policy documents are, expressed as QoS
//! properties.
use vstd::prelude::*;
use crate::qos::{properties_model, QosBuilder};
use crate::text::concat2;

verus! {

/// Builder for DDS Security configuration.
#[derive(Debug)]
pub struct SecurityConfig {
    identity_ca: Option<String>,
    identity_certificate: Option<String>,
    identity_private_key: Option<String>,
    governance: Option<String>,
    permissions: Option<String>,
    permissions_ca: Option<String>,
    auth_plugin: String,
    access_plugin: String,
    crypto_plugin: String,
}

/// What a [`SecurityConfig`] holds.
pub ghost struct SecurityConfigModel {
    pub identity_ca: Option<Seq<char>>,
    pub identity_certificate: Option<Seq<char>>,
    pub identity_private_key: Option<Seq<char>>,
    pub governance: Option<Seq<char>>,
    pub permissions: Option<Seq<char>>,
    pub permissions_ca: Option<Seq<char>>,
    pub auth_plugin: Seq<char>,
    pub access_plugin: Seq<char>,
    pub crypto_plugin: Seq<char>,
}

pub open spec fn opt_text(s: Option<String>) -> Option<Seq<char>> {
    match s {
        Some(x) => Some(x@),
        None => None,
    }
}

impl View for SecurityConfig {
    type V = SecurityConfigModel;

    closed spec fn view(&self) -> SecurityConfigModel {
        SecurityConfigModel {
            identity_ca: opt_text(self.identity_ca),
            identity_certificate: opt_text(self.identity_certificate),
            identity_private_key: opt_text(self.identity_private_key),
            governance: opt_text(self.governance),
            permissions: opt_text(self.permissions),
            permissions_ca: opt_text(self.permissions_ca),
            auth_plugin: self.auth_plugin@,
            access_plugin: self.access_plugin@,
            crypto_plugin: self.crypto_plugin@,
        }
    }
}

/// The property for a file setting, if it is set: `name` with the value
/// `file:<path>`.
pub open spec fn file_property(name: Seq<char>, path: Option<Seq<char>>) -> Seq<(Seq<char>, Seq<char>, bool)> {
    match path {
        Some(p) => seq![(name, "file:"@ + p, false)],
        None => Seq::empty(),
    }
}

/// The QoS properties that a security configuration stands for, in the
/// order they are added: the three plugin names, then each file setting
/// that is set.
pub open spec fn security_properties(c: SecurityConfigModel) -> Seq<(Seq<char>, Seq<char>, bool)> {
    seq![
        ("dds.sec.auth.plugin"@, c.auth_plugin, false),
        ("dds.sec.access.plugin"@, c.access_plugin, false),
        ("dds.sec.crypto.plugin"@, c.crypto_plugin, false),
    ] + file_property("dds.sec.auth.identity_ca"@, c.identity_ca) + file_property(
        "dds.sec.auth.identity_certificate"@,
        c.identity_certificate,
    ) + file_property("dds.sec.auth.private_key"@, c.identity_private_key) + file_property(
        "dds.sec.access.governance"@,
        c.governance,
    ) + file_property("dds.sec.access.permissions"@, c.permissions) + file_property(
        "dds.sec.access.permissions_ca"@,
        c.permissions_ca,
    )
}

impl Default for SecurityConfig {
    /// No file set and empty plugin names.
    fn default() -> (r: Self)
        ensures
            r@ == (SecurityConfigModel {
                identity_ca: None,
                identity_certificate: None,
                identity_private_key: None,
                governance: None,
                permissions: None,
                permissions_ca: None,
                auth_plugin: Seq::empty(),
                access_plugin: Seq::empty(),
                crypto_plugin: Seq::empty(),
            }),
    {
        SecurityConfig {
            identity_ca: None,
            identity_certificate: None,
            identity_private_key: None,
            governance: None,
            permissions: None,
            permissions_ca: None,
            auth_plugin: String::new(),
            access_plugin: String::new(),
            crypto_plugin: String::new(),
        }
    }
}

impl Clone for SecurityConfig {
    fn clone(&self) -> (r: Self)
        ensures
            r@ == self@,
    {
        SecurityConfig {
            identity_ca: clone_opt(&self.identity_ca),
            identity_certificate: clone_opt(&self.identity_certificate),
            identity_private_key: clone_opt(&self.identity_private_key),
            governance: clone_opt(&self.governance),
            permissions: clone_opt(&self.permissions),
            permissions_ca: clone_opt(&self.permissions_ca),
            auth_plugin: self.auth_plugin.clone(),
            access_plugin: self.access_plugin.clone(),
            crypto_plugin: self.crypto_plugin.clone(),
        }
    }
}

fn clone_opt(s: &Option<String>) -> (r: Option<String>)
    ensures
        opt_text(r) == opt_text(*s),
{
    match s {
        Some(x) => Some(x.clone()),
        None => None,
    }
}

/// Adds the property for a file setting, if it is set.
fn add_file_property(b: QosBuilder, name: &str, path: &Option<String>) -> (r: QosBuilder)
    ensures
        r == (QosBuilder { properties: r.properties, ..b }),
        properties_model(r.properties@) == properties_model(b.properties@) + file_property(
            name@,
            opt_text(*path),
        ),
{
    match path {
        Some(p) => {
            let value = concat2("file:", p.as_str());
            let r = b.property(name, value.as_str());
            assert(properties_model(r.properties@) =~= properties_model(b.properties@)
                + file_property(name@, opt_text(*path)));
            r
        },
        None => {
            assert(properties_model(b.properties@) =~= properties_model(b.properties@)
                + file_property(name@, opt_text(*path)));
            b
        },
    }
}

impl SecurityConfig {
    /// A configuration with the built-in plugins and no file set.
    pub fn new() -> (r: Self)
        ensures
            r@ == (SecurityConfigModel {
                identity_ca: None,
                identity_certificate: None,
                identity_private_key: None,
                governance: None,
                permissions: None,
                permissions_ca: None,
                auth_plugin: "dds.sec.auth.builtin.PKI-DH"@,
                access_plugin: "dds.sec.access.builtin.Access-Permissions"@,
                crypto_plugin: "dds.sec.crypto.builtin.AES-GCM-GMAC"@,
            }),
    {
        SecurityConfig {
            identity_ca: None,
            identity_certificate: None,
            identity_private_key: None,
            governance: None,
            permissions: None,
            permissions_ca: None,
            auth_plugin: "dds.sec.auth.builtin.PKI-DH".to_owned(),
            access_plugin: "dds.sec.access.builtin.Access-Permissions".to_owned(),
            crypto_plugin: "dds.sec.crypto.builtin.AES-GCM-GMAC".to_owned(),
        }
    }

    /// Path to the Identity CA certificate (PEM).
    pub fn identity_ca(self, path: &str) -> (r: Self)
        ensures
            r@ == (SecurityConfigModel { identity_ca: Some(path@), ..self@ }),
    {
        SecurityConfig { identity_ca: Some(path.to_owned()), ..self }
    }

    /// Path to the participant identity certificate (PEM).
    pub fn identity_certificate(self, path: &str) -> (r: Self)
        ensures
            r@ == (SecurityConfigModel { identity_certificate: Some(path@), ..self@ }),
    {
        SecurityConfig { identity_certificate: Some(path.to_owned()), ..self }
    }

    /// Path to the participant identity private key (PEM).
    pub fn identity_private_key(self, path: &str) -> (r: Self)
        ensures
            r@ == (SecurityConfigModel { identity_private_key: Some(path@), ..self@ }),
    {
        SecurityConfig { identity_private_key: Some(path.to_owned()), ..self }
    }

    /// Path to the Governance XML document.
    pub fn governance(self, path: &str) -> (r: Self)
        ensures
            r@ == (SecurityConfigModel { governance: Some(path@), ..self@ }),
    {
        SecurityConfig { governance: Some(path.to_owned()), ..self }
    }

    /// Path to the Permissions XML document.
    pub fn permissions(self, path: &str) -> (r: Self)
        ensures
            r@ == (SecurityConfigModel { permissions: Some(path@), ..self@ }),
    {
        SecurityConfig { permissions: Some(path.to_owned()), ..self }
    }

    /// Path to the Permissions CA certificate (PEM).
    pub fn permissions_ca(self, path: &str) -> (r: Self)
        ensures
            r@ == (SecurityConfigModel { permissions_ca: Some(path@), ..self@ }),
    {
        SecurityConfig { permissions_ca: Some(path.to_owned()), ..self }
    }

    /// Overrides the authentication plugin name.
    pub fn auth_plugin(self, name: &str) -> (r: Self)
        ensures
            r@ == (SecurityConfigModel { auth_plugin: name@, ..self@ }),
    {
        SecurityConfig { auth_plugin: name.to_owned(), ..self }
    }

    /// Overrides the access-control plugin name.
    pub fn access_plugin(self, name: &str) -> (r: Self)
        ensures
            r@ == (SecurityConfigModel { access_plugin: name@, ..self@ }),
    {
        SecurityConfig { access_plugin: name.to_owned(), ..self }
    }

    /// Overrides the cryptography plugin name.
    pub fn crypto_plugin(self, name: &str) -> (r: Self)
        ensures
            r@ == (SecurityConfigModel { crypto_plugin: name@, ..self@ }),
    {
        SecurityConfig { crypto_plugin: name.to_owned(), ..self }
    }

    /// Adds this configuration's properties to a QoS builder (see
    /// [`security_properties`]); the builder's other settings are kept.
    pub fn apply_to(self, builder: QosBuilder) -> (r: QosBuilder)
        ensures
            r == (QosBuilder { properties: r.properties, ..builder }),
            properties_model(r.properties@) == properties_model(builder.properties@)
                + security_properties(self@),
    {
        let b = builder.property("dds.sec.auth.plugin", self.auth_plugin.as_str());
        let b = b.property("dds.sec.access.plugin", self.access_plugin.as_str());
        let b = b.property("dds.sec.crypto.plugin", self.crypto_plugin.as_str());
        let b = add_file_property(b, "dds.sec.auth.identity_ca", &self.identity_ca);
        let b = add_file_property(b, "dds.sec.auth.identity_certificate", &self.identity_certificate);
        let b = add_file_property(b, "dds.sec.auth.private_key", &self.identity_private_key);
        let b = add_file_property(b, "dds.sec.access.governance", &self.governance);
        let b = add_file_property(b, "dds.sec.access.permissions", &self.permissions);
        let b = add_file_property(b, "dds.sec.access.permissions_ca", &self.permissions_ca);
        assert(properties_model(b.properties@) =~= properties_model(builder.properties@)
            + security_properties(self@));
        b
    }
}

impl QosBuilder {
    /// Applies a security configuration to this builder.
    pub fn security(self, config: SecurityConfig) -> (r: Self)
        ensures
            r == (QosBuilder { properties: r.properties, ..self }),
            properties_model(r.properties@) == properties_model(self.properties@)
                + security_properties(config@),
    {
        config.apply_to(self)
    }
}

} // verus!
