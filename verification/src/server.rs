//! The records that cross the provider's boundary, and the provider's
//! operations on them.

use crate::apply::{begin_apply, begin_spec, ApplyStep, NAME_SUFFIX_BYTES};
use crate::diagnostic::{Diagnostic, ProviderError};
use crate::schema::{provider_schema, provider_schema_spec, ProviderSchema};
use crate::ubicloud::{
    clone_opt_text, opt_text, same_opt_text, Client, ClientView, Credentials, CredentialsView,
};
use crate::util::{
    hex_suffix_spec, wire_bytes_spec, wire_value, DynamicValue, IntoDynamicValue, ResourceState,
    ResourceStateView, UNKNOWN_STRING,
};
use vstd::prelude::*;

verus! {

/// The desired state of one virtual machine, as its owner configured it.
#[derive(Debug)]
pub struct VmResourceConfig {
    pub region: String,
    pub project_id: String,
    pub name: String,
    pub size: String,
    pub image: String,
    pub user: String,
    pub public_key: String,
    pub enable_public_ipv4: Option<bool>,
}

/// A `VmResourceConfig` as specifications see it.
pub struct VmResourceConfigView {
    pub region: Seq<char>,
    pub project_id: Seq<char>,
    pub name: Seq<char>,
    pub size: Seq<char>,
    pub image: Seq<char>,
    pub user: Seq<char>,
    pub public_key: Seq<char>,
    pub enable_public_ipv4: Option<bool>,
}

impl View for VmResourceConfig {
    type V = VmResourceConfigView;

    open spec fn view(&self) -> VmResourceConfigView {
        VmResourceConfigView {
            region: self.region@,
            project_id: self.project_id@,
            name: self.name@,
            size: self.size@,
            image: self.image@,
            user: self.user@,
            public_key: self.public_key@,
            enable_public_ipv4: self.enable_public_ipv4,
        }
    }
}

impl Clone for VmResourceConfig {
    fn clone(&self) -> (copy: Self)
        ensures
            copy@ == self@,
    {
        VmResourceConfig {
            region: self.region.clone(),
            project_id: self.project_id.clone(),
            name: self.name.clone(),
            size: self.size.clone(),
            image: self.image.clone(),
            user: self.user.clone(),
            public_key: self.public_key.clone(),
            enable_public_ipv4: self.enable_public_ipv4,
        }
    }
}

impl PartialEq for VmResourceConfig {
    fn eq(&self, other: &Self) -> (equal: bool) {
        self.region == other.region && self.project_id == other.project_id && self.name
            == other.name && self.size == other.size && self.image == other.image && self.user
            == other.user && self.public_key == other.public_key && self.enable_public_ipv4
            == other.enable_public_ipv4
    }
}

impl vstd::std_specs::cmp::PartialEqSpecImpl for VmResourceConfig {
    open spec fn obeys_eq_spec() -> bool {
        true
    }

    open spec fn eq_spec(&self, other: &Self) -> bool {
        self@ == other@
    }
}

impl Eq for VmResourceConfig {

}

/// The provider's own configuration: the account to log in with.
#[derive(Debug)]
pub struct ProviderConfig {
    email: String,
    password: String,
}

impl ProviderConfig {
    /// The configuration for the given account.
    pub fn new(email: String, password: String) -> (config: Self)
        ensures
            config.email_spec() == email@,
            config.password_spec() == password@,
    {
        ProviderConfig { email, password }
    }

    /// The account's e-mail address.
    pub closed spec fn email_spec(&self) -> Seq<char> {
        self.email@
    }

    /// The account's password.
    pub closed spec fn password_spec(&self) -> Seq<char> {
        self.password@
    }

    /// The account's e-mail address.
    pub fn email(&self) -> (email: &String)
        ensures
            email@ == self.email_spec(),
    {
        &self.email
    }

    /// The account's password.
    pub fn password(&self) -> (password: &String)
        ensures
            password@ == self.password_spec(),
    {
        &self.password
    }
}

/// What is remembered of a machine between two calls: the configuration it
/// was made from, the name it got, and its addresses.
#[derive(Debug)]
pub struct VmResourceState {
    pub config: VmResourceConfig,
    pub vm_name: String,
    pub public_ipv4: Option<String>,
    pub public_ipv6: Option<String>,
}

/// A `VmResourceState` as specifications see it.
pub struct VmResourceStateView {
    pub config: VmResourceConfigView,
    pub vm_name: Seq<char>,
    pub public_ipv4: Option<Seq<char>>,
    pub public_ipv6: Option<Seq<char>>,
}

impl View for VmResourceState {
    type V = VmResourceStateView;

    open spec fn view(&self) -> VmResourceStateView {
        VmResourceStateView {
            config: self.config@,
            vm_name: self.vm_name@,
            public_ipv4: opt_text(self.public_ipv4),
            public_ipv6: opt_text(self.public_ipv6),
        }
    }
}

impl Clone for VmResourceState {
    fn clone(&self) -> (copy: Self)
        ensures
            copy@ == self@,
    {
        VmResourceState {
            config: self.config.clone(),
            vm_name: self.vm_name.clone(),
            public_ipv4: clone_opt_text(&self.public_ipv4),
            public_ipv6: clone_opt_text(&self.public_ipv6),
        }
    }
}

impl PartialEq for VmResourceState {
    fn eq(&self, other: &Self) -> (equal: bool) {
        self.config == other.config && self.vm_name == other.vm_name && same_opt_text(
            &self.public_ipv4,
            &other.public_ipv4,
        ) && same_opt_text(&self.public_ipv6, &other.public_ipv6)
    }
}

impl vstd::std_specs::cmp::PartialEqSpecImpl for VmResourceState {
    open spec fn obeys_eq_spec() -> bool {
        true
    }

    open spec fn eq_spec(&self, other: &Self) -> bool {
        self@ == other@
    }
}

impl Eq for VmResourceState {

}

/// The view of an optional configuration.
pub open spec fn opt_config(config: Option<VmResourceConfig>) -> Option<VmResourceConfigView> {
    match config {
        Some(c) => Some(c@),
        None => None,
    }
}

/// The view of an optional state.
pub open spec fn opt_state(state: Option<VmResourceState>) -> Option<VmResourceStateView> {
    match state {
        Some(s) => Some(s@),
        None => None,
    }
}

/// The attributes that force a replacement when they change: every
/// attribute of the configuration, in the order of its fields.
pub open spec fn requires_replace_spec() -> Seq<Seq<char>> {
    seq![
        "region"@,
        "project_id"@,
        "name"@,
        "size"@,
        "image"@,
        "user"@,
        "public_key"@,
        "enable_public_ipv4"@,
    ]
}

/// The attributes that force a replacement when they change.
pub fn requires_replace() -> (names: Vec<String>)
    ensures
        names.deep_view() == requires_replace_spec(),
{
    let mut names: Vec<String> = Vec::new();
    names.push("region".to_owned());
    names.push("project_id".to_owned());
    names.push("name".to_owned());
    names.push("size".to_owned());
    names.push("image".to_owned());
    names.push("user".to_owned());
    names.push("public_key".to_owned());
    names.push("enable_public_ipv4".to_owned());
    assert(names.deep_view() =~= requires_replace_spec());
    names
}

/// The state that is planned for a new machine: the configuration, with
/// the name and both addresses unknown until apply.
pub open spec fn unknown_state_spec(config: VmResourceConfigView) -> VmResourceStateView {
    VmResourceStateView {
        config,
        vm_name: UNKNOWN_STRING@,
        public_ipv4: Some(UNKNOWN_STRING@),
        public_ipv6: Some(UNKNOWN_STRING@),
    }
}

/// The planned state. Where nothing changed it is the prior state as it
/// stands. Where something changed it is the configuration with the name
/// and both addresses unknown. A plan that lacks the record it is made from
/// fails.
pub open spec fn plan_spec(state: ResourceStateView) -> Result<
    VmResourceStateView,
    ProviderError,
> {
    if !state.did_change {
        match state.prior_state {
            Some(prior) => Ok(prior),
            None => Err(ProviderError::PriorStateMissing),
        }
    } else {
        match state.config {
            Some(config) => Ok(unknown_state_spec(config)),
            None => Err(ProviderError::PriorStateMissing),
        }
    }
}

/// What a plan answers: the planned state, and the attributes that force a
/// replacement.
#[derive(Debug)]
pub struct PlannedChange {
    pub planned_state: VmResourceState,
    pub requires_replace: Vec<String>,
}

/// The provider: the operations that the host calls, around one client of
/// the remote service.
#[derive(Debug)]
pub struct UbicloudProvider {
    pub ubicloud: Client,
}

impl UbicloudProvider {
    /// A provider whose client has no credentials and has not logged in.
    pub fn new() -> (provider: Self)
        ensures
            provider.ubicloud@ == (ClientView { credentials: None, token: None }),
    {
        UbicloudProvider { ubicloud: Client::new(None) }
    }

    /// The schemas of the provider and of its one resource.
    pub fn get_provider_schema(&self) -> (schema: ProviderSchema)
        ensures
            schema@ == provider_schema_spec(),
    {
        provider_schema()
    }

    /// Accepts any provider configuration.
    pub fn validate_provider_config(&self) -> (diagnostics: Vec<Diagnostic>)
        ensures
            diagnostics@.len() == 0,
    {
        Vec::new()
    }

    /// Hands the account of the configuration to the client. Without a
    /// configuration, because none could be decoded, nothing changes.
    pub fn configure_provider(&mut self, config: Option<ProviderConfig>) -> (r: Result<
        (),
        ProviderError,
    >)
        ensures
            (match r {
                Ok(_) => config matches Some(account) && final(self).ubicloud@ == (ClientView {
                    credentials: Some(
                        CredentialsView {
                            email: account.email_spec(),
                            password: account.password_spec(),
                        },
                    ),
                    token: old(self).ubicloud@.token,
                }),
                Err(e) => config is None && e == ProviderError::DeserializeConfiguration
                    && final(self).ubicloud@ == old(self).ubicloud@,
            }),
    {
        match config {
            Some(account) => {
                self.ubicloud.set_credentials(
                    Credentials { email: account.email, password: account.password },
                );
                Ok(())
            },
            None => Err(ProviderError::DeserializeConfiguration),
        }
    }

    /// Accepts any resource configuration.
    pub fn validate_resource_config(&self) -> (diagnostics: Vec<Diagnostic>)
        ensures
            diagnostics@.len() == 0,
    {
        Vec::new()
    }

    /// Accepts any data source configuration.
    pub fn validate_data_resource_config(&self) -> (diagnostics: Vec<Diagnostic>)
        ensures
            diagnostics@.len() == 0,
    {
        Vec::new()
    }

    /// Reads a resource: the new state is the current state as it stands,
    /// without a JSON form.
    pub fn read_resource(&self, current_state: DynamicValue) -> (new_state: DynamicValue)
        ensures
            new_state.msgpack@ == current_state.msgpack@,
            new_state.json@ == Seq::<u8>::empty(),
    {
        current_state.msgpack.into_dynamic_value()
    }

    /// Plans a change: the planned state, and with it every attribute that
    /// forces a replacement, whatever changed.
    pub fn plan_resource_change(&self, state: ResourceState) -> (r: Result<
        PlannedChange,
        ProviderError,
    >)
        ensures
            (match r {
                Ok(change) => plan_spec(state@) == Ok::<VmResourceStateView, ProviderError>(
                    change.planned_state@,
                ) && change.requires_replace.deep_view() == requires_replace_spec(),
                Err(e) => plan_spec(state@) == Err::<VmResourceStateView, ProviderError>(e),
            }),
    {
        let planned_state: VmResourceState = if !state.did_change {
            match state.prior_state {
                Some(prior_state) => prior_state,
                None => {
                    return Err(ProviderError::PriorStateMissing);
                },
            }
        } else {
            match state.config {
                Some(config) => VmResourceState {
                    config,
                    vm_name: UNKNOWN_STRING.to_owned(),
                    public_ipv4: Some(UNKNOWN_STRING.to_owned()),
                    public_ipv6: Some(UNKNOWN_STRING.to_owned()),
                },
                None => {
                    return Err(ProviderError::PriorStateMissing);
                },
            }
        };
        Ok(PlannedChange { planned_state, requires_replace: requires_replace() })
    }

    /// The wire value of a planned state whose structural encoding is
    /// given, where there is one.
    pub fn planned_state_value(&self, record: Option<Vec<u8>>) -> (r: Result<
        DynamicValue,
        ProviderError,
    >)
        ensures
            (match r {
                Ok(value) => wire_bytes_spec(record, ProviderError::SerializePlannedState) == Ok::<
                    Seq<u8>,
                    ProviderError,
                >(value.msgpack@) && value.json@ == Seq::<u8>::empty(),
                Err(e) => wire_bytes_spec(record, ProviderError::SerializePlannedState) is Err && e
                    == ProviderError::SerializePlannedState,
            }),
    {
        wire_value(record, ProviderError::SerializePlannedState)
    }

    /// The wire value of a new state whose structural encoding is given,
    /// where there is one.
    pub fn new_state_value(&self, record: Option<Vec<u8>>) -> (r: Result<
        DynamicValue,
        ProviderError,
    >)
        ensures
            (match r {
                Ok(value) => wire_bytes_spec(record, ProviderError::SerializeNewState) == Ok::<
                    Seq<u8>,
                    ProviderError,
                >(value.msgpack@) && value.json@ == Seq::<u8>::empty(),
                Err(e) => wire_bytes_spec(record, ProviderError::SerializeNewState) is Err && e
                    == ProviderError::SerializeNewState,
            }),
    {
        wire_value(record, ProviderError::SerializeNewState)
    }

    /// Starts an apply: the first step of the state machine that deletes the
    /// machine of the prior state, or creates the machine of the planned
    /// state under a name with a random suffix.
    pub fn apply_resource_change(
        &self,
        state: ResourceState,
        planned_state: Option<VmResourceState>,
    ) -> (step: ApplyStep)
        ensures
            exists|bytes: Seq<u8>|
                bytes.len() == NAME_SUFFIX_BYTES && step@ == begin_spec(
                    state@,
                    opt_state(planned_state),
                    #[trigger] hex_suffix_spec(bytes),
                ),
    {
        begin_apply(state, planned_state)
    }
}

/// A plan for unchanged records is the prior state as it stands; a plan
/// for anything else is the configuration with the name and both addresses
/// unknown.
pub proof fn lemma_plan_table(state: ResourceStateView)
    ensures
        !state.did_change && state.prior_state is Some ==> plan_spec(state) == Ok::<
            VmResourceStateView,
            ProviderError,
        >(state.prior_state->0),
        state.did_change && state.config is Some ==> plan_spec(state) == Ok::<
            VmResourceStateView,
            ProviderError,
        >(unknown_state_spec(state.config->0)),
        !state.did_change && state.prior_state is None ==> plan_spec(state) is Err,
        state.did_change && state.config is None ==> plan_spec(state) is Err,
{
}

} // verus!
