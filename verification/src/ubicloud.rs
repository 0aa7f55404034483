//! The remote service's view of a virtual machine, and what the client
//! sends and keeps.

use vstd::prelude::*;
use vstd::string::*;

verus! {

/// The text of an optional string.
pub open spec fn opt_text(text: Option<String>) -> Option<Seq<char>> {
    match text {
        Some(s) => Some(s@),
        None => None,
    }
}

/// Copies an optional string.
pub fn clone_opt_text(text: &Option<String>) -> (copy: Option<String>)
    ensures
        opt_text(copy) == opt_text(*text),
{
    match text {
        Some(s) => Some(s.clone()),
        None => None,
    }
}

/// Whether two optional strings hold the same text, or both none.
pub fn same_opt_text(a: &Option<String>, b: &Option<String>) -> (same: bool)
    ensures
        same == (opt_text(*a) == opt_text(*b)),
{
    match (a, b) {
        (Some(x), Some(y)) => *x == *y,
        (None, None) => true,
        _ => false,
    }
}

/// Where a machine stands in its life.
#[derive(Clone, Copy, Debug, PartialEq, Eq, Structural)]
pub enum VmState {
    Creating,
    Running,
    Deleting,
}

/// A machine as the remote service reports it.
#[derive(Debug)]
pub struct Vm {
    pub id: String,
    pub name: String,
    pub state: VmState,
    pub location: String,
    pub size: String,
    pub user: String,
    pub ip4: Option<String>,
    pub ip6: Option<String>,
}

/// A `Vm` as specifications see it.
pub struct VmView {
    pub id: Seq<char>,
    pub name: Seq<char>,
    pub state: VmState,
    pub location: Seq<char>,
    pub size: Seq<char>,
    pub user: Seq<char>,
    pub ip4: Option<Seq<char>>,
    pub ip6: Option<Seq<char>>,
}

impl View for Vm {
    type V = VmView;

    open spec fn view(&self) -> VmView {
        VmView {
            id: self.id@,
            name: self.name@,
            state: self.state,
            location: self.location@,
            size: self.size@,
            user: self.user@,
            ip4: opt_text(self.ip4),
            ip6: opt_text(self.ip6),
        }
    }
}

impl Clone for Vm {
    fn clone(&self) -> (copy: Self)
        ensures
            copy@ == self@,
    {
        Vm {
            id: self.id.clone(),
            name: self.name.clone(),
            state: self.state,
            location: self.location.clone(),
            size: self.size.clone(),
            user: self.user.clone(),
            ip4: clone_opt_text(&self.ip4),
            ip6: clone_opt_text(&self.ip6),
        }
    }
}

/// What the remote service is asked to create.
#[derive(Debug)]
pub struct VmCreateInput {
    pub name: String,
    pub size: String,
    pub public_key: String,
    pub user: String,
    pub image: String,
    pub enable_public_ipv4: bool,
}

/// A `VmCreateInput` as specifications see it.
pub struct VmCreateInputView {
    pub name: Seq<char>,
    pub size: Seq<char>,
    pub public_key: Seq<char>,
    pub user: Seq<char>,
    pub image: Seq<char>,
    pub enable_public_ipv4: bool,
}

impl View for VmCreateInput {
    type V = VmCreateInputView;

    open spec fn view(&self) -> VmCreateInputView {
        VmCreateInputView {
            name: self.name@,
            size: self.size@,
            public_key: self.public_key@,
            user: self.user@,
            image: self.image@,
            enable_public_ipv4: self.enable_public_ipv4,
        }
    }
}

impl Clone for VmCreateInput {
    fn clone(&self) -> (copy: Self)
        ensures
            copy@ == self@,
    {
        VmCreateInput {
            name: self.name.clone(),
            size: self.size.clone(),
            public_key: self.public_key.clone(),
            user: self.user.clone(),
            image: self.image.clone(),
            enable_public_ipv4: self.enable_public_ipv4,
        }
    }
}

/// The account that the client logs in with.
#[derive(Debug)]
pub struct Credentials {
    pub email: String,
    pub password: String,
}

/// `Credentials` as specifications see them.
pub struct CredentialsView {
    pub email: Seq<char>,
    pub password: Seq<char>,
}

impl View for Credentials {
    type V = CredentialsView;

    open spec fn view(&self) -> CredentialsView {
        CredentialsView { email: self.email@, password: self.password@ }
    }
}

impl Clone for Credentials {
    fn clone(&self) -> (copy: Self)
        ensures
            copy@ == self@,
    {
        Credentials { email: self.email.clone(), password: self.password.clone() }
    }
}

/// The view of optional credentials.
pub open spec fn opt_credentials(credentials: Option<Credentials>) -> Option<CredentialsView> {
    match credentials {
        Some(c) => Some(c@),
        None => None,
    }
}

/// Where the remote service listens.
pub const UBICLOUD_BASE_URL: &'static str = "https://console.ubicloud.com/api";

/// The verb of a request.
#[derive(Clone, Copy, Debug, PartialEq, Eq, Structural)]
pub enum Method {
    Get,
    Post,
    Delete,
}

/// The content type that every request declares.
pub const CONTENT_TYPE: &'static str = "application/json";

/// A request to the remote service: the verb, the address, the headers for
/// the content type and, where given, the authorization, and the body,
/// where given, to be sent as JSON.
#[derive(Debug)]
pub struct Request {
    pub method: Method,
    pub url: String,
    pub content_type: String,
    pub authorization: Option<String>,
    pub body: Option<VmCreateInput>,
}

/// A `Request` as specifications see it.
pub struct RequestView {
    pub method: Method,
    pub url: Seq<char>,
    pub content_type: Seq<char>,
    pub authorization: Option<Seq<char>>,
    pub body: Option<VmCreateInputView>,
}

impl View for Request {
    type V = RequestView;

    open spec fn view(&self) -> RequestView {
        RequestView {
            method: self.method,
            url: self.url@,
            content_type: self.content_type@,
            authorization: opt_text(self.authorization),
            body: match self.body {
                Some(input) => Some(input@),
                None => None,
            },
        }
    }
}

/// Why the client gave up on a call.
#[derive(Clone, Copy, Debug, PartialEq, Eq, Structural)]
pub enum ClientError {
    /// There are no credentials to log in with.
    CredentialsNotSet,
    /// The login was refused, or its answer held no token.
    LoginFailed,
    /// The call needs a token, and the client has not logged in.
    NotLoggedIn,
    /// The list of machines was refused.
    ListVmFailed,
    /// The fetch of a machine was refused.
    GetVmFailed,
    /// The deletion of a machine was refused.
    DeleteVmFailed,
    /// The creation of a machine was refused.
    CreateVmFailed,
}

impl ClientError {
    /// The message of the error.
    pub open spec fn message_spec(self) -> Seq<char> {
        match self {
            ClientError::CredentialsNotSet => "ubicloud credentials not set"@,
            ClientError::LoginFailed => "ubicloud login failed"@,
            ClientError::NotLoggedIn => "ubicloud token not set"@,
            ClientError::ListVmFailed => "ubicloud list vm failed"@,
            ClientError::GetVmFailed => "ubicloud get vm failed"@,
            ClientError::DeleteVmFailed => "ubicloud delete vm failed"@,
            ClientError::CreateVmFailed => "ubicloud create vm failed"@,
        }
    }

    /// The message of the error.
    pub fn message(&self) -> (text: String)
        ensures
            text@ == self.message_spec(),
    {
        match self {
            ClientError::CredentialsNotSet => "ubicloud credentials not set".to_owned(),
            ClientError::LoginFailed => "ubicloud login failed".to_owned(),
            ClientError::NotLoggedIn => "ubicloud token not set".to_owned(),
            ClientError::ListVmFailed => "ubicloud list vm failed".to_owned(),
            ClientError::GetVmFailed => "ubicloud get vm failed".to_owned(),
            ClientError::DeleteVmFailed => "ubicloud delete vm failed".to_owned(),
            ClientError::CreateVmFailed => "ubicloud create vm failed".to_owned(),
        }
    }
}

/// Whether a status code reports success: 200 to 299.
pub open spec fn is_success_spec(status: u16) -> bool {
    200 <= status <= 299
}

/// Whether a status code reports success.
pub fn is_success(status: u16) -> (success: bool)
    ensures
        success == is_success_spec(status),
{
    200 <= status && status <= 299
}

/// The address of the login call for an account.
pub open spec fn login_url_spec(credentials: CredentialsView) -> Seq<char> {
    UBICLOUD_BASE_URL@ + "/login?login="@ + credentials.email + "&password="@
        + credentials.password
}

/// The address of the machines of a project at a location.
pub open spec fn vms_url_spec(project_id: Seq<char>, location: Seq<char>) -> Seq<char> {
    UBICLOUD_BASE_URL@ + "/project/"@ + project_id + "/location/"@ + location + "/vm"@
}

/// The address of one machine.
pub open spec fn vm_url_spec(project_id: Seq<char>, location: Seq<char>, name: Seq<char>) -> Seq<
    char,
> {
    vms_url_spec(project_id, location) + "/"@ + name
}

/// The address of the machines of a project at a location.
fn vms_url(project_id: &String, location: &String) -> (url: String)
    ensures
        url@ == vms_url_spec(project_id@, location@),
{
    let mut url: String = UBICLOUD_BASE_URL.to_owned();
    url.append("/project/");
    url.append(project_id.as_str());
    url.append("/location/");
    url.append(location.as_str());
    url.append("/vm");
    url
}

/// The address of one machine.
fn vm_url(project_id: &String, location: &String, name: &String) -> (url: String)
    ensures
        url@ == vm_url_spec(project_id@, location@, name@),
{
    let mut url: String = vms_url(project_id, location);
    url.append("/");
    url.append(name.as_str());
    url
}

/// The client of the remote service: what it knows of the account, and the
/// token that a login brought.
#[derive(Debug)]
pub struct Client {
    credentials: Option<Credentials>,
    token: Option<String>,
}

/// A `Client` as specifications see it.
pub struct ClientView {
    pub credentials: Option<CredentialsView>,
    pub token: Option<Seq<char>>,
}

impl View for Client {
    type V = ClientView;

    closed spec fn view(&self) -> ClientView {
        ClientView { credentials: opt_credentials(self.credentials), token: opt_text(self.token) }
    }
}

/// The request of a call that needs a token: with the token as its
/// authorization where the client has one.
pub open spec fn authorized_spec(
    client: ClientView,
    method: Method,
    url: Seq<char>,
    body: Option<VmCreateInputView>,
) -> Result<RequestView, ClientError> {
    match client.token {
        Some(token) => Ok(
            RequestView {
                method,
                url,
                content_type: CONTENT_TYPE@,
                authorization: Some(token),
                body,
            },
        ),
        None => Err(ClientError::NotLoggedIn),
    }
}

impl Client {
    /// A client that has not logged in.
    pub fn new(credentials: Option<Credentials>) -> (client: Self)
        ensures
            client@ == (ClientView { credentials: opt_credentials(credentials), token: None }),
    {
        Client { credentials, token: None }
    }

    /// Replaces the credentials. A token that the client holds stays.
    pub fn set_credentials(&mut self, creds: Credentials)
        ensures
            final(self)@ == (ClientView { credentials: Some(creds@), token: old(self)@.token }),
    {
        self.credentials = Some(creds);
    }

    /// Whether the client holds a token. Where it does not, it has to log in
    /// before any other call.
    pub fn has_token(&self) -> (has: bool)
        ensures
            has == (self@.token is Some),
    {
        self.token.is_some()
    }

    /// The login call: a POST with the account in the query.
    pub fn login(&self) -> (r: Result<Request, ClientError>)
        ensures
            (match r {
                Ok(request) => self@.credentials matches Some(credentials) && request@ == (
                RequestView {
                    method: Method::Post,
                    url: login_url_spec(credentials),
                    content_type: CONTENT_TYPE@,
                    authorization: None,
                    body: None,
                }),
                Err(e) => self@.credentials is None && e == ClientError::CredentialsNotSet,
            }),
    {
        match &self.credentials {
            Some(credentials) => {
                let mut url: String = UBICLOUD_BASE_URL.to_owned();
                url.append("/login?login=");
                url.append(credentials.email.as_str());
                url.append("&password=");
                url.append(credentials.password.as_str());
                Ok(
                    Request {
                        method: Method::Post,
                        url,
                        content_type: CONTENT_TYPE.to_owned(),
                        authorization: None,
                        body: None,
                    },
                )
            },
            None => Err(ClientError::CredentialsNotSet),
        }
    }

    /// Takes the answer to the login call. The login succeeded where the
    /// status reports success and the answer holds an authorization header:
    /// that header is the token from then on. Otherwise nothing changes.
    pub fn login_response(&mut self, status: u16, authorization: Option<String>) -> (r: Result<
        (),
        ClientError,
    >)
        ensures
            (match r {
                Ok(_) => is_success_spec(status) && authorization is Some && final(self)@ == (
                ClientView { credentials: old(self)@.credentials, token: opt_text(authorization) }),
                Err(e) => !(is_success_spec(status) && authorization is Some) && e
                    == ClientError::LoginFailed && final(self)@ == old(self)@,
            }),
    {
        if !is_success(status) {
            return Err(ClientError::LoginFailed);
        }
        match authorization {
            Some(token) => {
                self.token = Some(token);
                Ok(())
            },
            None => Err(ClientError::LoginFailed),
        }
    }

    /// A request with the client's token as its authorization.
    fn authorized(&self, method: Method, url: String, body: Option<VmCreateInput>) -> (r: Result<
        Request,
        ClientError,
    >)
        ensures
            (match r {
                Ok(request) => authorized_spec(
                    self@,
                    method,
                    url@,
                    match body {
                        Some(input) => Some(input@),
                        None => None,
                    },
                ) == Ok::<RequestView, ClientError>(request@),
                Err(e) => self@.token is None && e == ClientError::NotLoggedIn,
            }),
    {
        match &self.token {
            Some(token) => Ok(
                Request {
                    method,
                    url,
                    content_type: CONTENT_TYPE.to_owned(),
                    authorization: Some(token.clone()),
                    body,
                },
            ),
            None => Err(ClientError::NotLoggedIn),
        }
    }

    /// The call that lists the machines of a project at a location.
    pub fn list_vm(&self, project_id: String, location: String) -> (r: Result<
        Request,
        ClientError,
    >)
        ensures
            (match r {
                Ok(request) => authorized_spec(
                    self@,
                    Method::Get,
                    vms_url_spec(project_id@, location@),
                    None,
                ) == Ok::<RequestView, ClientError>(request@),
                Err(e) => self@.token is None && e == ClientError::NotLoggedIn,
            }),
    {
        self.authorized(Method::Get, vms_url(&project_id, &location), None)
    }

    /// The call that fetches one machine.
    pub fn get_vm(&self, project_id: String, location: String, name: String) -> (r: Result<
        Request,
        ClientError,
    >)
        ensures
            (match r {
                Ok(request) => authorized_spec(
                    self@,
                    Method::Get,
                    vm_url_spec(project_id@, location@, name@),
                    None,
                ) == Ok::<RequestView, ClientError>(request@),
                Err(e) => self@.token is None && e == ClientError::NotLoggedIn,
            }),
    {
        self.authorized(Method::Get, vm_url(&project_id, &location, &name), None)
    }

    /// The call that deletes one machine.
    pub fn delete_vm(&self, project_id: String, location: String, name: String) -> (r: Result<
        Request,
        ClientError,
    >)
        ensures
            (match r {
                Ok(request) => authorized_spec(
                    self@,
                    Method::Delete,
                    vm_url_spec(project_id@, location@, name@),
                    None,
                ) == Ok::<RequestView, ClientError>(request@),
                Err(e) => self@.token is None && e == ClientError::NotLoggedIn,
            }),
    {
        self.authorized(Method::Delete, vm_url(&project_id, &location, &name), None)
    }

    /// The call that creates a machine: a POST of the input to the machines
    /// of the project at the location.
    pub fn create_vm(&self, project_id: String, location: String, input: VmCreateInput) -> (r:
        Result<Request, ClientError>)
        ensures
            (match r {
                Ok(request) => authorized_spec(
                    self@,
                    Method::Post,
                    vms_url_spec(project_id@, location@),
                    Some(input@),
                ) == Ok::<RequestView, ClientError>(request@),
                Err(e) => self@.token is None && e == ClientError::NotLoggedIn,
            }),
    {
        self.authorized(Method::Post, vms_url(&project_id, &location), Some(input))
    }
}

/// What the status of an answer says of the call.
#[derive(Clone, Copy, Debug, PartialEq, Eq, Structural)]
pub enum Answer {
    /// The call succeeded; the body holds what was asked for.
    Body,
    /// There is no such machine.
    Absent,
}

/// The answer to a fetch: 404 says that the machine is absent, any other
/// status but success is a failure.
pub fn get_vm_response(status: u16) -> (r: Result<Answer, ClientError>)
    ensures
        r == (if status == 404 {
            Ok::<Answer, ClientError>(Answer::Absent)
        } else if is_success_spec(status) {
            Ok::<Answer, ClientError>(Answer::Body)
        } else {
            Err::<Answer, ClientError>(ClientError::GetVmFailed)
        }),
{
    if status == 404 {
        return Ok(Answer::Absent);
    }
    if !is_success(status) {
        return Err(ClientError::GetVmFailed);
    }
    Ok(Answer::Body)
}

/// The answer to a list call: any status but success is a failure.
pub fn list_vm_response(status: u16) -> (r: Result<(), ClientError>)
    ensures
        r == (if is_success_spec(status) {
            Ok::<(), ClientError>(())
        } else {
            Err::<(), ClientError>(ClientError::ListVmFailed)
        }),
{
    if is_success(status) {
        Ok(())
    } else {
        Err(ClientError::ListVmFailed)
    }
}

/// The answer to a delete call: any status but success is a failure.
pub fn delete_vm_response(status: u16) -> (r: Result<(), ClientError>)
    ensures
        r == (if is_success_spec(status) {
            Ok::<(), ClientError>(())
        } else {
            Err::<(), ClientError>(ClientError::DeleteVmFailed)
        }),
{
    if is_success(status) {
        Ok(())
    } else {
        Err(ClientError::DeleteVmFailed)
    }
}

/// The answer to a create call: any status but success is a failure.
pub fn create_vm_response(status: u16) -> (r: Result<(), ClientError>)
    ensures
        r == (if is_success_spec(status) {
            Ok::<(), ClientError>(())
        } else {
            Err::<(), ClientError>(ClientError::CreateVmFailed)
        }),
{
    if is_success(status) {
        Ok(())
    } else {
        Err(ClientError::CreateVmFailed)
    }
}

} // verus!
