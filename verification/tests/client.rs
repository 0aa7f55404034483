use terraform_provider_ubicloud::ubicloud::{
    create_vm_response, delete_vm_response, get_vm_response, is_success, list_vm_response, Answer,
    Client, ClientError, Credentials, Method, VmCreateInput, CONTENT_TYPE, UBICLOUD_BASE_URL,
};

fn credentials() -> Credentials {
    Credentials { email: "me@example.com".to_string(), password: "hunter2".to_string() }
}

fn logged_in() -> Client {
    let mut client = Client::new(Some(credentials()));
    client.login_response(200, Some("Bearer abc".to_string())).unwrap();
    client
}

fn input() -> VmCreateInput {
    VmCreateInput {
        name: "web-1a2b3c".to_string(),
        size: "standard-2".to_string(),
        public_key: "ssh-ed25519 AAAA".to_string(),
        user: "ubi".to_string(),
        image: "ubuntu-jammy".to_string(),
        enable_public_ipv4: true,
    }
}

#[test]
fn the_service_has_one_address() {
    assert_eq!(UBICLOUD_BASE_URL, "https://console.ubicloud.com/api");
}

#[test]
fn login_posts_the_account() {
    let client = Client::new(Some(credentials()));
    let request = client.login().unwrap();
    assert_eq!(request.method, Method::Post);
    assert_eq!(
        request.url,
        "https://console.ubicloud.com/api/login?login=me@example.com&password=hunter2"
    );
    assert_eq!(request.content_type, "application/json");
    assert_eq!(request.authorization, None);
    assert!(request.body.is_none());
}

#[test]
fn every_call_declares_json() {
    let client = logged_in();
    let (p, l, n) = ("pj1".to_string(), "fsn1".to_string(), "web".to_string());
    assert_eq!(CONTENT_TYPE, "application/json");
    assert_eq!(client.list_vm(p.clone(), l.clone()).unwrap().content_type, CONTENT_TYPE);
    assert_eq!(client.get_vm(p.clone(), l.clone(), n.clone()).unwrap().content_type, CONTENT_TYPE);
    assert_eq!(client.delete_vm(p.clone(), l.clone(), n).unwrap().content_type, CONTENT_TYPE);
    assert_eq!(client.create_vm(p, l, input()).unwrap().content_type, CONTENT_TYPE);
}

#[test]
fn login_needs_credentials() {
    let client = Client::new(None);
    assert_eq!(client.login().err(), Some(ClientError::CredentialsNotSet));
}

#[test]
fn credentials_can_be_set_later() {
    let mut client = Client::new(None);
    client.set_credentials(credentials());
    assert!(client.login().is_ok());
    client.set_credentials(Credentials { email: "a".to_string(), password: "b".to_string() });
    assert_eq!(
        client.login().unwrap().url,
        "https://console.ubicloud.com/api/login?login=a&password=b"
    );
}

#[test]
fn a_login_brings_the_token() {
    let mut client = Client::new(Some(credentials()));
    assert!(!client.has_token());
    assert_eq!(client.login_response(200, Some("Bearer abc".to_string())), Ok(()));
    assert!(client.has_token());
    let request = client.get_vm("pj1".to_string(), "fsn1".to_string(), "web".to_string()).unwrap();
    assert_eq!(request.authorization.as_deref(), Some("Bearer abc"));
}

#[test]
fn a_refused_login_brings_nothing() {
    let mut client = Client::new(Some(credentials()));
    assert_eq!(
        client.login_response(401, Some("Bearer abc".to_string())),
        Err(ClientError::LoginFailed)
    );
    assert!(!client.has_token());
    assert_eq!(client.login_response(200, None), Err(ClientError::LoginFailed));
    assert!(!client.has_token());
    assert_eq!(client.login_response(500, None), Err(ClientError::LoginFailed));
    assert!(!client.has_token());
}

#[test]
fn a_failed_login_keeps_the_token() {
    let mut client = logged_in();
    assert_eq!(client.login_response(403, None), Err(ClientError::LoginFailed));
    let request = client.list_vm("pj1".to_string(), "fsn1".to_string()).unwrap();
    assert_eq!(request.authorization.as_deref(), Some("Bearer abc"));
}

#[test]
fn new_credentials_keep_the_token() {
    let mut client = logged_in();
    client.set_credentials(Credentials { email: "a".to_string(), password: "b".to_string() });
    assert!(client.has_token());
}

#[test]
fn calls_need_a_token() {
    let client = Client::new(Some(credentials()));
    let (p, l, n) = ("pj1".to_string(), "fsn1".to_string(), "web".to_string());
    assert_eq!(client.list_vm(p.clone(), l.clone()).err(), Some(ClientError::NotLoggedIn));
    assert_eq!(client.get_vm(p.clone(), l.clone(), n.clone()).err(), Some(ClientError::NotLoggedIn));
    assert_eq!(
        client.delete_vm(p.clone(), l.clone(), n.clone()).err(),
        Some(ClientError::NotLoggedIn)
    );
    assert_eq!(client.create_vm(p, l, input()).err(), Some(ClientError::NotLoggedIn));
}

#[test]
fn list_gets_the_machines_of_a_location() {
    let request = logged_in().list_vm("pj1".to_string(), "hetzner-fsn1".to_string()).unwrap();
    assert_eq!(request.method, Method::Get);
    assert_eq!(
        request.url,
        "https://console.ubicloud.com/api/project/pj1/location/hetzner-fsn1/vm"
    );
    assert_eq!(request.authorization.as_deref(), Some("Bearer abc"));
    assert!(request.body.is_none());
}

#[test]
fn get_names_the_machine() {
    let request = logged_in()
        .get_vm("pj1".to_string(), "hetzner-fsn1".to_string(), "web-1a2b3c".to_string())
        .unwrap();
    assert_eq!(request.method, Method::Get);
    assert_eq!(
        request.url,
        "https://console.ubicloud.com/api/project/pj1/location/hetzner-fsn1/vm/web-1a2b3c"
    );
    assert_eq!(request.authorization.as_deref(), Some("Bearer abc"));
    assert!(request.body.is_none());
}

#[test]
fn delete_names_the_machine() {
    let request = logged_in()
        .delete_vm("pj1".to_string(), "hetzner-fsn1".to_string(), "web-1a2b3c".to_string())
        .unwrap();
    assert_eq!(request.method, Method::Delete);
    assert_eq!(
        request.url,
        "https://console.ubicloud.com/api/project/pj1/location/hetzner-fsn1/vm/web-1a2b3c"
    );
    assert_eq!(request.authorization.as_deref(), Some("Bearer abc"));
    assert!(request.body.is_none());
}

#[test]
fn create_posts_the_input() {
    let request =
        logged_in().create_vm("pj1".to_string(), "hetzner-fsn1".to_string(), input()).unwrap();
    assert_eq!(request.method, Method::Post);
    assert_eq!(
        request.url,
        "https://console.ubicloud.com/api/project/pj1/location/hetzner-fsn1/vm"
    );
    assert_eq!(request.authorization.as_deref(), Some("Bearer abc"));
    let body = request.body.unwrap();
    assert_eq!(body.name, "web-1a2b3c");
    assert_eq!(body.size, "standard-2");
    assert_eq!(body.public_key, "ssh-ed25519 AAAA");
    assert_eq!(body.user, "ubi");
    assert_eq!(body.image, "ubuntu-jammy");
    assert!(body.enable_public_ipv4);
}

#[test]
fn success_is_two_hundred_to_two_hundred_ninety_nine() {
    assert!(!is_success(0));
    assert!(!is_success(199));
    assert!(is_success(200));
    assert!(is_success(204));
    assert!(is_success(299));
    assert!(!is_success(300));
    assert!(!is_success(404));
    assert!(!is_success(u16::MAX));
}

#[test]
fn a_fetch_tells_absence_from_failure() {
    assert_eq!(get_vm_response(200), Ok(Answer::Body));
    assert_eq!(get_vm_response(299), Ok(Answer::Body));
    assert_eq!(get_vm_response(404), Ok(Answer::Absent));
    assert_eq!(get_vm_response(403), Err(ClientError::GetVmFailed));
    assert_eq!(get_vm_response(500), Err(ClientError::GetVmFailed));
    assert_eq!(get_vm_response(199), Err(ClientError::GetVmFailed));
    assert_eq!(get_vm_response(300), Err(ClientError::GetVmFailed));
}

#[test]
fn other_calls_fail_on_any_status_but_success() {
    assert_eq!(list_vm_response(200), Ok(()));
    assert_eq!(list_vm_response(404), Err(ClientError::ListVmFailed));
    assert_eq!(delete_vm_response(204), Ok(()));
    assert_eq!(delete_vm_response(404), Err(ClientError::DeleteVmFailed));
    assert_eq!(delete_vm_response(500), Err(ClientError::DeleteVmFailed));
    assert_eq!(create_vm_response(201), Ok(()));
    assert_eq!(create_vm_response(422), Err(ClientError::CreateVmFailed));
    assert_eq!(create_vm_response(300), Err(ClientError::CreateVmFailed));
}

#[test]
fn each_client_error_has_its_message() {
    assert_eq!(ClientError::CredentialsNotSet.message(), "ubicloud credentials not set");
    assert_eq!(ClientError::LoginFailed.message(), "ubicloud login failed");
    assert_eq!(ClientError::NotLoggedIn.message(), "ubicloud token not set");
    assert_eq!(ClientError::ListVmFailed.message(), "ubicloud list vm failed");
    assert_eq!(ClientError::GetVmFailed.message(), "ubicloud get vm failed");
    assert_eq!(ClientError::DeleteVmFailed.message(), "ubicloud delete vm failed");
    assert_eq!(ClientError::CreateVmFailed.message(), "ubicloud create vm failed");
}
