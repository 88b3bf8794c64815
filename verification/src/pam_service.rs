//! The PAM service that authenticates a user for the application, and what it is asked.

use vstd::prelude::*;
use vstd::string::*;
use crate::outside::to_lowercase;

verus! {

/// The file that configures the PAM service with the given name.
pub open spec fn service_file_of(service: Seq<char>) -> Seq<char> {
    "/etc/pam.d/"@ + service
}

/// The PAM service of an application with the given name in lower case: its own where that is
/// configured, else that of GDM.
pub open spec fn service_of(app: Seq<char>, is_file: bool) -> Seq<char> {
    if is_file {
        app
    } else {
        "gdm"@
    }
}

/// The file that configures the PAM service with the given name.
pub fn pam_service_file(service: &str) -> (r: String)
    ensures
        r@ == service_file_of(service@),
{
    let mut r = "/etc/pam.d/".to_owned();
    r.append(service);
    r
}

/// The PAM service of an application with the given name in lower case, given whether the file
/// that configures it is there.
pub fn pam_get_service_name(app: &str, is_file: bool) -> (r: String)
    ensures
        r@ == service_of(app@, is_file),
{
    if is_file {
        app.to_owned()
    } else {
        "gdm".to_owned()
    }
}

/// What a user is authenticated by.
pub struct Credentials {
    /// The user's name.
    pub username: String,
    /// The user's password.
    pub password: String,
}

/// What a user is authenticated by, over plain sequences.
pub struct CredentialsView {
    pub username: Seq<char>,
    pub password: Seq<char>,
}

impl View for Credentials {
    type V = CredentialsView;

    open spec fn view(&self) -> CredentialsView {
        CredentialsView { username: self.username@, password: self.password@ }
    }
}

impl Credentials {
    /// A copy of the credentials.
    pub fn copy(&self) -> (r: Credentials)
        ensures
            r@ == self@,
    {
        Credentials { username: self.username.clone(), password: self.password.clone() }
    }
}

/// A request to authenticate a user for an application.
pub struct LoginRequest {
    /// The name of the application in lower case.
    pub app: String,
    /// What the user is authenticated by.
    pub who: Credentials,
}

/// A request to authenticate a user for an application, over plain sequences.
pub struct LoginRequestView {
    pub app: Seq<char>,
    pub who: CredentialsView,
}

impl View for LoginRequest {
    type V = LoginRequestView;

    open spec fn view(&self) -> LoginRequestView {
        LoginRequestView { app: self.app@, who: self.who@ }
    }
}

impl LoginRequest {
    /// A request to authenticate a user for the application with the given name.
    pub fn new(app_name: &str, username: &str, password: &str) -> (r: LoginRequest)
        ensures
            r@ == (LoginRequestView {
                app: crate::outside::lowercase_of(app_name@),
                who: CredentialsView { username: username@, password: password@ },
            }),
    {
        LoginRequest {
            app: to_lowercase(app_name),
            who: Credentials { username: username.to_owned(), password: password.to_owned() },
        }
    }

    /// A copy of the request.
    pub fn copy(&self) -> (r: LoginRequest)
        ensures
            r@ == self@,
    {
        LoginRequest { app: self.app.clone(), who: self.who.copy() }
    }
}

/// A request, and what is copied of it, holds the name of the application in lower case, and the
/// user's name and password as they were given.
pub proof fn law_request_is_kept(app_name: &str, username: &str, password: &str, r: LoginRequest)
    requires
        call_ensures(LoginRequest::new, (app_name, username, password), r),
    ensures
        r.app@ == crate::outside::lowercase_of(app_name@),
        r.who.username@ == username@,
        r.who.password@ == password@,
        forall|s: LoginRequest| #[trigger] s@ == r@ ==> s.app@ == r.app@ && s.who.username@
            == username@ && s.who.password@ == password@,
        forall|s: Credentials| #[trigger] s@ == r.who@ ==> s.username@ == username@ && s.password@
            == password@,
{
}

/// Copies hold what was copied, and the PAM service and its file are told by name.
pub proof fn law_copies_and_names(
    req: LoginRequest,
    req_copy: LoginRequest,
    who: Credentials,
    who_copy: Credentials,
    service: &str,
    file: String,
    app: &str,
    is_file: bool,
    name: String,
)
    requires
        call_ensures(LoginRequest::copy, (&req,), req_copy),
        call_ensures(Credentials::copy, (&who,), who_copy),
        call_ensures(pam_service_file, (service,), file),
        call_ensures(pam_get_service_name, (app, is_file), name),
    ensures
        req_copy.app@ == req.app@,
        req_copy.who.username@ == req.who.username@ && req_copy.who.password@ == req.who.password@,
        who_copy.username@ == who.username@ && who_copy.password@ == who.password@,
        file@ == "/etc/pam.d/"@ + service@,
        name@ == if is_file { app@ } else { "gdm"@ },
{
}

} // verus!
