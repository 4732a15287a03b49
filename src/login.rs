use vstd::prelude::*;
use crate::model::{LoginForm, LoginResponse, User};
use crate::response::{biz_message, ApiResponse, BizCode};
use crate::session::{is_token, SessionStore};
use crate::store::StoreError;

verus! {

broadcast use vstd::string::group_string_axioms;

/// The message of a refused login.
pub open spec fn login_failed_message() -> Seq<char> {
    "登录失败"@
}

/// Whether the user record read for `username` accepts `pwd_hash`: the record
/// was found, is that user's, and holds exactly that hash.
pub open spec fn credentials_accepted(
    record: Result<User, StoreError>,
    username: Seq<char>,
    pwd_hash: Seq<char>,
) -> bool {
    match record {
        Ok(u) => u.username@ == username && u.pwd_hash@ == pwd_hash,
        Err(_) => false,
    }
}

/// Checks submitted credentials against the record read for `user_name`.
pub fn verify_pwd_hash(user_name: &str, pw_hash: &str, record: &Result<User, StoreError>) -> (r:
    bool)
    ensures
        r == credentials_accepted(*record, user_name@, pw_hash@),
{
    match record {
        Ok(u) => u.username == user_name.to_string() && u.pwd_hash == pw_hash.to_string(),
        Err(_) => false,
    }
}

/// Logs in with `form`, given the user record read for `form.username`.
/// Accepted credentials open a session for that username and return its
/// token; any other outcome is an unauthorized refusal that opens none.
pub fn login(sessions: &mut SessionStore, form: &LoginForm, record: &Result<User, StoreError>) -> (r:
    ApiResponse<LoginResponse>)
    ensures
        credentials_accepted(*record, form.username@, form.password@) ==> {
            &&& r.code == 200
            &&& r.status_code == 200
            &&& r.msg@ == biz_message(BizCode::Success)
            &&& r.data is Some
            &&& is_token(r.data->Some_0.token@)
            &&& final(sessions)@ == old(sessions)@.insert(r.data->Some_0.token@, form.username@)
        },
        !credentials_accepted(*record, form.username@, form.password@) ==> {
            &&& r.code == 401
            &&& r.status_code == 401
            &&& r.msg@ == login_failed_message()
            &&& r.data is None
            &&& final(sessions)@ == old(sessions)@
        },
{
    if verify_pwd_hash(form.username.as_str(), form.password.as_str(), record) {
        let token = sessions.add_session(form.username.as_str());
        ApiResponse::success(LoginResponse { token })
    } else {
        ApiResponse::error(BizCode::Unauthorized, Some("登录失败"))
    }
}

} // verus!
