use vstd::prelude::*;

verus! {

broadcast use vstd::string::group_string_axioms;

/// The business outcome carried in every response envelope.
#[derive(Debug, Clone, Copy, PartialEq, Eq, Structural)]
pub enum BizCode {
    Success,
    BadRequest,
    Unauthorized,
    Forbidden,
    NotFound,
    ServerError,
}

/// The numeric business code of each outcome.
pub open spec fn biz_code_value(c: BizCode) -> u16 {
    match c {
        BizCode::Success => 200,
        BizCode::BadRequest => 400,
        BizCode::Unauthorized => 401,
        BizCode::Forbidden => 403,
        BizCode::NotFound => 404,
        BizCode::ServerError => 500,
    }
}

/// The default human-readable message of each outcome.
pub open spec fn biz_message(c: BizCode) -> Seq<char> {
    match c {
        BizCode::Success => "操作成功"@,
        BizCode::BadRequest => "请求参数错误"@,
        BizCode::Unauthorized => "未授权访问"@,
        BizCode::Forbidden => "禁止访问"@,
        BizCode::NotFound => "资源不存在"@,
        BizCode::ServerError => "服务器内部错误"@,
    }
}

/// The transport-level (HTTP) status that accompanies each outcome.
pub open spec fn http_status_of(c: BizCode) -> u16 {
    match c {
        BizCode::Success => 200,
        BizCode::BadRequest => 400,
        BizCode::Unauthorized => 401,
        BizCode::Forbidden => 403,
        BizCode::NotFound => 404,
        BizCode::ServerError => 500,
    }
}

impl BizCode {
    pub fn code(&self) -> (r: u16)
        ensures
            r == biz_code_value(*self),
    {
        match self {
            BizCode::Success => 200,
            BizCode::BadRequest => 400,
            BizCode::Unauthorized => 401,
            BizCode::Forbidden => 403,
            BizCode::NotFound => 404,
            BizCode::ServerError => 500,
        }
    }

    pub fn message(&self) -> (r: &'static str)
        ensures
            r@ == biz_message(*self),
    {
        match self {
            BizCode::Success => "操作成功",
            BizCode::BadRequest => "请求参数错误",
            BizCode::Unauthorized => "未授权访问",
            BizCode::Forbidden => "禁止访问",
            BizCode::NotFound => "资源不存在",
            BizCode::ServerError => "服务器内部错误",
        }
    }

    /// The HTTP status class of this outcome, as its numeric status.
    pub fn status_code(&self) -> (r: u16)
        ensures
            r == http_status_of(*self),
    {
        match self {
            BizCode::Success => 200,
            BizCode::BadRequest => 400,
            BizCode::Unauthorized => 401,
            BizCode::Forbidden => 403,
            BizCode::NotFound => 404,
            BizCode::ServerError => 500,
        }
    }
}

/// The message an envelope carries: the one given, else the outcome's default.
pub open spec fn envelope_message(code: BizCode, msg: Option<&str>) -> Seq<char> {
    match msg {
        Some(m) => m@,
        None => biz_message(code),
    }
}

/// Uniform success/error envelope: business code, message, optional payload,
/// and the HTTP status that goes with the business code.
pub struct ApiResponse<T> {
    pub code: u16,
    pub msg: String,
    pub data: Option<T>,
    pub status_code: u16,
}

impl<T> ApiResponse<T> {
    pub fn new(code: BizCode, msg: Option<&str>, data: Option<T>) -> (r: Self)
        ensures
            r.code == biz_code_value(code),
            r.msg@ == envelope_message(code, msg),
            r.data == data,
            r.status_code == http_status_of(code),
    {
        let message = match msg {
            Some(m) => m.to_string(),
            None => code.message().to_string(),
        };
        ApiResponse { code: code.code(), msg: message, data, status_code: code.status_code() }
    }

    pub fn success(data: T) -> (r: Self)
        ensures
            r.code == 200,
            r.msg@ == biz_message(BizCode::Success),
            r.data == Some(data),
            r.status_code == 200,
    {
        Self::new(BizCode::Success, None, Some(data))
    }

    pub fn success_empty() -> (r: Self)
        ensures
            r.code == 200,
            r.msg@ == biz_message(BizCode::Success),
            r.data.is_none(),
            r.status_code == 200,
    {
        Self::new(BizCode::Success, None, None)
    }

    pub fn success_with_msg(data: T, msg: &str) -> (r: Self)
        ensures
            r.code == 200,
            r.msg@ == msg@,
            r.data == Some(data),
            r.status_code == 200,
    {
        Self::new(BizCode::Success, Some(msg), Some(data))
    }

    /// An error envelope without payload; `None` keeps the outcome's default message.
    pub fn error(code: BizCode, msg: Option<&str>) -> (r: Self)
        ensures
            r.code == biz_code_value(code),
            r.msg@ == envelope_message(code, msg),
            r.data.is_none(),
            r.status_code == http_status_of(code),
    {
        Self::new(code, msg, None)
    }

    pub fn with_msg(self, msg: &str) -> (r: Self)
        ensures
            r.code == self.code,
            r.msg@ == msg@,
            r.data == self.data,
            r.status_code == self.status_code,
    {
        let mut r = self;
        r.msg = msg.to_string();
        r
    }

    pub fn with_data(self, data: T) -> (r: Self)
        ensures
            r.code == self.code,
            r.msg == self.msg,
            r.data == Some(data),
            r.status_code == self.status_code,
    {
        let mut r = self;
        r.data = Some(data);
        r
    }
}

} // verus!
