use vstd::prelude::*;
use vstd::utf8::encode_utf8;
use crate::error::ClientError;
use crate::path::RemoteObjectRef;

verus! {

/// The endpoint through which files, folders and download tasks are created.
pub const FILES_URL: &'static str = "https://api-drive.mypikpak.com/drive/v1/files";

/// The captcha scope of a creation call: its method and path.
pub const FILES_CAPTCHA_SCOPE: &'static str = "POST:/drive/v1/files";

/// The captcha scope of a listing or a lookup: its method and path.
pub const FILES_READ_CAPTCHA_SCOPE: &'static str = "GET:/drive/v1/files";

/// The number of entries a listing asks for.
pub const LIST_LIMIT: &'static str = "500";

#[derive(Debug, Clone, Copy, PartialEq, Eq)]
pub enum Method {
    Get,
    Post,
}

/// The JSON body of a request, as plain values.
#[derive(Debug, Clone, PartialEq, Eq)]
pub enum RequestBody {
    Empty,
    /// `{"kind": "drive#folder", "parent_id": .., "name": ..}`
    NewFolder { parent_id: String, name: String },
    /// `{"kind": "drive#file", "parent_id": .., "upload_type": "UPLOAD_TYPE_URL", "url": {"url": ..}}`
    NewUrlTask { parent_id: String, url: String },
}

/// A request described by value, so that a retry or a replay simply builds it again.
#[derive(Debug, Clone, PartialEq, Eq)]
pub struct ApiRequest {
    pub method: Method,
    pub url: String,
    /// An object identifier appended to `url` as one more path segment.
    pub resource: Option<String>,
    /// Query parameters, in order.
    pub query: Vec<(String, String)>,
    /// Method and path that a captcha exchange for this request is scoped to.
    pub captcha_scope: String,
    /// The bearer token, as it stood when the request was built.
    pub bearer: String,
    pub headers: Vec<(String, String)>,
    pub body: RequestBody,
}

/// The kind of the source of a download-by-URL task.
#[derive(Debug, Clone, PartialEq, Eq, Default)]
pub struct Url {
    pub kind: String,
}

/// The session: device identity, tokens and retry budget.
pub struct Client {
    pub device_id: String,
    /// Bearer token; empty until login.
    pub jwt_token: String,
    /// Captcha token; empty until the first refresh.
    pub captcha_token: String,
    /// Extra transport attempts allowed for each request.
    pub retry_times: u8,
}

/// The views of a list of header pairs.
pub open spec fn pair_views(v: Seq<(String, String)>) -> Seq<(Seq<char>, Seq<char>)> {
    v.map_values(|p: (String, String)| (p.0@, p.1@))
}

/// The headers of every creation call: a fixed client profile, the device
/// identifier and the captcha token.
pub open spec fn header_set(device_id: Seq<char>, captcha: Seq<char>) -> Seq<(Seq<char>, Seq<char>)> {
    seq![
        ("Country"@, "CN"@),
        ("X-Peer-Id"@, device_id),
        ("X-User-Region"@, "1"@),
        ("X-Alt-Capability"@, "3"@),
        ("X-Client-Version-Code"@, "10083"@),
        ("X-Captcha-Token"@, captcha),
    ]
}

/// Whether a byte may stand in an HTTP header value: a tab, or a byte of at
/// least 32 other than DEL.
pub open spec fn valid_header_byte(b: u8) -> bool {
    (b >= 32 && b != 127) || b == 9
}

/// Whether every UTF-8 byte of `s` may stand in an HTTP header value.
pub open spec fn valid_header_value(s: Seq<char>) -> bool {
    let bytes = encode_utf8(s);
    forall|i: int| 0 <= i < bytes.len() ==> valid_header_byte(#[trigger] bytes[i])
}

/// Relies on reqwest::header::HeaderValue::from_str, which accepts a string
/// exactly when each of its bytes is a tab, or at least 32 and not 127.
#[verifier::external_body]
fn header_value_ok(s: &str) -> (r: bool)
    ensures
        r == valid_header_value(s@),
{
    reqwest::header::HeaderValue::from_str(s).is_ok()
}

fn push_pair(headers: &mut Vec<(String, String)>, name: &str, value: &str)
    ensures
        pair_views(final(headers)@) == pair_views(old(headers)@).push((name@, value@)),
{
    let ghost before = headers@;
    headers.push((name.to_owned(), value.to_owned()));
    assert(pair_views(headers@) =~= pair_views(before).push((name@, value@)));
}

impl Client {
    /// A session that has not logged in yet.
    pub fn new(device_id: String, retry_times: u8) -> (r: Self)
        ensures
            r.device_id == device_id,
            r.jwt_token@ == Seq::<char>::empty(),
            r.captcha_token@ == Seq::<char>::empty(),
            r.retry_times == retry_times,
    {
        Client { device_id, jwt_token: String::new(), captcha_token: String::new(), retry_times }
    }

    /// Takes the bearer token that a login handed out.
    pub fn set_jwt_token(&mut self, token: String)
        ensures
            final(self).jwt_token == token,
            final(self).device_id == old(self).device_id,
            final(self).captcha_token == old(self).captcha_token,
            final(self).retry_times == old(self).retry_times,
    {
        self.jwt_token = token;
    }

    /// Takes the captcha token that an exchange handed out.
    pub fn set_captcha_token(&mut self, token: String)
        ensures
            final(self).captcha_token == token,
            final(self).device_id == old(self).device_id,
            final(self).jwt_token == old(self).jwt_token,
            final(self).retry_times == old(self).retry_times,
    {
        self.captcha_token = token;
    }

    /// The headers of a creation call, with the tokens as they stand now.
    pub fn headers(&self) -> (r: Result<Vec<(String, String)>, ClientError>)
        ensures
            self.headers_valid() <==> r is Ok,
            r matches Ok(h) ==> pair_views(h@) == header_set(self.device_id@, self.captcha_token@),
            r matches Err(e) ==> e == ClientError::InvalidHeader,
    {
        if !header_value_ok(self.device_id.as_str()) || !header_value_ok(self.captcha_token.as_str()) {
            return Err(ClientError::InvalidHeader);
        }
        let mut h: Vec<(String, String)> = Vec::new();
        assert(pair_views(h@) =~= Seq::<(Seq<char>, Seq<char>)>::empty());
        push_pair(&mut h, "Country", "CN");
        push_pair(&mut h, "X-Peer-Id", self.device_id.as_str());
        push_pair(&mut h, "X-User-Region", "1");
        push_pair(&mut h, "X-Alt-Capability", "3");
        push_pair(&mut h, "X-Client-Version-Code", "10083");
        push_pair(&mut h, "X-Captcha-Token", self.captcha_token.as_str());
        assert(pair_views(h@) =~= header_set(self.device_id@, self.captcha_token@));
        Ok(h)
    }

    /// Whether the device identifier and the captcha token can stand in headers.
    pub open spec fn headers_valid(&self) -> bool {
        valid_header_value(self.device_id@) && valid_header_value(self.captcha_token@)
    }

    /// Whether `r` is a creation call with `body`, built from the session as it stands.
    pub open spec fn is_creation_call(&self, r: ApiRequest, body: RequestBody) -> bool {
        &&& r.method == Method::Post
        &&& r.url@ == FILES_URL@
        &&& r.resource is None
        &&& r.query@.len() == 0
        &&& r.captcha_scope@ == FILES_CAPTCHA_SCOPE@
        &&& r.bearer == self.jwt_token
        &&& pair_views(r.headers@) == header_set(self.device_id@, self.captcha_token@)
        &&& r.body == body
    }

    /// The request that creates folder `name` inside `parent`.
    pub fn new_folder(&self, parent: &RemoteObjectRef, name: &str) -> (res: Result<ApiRequest, ClientError>)
        ensures
            self.headers_valid() <==> res is Ok,
            res matches Err(e) ==> e == ClientError::InvalidHeader,
            res matches Ok(r) ==> {
                &&& r.body matches RequestBody::NewFolder { parent_id, name: n }
                &&& parent_id == parent.id && n@ == name@
                &&& self.is_creation_call(r, r.body)
            },
    {
        let headers = match self.headers() {
            Ok(h) => h,
            Err(e) => return Err(e),
        };
        Ok(ApiRequest {
            method: Method::Post,
            url: FILES_URL.to_owned(),
            resource: None,
            query: Vec::new(),
            captcha_scope: FILES_CAPTCHA_SCOPE.to_owned(),
            bearer: self.jwt_token.clone(),
            headers,
            body: RequestBody::NewFolder { parent_id: parent.get_id().clone(), name: name.to_owned() },
        })
    }

    /// The request that submits a download of `magnet_url` into `parent`.
    pub fn new_magnet(&self, parent: &RemoteObjectRef, magnet_url: &str) -> (res: Result<ApiRequest, ClientError>)
        ensures
            self.headers_valid() <==> res is Ok,
            res matches Err(e) ==> e == ClientError::InvalidHeader,
            res matches Ok(r) ==> {
                &&& r.body matches RequestBody::NewUrlTask { parent_id, url }
                &&& parent_id == parent.id && url@ == magnet_url@
                &&& self.is_creation_call(r, r.body)
            },
    {
        let headers = match self.headers() {
            Ok(h) => h,
            Err(e) => return Err(e),
        };
        Ok(ApiRequest {
            method: Method::Post,
            url: FILES_URL.to_owned(),
            resource: None,
            query: Vec::new(),
            captcha_scope: FILES_CAPTCHA_SCOPE.to_owned(),
            bearer: self.jwt_token.clone(),
            headers,
            body: RequestBody::NewUrlTask { parent_id: parent.get_id().clone(), url: magnet_url.to_owned() },
        })
    }

    /// Whether `r` is a read call, built from the session as it stands.
    pub open spec fn is_read_call(&self, r: ApiRequest) -> bool {
        &&& r.method == Method::Get
        &&& r.url@ == FILES_URL@
        &&& r.captcha_scope@ == FILES_READ_CAPTCHA_SCOPE@
        &&& r.bearer == self.jwt_token
        &&& pair_views(r.headers@) == header_set(self.device_id@, self.captcha_token@)
        &&& r.body == RequestBody::Empty
    }

    /// The request that lists the folder `parent_id`.
    pub fn list_files(&self, parent_id: &str) -> (res: Result<ApiRequest, ClientError>)
        ensures
            self.headers_valid() <==> res is Ok,
            res matches Err(e) ==> e == ClientError::InvalidHeader,
            res matches Ok(r) ==> {
                &&& self.is_read_call(r)
                &&& r.resource is None
                &&& pair_views(r.query@) == seq![("parent_id"@, parent_id@), ("limit"@, LIST_LIMIT@)]
            },
    {
        let headers = match self.headers() {
            Ok(h) => h,
            Err(e) => return Err(e),
        };
        let mut query: Vec<(String, String)> = Vec::new();
        assert(pair_views(query@) =~= Seq::<(Seq<char>, Seq<char>)>::empty());
        push_pair(&mut query, "parent_id", parent_id);
        push_pair(&mut query, "limit", LIST_LIMIT);
        assert(pair_views(query@) =~= seq![("parent_id"@, parent_id@), ("limit"@, LIST_LIMIT@)]);
        Ok(ApiRequest {
            method: Method::Get,
            url: FILES_URL.to_owned(),
            resource: None,
            query,
            captcha_scope: FILES_READ_CAPTCHA_SCOPE.to_owned(),
            bearer: self.jwt_token.clone(),
            headers,
            body: RequestBody::Empty,
        })
    }

    /// The request that fetches the metadata (and download link) of object `id`.
    pub fn get_file(&self, id: &str) -> (res: Result<ApiRequest, ClientError>)
        ensures
            self.headers_valid() <==> res is Ok,
            res matches Err(e) ==> e == ClientError::InvalidHeader,
            res matches Ok(r) ==> {
                &&& self.is_read_call(r)
                &&& r.resource matches Some(x) && x@ == id@
                &&& r.query@.len() == 0
            },
    {
        let headers = match self.headers() {
            Ok(h) => h,
            Err(e) => return Err(e),
        };
        Ok(ApiRequest {
            method: Method::Get,
            url: FILES_URL.to_owned(),
            resource: Some(id.to_owned()),
            query: Vec::new(),
            captcha_scope: FILES_READ_CAPTCHA_SCOPE.to_owned(),
            bearer: self.jwt_token.clone(),
            headers,
            body: RequestBody::Empty,
        })
    }
}

} // verus!
