use vstd::prelude::*;

use crate::error::MyError;
use crate::jsontext::{bool_json, bool_json_exec, json_escape, json_escaped};
use crate::strutil::{dec_digits, dec_int, i64_to_string, u64_to_string};
use vstd::string::StringExecFns;

verus! {

/// The HTTP method of a panel request.
#[derive(Clone, Copy, PartialEq, Eq, Structural, Debug)]
pub enum HttpMethod {
    Get,
    Post,
}

/// A fully decided panel request, for the transport layer to perform: the
/// method and URL, the session cookie to attach when there is one, and the
/// body — form fields or JSON text — when the request carries one.
pub struct HttpRequest {
    pub method: HttpMethod,
    pub url: String,
    pub cookie: Option<String>,
    pub form: Option<Vec<(String, String)>>,
    pub json_body: Option<String>,
}

/// One client entry of the panel's inbound settings document: the record the
/// bot submits when enrolling a device.
pub struct ClientRecord {
    pub id: String,
    pub email: String,
    pub comment: String,
    pub flow: String,
    pub enable: bool,
    pub tg_id: i64,
    pub sub_id: String,
}

/// Builds the client record for one enrollment step: the given identifier also
/// serves as the subscription lookup key, the flow is the panel's fixed
/// protocol parameter, and the record is enabled from the start.
pub fn client_record(id: String, email: String, comment: String, tg_id: i64) -> (r: ClientRecord)
    ensures
        r.id@ == id@,
        r.email@ == email@,
        r.comment@ == comment@,
        r.flow@ == "xtls-rprx-vision"@,
        r.enable,
        r.tg_id == tg_id,
        r.sub_id@ == email@,
{
    let sub_id = email.clone();
    ClientRecord {
        id,
        email,
        comment,
        flow: "xtls-rprx-vision".to_owned(),
        enable: true,
        tg_id,
        sub_id,
    }
}

/// The inbound settings document that wraps one client record: a `clients`
/// array of one object with the record's fields.
pub open spec fn client_settings_json_spec(c: ClientRecord) -> Seq<char> {
    "{\"clients\":[{\"id\":\""@ + json_escaped(c.id@) + "\",\"email\":\""@ + json_escaped(c.email@)
        + "\",\"comment\":\""@ + json_escaped(c.comment@) + "\",\"flow\":\""@ + json_escaped(
        c.flow@,
    ) + "\",\"enable\":"@ + bool_json(c.enable) + ",\"tgId\":"@ + dec_int(c.tg_id as int)
        + ",\"subId\":\""@ + json_escaped(c.sub_id@) + "\"}]}"@
}

/// Writes the inbound settings document for one client record.
pub fn client_settings_json(c: &ClientRecord) -> (r: String)
    ensures
        r@ == client_settings_json_spec(*c),
{
    let mut r = "{\"clients\":[{\"id\":\"".to_owned();
    let id = json_escape(c.id.as_str());
    r.append(id.as_str());
    r.append("\",\"email\":\"");
    let email = json_escape(c.email.as_str());
    r.append(email.as_str());
    r.append("\",\"comment\":\"");
    let comment = json_escape(c.comment.as_str());
    r.append(comment.as_str());
    r.append("\",\"flow\":\"");
    let flow = json_escape(c.flow.as_str());
    r.append(flow.as_str());
    r.append("\",\"enable\":");
    r.append(bool_json_exec(c.enable));
    r.append(",\"tgId\":");
    let tg = i64_to_string(c.tg_id);
    r.append(tg.as_str());
    r.append(",\"subId\":\"");
    let sub = json_escape(c.sub_id.as_str());
    r.append(sub.as_str());
    r.append("\"}]}");
    assert(r@ =~= client_settings_json_spec(*c));
    r
}

/// The panel's add-client payload: the inbound id and the settings document
/// embedded as a JSON string — the wire format's double encoding.
pub open spec fn add_client_payload_spec(inbound_id: u32, settings: Seq<char>) -> Seq<char> {
    "{\"id\":"@ + dec_digits(inbound_id as nat) + ",\"settings\":\""@ + json_escaped(settings)
        + "\"}"@
}

/// Copies an optional string.
fn clone_opt_string(o: &Option<String>) -> (r: Option<String>)
    ensures
        r.deep_view() == o.deep_view(),
{
    match o {
        Some(s) => Some(s.clone()),
        None => None,
    }
}

/// The stateful panel client: the panel's base URL and the session cookie the
/// last successful login left, which every later request attaches.
pub struct ThreeXUiClient {
    pub base_url: String,
    pub session_cookie: Option<String>,
}

impl ThreeXUiClient {
    /// A fresh client for the given panel, not yet authenticated.
    pub fn new(base_url: &str) -> (r: Self)
        ensures
            r.base_url@ == base_url@,
            r.session_cookie is None,
    {
        ThreeXUiClient { base_url: base_url.to_owned(), session_cookie: None }
    }

    /// The login request: a form post of the credentials to the panel's login
    /// endpoint, sent without a cookie.
    pub fn login_request(&self, username: &str, password: &str) -> (r: HttpRequest)
        ensures
            r.method is Post,
            r.url@ == self.base_url@ + "/login"@,
            r.cookie is None,
            r.json_body is None,
            r.form matches Some(f) && f@.len() == 2 && f@[0].0@ == "username"@ && f@[0].1@
                == username@ && f@[1].0@ == "password"@ && f@[1].1@ == password@,
    {
        let mut url = self.base_url.clone();
        url.append("/login");
        let mut form: Vec<(String, String)> = Vec::new();
        form.push(("username".to_owned(), username.to_owned()));
        form.push(("password".to_owned(), password.to_owned()));
        HttpRequest { method: HttpMethod::Post, url, cookie: None, form: Some(form), json_body: None }
    }

    /// Applies the login response: a successful status stores the session
    /// cookie the response carried, if any; any other status leaves the client
    /// unchanged and reports the status in the error.
    pub fn apply_login_response(
        &mut self,
        status_success: bool,
        status_text: &str,
        set_cookie: Option<String>,
    ) -> (r: Result<(), MyError>)
        ensures
            final(self).base_url == old(self).base_url,
            status_success ==> r is Ok,
            status_success ==> (set_cookie matches Some(c) ==> (final(self).session_cookie
                matches Some(sc) && sc@ == c@)),
            status_success && set_cookie is None ==> final(self).session_cookie == old(
                self,
            ).session_cookie,
            !status_success ==> (r matches Err(MyError::Str(d)) && d@ == "Login failed with status: "@
                + status_text@ && final(self).session_cookie == old(self).session_cookie),
    {
        if status_success {
            match set_cookie {
                Some(c) => {
                    self.session_cookie = Some(c);
                },
                None => {},
            }
            Ok(())
        } else {
            let mut d = "Login failed with status: ".to_owned();
            d.append(status_text);
            Err(MyError::Str(d))
        }
    }

    /// The request listing all inbound configurations, with the session cookie.
    pub fn get_inbounds_request(&self) -> (r: HttpRequest)
        ensures
            r.method is Get,
            r.url@ == self.base_url@ + "/panel/api/inbounds/list"@,
            r.cookie.deep_view() == self.session_cookie.deep_view(),
            r.form is None,
            r.json_body is None,
    {
        let mut url = self.base_url.clone();
        url.append("/panel/api/inbounds/list");
        HttpRequest {
            method: HttpMethod::Get,
            url,
            cookie: clone_opt_string(&self.session_cookie),
            form: None,
            json_body: None,
        }
    }

    /// The request fetching one inbound configuration, with the session cookie.
    pub fn get_inbound_request(&self, inbound_id: u32) -> (r: HttpRequest)
        ensures
            r.method is Get,
            r.url@ == self.base_url@ + "/panel/api/inbounds/get/"@ + dec_digits(inbound_id as nat),
            r.cookie.deep_view() == self.session_cookie.deep_view(),
            r.form is None,
            r.json_body is None,
    {
        let mut url = self.base_url.clone();
        url.append("/panel/api/inbounds/get/");
        let id = u64_to_string(inbound_id as u64);
        url.append(id.as_str());
        assert(url@ =~= self.base_url@ + "/panel/api/inbounds/get/"@ + dec_digits(
            inbound_id as nat,
        ));
        HttpRequest {
            method: HttpMethod::Get,
            url,
            cookie: clone_opt_string(&self.session_cookie),
            form: None,
            json_body: None,
        }
    }

    /// The request adding an inbound configuration, given as JSON text, with
    /// the session cookie.
    pub fn add_inbound_request(&self, inbound_config: &str) -> (r: HttpRequest)
        ensures
            r.method is Post,
            r.url@ == self.base_url@ + "/panel/api/inbounds/add"@,
            r.cookie.deep_view() == self.session_cookie.deep_view(),
            r.form is None,
            r.json_body matches Some(b) && b@ == inbound_config@,
    {
        let mut url = self.base_url.clone();
        url.append("/panel/api/inbounds/add");
        HttpRequest {
            method: HttpMethod::Post,
            url,
            cookie: clone_opt_string(&self.session_cookie),
            form: None,
            json_body: Some(inbound_config.to_owned()),
        }
    }

    /// The request enrolling one client record on an inbound: the record's
    /// settings document goes double-encoded into the payload, as the panel's
    /// wire format demands.
    pub fn add_client_request(&self, inbound_id: u32, client: &ClientRecord) -> (r: HttpRequest)
        ensures
            r.method is Post,
            r.url@ == self.base_url@ + "/panel/api/inbounds/addClient"@,
            r.cookie.deep_view() == self.session_cookie.deep_view(),
            r.form is None,
            r.json_body matches Some(b) && b@ == add_client_payload_spec(
                inbound_id,
                client_settings_json_spec(*client),
            ),
    {
        let mut url = self.base_url.clone();
        url.append("/panel/api/inbounds/addClient");
        let settings = client_settings_json(client);
        let mut payload = "{\"id\":".to_owned();
        let id = u64_to_string(inbound_id as u64);
        payload.append(id.as_str());
        payload.append(",\"settings\":\"");
        let escaped = json_escape(settings.as_str());
        payload.append(escaped.as_str());
        payload.append("\"}");
        assert(payload@ =~= add_client_payload_spec(
            inbound_id,
            client_settings_json_spec(*client),
        ));
        HttpRequest {
            method: HttpMethod::Post,
            url,
            cookie: clone_opt_string(&self.session_cookie),
            form: None,
            json_body: Some(payload),
        }
    }

    /// The request updating one client, keyed by its identifier, with the new
    /// configuration as JSON text and the session cookie.
    pub fn update_client_request(&self, uuid: &str, client_config: &str) -> (r: HttpRequest)
        ensures
            r.method is Post,
            r.url@ == self.base_url@ + "/panel/api/inbounds/updateClient/"@ + uuid@,
            r.cookie.deep_view() == self.session_cookie.deep_view(),
            r.form is None,
            r.json_body matches Some(b) && b@ == client_config@,
    {
        let mut url = self.base_url.clone();
        url.append("/panel/api/inbounds/updateClient/");
        url.append(uuid);
        assert(url@ =~= self.base_url@ + "/panel/api/inbounds/updateClient/"@ + uuid@);
        HttpRequest {
            method: HttpMethod::Post,
            url,
            cookie: clone_opt_string(&self.session_cookie),
            form: None,
            json_body: Some(client_config.to_owned()),
        }
    }

    /// The request deleting one client, keyed by inbound and client identifier,
    /// with the session cookie and no body.
    pub fn delete_client_request(&self, inbound_id: u32, uuid: &str) -> (r: HttpRequest)
        ensures
            r.method is Post,
            r.url@ == self.base_url@ + "/panel/api/inbounds/"@ + dec_digits(inbound_id as nat)
                + "/delClient/"@ + uuid@,
            r.cookie.deep_view() == self.session_cookie.deep_view(),
            r.form is None,
            r.json_body is None,
    {
        let mut url = self.base_url.clone();
        url.append("/panel/api/inbounds/");
        let id = u64_to_string(inbound_id as u64);
        url.append(id.as_str());
        url.append("/delClient/");
        url.append(uuid);
        assert(url@ =~= self.base_url@ + "/panel/api/inbounds/"@ + dec_digits(inbound_id as nat)
            + "/delClient/"@ + uuid@);
        HttpRequest {
            method: HttpMethod::Post,
            url,
            cookie: clone_opt_string(&self.session_cookie),
            form: None,
            json_body: None,
        }
    }

    /// Whether any client entry of the inbound response body belongs to the
    /// given chat identity. A body that does not parse, or parses without a
    /// clients array, has no clients.
    pub fn has_existing_client(&self, inbound_body: &str, tg_id: i64) -> (r: bool)
        ensures
            r == has_client_spec(inbound_body@, tg_id),
    {
        match parse_inbound_settings(inbound_body) {
            None => false,
            Some(settings) => match parse_settings_clients(settings.as_str()) {
                None => false,
                Some(entries) => {
                    let n = entries.len();
                    let mut i: usize = 0;
                    let mut found = false;
                    while i < n
                        invariant
                            i <= n,
                            n == entries@.len(),
                            found == exists|j: int|
                                0 <= j < i && entries@[j].0 == Some(tg_id),
                        decreases n - i,
                    {
                        let (tg, _text) = &entries[i];
                        match tg {
                            Some(t) => {
                                if *t == tg_id {
                                    found = true;
                                }
                            },
                            None => {},
                        }
                        i = i + 1;
                    }
                    proof {
                        assert(entries.deep_view().len() == entries@.len());
                        assert forall|j: int| 0 <= j < entries@.len() implies entries.deep_view()[j].0
                            == entries@[j].0 by {
                            assert(entries.deep_view()[j] == entries@[j].deep_view());
                        }
                    }
                    found
                },
            },
        }
    }

    /// Renders the client entries of the inbound response body that belong to
    /// the given chat identity as one pretty-printed JSON array, or `{}` when
    /// there is none.
    pub fn get_client_connections(&self, inbound_body: &str, tg_id: i64) -> (r: String)
        ensures
            r@ == client_connections_spec(inbound_body@, tg_id),
    {
        proof {
            reveal_strlit("{}");
        }
        match parse_inbound_settings(inbound_body) {
            None => "{}".to_owned(),
            Some(settings) => match parse_settings_clients(settings.as_str()) {
                None => "{}".to_owned(),
                Some(entries) => {
                    let n = entries.len();
                    let mut texts: Vec<String> = Vec::new();
                    let mut i: usize = 0;
                    while i < n
                        invariant
                            i <= n,
                            n == entries@.len(),
                            texts.deep_view() =~= matching_texts(
                                entries.deep_view().take(i as int),
                                tg_id,
                            ),
                        decreases n - i,
                    {
                        proof {
                            assert(entries.deep_view().take(i as int + 1).drop_last()
                                =~= entries.deep_view().take(i as int));
                            assert(entries.deep_view().take(i as int + 1).last() == entries.deep_view()[i as int]);
                            assert(entries.deep_view()[i as int] == entries@[i as int].deep_view());
                        }
                        let (tg, text) = &entries[i];
                        let matched = match tg {
                            Some(t) => *t == tg_id,
                            None => false,
                        };
                        if matched {
                            texts.push(text.clone());
                        }
                        proof {
                            assert(texts.deep_view() =~~= matching_texts(
                                entries.deep_view().take(i as int + 1),
                                tg_id,
                            ));
                        }
                        i = i + 1;
                    }
                    proof {
                        assert(entries.deep_view().take(n as int) =~= entries.deep_view());
                    }
                    if texts.len() == 0 {
                        "{}".to_owned()
                    } else {
                        pretty_json_array(&texts)
                    }
                },
            },
        }
    }
}

/// The `obj.settings` string field of a panel inbound response, when the body
/// is JSON carrying one.
pub uninterp spec fn inbound_settings_of(body: Seq<char>) -> Option<Seq<char>>;

/// The client entries of an inbound settings document: for each entry of its
/// `clients` array, the entry's `tgId` number, when it has one, and the entry's
/// own JSON text.
pub uninterp spec fn settings_clients_of(settings: Seq<char>) -> Option<
    Seq<(Option<i64>, Seq<char>)>,
>;

/// The pretty-printed JSON array rendered from the given entry texts.
pub uninterp spec fn pretty_client_array_of(entries: Seq<Seq<char>>) -> Seq<char>;

/// Relies on serde_json::from_str and serde_json::Value's accessors `get` and
/// `as_str`: extracts the `obj.settings` string of a panel inbound response.
/// The parse reads nothing but the text, so equal bodies give equal results.
#[verifier::external_body]
fn parse_inbound_settings(body: &str) -> (r: Option<String>)
    ensures
        r.deep_view() == inbound_settings_of(body@),
{
    match serde_json::from_str::<serde_json::Value>(body) {
        Ok(v) => v.get("obj")
            .and_then(|obj| obj.get("settings"))
            .and_then(|s| s.as_str())
            .map(|s| s.to_string()),
        Err(_) => None,
    }
}

/// Relies on serde_json::from_str, serde_json::Value's accessors `get`,
/// `as_array` and `as_i64`, and serde_json::to_string: reads the `clients`
/// array of an inbound settings document, handing back each entry's `tgId`
/// number and the entry's own JSON text. All of them read nothing but the
/// text, so equal documents give equal results.
#[verifier::external_body]
fn parse_settings_clients(settings: &str) -> (r: Option<Vec<(Option<i64>, String)>>)
    ensures
        r.deep_view() == settings_clients_of(settings@),
{
    let v: serde_json::Value = match serde_json::from_str(settings) {
        Ok(v) => v,
        Err(_) => return None,
    };
    let arr = match v.get("clients").and_then(|c| c.as_array()) {
        Some(a) => a,
        None => return None,
    };
    Some(arr.iter().map(|c| (
        c.get("tgId").and_then(|t| t.as_i64()),
        serde_json::to_string(c).unwrap_or_default(),
    )).collect())
}

/// Relies on serde_json::from_str and serde_json::to_string_pretty: renders
/// the given JSON entry texts as one pretty-printed array. Both read nothing
/// but the texts, so equal texts give equal results.
#[verifier::external_body]
fn pretty_json_array(texts: &Vec<String>) -> (r: String)
    ensures
        r@ == pretty_client_array_of(texts.deep_view()),
{
    let values: Vec<serde_json::Value> = texts
        .iter()
        .map(|t| serde_json::from_str(t.as_str()).unwrap_or(serde_json::Value::Null))
        .collect();
    serde_json::to_string_pretty(&values).unwrap_or_default()
}

/// Whether the inbound response body carries a client entry of the given chat
/// identity.
pub open spec fn has_client_spec(body: Seq<char>, tg_id: i64) -> bool {
    match inbound_settings_of(body) {
        Some(settings) => match settings_clients_of(settings) {
            Some(entries) => exists|j: int| 0 <= j < entries.len() && entries[j].0 == Some(tg_id),
            None => false,
        },
        None => false,
    }
}

/// The JSON texts of the entries belonging to the given chat identity, in
/// order.
pub open spec fn matching_texts(entries: Seq<(Option<i64>, Seq<char>)>, tg_id: i64) -> Seq<
    Seq<char>,
>
    decreases entries.len(),
{
    if entries.len() == 0 {
        Seq::empty()
    } else {
        let rest = matching_texts(entries.drop_last(), tg_id);
        if entries.last().0 == Some(tg_id) {
            rest.push(entries.last().1)
        } else {
            rest
        }
    }
}

/// What the connections view of an inbound response body shows for one chat
/// identity: the pretty-printed array of their entries, or `{}` when the body
/// does not parse or they have none.
pub open spec fn client_connections_spec(body: Seq<char>, tg_id: i64) -> Seq<char> {
    match inbound_settings_of(body) {
        Some(settings) => match settings_clients_of(settings) {
            Some(entries) => {
                let texts = matching_texts(entries, tg_id);
                if texts.len() == 0 {
                    "{}"@
                } else {
                    pretty_client_array_of(texts)
                }
            },
            None => "{}"@,
        },
        None => "{}"@,
    }
}

} // verus!
