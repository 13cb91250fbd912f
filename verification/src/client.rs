//! The session and task client: endpoint URL construction, envelope
//! validation, and decoding of the vendor's responses into the task model.
//!
//! The vendor wraps every response in an envelope `{ success: bool, data?:
//! ... }` and reports logical failures with HTTP 200 plus `success: false`,
//! so the envelope, not the HTTP status, decides success.  Fetching a URL
//! is the caller's concern; everything before and after the wire stands
//! here.

use vstd::prelude::*;
use vstd::string::StringExecFns;

use crate::config::Config;
use crate::error::{spec_to_client, transport_to_client, ClientError, TransportError};
use crate::query::{append_form_encoded, form_of, push_char};
use crate::task::{has_error_marker, status_is_error, Task};

verus! {

/// A live session: the server-issued opaque token that every
/// authenticated call carries as `_sid`.
pub struct Session {
    pub sid: String,
}

/// What resolving `path` against the base URL `base` yields, as
/// `url::Url::parse` followed by `url::Url::join` computes it: a function
/// of the two strings alone, or nothing when the two do not resolve to a
/// URL (the base does not parse, or cannot serve as a base).
pub uninterp spec fn joined_url(base: Seq<char>, path: Seq<char>) -> Option<Seq<char>>;

/// The `success` field of the envelope that `body` parses to, or nothing
/// when `body` is not a JSON object with a boolean `success` field: a
/// function of the body alone.
pub uninterp spec fn envelope_success(body: Seq<char>) -> Option<bool>;

/// The session id under `data.sid` in `body`, or nothing when `body` does
/// not hold one: a function of the body alone.
pub uninterp spec fn session_sid(body: Seq<char>) -> Option<Seq<char>>;

/// The task records under `data.tasks` in `body`, in the order the vendor
/// sent them, or nothing when `body` does not hold a well-formed list: a
/// function of the body alone.
pub uninterp spec fn task_records(body: Seq<char>) -> Option<Seq<Task>>;

/// Relies on `url::Url::parse` and `url::Url::join`: resolving an
/// absolute path against a base URL is deterministic in the two strings,
/// and fails exactly when parsing the base or joining the path fails.
#[verifier::external_body]
fn join_base_url(base: &str, path: &str) -> (r: Option<String>)
    ensures
        r matches Some(s) ==> joined_url(base@, path@) matches Some(j) && s@ == j,
        r is None <==> joined_url(base@, path@) is None,
{
    match url::Url::parse(base) {
        Ok(u) => match u.join(path) {
            Ok(v) => Some(String::from(v)),
            Err(_) => None,
        },
        Err(_) => None,
    }
}

/// Relies on `serde_json::from_str` and `serde_json::Value::as_bool`:
/// whether a body parses as JSON with a boolean `success` field, and that
/// field's value, are deterministic in the body.
#[verifier::external_body]
fn parse_envelope(body: &str) -> (r: Option<bool>)
    ensures
        r == envelope_success(body@),
{
    serde_json::from_str::<serde_json::Value>(body).ok()?["success"].as_bool()
}

/// Relies on `serde_json::from_str` and `serde_json::Value::as_str`: the
/// string under `data.sid`, when the body holds one, is deterministic in
/// the body.
#[verifier::external_body]
fn parse_sid(body: &str) -> (r: Option<String>)
    ensures
        r matches Some(s) ==> session_sid(body@) matches Some(v) && s@ == v,
        r is None <==> session_sid(body@) is None,
{
    Some(serde_json::from_str::<serde_json::Value>(body).ok()?["data"]["sid"].as_str()?.to_string())
}

/// Relies on `serde_json::from_str`, `serde_json::Value::as_array`,
/// `as_str` and `as_u64`: the task records under `data.tasks`, with their
/// transfer counters under `additional.transfer`, are deterministic in
/// the body, and decoding fails exactly when any record lacks a field.
#[verifier::external_body]
fn parse_task_records(body: &str) -> (r: Option<Vec<Task>>)
    ensures
        r matches Some(v) ==> task_records(body@) matches Some(ts) && v@ == ts,
        r is None <==> task_records(body@) is None,
{
    let v: serde_json::Value = serde_json::from_str(body).ok()?;
    v["data"]["tasks"].as_array()?.iter().map(|t| Some(Task {
        id: t["id"].as_str()?.to_string(),
        title: t["title"].as_str()?.to_string(),
        status: t["status"].as_str()?.to_string(),
        size: t["size"].as_u64()?,
        size_downloaded: t["additional"]["transfer"]["size_downloaded"].as_u64()?,
        size_uploaded: t["additional"]["transfer"]["size_uploaded"].as_u64()?,
        speed_download: t["additional"]["transfer"]["speed_download"].as_u64()?,
        speed_upload: t["additional"]["transfer"]["speed_upload"].as_u64()?,
    })).collect()
}

/// What the transport hands back for a request to `url`, given the raw
/// outcome of the GET: a connection-level failure passes through; an
/// answered request is checked against the envelope, and only a body with
/// `success: true` comes back as the body to decode further.
pub fn transport_outcome(url: &str, fetched: Result<String, String>) -> (r: Result<
    String,
    TransportError,
>)
    ensures
        match fetched {
            Err(m) => r matches Err(TransportError::Network(m2)) && m2@ == m@,
            Ok(body) => match envelope_success(body@) {
                Some(true) => r matches Ok(b) && b@ == body@,
                Some(false) => r matches Err(TransportError::ApiFailure(u, b)) && u@ == url@
                    && b@ == body@,
                None => r matches Err(TransportError::MalformedEnvelope(b)) && b@ == body@,
            },
        },
{
    match fetched {
        Err(m) => Err(TransportError::Network(m)),
        Ok(body) => {
            match parse_envelope(body.as_str()) {
                Some(true) => Ok(body),
                Some(false) => Err(TransportError::ApiFailure(url.to_owned(), body)),
                None => Err(TransportError::MalformedEnvelope(body)),
            }
        },
    }
}

/// The path of the authentication endpoint.
pub open spec fn auth_path() -> Seq<char> {
    "/webapi/auth.cgi"@
}

/// The path of the download-task endpoint.
pub open spec fn task_path() -> Seq<char> {
    "/webapi/DownloadStation/task.cgi"@
}

/// The login URL: the authentication endpoint with the login method, the
/// account, the password, and the session name, asking for a plain `sid`.
/// Nothing when the configured base URL does not resolve.
pub fn login_url(cfg: &Config) -> (r: Option<String>)
    requires
        cfg.password is Some,
    ensures
        match joined_url(cfg.url@, auth_path()) {
            Some(j) => r matches Some(u) && u@ == j
                + "?api=SYNO.API.Auth&version=2&method=login&account="@ + form_of(cfg.user@)
                + "&passwd="@ + form_of(cfg.password.unwrap()@)
                + "&session=DownloadStation&format=sid"@,
            None => r is None,
        },
{
    let mut u = match join_base_url(cfg.url.as_str(), "/webapi/auth.cgi") {
        Some(s) => s,
        None => {
            return None;
        },
    };
    u.append("?api=SYNO.API.Auth&version=2&method=login&account=");
    append_form_encoded(&mut u, cfg.user.as_str());
    u.append("&passwd=");
    if let Some(p) = &cfg.password {
        append_form_encoded(&mut u, p.as_str());
    }
    u.append("&session=DownloadStation&format=sid");
    Some(u)
}

/// The task-list URL: the task endpoint with the list method, asking for
/// the transfer counters as additional data, authenticated by the session.
/// Nothing when the configured base URL does not resolve.
pub fn list_url(cfg: &Config, s: &Session) -> (r: Option<String>)
    ensures
        match joined_url(cfg.url@, task_path()) {
            Some(j) => r matches Some(u) && u@ == j
                + "?api=SYNO.DownloadStation.Task&version=2&method=list&additional=transfer&_sid="@
                + form_of(s.sid@),
            None => r is None,
        },
{
    let mut u = match join_base_url(cfg.url.as_str(), "/webapi/DownloadStation/task.cgi") {
        Some(s) => s,
        None => {
            return None;
        },
    };
    u.append("?api=SYNO.DownloadStation.Task&version=2&method=list&additional=transfer&_sid=");
    append_form_encoded(&mut u, s.sid.as_str());
    Some(u)
}

/// The create URL: the task endpoint with the create method and the
/// caller-supplied download URI, which is carried opaquely and not
/// validated.  Nothing when the configured base URL does not resolve.
pub fn create_url(cfg: &Config, s: &Session, uri: &str) -> (r: Option<String>)
    ensures
        match joined_url(cfg.url@, task_path()) {
            Some(j) => r matches Some(u) && u@ == j
                + "?api=SYNO.DownloadStation.Task&version=2&method=create&uri="@ + form_of(uri@)
                + "&_sid="@ + form_of(s.sid@),
            None => r is None,
        },
{
    let mut u = match join_base_url(cfg.url.as_str(), "/webapi/DownloadStation/task.cgi") {
        Some(s) => s,
        None => {
            return None;
        },
    };
    u.append("?api=SYNO.DownloadStation.Task&version=2&method=create&uri=");
    append_form_encoded(&mut u, uri);
    u.append("&_sid=");
    append_form_encoded(&mut u, s.sid.as_str());
    Some(u)
}

/// The delete URL: the task endpoint with the delete method and the id of
/// the task to delete.  Nothing when the configured base URL does not
/// resolve.
pub fn delete_url(cfg: &Config, s: &Session, id: &str) -> (r: Option<String>)
    ensures
        match joined_url(cfg.url@, task_path()) {
            Some(j) => r matches Some(u) && u@ == j
                + "?api=SYNO.DownloadStation.Task&version=1&method=delete&id="@ + form_of(id@)
                + "&_sid="@ + form_of(s.sid@),
            None => r is None,
        },
{
    let mut u = match join_base_url(cfg.url.as_str(), "/webapi/DownloadStation/task.cgi") {
        Some(s) => s,
        None => {
            return None;
        },
    };
    u.append("?api=SYNO.DownloadStation.Task&version=1&method=delete&id=");
    append_form_encoded(&mut u, id);
    u.append("&_sid=");
    append_form_encoded(&mut u, s.sid.as_str());
    Some(u)
}

/// The logout URL: the authentication endpoint with the logout method for
/// the session's name, authenticated by the session.  Nothing when the
/// configured base URL does not resolve.
pub fn logout_url(cfg: &Config, s: &Session) -> (r: Option<String>)
    ensures
        match joined_url(cfg.url@, auth_path()) {
            Some(j) => r matches Some(u) && u@ == j
                + "?api=SYNO.API.Auth&version=1&method=logout&session=DownloadStation&_sid="@
                + form_of(s.sid@),
            None => r is None,
        },
{
    let mut u = match join_base_url(cfg.url.as_str(), "/webapi/auth.cgi") {
        Some(s) => s,
        None => {
            return None;
        },
    };
    u.append("?api=SYNO.API.Auth&version=1&method=logout&session=DownloadStation&_sid=");
    append_form_encoded(&mut u, s.sid.as_str());
    Some(u)
}

/// The error a client operation reports when the configured base URL
/// does not resolve and no endpoint URL can be built: a connection-level
/// failure naming the configured URL.
pub fn bad_base_url_error(cfg: &Config) -> (r: ClientError)
    ensures
        r matches ClientError::NetworkError(m) && m@ == "invalid server URL: "@ + cfg.url@,
{
    let mut m = "invalid server URL: ".to_owned();
    m.append(cfg.url.as_str());
    ClientError::NetworkError(m)
}

/// The session a login response yields: the id under `data.sid`, or
/// [`ClientError::AuthFailed`] when the payload does not hold one.
pub fn parse_login_response(body: &str) -> (r: Result<Session, ClientError>)
    ensures
        match session_sid(body@) {
            Some(sid) => r matches Ok(s) && s.sid@ == sid,
            None => r matches Err(e) && e == ClientError::AuthFailed,
        },
{
    match parse_sid(body) {
        Some(sid) => Ok(Session { sid }),
        None => Err(ClientError::AuthFailed),
    }
}

/// The outcome of the whole login exchange: a connection-level failure
/// passes through unchanged, any envelope failure counts as
/// [`ClientError::AuthFailed`], and a successful body must hold the
/// session id.
pub fn login_outcome(fetched: Result<String, TransportError>) -> (r: Result<Session, ClientError>)
    ensures
        match fetched {
            Err(TransportError::Network(m)) => r matches Err(ClientError::NetworkError(m2))
                && m2@ == m@,
            Err(_) => r matches Err(e) && e == ClientError::AuthFailed,
            Ok(body) => match session_sid(body@) {
                Some(sid) => r matches Ok(s) && s.sid@ == sid,
                None => r matches Err(e) && e == ClientError::AuthFailed,
            },
        },
{
    match fetched {
        Err(TransportError::Network(m)) => Err(ClientError::NetworkError(m)),
        Err(_) => Err(ClientError::AuthFailed),
        Ok(body) => parse_login_response(body.as_str()),
    }
}

/// The views of a sequence of strings.
pub open spec fn seq_views(ss: Seq<String>) -> Seq<Seq<char>> {
    ss.map_values(|s: String| s@)
}

proof fn lemma_reverse_snoc(s: Seq<Task>, k: int)
    requires
        0 < k <= s.len(),
    ensures
        s.subrange(k - 1, s.len() as int).reverse() == s.subrange(k, s.len() as int).reverse().push(
            s[k - 1],
        ),
{
    assert(s.subrange(k - 1, s.len() as int).reverse() =~= s.subrange(
        k,
        s.len() as int,
    ).reverse().push(s[k - 1]));
}

/// The given tasks in reverse order.
fn reverse_tasks(v: Vec<Task>) -> (r: Vec<Task>)
    ensures
        r@ == v@.reverse(),
{
    let ghost orig = v@;
    let mut v = v;
    let mut out: Vec<Task> = Vec::new();
    proof {
        assert(orig.subrange(0, orig.len() as int) =~= orig);
        assert(orig.subrange(orig.len() as int, orig.len() as int).reverse() =~= Seq::<
            Task,
        >::empty());
    }
    while v.len() > 0
        invariant
            v@.len() <= orig.len(),
            v@ == orig.subrange(0, v@.len() as int),
            out@ == orig.subrange(v@.len() as int, orig.len() as int).reverse(),
        decreases v.len(),
    {
        let ghost k = v@.len() as int;
        if let Some(t) = v.pop() {
            out.push(t);
        }
        proof {
            assert(v@ =~= orig.subrange(0, k - 1));
            lemma_reverse_snoc(orig, k);
        }
    }
    proof {
        assert(orig.subrange(0, orig.len() as int).reverse() == orig.reverse());
    }
    out
}

/// The tasks a list response yields, newest first: the records under
/// `data.tasks`, in the exact reverse of the order the vendor sent them,
/// or [`ClientError::MalformedResponse`] when the body does not decode.
pub fn parse_list_response(body: &str) -> (r: Result<Vec<Task>, ClientError>)
    ensures
        match task_records(body@) {
            Some(ts) => r matches Ok(v) && v@ == ts.reverse(),
            None => r matches Err(e) && e matches ClientError::MalformedResponse(b) && b@
                == body@,
        },
{
    match parse_task_records(body) {
        Some(v) => Ok(reverse_tasks(v)),
        None => Err(ClientError::MalformedResponse(body.to_owned())),
    }
}

/// The outcome of the whole list exchange: a transport failure passes
/// through under the client's taxonomy; a successful body must decode to
/// the task list, which comes back newest first.
pub fn list_outcome(fetched: Result<String, TransportError>) -> (r: Result<Vec<Task>, ClientError>)
    ensures
        match fetched {
            Err(e) => r matches Err(c) && c == spec_to_client(e),
            Ok(body) => match task_records(body@) {
                Some(ts) => r matches Ok(v) && v@ == ts.reverse(),
                None => r matches Err(e) && e matches ClientError::MalformedResponse(b) && b@
                    == body@,
            },
        },
{
    match fetched {
        Err(e) => Err(transport_to_client(e)),
        Ok(body) => parse_list_response(body.as_str()),
    }
}

/// The outcome of an exchange whose response carries no payload (create,
/// delete, resume, logout): the envelope decided everything, so a
/// successful body is discarded and a transport failure passes through
/// under the client's taxonomy.
pub fn action_outcome(fetched: Result<String, TransportError>) -> (r: Result<(), ClientError>)
    ensures
        match fetched {
            Ok(_) => r is Ok,
            Err(e) => r matches Err(c) && c == spec_to_client(e),
        },
{
    match fetched {
        Ok(_) => Ok(()),
        Err(e) => Err(transport_to_client(e)),
    }
}

/// The ids of the error-like tasks (status contains `error`), in list
/// order.
pub open spec fn error_ids(tasks: Seq<Task>) -> Seq<Seq<char>>
    decreases tasks.len(),
{
    if tasks.len() == 0 {
        Seq::empty()
    } else {
        let rest = error_ids(tasks.drop_last());
        if has_error_marker(tasks.last().status@) {
            rest.push(tasks.last().id@)
        } else {
            rest
        }
    }
}

/// The ids that one resume call carries: the first 300 error-like ids.
/// The cap works around the URL length limit on the comma-joined id list;
/// error tasks past the 300th are not resumed by a single call.
pub open spec fn resume_batch(tasks: Seq<Task>) -> Seq<Seq<char>> {
    let all = error_ids(tasks);
    if all.len() <= 300 {
        all
    } else {
        all.take(300)
    }
}

/// One resume call never carries more than 300 ids, and what it carries
/// is exactly the first error-like ids in list order: error tasks past
/// the 300th are left out of the call.
pub proof fn lemma_resume_batch_caps(tasks: Seq<Task>)
    ensures
        resume_batch(tasks).len() == (if error_ids(tasks).len() <= 300 {
            error_ids(tasks).len()
        } else {
            300nat
        }),
        resume_batch(tasks) == error_ids(tasks).take(resume_batch(tasks).len() as int),
{
    let all = error_ids(tasks);
    if all.len() <= 300 {
        assert(all.take(all.len() as int) =~= all);
    }
}

proof fn lemma_error_ids_snoc(tasks: Seq<Task>, i: int)
    requires
        0 <= i < tasks.len(),
    ensures
        error_ids(tasks.take(i + 1)) == (if has_error_marker(tasks[i].status@) {
            error_ids(tasks.take(i)).push(tasks[i].id@)
        } else {
            error_ids(tasks.take(i))
        }),
{
    let t = tasks.take(i + 1);
    assert(t.drop_last() =~= tasks.take(i));
    assert(t.last() == tasks[i]);
}

/// The ids to put into one resume call: the tasks whose status names an
/// error-like state, in list order, capped at 300.
pub fn resume_ids(tasks: &Vec<Task>) -> (r: Vec<String>)
    ensures
        seq_views(r@) == resume_batch(tasks@),
{
    let mut out: Vec<String> = Vec::new();
    let mut i: usize = 0;
    proof {
        assert(tasks@.take(0) =~= Seq::<Task>::empty());
        assert(seq_views(out@) =~= resume_batch(tasks@.take(0)));
    }
    while i < tasks.len()
        invariant
            i <= tasks@.len(),
            seq_views(out@) == resume_batch(tasks@.take(i as int)),
            out@.len() == (if error_ids(tasks@.take(i as int)).len() <= 300 {
                error_ids(tasks@.take(i as int)).len()
            } else {
                300nat
            }),
        decreases tasks@.len() - i,
    {
        let ghost pre = tasks@.take(i as int);
        if out.len() < 300 && status_is_error(tasks[i].status.as_str()) {
            out.push(tasks[i].id.clone());
        }
        proof {
            lemma_error_ids_snoc(tasks@, i as int);
            let post = tasks@.take(i as int + 1);
            if has_error_marker(tasks@[i as int].status@) {
                if error_ids(pre).len() < 300 {
                    assert(seq_views(out@) =~= resume_batch(post));
                } else {
                    assert(error_ids(post).take(300) =~= error_ids(pre).take(300));
                }
            } else {
                assert(error_ids(post) == error_ids(pre));
            }
        }
        i = i + 1;
    }
    proof {
        assert(tasks@.take(tasks@.len() as int) =~= tasks@);
    }
    out
}

/// The comma-joined, individually form-encoded id list of one resume
/// call.
pub open spec fn joined_ids(ids: Seq<Seq<char>>) -> Seq<char>
    decreases ids.len(),
{
    if ids.len() == 0 {
        Seq::empty()
    } else if ids.len() == 1 {
        form_of(ids[0])
    } else {
        joined_ids(ids.drop_last()) + ","@ + form_of(ids.last())
    }
}

proof fn lemma_joined_ids_snoc(ids: Seq<Seq<char>>, i: int)
    requires
        0 <= i < ids.len(),
    ensures
        joined_ids(ids.take(i + 1)) == (if i == 0 {
            form_of(ids[0])
        } else {
            joined_ids(ids.take(i)) + ","@ + form_of(ids[i])
        }),
{
    let t = ids.take(i + 1);
    assert(t.drop_last() =~= ids.take(i));
    assert(t.last() == ids[i]);
    assert(t[0] == ids[0]);
}

/// Append the comma-joined, form-encoded id list to `out`.
fn append_joined_ids(out: &mut String, ids: &Vec<String>)
    ensures
        final(out)@ == old(out)@ + joined_ids(seq_views(ids@)),
{
    let mut i: usize = 0;
    proof {
        assert(seq_views(ids@).take(0) =~= Seq::<Seq<char>>::empty());
    }
    while i < ids.len()
        invariant
            i <= ids@.len(),
            out@ == old(out)@ + joined_ids(seq_views(ids@).take(i as int)),
        decreases ids@.len() - i,
    {
        if i > 0 {
            push_char(out, ',');
        }
        append_form_encoded(out, ids[i].as_str());
        proof {
            reveal_strlit(",");
            lemma_joined_ids_snoc(seq_views(ids@), i as int);
            assert(seq_views(ids@)[i as int] == ids@[i as int]@);
            assert(out@ =~= old(out)@ + joined_ids(seq_views(ids@).take(i as int + 1)));
        }
        i = i + 1;
    }
    proof {
        assert(seq_views(ids@).take(ids@.len() as int) =~= seq_views(ids@));
    }
}

/// The resume URL: the task endpoint with the resume method and the
/// comma-joined id list, authenticated by the session.  With no ids the
/// call still carries an empty `id=` parameter.  Nothing when the
/// configured base URL does not resolve.
pub fn resume_url(cfg: &Config, s: &Session, ids: &Vec<String>) -> (r: Option<String>)
    ensures
        match joined_url(cfg.url@, task_path()) {
            Some(j) => r matches Some(u) && u@ == j
                + "?api=SYNO.DownloadStation.Task&version=1&method=resume&id="@ + joined_ids(
                seq_views(ids@),
            ) + "&_sid="@ + form_of(s.sid@),
            None => r is None,
        },
{
    let mut u = match join_base_url(cfg.url.as_str(), "/webapi/DownloadStation/task.cgi") {
        Some(s) => s,
        None => {
            return None;
        },
    };
    u.append("?api=SYNO.DownloadStation.Task&version=1&method=resume&id=");
    append_joined_ids(&mut u, ids);
    u.append("&_sid=");
    append_form_encoded(&mut u, s.sid.as_str());
    Some(u)
}

} // verus!
