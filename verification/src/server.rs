use vstd::prelude::*;
use vstd::slice::slice_to_vec;
use vstd::string::StringExecFns;
use vstd::utf8::encode_utf8;
use crate::codec::DEFAULT_LEVEL;
use crate::config::EngineSettings;
use crate::config::RocksdbOptions;
use crate::database::DbWrap;
use crate::engine::keys_view;
use crate::engine::pairs_view;
use crate::engine::stored_bytes;
use crate::engine::Reply;
use crate::engine::ReplyView;
use crate::error::DbError;
use crate::error::DbErrorView;
use crate::operation::Kind;
use crate::operation::Operation;
use crate::operation::OperationView;

verus! {

/// Settings of the network service that fronts the access layer.
#[derive(Clone)]
pub struct DbConfig {
    pub port: u16,
    pub num_workers: u16,
    pub db_path: String,
    pub token: String,
    pub options: Option<RocksdbOptions>,
}

impl DbConfig {
    /// What the engine is to be set to: the given options with their
    /// absent entries filled in, or nothing when no options are given and
    /// the engine is to keep its own defaults.
    pub fn get_opt(&self) -> (settings: Option<EngineSettings>)
        ensures
            settings == match self.options {
                Some(options) => Some(options.spec_settings()),
                None => None,
            },
    {
        match &self.options {
            Some(options) => Some(options.settings()),
            None => None,
        }
    }
}

/// One operation of the access layer as a request names it. Keys are
/// text; the store holds them as their UTF-8 bytes.
#[derive(Clone, Debug)]
pub enum RequestType {
    Get(String),
    Put(String, Vec<u8>, u8, bool),
    PutBatch(Vec<(String, Vec<u8>)>),
    Delete(String),
    DeleteBatch(Vec<String>),
    GetPrefix(String),
    DeletePrefix(String),
}

/// A request as it arrives: the caller's token, the operation, and the
/// logical store it is aimed at.
#[derive(Clone, Debug)]
pub struct HttpRequest {
    pub token: String,
    pub req: RequestType,
    pub path: String,
}

/// The bytes under which a text key is stored.
pub open spec fn key_bytes(key: Seq<char>) -> Seq<u8> {
    encode_utf8(key)
}

/// The pairs of a batch request with their keys as bytes.
pub open spec fn request_pairs(pairs: Seq<(String, Vec<u8>)>) -> Seq<(Seq<u8>, Seq<u8>)> {
    Seq::new(pairs.len(), |i: int| (key_bytes(pairs[i].0@), pairs[i].1@))
}

/// The keys of a batch request as bytes.
pub open spec fn request_keys(keys: Seq<String>) -> Seq<Seq<u8>> {
    Seq::new(keys.len(), |i: int| key_bytes(keys[i]@))
}

/// What is sent back to a caller whose token is not the service's.
pub open spec fn invalid_token() -> Seq<char> {
    "Invalid token"@
}

fn text_key(key: &String) -> (bytes: Vec<u8>)
    ensures
        bytes@ == key_bytes(key@),
{
    slice_to_vec(key.as_str().as_bytes())
}

impl RequestType {
    /// Which operation the request names.
    pub open spec fn spec_kind(self) -> Kind {
        match self {
            RequestType::Get(_) => Kind::Get,
            RequestType::Put(_, _, _, _) => Kind::Put,
            RequestType::PutBatch(_) => Kind::PutBatch,
            RequestType::Delete(_) => Kind::Delete,
            RequestType::DeleteBatch(_) => Kind::DeleteBatch,
            RequestType::GetPrefix(_) => Kind::GetPrefix,
            RequestType::DeletePrefix(_) => Kind::DeletePrefix,
        }
    }

    /// The operation the request stands for, on the store at `store`. A
    /// batch of writes names no level and cannot force: its pairs go in at
    /// the default level, each subject to the level rule.
    pub open spec fn planned(self, store: Seq<char>) -> OperationView {
        match self {
            RequestType::Get(key) => OperationView::get(store, key_bytes(key@)),
            RequestType::Put(key, value, lv, force) => OperationView::put(
                store,
                key_bytes(key@),
                value@,
                lv,
                force,
            ),
            RequestType::PutBatch(pairs) => OperationView::put_batch(
                store,
                request_pairs(pairs@),
                DEFAULT_LEVEL,
                false,
            ),
            RequestType::Delete(key) => OperationView::delete(store, key_bytes(key@)),
            RequestType::DeleteBatch(keys) => OperationView::delete_batch(
                store,
                request_keys(keys@),
            ),
            RequestType::GetPrefix(key) => OperationView::get_prefix(store, key_bytes(key@)),
            RequestType::DeletePrefix(key) => OperationView::delete_prefix(store, key_bytes(key@)),
        }
    }

    /// Which operation the request names.
    pub fn kind(&self) -> (k: Kind)
        ensures
            k == self.spec_kind(),
    {
        match self {
            RequestType::Get(_) => Kind::Get,
            RequestType::Put(_, _, _, _) => Kind::Put,
            RequestType::PutBatch(_) => Kind::PutBatch,
            RequestType::Delete(_) => Kind::Delete,
            RequestType::DeleteBatch(_) => Kind::DeleteBatch,
            RequestType::GetPrefix(_) => Kind::GetPrefix,
            RequestType::DeletePrefix(_) => Kind::DeletePrefix,
        }
    }

    /// Turns the request into the operation it stands for on the logical
    /// store `path`.
    pub fn operation<H>(self, wrap: &DbWrap<H>, path: &str) -> (op: Operation)
        ensures
            op@ == self.planned(wrap.store_path(path@)),
    {
        match self {
            RequestType::Get(key) => wrap.get(text_key(&key).as_slice(), path),
            RequestType::Put(key, value, lv, force) => wrap.put(
                text_key(&key).as_slice(),
                value,
                lv,
                force,
                path,
            ),
            RequestType::PutBatch(pairs) => {
                let mut pairs = pairs;
                let ghost given = pairs@;
                let mut out: Vec<(Vec<u8>, Vec<u8>)> = Vec::new();
                let mut i: usize = 0;
                while i < pairs.len()
                    invariant
                        i <= pairs.len(),
                        pairs.len() == given.len(),
                        out.len() == i,
                        forall|j: int| i <= j < pairs.len() ==> pairs@[j] == given[j],
                        forall|j: int|
                            0 <= j < i ==> (out@[j].0@, out@[j].1@) == #[trigger] request_pairs(
                                given,
                            )[j],
                    decreases pairs.len() - i,
                {
                    let key = text_key(&pairs[i].0);
                    let mut value: Vec<u8> = Vec::new();
                    let slot = &mut pairs[i];
                    core::mem::swap(&mut slot.1, &mut value);
                    out.push((key, value));
                    i += 1;
                }
                assert(pairs_view(out@) =~= request_pairs(given));
                wrap.put_batch(out, DEFAULT_LEVEL, false, path)
            },
            RequestType::Delete(key) => wrap.delete(text_key(&key).as_slice(), path),
            RequestType::DeleteBatch(keys) => {
                let mut out: Vec<Vec<u8>> = Vec::new();
                let mut i: usize = 0;
                while i < keys.len()
                    invariant
                        i <= keys.len(),
                        out.len() == i,
                        forall|j: int| 0 <= j < i ==> out@[j]@ == #[trigger] request_keys(keys@)[j],
                    decreases keys.len() - i,
                {
                    out.push(text_key(&keys[i]));
                    i += 1;
                }
                assert(keys_view(out@) =~= request_keys(keys@));
                wrap.delete_batch(out, path)
            },
            RequestType::GetPrefix(key) => wrap.get_prefix(text_key(&key).as_slice(), path),
            RequestType::DeletePrefix(key) => wrap.delete_prefix(text_key(&key).as_slice(), path),
        }
    }
}

/// The error of `serde_json`.
#[verifier::external_type_specification]
#[verifier::external_body]
pub struct ExJsonError(serde_json::Error);

/// The JSON text that `serde_json::to_string` writes for what a reply
/// with content carries: for [`ReplyView::Value`] the byte list, for
/// [`ReplyView::Entries`] the list of pairs of byte lists.
pub uninterp spec fn json_text(reply: ReplyView) -> Seq<char>;

/// JSON's literal for no value.
pub open spec fn json_null() -> Seq<char> {
    "null"@
}

/// The JSON text of a reply: the literal for no value where the reply
/// carries nothing, else what the serializer writes for its content.
pub open spec fn reply_json(reply: ReplyView) -> Seq<char> {
    match reply {
        ReplyView::Unit => json_null(),
        ReplyView::Value(None) => json_null(),
        _ => json_text(reply),
    }
}

/// Calls `serde_json::to_string` on the unit value. The serializer writes
/// into a byte vector in memory and fails only where its writer fails, so
/// the call succeeds; for the unit value it writes the literal for no
/// value.
#[verifier::external_body]
fn json_of_unit() -> (res: Result<String, serde_json::Error>)
    ensures
        res is Ok,
        res matches Ok(text) ==> text@ == json_null(),
{
    serde_json::to_string(&())
}

/// Calls `serde_json::to_string` on an optional byte list. The serializer
/// writes into a byte vector in memory and, for an option, a list and a
/// byte, fails only where its writer fails, so the call succeeds. For an
/// absent list it writes the literal for no value; the text for a list is
/// taken on trust as its JSON.
#[verifier::external_body]
fn json_of_value(value: &Option<Vec<u8>>) -> (res: Result<String, serde_json::Error>)
    ensures
        res is Ok,
        res matches Ok(text) ==> text@ == match *value {
            Some(bytes) => json_text(ReplyView::Value(Some(bytes@))),
            None => json_null(),
        },
{
    serde_json::to_string(value)
}

/// Calls `serde_json::to_string` on a list of pairs of byte lists. The
/// serializer writes into a byte vector in memory and, for a list, a
/// pair and a byte, fails only where its writer fails, so the call
/// succeeds. Its text is taken on trust as the JSON of those entries.
#[verifier::external_body]
fn json_of_entries(entries: &Vec<(Vec<u8>, Vec<u8>)>) -> (res: Result<String, serde_json::Error>)
    ensures
        res is Ok,
        res matches Ok(text) ==> text@ == json_text(ReplyView::Entries(pairs_view(entries@))),
{
    serde_json::to_string(entries)
}

/// Formats a `serde_json` error with its `Debug` form. Nothing is claimed
/// of the text.
#[verifier::external_body]
fn json_error_text(e: &serde_json::Error) -> (text: String) {
    format!("{:?}", e)
}

/// The name under which an operation appears in a response.
pub open spec fn label(kind: Kind) -> Seq<char> {
    match kind {
        Kind::Get => "db_get"@,
        Kind::Put => "db_put"@,
        Kind::PutBatch => "db_put_batch"@,
        Kind::Delete => "db_delete"@,
        Kind::DeleteBatch => "db_delete_batch"@,
        Kind::GetPrefix => "db_get_prefix"@,
        Kind::DeletePrefix => "db_delete_prefix"@,
        Kind::Flush => "db_flush"@,
    }
}

/// What is sent back when an operation failed.
pub open spec fn failure_text(e: DbErrorView) -> Seq<char> {
    "db_req failed for: "@ + e.message()
}

/// What is sent back when the reply of an operation could not be written
/// as JSON; `detail` is what the serializer said.
pub open spec fn serialize_failure(kind: Kind, detail: Seq<char>) -> Seq<char> {
    label(kind) + " serialize err: "@ + detail
}

/// The name under which an operation appears in a response.
pub fn label_of(kind: Kind) -> (name: &'static str)
    ensures
        name@ == label(kind),
{
    match kind {
        Kind::Get => "db_get",
        Kind::Put => "db_put",
        Kind::PutBatch => "db_put_batch",
        Kind::Delete => "db_delete",
        Kind::DeleteBatch => "db_delete_batch",
        Kind::GetPrefix => "db_get_prefix",
        Kind::DeletePrefix => "db_delete_prefix",
        Kind::Flush => "db_flush",
    }
}

impl HttpRequest {
    /// True when the request carries the service's token.
    pub fn authorized(&self, token: &String) -> (ok: bool)
        ensures
            ok == (self.token@ == token@),
    {
        self.token == *token
    }
}

/// Admission of a request: one that carries the service's token becomes
/// the operation it names, on the logical store it names; any other is
/// turned away before anything is planned.
pub fn db_request<H>(wrap: &DbWrap<H>, token: &String, request: HttpRequest) -> (res: Result<
    Operation,
    String,
>)
    ensures
        match res {
            Ok(op) => request.token@ == token@ && op@ == request.req.planned(
                wrap.store_path(request.path@),
            ),
            Err(m) => request.token@ != token@ && m@ == invalid_token(),
        },
{
    if !request.authorized(token) {
        return Err(String::from_str("Invalid token"));
    }
    let HttpRequest { token: _, req, path } = request;
    Ok(req.operation(wrap, path.as_str()))
}

/// The body of the response to an operation that went through, given what
/// the serializer made of its reply: the JSON text, or the serializer's
/// complaint under the name of the operation.
pub fn render(kind: Kind, json: Result<String, String>) -> (res: Result<String, String>)
    ensures
        match json {
            Ok(text) => res matches Ok(body) && body@ == text@,
            Err(detail) => res matches Err(m) && m@ == serialize_failure(kind, detail@),
        },
{
    match json {
        Ok(text) => Ok(text),
        Err(detail) => {
            let mut m = String::from_str(label_of(kind));
            m.append(" serialize err: ");
            m.append(detail.as_str());
            Err(m)
        },
    }
}

/// The body of the response to an operation of `kind` that ended with
/// `outcome`. A failed operation answers with its error in words; one that
/// went through answers with the JSON text of its reply.
pub fn db_response(kind: Kind, outcome: Result<Reply, DbError>) -> (res: Result<String, String>)
    ensures
        match outcome {
            Err(e) => res matches Err(m) && m@ == failure_text(e@),
            Ok(reply) => res matches Ok(body) && body@ == reply_json(reply@),
        },
{
    match outcome {
        Err(e) => {
            let mut m = String::from_str("db_req failed for: ");
            m.append(e.message().as_str());
            Err(m)
        },
        Ok(reply) => {
            let written = match &reply {
                Reply::Unit => json_of_unit(),
                Reply::Value(value) => json_of_value(value),
                Reply::Entries(entries) => json_of_entries(entries),
            };
            let json = match written {
                Ok(text) => Ok(text),
                Err(e) => Err(json_error_text(&e)),
            };
            render(kind, json)
        },
    }
}

} // verus!
