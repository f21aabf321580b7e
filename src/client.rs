//! The protocol client's decisions: the connection settings, the session
//! token, building each request and judging each reply. Sending and
//! receiving the bytes is left to the caller, one request and one reply per
//! call.

use vstd::prelude::*;
use vstd::string::StringExecFns;

use crate::any::{decoded_bytes, pack, type_url_for, unpack, unpacked, Any};
use crate::commands::{
    GetItems, GetItemsResponse, GetOpenDocuments, GetOpenDocumentsResponse, GetVersion,
    GetVersionResponse,
};
use crate::envelope::{ApiRequest, ApiRequestHeader, ApiResponse, AS_OK};
use crate::error::KiCadError;
use crate::footprint::{decode_footprints, footprint_items, records_match, FootprintData};
use crate::message::{
    bytes_field, decode_message, encode_message, optional_nested, single, str_eq, text_field,
    WireMessage,
};
use crate::types::{DocumentIdentifier, DocumentSpecifier, ItemHeader, KiCadVersion};
use crate::wire::{encode_fields, WireFieldV};

verus! {

/// The object kind of a placed footprint.
pub const KOT_PCB_FOOTPRINT: i32 = 1;

/// The number of random characters in a generated client name.
pub const CLIENT_NAME_RANDOM_LEN: usize = 8;

/// An ASCII letter or digit.
pub open spec fn is_ascii_alphanumeric(c: char) -> bool {
    ('A' <= c <= 'Z') || ('a' <= c <= 'z') || ('0' <= c <= '9')
}

/// Relies on rand's `Alphanumeric` distribution, sampled by
/// `DistString::sample_string` with the thread-local generator: `len`
/// characters, each an ASCII letter or digit.
#[verifier::external_body]
fn random_alphanumeric(len: usize) -> (r: String)
    ensures
        r@.len() == len,
        forall|i: int| 0 <= i < len ==> is_ascii_alphanumeric(#[trigger] r@[i]),
{
    rand::distributions::DistString::sample_string(
        &rand::distributions::Alphanumeric,
        &mut rand::thread_rng(),
        len,
    )
}

/// Where the peer listens by default: under the temporary directory on
/// Windows, under `/tmp` elsewhere.
pub open spec fn default_socket_path(os: Seq<char>, temp_dir: Seq<char>) -> Seq<char> {
    if os == "windows"@ {
        "ipc://"@ + temp_dir + "\\kicad\\api.sock"@
    } else {
        "ipc:///tmp/kicad/api.sock"@
    }
}

/// How to reach the peer and who to say we are.
#[derive(Debug, PartialEq)]
pub struct KiCadConnectionConfig {
    /// The socket address; the platform's default unless set.
    pub socket_path: String,
    /// The client's name; random unless set.
    pub client_name: String,
    /// The session token; empty until the first successful reply.
    pub kicad_token: String,
}

impl KiCadConnectionConfig {
    /// The default settings for a platform, given the name of its operating
    /// system and its temporary directory: the default socket path, a client
    /// name of `kicad-ecs-` and eight random letters or digits, no token.
    pub fn for_platform(os: &str, temp_dir: &str) -> (r: Self)
        ensures
            r.socket_path@ == default_socket_path(os@, temp_dir@),
            r.client_name@.len() == 10 + CLIENT_NAME_RANDOM_LEN,
            r.client_name@.take(10) == "kicad-ecs-"@,
            forall|i: int|
                10 <= i < r.client_name@.len() ==> is_ascii_alphanumeric(#[trigger] r.client_name@[i]),
            r.kicad_token@.len() == 0,
    {
        let socket_path = if str_eq(os, "windows") {
            let mut p = String::from_str("ipc://");
            p.append(temp_dir);
            p.append("\\kicad\\api.sock");
            p
        } else {
            String::from_str("ipc:///tmp/kicad/api.sock")
        };
        let mut client_name = String::from_str("kicad-ecs-");
        let suffix = random_alphanumeric(CLIENT_NAME_RANDOM_LEN);
        client_name.append(suffix.as_str());
        proof {
            reveal_strlit("kicad-ecs-");
            assert(client_name@.take(10) =~= "kicad-ecs-"@);
            assert forall|i: int| 10 <= i < client_name@.len() implies is_ascii_alphanumeric(
                #[trigger] client_name@[i],
            ) by {
                assert(client_name@[i] == suffix@[i - 10]);
            }
        }
        KiCadConnectionConfig { socket_path, client_name, kicad_token: String::new() }
    }
}

/// The peer's version, as the client reports it.
#[derive(Debug, PartialEq)]
pub struct KiCadVersionInfo {
    pub major: u32,
    pub minor: u32,
    pub patch: u32,
    pub full: String,
}

impl KiCadVersionInfo {
    /// The version fields, verbatim.
    pub fn from_version(v: &KiCadVersion) -> (r: Self)
        ensures
            r.major == v.major,
            r.minor == v.minor,
            r.patch == v.patch,
            r.full@ == v.full_version@,
    {
        KiCadVersionInfo { major: v.major, minor: v.minor, patch: v.patch, full: v.full_version.clone() }
    }
}

/// What the client reports of a version response: the version, or zeros and
/// an empty string where it is missing.
pub open spec fn version_info_of(u: GetVersionResponse, info: KiCadVersionInfo) -> bool {
    match u.version {
        Some(v) => info.major == v.major && info.minor == v.minor && info.patch == v.patch
            && info.full@ == v.full_version@,
        None => info.major == 0 && info.minor == 0 && info.patch == 0 && info.full@.len() == 0,
    }
}

/// An open board, as the client reports it.
#[derive(Debug, PartialEq)]
pub struct BoardData {
    pub name: String,
    pub project_name: Option<String>,
    pub document: DocumentSpecifier,
}

/// The display name of a document: its file name, `nickname:entry` for a
/// library entry, the readable path of a sheet, or empty.
pub open spec fn document_name(d: DocumentSpecifier) -> Seq<char> {
    match d.identifier {
        Some(DocumentIdentifier::BoardFilename(f)) => f@,
        Some(DocumentIdentifier::LibId(l)) => l.library_nickname@ + ":"@ + l.entry_name@,
        Some(DocumentIdentifier::SheetPath(p)) => p.path_human_readable@,
        None => Seq::empty(),
    }
}

fn document_name_of(d: &DocumentSpecifier) -> (r: String)
    ensures
        r@ == document_name(*d),
{
    match &d.identifier {
        Some(DocumentIdentifier::BoardFilename(f)) => f.clone(),
        Some(DocumentIdentifier::LibId(l)) => {
            let mut s = l.library_nickname.clone();
            s.append(":");
            s.append(l.entry_name.as_str());
            s
        },
        Some(DocumentIdentifier::SheetPath(p)) => p.path_human_readable.clone(),
        None => String::new(),
    }
}

/// The document that board requests address: the first open one.
pub fn first_document(docs: Vec<DocumentSpecifier>) -> (r: Result<DocumentSpecifier, KiCadError>)
    ensures
        docs@.len() == 0 ==> r matches Err(KiCadError::NoBoardOpen),
        docs@.len() > 0 ==> r == Ok::<DocumentSpecifier, KiCadError>(docs@[0]),
{
    let mut docs = docs;
    if docs.len() == 0 {
        Err(KiCadError::NoBoardOpen)
    } else {
        Ok(docs.swap_remove(0))
    }
}

/// The board that the first open document names.
pub fn board_from_documents(docs: Vec<DocumentSpecifier>) -> (r: Result<BoardData, KiCadError>)
    ensures
        docs@.len() == 0 ==> r matches Err(KiCadError::NoBoardOpen),
        docs@.len() > 0 ==> (r matches Ok(b) && b.document == docs@[0] && b.name@ == document_name(
            docs@[0],
        ) && match b.project_name {
            Some(n) => (docs@[0].project matches Some(p) && n@ == p.name@),
            None => docs@[0].project is None,
        }),
{
    let doc = first_document(docs)?;
    let name = document_name_of(&doc);
    let project_name = match &doc.project {
        Some(p) => Some(p.name.clone()),
        None => None,
    };
    Ok(BoardData { name, project_name, document: doc })
}

/// The session token after a reply: the peer's token where the reply
/// succeeded and none was held yet; the held one otherwise.
pub open spec fn token_after(held: Seq<char>, ok: bool, server: Seq<char>) -> Seq<char> {
    if ok && held.len() == 0 {
        server
    } else {
        held
    }
}

/// Once a successful reply has brought a non-empty token, the next request
/// carries it, and a later successful reply with another token leaves it.
pub proof fn lemma_first_token_wins(t1: Seq<char>, t2: Seq<char>)
    requires
        t1.len() > 0,
    ensures
        token_after(Seq::empty(), true, t1) == t1,
        token_after(token_after(Seq::empty(), true, t1), true, t2) == t1,
{
}

/// A failed reply leaves the token as it was.
pub proof fn lemma_failed_reply_keeps_token(held: Seq<char>, server: Seq<char>)
    ensures
        token_after(held, false, server) == held,
{
}

/// Whether a response reports success; a missing status does not.
pub open spec fn response_ok(r: ApiResponse) -> bool {
    match r.status {
        Some(s) => s.status == AS_OK,
        None => false,
    }
}

/// The peer's error message; empty where the status is missing.
pub open spec fn response_error(r: ApiResponse) -> Seq<char> {
    match r.status {
        Some(s) => s.error_message@,
        None => Seq::empty(),
    }
}

/// The token in a response's header; empty where the header is missing.
pub open spec fn response_token(r: ApiResponse) -> Seq<char> {
    match r.header {
        Some(h) => h.kicad_token@,
        None => Seq::empty(),
    }
}

/// The type URL of a response's payload; empty where it is missing.
pub open spec fn payload_url(r: ApiResponse) -> Seq<char> {
    match r.message {
        Some(a) => a.type_url@,
        None => Seq::empty(),
    }
}

/// The bytes of a response's payload; empty where it is missing.
pub open spec fn payload_value(r: ApiResponse) -> Seq<u8> {
    match r.message {
        Some(a) => a.value@,
        None => Seq::empty(),
    }
}

/// How a decoded response is judged: a failed status is an API error and
/// leaves the token; a successful one settles the token and yields the
/// payload unpacked as a `U`.
pub open spec fn response_outcome<U: WireMessage>(
    held: Seq<char>,
    resp: ApiResponse,
    r: Result<U, KiCadError>,
    after: Seq<char>,
) -> bool {
    if !response_ok(resp) {
        r matches Err(KiCadError::ApiError(m)) && m@ == response_error(resp) && after == held
    } else {
        after == token_after(held, true, response_token(resp)) && match unpacked::<U>(
            payload_url(resp),
            payload_value(resp),
        ) {
            Ok(c) => r matches Ok(u) && u.fields() == c,
            Err(e) => r matches Err(e2) && e2 == e,
        }
    }
}

/// How reply bytes are judged: bytes that are no response are malformed and
/// leave the token; a response is judged as `response_outcome` says.
pub open spec fn reply_outcome<U: WireMessage>(
    held: Seq<char>,
    reply: Seq<u8>,
    r: Result<U, KiCadError>,
    after: Seq<char>,
) -> bool {
    match decoded_bytes::<ApiResponse>(reply) {
        None => r matches Err(KiCadError::MalformedEnvelope) && after == held,
        Some(c) => exists|resp: ApiResponse|
            resp.fields() == c && #[trigger] response_outcome::<U>(held, resp, r, after),
    }
}

/// The canonical fields of the request that carries `payload` for a client
/// of the given token and name.
pub open spec fn request_fields(
    token: Seq<char>,
    name: Seq<char>,
    payload_url: Seq<char>,
    payload: Seq<u8>,
) -> Seq<WireFieldV> {
    optional_nested(1, Some(single(text_field(1, token)) + single(text_field(2, name))))
        + optional_nested(2, Some(single(text_field(1, payload_url)) + single(bytes_field(2, payload))))
}

/// The client: its settings and session state. It owns no socket: each
/// operation is a request to build and a reply to judge.
#[derive(Debug, PartialEq)]
pub struct KiCadClient {
    pub config: KiCadConnectionConfig,
}

impl KiCadClient {
    pub fn new(config: KiCadConnectionConfig) -> (r: Self)
        ensures
            r.config == config,
    {
        KiCadClient { config }
    }

    /// The header of the next request: the client's name and the token held.
    pub fn attach_header(&self) -> (r: ApiRequestHeader)
        ensures
            r.client_name@ == self.config.client_name@,
            r.kicad_token@ == self.config.kicad_token@,
    {
        ApiRequestHeader {
            kicad_token: self.config.kicad_token.clone(),
            client_name: self.config.client_name.clone(),
        }
    }

    /// Takes the peer's token from a successful reply, once: the first
    /// success wins.
    pub fn observe_reply(&mut self, ok: bool, server_token: &String)
        ensures
            final(self).config.kicad_token@ == token_after(
                old(self).config.kicad_token@,
                ok,
                server_token@,
            ),
            final(self).config.socket_path == old(self).config.socket_path,
            final(self).config.client_name == old(self).config.client_name,
    {
        if ok && self.config.kicad_token.as_str().unicode_len() == 0 {
            self.config.kicad_token = server_token.clone();
        }
    }

    /// The bytes of the request that carries `message`.
    pub fn encode_request<M: WireMessage>(&self, message: &M) -> (r: Vec<u8>)
        ensures
            r@ == encode_fields(
                request_fields(
                    self.config.kicad_token@,
                    self.config.client_name@,
                    type_url_for(M::spec_schema_name()),
                    encode_fields(message.fields()),
                ),
            ),
    {
        let req = ApiRequest { header: Some(self.attach_header()), message: Some(pack(message)) };
        let r = encode_message(&req);
        assert(req.fields() =~= request_fields(
            self.config.kicad_token@,
            self.config.client_name@,
            type_url_for(M::spec_schema_name()),
            encode_fields(message.fields()),
        ));
        r
    }

    /// Judges a decoded response.
    pub fn handle_response<U: WireMessage>(&mut self, resp: &ApiResponse) -> (r: Result<U, KiCadError>)
        ensures
            response_outcome::<U>(old(self).config.kicad_token@, *resp, r, final(self).config.kicad_token@),
            final(self).config.socket_path == old(self).config.socket_path,
            final(self).config.client_name == old(self).config.client_name,
    {
        let ok = match &resp.status {
            Some(s) => s.status == AS_OK,
            None => false,
        };
        if !ok {
            let m = match &resp.status {
                Some(s) => s.error_message.clone(),
                None => String::new(),
            };
            return Err(KiCadError::ApiError(m));
        }
        let server_token = match &resp.header {
            Some(h) => h.kicad_token.clone(),
            None => String::new(),
        };
        self.observe_reply(true, &server_token);
        match &resp.message {
            Some(a) => unpack::<U>(a),
            None => {
                let empty = Any { type_url: String::new(), value: Vec::new() };
                unpack::<U>(&empty)
            },
        }
    }

    /// Judges the bytes of a reply.
    pub fn receive<U: WireMessage>(&mut self, reply: &[u8]) -> (r: Result<U, KiCadError>)
        ensures
            reply_outcome::<U>(old(self).config.kicad_token@, reply@, r, final(self).config.kicad_token@),
            final(self).config.socket_path == old(self).config.socket_path,
            final(self).config.client_name == old(self).config.client_name,
    {
        proof {
            reveal(decoded_bytes);
        }
        let resp = decode_message::<ApiResponse>(reply)?;
        self.handle_response::<U>(&resp)
    }

    /// The request for the peer's version.
    pub fn version_request(&self) -> (r: Vec<u8>)
        ensures
            r@ == encode_fields(
                request_fields(
                    self.config.kicad_token@,
                    self.config.client_name@,
                    type_url_for(GetVersion::spec_schema_name()),
                    Seq::empty(),
                ),
            ),
    {
        self.encode_request(&GetVersion {})
    }

    /// The version that a reply to `version_request` reports.
    pub fn version_from_reply(&mut self, reply: &[u8]) -> (r: Result<KiCadVersionInfo, KiCadError>)
        ensures
            exists|u: Result<GetVersionResponse, KiCadError>|
                #[trigger] reply_outcome::<GetVersionResponse>(
                    old(self).config.kicad_token@,
                    reply@,
                    u,
                    final(self).config.kicad_token@,
                ) && match u {
                    Ok(v) => r matches Ok(info) && version_info_of(v, info),
                    Err(e) => r == Err::<KiCadVersionInfo, KiCadError>(e),
                },
            final(self).config.socket_path == old(self).config.socket_path,
            final(self).config.client_name == old(self).config.client_name,
    {
        let u = self.receive::<GetVersionResponse>(reply);
        match u {
            Ok(v) => {
                let info = match &v.version {
                    Some(ver) => KiCadVersionInfo::from_version(ver),
                    None => KiCadVersionInfo { major: 0, minor: 0, patch: 0, full: String::new() },
                };
                assert(version_info_of(v, info));
                Ok(info)
            },
            Err(e) => Err(e),
        }
    }

    /// The request for the open documents of one kind.
    pub fn open_documents_request(&self, document_type: i32) -> (r: Vec<u8>)
        ensures
            r@ == encode_fields(
                request_fields(
                    self.config.kicad_token@,
                    self.config.client_name@,
                    type_url_for(GetOpenDocuments::spec_schema_name()),
                    encode_fields((GetOpenDocuments { type_: document_type }).fields()),
                ),
            ),
    {
        self.encode_request(&GetOpenDocuments { type_: document_type })
    }

    /// The documents that a reply to `open_documents_request` lists, in the
    /// peer's order; an empty list is no error.
    pub fn open_documents_from_reply(&mut self, reply: &[u8]) -> (r: Result<Vec<DocumentSpecifier>, KiCadError>)
        ensures
            exists|u: Result<GetOpenDocumentsResponse, KiCadError>|
                #[trigger] reply_outcome::<GetOpenDocumentsResponse>(
                    old(self).config.kicad_token@,
                    reply@,
                    u,
                    final(self).config.kicad_token@,
                ) && match u {
                    Ok(v) => r == Ok::<Vec<DocumentSpecifier>, KiCadError>(v.documents),
                    Err(e) => r == Err::<Vec<DocumentSpecifier>, KiCadError>(e),
                },
            final(self).config.socket_path == old(self).config.socket_path,
            final(self).config.client_name == old(self).config.client_name,
    {
        let u = self.receive::<GetOpenDocumentsResponse>(reply);
        match u {
            Ok(v) => Ok(v.documents),
            Err(e) => Err(e),
        }
    }

    /// The request for the footprints of `document`.
    pub fn footprints_request(&self, document: DocumentSpecifier) -> (r: Vec<u8>)
        ensures
            exists|g: GetItems|
                g.header == Some(ItemHeader { document: Some(document), container: None })
                    && g.types@ == seq![KOT_PCB_FOOTPRINT] && r@ == encode_fields(
                    request_fields(
                        self.config.kicad_token@,
                        self.config.client_name@,
                        type_url_for(GetItems::spec_schema_name()),
                        encode_fields(#[trigger] g.fields()),
                    ),
                ),
    {
        let mut types: Vec<i32> = Vec::new();
        types.push(KOT_PCB_FOOTPRINT);
        let g = GetItems { header: Some(ItemHeader { document: Some(document), container: None }), types };
        let r = self.encode_request(&g);
        assert(g.types@ =~= seq![KOT_PCB_FOOTPRINT]);
        r
    }

    /// The footprints that a reply to `footprints_request` holds: every item
    /// that is a footprint, flattened, in order; other items are skipped.
    pub fn footprints_from_reply(&mut self, reply: &[u8]) -> (r: Result<Vec<FootprintData>, KiCadError>)
        ensures
            exists|u: Result<GetItemsResponse, KiCadError>|
                #[trigger] reply_outcome::<GetItemsResponse>(
                    old(self).config.kicad_token@,
                    reply@,
                    u,
                    final(self).config.kicad_token@,
                ) && match u {
                    Ok(v) => r matches Ok(fs) && records_match(fs@, footprint_items(v.items@)),
                    Err(e) => r == Err::<Vec<FootprintData>, KiCadError>(e),
                },
            final(self).config.socket_path == old(self).config.socket_path,
            final(self).config.client_name == old(self).config.client_name,
    {
        let u = self.receive::<GetItemsResponse>(reply);
        match u {
            Ok(v) => Ok(decode_footprints(&v.items)),
            Err(e) => Err(e),
        }
    }
}

} // verus!
