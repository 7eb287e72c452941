//! Starting a cloud game session: the encrypted `result` blob of the
//! `playGame` reply, the server data it carries, and the queue decisions.
use vstd::prelude::*;
use base64::Engine;
use aes::cipher::{BlockDecrypt, KeyInit};
use crate::json::{
    as_str, as_u64, get, is_number, is_object, is_string, json_from_bytes, key, owned_text, slot_view,
    str_of, u64_of, JsonValue, JsonView,
};
use crate::text::{decimal, u64_to_decimal};
use vstd::string::StringSliceAdditionalSpecFns;

verus! {

broadcast use {vstd::seq::group_seq_axioms, vstd::std_specs::vec::group_vec_axioms};

/// The AES-256 key the service encrypts the `result` blob with
/// (the ASCII text `fd39e724f7c1e4b3d34bc7c72b5349c3`).
pub const RESULT_KEY: [u8; 32] = [
    102, 100, 51, 57, 101, 55, 50, 52, 102, 55, 99, 49, 101, 52, 98, 51, 100, 51, 52, 98, 99, 55,
    99, 55, 50, 98, 53, 51, 52, 57, 99, 51,
];

/// The CBC initialisation vector of the `result` blob (the ASCII text `dd39e4a3337fe25a`).
pub const RESULT_IV: [u8; 16] = [100, 100, 51, 57, 101, 52, 97, 51, 51, 51, 55, 102, 101, 50, 53, 97];

/// What the standard base64 engine (padded alphabet `A-Z a-z 0-9 + /`)
/// decodes `input` to; `None` when it refuses the input.
pub uninterp spec fn base64_standard_decoded(input: Seq<u8>) -> Option<Seq<u8>>;

/// One AES-256 block decryption of `block` under `key`.
pub uninterp spec fn aes256_decrypt_block(key: Seq<u8>, block: Seq<u8>) -> Seq<u8>;

/// `base64::engine::general_purpose::STANDARD.decode(input)`.
/// Stated: the result is the named decoding of the input's bytes.
#[verifier::external_body]
fn base64_decode(input: &str) -> (r: Option<Vec<u8>>)
    ensures
        match r {
            Some(v) => base64_standard_decoded(input.spec_bytes()) == Some(v@),
            None => base64_standard_decoded(input.spec_bytes()) is None,
        },
{
    match base64::engine::general_purpose::STANDARD.decode(input) {
        Ok(v) => Some(v),
        Err(_) => None,
    }
}

/// `Aes256::new(key).decrypt_block(block)` of the `aes` crate.
/// Stated: the result is the named block decryption, and it is one block long.
#[verifier::external_body]
fn decrypt_block(key: &[u8], block: &[u8]) -> (r: Vec<u8>)
    requires
        key@.len() == 32,
        block@.len() == 16,
    ensures
        r@ == aes256_decrypt_block(key@, block@),
        r@.len() == 16,
{
    let cipher = aes::Aes256::new(aes::cipher::generic_array::GenericArray::from_slice(key));
    let mut b = aes::Block::clone_from_slice(block);
    cipher.decrypt_block(&mut b);
    b.to_vec()
}

/// Byte-wise exclusive or of two blocks.
pub open spec fn xor_block(a: Seq<u8>, b: Seq<u8>) -> Seq<u8> {
    Seq::new(16, |i: int| a[i] ^ b[i])
}

/// AES-256 in CBC mode: each block is decrypted and combined with the
/// cipher block before it, the first with the initialisation vector.
pub open spec fn cbc_decrypt(key: Seq<u8>, prev: Seq<u8>, data: Seq<u8>) -> Seq<u8>
    decreases data.len(),
{
    if data.len() < 16 {
        Seq::empty()
    } else {
        xor_block(aes256_decrypt_block(key, data.take(16)), prev) + cbc_decrypt(
            key,
            data.take(16),
            data.skip(16),
        )
    }
}

/// Why a `result` blob could not be read.
#[derive(Debug, PartialEq, Eq, Structural)]
pub enum DecryptError {
    /// The blob is not standard base64.
    Base64,
    /// The decoded blob is empty or not a whole number of blocks; its length.
    Length(usize),
    /// The last plaintext byte is no PKCS#7 padding length; its value.
    Padding(u8),
    /// The plaintext is not JSON.
    Json,
    /// The plaintext is JSON but not an object.
    NotObject,
}

/// The plaintext once its PKCS#7 padding is cut: as many bytes as the last
/// byte says, which must be 1 to 16 (the other bytes are not checked).
pub open spec fn unpad(plain: Seq<u8>) -> Result<Seq<u8>, DecryptError> {
    let pad = plain.last();
    if pad == 0 || pad > 16 || pad > plain.len() {
        Err(DecryptError::Padding(pad))
    } else {
        Ok(plain.take(plain.len() - pad))
    }
}

/// What `decrypt_decoded` gives for the decoded blob `raw`: AES-256-CBC
/// decryption under the service's key and IV, padding cut, then a JSON object.
pub open spec fn spec_decrypt_decoded(raw: Seq<u8>) -> Result<JsonView, DecryptError> {
    if raw.len() == 0 || raw.len() % 16 != 0 {
        Err(DecryptError::Length(raw.len() as usize))
    } else {
        match unpad(cbc_decrypt(RESULT_KEY@, RESULT_IV@, raw)) {
            Err(e) => Err(e),
            Ok(plain) => match json_from_bytes(plain) {
                None => Err(DecryptError::Json),
                Some(v) => if is_object(v) {
                    Ok(v)
                } else {
                    Err(DecryptError::NotObject)
                },
            },
        }
    }
}

/// What `decrypt_result` gives for the base64 text `b64`.
pub open spec fn spec_decrypt_result(b64: Seq<u8>) -> Result<JsonView, DecryptError> {
    match base64_standard_decoded(b64) {
        None => Err(DecryptError::Base64),
        Some(raw) => spec_decrypt_decoded(raw),
    }
}

proof fn lemma_cbc_step(key: Seq<u8>, prev: Seq<u8>, data: Seq<u8>, i: int)
    requires
        0 <= i,
        i + 16 <= data.len(),
        i % 16 == 0,
    ensures
        cbc_decrypt(key, prev, data.skip(i)) == xor_block(
            aes256_decrypt_block(key, data.subrange(i, i + 16)),
            prev,
        ) + cbc_decrypt(key, data.subrange(i, i + 16), data.skip(i + 16)),
{
    assert(data.skip(i).take(16) =~= data.subrange(i, i + 16));
    assert(data.skip(i).skip(16) =~= data.skip(i + 16));
}

/// Decodes, decrypts and parses the `result` blob of a `playGame` reply.
pub fn decrypt_result(result_b64: &str) -> (r: Result<JsonValue, DecryptError>)
    ensures
        match r {
            Ok(v) => spec_decrypt_result(result_b64.spec_bytes()) == Ok::<JsonView, DecryptError>(v@),
            Err(e) => spec_decrypt_result(result_b64.spec_bytes()) == Err::<JsonView, DecryptError>(e),
        },
{
    match base64_decode(result_b64) {
        Some(raw) => decrypt_decoded(raw.as_slice()),
        None => Err(DecryptError::Base64),
    }
}

/// Decrypts and parses a `result` blob once its base64 is decoded.
pub fn decrypt_decoded(raw: &[u8]) -> (r: Result<JsonValue, DecryptError>)
    ensures
        match r {
            Ok(v) => spec_decrypt_decoded(raw@) == Ok::<JsonView, DecryptError>(v@),
            Err(e) => spec_decrypt_decoded(raw@) == Err::<JsonView, DecryptError>(e),
        },
{
    if raw.len() == 0 || raw.len() % 16 != 0 {
        return Err(DecryptError::Length(raw.len()));
    }
    let key_arr = RESULT_KEY;
    let key: &[u8] = key_arr.as_slice();
    let mut prev: Vec<u8> = Vec::new();
    let mut k: usize = 0;
    while k < 16
        invariant
            k <= 16,
            prev@ =~= RESULT_IV@.take(k as int),
        decreases 16 - k,
    {
        prev.push(RESULT_IV[k]);
        k = k + 1;
    }
    assert(RESULT_IV@.take(16) =~= RESULT_IV@);
    let mut out: Vec<u8> = Vec::new();
    let mut i: usize = 0;
    assert(raw@.skip(0) =~= raw@);
    while i < raw.len()
        invariant
            i <= raw@.len(),
            i % 16 == 0,
            raw@.len() % 16 == 0,
            key@ == RESULT_KEY@,
            prev@.len() == 16,
            cbc_decrypt(RESULT_KEY@, RESULT_IV@, raw@) == out@ + cbc_decrypt(
                RESULT_KEY@,
                prev@,
                raw@.skip(i as int),
            ),
        decreases raw@.len() - i,
    {
        let mut chunk: Vec<u8> = Vec::new();
        let mut j: usize = 0;
        assert(i + 16 <= raw@.len()) by (nonlinear_arith)
            requires
                i % 16 == 0,
                raw@.len() % 16 == 0,
                i < raw@.len(),
        ;
        while j < 16
            invariant
                j <= 16,
                i + 16 <= raw@.len(),
                raw@.len() == raw.len(),
                chunk@ =~= raw@.subrange(i as int, i + j),
            decreases 16 - j,
        {
            chunk.push(raw[i + j]);
            j = j + 1;
        }
        let dec = decrypt_block(key, chunk.as_slice());
        let mut j: usize = 0;
        let ghost before = out@;
        while j < 16
            invariant
                j <= 16,
                dec@.len() == 16,
                prev@.len() == 16,
                out@ =~= before + Seq::new(j as nat, |t: int| dec@[t] ^ prev@[t]),
            decreases 16 - j,
        {
            out.push(dec[j] ^ prev[j]);
            j = j + 1;
        }
        proof {
            lemma_cbc_step(RESULT_KEY@, prev@, raw@, i as int);
            assert(Seq::new(16 as nat, |t: int| dec@[t] ^ prev@[t]) =~= xor_block(dec@, prev@));
        }
        prev = chunk;
        i = i + 16;
    }
    assert(raw@.skip(i as int).len() == 0);
    assert(out@ + Seq::<u8>::empty() =~= out@);
    let n = out.len();
    let pad = out[n - 1];
    if pad == 0 || pad > 16 || pad as usize > n {
        return Err(DecryptError::Padding(pad));
    }
    let keep = n - pad as usize;
    let mut plain: Vec<u8> = Vec::new();
    let mut t: usize = 0;
    while t < keep
        invariant
            t <= keep <= out@.len(),
            plain@ =~= out@.take(t as int),
        decreases keep - t,
    {
        plain.push(out[t]);
        t = t + 1;
    }
    match JsonValue::parse(plain.as_slice()) {
        None => Err(DecryptError::Json),
        Some(v) => {
            if crate::json::is_obj(Some(&v)) {
                Ok(v)
            } else {
                Err(DecryptError::NotObject)
            }
        },
    }
}


/// The SDP answer and the ICE candidates the game node sent back.
#[derive(Debug)]
pub struct Rtcs {
    pub answer: String,
    pub candidates: Vec<String>,
}

/// How a play request started: the stream is ready, or the account waits in a queue.
#[derive(Debug)]
pub enum PlayStart {
    Ready(Rtcs),
    Queued { queue_id: String, position: u64 },
}

/// How polling a queued request ended: still waiting, or the stream is ready.
#[derive(Debug)]
pub enum PlayFinish {
    StillQueued { position: u64 },
    Ready(Rtcs),
}

/// An identifier given as a string or as a non-negative integer, as text.
pub open spec fn spec_as_id(v: JsonView) -> Option<Seq<char>> {
    match as_str(v) {
        Some(s) => Some(s),
        None => match as_u64(v) {
            Some(n) => Some(decimal(n as nat)),
            None => None,
        },
    }
}

pub fn as_id(v: Option<&JsonValue>) -> (r: Option<String>)
    ensures
        owned_text(r) == spec_as_id(slot_view(v)),
{
    match str_of(v) {
        Some(s) => Some(s.clone()),
        None => match u64_of(v) {
            Some(n) => Some(u64_to_decimal(n)),
            None => None,
        },
    }
}

/// Why the decrypted server data is unusable.
#[derive(Debug, PartialEq, Eq, Structural)]
pub enum ServerDataError {
    MissingScId,
    MissingGlKey,
    MissingUrl,
    MissingToken,
}

/// The fields of the decrypted server data that the signalling needs.
#[derive(Debug)]
pub struct ServerData {
    pub sc_id: String,
    pub bs_sc_id: JsonValue,
    pub gl_key: String,
    pub play_config: JsonValue,
    pub ws_url: String,
    pub ws_token: String,
}

/// The session id of the game node: `bs_sc_id` when it is an integer or a
/// string, else the session id as a string.
pub open spec fn spec_bs_sc_id(data: JsonView, sc_id: Seq<char>) -> JsonView {
    match as_u64(get(data, "bs_sc_id"@)) {
        Some(n) => JsonView::PosInt(n),
        None => match as_str(get(data, "bs_sc_id"@)) {
            Some(s) => JsonView::Str(s),
            None => JsonView::Str(sc_id),
        },
    }
}

/// What `parse_server_data` reads, or the first field it misses.
pub open spec fn spec_parse_server_data(data: JsonView) -> Result<
    (Seq<char>, JsonView, Seq<char>, JsonView, Seq<char>, Seq<char>),
    ServerDataError,
> {
    let sc = match spec_as_id(get(data, "sc_id"@)) {
        Some(id) => Some(id),
        None => spec_as_id(get(data, "play_id"@)),
    };
    let server = get(data, "message_server"@);
    match sc {
        None => Err(ServerDataError::MissingScId),
        Some(sc_id) => match as_str(get(data, "gl_key"@)) {
            None => Err(ServerDataError::MissingGlKey),
            Some(gl_key) => match as_str(get(server, "url"@)) {
                None => Err(ServerDataError::MissingUrl),
                Some(url) => match as_str(get(server, "token"@)) {
                    None => Err(ServerDataError::MissingToken),
                    Some(token) => Ok(
                        (
                            sc_id,
                            spec_bs_sc_id(data, sc_id),
                            gl_key,
                            get(data, "play_config"@),
                            url,
                            token,
                        ),
                    ),
                },
            },
        },
    }
}

impl ServerData {
    pub open spec fn fields(&self) -> (Seq<char>, JsonView, Seq<char>, JsonView, Seq<char>, Seq<char>) {
        (self.sc_id@, self.bs_sc_id@, self.gl_key@, self.play_config@, self.ws_url@, self.ws_token@)
    }
}

/// Reads the session id, node key, play configuration and signalling link
/// out of the decrypted server data.
pub fn parse_server_data(server_data: &JsonValue) -> (r: Result<ServerData, ServerDataError>)
    ensures
        match r {
            Ok(d) => spec_parse_server_data(server_data@) == Ok::<_, ServerDataError>(d.fields()),
            Err(e) => spec_parse_server_data(server_data@) == Err::<
                (Seq<char>, JsonView, Seq<char>, JsonView, Seq<char>, Seq<char>),
                ServerDataError,
            >(e),
        },
{
    let data = Some(server_data);
    let sc_id = match as_id(key(data, "sc_id")) {
        Some(id) => id,
        None => match as_id(key(data, "play_id")) {
            Some(id) => id,
            None => return Err(ServerDataError::MissingScId),
        },
    };
    let bs = key(data, "bs_sc_id");
    let bs_sc_id = match u64_of(bs) {
        Some(n) => JsonValue::PosInt(n),
        None => match str_of(bs) {
            Some(s) => JsonValue::Str(s.clone()),
            None => JsonValue::Str(sc_id.clone()),
        },
    };
    let gl_key = match str_of(key(data, "gl_key")) {
        Some(k) => k.clone(),
        None => return Err(ServerDataError::MissingGlKey),
    };
    let play_config = match key(data, "play_config") {
        Some(v) => v.duplicate(),
        None => JsonValue::Null,
    };
    let server = key(data, "message_server");
    let ws_url = match str_of(key(server, "url")) {
        Some(u) => u.clone(),
        None => return Err(ServerDataError::MissingUrl),
    };
    let ws_token = match str_of(key(server, "token")) {
        Some(t) => t.clone(),
        None => return Err(ServerDataError::MissingToken),
    };
    Ok(ServerData { sc_id, bs_sc_id, gl_key, play_config, ws_url, ws_token })
}

/// Why a play could not go on to signalling.
#[derive(Debug, PartialEq, Eq, Structural)]
pub enum StartError {
    /// The reply put the account in a queue but gave no queue id.
    QueuedWithoutId,
    /// The reply carried no encrypted `result`.
    NoResult,
    /// The `result` blob could not be read.
    Decrypt(DecryptError),
    /// The server data lacks a field.
    ServerData(ServerDataError),
}

/// What a `playGame` reply asks for next.
#[derive(Debug)]
pub enum PlayReply {
    /// Wait in the queue under this id, at this position.
    Queued { queue_id: String, position: u64 },
    /// A node was assigned; its data is in this encrypted blob.
    Assigned { result: String },
}

/// The reply queues the request: status 201, or status 200 with a queue
/// id given as a string or a number.
pub open spec fn spec_is_queued(play: JsonView) -> bool {
    let status = as_u64(get(play, "status"@));
    let qid = get(get(play, "data"@), "play_queue_id"@);
    status == Some(201u64) || (status == Some(200u64) && (is_string(qid) || is_number(qid)))
}

/// The encrypted `data.result` of a reply.
pub open spec fn spec_result_of(play: JsonView) -> Option<Seq<char>> {
    as_str(get(get(play, "data"@), "result"@))
}

/// The queue id, queue position (1 when absent) or encrypted result a
/// `playGame` reply hands back.
pub open spec fn spec_read_play_reply(play: JsonView) -> Result<
    (bool, Seq<char>, u64),
    StartError,
> {
    let data = get(play, "data"@);
    if spec_is_queued(play) {
        match spec_as_id(get(data, "play_queue_id"@)) {
            Some(id) => Ok(
                (
                    true,
                    id,
                    match as_u64(get(data, "queue_pos"@)) {
                        Some(p) => p,
                        None => 1u64,
                    },
                ),
            ),
            None => Err(StartError::QueuedWithoutId),
        }
    } else {
        match spec_result_of(play) {
            Some(res) => Ok((false, res, 0u64)),
            None => Err(StartError::NoResult),
        }
    }
}

impl PlayReply {
    pub open spec fn summary(&self) -> (bool, Seq<char>, u64) {
        match self {
            PlayReply::Queued { queue_id, position } => (true, queue_id@, *position),
            PlayReply::Assigned { result } => (false, result@, 0u64),
        }
    }
}

/// The branch `get_rtc` takes on a `playGame` reply.
pub fn read_play_reply(play: &JsonValue) -> (r: Result<PlayReply, StartError>)
    ensures
        match r {
            Ok(p) => spec_read_play_reply(play@) == Ok::<_, StartError>(p.summary()),
            Err(e) => spec_read_play_reply(play@) == Err::<(bool, Seq<char>, u64), StartError>(e),
        },
{
    let p = Some(play);
    let status = u64_of(key(p, "status"));
    let data = key(p, "data");
    let qid = key(data, "play_queue_id");
    let queued = status == Some(201u64) || (status == Some(200u64) && (crate::json::is_str(qid)
        || crate::json::is_num(qid)));
    if queued {
        match as_id(qid) {
            Some(queue_id) => {
                let position = match u64_of(key(data, "queue_pos")) {
                    Some(pos) => pos,
                    None => 1,
                };
                Ok(PlayReply::Queued { queue_id, position })
            },
            None => Err(StartError::QueuedWithoutId),
        }
    } else {
        match str_of(key(data, "result")) {
            Some(res) => Ok(PlayReply::Assigned { result: res.clone() }),
            None => Err(StartError::NoResult),
        }
    }
}

/// The encrypted result of the reply to a queue claim.
pub fn claim_result(claim: &JsonValue) -> (r: Option<String>)
    ensures
        owned_text(r) == spec_result_of(claim@),
{
    match str_of(key(key(Some(claim), "data"), "result")) {
        Some(res) => Some(res.clone()),
        None => None,
    }
}

/// What the node assignment in a `result` blob says.
pub open spec fn spec_server_from_result(b64: Seq<u8>) -> Result<
    (Seq<char>, JsonView, Seq<char>, JsonView, Seq<char>, Seq<char>),
    StartError,
> {
    match spec_decrypt_result(b64) {
        Err(e) => Err(StartError::Decrypt(e)),
        Ok(data) => match spec_parse_server_data(data) {
            Err(e) => Err(StartError::ServerData(e)),
            Ok(fields) => Ok(fields),
        },
    }
}

/// Decrypts a `result` blob and reads the node assignment out of it.
pub fn server_from_result(result_b64: &str) -> (r: Result<ServerData, StartError>)
    ensures
        match r {
            Ok(d) => spec_server_from_result(result_b64.spec_bytes()) == Ok::<_, StartError>(d.fields()),
            Err(e) => spec_server_from_result(result_b64.spec_bytes()) == Err::<
                (Seq<char>, JsonView, Seq<char>, JsonView, Seq<char>, Seq<char>),
                StartError,
            >(e),
        },
{
    match decrypt_result(result_b64) {
        Err(e) => Err(StartError::Decrypt(e)),
        Ok(data) => match parse_server_data(&data) {
            Err(e) => Err(StartError::ServerData(e)),
            Ok(d) => Ok(d),
        },
    }
}

/// After a queue poll: still waiting unless the position reached zero.
pub fn after_queue_poll(position: u64) -> (r: Option<PlayFinish>)
    ensures
        position != 0 <==> r is Some,
        r matches Some(PlayFinish::StillQueued { position: p }) ==> p == position,
        r matches Some(f) ==> f is StillQueued,
{
    if position != 0 {
        Some(PlayFinish::StillQueued { position })
    } else {
        None
    }
}

} // verus!
