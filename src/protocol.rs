//! Messages of the transcription service's wire protocol.
//!
//! Outbound there is one message, an audio chunk: little-endian 16-bit PCM
//! in standard base64, with an optional commit flag. Inbound messages are
//! told apart by their `message_type` member.
use vstd::prelude::*;
use vstd::string::*;

use crate::text::{digit_char, str_eq};

verus! {

/// serde_json's error, carried as an opaque value.
#[verifier::external_type_specification]
#[verifier::external_body]
pub struct ExJsonError(serde_json::Error);

/// A JSON value of serde_json, carried as an opaque value.
#[verifier::external_type_specification]
#[verifier::external_body]
pub struct ExJsonValue(serde_json::Value);

/// A JSON number of serde_json, carried as an opaque value.
#[verifier::external_type_specification]
#[verifier::external_body]
pub struct ExJsonNumber(serde_json::Number);

/// Low byte of a sample's two's-complement form.
pub open spec fn low_byte(x: i16) -> u8 {
    ((x as u16) % 256) as u8
}

/// High byte of a sample's two's-complement form.
pub open spec fn high_byte(x: i16) -> u8 {
    ((x as u16) / 256) as u8
}

/// The samples as little-endian bytes, two per sample, in order.
pub open spec fn pcm_le_bytes(pcm: Seq<i16>) -> Seq<u8> {
    Seq::new(
        2 * pcm.len(),
        |j: int|
            if j % 2 == 0 {
                low_byte(pcm[j / 2])
            } else {
                high_byte(pcm[j / 2])
            },
    )
}

/// The character of the standard base64 alphabet for `v < 64`.
pub open spec fn b64_char(v: nat) -> char {
    if v < 26 {
        (65 + v) as char
    } else if v < 52 {
        (97 + (v - 26)) as char
    } else if v < 62 {
        (48 + (v - 52)) as char
    } else if v == 62 {
        '+'
    } else {
        '/'
    }
}

/// The four characters for a group of one to three bytes: the 24 bits of
/// the group (missing bytes as zero) in four 6-bit digits, with `=` for
/// each digit that only missing bytes fill.
pub open spec fn b64_group(b: Seq<u8>) -> Seq<char> {
    let b1: nat = if b.len() > 1 {
        b[1] as nat
    } else {
        0
    };
    let b2: nat = if b.len() > 2 {
        b[2] as nat
    } else {
        0
    };
    let n: nat = (b[0] as nat) * 65536 + b1 * 256 + b2;
    seq![
        b64_char(n / 262144),
        b64_char((n / 4096) % 64),
        if b.len() > 1 {
            b64_char((n / 64) % 64)
        } else {
            '='
        },
        if b.len() > 2 {
            b64_char(n % 64)
        } else {
            '='
        },
    ]
}

/// The padded standard-alphabet base64 text of `bytes`: each group of three
/// bytes, the last one possibly shorter, as four characters.
pub open spec fn base64_standard(bytes: Seq<u8>) -> Seq<char>
    decreases bytes.len(),
{
    if bytes.len() == 0 {
        Seq::empty()
    } else if bytes.len() <= 3 {
        b64_group(bytes)
    } else {
        b64_group(bytes.subrange(0, 3)) + base64_standard(bytes.subrange(3, bytes.len() as int))
    }
}

/// Relies on base64's `STANDARD` engine (`Engine::encode`): the padded
/// standard-alphabet encoding of `bytes`, four characters for each started
/// group of three bytes. The engine panics where that length overflows
/// `usize`, which `requires` leaves out.
#[verifier::external_body]
fn encode_base64(bytes: &[u8]) -> (r: String)
    requires
        4 * ((bytes@.len() + 2) / 3) <= usize::MAX,
    ensures
        r@ == base64_standard(bytes@),
        r@.len() == 4 * ((bytes@.len() + 2) / 3),
{
    base64::Engine::encode(&base64::engine::general_purpose::STANDARD, bytes)
}

/// The lower-case hexadecimal digit for `d < 16`.
pub open spec fn hex_digit(d: nat) -> char {
    if d < 10 {
        digit_char(d)
    } else if d == 10 {
        'a'
    } else if d == 11 {
        'b'
    } else if d == 12 {
        'c'
    } else if d == 13 {
        'd'
    } else if d == 14 {
        'e'
    } else {
        'f'
    }
}

/// How one character is written inside a JSON string literal: quote and
/// backslash are escaped, the five control characters with short forms use
/// them, every other character below 0x20 is written `\u00xx`, and all
/// else is copied.
pub open spec fn json_escaped_char(c: char) -> Seq<char> {
    if c == '"' {
        seq!['\\', '"']
    } else if c == '\\' {
        seq!['\\', '\\']
    } else if c == '\x08' {
        seq!['\\', 'b']
    } else if c == '\t' {
        seq!['\\', 't']
    } else if c == '\n' {
        seq!['\\', 'n']
    } else if c == '\x0C' {
        seq!['\\', 'f']
    } else if c == '\r' {
        seq!['\\', 'r']
    } else if (c as u32) < 0x20 {
        seq!['\\', 'u', '0', '0', hex_digit((c as u32 as nat) / 16), hex_digit((c as u32 as nat) % 16)]
    } else {
        seq![c]
    }
}

/// The characters of `s`, each written as inside a JSON string literal.
pub open spec fn json_escaped(s: Seq<char>) -> Seq<char>
    decreases s.len(),
{
    if s.len() == 0 {
        Seq::empty()
    } else {
        json_escaped(s.drop_last()) + json_escaped_char(s.last())
    }
}

/// `s` as a JSON string literal.
pub open spec fn json_quoted(s: Seq<char>) -> Seq<char> {
    seq!['"'] + json_escaped(s) + seq!['"']
}

/// Relies on serde_json::to_string on a `str` (`format_escaped_str`): the
/// string as a JSON string literal. Serializing a `str` into the in-memory
/// buffer cannot fail.
#[verifier::external_body]
fn quote_json(s: &str) -> (r: Result<String, serde_json::Error>)
    ensures
        r is Ok,
        r matches Ok(t) ==> t@ == json_quoted(s@),
{
    serde_json::to_string(s)
}

/// The little-endian bytes of `pcm`.
pub fn pcm_to_le_bytes(pcm: &[i16]) -> (r: Vec<u8>)
    requires
        2 * pcm@.len() <= usize::MAX,
    ensures
        r@ == pcm_le_bytes(pcm@),
{
    let mut bytes: Vec<u8> = Vec::with_capacity(2 * pcm.len());
    let mut i: usize = 0;
    while i < pcm.len()
        invariant
            i <= pcm@.len(),
            bytes@.len() == 2 * i,
            forall|j: int| 0 <= j < 2 * i ==> #[trigger] bytes@[j] == pcm_le_bytes(pcm@)[j],
        decreases pcm@.len() - i,
    {
        let x = pcm[i];
        let u = x as u16;
        bytes.push((u % 256) as u8);
        bytes.push((u / 256) as u8);
        i = i + 1;
    }
    assert(bytes@ == pcm_le_bytes(pcm@));
    bytes
}

#[derive(Debug, Clone)]
pub enum ClientMessage {
    /// An audio chunk; `commit` asks the service to finalize the utterance.
    AudioChunk { audio_base_64: String, commit: Option<bool> },
}

/// The payload of an audio chunk that carries `pcm`.
pub open spec fn chunk_payload(pcm: Seq<i16>) -> Seq<char> {
    base64_standard(pcm_le_bytes(pcm))
}

/// The JSON text of an audio chunk whose payload, as a JSON string literal,
/// is `quoted`.
pub open spec fn chunk_json(quoted: Seq<char>, commit: Option<bool>) -> Seq<char> {
    "{\"message_type\":\"input_audio_chunk\",\"audio_base_64\":"@ + quoted + match commit {
        Some(true) => ",\"commit\":true}"@,
        Some(false) => ",\"commit\":false}"@,
        None => "}"@,
    }
}

impl ClientMessage {
    /// An audio chunk that carries `pcm_data`, without a commit flag.
    pub fn audio_chunk(pcm_data: &[i16]) -> (r: Self)
        requires
            pcm_data@.len() <= usize::MAX / 4,
        ensures
            r.payload() == chunk_payload(pcm_data@),
            r.commit_flag() is None,
    {
        let bytes = pcm_to_le_bytes(pcm_data);
        assert(4 * ((bytes@.len() + 2) / 3) <= usize::MAX) by (nonlinear_arith)
            requires
                bytes@.len() == 2 * pcm_data@.len(),
                pcm_data@.len() <= usize::MAX / 4,
        ;
        let audio_base_64 = encode_base64(bytes.as_slice());
        ClientMessage::AudioChunk { audio_base_64, commit: None }
    }

    /// The payload of the message.
    pub open spec fn payload(&self) -> Seq<char> {
        match self {
            ClientMessage::AudioChunk { audio_base_64, .. } => audio_base_64@,
        }
    }

    /// The commit flag of the message.
    pub open spec fn commit_flag(&self) -> Option<bool> {
        match self {
            ClientMessage::AudioChunk { commit, .. } => *commit,
        }
    }

    /// A commit: an empty payload with the commit flag set.
    pub fn commit() -> (r: Self)
        ensures
            r.payload().len() == 0,
            r.commit_flag() == Some(true),
    {
        ClientMessage::AudioChunk { audio_base_64: String::new(), commit: Some(true) }
    }

    /// The message as JSON text: the `message_type` tag, the payload, and the
    /// commit flag only where it is set.
    pub fn to_json(&self) -> (r: Result<String, serde_json::Error>)
        ensures
            r is Ok,
            r matches Ok(t) ==> t@ == chunk_json(json_quoted(self.payload()), self.commit_flag()),
            r matches Ok(t) ==> (self.payload().len() == 0 ==> t@ == chunk_json(
                seq!['"', '"'],
                self.commit_flag(),
            )),
    {
        match self {
            ClientMessage::AudioChunk { audio_base_64, commit } => {
                let quoted = match quote_json(audio_base_64.as_str()) {
                    Ok(q) => q,
                    Err(e) => {
                        return Err(e);
                    },
                };
                proof {
                    if audio_base_64@.len() == 0 {
                        assert(json_escaped(audio_base_64@) =~= Seq::<char>::empty());
                        assert(json_quoted(audio_base_64@) =~= seq!['"', '"']);
                    }
                }
                let mut out = String::from_str(
                    "{\"message_type\":\"input_audio_chunk\",\"audio_base_64\":",
                );
                out.append(quoted.as_str());
                match commit {
                    Some(true) => out.append(",\"commit\":true}"),
                    Some(false) => out.append(",\"commit\":false}"),
                    None => out.append("}"),
                }
                Ok(out)
            },
        }
    }
}


/// Relies on serde_json::Value::Null: the JSON `null` value, which stands
/// for a configuration that the service did not send.
#[verifier::external_body]
fn json_null() -> (r: serde_json::Value) {
    serde_json::Value::Null
}

/// A message from the service.
#[derive(Debug)]
pub enum ServerMessage {
    SessionStarted { session_id: String, config: serde_json::Value },
    PartialTranscript { text: String, created_at_ms: Option<u64> },
    CommittedTranscript { text: String, confidence: Option<serde_json::Number> },
    InputError { error_message: String },
    SessionEnded { reason: String },
    AuthError { error: String },
    CommitThrottled { error: String },
}

/// The members of an inbound JSON object that the protocol reads, each as
/// found in the object; an absent member is `None`.
pub struct InboundFields {
    pub message_type: Option<String>,
    pub session_id: Option<String>,
    pub config: Option<serde_json::Value>,
    pub text: Option<String>,
    pub created_at_ms: Option<u64>,
    pub confidence: Option<serde_json::Number>,
    pub error_message: Option<String>,
    pub reason: Option<String>,
    pub error: Option<String>,
}

/// Why an inbound object is not a message.
#[derive(Debug)]
pub enum ProtocolError {
    /// A member that the message type requires is absent; carries its name.
    MissingField(String),
    /// The `message_type` is none of the known ones; carries it.
    UnknownMessageType(String),
}

/// Whether `o` holds a string whose characters are `v`.
pub open spec fn opt_str_is(o: Option<String>, v: Seq<char>) -> bool {
    match o {
        Some(s) => s@ == v,
        None => false,
    }
}

/// The characters of `o`, or none where it is absent.
pub open spec fn opt_view(o: Option<String>) -> Seq<char> {
    match o {
        Some(s) => s@,
        None => Seq::empty(),
    }
}

/// Whether `c` is the configuration member `o` (any value where absent).
pub open spec fn config_from(c: serde_json::Value, o: Option<serde_json::Value>) -> bool {
    match o {
        Some(v) => c == v,
        None => true,
    }
}

/// The seven inbound message types.
pub open spec fn known_type(t: Seq<char>) -> bool {
    t == "session_started"@ || t == "partial_transcript"@ || t == "committed_transcript"@ || t
        == "input_error"@ || t == "session_ended"@ || t == "auth_error"@ || t
        == "commit_throttled"@
}

/// The name of the first member that `f`'s message type requires and that
/// `f` lacks, if any.
pub open spec fn missing_member(f: InboundFields) -> Option<Seq<char>> {
    match f.message_type {
        None => Some("message_type"@),
        Some(t) => if t@ == "session_started"@ {
            if f.session_id is None {
                Some("session_id"@)
            } else {
                None
            }
        } else if t@ == "partial_transcript"@ || t@ == "committed_transcript"@ {
            if f.text is None {
                Some("text"@)
            } else {
                None
            }
        } else if t@ == "input_error"@ {
            if f.error_message is None {
                Some("error_message"@)
            } else {
                None
            }
        } else if t@ == "auth_error"@ || t@ == "commit_throttled"@ {
            if f.error is None {
                Some("error"@)
            } else {
                None
            }
        } else {
            None
        },
    }
}

/// Whether `f` is a message: a known type with every member it requires.
pub open spec fn accepted(f: InboundFields) -> bool {
    match f.message_type {
        Some(t) => known_type(t@) && missing_member(f) is None,
        None => false,
    }
}

/// Whether `e` is the error that `f` deserves.
pub open spec fn reports(e: ProtocolError, f: InboundFields) -> bool {
    match e {
        ProtocolError::MissingField(name) => missing_member(f) == Some(name@),
        ProtocolError::UnknownMessageType(t) => match f.message_type {
            Some(mt) => !known_type(mt@) && t@ == mt@,
            None => false,
        },
    }
}

/// Whether `m` is the message that `f` describes.
pub open spec fn decoded(m: ServerMessage, f: InboundFields) -> bool {
    match m {
        ServerMessage::SessionStarted { session_id, config } => opt_str_is(
            f.message_type,
            "session_started"@,
        ) && opt_str_is(f.session_id, session_id@) && config_from(config, f.config),
        ServerMessage::PartialTranscript { text, created_at_ms } => opt_str_is(
            f.message_type,
            "partial_transcript"@,
        ) && opt_str_is(f.text, text@) && created_at_ms == f.created_at_ms,
        ServerMessage::CommittedTranscript { text, confidence } => opt_str_is(
            f.message_type,
            "committed_transcript"@,
        ) && opt_str_is(f.text, text@) && confidence == f.confidence,
        ServerMessage::InputError { error_message } => opt_str_is(
            f.message_type,
            "input_error"@,
        ) && opt_str_is(f.error_message, error_message@),
        ServerMessage::SessionEnded { reason } => opt_str_is(f.message_type, "session_ended"@)
            && reason@ == opt_view(f.reason),
        ServerMessage::AuthError { error } => opt_str_is(f.message_type, "auth_error"@)
            && opt_str_is(f.error, error@),
        ServerMessage::CommitThrottled { error } => opt_str_is(
            f.message_type,
            "commit_throttled"@,
        ) && opt_str_is(f.error, error@),
    }
}

/// Whether `f` is the documented wire form of `m`: its type name and the
/// members of its variant.
pub open spec fn carries(f: InboundFields, m: ServerMessage) -> bool {
    match m {
        ServerMessage::SessionStarted { session_id, config } => opt_str_is(
            f.message_type,
            "session_started"@,
        ) && opt_str_is(f.session_id, session_id@) && f.config == Some(config),
        ServerMessage::PartialTranscript { text, created_at_ms } => opt_str_is(
            f.message_type,
            "partial_transcript"@,
        ) && opt_str_is(f.text, text@) && f.created_at_ms == created_at_ms,
        ServerMessage::CommittedTranscript { text, confidence } => opt_str_is(
            f.message_type,
            "committed_transcript"@,
        ) && opt_str_is(f.text, text@) && f.confidence == confidence,
        ServerMessage::InputError { error_message } => opt_str_is(
            f.message_type,
            "input_error"@,
        ) && opt_str_is(f.error_message, error_message@),
        ServerMessage::SessionEnded { reason } => opt_str_is(f.message_type, "session_ended"@)
            && opt_str_is(f.reason, reason@),
        ServerMessage::AuthError { error } => opt_str_is(f.message_type, "auth_error"@)
            && opt_str_is(f.error, error@),
        ServerMessage::CommitThrottled { error } => opt_str_is(
            f.message_type,
            "commit_throttled"@,
        ) && opt_str_is(f.error, error@),
    }
}

/// Whether two messages are the same variant with the same members.
pub open spec fn same_message(a: ServerMessage, b: ServerMessage) -> bool {
    match (a, b) {
        (
            ServerMessage::SessionStarted { session_id: s1, config: c1 },
            ServerMessage::SessionStarted { session_id: s2, config: c2 },
        ) => s1@ == s2@ && c1 == c2,
        (
            ServerMessage::PartialTranscript { text: t1, created_at_ms: a1 },
            ServerMessage::PartialTranscript { text: t2, created_at_ms: a2 },
        ) => t1@ == t2@ && a1 == a2,
        (
            ServerMessage::CommittedTranscript { text: t1, confidence: c1 },
            ServerMessage::CommittedTranscript { text: t2, confidence: c2 },
        ) => t1@ == t2@ && c1 == c2,
        (
            ServerMessage::InputError { error_message: e1 },
            ServerMessage::InputError { error_message: e2 },
        ) => e1@ == e2@,
        (
            ServerMessage::SessionEnded { reason: r1 },
            ServerMessage::SessionEnded { reason: r2 },
        ) => r1@ == r2@,
        (ServerMessage::AuthError { error: e1 }, ServerMessage::AuthError { error: e2 }) => e1@
            == e2@,
        (
            ServerMessage::CommitThrottled { error: e1 },
            ServerMessage::CommitThrottled { error: e2 },
        ) => e1@ == e2@,
        _ => false,
    }
}

/// The seven type names have different lengths, so no two are equal.
proof fn lemma_type_names_differ()
    ensures
        "session_started"@.len() == 15,
        "partial_transcript"@.len() == 18,
        "committed_transcript"@.len() == 20,
        "input_error"@.len() == 11,
        "session_ended"@.len() == 13,
        "auth_error"@.len() == 10,
        "commit_throttled"@.len() == 16,
{
    reveal_strlit("session_started");
    reveal_strlit("partial_transcript");
    reveal_strlit("committed_transcript");
    reveal_strlit("input_error");
    reveal_strlit("session_ended");
    reveal_strlit("auth_error");
    reveal_strlit("commit_throttled");
}

fn missing(name: &str) -> (r: Result<ServerMessage, ProtocolError>)
    ensures
        r matches Err(ProtocolError::MissingField(n)) && n@ == name@,
{
    Err(ProtocolError::MissingField(String::from_str(name)))
}

impl ServerMessage {
    /// The message that the members `f` describe, told apart by
    /// `message_type`; an unknown type or an absent required member is an
    /// error. `reason` defaults to empty and `config` to `null`.
    pub fn from_fields(f: InboundFields) -> (r: Result<ServerMessage, ProtocolError>)
        ensures
            r is Ok <==> accepted(f),
            r matches Ok(m) ==> decoded(m, f),
            r matches Err(e) ==> reports(e, f),
    {
        proof {
            lemma_type_names_differ();
        }
        let InboundFields {
            message_type,
            session_id,
            config,
            text,
            created_at_ms,
            confidence,
            error_message,
            reason,
            error,
        } = f;
        let t = match message_type {
            Some(t) => t,
            None => {
                return missing("message_type");
            },
        };
        let ts = t.as_str();
        if str_eq(ts, "session_started") {
            match session_id {
                Some(session_id) => {
                    let config = match config {
                        Some(v) => v,
                        None => json_null(),
                    };
                    Ok(ServerMessage::SessionStarted { session_id, config })
                },
                None => missing("session_id"),
            }
        } else if str_eq(ts, "partial_transcript") {
            match text {
                Some(text) => Ok(ServerMessage::PartialTranscript { text, created_at_ms }),
                None => missing("text"),
            }
        } else if str_eq(ts, "committed_transcript") {
            match text {
                Some(text) => Ok(ServerMessage::CommittedTranscript { text, confidence }),
                None => missing("text"),
            }
        } else if str_eq(ts, "input_error") {
            match error_message {
                Some(error_message) => Ok(ServerMessage::InputError { error_message }),
                None => missing("error_message"),
            }
        } else if str_eq(ts, "session_ended") {
            let reason = match reason {
                Some(r) => r,
                None => String::new(),
            };
            Ok(ServerMessage::SessionEnded { reason })
        } else if str_eq(ts, "auth_error") {
            match error {
                Some(error) => Ok(ServerMessage::AuthError { error }),
                None => missing("error"),
            }
        } else if str_eq(ts, "commit_throttled") {
            match error {
                Some(error) => Ok(ServerMessage::CommitThrottled { error }),
                None => missing("error"),
            }
        } else {
            Err(ProtocolError::UnknownMessageType(t))
        }
    }

    /// The documented wire form of the message: its type name and the
    /// members of its variant, the others absent.
    pub fn into_fields(self) -> (r: InboundFields)
        ensures
            carries(r, self),
    {
        let mut f = InboundFields {
            message_type: None,
            session_id: None,
            config: None,
            text: None,
            created_at_ms: None,
            confidence: None,
            error_message: None,
            reason: None,
            error: None,
        };
        match self {
            ServerMessage::SessionStarted { session_id, config } => {
                f.message_type = Some(String::from_str("session_started"));
                f.session_id = Some(session_id);
                f.config = Some(config);
            },
            ServerMessage::PartialTranscript { text, created_at_ms } => {
                f.message_type = Some(String::from_str("partial_transcript"));
                f.text = Some(text);
                f.created_at_ms = created_at_ms;
            },
            ServerMessage::CommittedTranscript { text, confidence } => {
                f.message_type = Some(String::from_str("committed_transcript"));
                f.text = Some(text);
                f.confidence = confidence;
            },
            ServerMessage::InputError { error_message } => {
                f.message_type = Some(String::from_str("input_error"));
                f.error_message = Some(error_message);
            },
            ServerMessage::SessionEnded { reason } => {
                f.message_type = Some(String::from_str("session_ended"));
                f.reason = Some(reason);
            },
            ServerMessage::AuthError { error } => {
                f.message_type = Some(String::from_str("auth_error"));
                f.error = Some(error);
            },
            ServerMessage::CommitThrottled { error } => {
                f.message_type = Some(String::from_str("commit_throttled"));
                f.error = Some(error);
            },
        }
        f
    }

    /// An input or authentication error.
    pub fn is_error(&self) -> (r: bool)
        ensures
            r == (*self is InputError || *self is AuthError),
    {
        matches!(self, ServerMessage::InputError { .. } | ServerMessage::AuthError { .. })
    }

    /// A throttled commit: a warning, not an error.
    pub fn is_warning(&self) -> (r: bool)
        ensures
            r == (*self is CommitThrottled),
    {
        matches!(self, ServerMessage::CommitThrottled { .. })
    }

    /// A partial or committed transcript.
    pub fn is_transcript(&self) -> (r: bool)
        ensures
            r == (*self is PartialTranscript || *self is CommittedTranscript),
    {
        matches!(
            self,
            ServerMessage::PartialTranscript { .. } | ServerMessage::CommittedTranscript { .. }
        )
    }

    /// The text of a transcript; none for other messages.
    pub fn text(&self) -> (r: Option<&str>)
        ensures
            match *self {
                ServerMessage::PartialTranscript { text, .. } => r matches Some(t) && t@ == text@,
                ServerMessage::CommittedTranscript { text, .. } => r matches Some(t) && t@
                    == text@,
                _ => r is None,
            },
    {
        match self {
            ServerMessage::PartialTranscript { text, .. } => Some(text.as_str()),
            ServerMessage::CommittedTranscript { text, .. } => Some(text.as_str()),
            _ => None,
        }
    }
}

/// A message put in its documented wire form and read back is accepted,
/// and what is read back is the same variant with the same members.
pub proof fn lemma_inbound_round_trip(m: ServerMessage, f: InboundFields, back: ServerMessage)
    requires
        carries(f, m),
        decoded(back, f),
    ensures
        accepted(f),
        same_message(back, m),
{
    lemma_type_names_differ();
}

/// The wire form of a commit: what `to_json` returns for a message with an
/// empty payload and the commit flag set is exactly
/// `{"message_type":"input_audio_chunk","audio_base_64":"","commit":true}`.
pub proof fn lemma_commit_json(m: ClientMessage, t: Seq<char>)
    requires
        m.payload().len() == 0,
        m.commit_flag() == Some(true),
        t == chunk_json(json_quoted(m.payload()), m.commit_flag()),
    ensures
        t == "{\"message_type\":\"input_audio_chunk\",\"audio_base_64\":\"\",\"commit\":true}"@,
{
    assert(json_escaped(m.payload()) =~= Seq::<char>::empty());
    assert(json_quoted(m.payload()) =~= seq!['"', '"']);
    reveal_strlit("{\"message_type\":\"input_audio_chunk\",\"audio_base_64\":");
    reveal_strlit(",\"commit\":true}");
    reveal_strlit("{\"message_type\":\"input_audio_chunk\",\"audio_base_64\":\"\",\"commit\":true}");
    assert(t =~= "{\"message_type\":\"input_audio_chunk\",\"audio_base_64\":\"\",\"commit\":true}"@);
}

} // verus!
