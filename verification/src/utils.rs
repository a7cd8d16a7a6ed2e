//! Frame header codec and endpoint locator: the fixed eight-byte header
//! `[opcode: u32 LE][length: u32 LE]` that precedes every payload on the wire,
//! and the search for a live IPC endpoint among platform candidate paths.

use vstd::prelude::*;
use vstd::string::*;

use crate::DiscordRPCError;

verus! {

/// The four little-endian bytes of a 32-bit value, least significant first.
pub open spec fn spec_u32_le_bytes(v: u32) -> Seq<u8> {
    seq![
        (v & 0xff) as u8,
        ((v >> 8) & 0xff) as u8,
        ((v >> 16) & 0xff) as u8,
        ((v >> 24) & 0xff) as u8,
    ]
}

/// The 32-bit value read from four little-endian bytes.
pub open spec fn spec_u32_from_le(b: Seq<u8>) -> u32
    recommends
        b.len() == 4,
{
    ((b[0] as u32) | ((b[1] as u32) << 8) | ((b[2] as u32) << 16) | ((b[3] as u32) << 24)) as u32
}

/// The eight header bytes for a frame: opcode first, then payload length.
pub open spec fn spec_header_bytes(opcode: u32, length: u32) -> Seq<u8> {
    spec_u32_le_bytes(opcode) + spec_u32_le_bytes(length)
}

/// Encoding a 32-bit value to its little-endian bytes and reading them back
/// yields the value unchanged.
pub proof fn lemma_u32_le_roundtrip(v: u32)
    ensures
        spec_u32_from_le(spec_u32_le_bytes(v)) == v,
{
    assert((v & 0xff) < 256 && ((v >> 8) & 0xff) < 256 && ((v >> 16) & 0xff) < 256 && ((v >> 24)
        & 0xff) < 256) by (bit_vector);
    assert(v == ((v & 0xff) | (((v >> 8) & 0xff) << 8) | (((v >> 16) & 0xff) << 16) | (((v >> 24)
        & 0xff) << 24))) by (bit_vector);
}

/// Decoding the encoded header recovers exactly the `(opcode, length)` pair,
/// for every pair representable in 32 bits.
pub proof fn lemma_header_roundtrip(opcode: u32, length: u32)
    ensures
        spec_header_bytes(opcode, length).len() == 8,
        spec_u32_from_le(spec_header_bytes(opcode, length).subrange(0, 4)) == opcode,
        spec_u32_from_le(spec_header_bytes(opcode, length).subrange(4, 8)) == length,
{
    let b = spec_header_bytes(opcode, length);
    assert(b.subrange(0, 4) =~= spec_u32_le_bytes(opcode));
    assert(b.subrange(4, 8) =~= spec_u32_le_bytes(length));
    lemma_u32_le_roundtrip(opcode);
    lemma_u32_le_roundtrip(length);
}

/// Builds the eight-byte frame header: opcode then payload length, each as a
/// 32-bit little-endian integer.
pub fn pack(opcode: u32, data_len: u32) -> (r: Result<Vec<u8>, DiscordRPCError>)
    ensures
        r matches Ok(bytes) && bytes@ == spec_header_bytes(opcode, data_len),
{
    let mut bytes: Vec<u8> = Vec::new();
    bytes.push((opcode & 0xff) as u8);
    bytes.push(((opcode >> 8) & 0xff) as u8);
    bytes.push(((opcode >> 16) & 0xff) as u8);
    bytes.push(((opcode >> 24) & 0xff) as u8);
    bytes.push((data_len & 0xff) as u8);
    bytes.push(((data_len >> 8) & 0xff) as u8);
    bytes.push(((data_len >> 16) & 0xff) as u8);
    bytes.push(((data_len >> 24) & 0xff) as u8);
    assert(bytes@ =~= spec_header_bytes(opcode, data_len));
    Ok(bytes)
}

/// Decodes an eight-byte frame header into its `(opcode, length)` pair.
/// Anything but exactly eight bytes is rejected as a format error; no byte
/// outside the input is ever read.
pub fn unpack(data: Vec<u8>) -> (r: Result<(u32, u32), DiscordRPCError>)
    ensures
        data@.len() == 8 ==> (r matches Ok(pair)
            && pair.0 == spec_u32_from_le(data@.subrange(0, 4))
            && pair.1 == spec_u32_from_le(data@.subrange(4, 8))),
        data@.len() != 8 ==> r == Err::<(u32, u32), DiscordRPCError>(DiscordRPCError::TryFromSlice),
{
    if data.len() != 8 {
        return Err(DiscordRPCError::TryFromSlice);
    }
    let opcode = (data[0] as u32) | ((data[1] as u32) << 8) | ((data[2] as u32) << 16)
        | ((data[3] as u32) << 24);
    let length = (data[4] as u32) | ((data[5] as u32) << 8) | ((data[6] as u32) << 16)
        | ((data[7] as u32) << 24);
    assert(data@.subrange(0, 4)[0] == data@[0]);
    assert(data@.subrange(0, 4)[1] == data@[1]);
    assert(data@.subrange(0, 4)[2] == data@[2]);
    assert(data@.subrange(0, 4)[3] == data@[3]);
    assert(data@.subrange(4, 8)[0] == data@[4]);
    assert(data@.subrange(4, 8)[1] == data@[5]);
    assert(data@.subrange(4, 8)[2] == data@[6]);
    assert(data@.subrange(4, 8)[3] == data@[7]);
    Ok((opcode, length))
}

/// The complete wire image of one frame: the eight header bytes followed
/// immediately by the UTF-8 bytes of the payload, with no extra framing.
pub open spec fn spec_frame_bytes(opcode: u32, payload: Seq<char>) -> Seq<u8> {
    spec_header_bytes(opcode, vstd::utf8::encode_utf8(payload).len() as u32) + vstd::utf8::encode_utf8(payload)
}

/// Assembles the bytes that one `send` writes for a payload: header, then the
/// payload's UTF-8 bytes, as a single unit. A payload too long for the 32-bit
/// length field is rejected as a format error.
pub fn encode_frame(payload: &str, opcode: u32) -> (r: Result<Vec<u8>, DiscordRPCError>)
    ensures
        payload.spec_bytes().len() <= u32::MAX ==> (r matches Ok(frame) && frame@
            == spec_frame_bytes(opcode, payload@)),
        payload.spec_bytes().len() > u32::MAX ==> r == Err::<Vec<u8>, DiscordRPCError>(
            DiscordRPCError::TryFromSlice,
        ),
{
    let bytes = payload.as_bytes();
    let len = bytes.len();
    if len > u32::MAX as usize {
        return Err(DiscordRPCError::TryFromSlice);
    }
    let mut frame = match pack(opcode, len as u32) {
        Ok(header) => header,
        Err(e) => {
            return Err(e);
        },
    };
    frame.extend_from_slice(bytes);
    assert(frame@ =~= spec_frame_bytes(opcode, payload@));
    Ok(frame)
}

/// The character for one decimal digit.
pub open spec fn spec_digit_char(i: int) -> char
    recommends
        0 <= i < 10,
{
    if i == 0 {
        '0'
    } else if i == 1 {
        '1'
    } else if i == 2 {
        '2'
    } else if i == 3 {
        '3'
    } else if i == 4 {
        '4'
    } else if i == 5 {
        '5'
    } else if i == 6 {
        '6'
    } else if i == 7 {
        '7'
    } else if i == 8 {
        '8'
    } else {
        '9'
    }
}

/// The one-character string for a decimal digit.
pub(crate) fn digit_str(i: usize) -> (r: &'static str)
    requires
        i < 10,
    ensures
        r@ =~= seq![spec_digit_char(i as int)],
{
    proof {
        reveal_strlit("0");
        reveal_strlit("1");
        reveal_strlit("2");
        reveal_strlit("3");
        reveal_strlit("4");
        reveal_strlit("5");
        reveal_strlit("6");
        reveal_strlit("7");
        reveal_strlit("8");
        reveal_strlit("9");
    }
    match i {
        0 => "0",
        1 => "1",
        2 => "2",
        3 => "3",
        4 => "4",
        5 => "5",
        6 => "6",
        7 => "7",
        8 => "8",
        _ => "9",
    }
}

/// The full candidate path for prefix index `j` and suffix `s`.
pub open spec fn spec_candidate(prefixes: Seq<Seq<char>>, s: int, j: int) -> Seq<char>
    recommends
        0 <= s < 10,
        0 <= j < prefixes.len(),
{
    prefixes[j] + seq![spec_digit_char(s)]
}

/// The list of candidate endpoint paths in probe order: the outer loop walks
/// the numeric suffixes 0 through 9, the inner loop the prefixes, so every
/// prefix is tried with suffix 0 before suffix 1 is reached.
pub fn candidate_paths(prefixes: &Vec<String>) -> (r: Vec<String>)
    requires
        prefixes@.len() * 10 <= usize::MAX,
    ensures
        r@.len() == prefixes@.len() * 10,
        forall|i: int|
            0 <= i < r@.len() ==> #[trigger] r@[i]@ == spec_candidate(
                crate::json::spec_string_views(prefixes@),
                i / prefixes@.len() as int,
                i % prefixes@.len() as int,
            ),
{
    let n = prefixes.len();
    let mut r: Vec<String> = Vec::new();
    if n == 0 {
        return r;
    }
    let total = n * 10;
    let mut k: usize = 0;
    while k < total
        invariant
            0 < n,
            n == prefixes@.len(),
            total == n * 10,
            n * 10 <= usize::MAX,
            k <= total,
            r@.len() == k,
            forall|i: int|
                0 <= i < k ==> #[trigger] r@[i]@ == spec_candidate(
                    crate::json::spec_string_views(prefixes@),
                    i / n as int,
                    i % n as int,
                ),
        decreases total - k,
    {
        let s = k / n;
        let j = k % n;
        proof {
            assert(k / n < 10 && k % n < n) by (nonlinear_arith)
                requires
                    0 < n,
                    k < n * 10,
            ;
            assert(crate::json::spec_string_views(prefixes@)[j as int] == prefixes@[j as int]@);
        }
        let mut path = prefixes[j].clone();
        path.append(digit_str(s));
        r.push(path);
        k += 1;
    }
    r
}

/// Probing is suffix-major: of two candidate indexes, the earlier one never
/// carries a later suffix, so every prefix is tried at suffix 0 before any
/// path with suffix 1 is considered, and so on through 9.
pub proof fn lemma_probe_order(n: int, i: int, j: int)
    requires
        0 < n,
        0 <= i <= j,
    ensures
        i / n <= j / n,
{
    assert(i / n <= j / n) by (nonlinear_arith)
        requires
            0 < n,
            0 <= i <= j,
    ;
}

/// The index of the first live candidate, if any: `present[i]` records whether
/// candidate `i` exists on this filesystem.
pub fn first_existing(candidates: &Vec<String>, present: &Vec<bool>) -> (r: Option<usize>)
    requires
        candidates@.len() == present@.len(),
    ensures
        r matches Some(i) ==> i < present@.len() && present@[i as int] && (forall|k: int|
            0 <= k < i ==> !present@[k]),
        r is None ==> forall|k: int| 0 <= k < present@.len() ==> !present@[k],
{
    let mut i: usize = 0;
    while i < present.len()
        invariant
            candidates@.len() == present@.len(),
            i <= present@.len(),
            forall|k: int| 0 <= k < i ==> !present@[k],
        decreases present@.len() - i,
    {
        if present[i] {
            return Some(i);
        }
        i += 1;
    }
    None
}

/// Relies on String::from_utf8: it succeeds exactly on valid UTF-8 input and
/// returns the text those bytes encode.
#[verifier::external_body]
fn string_from_utf8(bytes: Vec<u8>) -> (r: Result<String, DiscordRPCError>)
    ensures
        r is Ok == vstd::utf8::valid_utf8(bytes@),
        (match r {
            Ok(s) => s@ == vstd::utf8::decode_utf8(bytes@),
            Err(e) => e == DiscordRPCError::FromUtf8,
        }),
{
    match String::from_utf8(bytes) {
        Ok(s) => Ok(s),
        Err(_) => Err(DiscordRPCError::FromUtf8),
    }
}

/// Turns the body bytes of a received frame into payload text: exactly the
/// valid UTF-8 byte sequences decode, to the text they encode; anything else
/// is a UTF-8 failure, as `recv` reports it.
pub fn decode_payload(bytes: Vec<u8>) -> (r: Result<String, DiscordRPCError>)
    ensures
        r is Ok == vstd::utf8::valid_utf8(bytes@),
        r matches Ok(s) ==> s@ == vstd::utf8::decode_utf8(bytes@),
        r matches Err(e) ==> e == DiscordRPCError::FromUtf8,
{
    string_from_utf8(bytes)
}

/// A peer that reads a sent frame recovers exactly what went in: the first
/// eight bytes decode to the opcode and the body's byte length, and the body
/// - everything after the header, with no extra framing - decodes to the
/// payload text unchanged.
pub proof fn lemma_frame_roundtrip(opcode: u32, payload: Seq<char>)
    requires
        vstd::utf8::encode_utf8(payload).len() <= u32::MAX,
    ensures
        ({
            let f = spec_frame_bytes(opcode, payload);
            let body = f.subrange(8, f.len() as int);
            f.len() == 8 + vstd::utf8::encode_utf8(payload).len()
                && spec_u32_from_le(f.subrange(0, 4)) == opcode
                && spec_u32_from_le(f.subrange(4, 8)) == vstd::utf8::encode_utf8(payload).len()
                && vstd::utf8::valid_utf8(body)
                && vstd::utf8::decode_utf8(body) == payload
        }),
{
    let len = vstd::utf8::encode_utf8(payload).len() as u32;
    let f = spec_frame_bytes(opcode, payload);
    let h = spec_header_bytes(opcode, len);
    lemma_header_roundtrip(opcode, len);
    assert(f.subrange(0, 4) =~= h.subrange(0, 4));
    assert(f.subrange(4, 8) =~= h.subrange(4, 8));
    assert(f.subrange(8, f.len() as int) =~= vstd::utf8::encode_utf8(payload));
    vstd::utf8::encode_utf8_valid_utf8(payload);
    vstd::utf8::encode_utf8_decode_utf8(payload);
}

/// True of the characters that can appear in a nonce: lowercase hexadecimal
/// digits and hyphens.
pub open spec fn spec_nonce_char(c: char) -> bool {
    ('0' <= c && c <= '9') || ('a' <= c && c <= 'f') || c == '-'
}

/// Relies on uuid::Uuid::new_v4 and its Display form: a fresh random
/// version-4 identifier, written hyphenated as 36 lowercase hexadecimal and
/// hyphen characters. The value is random, so nothing ties it to anything
/// else; only its shape is stated.
#[verifier::external_body]
fn generate_nonce() -> (r: String)
    ensures
        r@.len() == 36,
        forall|i: int| 0 <= i < 36 ==> spec_nonce_char(#[trigger] r@[i]),
{
    uuid::Uuid::new_v4().to_string()
}

/// The whitespace JSON allows between tokens.
pub open spec fn spec_json_ws(c: char) -> bool {
    c == ' ' || c == '\t' || c == '\n' || c == '\r'
}

/// True when an object's text has no members: nothing but whitespace stands
/// between its braces. Such an object takes its first member without a comma.
pub open spec fn spec_blank_object(json: Seq<char>) -> bool {
    forall|i: int| 1 <= i < json.len() - 1 ==> spec_json_ws(#[trigger] json[i])
}

/// The text of an object with a nonce field appended: everything before the
/// closing brace, a comma when the object already has members, the nonce
/// member, and the closing brace again.
pub open spec fn spec_attach_nonce(json: Seq<char>, nonce: Seq<char>) -> Seq<char>
    recommends
        json.len() >= 2,
{
    json.subrange(0, json.len() - 1) + (if spec_blank_object(json) {
        "\"nonce\":\""@
    } else {
        ",\"nonce\":\""@
    }) + nonce + "\"}"@
}

/// True when the text has the outer shape of a JSON object, which is all the
/// nonce attachment needs: a brace at each end.
pub open spec fn spec_object_shaped(json: Seq<char>) -> bool {
    json.len() >= 2 && json[0] == '{' && json.last() == '}'
}

/// Inserts a `nonce` member at the end of an object's text. Text that is not
/// brace-delimited cannot carry a nonce and is rejected as a serialization
/// failure rather than sent malformed.
pub fn attach_nonce(command_json: &str, nonce: &str) -> (r: Result<String, DiscordRPCError>)
    ensures
        spec_object_shaped(command_json@) ==> (r matches Ok(t) && t@ == spec_attach_nonce(
            command_json@,
            nonce@,
        )),
        !spec_object_shaped(command_json@) ==> r == Err::<String, DiscordRPCError>(
            DiscordRPCError::SerdeJson,
        ),
{
    let n = command_json.unicode_len();
    if n < 2 {
        return Err(DiscordRPCError::SerdeJson);
    }
    if command_json.get_char(0) != '{' || command_json.get_char(n - 1) != '}' {
        return Err(DiscordRPCError::SerdeJson);
    }
    let mut blank = true;
    let mut i: usize = 1;
    while i < n - 1
        invariant
            n == command_json@.len(),
            2 <= n,
            1 <= i <= n - 1,
            blank == (forall|k: int| 1 <= k < i ==> spec_json_ws(#[trigger] command_json@[k])),
        decreases n - 1 - i,
    {
        let c = command_json.get_char(i);
        if !(c == ' ' || c == '\t' || c == '\n' || c == '\r') {
            blank = false;
        }
        i += 1;
    }
    let body = command_json.substring_char(0, n - 1);
    let mut out = String::from_str(body);
    if blank {
        out.append("\"nonce\":\"");
    } else {
        out.append(",\"nonce\":\"");
    }
    out.append(nonce);
    out.append("\"}");
    Ok(out)
}

/// Attaches a freshly generated nonce to a serialized command object, right
/// before it goes on the wire. Every nonce is new; the contract can promise
/// only its 36-character hexadecimal-and-hyphen shape, never its value.
pub fn create_packet_json(command_json: &str) -> (r: Result<String, DiscordRPCError>)
    ensures
        spec_object_shaped(command_json@) ==> (r matches Ok(t) && exists|nc: Seq<char>|
            nc.len() == 36 && (forall|i: int| 0 <= i < 36 ==> spec_nonce_char(#[trigger] nc[i]))
                && t@ == #[trigger] spec_attach_nonce(command_json@, nc)),
        !spec_object_shaped(command_json@) ==> r == Err::<String, DiscordRPCError>(
            DiscordRPCError::SerdeJson,
        ),
{
    let nonce = generate_nonce();
    let r = attach_nonce(command_json, nonce.as_str());
    proof {
        if spec_object_shaped(command_json@) {
            assert(r matches Ok(t) && t@ == spec_attach_nonce(command_json@, nonce@));
        }
    }
    r
}

/// UTF-8 encoding distributes over concatenation of character sequences.
pub proof fn lemma_encode_utf8_concat(a: Seq<char>, b: Seq<char>)
    ensures
        vstd::utf8::encode_utf8(a + b) == vstd::utf8::encode_utf8(a) + vstd::utf8::encode_utf8(b),
    decreases a.len(),
{
    if a.len() == 0 {
        assert(a + b =~= b);
        assert(vstd::utf8::encode_utf8(a) + vstd::utf8::encode_utf8(b) =~= vstd::utf8::encode_utf8(
            b,
        ));
    } else {
        assert((a + b)[0] == a[0]);
        assert((a + b).drop_first() =~= a.drop_first() + b);
        lemma_encode_utf8_concat(a.drop_first(), b);
        assert(vstd::utf8::encode_utf8(a + b) =~= vstd::utf8::encode_utf8(a)
            + vstd::utf8::encode_utf8(b));
    }
}

/// Attaching a nonce grows a payload's UTF-8 image by exactly 47 bytes: one
/// closing brace is dropped and a comma, the nonce member's framing, the
/// 36-character nonce and the closing brace are appended, all of them ASCII.
pub proof fn lemma_attach_nonce_bytes(json: Seq<char>, nonce: Seq<char>)
    requires
        spec_object_shaped(json),
        !spec_blank_object(json),
        nonce.len() == 36,
        forall|i: int| 0 <= i < 36 ==> spec_nonce_char(#[trigger] nonce[i]),
    ensures
        vstd::utf8::encode_utf8(spec_attach_nonce(json, nonce)).len() == vstd::utf8::encode_utf8(
            json,
        ).len() + 47,
{
    reveal_strlit(",\"nonce\":\"");
    reveal_strlit("\"}");
    let body = json.subrange(0, json.len() - 1);
    let glue = ",\"nonce\":\""@;
    let tail = "\"}"@;
    assert(spec_attach_nonce(json, nonce) =~= ((body + glue) + nonce) + tail);
    lemma_encode_utf8_concat((body + glue) + nonce, tail);
    lemma_encode_utf8_concat(body + glue, nonce);
    lemma_encode_utf8_concat(body, glue);
    assert(vstd::utf8::is_ascii_chars(glue));
    vstd::utf8::is_ascii_chars_encode_utf8(glue);
    assert(vstd::utf8::is_ascii_chars(tail));
    vstd::utf8::is_ascii_chars_encode_utf8(tail);
    assert(vstd::utf8::is_ascii_chars(nonce));
    vstd::utf8::is_ascii_chars_encode_utf8(nonce);
    let last = seq![json.last()];
    assert(json =~= body + last);
    lemma_encode_utf8_concat(body, last);
    assert(vstd::utf8::is_ascii_chars(last));
    vstd::utf8::is_ascii_chars_encode_utf8(last);
}

/// The operating-system family the client runs on, which decides the set of
/// candidate endpoint prefixes. The caller names the family explicitly rather
/// than the library probing the build target, so the search algorithm stays
/// single-sourced.
#[derive(Clone, Copy, Debug, PartialEq, Eq, Structural)]
pub enum OsFamily {
    /// Named-pipe platform: one fixed prefix.
    Windows,
    /// Socket platform other than Macos: a world-readable temporary directory
    /// plus, when a runtime directory is known, a container-aware variant and
    /// a plain runtime-directory variant.
    Unix,
    /// Socket platform whose only prefix lives under the per-user temporary
    /// directory, when one is known.
    Macos,
}

/// The candidate endpoint prefixes for one OS family. `runtime_dir` is the
/// caller-supplied per-user runtime directory (the value of the platform's
/// runtime-directory variable), if any; the library never reads the
/// environment itself.
pub fn get_os_pipe_paths(family: OsFamily, runtime_dir: Option<&str>) -> (r: Vec<String>)
    ensures
        family == OsFamily::Windows ==> r@.len() == 1 && r@[0]@ == "\\\\?\\pipe\\discord-ipc-"@,
        family == OsFamily::Unix && runtime_dir is None ==> r@.len() == 1 && r@[0]@
            == "/tmp/discord-ipc-"@,
        family == OsFamily::Unix ==> (runtime_dir matches Some(d) ==> r@.len() == 3 && r@[0]@
            == "/tmp/discord-ipc-"@ && r@[1]@ == d@ + "/app/com.discordapp.Discord/discord-ipc-"@
            && r@[2]@ == d@ + "/discord-ipc-"@),
        family == OsFamily::Macos && runtime_dir is None ==> r@.len() == 0,
        family == OsFamily::Macos ==> (runtime_dir matches Some(d) ==> r@.len() == 1 && r@[0]@
            == d@ + "/discord-ipc-"@),
{
    let mut r: Vec<String> = Vec::new();
    match family {
        OsFamily::Windows => {
            r.push(String::from_str("\\\\?\\pipe\\discord-ipc-"));
        },
        OsFamily::Unix => {
            r.push(String::from_str("/tmp/discord-ipc-"));
            if let Some(d) = runtime_dir {
                let mut flatpak = String::from_str(d);
                flatpak.append("/app/com.discordapp.Discord/discord-ipc-");
                r.push(flatpak);
                let mut plain = String::from_str(d);
                plain.append("/discord-ipc-");
                r.push(plain);
            }
        },
        OsFamily::Macos => {
            if let Some(d) = runtime_dir {
                let mut plain = String::from_str(d);
                plain.append("/discord-ipc-");
                r.push(plain);
            }
        },
    }
    r
}

/// Relies on std::path::Path::exists: reports whether the path currently
/// exists on this filesystem. The answer depends on the machine's state, so
/// nothing is promised of it.
#[verifier::external_body]
fn path_exists(path: &str) -> bool {
    std::path::Path::new(path).exists()
}

/// Finds the active pipe path of the RPC server among the given candidate
/// prefixes: probes suffixes 0 through 9 in order, every prefix at one suffix
/// before the next suffix, and returns the first path that exists. Existence
/// depends on the filesystem, so the contract promises only that any returned
/// path is one of the candidates; the probe order is fixed by
/// [`candidate_paths`] and [`first_existing`].
pub fn get_pipe_path(possible_paths: &Vec<String>) -> (r: Option<String>)
    requires
        possible_paths@.len() * 10 <= usize::MAX,
    ensures
        possible_paths@.len() == 0 ==> r is None,
        r matches Some(p) ==> exists|s: int, j: int|
            0 <= s < 10 && 0 <= j < possible_paths@.len() && p@ == #[trigger] spec_candidate(
                crate::json::spec_string_views(possible_paths@),
                s,
                j,
            ),
{
    let candidates = candidate_paths(possible_paths);
    let n = possible_paths.len();
    let mut present: Vec<bool> = Vec::new();
    let mut i: usize = 0;
    while i < candidates.len()
        invariant
            candidates@.len() == n * 10,
            present@.len() == i,
            i <= candidates@.len(),
        decreases candidates@.len() - i,
    {
        present.push(path_exists(candidates[i].as_str()));
        i += 1;
    }
    match first_existing(&candidates, &present) {
        Some(found) => {
            proof {
                assert(n != 0);
                assert((0 <= found as int / (n as int) && found as int / (n as int) < 10) && (0
                    <= found as int % (n as int) && found as int % (n as int) < n))
                    by (nonlinear_arith)
                    requires
                        0 <= found < n * 10,
                        0 < n,
                ;
                assert(candidates@[found as int]@ == spec_candidate(
                    crate::json::spec_string_views(possible_paths@),
                    found as int / (n as int),
                    found as int % (n as int),
                ));
            }
            Some(candidates[found].clone())
        },
        None => None,
    }
}

} // verus!

