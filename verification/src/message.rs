//! Protocol messages: construction, decoration (quoting, mentions,
//! disappearing messages), the wire encoding used when sending, and
//! receipts for delivery status.

use vstd::prelude::*;

use crate::JID;
use crate::JIDView;
use crate::crypto::Crypto;
use crate::error::WhatsAppError;
use crate::strutil::{
    hex_digit, hex_digit_char, hex_encode, lemma_seq_add_assoc, lemma_spec_dec_len, lemma_spec_hex_len, push_char,
    push_dec, spec_dec, u64_to_dec,
};
use vstd::string::StringExecFns;

verus! {

/// Message types supported by the protocol.
#[derive(Debug, Clone, PartialEq, Eq)]
pub enum MessageType {
    Text,
    Image,
    Video,
    Audio,
    Document,
    Contact,
    Location,
    Sticker,
    GroupInvite,
}

/// Information about a media attachment.
#[derive(Debug, Clone)]
pub struct MediaInfo {
    pub mime_type: String,
    pub sha256: Vec<u8>,
    pub file_length: u64,
    pub file_name: Option<String>,
    pub caption: Option<String>,
    pub url: Option<String>,
}

/// The mathematical value of a `MediaInfo`.
#[verifier::ext_equal]
pub struct MediaInfoView {
    pub mime_type: Seq<char>,
    pub sha256: Seq<u8>,
    pub file_length: u64,
    pub file_name: Option<Seq<char>>,
    pub caption: Option<Seq<char>>,
    pub url: Option<Seq<char>>,
}

impl View for MediaInfo {
    type V = MediaInfoView;

    open spec fn view(&self) -> MediaInfoView {
        MediaInfoView {
            mime_type: self.mime_type@,
            sha256: self.sha256@,
            file_length: self.file_length,
            file_name: match self.file_name {
                Some(ref s) => Some(s@),
                None => None,
            },
            caption: match self.caption {
                Some(ref s) => Some(s@),
                None => None,
            },
            url: match self.url {
                Some(ref s) => Some(s@),
                None => None,
            },
        }
    }
}

/// A protocol message.
#[derive(Debug)]
pub struct Message {
    pub id: String,
    pub from_me: bool,
    pub timestamp: u64,
    pub message_type: MessageType,
    pub chat_jid: JID,
    pub sender_jid: Option<JID>,
    pub text: Option<String>,
    pub media: Option<MediaInfo>,
    pub quoted: Option<Box<Message>>,
    pub mentioned_jids: Vec<JID>,
    pub is_ephemeral: bool,
    pub ephemeral_expiration: Option<u32>,
    pub context_info: Vec<(String, String)>,
}

/// The mathematical value of a `Message`.
#[verifier::ext_equal]
pub struct MessageView {
    pub id: Seq<char>,
    pub from_me: bool,
    pub timestamp: u64,
    pub message_type: MessageType,
    pub chat_jid: JIDView,
    pub sender_jid: Option<JIDView>,
    pub text: Option<Seq<char>>,
    pub media: Option<MediaInfoView>,
    pub quoted: Option<Box<MessageView>>,
    pub mentioned_jids: Seq<JIDView>,
    pub is_ephemeral: bool,
    pub ephemeral_expiration: Option<u32>,
    pub context_info: Seq<(Seq<char>, Seq<char>)>,
}

/// The mathematical value of a `Message`, spelled out recursively so that
/// quoted messages carry their own values.
pub open spec fn message_view(m: Message) -> MessageView
    decreases m,
{
    MessageView {
        id: m.id@,
        from_me: m.from_me,
        timestamp: m.timestamp,
        message_type: m.message_type,
        chat_jid: m.chat_jid@,
        sender_jid: match m.sender_jid {
            Some(j) => Some(j@),
            None => None,
        },
        text: match m.text {
            Some(s) => Some(s@),
            None => None,
        },
        media: match m.media {
            Some(mi) => Some(mi@),
            None => None,
        },
        quoted: match m.quoted {
            Some(q) => Some(Box::new(message_view(*q))),
            None => None,
        },
        mentioned_jids: Seq::new(m.mentioned_jids@.len(), |i: int| m.mentioned_jids@[i]@),
        is_ephemeral: m.is_ephemeral,
        ephemeral_expiration: m.ephemeral_expiration,
        context_info: Seq::new(
            m.context_info@.len(),
            |i: int| (m.context_info@[i].0@, m.context_info@[i].1@),
        ),
    }
}

impl View for Message {
    type V = MessageView;

    open spec fn view(&self) -> MessageView {
        message_view(*self)
    }
}

impl MediaInfo {
    /// A copy whose value equals this attachment's value.
    pub fn deep_clone(&self) -> (r: Self)
        ensures
            r@ == self@,
    {
        let r = MediaInfo {
            mime_type: self.mime_type.clone(),
            sha256: clone_bytes(&self.sha256),
            file_length: self.file_length,
            file_name: clone_opt_string(&self.file_name),
            caption: clone_opt_string(&self.caption),
            url: clone_opt_string(&self.url),
        };
        assert(r@ =~~= self@);
        r
    }
}

/// A copy of a byte vector with the same contents.
pub fn clone_bytes(v: &Vec<u8>) -> (r: Vec<u8>)
    ensures
        r@ == v@,
{
    let mut r: Vec<u8> = Vec::with_capacity(v.len());
    let mut i: usize = 0;
    while i < v.len()
        invariant
            i <= v@.len(),
            r@ =~= v@.take(i as int),
        decreases v@.len() - i,
    {
        r.push(v[i]);
        i += 1;
    }
    assert(r@ =~= v@);
    r
}

/// A copy of an optional string with the same characters.
fn clone_opt_string(v: &Option<String>) -> (r: Option<String>)
    ensures
        match v {
            Some(s) => r matches Some(t) && t@ == s@,
            None => r is None,
        },
{
    match v {
        Some(s) => Some(s.clone()),
        None => None,
    }
}

impl Message {
    /// A copy whose value equals this message's value, quoted messages
    /// included.
    pub fn deep_clone(&self) -> (r: Self)
        ensures
            r@ == self@,
        decreases *self,
    {
        let quoted: Option<Box<Message>> = match &self.quoted {
            Some(q) => Some(Box::new(q.deep_clone())),
            None => None,
        };
        let mut mentioned: Vec<JID> = Vec::new();
        let mut i: usize = 0;
        while i < self.mentioned_jids.len()
            invariant
                i <= self.mentioned_jids@.len(),
                mentioned@.len() == i,
                forall|j: int| 0 <= j < i ==> mentioned@[j]@ == self.mentioned_jids@[j]@,
            decreases self.mentioned_jids@.len() - i,
        {
            mentioned.push(self.mentioned_jids[i].deep_clone());
            i += 1;
        }
        let mut context: Vec<(String, String)> = Vec::new();
        let mut k: usize = 0;
        while k < self.context_info.len()
            invariant
                k <= self.context_info@.len(),
                context@.len() == k,
                forall|j: int|
                    0 <= j < k ==> #[trigger] context@[j].0@ == self.context_info@[j].0@
                        && context@[j].1@ == self.context_info@[j].1@,
            decreases self.context_info@.len() - k,
        {
            let pair = (self.context_info[k].0.clone(), self.context_info[k].1.clone());
            context.push(pair);
            k += 1;
        }
        let r = Message {
            id: self.id.clone(),
            from_me: self.from_me,
            timestamp: self.timestamp,
            message_type: clone_message_type(&self.message_type),
            chat_jid: self.chat_jid.deep_clone(),
            sender_jid: match &self.sender_jid {
                Some(j) => Some(j.deep_clone()),
                None => None,
            },
            text: clone_opt_string(&self.text),
            media: match &self.media {
                Some(m) => Some(m.deep_clone()),
                None => None,
            },
            quoted,
            mentioned_jids: mentioned,
            is_ephemeral: self.is_ephemeral,
            ephemeral_expiration: self.ephemeral_expiration,
            context_info: context,
        };
        assert(r@ =~~= self@);
        r
    }
}

/// A copy of a message type with the same variant.
fn clone_message_type(t: &MessageType) -> (r: MessageType)
    ensures
        r == *t,
{
    match t {
        MessageType::Text => MessageType::Text,
        MessageType::Image => MessageType::Image,
        MessageType::Video => MessageType::Video,
        MessageType::Audio => MessageType::Audio,
        MessageType::Document => MessageType::Document,
        MessageType::Contact => MessageType::Contact,
        MessageType::Location => MessageType::Location,
        MessageType::Sticker => MessageType::Sticker,
        MessageType::GroupInvite => MessageType::GroupInvite,
    }
}

/// The JSON escape of one character: quote and backslash get a backslash,
/// control characters a `\u00..` escape, every other character stands as
/// itself.
pub open spec fn json_escape_char(c: char) -> Seq<char> {
    if c == '"' {
        seq!['\\', '"']
    } else if c == '\\' {
        seq!['\\', '\\']
    } else if (c as u32) < 32 {
        seq!['\\', 'u', '0', '0', hex_digit(c as u32 as int / 16), hex_digit(
            c as u32 as int % 16,
        )]
    } else {
        seq![c]
    }
}

/// The JSON escape of a character sequence.
pub open spec fn json_escape(s: Seq<char>) -> Seq<char>
    decreases s.len(),
{
    if s.len() == 0 {
        Seq::empty()
    } else {
        json_escape(s.drop_last()) + json_escape_char(s.last())
    }
}

/// A JSON string literal: the escaped characters between quotes.
pub open spec fn json_string(s: Seq<char>) -> Seq<char> {
    seq!['"'] + json_escape(s) + seq!['"']
}

/// A JSON boolean.
pub open spec fn json_bool(b: bool) -> Seq<char> {
    if b {
        seq!['t', 'r', 'u', 'e']
    } else {
        seq!['f', 'a', 'l', 's', 'e']
    }
}

/// A JSON string or null.
pub open spec fn json_opt_string(v: Option<Seq<char>>) -> Seq<char> {
    match v {
        Some(s) => json_string(s),
        None => seq!['n', 'u', 'l', 'l'],
    }
}

/// A JSON number or null.
pub open spec fn json_opt_u32(v: Option<u32>) -> Seq<char> {
    match v {
        Some(n) => spec_dec(n as nat),
        None => seq!['n', 'u', 'l', 'l'],
    }
}

/// The JSON object for an address.
pub open spec fn spec_jid_json(j: JIDView) -> Seq<char> {
    "{\"user\":"@ + json_string(j.user) + ",\"server\":"@ + json_string(j.server) + ",\"device\":"@
        + json_opt_u32(j.device) + "}"@
}

/// The JSON object for an address, or null.
pub open spec fn json_opt_jid(v: Option<JIDView>) -> Seq<char> {
    match v {
        Some(j) => spec_jid_json(j),
        None => seq!['n', 'u', 'l', 'l'],
    }
}

/// The JSON string naming a message type.
pub open spec fn spec_message_type_json(t: MessageType) -> Seq<char> {
    match t {
        MessageType::Text => "\"Text\""@,
        MessageType::Image => "\"Image\""@,
        MessageType::Video => "\"Video\""@,
        MessageType::Audio => "\"Audio\""@,
        MessageType::Document => "\"Document\""@,
        MessageType::Contact => "\"Contact\""@,
        MessageType::Location => "\"Location\""@,
        MessageType::Sticker => "\"Sticker\""@,
        MessageType::GroupInvite => "\"GroupInvite\""@,
    }
}

/// The comma-separated decimal renderings of a byte sequence.
pub open spec fn spec_byte_list(b: Seq<u8>) -> Seq<char>
    decreases b.len(),
{
    if b.len() == 0 {
        Seq::empty()
    } else if b.len() == 1 {
        spec_dec(b[0] as nat)
    } else {
        spec_byte_list(b.drop_last()) + seq![','] + spec_dec(b.last() as nat)
    }
}

/// The comma-separated JSON objects of a sequence of addresses.
pub open spec fn spec_jid_list(jids: Seq<JIDView>) -> Seq<char>
    decreases jids.len(),
{
    if jids.len() == 0 {
        Seq::empty()
    } else if jids.len() == 1 {
        spec_jid_json(jids[0])
    } else {
        spec_jid_list(jids.drop_last()) + seq![','] + spec_jid_json(jids.last())
    }
}

/// The comma-separated `"key":"value"` members of a string-to-string
/// object.
pub open spec fn spec_pair_list(pairs: Seq<(Seq<char>, Seq<char>)>) -> Seq<char>
    decreases pairs.len(),
{
    if pairs.len() == 0 {
        Seq::empty()
    } else if pairs.len() == 1 {
        json_string(pairs[0].0) + seq![':'] + json_string(pairs[0].1)
    } else {
        spec_pair_list(pairs.drop_last()) + seq![','] + json_string(pairs.last().0) + seq![':']
            + json_string(pairs.last().1)
    }
}

/// The JSON object for a media attachment.
pub open spec fn spec_media_json(m: MediaInfoView) -> Seq<char> {
    "{\"mime_type\":"@ + json_string(m.mime_type) + ",\"sha256\":["@ + spec_byte_list(m.sha256)
        + "],\"file_length\":"@ + spec_dec(m.file_length as nat) + ",\"file_name\":"@
        + json_opt_string(m.file_name) + ",\"caption\":"@ + json_opt_string(m.caption)
        + ",\"url\":"@ + json_opt_string(m.url) + "}"@
}

/// The JSON object for a media attachment, or null.
pub open spec fn json_opt_media(v: Option<MediaInfoView>) -> Seq<char> {
    match v {
        Some(m) => spec_media_json(m),
        None => seq!['n', 'u', 'l', 'l'],
    }
}

/// The opening of a message's wire encoding: every field before the
/// quoted message, ending just after the `"quoted":` key.
pub open spec fn spec_message_head(m: MessageView) -> Seq<char> {
    "{\"id\":"@ + json_string(m.id) + ",\"from_me\":"@ + json_bool(m.from_me) + ",\"timestamp\":"@
        + spec_dec(m.timestamp as nat) + ",\"message_type\":"@ + spec_message_type_json(
        m.message_type,
    ) + ",\"chat_jid\":"@ + spec_jid_json(m.chat_jid) + ",\"sender_jid\":"@ + json_opt_jid(
        m.sender_jid,
    ) + ",\"text\":"@ + json_opt_string(m.text) + ",\"media\":"@ + json_opt_media(m.media)
        + ",\"quoted\":"@
}

/// The close of a message's wire encoding: every field after the quoted
/// message.
pub open spec fn spec_message_tail(m: MessageView) -> Seq<char> {
    ",\"mentioned_jids\":["@ + spec_jid_list(m.mentioned_jids) + "],\"is_ephemeral\":"@
        + json_bool(m.is_ephemeral) + ",\"ephemeral_expiration\":"@ + json_opt_u32(
        m.ephemeral_expiration,
    ) + ",\"context_info\":{"@ + spec_pair_list(m.context_info) + "}}"@
}

/// The wire encoding of a message: one JSON object, fields in declaration
/// order, with the quoted message nested and null for absent fields.
pub open spec fn spec_message_json(m: MessageView) -> Seq<char>
    decreases m,
{
    spec_message_head(m) + (match m.quoted {
        Some(q) => spec_message_json(*q),
        None => seq!['n', 'u', 'l', 'l'],
    }) + spec_message_tail(m)
}

/// Appends the JSON escape of `s` to `out`.
fn push_json_escaped(out: &mut String, s: &str)
    ensures
        final(out)@ == old(out)@ + json_escape(s@),
{
    let ghost base = old(out)@;
    let n = s.unicode_len();
    let mut i: usize = 0;
    while i < n
        invariant
            i <= n,
            n == s@.len(),
            out@ == base + json_escape(s@.take(i as int)),
        decreases n - i,
    {
        let ghost prefix = out@;
        let c = s.get_char(i);
        if c == '"' {
            push_char(out, '\\');
            push_char(out, '"');
        } else if c == '\\' {
            push_char(out, '\\');
            push_char(out, '\\');
        } else if (c as u32) < 32 {
            let code = c as u32;
            push_char(out, '\\');
            push_char(out, 'u');
            push_char(out, '0');
            push_char(out, '0');
            push_char(out, hex_digit_char((code / 16) as u64));
            push_char(out, hex_digit_char((code % 16) as u64));
        } else {
            push_char(out, c);
        }
        proof {
            assert(out@ =~= prefix + json_escape_char(c));
            assert(s@.take(i + 1 as int).drop_last() =~= s@.take(i as int));
            assert(out@ =~= base + json_escape(s@.take(i + 1 as int)));
        }
        i += 1;
    }
    proof {
        assert(s@.take(n as int) =~= s@);
    }
}

/// Appends the JSON string literal for `s` to `out`.
fn push_json_string(out: &mut String, s: &str)
    ensures
        final(out)@ == old(out)@ + json_string(s@),
{
    let ghost base = old(out)@;
    push_char(out, '"');
    push_json_escaped(out, s);
    push_char(out, '"');
    assert(out@ =~= base + json_string(s@));
}

/// Appends a JSON string literal or `null` to `out`.
fn push_json_opt_string(out: &mut String, v: &Option<String>)
    ensures
        final(out)@ == old(out)@ + json_opt_string(
            match v {
                Some(s) => Some(s@),
                None => None,
            },
        ),
{
    let ghost base = old(out)@;
    match v {
        Some(s) => push_json_string(out, s.as_str()),
        None => {
            out.append("null");
            proof {
                reveal_strlit("null");
                assert(out@ =~= base + seq!['n', 'u', 'l', 'l']);
            }
        },
    }
}

/// Appends `true` or `false` to `out`.
fn push_json_bool(out: &mut String, b: bool)
    ensures
        final(out)@ == old(out)@ + json_bool(b),
{
    let ghost base = old(out)@;
    if b {
        out.append("true");
        proof {
            reveal_strlit("true");
            assert(out@ =~= base + json_bool(b));
        }
    } else {
        out.append("false");
        proof {
            reveal_strlit("false");
            assert(out@ =~= base + json_bool(b));
        }
    }
}

/// Appends a JSON number or `null` to `out`.
fn push_json_opt_u32(out: &mut String, v: &Option<u32>)
    ensures
        final(out)@ == old(out)@ + json_opt_u32(*v),
{
    let ghost base = old(out)@;
    match v {
        Some(n) => {
            push_dec(out, *n as u64);
        },
        None => {
            out.append("null");
            proof {
                reveal_strlit("null");
                assert(out@ =~= base + json_opt_u32(*v));
            }
        },
    }
}

/// Appends the JSON object for an address to `out`.
fn push_jid_json(out: &mut String, j: &JID)
    ensures
        final(out)@ == old(out)@ + spec_jid_json(j@),
{
    let ghost base = old(out)@;
    out.append("{\"user\":");
    push_json_string(out, j.user.as_str());
    out.append(",\"server\":");
    push_json_string(out, j.server.as_str());
    out.append(",\"device\":");
    push_json_opt_u32(out, &j.device);
    out.append("}");
    assert(out@ =~= base + spec_jid_json(j@));
}

/// Appends the bracketless comma-separated byte list to `out`.
fn push_byte_list(out: &mut String, b: &Vec<u8>)
    ensures
        final(out)@ == old(out)@ + spec_byte_list(b@),
{
    let ghost base = old(out)@;
    let mut i: usize = 0;
    while i < b.len()
        invariant
            i <= b@.len(),
            out@ == base + spec_byte_list(b@.take(i as int)),
        decreases b@.len() - i,
    {
        let ghost prefix = out@;
        if i > 0 {
            push_char(out, ',');
        }
        push_dec(out, b[i] as u64);
        proof {
            assert(b@.take(i + 1 as int).drop_last() =~= b@.take(i as int));
            assert(out@ =~= base + spec_byte_list(b@.take(i + 1 as int)));
        }
        i += 1;
    }
    proof {
        assert(b@.take(b@.len() as int) =~= b@);
    }
}

/// Appends the bracketless comma-separated address list to `out`.
fn push_jid_list(out: &mut String, jids: &Vec<JID>)
    ensures
        final(out)@ == old(out)@ + spec_jid_list(Seq::new(jids@.len(), |i: int| jids@[i]@)),
{
    let ghost views = Seq::new(jids@.len(), |i: int| jids@[i]@);
    let ghost base = old(out)@;
    let mut i: usize = 0;
    while i < jids.len()
        invariant
            i <= views.len(),
            jids@.len() == views.len(),
            forall|j: int| 0 <= j < views.len() ==> #[trigger] views[j] == jids@[j]@,
            out@ == base + spec_jid_list(views.take(i as int)),
        decreases views.len() - i,
    {
        let ghost prefix = out@;
        if i > 0 {
            push_char(out, ',');
        }
        push_jid_json(out, &jids[i]);
        proof {
            assert(views.take(i + 1 as int).drop_last() =~= views.take(i as int));
            assert(out@ =~= base + spec_jid_list(views.take(i + 1 as int)));
        }
        i += 1;
    }
    proof {
        assert(views.take(views.len() as int) =~= views);
    }
}

/// Appends the braceless comma-separated members of a string-to-string
/// object to `out`.
fn push_pair_list(out: &mut String, pairs: &Vec<(String, String)>)
    ensures
        final(out)@ == old(out)@ + spec_pair_list(
            Seq::new(pairs@.len(), |i: int| (pairs@[i].0@, pairs@[i].1@)),
        ),
{
    let ghost views = Seq::new(pairs@.len(), |i: int| (pairs@[i].0@, pairs@[i].1@));
    let ghost base = old(out)@;
    let mut i: usize = 0;
    while i < pairs.len()
        invariant
            i <= views.len(),
            pairs@.len() == views.len(),
            forall|j: int|
                0 <= j < views.len() ==> #[trigger] views[j] == (pairs@[j].0@, pairs@[j].1@),
            out@ == base + spec_pair_list(views.take(i as int)),
        decreases views.len() - i,
    {
        let ghost prefix = out@;
        if i > 0 {
            push_char(out, ',');
        }
        push_json_string(out, pairs[i].0.as_str());
        push_char(out, ':');
        push_json_string(out, pairs[i].1.as_str());
        proof {
            assert(views.take(i + 1 as int).drop_last() =~= views.take(i as int));
            assert(out@ =~= base + spec_pair_list(views.take(i + 1 as int)));
        }
        i += 1;
    }
    proof {
        assert(views.take(views.len() as int) =~= views);
    }
}

/// Appends the JSON object for a media attachment to `out`.
fn push_media_json(out: &mut String, m: &MediaInfo)
    ensures
        final(out)@ == old(out)@ + spec_media_json(m@),
{
    let ghost base = old(out)@;
    out.append("{\"mime_type\":");
    let ghost mut acc = "{\"mime_type\":"@;
    push_json_string(out, m.mime_type.as_str());
    proof {
        lemma_seq_add_assoc(base, acc, json_string(m@.mime_type));
        acc = acc + json_string(m@.mime_type);
    }
    out.append(",\"sha256\":[");
    proof {
        lemma_seq_add_assoc(base, acc, ",\"sha256\":["@);
        acc = acc + ",\"sha256\":["@;
    }
    push_byte_list(out, &m.sha256);
    proof {
        lemma_seq_add_assoc(base, acc, spec_byte_list(m@.sha256));
        acc = acc + spec_byte_list(m@.sha256);
    }
    out.append("],\"file_length\":");
    proof {
        lemma_seq_add_assoc(base, acc, "],\"file_length\":"@);
        acc = acc + "],\"file_length\":"@;
    }
    push_dec(out, m.file_length);
    proof {
        lemma_seq_add_assoc(base, acc, spec_dec(m@.file_length as nat));
        acc = acc + spec_dec(m@.file_length as nat);
    }
    out.append(",\"file_name\":");
    proof {
        lemma_seq_add_assoc(base, acc, ",\"file_name\":"@);
        acc = acc + ",\"file_name\":"@;
    }
    push_json_opt_string(out, &m.file_name);
    proof {
        lemma_seq_add_assoc(base, acc, json_opt_string(m@.file_name));
        acc = acc + json_opt_string(m@.file_name);
    }
    out.append(",\"caption\":");
    proof {
        lemma_seq_add_assoc(base, acc, ",\"caption\":"@);
        acc = acc + ",\"caption\":"@;
    }
    push_json_opt_string(out, &m.caption);
    proof {
        lemma_seq_add_assoc(base, acc, json_opt_string(m@.caption));
        acc = acc + json_opt_string(m@.caption);
    }
    out.append(",\"url\":");
    proof {
        lemma_seq_add_assoc(base, acc, ",\"url\":"@);
        acc = acc + ",\"url\":"@;
    }
    push_json_opt_string(out, &m.url);
    proof {
        lemma_seq_add_assoc(base, acc, json_opt_string(m@.url));
        acc = acc + json_opt_string(m@.url);
    }
    out.append("}");
    proof {
        lemma_seq_add_assoc(base, acc, "}"@);
        acc = acc + "}"@;
        assert(out@ == base + acc);
        assert(acc == spec_media_json(m@));
    }
}

/// Appends the JSON string for a message type to `out`.
fn push_message_type_json(out: &mut String, t: &MessageType)
    ensures
        final(out)@ == old(out)@ + spec_message_type_json(*t),
{
    match t {
        MessageType::Text => out.append("\"Text\""),
        MessageType::Image => out.append("\"Image\""),
        MessageType::Video => out.append("\"Video\""),
        MessageType::Audio => out.append("\"Audio\""),
        MessageType::Document => out.append("\"Document\""),
        MessageType::Contact => out.append("\"Contact\""),
        MessageType::Location => out.append("\"Location\""),
        MessageType::Sticker => out.append("\"Sticker\""),
        MessageType::GroupInvite => out.append("\"GroupInvite\""),
    }
}

impl Message {
    /// Appends every field before the quoted message to `out`, ending
    /// just after the `"quoted":` key.
    fn push_json_head(&self, out: &mut String)
        ensures
            final(out)@ == old(out)@ + spec_message_head(self@),
    {
        let ghost base = old(out)@;
        out.append("{\"id\":");
        let ghost mut acc = "{\"id\":"@;
        push_json_string(out, self.id.as_str());
        proof {
            lemma_seq_add_assoc(base, acc, json_string(self@.id));
            acc = acc + json_string(self@.id);
        }
        out.append(",\"from_me\":");
        proof {
            lemma_seq_add_assoc(base, acc, ",\"from_me\":"@);
            acc = acc + ",\"from_me\":"@;
        }
        push_json_bool(out, self.from_me);
        proof {
            lemma_seq_add_assoc(base, acc, json_bool(self@.from_me));
            acc = acc + json_bool(self@.from_me);
        }
        out.append(",\"timestamp\":");
        proof {
            lemma_seq_add_assoc(base, acc, ",\"timestamp\":"@);
            acc = acc + ",\"timestamp\":"@;
        }
        push_dec(out, self.timestamp);
        proof {
            lemma_seq_add_assoc(base, acc, spec_dec(self@.timestamp as nat));
            acc = acc + spec_dec(self@.timestamp as nat);
        }
        out.append(",\"message_type\":");
        proof {
            lemma_seq_add_assoc(base, acc, ",\"message_type\":"@);
            acc = acc + ",\"message_type\":"@;
        }
        push_message_type_json(out, &self.message_type);
        proof {
            lemma_seq_add_assoc(base, acc, spec_message_type_json(self@.message_type));
            acc = acc + spec_message_type_json(self@.message_type);
        }
        out.append(",\"chat_jid\":");
        proof {
            lemma_seq_add_assoc(base, acc, ",\"chat_jid\":"@);
            acc = acc + ",\"chat_jid\":"@;
        }
        push_jid_json(out, &self.chat_jid);
        proof {
            lemma_seq_add_assoc(base, acc, spec_jid_json(self@.chat_jid));
            acc = acc + spec_jid_json(self@.chat_jid);
        }
        out.append(",\"sender_jid\":");
        proof {
            lemma_seq_add_assoc(base, acc, ",\"sender_jid\":"@);
            acc = acc + ",\"sender_jid\":"@;
        }
        match &self.sender_jid {
            Some(j) => push_jid_json(out, j),
            None => {
                out.append("null");
                proof {
                    reveal_strlit("null");
                }
            },
        }
        proof {
            lemma_seq_add_assoc(base, acc, json_opt_jid(self@.sender_jid));
            acc = acc + json_opt_jid(self@.sender_jid);
            assert(out@ == base + acc);
        }
        out.append(",\"text\":");
        proof {
            lemma_seq_add_assoc(base, acc, ",\"text\":"@);
            acc = acc + ",\"text\":"@;
        }
        push_json_opt_string(out, &self.text);
        proof {
            lemma_seq_add_assoc(base, acc, json_opt_string(self@.text));
            acc = acc + json_opt_string(self@.text);
        }
        out.append(",\"media\":");
        proof {
            lemma_seq_add_assoc(base, acc, ",\"media\":"@);
            acc = acc + ",\"media\":"@;
        }
        match &self.media {
            Some(m) => push_media_json(out, m),
            None => {
                out.append("null");
                proof {
                    reveal_strlit("null");
                }
            },
        }
        proof {
            lemma_seq_add_assoc(base, acc, json_opt_media(self@.media));
            acc = acc + json_opt_media(self@.media);
            assert(out@ == base + acc);
        }
        out.append(",\"quoted\":");
        proof {
            lemma_seq_add_assoc(base, acc, ",\"quoted\":"@);
            acc = acc + ",\"quoted\":"@;
            assert(out@ == base + acc);
            assert(acc == spec_message_head(self@));
        }
    }

    /// Appends every field after the quoted message to `out`.
    fn push_json_tail(&self, out: &mut String)
        ensures
            final(out)@ == old(out)@ + spec_message_tail(self@),
    {
        let ghost base = old(out)@;
        out.append(",\"mentioned_jids\":[");
        let ghost mut acc = ",\"mentioned_jids\":["@;
        push_jid_list(out, &self.mentioned_jids);
        proof {
            assert(Seq::new(self.mentioned_jids@.len(), |i: int| self.mentioned_jids@[i]@)
                =~= self@.mentioned_jids);
            lemma_seq_add_assoc(base, acc, spec_jid_list(self@.mentioned_jids));
            acc = acc + spec_jid_list(self@.mentioned_jids);
        }
        out.append("],\"is_ephemeral\":");
        proof {
            lemma_seq_add_assoc(base, acc, "],\"is_ephemeral\":"@);
            acc = acc + "],\"is_ephemeral\":"@;
        }
        push_json_bool(out, self.is_ephemeral);
        proof {
            lemma_seq_add_assoc(base, acc, json_bool(self@.is_ephemeral));
            acc = acc + json_bool(self@.is_ephemeral);
        }
        out.append(",\"ephemeral_expiration\":");
        proof {
            lemma_seq_add_assoc(base, acc, ",\"ephemeral_expiration\":"@);
            acc = acc + ",\"ephemeral_expiration\":"@;
        }
        push_json_opt_u32(out, &self.ephemeral_expiration);
        proof {
            lemma_seq_add_assoc(base, acc, json_opt_u32(self@.ephemeral_expiration));
            acc = acc + json_opt_u32(self@.ephemeral_expiration);
        }
        out.append(",\"context_info\":{");
        proof {
            lemma_seq_add_assoc(base, acc, ",\"context_info\":{"@);
            acc = acc + ",\"context_info\":{"@;
        }
        push_pair_list(out, &self.context_info);
        proof {
            assert(Seq::new(self.context_info@.len(), |i: int| (self.context_info@[i].0@,
                self.context_info@[i].1@)) =~= self@.context_info);
            lemma_seq_add_assoc(base, acc, spec_pair_list(self@.context_info));
            acc = acc + spec_pair_list(self@.context_info);
        }
        out.append("}}");
        proof {
            lemma_seq_add_assoc(base, acc, "}}"@);
            acc = acc + "}}"@;
            assert(out@ == base + acc);
            assert(acc == spec_message_tail(self@));
        }
    }

    /// Appends the wire encoding of this message to `out`.
    fn push_json(&self, out: &mut String)
        ensures
            final(out)@ == old(out)@ + spec_message_json(self@),
        decreases *self,
    {
        let ghost base = old(out)@;
        self.push_json_head(out);
        match &self.quoted {
            Some(q) => {
                let inner: &Message = &*q;
                inner.push_json(out);
            },
            None => {
                out.append("null");
                proof {
                    reveal_strlit("null");
                }
            },
        }
        proof {
            let quoted_part = match self@.quoted {
                Some(q) => spec_message_json(*q),
                None => seq!['n', 'u', 'l', 'l'],
            };
            lemma_seq_add_assoc(base, spec_message_head(self@), quoted_part);
            assert(out@ == base + (spec_message_head(self@) + quoted_part));
        }
        self.push_json_tail(out);
        proof {
            let quoted_part = match self@.quoted {
                Some(q) => spec_message_json(*q),
                None => seq!['n', 'u', 'l', 'l'],
            };
            lemma_seq_add_assoc(base, spec_message_head(self@) + quoted_part, spec_message_tail(self@));
            assert(out@ == base + spec_message_json(self@));
        }
    }

    /// The wire encoding of this message, ready for sending. Encoding
    /// never fails.
    pub fn to_json(&self) -> (r: Result<String, WhatsAppError>)
        ensures
            r matches Ok(s) && s@ == spec_message_json(self@),
    {
        let mut out = String::new();
        self.push_json(&mut out);
        assert(out@ =~= spec_message_json(self@));
        Ok(out)
    }
}

/// Parser for incoming protocol messages.
pub struct MessageParser;

impl MessageParser {
    /// Parse a binary protocol message. The binary payload schema belongs
    /// to an outside collaborator, so this always reports a parsing error.
    pub fn parse_binary(_data: &[u8]) -> (r: Result<Message, WhatsAppError>)
        ensures
            (r matches Err(e) && e is ParsingError),
    {
        Err(WhatsAppError::ParsingError("Binary message parsing not implemented".to_owned()))
    }
}

/// Message receipt status.
#[derive(Debug, Clone, PartialEq, Eq)]
pub enum ReceiptStatus {
    Sent,
    Delivered,
    Read,
    Played,
    Failed,
}

/// A delivery receipt for one message.
#[derive(Debug, Clone)]
pub struct MessageReceipt {
    pub message_id: String,
    pub status: ReceiptStatus,
    pub timestamp: u64,
    pub recipient: JID,
}

/// The mathematical value of a `MessageReceipt`.
#[verifier::ext_equal]
pub struct MessageReceiptView {
    pub message_id: Seq<char>,
    pub status: ReceiptStatus,
    pub timestamp: u64,
    pub recipient: JIDView,
}

impl View for MessageReceipt {
    type V = MessageReceiptView;

    open spec fn view(&self) -> MessageReceiptView {
        MessageReceiptView {
            message_id: self.message_id@,
            status: self.status,
            timestamp: self.timestamp,
            recipient: self.recipient@,
        }
    }
}

impl MessageReceipt {
    /// A copy whose value equals this receipt's value.
    pub fn deep_clone(&self) -> (r: Self)
        ensures
            r@ == self@,
    {
        MessageReceipt {
            message_id: self.message_id.clone(),
            status: clone_receipt_status(&self.status),
            timestamp: self.timestamp,
            recipient: self.recipient.deep_clone(),
        }
    }
}

/// A copy of a receipt status with the same variant.
fn clone_receipt_status(s: &ReceiptStatus) -> (r: ReceiptStatus)
    ensures
        r == *s,
{
    match s {
        ReceiptStatus::Sent => ReceiptStatus::Sent,
        ReceiptStatus::Delivered => ReceiptStatus::Delivered,
        ReceiptStatus::Read => ReceiptStatus::Read,
        ReceiptStatus::Played => ReceiptStatus::Played,
        ReceiptStatus::Failed => ReceiptStatus::Failed,
    }
}

/// Relies on std::time::SystemTime::now, read as whole seconds since the
/// Unix epoch (zero if the clock reads before it). The value depends on
/// the clock, so nothing is said of it.
#[verifier::external_body]
fn now_unix_secs() -> u64 {
    std::time::SystemTime::now()
        .duration_since(std::time::UNIX_EPOCH)
        .unwrap_or_default()
        .as_secs()
}

/// Relies on std::time::SystemTime::now, read as whole milliseconds since
/// the Unix epoch (zero if the clock reads before it). The value depends
/// on the clock, so nothing is said of it.
#[verifier::external_body]
fn now_unix_millis() -> u64 {
    std::time::SystemTime::now()
        .duration_since(std::time::UNIX_EPOCH)
        .unwrap_or_default()
        .as_millis() as u64
}

impl Message {
    /// A fresh message identifier: the clock reading in milliseconds, an
    /// underscore, and eight random bytes in hexadecimal.
    fn generate_message_id() -> (r: String)
        ensures
            r@.len() >= 18,
    {
        let random_bytes = Crypto::random_bytes(8);
        let timestamp = now_unix_millis();
        let mut r = u64_to_dec(timestamp);
        proof {
            lemma_spec_dec_len(timestamp as nat);
        }
        push_char(&mut r, '_');
        let hex_part = hex_encode(random_bytes.as_slice());
        proof {
            lemma_spec_hex_len(random_bytes@);
        }
        r.append(hex_part.as_str());
        r
    }

    /// Create a new text message to `chat_jid`, stamped with the clock and
    /// a fresh identifier; every other field is empty.
    pub fn new_text(chat_jid: JID, text: &str) -> (r: Self)
        ensures
            r@.id.len() >= 18,
            r@.from_me,
            r@.message_type == MessageType::Text,
            r@.chat_jid == chat_jid@,
            r@.sender_jid is None,
            r@.text == Some(text@),
            r@.media is None,
            r@.quoted is None,
            r@.mentioned_jids.len() == 0,
            !r@.is_ephemeral,
            r@.ephemeral_expiration is None,
            r@.context_info.len() == 0,
    {
        let now = now_unix_secs();
        Message {
            id: Self::generate_message_id(),
            from_me: true,
            timestamp: now,
            message_type: MessageType::Text,
            chat_jid,
            sender_jid: None,
            text: Some(text.to_owned()),
            media: None,
            quoted: None,
            mentioned_jids: Vec::new(),
            is_ephemeral: false,
            ephemeral_expiration: None,
            context_info: Vec::new(),
        }
    }

    /// Create a new image message to `chat_jid`: the attachment records
    /// the media encoding, the SHA-256 digest of the data, its length and
    /// the optional caption.
    pub fn new_image(chat_jid: JID, mime_type: &str, data: &[u8], caption: Option<&str>) -> (r:
        Self)
        ensures
            r@.id.len() >= 18,
            r@.from_me,
            r@.message_type == MessageType::Image,
            r@.chat_jid == chat_jid@,
            r@.sender_jid is None,
            r@.text is None,
            r@.media matches Some(m) && m.mime_type == mime_type@ && m.sha256 == crate::crypto::sha256_of(data@)
                && m.file_length == data@.len() && m.file_name is None && m.url is None
                && m.caption == (match caption {
                Some(c) => Some(c@),
                None => None::<Seq<char>>,
            }),
            r@.quoted is None,
            r@.mentioned_jids.len() == 0,
            !r@.is_ephemeral,
            r@.ephemeral_expiration is None,
            r@.context_info.len() == 0,
    {
        let now = now_unix_secs();
        let sha256 = Crypto::sha256(data);
        Message {
            id: Self::generate_message_id(),
            from_me: true,
            timestamp: now,
            message_type: MessageType::Image,
            chat_jid,
            sender_jid: None,
            text: None,
            media: Some(
                MediaInfo {
                    mime_type: mime_type.to_owned(),
                    sha256,
                    file_length: data.len() as u64,
                    file_name: None,
                    caption: match caption {
                        Some(c) => Some(c.to_owned()),
                        None => None,
                    },
                    url: None,
                },
            ),
            quoted: None,
            mentioned_jids: Vec::new(),
            is_ephemeral: false,
            ephemeral_expiration: None,
            context_info: Vec::new(),
        }
    }

    /// Quote another message: the result carries a copy of it and is
    /// otherwise unchanged.
    pub fn quote(self, message: &Message) -> (r: Self)
        ensures
            r@ == (MessageView { quoted: Some(Box::new(message@)), ..self@ }),
    {
        let ghost before = self@;
        let mut m = self;
        m.quoted = Some(Box::new(message.deep_clone()));
        assert(m@ =~~= MessageView { quoted: Some(Box::new(message@)), ..before });
        m
    }

    /// Mark the message as ephemeral (disappearing) with the given
    /// expiration in seconds; otherwise unchanged.
    pub fn make_ephemeral(self, expiration_seconds: u32) -> (r: Self)
        ensures
            r@ == (MessageView {
                is_ephemeral: true,
                ephemeral_expiration: Some(expiration_seconds),
                ..self@
            }),
    {
        let ghost before = self@;
        let mut m = self;
        m.is_ephemeral = true;
        m.ephemeral_expiration = Some(expiration_seconds);
        assert(m@ =~~= MessageView {
            is_ephemeral: true,
            ephemeral_expiration: Some(expiration_seconds),
            ..before
        });
        m
    }

    /// Replace the set of mentioned addresses; otherwise unchanged.
    pub fn mention(self, jids: Vec<JID>) -> (r: Self)
        ensures
            r@ == (MessageView {
                mentioned_jids: Seq::new(jids@.len(), |i: int| jids@[i]@),
                ..self@
            }),
    {
        let ghost before = self@;
        let ghost jv = jids@;
        let mut m = self;
        m.mentioned_jids = jids;
        assert(m@ =~~= MessageView {
            mentioned_jids: Seq::new(jv.len(), |i: int| jv[i]@),
            ..before
        });
        m
    }
}

} // verus!
