//! The session manager: device identity, the authentication state machine
//! that gates sending, the persistent key-value store it rests on, and the
//! composition of transport and event dispatch.

use vstd::prelude::*;

use crate::Event;
use crate::EventView;
use crate::JID;
use crate::crypto::{Crypto, KeyPair};
use crate::dispatch::{EventDispatcher, EventSink, views_of_events};
use crate::error::{WhatsAppError, WhatsAppResult};
use crate::message::{Message, spec_message_json};
use crate::strutil::{hex_encode, lemma_spec_hex_len, str_eq};
use crate::websocket::{ReaderInput, ReaderOutcome, WebSocketHandler, WebSocketMessage};
use vstd::string::StringExecFns;

verus! {

/// What a key maps to in a sequence of entries: the value beside its
/// first occurrence, if any.
pub open spec fn spec_lookup(entries: Seq<(Seq<char>, Seq<char>)>, key: Seq<char>) -> Option<
    Seq<char>,
>
    decreases entries.len(),
{
    if entries.len() == 0 {
        None
    } else if entries[0].0 == key {
        Some(entries[0].1)
    } else {
        spec_lookup(entries.drop_first(), key)
    }
}

/// `spec_lookup` is determined by the first index holding the key: before
/// a match-free prefix it skips; at the first match it yields that value;
/// with no match at all it yields nothing.
pub proof fn lemma_lookup_at_first_match(
    entries: Seq<(Seq<char>, Seq<char>)>,
    key: Seq<char>,
    i: int,
)
    requires
        0 <= i <= entries.len(),
        forall|j: int| 0 <= j < i ==> #[trigger] entries[j].0 != key,
    ensures
        i < entries.len() && entries[i].0 == key ==> spec_lookup(entries, key) == Some(
            entries[i].1,
        ),
        i == entries.len() ==> spec_lookup(entries, key) is None,
    decreases i,
{
    if i > 0 {
        assert(entries[0].0 != key);
        lemma_lookup_at_first_match(entries.drop_first(), key, i - 1);
        if i < entries.len() && entries[i].0 == key {
            assert(entries.drop_first()[i - 1] == entries[i]);
        }
    } else if i == entries.len() {
        assert(entries.len() == 0);
    }
}

/// The device store: a flat string-to-string mapping held in memory. The
/// application shell loads it from and saves it to its backing file; the
/// mapping logic itself is verified. Lookups go by the first occurrence of
/// a key, and well-formedness keeps keys unique.
pub struct DeviceStore {
    /// The path of the backing file.
    pub path: String,
    /// The entries, keys unique.
    pub entries: Vec<(String, String)>,
}

impl DeviceStore {
    /// The entries as key-value pairs of character sequences.
    pub open spec fn entries_view(&self) -> Seq<(Seq<char>, Seq<char>)> {
        Seq::new(self.entries@.len(), |i: int| (self.entries@[i].0@, self.entries@[i].1@))
    }

    /// Well-formedness: no key occurs twice.
    pub open spec fn wf(&self) -> bool {
        forall|i: int, j: int|
            0 <= i < j < self.entries_view().len() ==> #[trigger] self.entries_view()[i].0
                != #[trigger] self.entries_view()[j].0
    }

    /// A new, empty store backed by `path`.
    pub fn new(path: &str) -> (r: Self)
        ensures
            r.wf(),
            r.path@ == path@,
            r.entries_view().len() == 0,
    {
        DeviceStore { path: path.to_owned(), entries: Vec::new() }
    }

    /// The index of the entry holding `key`, if one does.
    fn find_index(&self, key: &str) -> (r: Option<usize>)
        ensures
            match r {
                Some(i) => i < self.entries_view().len() && self.entries_view()[i as int].0
                    == key@ && (forall|j: int|
                    0 <= j < i ==> #[trigger] self.entries_view()[j].0 != key@),
                None => forall|j: int|
                    0 <= j < self.entries_view().len() ==> #[trigger] self.entries_view()[j].0
                        != key@,
            },
    {
        let mut i: usize = 0;
        while i < self.entries.len()
            invariant
                i <= self.entries_view().len(),
                forall|j: int| 0 <= j < i ==> #[trigger] self.entries_view()[j].0 != key@,
            decreases self.entries_view().len() - i,
        {
            if str_eq(self.entries[i].0.as_str(), key) {
                return Some(i);
            }
            i += 1;
        }
        None
    }

    /// Get the value stored under `key`.
    pub fn get(&self, key: &str) -> (r: Option<String>)
        ensures
            match r {
                Some(v) => spec_lookup(self.entries_view(), key@) == Some(v@),
                None => spec_lookup(self.entries_view(), key@) is None,
            },
    {
        match self.find_index(key) {
            Some(i) => {
                proof {
                    lemma_lookup_at_first_match(self.entries_view(), key@, i as int);
                }
                Some(self.entries[i].1.clone())
            },
            None => {
                proof {
                    lemma_lookup_at_first_match(
                        self.entries_view(),
                        key@,
                        self.entries_view().len() as int,
                    );
                }
                None
            },
        }
    }

    /// Set `key` to `value`. In memory this always succeeds; the
    /// application shell persists the store afterwards and surfaces its
    /// own failure. Every other key keeps its value.
    pub fn set(&mut self, key: &str, value: &str) -> (r: WhatsAppResult<()>)
        requires
            old(self).wf(),
        ensures
            final(self).wf(),
            r is Ok,
            final(self).path@ == old(self).path@,
            spec_lookup(final(self).entries_view(), key@) == Some(value@),
            forall|k2: Seq<char>|
                k2 != key@ ==> #[trigger] spec_lookup(final(self).entries_view(), k2)
                    == spec_lookup(old(self).entries_view(), k2),
    {
        let ghost entries0 = self.entries_view();
        match self.find_index(key) {
            Some(i) => {
                self.entries.remove(i);
                self.entries.insert(i, (key.to_owned(), value.to_owned()));
                proof {
                    let now = self.entries_view();
                    assert(now =~= entries0.update(i as int, (key@, value@)));
                    lemma_lookup_at_first_match(now, key@, i as int);
                    assert forall|k2: Seq<char>| k2 != key@ implies #[trigger] spec_lookup(
                        now,
                        k2,
                    ) == spec_lookup(entries0, k2) by {
                        lemma_lookup_same_values(entries0, now, k2);
                    }
                }
            },
            None => {
                self.entries.push((key.to_owned(), value.to_owned()));
                proof {
                    let now = self.entries_view();
                    assert(now =~= entries0.push((key@, value@)));
                    lemma_lookup_at_first_match(now, key@, entries0.len() as int);
                    assert forall|k2: Seq<char>| k2 != key@ implies #[trigger] spec_lookup(
                        now,
                        k2,
                    ) == spec_lookup(entries0, k2) by {
                        lemma_lookup_push_other(entries0, (key@, value@), k2);
                    }
                }
            },
        }
        Ok(())
    }

    /// Remove `key` and its value, if present. In memory this always
    /// succeeds; the application shell persists the store afterwards.
    /// Every other key keeps its value.
    pub fn remove(&mut self, key: &str) -> (r: WhatsAppResult<()>)
        requires
            old(self).wf(),
        ensures
            final(self).wf(),
            r is Ok,
            final(self).path@ == old(self).path@,
            spec_lookup(final(self).entries_view(), key@) is None,
            forall|k2: Seq<char>|
                k2 != key@ ==> #[trigger] spec_lookup(final(self).entries_view(), k2)
                    == spec_lookup(old(self).entries_view(), k2),
    {
        let ghost entries0 = self.entries_view();
        match self.find_index(key) {
            Some(i) => {
                self.entries.remove(i);
                proof {
                    let now = self.entries_view();
                    assert(now =~= entries0.remove(i as int));
                    assert forall|j: int| 0 <= j < now.len() implies #[trigger] now[j].0
                        != key@ by {
                        if j < i {
                            assert(now[j] == entries0[j]);
                        } else {
                            assert(now[j] == entries0[j + 1]);
                        }
                    }
                    lemma_lookup_at_first_match(now, key@, now.len() as int);
                    assert forall|k2: Seq<char>| k2 != key@ implies #[trigger] spec_lookup(
                        now,
                        k2,
                    ) == spec_lookup(entries0, k2) by {
                        lemma_lookup_remove_other(entries0, i as int, k2);
                    }
                }
            },
            None => {
                proof {
                    lemma_lookup_at_first_match(entries0, key@, entries0.len() as int);
                }
            },
        }
        Ok(())
    }
}

/// Two entry sequences of one length, agreeing on keys everywhere and on
/// values wherever the key is not `k2`, look `k2` up alike.
pub proof fn lemma_lookup_same_values(
    a: Seq<(Seq<char>, Seq<char>)>,
    b: Seq<(Seq<char>, Seq<char>)>,
    k2: Seq<char>,
)
    requires
        a.len() == b.len(),
        forall|i: int| 0 <= i < a.len() ==> #[trigger] a[i].0 == #[trigger] b[i].0,
        forall|i: int| 0 <= i < a.len() && a[i].0 == k2 ==> a[i] == b[i],
    ensures
        spec_lookup(a, k2) == spec_lookup(b, k2),
    decreases a.len(),
{
    if a.len() > 0 {
        assert(a[0].0 == b[0].0);
        if a[0].0 == k2 {
        } else {
            assert forall|i: int|
                0 <= i < a.drop_first().len() implies #[trigger] a.drop_first()[i].0
                == #[trigger] b.drop_first()[i].0 by {
                assert(a.drop_first()[i].0 == a[i + 1].0);
                assert(b.drop_first()[i].0 == b[i + 1].0);
            }
            assert forall|i: int|
                0 <= i < a.drop_first().len() && a.drop_first()[i].0 == k2 implies a.drop_first()[i]
                == b.drop_first()[i] by {
                assert(a.drop_first()[i] == a[i + 1]);
                assert(b.drop_first()[i] == b[i + 1]);
            }
            lemma_lookup_same_values(a.drop_first(), b.drop_first(), k2);
        }
    }
}

/// Appending an entry whose key is not `k2` does not change what `k2`
/// looks up to.
pub proof fn lemma_lookup_push_other(
    a: Seq<(Seq<char>, Seq<char>)>,
    entry: (Seq<char>, Seq<char>),
    k2: Seq<char>,
)
    requires
        entry.0 != k2,
    ensures
        spec_lookup(a.push(entry), k2) == spec_lookup(a, k2),
    decreases a.len(),
{
    if a.len() == 0 {
        assert(a.push(entry)[0] == entry);
        assert(a.push(entry).drop_first() =~= Seq::<(Seq<char>, Seq<char>)>::empty());
    } else {
        assert(a.push(entry)[0] == a[0]);
        assert(a.push(entry).drop_first() =~= a.drop_first().push(entry));
        lemma_lookup_push_other(a.drop_first(), entry, k2);
    }
}

/// Removing an entry whose key is not `k2` does not change what `k2`
/// looks up to.
pub proof fn lemma_lookup_remove_other(a: Seq<(Seq<char>, Seq<char>)>, i: int, k2: Seq<char>)
    requires
        0 <= i < a.len(),
        a[i].0 != k2,
    ensures
        spec_lookup(a.remove(i), k2) == spec_lookup(a, k2),
    decreases a.len(),
{
    if i == 0 {
        assert(a.remove(0) =~= a.drop_first());
    } else {
        assert(a.remove(i)[0] == a[0]);
        assert(a.remove(i).drop_first() =~= a.drop_first().remove(i - 1));
        lemma_lookup_remove_other(a.drop_first(), i - 1, k2);
    }
}

/// Logging level.
#[derive(Debug, Clone, Copy)]
pub enum LogLevel {
    Debug,
    Info,
    Warn,
    Error,
}

/// Client configuration.
pub struct ClientConfig {
    pub store_path: String,
    pub log_level: LogLevel,
}

impl Default for ClientConfig {
    /// The default configuration: the conventional store directory and
    /// informational logging.
    fn default() -> (r: Self)
        ensures
            r.store_path@ == "whatsapp_store"@,
            r.log_level is Info,
    {
        ClientConfig { store_path: "whatsapp_store".to_owned(), log_level: LogLevel::Info }
    }
}

} // verus!

use vstd::prelude::*;

verus! {

/// The store key under which the device identity persists.
pub open spec fn device_key() -> Seq<char> {
    "device_id"@
}

/// The store key under which pairing credentials persist.
pub open spec fn credentials_key() -> Seq<char> {
    "credentials"@
}

/// The socket endpoint of the protocol.
pub open spec fn spec_ws_url() -> Seq<char> {
    "wss://web.whatsapp.com/ws"@
}

/// Credentials of a pairing session.
pub struct AuthState {
    pub jid: JID,
    pub key_pair: KeyPair,
    pub session_id: String,
    pub secret: Vec<u8>,
}

/// The authentication state machine: unauthenticated, pairing (a token was
/// issued but the other end has not confirmed it), or authenticated. Only
/// the authenticated state permits sending.
pub enum AuthPhase {
    Unauthenticated,
    Pairing(AuthState),
    Authenticated(AuthState),
}

/// What the sending gate decides for a connection and authentication
/// state: the connection is checked first, then authentication; only a
/// connected, authenticated session may send.
pub enum SendCheck {
    RefuseConnection,
    RefuseAuth,
    Admit,
}

/// The sending gate of `send_message`.
pub open spec fn send_admission(connected: bool, authenticated: bool) -> SendCheck {
    if !connected {
        SendCheck::RefuseConnection
    } else if !authenticated {
        SendCheck::RefuseAuth
    } else {
        SendCheck::Admit
    }
}

/// Law: sending on a disconnected session is refused with a connection
/// error, whatever the authentication state.
pub proof fn lemma_send_refused_when_disconnected(authenticated: bool)
    ensures
        send_admission(false, authenticated) is RefuseConnection,
{
}

/// Law: sending without authentication never goes through, and on a live
/// connection it is refused with an authentication error. (The connection
/// is checked first, so a session that is both disconnected and
/// unauthenticated reports the connection, not the authentication.)
pub proof fn lemma_send_refused_without_auth(connected: bool)
    ensures
        !(send_admission(connected, false) is Admit),
        connected ==> send_admission(connected, false) is RefuseAuth,
{
}

/// Law: the device identity is stable across successive constructions on
/// one store. `Client::new` guarantees of its first construction that the
/// store afterwards holds the identity it returned, and of any
/// construction on a store already holding one that it returns exactly
/// that; so the second identity is the first.
pub proof fn lemma_device_identity_stable(
    entries: Seq<(Seq<char>, Seq<char>)>,
    first_id: Seq<char>,
    second_id: Seq<char>,
)
    requires
        spec_lookup(entries, device_key()) == Some(first_id),
        spec_lookup(entries, device_key()) matches Some(found) ==> second_id == found,
    ensures
        second_id == first_id,
{
}

/// Whether a frame carries the wire encoding of a message.
pub open spec fn frame_is_message(f: WebSocketMessage, m: crate::message::MessageView) -> bool {
    f matches WebSocketMessage::Text(s) && s@ == spec_message_json(m)
}

/// The session manager: owns the device identity, the authentication
/// state, the transport handler and the observer list, and gates sending
/// on connection and authentication.
pub struct Client<S: EventSink> {
    /// The configuration the client was built with.
    pub config: ClientConfig,
    /// The persistent key-value store.
    pub store: DeviceStore,
    /// The transport handler.
    pub websocket: WebSocketHandler,
    /// The registered observers.
    pub event_handlers: EventDispatcher<S>,
    /// The stable device identity.
    pub device_id: String,
    /// The authentication state.
    pub auth_state: AuthPhase,
}

impl<S: EventSink> Client<S> {
    /// Well-formedness: the store and the transport are well-formed and no
    /// produced event awaits dispatch.
    pub open spec fn wf(&self) -> bool {
        &&& self.store.wf()
        &&& self.websocket.wf()
        &&& self.websocket.pending_events@.len() == 0
    }

    /// Whether the session is authenticated. Issuing a pairing token does
    /// not authenticate: only a confirmed pairing does.
    pub open spec fn spec_is_authenticated(&self) -> bool {
        self.auth_state is Authenticated
    }

    /// Create a new client over a loaded store: load the device identity,
    /// or mint and persist a fresh one; point an owned transport handler
    /// at the protocol endpoint; start unauthenticated, with no observers.
    pub fn new(config: ClientConfig, store: DeviceStore) -> (r: Self)
        requires
            store.wf(),
        ensures
            r.wf(),
            r.auth_state is Unauthenticated,
            !r.websocket.connected,
            !r.websocket.queue_open,
            r.websocket.url@ == spec_ws_url(),
            r.event_handlers.sinks@.len() == 0,
            r.store.path@ == store.path@,
            spec_lookup(r.store.entries_view(), device_key()) == Some(r.device_id@),
            spec_lookup(store.entries_view(), device_key()) matches Some(found) ==> r.device_id@
                == found && r.store.entries_view() == store.entries_view(),
            forall|k2: Seq<char>|
                k2 != device_key() ==> #[trigger] spec_lookup(r.store.entries_view(), k2)
                    == spec_lookup(store.entries_view(), k2),
    {
        let mut store = store;
        let device_id: String = match store.get("device_id") {
            Some(id) => id,
            None => {
                let mut id = "rust_".to_owned();
                let random = Crypto::random_bytes(4);
                let hex_part = hex_encode(random.as_slice());
                id.append(hex_part.as_str());
                let _ = store.set("device_id", id.as_str());
                id
            },
        };
        Client {
            config,
            store,
            websocket: WebSocketHandler::new("wss://web.whatsapp.com/ws"),
            event_handlers: EventDispatcher::new(),
            device_id,
            auth_state: AuthPhase::Unauthenticated,
        }
    }

    /// Register an observer; observers are never removed.
    pub fn add_event_handler(&mut self, handler: S)
        requires
            old(self).wf(),
        ensures
            final(self).wf(),
            final(self).event_handlers.sinks@ == old(self).event_handlers.sinks@.push(handler),
            final(self).websocket == old(self).websocket,
            final(self).store == old(self).store,
            final(self).device_id == old(self).device_id,
            final(self).auth_state == old(self).auth_state,
    {
        self.event_handlers.register(handler);
    }

    /// Dispatch whatever events the transport produced to the observers.
    fn flush_events(&mut self)
        requires
            old(self).websocket.wf(),
            old(self).store.wf(),
        ensures
            final(self).wf(),
            final(self).websocket.pending_events@.len() == 0,
            final(self).websocket.connected == old(self).websocket.connected,
            final(self).websocket.reader_active == old(self).websocket.reader_active,
            final(self).websocket.queue_open == old(self).websocket.queue_open,
            final(self).websocket.queue@ == old(self).websocket.queue@,
            final(self).websocket.capacity == old(self).websocket.capacity,
            final(self).websocket.url@ == old(self).websocket.url@,
            final(self).store == old(self).store,
            final(self).device_id == old(self).device_id,
            final(self).auth_state == old(self).auth_state,
            final(self).event_handlers.sinks@.len() == old(self).event_handlers.sinks@.len(),
            old(self).websocket.pending_events@.len() == 0 ==> final(self).event_handlers.sinks@
                == old(self).event_handlers.sinks@,
            forall|i: int|
                0 <= i < old(self).event_handlers.sinks@.len() ==> #[trigger] final(self).event_handlers.sinks@[i].delivered() == old(self).event_handlers.sinks@[i].delivered() + views_of_events(
                    old(self).websocket.pending_events@,
                ),
    {
        let pending = self.websocket.take_pending_events();
        self.event_handlers.dispatch_all(pending);
    }

    /// Record the outcome of dialing the endpoint (the application shell
    /// dials the real socket). Success connects the transport and every
    /// observer sees exactly one `Connected` event; failure returns a
    /// connection error and every observer sees exactly one `Disconnected`
    /// event — never a `Connected` one.
    pub fn connect(&mut self, dial_ok: bool) -> (r: Result<(), WhatsAppError>)
        requires
            old(self).wf(),
        ensures
            final(self).wf(),
            final(self).store == old(self).store,
            final(self).device_id == old(self).device_id,
            final(self).auth_state == old(self).auth_state,
            final(self).event_handlers.sinks@.len() == old(self).event_handlers.sinks@.len(),
            dial_ok ==> {
                &&& r is Ok
                &&& final(self).websocket.connected
                &&& final(self).websocket.reader_active
                &&& final(self).websocket.queue@.len() == 0
                &&& forall|i: int|
                    0 <= i < old(self).event_handlers.sinks@.len() ==> #[trigger] final(self).event_handlers.sinks@[i].delivered() == old(self).event_handlers.sinks@[i].delivered().push(EventView::Connected)
            },
            !dial_ok ==> {
                &&& (r matches Err(e) && e is ConnectionError)
                &&& !final(self).websocket.connected
                &&& forall|i: int|
                    0 <= i < old(self).event_handlers.sinks@.len() ==> #[trigger] final(self).event_handlers.sinks@[i].delivered() == old(self).event_handlers.sinks@[i].delivered().push(EventView::Disconnected)
            },
    {
        let r = self.websocket.connect(dial_ok);
        let ghost produced = self.websocket.pending_events@;
        self.flush_events();
        proof {
            if dial_ok {
                assert(views_of_events(produced) =~= seq![EventView::Connected]);
            } else {
                assert(views_of_events(produced) =~= seq![EventView::Disconnected]);
            }
            assert forall|i: int| 0 <= i < old(self).event_handlers.sinks@.len() implies
                #[trigger] self.event_handlers.sinks@[i].delivered() == old(self).event_handlers.sinks@[i].delivered().push(
                if dial_ok {
                    EventView::Connected
                } else {
                    EventView::Disconnected
                },
            ) by {
                assert(old(self).event_handlers.sinks@[i].delivered() + views_of_events(produced)
                    =~= old(self).event_handlers.sinks@[i].delivered().push(
                    if dial_ok {
                        EventView::Connected
                    } else {
                        EventView::Disconnected
                    },
                ));
            }
        }
        r
    }

    /// Mint a fresh key pair and session identifier, store them as the new
    /// pairing credentials (replacing any previous ones), tell the
    /// observers, and return the pairing token. Issuing a token starts the
    /// pairing phase: it does not itself authenticate.
    pub fn generate_qr_code(&mut self) -> (r: WhatsAppResult<String>)
        requires
            old(self).wf(),
        ensures
            final(self).wf(),
            final(self).store == old(self).store,
            final(self).device_id == old(self).device_id,
            final(self).websocket.connected == old(self).websocket.connected,
            final(self).websocket.queue@ == old(self).websocket.queue@,
            final(self).event_handlers.sinks@.len() == old(self).event_handlers.sinks@.len(),
            !final(self).spec_is_authenticated(),
            r matches Ok(t) && t@.len() == 42 && (final(self).auth_state matches AuthPhase::Pairing(
                a,
            ) && t@ == "whatsapp://1234567890?key="@ + a.session_id@ && a.session_id@.len() == 16
                && a.key_pair.private@.len() == 32 && a.key_pair.public@.len() == 32
                && a.secret@.len() == 32),
            r matches Ok(t) ==> forall|i: int|
                0 <= i < old(self).event_handlers.sinks@.len() ==> #[trigger] final(self).event_handlers.sinks@[i].delivered() == old(self).event_handlers.sinks@[i].delivered().push(EventView::QRCodeGenerated(t@)),
    {
        let key_pair = match Crypto::generate_key_pair() {
            Ok(kp) => kp,
            Err(e) => {
                return Err(e);
            },
        };
        let session_bytes = Crypto::random_bytes(8);
        let session_id = hex_encode(session_bytes.as_slice());
        proof {
            lemma_spec_hex_len(session_bytes@);
        }
        let secret = Crypto::random_bytes(32);
        let auth = AuthState {
            jid: JID::new("placeholder", "s.whatsapp.net", None),
            key_pair,
            session_id,
            secret,
        };
        let mut token = "whatsapp://1234567890?key=".to_owned();
        token.append(auth.session_id.as_str());
        self.auth_state = AuthPhase::Pairing(auth);
        proof {
            reveal_strlit("whatsapp://1234567890?key=");
        }
        let event = Event::QRCodeGenerated(token.clone());
        self.event_handlers.dispatch(&event);
        Ok(token)
    }

    /// Confirm a pairing: the server accepted the issued token for `jid`.
    /// Only the pairing phase can be confirmed; the credentials carry over
    /// and every observer sees a `LoggedIn` event. Anything else is an
    /// authentication error and changes nothing.
    pub fn confirm_pairing(&mut self, jid: JID) -> (r: WhatsAppResult<()>)
        requires
            old(self).wf(),
        ensures
            final(self).wf(),
            final(self).store == old(self).store,
            final(self).device_id == old(self).device_id,
            final(self).websocket == old(self).websocket,
            final(self).event_handlers.sinks@.len() == old(self).event_handlers.sinks@.len(),
            old(self).auth_state matches AuthPhase::Pairing(a) ==> {
                &&& r is Ok
                &&& (final(self).auth_state matches AuthPhase::Authenticated(b) && b.jid@ == jid@
                    && b.session_id@ == a.session_id@ && b.key_pair == a.key_pair && b.secret
                    == a.secret)
                &&& final(self).spec_is_authenticated()
                &&& forall|i: int|
                    0 <= i < old(self).event_handlers.sinks@.len() ==> #[trigger] final(self).event_handlers.sinks@[i].delivered() == old(self).event_handlers.sinks@[i].delivered().push(EventView::LoggedIn(jid@))
            },
            !(old(self).auth_state is Pairing) ==> ((r matches Err(e) && e is AuthError) && final(self).auth_state == old(self).auth_state && final(self).event_handlers
                == old(self).event_handlers),
    {
        let mut taken = AuthPhase::Unauthenticated;
        core::mem::swap(&mut taken, &mut self.auth_state);
        match taken {
            AuthPhase::Pairing(a) => {
                let event = Event::LoggedIn(jid.deep_clone());
                self.auth_state = AuthPhase::Authenticated(
                    AuthState {
                        jid,
                        key_pair: a.key_pair,
                        session_id: a.session_id,
                        secret: a.secret,
                    },
                );
                self.event_handlers.dispatch(&event);
                Ok(())
            },
            other => {
                self.auth_state = other;
                Err(WhatsAppError::AuthError("No pairing in progress".to_owned()))
            },
        }
    }

    /// Send a message: refused with a connection error when not connected,
    /// with an authentication error when not authenticated; otherwise the
    /// wire encoding is enqueued for the writer (the queue bound applies)
    /// and the message identifier is returned. Enqueueing is not
    /// delivery.
    pub fn send_message(&mut self, message: &Message) -> (r: WhatsAppResult<String>)
        requires
            old(self).wf(),
        ensures
            final(self).wf(),
            final(self).store == old(self).store,
            final(self).device_id == old(self).device_id,
            final(self).auth_state == old(self).auth_state,
            final(self).event_handlers == old(self).event_handlers,
            final(self).websocket.connected == old(self).websocket.connected,
            final(self).websocket.capacity == old(self).websocket.capacity,
            match send_admission(
                old(self).websocket.connected,
                old(self).auth_state is Authenticated,
            ) {
                SendCheck::RefuseConnection => (r matches Err(e) && e is ConnectionError) && final(self).websocket == old(self).websocket,
                SendCheck::RefuseAuth => (r matches Err(e) && e is AuthError) && final(self).websocket == old(self).websocket,
                SendCheck::Admit => {
                    &&& old(self).websocket.queue@.len() < old(self).websocket.capacity ==> {
                        &&& (r matches Ok(id) && id@ == message@.id)
                        &&& final(self).websocket.queue@.len() == old(self).websocket.queue@.len()
                            + 1
                        &&& final(self).websocket.queue@.take(
                            old(self).websocket.queue@.len() as int,
                        ) == old(self).websocket.queue@
                        &&& frame_is_message(final(self).websocket.queue@.last(), message@)
                    }
                    &&& old(self).websocket.queue@.len() >= old(self).websocket.capacity ==> ((
                    r matches Err(e) && e is ConnectionError) && final(self).websocket.queue@
                        == old(self).websocket.queue@ && final(self).websocket.queue_open == old(
                        self,
                    ).websocket.queue_open && final(self).websocket.reader_active == old(self).websocket.reader_active)
                },
            },
    {
        if !self.websocket.is_connected() {
            return Err(WhatsAppError::ConnectionError("Not connected".to_owned()));
        }
        match &self.auth_state {
            AuthPhase::Authenticated(_) => {},
            _ => {
                return Err(WhatsAppError::AuthError("Not authenticated".to_owned()));
            },
        }
        let json = match message.to_json() {
            Ok(j) => j,
            Err(e) => {
                return Err(e);
            },
        };
        match self.websocket.send(WebSocketMessage::Text(json)) {
            Ok(()) => {
                proof {
                    assert(self.websocket.queue@.take(old(self).websocket.queue@.len() as int)
                        =~= old(self).websocket.queue@);
                }
                Ok(message.id.clone())
            },
            Err(e) => Err(e),
        }
    }

    /// Non-blocking snapshot of the connection status.
    pub fn is_connected(&self) -> (r: bool)
        ensures
            r == self.websocket.connected,
    {
        self.websocket.is_connected()
    }

    /// Whether the session is authenticated: a confirmed pairing, not
    /// merely an issued token.
    pub fn is_authenticated(&self) -> (r: bool)
        ensures
            r == self.spec_is_authenticated(),
    {
        match &self.auth_state {
            AuthPhase::Authenticated(_) => true,
            _ => false,
        }
    }

    /// Log out: clear the authentication state first — so no send can race
    /// into a stale session —, drop the persisted credentials, and
    /// disconnect the transport. The session is unauthenticated afterwards
    /// whatever the transport said.
    pub fn logout(&mut self) -> (r: WhatsAppResult<()>)
        requires
            old(self).wf(),
        ensures
            final(self).wf(),
            final(self).auth_state is Unauthenticated,
            !final(self).spec_is_authenticated(),
            final(self).device_id == old(self).device_id,
            final(self).event_handlers == old(self).event_handlers,
            spec_lookup(final(self).store.entries_view(), credentials_key()) is None,
            forall|k2: Seq<char>|
                k2 != credentials_key() ==> #[trigger] spec_lookup(
                    final(self).store.entries_view(),
                    k2,
                ) == spec_lookup(old(self).store.entries_view(), k2),
            old(self).websocket.queue_open && old(self).websocket.queue@.len() < old(self).websocket.capacity ==> {
                &&& r is Ok
                &&& !final(self).websocket.connected
                &&& !final(self).websocket.queue_open
                &&& final(self).websocket.queue@ == old(self).websocket.queue@.push(
                    WebSocketMessage::Close,
                )
            },
            !old(self).websocket.queue_open ==> ((r matches Err(e) && e is ConnectionError)
                && final(self).websocket == old(self).websocket),
    {
        self.auth_state = AuthPhase::Unauthenticated;
        let _ = self.store.remove("credentials");
        self.websocket.disconnect()
    }

    /// The stable device identity.
    pub fn get_device_id(&self) -> (r: String)
        ensures
            r@ == self.device_id@,
    {
        self.device_id.clone()
    }

    /// A text message addressed to a group.
    pub fn create_group_message(&self, group_id: &str, text: &str) -> (r: WhatsAppResult<Message>)
        ensures
            r matches Ok(m) && m@.chat_jid.user == group_id@ && m@.chat_jid.server == "g.us"@
                && m@.chat_jid.device is None && m@.text == Some(text@) && m@.from_me
                && m@.message_type == crate::message::MessageType::Text,
    {
        let jid = JID::new(group_id, "g.us", None);
        Ok(Message::new_text(jid, text))
    }

    /// A text message addressed to an individual user.
    pub fn create_user_message(&self, user_id: &str, text: &str) -> (r: WhatsAppResult<Message>)
        ensures
            r matches Ok(m) && m@.chat_jid.user == user_id@ && m@.chat_jid.server
                == "s.whatsapp.net"@ && m@.chat_jid.device is None && m@.text == Some(text@)
                && m@.from_me && m@.message_type == crate::message::MessageType::Text,
    {
        let jid = JID::new(user_id, "s.whatsapp.net", None);
        Ok(Message::new_text(jid, text))
    }

    /// Disconnect the transport.
    pub fn disconnect(&mut self) -> (r: WhatsAppResult<()>)
        requires
            old(self).wf(),
        ensures
            final(self).wf(),
            final(self).store == old(self).store,
            final(self).device_id == old(self).device_id,
            final(self).auth_state == old(self).auth_state,
            final(self).event_handlers == old(self).event_handlers,
            old(self).websocket.queue_open && old(self).websocket.queue@.len() < old(self).websocket.capacity ==> {
                &&& r is Ok
                &&& !final(self).websocket.connected
                &&& !final(self).websocket.queue_open
                &&& final(self).websocket.queue@ == old(self).websocket.queue@.push(
                    WebSocketMessage::Close,
                )
            },
            !old(self).websocket.queue_open ==> ((r matches Err(e) && e is ConnectionError)
                && final(self).websocket == old(self).websocket),
    {
        self.websocket.disconnect()
    }

    /// Feed one inbound item through the reader's state machine and
    /// dispatch whatever events it produced: on termination (a close
    /// frame, a read error, or no room for the pong reply) every observer
    /// sees exactly one `Disconnected` event.
    pub fn handle_inbound(&mut self, input: ReaderInput) -> (r: ReaderOutcome)
        requires
            old(self).wf(),
            old(self).websocket.reader_active,
        ensures
            final(self).wf(),
            final(self).store == old(self).store,
            final(self).device_id == old(self).device_id,
            final(self).auth_state == old(self).auth_state,
            final(self).event_handlers.sinks@.len() == old(self).event_handlers.sinks@.len(),
            r is Terminated ==> {
                &&& !final(self).websocket.connected
                &&& !final(self).websocket.reader_active
                &&& forall|i: int|
                    0 <= i < old(self).event_handlers.sinks@.len() ==> #[trigger] final(self).event_handlers.sinks@[i].delivered() == old(self).event_handlers.sinks@[i].delivered().push(EventView::Disconnected)
            },
            !(r is Terminated) ==> {
                &&& final(self).websocket.connected == old(self).websocket.connected
                &&& final(self).websocket.reader_active
                &&& final(self).event_handlers.sinks@ == old(self).event_handlers.sinks@
            },
            (input matches ReaderInput::Frame(f) && (f is Text || f is Binary)) ==> (
            input matches ReaderInput::Frame(f) && r == ReaderOutcome::Deliver(f) && final(self).websocket.queue@ == old(self).websocket.queue@),
            (input matches ReaderInput::Frame(f) && f is Ping
                && old(self).websocket.queue@.len() < old(self).websocket.capacity) ==> (r
                == ReaderOutcome::PongQueued && final(self).websocket.queue@ == old(self).websocket.queue@.push(WebSocketMessage::Pong)),
            ((input matches ReaderInput::Frame(f) && f is Ping
                && old(self).websocket.queue@.len() >= old(self).websocket.capacity) || (
            input matches ReaderInput::Frame(f) && f is Close) || input is ReadError) ==> r
                is Terminated,
    {
        let outcome = self.websocket.reader_step(input);
        let ghost produced = self.websocket.pending_events@;
        self.flush_events();
        proof {
            if produced.len() > 0 {
                assert(views_of_events(produced) =~= seq![EventView::Disconnected]);
                assert forall|i: int| 0 <= i < old(self).event_handlers.sinks@.len() implies
                    #[trigger] self.event_handlers.sinks@[i].delivered() == old(self).event_handlers.sinks@[i].delivered().push(EventView::Disconnected) by {
                    assert(old(self).event_handlers.sinks@[i].delivered() + views_of_events(
                        produced,
                    ) =~= old(self).event_handlers.sinks@[i].delivered().push(
                        EventView::Disconnected,
                    ));
                }
            } else {
                assert(produced =~= Seq::<Event>::empty());
            }
        }
        outcome
    }

    /// Take the next outbound frame for the writer, oldest first.
    pub fn next_outbound(&mut self) -> (r: Option<WebSocketMessage>)
        requires
            old(self).wf(),
        ensures
            final(self).wf(),
            final(self).store == old(self).store,
            final(self).device_id == old(self).device_id,
            final(self).auth_state == old(self).auth_state,
            final(self).event_handlers == old(self).event_handlers,
            r == WebSocketHandler::spec_taken_frame(old(self).websocket.queue@),
            final(self).websocket.queue@ == WebSocketHandler::spec_after_take(
                old(self).websocket.queue@,
            ),
    {
        self.websocket.writer_take()
    }
}

} // verus!
