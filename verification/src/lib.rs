//! Client-side session layer for a chat protocol: connection lifecycle,
//! an outbound frame queue with FIFO delivery, an authentication state
//! machine gating message sending, and synchronous event dispatch.

use vstd::prelude::*;

pub mod client;
pub mod crypto;
pub mod dispatch;
pub mod error;
pub mod message;
pub mod strutil;
pub mod websocket;

pub use client::LogLevel;
pub use error::{WhatsAppError, WhatsAppResult};

use crate::dispatch::{EventDispatcher, EventSink};
use crate::strutil::{push_char, push_dec, spec_dec, str_eq};
use vstd::string::StringExecFns;

verus! {

/// The web endpoint of the protocol.
pub const WHATSAPP_WEB_URL: &'static str = "https://web.whatsapp.com";

/// A protocol address (a "Jabber ID"): a user or group identifier, the
/// server domain it lives on, and an optional device number.
#[derive(Debug, Clone)]
pub struct JID {
    pub user: String,
    pub server: String,
    pub device: Option<u32>,
}

/// The mathematical value of a `JID`.
#[verifier::ext_equal]
pub struct JIDView {
    pub user: Seq<char>,
    pub server: Seq<char>,
    pub device: Option<u32>,
}

impl View for JID {
    type V = JIDView;

    open spec fn view(&self) -> JIDView {
        JIDView { user: self.user@, server: self.server@, device: self.device }
    }
}

impl JIDView {
    /// The canonical rendering: user, '@', server, and for a device
    /// address a '.' and the device number in decimal.
    pub open spec fn spec_str(self) -> Seq<char> {
        match self.device {
            Some(d) => self.user + seq!['@'] + self.server + seq!['.'] + spec_dec(d as nat),
            None => self.user + seq!['@'] + self.server,
        }
    }
}

impl JID {
    pub fn new(user: &str, server: &str, device: Option<u32>) -> (r: Self)
        ensures
            r@.user == user@,
            r@.server == server@,
            r@.device == device,
    {
        JID { user: user.to_owned(), server: server.to_owned(), device }
    }

    /// Whether this address is an individual user on the user domain.
    pub fn is_user(&self) -> (r: bool)
        ensures
            r == (self@.server == "s.whatsapp.net"@),
    {
        str_eq(self.server.as_str(), "s.whatsapp.net")
    }

    /// Whether this address is a group on the group domain.
    pub fn is_group(&self) -> (r: bool)
        ensures
            r == (self@.server == "g.us"@),
    {
        str_eq(self.server.as_str(), "g.us")
    }

    /// A copy whose value equals this address's value.
    pub fn deep_clone(&self) -> (r: Self)
        ensures
            r@ == self@,
    {
        JID { user: self.user.clone(), server: self.server.clone(), device: self.device }
    }

    /// The canonical rendering of the address.
    pub fn to_string(&self) -> (r: String)
        ensures
            r@ == self@.spec_str(),
    {
        let mut r = self.user.clone();
        push_char(&mut r, '@');
        r.append(self.server.as_str());
        match self.device {
            Some(d) => {
                push_char(&mut r, '.');
                push_dec(&mut r, d as u64);
            },
            None => {},
        }
        assert(r@ =~= self@.spec_str());
        r
    }
}

/// Supported media types.
#[derive(Debug, Clone, PartialEq, Eq)]
pub enum MediaType {
    Image,
    Video,
    Audio,
    Document,
    Sticker,
}

/// A message as application code describes one before it is built:
/// optional text, optional media with its type, encoding and caption.
#[derive(Debug, Clone)]
pub struct Message {
    pub text: Option<String>,
    pub media_url: Option<String>,
    pub media_type: Option<MediaType>,
    pub mime_type: Option<String>,
    pub caption: Option<String>,
}

/// Client configuration options.
#[derive(Debug, Clone)]
pub struct ClientConfig {
    pub store_path: String,
    pub log_level: client::LogLevel,
}

/// Session events, delivered to every registered observer.
#[derive(Debug)]
pub enum Event {
    /// Connection established.
    Connected,
    /// Connection lost.
    Disconnected,
    /// Pairing token issued for authentication.
    QRCodeGenerated(String),
    /// Authentication successful.
    LoggedIn(JID),
    /// Authentication lost.
    LoggedOut,
    /// Message received.
    MessageReceived(message::Message),
    /// Message status update.
    MessageStatus(message::MessageReceipt),
    /// Group update.
    GroupUpdate(JID, String),
    /// Presence update.
    Presence(JID, bool),
    /// Error event.
    Error(error::WhatsAppError),
    /// Custom event.
    Custom(String, String),
}

/// The mathematical value of an `Event`: the same variant over the values
/// of its payload.
#[verifier::ext_equal]
pub enum EventView {
    Connected,
    Disconnected,
    QRCodeGenerated(Seq<char>),
    LoggedIn(JIDView),
    LoggedOut,
    MessageReceived(message::MessageView),
    MessageStatus(message::MessageReceiptView),
    GroupUpdate(JIDView, Seq<char>),
    Presence(JIDView, bool),
    Error(error::ErrorView),
    Custom(Seq<char>, Seq<char>),
}

impl View for Event {
    type V = EventView;

    open spec fn view(&self) -> EventView {
        match self {
            Event::Connected => EventView::Connected,
            Event::Disconnected => EventView::Disconnected,
            Event::QRCodeGenerated(s) => EventView::QRCodeGenerated(s@),
            Event::LoggedIn(j) => EventView::LoggedIn(j@),
            Event::LoggedOut => EventView::LoggedOut,
            Event::MessageReceived(m) => EventView::MessageReceived(m@),
            Event::MessageStatus(r) => EventView::MessageStatus(r@),
            Event::GroupUpdate(j, s) => EventView::GroupUpdate(j@, s@),
            Event::Presence(j, b) => EventView::Presence(j@, *b),
            Event::Error(e) => EventView::Error(e@),
            Event::Custom(k, v) => EventView::Custom(k@, v@),
        }
    }
}

/// A minimal client over the event machinery alone: a connection flag and
/// the observer list, with stubbed sending. The full session manager, with
/// device identity, authentication and a transport, is `client::Client`.
pub struct Client<S: EventSink> {
    /// The configuration the client was built with.
    pub config: ClientConfig,
    /// The registered observers.
    pub event_handlers: EventDispatcher<S>,
    /// The connection flag.
    pub connected: bool,
}

impl<S: EventSink> Client<S> {
    /// Create a new client: disconnected, with no observers.
    pub fn new(config: ClientConfig) -> (r: Self)
        ensures
            !r.connected,
            r.event_handlers.sinks@.len() == 0,
    {
        Client { config, event_handlers: EventDispatcher::new(), connected: false }
    }

    /// Connect: set the flag and tell every observer.
    pub fn connect(&mut self) -> (r: Result<(), WhatsAppError>)
        ensures
            r is Ok,
            final(self).connected,
            final(self).config == old(self).config,
            final(self).event_handlers.sinks@.len() == old(self).event_handlers.sinks@.len(),
            forall|i: int|
                0 <= i < old(self).event_handlers.sinks@.len() ==> #[trigger] final(self).event_handlers.sinks@[i].delivered() == old(self).event_handlers.sinks@[i].delivered().push(EventView::Connected),
    {
        self.connected = true;
        self.event_handlers.dispatch(&Event::Connected);
        Ok(())
    }

    /// Disconnect: clear the flag and tell every observer.
    pub fn disconnect(&mut self) -> (r: Result<(), WhatsAppError>)
        ensures
            r is Ok,
            !final(self).connected,
            final(self).config == old(self).config,
            final(self).event_handlers.sinks@.len() == old(self).event_handlers.sinks@.len(),
            forall|i: int|
                0 <= i < old(self).event_handlers.sinks@.len() ==> #[trigger] final(self).event_handlers.sinks@[i].delivered() == old(self).event_handlers.sinks@[i].delivered().push(EventView::Disconnected),
    {
        self.connected = false;
        self.event_handlers.dispatch(&Event::Disconnected);
        Ok(())
    }

    /// Register an observer; observers are never removed.
    pub fn add_event_handler(&mut self, handler: S)
        ensures
            final(self).event_handlers.sinks@ == old(self).event_handlers.sinks@.push(handler),
            final(self).connected == old(self).connected,
            final(self).config == old(self).config,
    {
        self.event_handlers.register(handler);
    }

    /// Send a text message. The transmission itself belongs to the session
    /// manager's transport; this minimal client accepts every message.
    pub fn send_text_message(&self, _to: JID, _text: &str) -> (r: Result<(), WhatsAppError>)
        ensures
            r is Ok,
    {
        Ok(())
    }

    /// Send a media message. The transmission itself belongs to the
    /// session manager's transport; this minimal client accepts every
    /// message.
    pub fn send_media_message(
        &self,
        _to: JID,
        _media_url: &str,
        _media_type: MediaType,
        _mime_type: &str,
        _caption: Option<&str>,
    ) -> (r: Result<(), WhatsAppError>)
        ensures
            r is Ok,
    {
        Ok(())
    }

    /// Non-blocking snapshot of the connection flag.
    pub fn is_connected(&self) -> (r: bool)
        ensures
            r == self.connected,
    {
        self.connected
    }
}

impl Event {
    /// A copy whose value equals this event's value.
    pub fn deep_clone(&self) -> (r: Self)
        ensures
            r@ == self@,
    {
        match self {
            Event::Connected => Event::Connected,
            Event::Disconnected => Event::Disconnected,
            Event::QRCodeGenerated(s) => Event::QRCodeGenerated(s.clone()),
            Event::LoggedIn(j) => Event::LoggedIn(j.deep_clone()),
            Event::LoggedOut => Event::LoggedOut,
            Event::MessageReceived(m) => Event::MessageReceived(m.deep_clone()),
            Event::MessageStatus(r) => Event::MessageStatus(r.deep_clone()),
            Event::GroupUpdate(j, s) => Event::GroupUpdate(j.deep_clone(), s.clone()),
            Event::Presence(j, b) => Event::Presence(j.deep_clone(), *b),
            Event::Error(e) => Event::Error(e.deep_clone()),
            Event::Custom(k, v) => Event::Custom(k.clone(), v.clone()),
        }
    }
}

} // verus!
