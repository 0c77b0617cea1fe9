//! The collaboration screen: connecting to a server and explaining failures.
use vstd::prelude::*;

use crate::text::{chars_of, contains, contains_chars, occurs_at, starts_with, starts_with_chars, trim, trim_chars};

verus! {

/// The number of frames in the "connecting" signal animation.
pub const N_CONNECTION_ICONS: usize = 5;

/// The message shown for a connection error `msg` met while connecting to `url`.
pub open spec fn connect_error_message(msg: Seq<char>, url: Seq<char>) -> Seq<char> {
    if contains(msg, "parse"@) {
        "Invalid URL"@
    } else if contains(msg, "scheme not supported"@) {
        let url = trim(url);
        let ws = starts_with(url, "ws:/"@);
        let wss = starts_with(url, "wss:/"@);
        if !ws && !wss {
            "URL should use ws:// or wss:// scheme"@
        } else if ws && !wss {
            "ws:// not supported. Try wss://"@
        } else if !ws && wss {
            "wss:// not supported. Try ws://"@
        } else {
            "Invalid server protocol"@
        }
    } else if contains(msg, "HTTP error"@) {
        "Invalid server protocol"@
    } else if contains(msg, "Unable to connect"@) {
        "Could not connect to server"@
    } else {
        msg
    }
}

/// Turns the error of a failed connection to `url` into a message for the user.
pub fn cleanup_connect_error_message(msg: String, url: &str) -> (r: String)
    ensures
        r@ == connect_error_message(msg@, url@),
{
    let m = chars_of(msg.as_str());
    if contains_chars(&m, &chars_of("parse")) {
        return "Invalid URL".to_owned();
    }
    if contains_chars(&m, &chars_of("scheme not supported")) {
        let url = trim_chars(&chars_of(url));
        let ws = starts_with_chars(&url, &chars_of("ws:/"));
        let wss = starts_with_chars(&url, &chars_of("wss:/"));
        return if !ws && !wss {
            "URL should use ws:// or wss:// scheme".to_owned()
        } else if ws && !wss {
            "ws:// not supported. Try wss://".to_owned()
        } else if !ws && wss {
            "wss:// not supported. Try ws://".to_owned()
        } else {
            "Invalid server protocol".to_owned()
        };
    }
    if contains_chars(&m, &chars_of("HTTP error")) {
        return "Invalid server protocol".to_owned();
    }
    if contains_chars(&m, &chars_of("Unable to connect")) {
        return "Could not connect to server".to_owned();
    }
    msg
}

/// A text that lacks one of the characters of `pat` does not contain `pat`.
proof fn lemma_missing_char(s: Seq<char>, pat: Seq<char>, j: int)
    requires
        0 <= j < pat.len(),
        !s.contains(pat[j]),
    ensures
        !contains(s, pat),
{
    if contains(s, pat) {
        let i = choose|i: int| occurs_at(s, pat, i);
        assert(s.subrange(i, i + pat.len())[j] == s[i + j]);
    }
}

/// A text in which the characters `pat[j]`, `pat[j + 1]` never stand side by side does not
/// contain `pat`.
proof fn lemma_missing_pair(s: Seq<char>, pat: Seq<char>, j: int)
    requires
        0 <= j,
        j + 1 < pat.len(),
        forall|i: int| 0 <= i < s.len() - 1 && #[trigger] s[i] == pat[j] ==> s[i + 1] != pat[j + 1],
    ensures
        !contains(s, pat),
{
    if contains(s, pat) {
        let i = choose|i: int| occurs_at(s, pat, i);
        assert(s.subrange(i, i + pat.len())[j] == s[i + j]);
        assert(s.subrange(i, i + pat.len())[j + 1] == s[i + j + 1]);
    }
}

/// A message that holds none of the telltale phrases is shown as it is.
proof fn lemma_plain_message(msg: Seq<char>, url: Seq<char>)
    requires
        !contains(msg, "parse"@),
        !contains(msg, "scheme not supported"@),
        !contains(msg, "HTTP error"@),
        !contains(msg, "Unable to connect"@),
    ensures
        connect_error_message(msg, url) == msg,
{
}

/// Cleaning up a message that was already cleaned up changes nothing: each message it gives
/// holds none of the phrases that it looks for.
pub proof fn lemma_cleanup_idempotent(msg: Seq<char>, url: Seq<char>)
    ensures
        connect_error_message(connect_error_message(msg, url), url) == connect_error_message(msg, url),
{
    reveal_strlit("parse");
    reveal_strlit("scheme not supported");
    reveal_strlit("HTTP error");
    reveal_strlit("Unable to connect");
    reveal_strlit("Invalid URL");
    reveal_strlit("URL should use ws:// or wss:// scheme");
    reveal_strlit("ws:// not supported. Try wss://");
    reveal_strlit("wss:// not supported. Try ws://");
    reveal_strlit("Invalid server protocol");
    reveal_strlit("Could not connect to server");
    let parse = "parse"@;
    let scheme = "scheme not supported"@;
    let http = "HTTP error"@;
    let unable = "Unable to connect"@;

    let m = "Invalid URL"@;
    lemma_missing_char(m, parse, 0);
    lemma_missing_char(m, scheme, 2);
    lemma_missing_char(m, http, 0);
    lemma_missing_char(m, unable, 3);
    lemma_plain_message(m, url);

    let m = "URL should use ws:// or wss:// scheme"@;
    lemma_missing_char(m, parse, 1);
    lemma_missing_char(m, scheme, 7);
    lemma_missing_char(m, http, 0);
    lemma_missing_char(m, unable, 3);
    lemma_plain_message(m, url);

    let m = "ws:// not supported. Try wss://"@;
    lemma_missing_char(m, parse, 1);
    lemma_missing_char(m, scheme, 2);
    lemma_missing_char(m, http, 0);
    lemma_missing_char(m, unable, 3);
    lemma_plain_message(m, url);

    let m = "wss:// not supported. Try ws://"@;
    lemma_missing_char(m, parse, 1);
    lemma_missing_char(m, scheme, 2);
    lemma_missing_char(m, http, 0);
    lemma_missing_char(m, unable, 3);
    lemma_plain_message(m, url);

    let m = "Invalid server protocol"@;
    lemma_missing_pair(m, parse, 0);
    lemma_missing_char(m, scheme, 2);
    lemma_missing_char(m, http, 0);
    lemma_missing_char(m, unable, 3);
    lemma_plain_message(m, url);

    let m = "Could not connect to server"@;
    lemma_missing_char(m, parse, 1);
    lemma_missing_char(m, scheme, 2);
    lemma_missing_char(m, http, 0);
    lemma_missing_char(m, unable, 3);
    lemma_plain_message(m, url);
}

/// What the open socket reported this frame.
pub enum SocketEvent {
    /// The server's welcome message arrived.
    Welcome,
    /// The socket failed with this error.
    Error(String),
    /// The socket closed.
    Closed,
    /// Nothing happened yet.
    Pending,
}

/// The collaboration screen: the server's URL, the socket being opened (of type `S`), the
/// error to show and the frame of the "connecting" animation.
pub struct CollabScreen<S> {
    pub url: String,
    pub socket: Option<S>,
    pub error: String,
    pub connection_icon_idx: usize,
}

impl<S> CollabScreen<S> {

    /// A screen with an empty URL, no socket and no error.
    pub fn new() -> (r: Self)
        ensures
            r.url@ == Seq::<char>::empty(),
            r.socket is None,
            r.error@ == Seq::<char>::empty(),
            r.connection_icon_idx == 0,
    {
        CollabScreen { url: String::new(), socket: None, error: String::new(), connection_icon_idx: 0 }
    }

    /// Moves the "connecting" animation to its next frame, wrapping around.
    pub fn advance_connection_icon(&mut self)
        requires
            old(self).connection_icon_idx < N_CONNECTION_ICONS,
        ensures
            final(self).connection_icon_idx == (old(self).connection_icon_idx + 1)
                % (N_CONNECTION_ICONS as int),
            final(self).url == old(self).url,
            final(self).error == old(self).error,
            final(self).socket == old(self).socket,
    {
        self.connection_icon_idx = (self.connection_icon_idx + 1) % N_CONNECTION_ICONS;
    }

    /// Takes the outcome of opening a socket to `self.url` after "Connect" was pressed: the
    /// error is cleared, then either the socket is kept or the failure is explained.
    pub fn connect_result(&mut self, result: Result<S, String>)
        ensures
            final(self).url == old(self).url,
            final(self).connection_icon_idx == old(self).connection_icon_idx,
            match result {
                Ok(socket) => final(self).socket == Some(socket) && final(self).error@
                    == Seq::<char>::empty(),
                Err(msg) => final(self).socket == old(self).socket && final(self).error@
                    == connect_error_message(msg@, old(self).url@),
            },
    {
        self.error = String::new();
        match result {
            Ok(socket) => {
                self.socket = Some(socket);
            },
            Err(msg) => {
                self.error = cleanup_connect_error_message(msg, self.url.as_str());
            },
        }
    }

    /// Reacts to what the open socket reported. On the welcome message the socket is handed
    /// back, to open the editor with; on an error or a close the socket is dropped and the
    /// failure explained; otherwise nothing changes.
    pub fn on_socket_event(&mut self, event: SocketEvent) -> (taken: Option<S>)
        requires
            old(self).socket is Some,
        ensures
            final(self).url == old(self).url,
            final(self).connection_icon_idx == old(self).connection_icon_idx,
            match event {
                SocketEvent::Welcome => taken == old(self).socket && final(self).socket is None
                    && final(self).error == old(self).error,
                SocketEvent::Error(err) => taken is None && final(self).socket is None
                    && final(self).error@ == connect_error_message(err@, old(self).url@),
                SocketEvent::Closed => taken is None && final(self).socket is None
                    && final(self).error@ == "Could not connect to server."@,
                SocketEvent::Pending => taken is None && final(self).socket == old(self).socket
                    && final(self).error == old(self).error,
            },
    {
        match event {
            SocketEvent::Welcome => self.socket.take(),
            SocketEvent::Error(err) => {
                self.error = cleanup_connect_error_message(err, self.url.as_str());
                self.socket = None;
                None
            },
            SocketEvent::Closed => {
                self.error = "Could not connect to server.".to_owned();
                self.socket = None;
                None
            },
            SocketEvent::Pending => None,
        }
    }

    /// Records why the editor could not be opened from the server's welcome message.
    pub fn editor_failed(&mut self, msg: String)
        ensures
            final(self).error == msg,
            final(self).url == old(self).url,
            final(self).socket == old(self).socket,
            final(self).connection_icon_idx == old(self).connection_icon_idx,
    {
        self.error = msg;
    }
}

} // verus!
