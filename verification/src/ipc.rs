//! The string-tagged message protocol between a render surface's page and
//! the host.
//!
//! A surface reports progress by posting small tagged messages; the host
//! parses them into typed events and can inject synthetic ones by
//! evaluating a post-message script. Both directions of the protocol are
//! defined here.

use vstd::prelude::*;

verus! {

use crate::scripts::{spec_decimal, u32_to_decimal};

/// A typed event of the surface protocol.
#[derive(Debug)]
pub enum UserEvent {
    /// The bundle page finished loading.
    PageLoaded,
    /// The current frame finished painting.
    FrameLoaded,
    /// Every frame of the assigned range was painted.
    FramesComplete,
    /// The bundle's serialized composition list.
    GetCompositions(String),
}

/// Whether two strings hold the same characters.
pub fn str_eq(a: &str, b: &str) -> (r: bool)
    ensures
        r == (a@ == b@),
{
    let n = a.unicode_len();
    if n != b.unicode_len() {
        return false;
    }
    let mut i: usize = 0;
    while i < n
        invariant
            n == a@.len(),
            n == b@.len(),
            i <= n,
            forall|j: int| 0 <= j < i ==> a@[j] == b@[j],
        decreases n - i,
    {
        if a.get_char(i) != b.get_char(i) {
            return false;
        }
        i = i + 1;
    }
    proof {
        assert(a@ =~= b@);
    }
    true
}

/// The tag under which `event` travels through the message channel.
pub open spec fn spec_event_key(event: UserEvent) -> Seq<char> {
    match event {
        UserEvent::PageLoaded => "page-loaded"@,
        UserEvent::FrameLoaded => "frame-loaded"@,
        UserEvent::FramesComplete => "frames-complete"@,
        UserEvent::GetCompositions(payload) => "none"@,
    }
}

/// See [`spec_event_key`]. A composition-list event carries a payload and
/// has no bare tag; it maps to the inert tag `none`.
pub fn event_key(event: &UserEvent) -> (r: &'static str)
    ensures
        r@ == spec_event_key(*event),
{
    match event {
        UserEvent::PageLoaded => "page-loaded",
        UserEvent::FrameLoaded => "frame-loaded",
        UserEvent::FramesComplete => "frames-complete",
        UserEvent::GetCompositions(payload) => "none",
    }
}

/// The script that posts `event`'s tag on the surface's message channel,
/// after `delay` milliseconds if a delay is given.
pub open spec fn spec_fire_event_script(event: UserEvent, delay: Option<u32>) -> Seq<char> {
    match delay {
        None => "window.ipc.postMessage('"@ + spec_event_key(event) + "');"@,
        Some(ms) => "setTimeout(() => { window.ipc.postMessage('"@ + spec_event_key(event)
            + "'); }, "@ + spec_decimal(ms as int) + ");"@,
    }
}

/// See [`spec_fire_event_script`].
pub fn fire_event_script(event: &UserEvent, delay: Option<u32>) -> (r: String)
    ensures
        r@ == spec_fire_event_script(*event, delay),
{
    match delay {
        None => {
            let mut s = "window.ipc.postMessage('".to_owned();
            s.append(event_key(event));
            s.append("');");
            s
        },
        Some(ms) => {
            let mut s = "setTimeout(() => { window.ipc.postMessage('".to_owned();
            s.append(event_key(event));
            s.append("'); }, ");
            let digits = u32_to_decimal(ms);
            s.append(digits.as_str());
            s.append(");");
            s
        },
    }
}

/// Whether `msg` is a well-formed message of the surface protocol.
pub open spec fn spec_is_ipc_message(msg: Seq<char>) -> bool {
    ||| msg == "page-loaded"@
    ||| msg == "frame-loaded"@
    ||| msg == "frames-complete"@
    ||| "get-compositions:"@.is_prefix_of(msg)
}

/// Parses one message posted by a surface's page.
///
/// The three bare tags map to their events; a message opening with the
/// composition-list prefix carries the serialized composition list as its
/// payload. Anything else is no event — an unknown message must not abort
/// the host.
pub fn parse_ipc_message(msg: &str) -> (r: Option<UserEvent>)
    ensures
        r is Some <==> spec_is_ipc_message(msg@),
        match r {
            Some(event) => match event {
                UserEvent::PageLoaded => msg@ == "page-loaded"@,
                UserEvent::FrameLoaded => msg@ == "frame-loaded"@,
                UserEvent::FramesComplete => msg@ == "frames-complete"@,
                UserEvent::GetCompositions(payload) => msg@ == "get-compositions:"@ + payload@,
            },
            None => true,
        },
{
    proof {
        reveal_strlit("get-compositions:");
    }
    let prefix = "get-compositions:";
    let n = msg.unicode_len();
    if n >= 17 {
        let head = msg.substring_char(0, 17);
        if str_eq(head, prefix) {
            let payload = msg.substring_char(17, n).to_owned();
            proof {
                assert(msg@ =~= "get-compositions:"@ + payload@);
            }
            return Some(UserEvent::GetCompositions(payload));
        }
    }
    if str_eq(msg, "page-loaded") {
        Some(UserEvent::PageLoaded)
    } else if str_eq(msg, "frame-loaded") {
        Some(UserEvent::FrameLoaded)
    } else if str_eq(msg, "frames-complete") {
        Some(UserEvent::FramesComplete)
    } else {
        proof {
            if "get-compositions:"@.is_prefix_of(msg@) {
                assert(msg@.subrange(0, 17) =~= "get-compositions:"@);
            }
        }
        None
    }
}

} // verus!
