//! Reading the fields of a WS-Discovery reply: the text of the first element
//! with a given local name.

use vstd::prelude::*;
use vstd::string::StrSliceExecFns;
use crate::client::discovery::{
    chars_of, joined_by_space, matches_at, split_scopes, texts, SeenAddresses,
};
use crate::device::{Device, DeviceTypes};
use crate::trusted::{parse_url, url_parsed};

verus! {

/// An opening tag of the element `name` starts at `k`: `<name>`, or the end
/// `:name>` of a prefixed `<p:name>`.
pub open spec fn tag_at(doc: Seq<char>, name: Seq<char>, k: int) -> bool {
    &&& 0 <= k
    &&& k + name.len() + 2 <= doc.len()
    &&& (doc[k] == '<' || doc[k] == ':')
    &&& doc.subrange(k + 1, k + 1 + name.len()) == name
    &&& doc[k + 1 + name.len()] == '>'
}

/// The first position at or after `start` that holds `<`, or the end of `doc`.
pub open spec fn text_end(doc: Seq<char>, start: int) -> int
    decreases doc.len() - start,
{
    if start >= doc.len() {
        doc.len() as int
    } else if doc[start] == '<' {
        start
    } else {
        text_end(doc, start + 1)
    }
}

/// The position of the first opening tag of the element `name` in `doc`.
pub open spec fn first_tag(doc: Seq<char>, name: Seq<char>) -> int {
    choose|k: int| tag_at(doc, name, k) && forall|j: int| 0 <= j < k ==> !tag_at(doc, name, j)
}

/// The text of the first element `name` of `doc`: what follows its first
/// opening tag up to the next `<` or the end; `None` when no such tag occurs.
pub open spec fn element_text_of(doc: Seq<char>, name: Seq<char>) -> Option<Seq<char>> {
    if exists|k: int| tag_at(doc, name, k) {
        let start = first_tag(doc, name) + name.len() + 2;
        Some(doc.subrange(start, text_end(doc, start)))
    } else {
        None
    }
}

/// The text of an optional string.
pub open spec fn opt_text(s: Option<String>) -> Option<Seq<char>> {
    match s {
        Some(t) => Some(t@),
        None => None,
    }
}

proof fn lemma_text_end(doc: Seq<char>, start: int, e: int)
    requires
        0 <= start <= e <= doc.len(),
        e == doc.len() || doc[e] == '<',
        forall|j: int| start <= j < e ==> doc[j] != '<',
    ensures
        text_end(doc, start) == e,
    decreases e - start,
{
    if start < e {
        lemma_text_end(doc, start + 1, e);
    }
}

/// `text` is the text of the element `name` whose opening tag at `k` is the
/// first one in `doc`: what follows that tag up to `e`, the next `<` or the end.
pub open spec fn first_element_text(doc: Seq<char>, name: Seq<char>, k: int, e: int, text: Seq<
    char,
>) -> bool {
    &&& tag_at(doc, name, k)
    &&& forall|j: int| 0 <= j < k ==> !tag_at(doc, name, j)
    &&& k + name.len() + 2 <= e <= doc.len()
    &&& (e == doc.len() || doc[e] == '<')
    &&& forall|j: int| k + name.len() + 2 <= j < e ==> doc[j] != '<'
    &&& text == doc.subrange(k + name.len() + 2, e)
}

/// The text of the first element `name` of `doc`: what follows its first
/// opening tag up to the next `<` (or to the end of `doc`); `None` when no
/// such tag occurs.
pub fn element_text(doc: &str, name: &str) -> (text: Option<String>)
    ensures
        text is Some <==> exists|k: int| tag_at(doc@, name@, k),
        text is Some ==> exists|k: int, e: int|
            #[trigger] first_element_text(doc@, name@, k, e, text->0@),
        opt_text(text) == element_text_of(doc@, name@),
{
    let d = chars_of(doc);
    let n = chars_of(name);
    let len = d.len();
    let nl = n.len();
    if nl > len || len - nl < 2 {
        proof {
            assert forall|k: int| !tag_at(doc@, name@, k) by {}
        }
        return None;
    }
    let last = len - nl - 2;
    let mut k: usize = 0;
    while k <= last
        invariant
            d@ == doc@,
            n@ == name@,
            len == d@.len(),
            nl == n@.len(),
            last + nl + 2 == len,
            k <= last + 1,
            forall|j: int| 0 <= j < k ==> !tag_at(doc@, name@, j),
        decreases last + 1 - k,
    {
        if (d[k] == '<' || d[k] == ':') && matches_at(&n, &d, k + 1) && d[k + 1 + nl] == '>' {
            let start = k + nl + 2;
            let mut e = start;
            while e < len && d[e] != '<'
                invariant
                    d@ == doc@,
                    len == d@.len(),
                    start <= e <= len,
                    forall|j: int| start <= j < e ==> doc@[j] != '<',
                decreases len - e,
            {
                e = e + 1;
            }
            let t = doc.substring_char(start, e).to_string();
            let found = Some(t);
            proof {
                assert(first_element_text(doc@, name@, k as int, e as int, found->0@));
                assert(tag_at(doc@, name@, k as int));
                let k2 = first_tag(doc@, name@);
                assert(tag_at(doc@, name@, k2) && forall|j: int|
                    0 <= j < k2 ==> !tag_at(doc@, name@, j));
                assert(k2 == k);
                lemma_text_end(doc@, start as int, e as int);
            }
            return found;
        }
        k = k + 1;
    }
    proof {
        assert forall|j: int| !tag_at(doc@, name@, j) by {
            if 0 <= j && j + name@.len() + 2 <= doc@.len() {
                assert(j < k);
            }
        }
    }
    None
}

/// Why a discovery reply names no device.
#[derive(Debug, Clone, Copy, PartialEq, Eq)]
pub enum ReplyError {
    /// The reply has no `XAddrs` element.
    MissingXAddrs,
    /// The `XAddrs` text is not a URL.
    BadXAddrs,
    /// The reply has no `Types` element.
    MissingTypes,
    /// The reply has no `Scopes` element.
    MissingScopes,
}

/// What a discovery reply gives: its first `XAddrs` text parsed as the
/// device's URL, the presence of its `Types`, and its `Scopes` text split at
/// every space; the first of these that fails decides the error.
pub open spec fn reply_gives(reply: Seq<char>, device: Result<Device, ReplyError>) -> bool {
    match element_text_of(reply, "XAddrs"@) {
        None => device == Err::<Device, ReplyError>(ReplyError::MissingXAddrs),
        Some(xaddrs) => match url_parsed(xaddrs) {
            None => device == Err::<Device, ReplyError>(ReplyError::BadXAddrs),
            Some(url) => if element_text_of(reply, "Types"@) is None {
                device == Err::<Device, ReplyError>(ReplyError::MissingTypes)
            } else {
                match element_text_of(reply, "Scopes"@) {
                    None => device == Err::<Device, ReplyError>(ReplyError::MissingScopes),
                    Some(scopes) => device matches Ok(d) && {
                        &&& d.url_onvif == url
                        &&& d.device_type == DeviceTypes::Camera
                        &&& d.auth is None
                        &&& d.scopes@.len() >= 1
                        &&& joined_by_space(texts(d.scopes@)) == scopes
                        &&& forall|k: int|
                            0 <= k < d.scopes@.len() ==> !(#[trigger] d.scopes@[k])@.contains(' ')
                    },
                }
            },
        },
    }
}

/// The device that a discovery reply describes. The probe asks only for
/// network video transmitters, so every device that answers it is a camera.
pub fn device_from_reply(reply: &str) -> (device: Result<Device, ReplyError>)
    ensures
        reply_gives(reply@, device),
{
    let xaddrs = match element_text(reply, "XAddrs") {
        Some(x) => x,
        None => return Err(ReplyError::MissingXAddrs),
    };
    let url_onvif = match parse_url(xaddrs.as_str()) {
        Some(u) => u,
        None => return Err(ReplyError::BadXAddrs),
    };
    if element_text(reply, "Types").is_none() {
        return Err(ReplyError::MissingTypes);
    }
    let scopes = match element_text(reply, "Scopes") {
        Some(s) => s,
        None => return Err(ReplyError::MissingScopes),
    };
    Ok(Device {
        url_onvif,
        device_type: DeviceTypes::Camera,
        scopes: split_scopes(scopes.as_str()),
        auth: None,
    })
}

/// What `discover` does with one reply.
#[derive(Debug)]
pub enum ReplyStep {
    /// The sender has replied before: the reply is passed over.
    AlreadySeen,
    /// A new sender, and the device its reply names.
    Found(Device),
    /// A new sender whose reply names no device, and why.
    Rejected(ReplyError),
}

/// The addresses seen after a reply from `addr`: a new sender is added at the
/// end, a known one changes nothing.
pub open spec fn seen_after(seen: Seq<Seq<char>>, addr: Seq<char>) -> Seq<Seq<char>> {
    if seen.contains(addr) {
        seen
    } else {
        seen.push(addr)
    }
}

/// The addresses seen after replies from `senders`, in that order, starting
/// from none.
pub open spec fn seen_after_all(senders: Seq<Seq<char>>) -> Seq<Seq<char>>
    decreases senders.len(),
{
    if senders.len() == 0 {
        seq![]
    } else {
        seen_after(seen_after_all(senders.drop_last()), senders.last())
    }
}

/// What a step says of the reply: nothing when the sender was seen before,
/// otherwise the device or the error.
pub open spec fn step_result(step: ReplyStep) -> Option<Result<Device, ReplyError>> {
    match step {
        ReplyStep::AlreadySeen => None,
        ReplyStep::Found(d) => Some(Ok(d)),
        ReplyStep::Rejected(e) => Some(Err(e)),
    }
}

/// Takes in the reply `reply` from the sender `addr`: a sender seen before is
/// passed over; a new one is remembered and its reply read for a device.
pub fn on_reply(seen: &mut SeenAddresses, addr: &str, reply: &str) -> (step: ReplyStep)
    ensures
        final(seen)@ == seen_after(old(seen)@, addr@),
        old(seen)@.contains(addr@) <==> step is AlreadySeen,
        !old(seen)@.contains(addr@) ==> reply_gives(reply@, step_result(step)->0),
{
    if seen.contains(addr) {
        return ReplyStep::AlreadySeen;
    }
    seen.remember(addr);
    match device_from_reply(reply) {
        Ok(device) => ReplyStep::Found(device),
        Err(e) => ReplyStep::Rejected(e),
    }
}

/// The order in which `senders` first replied: `order[k]` is the place of the
/// first reply from `seen[k]`, and the places increase.
pub open spec fn first_reply_order(
    senders: Seq<Seq<char>>,
    seen: Seq<Seq<char>>,
    order: Seq<int>,
) -> bool {
    &&& order.len() == seen.len()
    &&& forall|k: int| 0 <= k < order.len() ==> 0 <= #[trigger] order[k] < senders.len()
    &&& forall|k: int| 0 <= k < order.len() ==> senders[#[trigger] order[k]] == seen[k]
    &&& forall|k: int, j: int| 0 <= k < order.len() && 0 <= j < order[k] ==> senders[j] != seen[k]
    &&& forall|k: int, l: int| 0 <= k < l < order.len() ==> order[k] < order[l]
}

proof fn lemma_first_replies(senders: Seq<Seq<char>>) -> (order: Seq<int>)
    ensures
        seen_after_all(senders).no_duplicates(),
        forall|a: Seq<char>| seen_after_all(senders).contains(a) <==> senders.contains(a),
        first_reply_order(senders, seen_after_all(senders), order),
    decreases senders.len(),
{
    if senders.len() == 0 {
        seq![]
    } else {
        let before = senders.drop_last();
        let a = senders.last();
        let n = senders.len() - 1;
        let p = seen_after_all(before);
        let fp = lemma_first_replies(before);
        assert forall|x: Seq<char>| senders.contains(x) <==> before.contains(x) || x == a by {
            if senders.contains(x) {
                let i = choose|i: int| 0 <= i < senders.len() && senders[i] == x;
                if i < n {
                    assert(before[i] == x);
                }
            }
            if before.contains(x) {
                let i = choose|i: int| 0 <= i < before.len() && before[i] == x;
                assert(senders[i] == x);
            }
            if x == a {
                assert(senders[n] == x);
            }
        }
        if p.contains(a) {
            assert forall|k: int, j: int|
                0 <= k < fp.len() && 0 <= j < fp[k] implies senders[j] != p[k] by {
                assert(senders[j] == before[j]);
            }
            assert forall|k: int| 0 <= k < fp.len() implies senders[#[trigger] fp[k]] == p[k] by {
                assert(senders[fp[k]] == before[fp[k]]);
            }
            fp
        } else {
            let r = p.push(a);
            let f = fp.push(n);
            assert(!before.contains(a));
            assert forall|i: int, j: int| 0 <= i < j < r.len() implies r[i] != r[j] by {
                if j == r.len() - 1 {
                    assert(p[i] == r[i]);
                }
            }
            assert forall|x: Seq<char>| r.contains(x) <==> senders.contains(x) by {
                if r.contains(x) {
                    let i = choose|i: int| 0 <= i < r.len() && r[i] == x;
                    if i < p.len() {
                        assert(p[i] == x);
                    }
                }
                if p.contains(x) {
                    let i = choose|i: int| 0 <= i < p.len() && p[i] == x;
                    assert(r[i] == x);
                }
                if x == a {
                    assert(r[p.len() as int] == x);
                }
            }
            assert forall|k: int| 0 <= k < f.len() implies senders[#[trigger] f[k]] == r[k] by {
                if k < fp.len() {
                    assert(senders[fp[k]] == before[fp[k]]);
                }
            }
            assert forall|k: int, j: int|
                0 <= k < f.len() && 0 <= j < f[k] implies senders[j] != r[k] by {
                assert(senders[j] == before[j]);
                if k == fp.len() {
                    assert(before[j] != a) by {
                        if before[j] == a {
                            assert(before.contains(a));
                        }
                    }
                }
            }
            f
        }
    }
}

/// Replies from `senders`, taken in by `on_reply` from no address seen, name
/// one device (or one error) per distinct sender, in the order of each
/// sender's first reply: the senders read are exactly those that replied,
/// none twice, each at its first reply.
pub proof fn lemma_one_device_per_sender(senders: Seq<Seq<char>>)
    ensures
        seen_after_all(senders).no_duplicates(),
        forall|a: Seq<char>| seen_after_all(senders).contains(a) <==> senders.contains(a),
        exists|order: Seq<int>| first_reply_order(senders, seen_after_all(senders), order),
{
    let order = lemma_first_replies(senders);
}

} // verus!
