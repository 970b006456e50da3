//! The event payload sent to connected clients: a JSON object with a single
//! `event` field holding the tag of the mutation that occurred
//! (`"new"`, `"update"`, `"delete_one"`, `"delete_all"`, or another tag the
//! caller chooses). Serialization and parsing of this fixed shape are written
//! here directly, with the wire format pinned down in specifications.

use vstd::prelude::*;
use vstd::string::*;

verus! {

/// A tag character is valid when it needs no JSON string escaping: not a
/// quote, not a backslash, and not a control character.
pub open spec fn valid_tag_char(c: char) -> bool {
    c != '"' && c != '\\' && c as u32 >= 32
}

/// A tag is valid when every character of it is valid.
pub open spec fn valid_tag(t: Seq<char>) -> bool {
    forall|i: int| 0 <= i < t.len() ==> valid_tag_char(t[i])
}

/// The characters that precede the tag on the wire.
pub open spec fn json_prefix() -> Seq<char> {
    "{\"event\":\""@
}

/// The characters that follow the tag on the wire.
pub open spec fn json_suffix() -> Seq<char> {
    "\"}"@
}

/// The wire frame for a tag: `{"event":"<tag>"}`.
pub open spec fn spec_serialize(t: Seq<char>) -> Seq<char> {
    json_prefix() + t + json_suffix()
}

/// The tag recovered from a wire frame, if the frame has exactly the shape
/// `{"event":"<tag>"}` with a valid tag between the quotes.
pub open spec fn spec_parse(f: Seq<char>) -> Option<Seq<char>> {
    let p = json_prefix();
    let s = json_suffix();
    if f.len() >= p.len() + s.len() && f.subrange(0, p.len() as int) == p
        && f.subrange(f.len() - s.len(), f.len() as int) == s
        && valid_tag(f.subrange(p.len() as int, f.len() - s.len())) {
        Some(f.subrange(p.len() as int, f.len() - s.len()))
    } else {
        None
    }
}

/// Checks that every character of `tag` is valid for the wire format.
pub fn check_tag(tag: &str) -> (r: bool)
    ensures
        r == valid_tag(tag@),
{
    let len = tag.unicode_len();
    let mut i: usize = 0;
    while i < len
        invariant
            i <= len,
            len == tag@.len(),
            forall|j: int| 0 <= j < i ==> valid_tag_char(tag@[j]),
        decreases len - i,
    {
        let c = tag.get_char(i);
        if c == '"' || c == '\\' || (c as u32) < 32 {
            assert(!valid_tag_char(tag@[i as int]));
            return false;
        }
        i += 1;
    }
    true
}

/// Serializes a tag to its wire frame `{"event":"<tag>"}`, or refuses a tag
/// that would need escaping.
pub fn serialize_event(tag: &str) -> (r: Option<String>)
    ensures
        valid_tag(tag@) ==> (r matches Some(s) && s@ == spec_serialize(tag@)),
        !valid_tag(tag@) ==> r is None,
{
    if !check_tag(tag) {
        return None;
    }
    let mut s = String::from_str("{\"event\":\"");
    s.append(tag);
    s.append("\"}");
    Some(s)
}

/// Parses a wire frame back to its tag, exactly inverting `serialize_event`.
pub fn parse_event(frame: &str) -> (r: Option<String>)
    ensures
        match r {
            Some(t) => spec_parse(frame@) == Some(t@),
            None => spec_parse(frame@) is None,
        },
{
    proof {
        reveal_strlit("{\"event\":\"");
        reveal_strlit("\"}");
    }
    let n = frame.unicode_len();
    if n < 12 {
        return None;
    }
    let prefix = "{\"event\":\"";
    let mut i: usize = 0;
    while i < 10
        invariant
            i <= 10,
            n == frame@.len(),
            n >= 12,
            prefix@ == json_prefix(),
            prefix@.len() == 10,
            forall|j: int| 0 <= j < i ==> frame@[j] == json_prefix()[j],
        decreases 10 - i,
    {
        if frame.get_char(i) != prefix.get_char(i) {
            assert(frame@.subrange(0, 10) != json_prefix()) by {
                assert(frame@.subrange(0, 10)[i as int] != json_prefix()[i as int]);
            }
            return None;
        }
        i += 1;
    }
    assert(frame@.subrange(0, 10) =~= json_prefix());
    if frame.get_char(n - 2) != '"' || frame.get_char(n - 1) != '}' {
        assert(frame@.subrange(n - 2, n as int) != json_suffix()) by {
            if frame@.subrange(n - 2, n as int) == json_suffix() {
                assert(frame@[n - 2] == json_suffix()[0]);
                assert(frame@[n - 1] == json_suffix()[1]);
            }
        }
        return None;
    }
    assert(frame@.subrange(n - 2, n as int) =~= json_suffix());
    let middle = frame.substring_char(10, n - 2);
    if !check_tag(middle) {
        return None;
    }
    Some(middle.to_owned())
}

/// Round trip: a frame serialized from a valid tag parses back to exactly
/// that tag.
pub proof fn lemma_event_round_trip(t: Seq<char>)
    requires
        valid_tag(t),
    ensures
        spec_parse(spec_serialize(t)) == Some(t),
{
    let p = json_prefix();
    let s = json_suffix();
    let f = spec_serialize(t);
    assert(f.subrange(0, p.len() as int) =~= p);
    assert(f.subrange(f.len() - s.len(), f.len() as int) =~= s);
    assert(f.subrange(p.len() as int, f.len() - s.len()) =~= t);
}

/// The four tags the task handlers notify with are valid for the wire
/// format.
pub proof fn lemma_standard_tags_valid()
    ensures
        valid_tag("new"@),
        valid_tag("update"@),
        valid_tag("delete_one"@),
        valid_tag("delete_all"@),
{
    reveal_strlit("new");
    reveal_strlit("update");
    reveal_strlit("delete_one");
    reveal_strlit("delete_all");
}

/// The notification payload handed to the broadcast fabric: carries the tag
/// of the event that occurred.
pub struct WSNotifications {
    event: String,
}

impl View for WSNotifications {
    type V = Seq<char>;

    closed spec fn view(&self) -> Seq<char> {
        self.event@
    }
}

impl WSNotifications {
    /// Wraps a tag in a payload.
    pub fn new(event: String) -> (r: WSNotifications)
        ensures
            r@ == event@,
    {
        WSNotifications { event }
    }

    /// The tag this payload carries.
    pub fn event(&self) -> (r: &String)
        ensures
            r@ == self@,
    {
        &self.event
    }

    /// The wire frame for this payload, if its tag needs no escaping.
    pub fn to_frame(&self) -> (r: Option<String>)
        ensures
            valid_tag(self@) ==> (r matches Some(s) && s@ == spec_serialize(self@)),
            !valid_tag(self@) ==> r is None,
    {
        serialize_event(self.event.as_str())
    }
}

} // verus!
